//! Measurement core of a load-cell kitchen scale: the tare/calibrate/weigh
//! state machine, a ring-buffer moving average over raw samples, and a
//! press-duration button classifier.

pub mod average;
pub mod button;
pub mod scale;
