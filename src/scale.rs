//! Tare, calibrate and weigh: the scale's state machine and its conversion
//! of raw load-cell counts into weight.
//!
//! The calibration slope is kept as an exact ratio of integers, raw counts
//! per centigram (hundredth of a gram), and weights come out in whole
//! centigrams, rounded toward zero. The slope is the change in reading per
//! unit of reference weight, `(reading - tare) / reference`, and weighing
//! multiplies by its reciprocal.
use vstd::prelude::*;
use crate::average::{abs, trunc_div};

verus! {

/// Lifecycle phase of the scale. It only moves forward:
/// `Init`, then `Calibrating`, then `Weighing`.
#[derive(Debug, Clone, Copy, PartialEq, Eq, Structural)]
pub enum ScaleMode {
    /// No tare point yet.
    Init,
    /// Tared; waiting for a reference weight.
    Calibrating,
    /// Calibrated; readings convert to weight.
    Weighing,
}

impl Default for ScaleMode {
    fn default() -> (r: Self)
        ensures
            r == ScaleMode::Init,
    {
        ScaleMode::Init
    }
}

/// Why a scale operation was refused.
#[derive(Debug, Clone, Copy, PartialEq, Eq, Structural)]
pub enum ScaleError {
    /// The operation is not allowed in the current mode.
    ProtocolViolation,
    /// The calibration would give a zero slope or divide by zero.
    DegradedCalibration,
}

/// Calibration slope: `counts` raw counts per `centigrams` hundredths of a
/// gram.
#[derive(Debug, Clone, Copy, PartialEq, Eq, Structural)]
pub struct ScaleFactor {
    pub counts: i64,
    pub centigrams: i32,
}

/// Inverse slope: `centigrams` hundredths of a gram per `counts` raw
/// counts.
#[derive(Debug, Clone, Copy, PartialEq, Eq, Structural)]
pub struct ScaleReciprocal {
    pub centigrams: i32,
    pub counts: i64,
}

/// A slope that converts: neither part is zero.
pub open spec fn nondegenerate(s: ScaleFactor) -> bool {
    s.counts != 0 && s.centigrams != 0
}

/// The inverse of a slope.
pub open spec fn reciprocal_of(s: ScaleFactor) -> ScaleReciprocal {
    ScaleReciprocal { centigrams: s.centigrams, counts: s.counts }
}

/// The slope times its reciprocal is exactly one:
/// `(counts / centigrams) * (r.centigrams / r.counts) == 1`, every part
/// nonzero.
pub open spec fn product_is_one(s: ScaleFactor, r: ScaleReciprocal) -> bool {
    &&& s.counts != 0
    &&& s.centigrams != 0
    &&& r.counts != 0
    &&& r.centigrams != 0
    &&& s.counts as int * r.centigrams as int == s.centigrams as int * r.counts as int
}

/// The slope found by calibrating: the reference weight moved the reading
/// from `offset` to `raw_value`.
pub open spec fn calibrated_scale(offset: i32, raw_value: i32, reference_centigrams: i32) -> ScaleFactor {
    ScaleFactor {
        counts: (raw_value as int - offset as int) as i64,
        centigrams: reference_centigrams,
    }
}

/// A nondegenerate slope times its reciprocal is one.
pub proof fn lemma_reciprocal_product(s: ScaleFactor)
    requires
        nondegenerate(s),
    ensures
        product_is_one(s, reciprocal_of(s)),
{
    let a = s.counts as int;
    let b = s.centigrams as int;
    assert(a * b == b * a) by (nonlinear_arith);
}

/// Reading relative to the tare point.
pub open spec fn value_of(raw_value: i32, offset: i32) -> int {
    raw_value as int - offset as int
}

/// Weight in centigrams of a reading `value` counts above the tare point,
/// rounded toward zero.
pub open spec fn units_of(value: int, scale: ScaleFactor) -> int {
    trunc_div(value * scale.centigrams as int, scale.counts as int)
}

/// What a scale holds, as plain values.
pub struct ScaleView {
    pub offset: i32,
    pub scale: ScaleFactor,
    pub mode: ScaleMode,
}

/// The slope a fresh scale starts with: one count per centigram.
pub open spec fn unit_scale() -> ScaleFactor {
    ScaleFactor { counts: 1, centigrams: 1 }
}

/// The scale state machine, with its mode checked at run time.
#[derive(Debug)]
pub struct ActualScaleState {
    offset: i32,
    scale: ScaleFactor,
    scale_reciprocal: ScaleReciprocal,
    mode: ScaleMode,
}

impl View for ActualScaleState {
    type V = ScaleView;

    closed spec fn view(&self) -> ScaleView {
        ScaleView { offset: self.offset, scale: self.scale, mode: self.mode }
    }
}

impl Default for ActualScaleState {
    fn default() -> (r: Self)
        ensures
            r@ == (ScaleView { offset: 0, scale: unit_scale(), mode: ScaleMode::Init }),
    {
        ActualScaleState {
            offset: 0,
            scale: ScaleFactor { counts: 1, centigrams: 1 },
            scale_reciprocal: ScaleReciprocal { centigrams: 1, counts: 1 },
            mode: ScaleMode::default(),
        }
    }
}

/// `a / b` rounded toward zero.
fn div_toward_zero(a: i128, b: i128) -> (q: i128)
    requires
        b != 0,
        a > i128::MIN,
        b > i128::MIN,
    ensures
        q as int == trunc_div(a as int, b as int),
{
    let ua: i128 = if a >= 0 { a } else { -a };
    let ub: i128 = if b >= 0 { b } else { -b };
    let q = ua / ub;
    if (a >= 0) == (b >= 0) {
        q
    } else {
        -q
    }
}

impl ActualScaleState {
    /// The cached reciprocal is always the inverse of the slope, and the
    /// slope never degenerates.
    #[verifier::type_invariant]
    closed spec fn inv(&self) -> bool {
        &&& nondegenerate(self.scale)
        &&& self.scale_reciprocal == reciprocal_of(self.scale)
    }

    /// Records the tare point and moves from `Init` to `Calibrating`.
    /// Refused in any other mode, leaving the state as it was.
    pub fn init(&mut self, offset: i32) -> (r: Result<(), ScaleError>)
        ensures
            old(self)@.mode == ScaleMode::Init ==> r == Ok::<(), ScaleError>(()) && final(self)@
                == (ScaleView { offset, scale: old(self)@.scale, mode: ScaleMode::Calibrating }),
            old(self)@.mode != ScaleMode::Init ==> r == Err::<(), ScaleError>(
                ScaleError::ProtocolViolation,
            ) && final(self)@ == old(self)@,
    {
        if self.mode != ScaleMode::Init {
            return Err(ScaleError::ProtocolViolation);
        }
        self.set_offset(offset);
        proof {
            use_type_invariant(&*self);
        }
        self.mode = ScaleMode::Calibrating;
        Ok(())
    }

    /// Derives the slope from a reading `raw_value` taken with a reference
    /// weight of `reference_centigrams` on the scale, and moves from
    /// `Calibrating` to `Weighing`. Refused outside `Calibrating`; refused
    /// as degraded, staying in `Calibrating`, where the reference weight is
    /// zero or the reading equals the tare point.
    pub fn calibrate(&mut self, raw_value: i32, reference_centigrams: i32) -> (r: Result<
        (),
        ScaleError,
    >)
        ensures
            old(self)@.mode != ScaleMode::Calibrating ==> r == Err::<(), ScaleError>(
                ScaleError::ProtocolViolation,
            ) && final(self)@ == old(self)@,
            old(self)@.mode == ScaleMode::Calibrating && (reference_centigrams == 0 || raw_value
                == old(self)@.offset) ==> r == Err::<(), ScaleError>(
                ScaleError::DegradedCalibration,
            ) && final(self)@ == old(self)@,
            old(self)@.mode == ScaleMode::Calibrating && reference_centigrams != 0 && raw_value
                != old(self)@.offset ==> r == Ok::<(), ScaleError>(()) && final(self)@ == (ScaleView {
                offset: old(self)@.offset,
                scale: calibrated_scale(old(self)@.offset, raw_value, reference_centigrams),
                mode: ScaleMode::Weighing,
            }),
    {
        if self.mode != ScaleMode::Calibrating {
            return Err(ScaleError::ProtocolViolation);
        }
        let counts = raw_value as i64 - self.get_offset() as i64;
        let scale = ScaleFactor { counts, centigrams: reference_centigrams };
        match self.set_scale(scale) {
            Ok(()) => {
                proof {
                    use_type_invariant(&*self);
                }
                self.mode = ScaleMode::Weighing;
                Ok(())
            },
            Err(e) => Err(e),
        }
    }

    fn set_offset(&mut self, offset: i32)
        ensures
            final(self)@ == (ScaleView { offset, ..old(self)@ }),
        no_unwind
    {
        proof {
            use_type_invariant(&*self);
        }
        self.offset = offset;
    }

    /// Replaces the slope, and its reciprocal with it. A slope with a zero
    /// part is refused as degraded and changes nothing.
    pub fn set_scale(&mut self, scale: ScaleFactor) -> (r: Result<(), ScaleError>)
        ensures
            nondegenerate(scale) ==> r == Ok::<(), ScaleError>(()) && final(self)@ == (ScaleView {
                scale,
                ..old(self)@
            }),
            !nondegenerate(scale) ==> r == Err::<(), ScaleError>(ScaleError::DegradedCalibration)
                && final(self)@ == old(self)@,
    {
        if scale.counts == 0 || scale.centigrams == 0 {
            return Err(ScaleError::DegradedCalibration);
        }
        *self = ActualScaleState {
            offset: self.offset,
            scale,
            scale_reciprocal: ScaleReciprocal { centigrams: scale.centigrams, counts: scale.counts },
            mode: self.mode,
        };
        Ok(())
    }

    /// The current slope.
    pub fn get_scale(&self) -> (r: ScaleFactor)
        ensures
            r == self@.scale,
            nondegenerate(r),
    {
        proof {
            use_type_invariant(self);
        }
        self.scale
    }

    /// The cached inverse of the current slope.
    pub fn get_scale_reciprocal(&self) -> (r: ScaleReciprocal)
        ensures
            r == reciprocal_of(self@.scale),
            product_is_one(self@.scale, r),
    {
        proof {
            use_type_invariant(self);
            lemma_reciprocal_product(self.scale);
        }
        self.scale_reciprocal
    }

    /// The tare point.
    pub fn get_offset(&self) -> (r: i32)
        ensures
            r == self@.offset,
    {
        self.offset
    }

    /// The current mode.
    pub fn mode(&self) -> (r: ScaleMode)
        ensures
            r == self@.mode,
    {
        self.mode
    }

    /// A reading relative to the tare point, exactly. Only in `Weighing`.
    pub fn get_value(&self, raw_value: i32) -> (r: Result<i64, ScaleError>)
        ensures
            self@.mode == ScaleMode::Weighing ==> (r matches Ok(v) && v as int == value_of(
                raw_value,
                self@.offset,
            )),
            self@.mode != ScaleMode::Weighing ==> r == Err::<i64, ScaleError>(
                ScaleError::ProtocolViolation,
            ),
    {
        if self.mode != ScaleMode::Weighing {
            return Err(ScaleError::ProtocolViolation);
        }
        Ok(self.value(raw_value))
    }

    /// Reading relative to the tare point, whatever the mode.
    fn value(&self, raw_value: i32) -> (r: i64)
        ensures
            r as int == value_of(raw_value, self@.offset),
    {
        raw_value as i64 - self.offset as i64
    }

    /// The weight of a reading, in centigrams rounded toward zero, through
    /// the cached reciprocal. Only in `Weighing`.
    pub fn get_units(&self, raw_value: i32) -> (r: Result<i64, ScaleError>)
        ensures
            self@.mode == ScaleMode::Weighing ==> (r matches Ok(u) && u as int == units_of(
                value_of(raw_value, self@.offset),
                self@.scale,
            )),
            self@.mode != ScaleMode::Weighing ==> r == Err::<i64, ScaleError>(
                ScaleError::ProtocolViolation,
            ),
    {
        if self.mode != ScaleMode::Weighing {
            return Err(ScaleError::ProtocolViolation);
        }
        Ok(self.units(raw_value))
    }

    /// Weight of a reading through the cached reciprocal, whatever the
    /// mode. The reading is within 2^32 of the tare point and the
    /// reciprocal's numerator is an `i32`, so the product fits in an `i64`,
    /// and dividing by a nonzero count only shrinks it.
    fn units(&self, raw_value: i32) -> (r: i64)
        ensures
            r as int == units_of(value_of(raw_value, self@.offset), self@.scale),
    {
        proof {
            use_type_invariant(self);
        }
        let value = raw_value as i128 - self.offset as i128;
        proof {
            let v = value as int;
            let c = self.scale.centigrams as int;
            assert(-0x1_0000_0000 < v < 0x1_0000_0000);
            assert(-0x8000_0000 <= c <= 0x7fff_ffff);
            assert(abs(v * c) < 0x8000_0000_0000_0000) by (nonlinear_arith)
                requires
                    -0x1_0000_0000 < v < 0x1_0000_0000,
                    -0x8000_0000 <= c <= 0x7fff_ffff,
            ;
        }
        let product = value * self.scale_reciprocal.centigrams as i128;
        let q = div_toward_zero(product, self.scale_reciprocal.counts as i128);
        proof {
            let p = product as int;
            let d = self.scale.counts as int;
            assert(abs(p) / abs(d) <= abs(p)) by (nonlinear_arith)
                requires
                    abs(d) >= 1,
                    abs(p) >= 0,
            ;
        }
        q as i64
    }

    /// Moves the tare point to `raw_value`, keeping the slope. Only in
    /// `Weighing`.
    pub fn tare(&mut self, raw_value: i32) -> (r: Result<(), ScaleError>)
        ensures
            old(self)@.mode == ScaleMode::Weighing ==> r == Ok::<(), ScaleError>(()) && final(self)@
                == (ScaleView { offset: raw_value, ..old(self)@ }),
            old(self)@.mode != ScaleMode::Weighing ==> r == Err::<(), ScaleError>(
                ScaleError::ProtocolViolation,
            ) && final(self)@ == old(self)@,
        no_unwind
    {
        if self.mode != ScaleMode::Weighing {
            return Err(ScaleError::ProtocolViolation);
        }
        self.set_offset(raw_value);
        Ok(())
    }
}

// Phase markers: they only ever stand as the type parameter of `Scale`;
// their one variant is never used.
/// Marker of a scale that has not been tared.
pub enum Init {
    Phase,
}

/// Marker of a calibrated scale.
pub enum Weighing {
    Phase,
}

/// Marker of a scale showing its menu.
pub enum Menu {
    Phase,
}

/// Marker of a tared scale awaiting its reference weight.
pub enum Calibrating {
    Phase,
}

/// Marker of a scale timing a brew.
pub enum Brewing {
    Phase,
}

/// A phase that a `Scale` can be typed with.
pub trait ScaleState {
    /// The mode of the state machine under a scale of this phase, or `None`
    /// where no scale of this phase can be made.
    spec fn scale_mode() -> Option<ScaleMode>;
}

impl ScaleState for Init {
    open spec fn scale_mode() -> Option<ScaleMode> {
        Some(ScaleMode::Init)
    }
}

impl ScaleState for Weighing {
    open spec fn scale_mode() -> Option<ScaleMode> {
        Some(ScaleMode::Weighing)
    }
}

impl ScaleState for Menu {
    open spec fn scale_mode() -> Option<ScaleMode> {
        None
    }
}

impl ScaleState for Calibrating {
    open spec fn scale_mode() -> Option<ScaleMode> {
        Some(ScaleMode::Calibrating)
    }
}

impl ScaleState for Brewing {
    open spec fn scale_mode() -> Option<ScaleMode> {
        None
    }
}

/// A scale whose phase is part of its type, so that an operation of the
/// wrong phase does not compile: `Scale<Init>` can only be tared,
/// `Scale<Calibrating>` only calibrated, and only `Scale<Weighing>` weighs.
#[derive(Debug)]
pub struct Scale<S: ScaleState> {
    state: Box<ActualScaleState>,
    marker: core::marker::PhantomData<S>,
}

impl<S: ScaleState> View for Scale<S> {
    type V = ScaleView;

    closed spec fn view(&self) -> ScaleView {
        self.state@
    }
}

impl<S: ScaleState> Scale<S> {
    /// The state machine underneath is in the mode of the phase.
    #[verifier::type_invariant]
    closed spec fn inv(&self) -> bool {
        S::scale_mode() == Some(self.state@.mode)
    }
}

impl Scale<Init> {
    /// A fresh scale: no tare point, unit slope.
    pub fn new() -> (r: Self)
        ensures
            r@ == (ScaleView { offset: 0, scale: unit_scale(), mode: ScaleMode::Init }),
    {
        Scale { state: Box::new(ActualScaleState::default()), marker: core::marker::PhantomData }
    }

    /// Records the tare point `offset`; the scale then awaits calibration.
    pub fn init(self, offset: i32) -> (r: Scale<Calibrating>)
        ensures
            r@ == (ScaleView { offset, scale: self@.scale, mode: ScaleMode::Calibrating }),
    {
        proof {
            use_type_invariant(&self);
        }
        let Scale { state, marker: _ } = self;
        let mut state = state;
        let r = state.init(offset);
        assert(r is Ok);
        Scale { state, marker: core::marker::PhantomData }
    }
}

impl Scale<Calibrating> {
    /// Derives the slope from a reading `raw_value` taken with a reference
    /// weight of `reference_centigrams`. Where the reference weight is zero
    /// or the reading equals the tare point the slope would degenerate: the
    /// scale comes back unchanged, still calibrating.
    pub fn calibrate(self, raw_value: i32, reference_centigrams: i32) -> (r: Result<
        Scale<Weighing>,
        Scale<Calibrating>,
    >)
        ensures
            reference_centigrams != 0 && raw_value != self@.offset ==> (r matches Ok(w) && w@ == (
            ScaleView {
                offset: self@.offset,
                scale: calibrated_scale(self@.offset, raw_value, reference_centigrams),
                mode: ScaleMode::Weighing,
            })),
            reference_centigrams == 0 || raw_value == self@.offset ==> (r matches Err(c) && c@
                == self@),
    {
        proof {
            use_type_invariant(&self);
        }
        let Scale { state, marker: _ } = self;
        let mut state = state;
        match state.calibrate(raw_value, reference_centigrams) {
            Ok(()) => Ok(Scale { state, marker: core::marker::PhantomData }),
            Err(_) => Err(Scale { state, marker: core::marker::PhantomData }),
        }
    }
}

impl Scale<Weighing> {
    /// The current slope.
    pub fn get_scale(&self) -> (r: ScaleFactor)
        ensures
            r == self@.scale,
            nondegenerate(r),
    {
        self.state.get_scale()
    }

    /// The cached inverse of the current slope.
    pub fn get_scale_reciprocal(&self) -> (r: ScaleReciprocal)
        ensures
            r == reciprocal_of(self@.scale),
            product_is_one(self@.scale, r),
    {
        self.state.get_scale_reciprocal()
    }

    /// The tare point.
    pub fn get_offset(&self) -> (r: i32)
        ensures
            r == self@.offset,
    {
        self.state.get_offset()
    }

    /// A reading relative to the tare point, exactly.
    pub fn get_value(&self, raw_value: i32) -> (r: i64)
        ensures
            r as int == value_of(raw_value, self@.offset),
    {
        self.state.value(raw_value)
    }

    /// The weight of a reading, in centigrams rounded toward zero.
    pub fn get_units(&self, raw_value: i32) -> (r: i64)
        ensures
            r as int == units_of(value_of(raw_value, self@.offset), self@.scale),
    {
        self.state.units(raw_value)
    }

    /// Moves the tare point to `raw_value`, keeping the slope.
    pub fn tare(&mut self, raw_value: i32)
        ensures
            final(self)@ == (ScaleView { offset: raw_value, ..old(self)@ }),
    {
        proof {
            use_type_invariant(&*self);
        }
        let r = self.state.tare(raw_value);
        assert(r is Ok);
    }
}

/// A calibrated slope and the reciprocal cached beside it multiply to
/// exactly one, whenever the reference weight is nonzero and the
/// calibration reading differs from the tare point.
pub proof fn lemma_calibration_reciprocal(offset: i32, raw_value: i32, reference_centigrams: i32)
    requires
        reference_centigrams != 0,
        raw_value != offset,
    ensures
        nondegenerate(calibrated_scale(offset, raw_value, reference_centigrams)),
        product_is_one(
            calibrated_scale(offset, raw_value, reference_centigrams),
            reciprocal_of(calibrated_scale(offset, raw_value, reference_centigrams)),
        ),
{
    lemma_reciprocal_product(calibrated_scale(offset, raw_value, reference_centigrams));
}

} // verus!
