//! Press-duration classifier for a polled push button.
use vstd::prelude::*;

verus! {

/// How long the button has been held, in classes.
#[derive(Debug, Clone, Copy, PartialEq, Eq, Structural)]
pub enum ButtonPressState {
    /// The button is released.
    NotPressed,
    /// Held for fewer than `SHORT_PRESS_THRESHOLD` ticks: no action yet.
    Pressing,
    /// Held for at least `SHORT_PRESS_THRESHOLD` and fewer than
    /// `LONG_PRESS_THRESHOLD` ticks.
    ShortPress,
    /// Held for `LONG_PRESS_THRESHOLD` ticks or more.
    LongPress,
}

/// Ticks after which a held button counts as a short press.
pub const SHORT_PRESS_THRESHOLD: u32 = 3;

/// Ticks after which a held button counts as a long press.
pub const LONG_PRESS_THRESHOLD: u32 = 15;

/// Class of a press that has lasted `duration` ticks. Both boundaries are
/// inclusive on the upper class: a press of exactly `LONG_PRESS_THRESHOLD`
/// ticks is already long.
pub open spec fn classify(duration: nat) -> ButtonPressState {
    if duration < SHORT_PRESS_THRESHOLD as nat {
        ButtonPressState::Pressing
    } else if duration < LONG_PRESS_THRESHOLD as nat {
        ButtonPressState::ShortPress
    } else {
        ButtonPressState::LongPress
    }
}

/// Duration after one more tick held: one more, saturating at `u32::MAX`.
pub open spec fn next_duration(duration: nat) -> nat {
    if duration < u32::MAX as nat {
        duration + 1
    } else {
        u32::MAX as nat
    }
}

/// What a button state holds, as plain values.
pub struct ButtonView {
    pub pressed: bool,
    pub duration: nat,
    pub press_state: ButtonPressState,
}

/// The released state.
pub open spec fn released_view() -> ButtonView {
    ButtonView { pressed: false, duration: 0, press_state: ButtonPressState::NotPressed }
}

/// Button state after one tick with the button held, from `v`.
pub open spec fn held_view(v: ButtonView) -> ButtonView {
    ButtonView {
        pressed: true,
        duration: next_duration(v.duration),
        press_state: classify(next_duration(v.duration)),
    }
}

/// Per-tick state of one push button.
#[derive(Debug)]
pub struct ButtonState {
    pressed: bool,
    duration: u32,
    press_state: ButtonPressState,
}

impl View for ButtonState {
    type V = ButtonView;

    closed spec fn view(&self) -> ButtonView {
        ButtonView {
            pressed: self.pressed,
            duration: self.duration as nat,
            press_state: self.press_state,
        }
    }
}

fn classify_ticks(duration: u32) -> (r: ButtonPressState)
    ensures
        r == classify(duration as nat),
{
    if duration < SHORT_PRESS_THRESHOLD {
        ButtonPressState::Pressing
    } else if duration < LONG_PRESS_THRESHOLD {
        ButtonPressState::ShortPress
    } else {
        ButtonPressState::LongPress
    }
}

impl ButtonState {
    /// Returns the button to its released state.
    pub fn reset(&mut self)
        ensures
            final(self)@ == released_view(),
    {
        *self = ButtonState {
            pressed: false,
            duration: 0,
            press_state: ButtonPressState::NotPressed,
        };
    }

    /// Records one tick with the button held: the duration grows by one
    /// (saturating) and the class follows it.
    pub fn pressed(&mut self)
        ensures
            final(self)@ == held_view(old(self)@),
    {
        let duration = self.duration.saturating_add(1u32);
        *self = ButtonState {
            pressed: true,
            duration,
            press_state: classify_ticks(duration),
        };
    }

    /// Records a tick with the button let go: the press is over, its
    /// duration and class are cleared.
    pub fn release(&mut self)
        ensures
            final(self)@ == released_view(),
    {
        self.reset();
    }

    /// Feeds one tick's reading of the button.
    pub fn poll(&mut self, is_pressed_now: bool)
        ensures
            final(self)@ == poll_view(old(self)@, is_pressed_now),
    {
        if is_pressed_now {
            self.pressed();
        } else {
            self.release();
        }
    }

    /// Whether the button was held at the last tick.
    pub fn is_pressed(&self) -> (r: bool)
        ensures
            r == self@.pressed,
    {
        self.pressed
    }

    /// Ticks the current press has lasted (0 when released).
    pub fn duration(&self) -> (r: u32)
        ensures
            r as nat == self@.duration,
    {
        self.duration
    }

    /// Class of the current press.
    pub fn press_state(&self) -> (r: ButtonPressState)
        ensures
            r == self@.press_state,
    {
        self.press_state
    }
}

impl Default for ButtonState {
    fn default() -> (r: Self)
        ensures
            r@ == released_view(),
    {
        ButtonState { pressed: false, duration: 0, press_state: ButtonPressState::NotPressed }
    }
}

/// The state reached by one tick of `poll`.
pub open spec fn poll_view(v: ButtonView, is_pressed_now: bool) -> ButtonView {
    if is_pressed_now {
        held_view(v)
    } else {
        released_view()
    }
}

/// Consistency of a button state: a released button has no duration and
/// no class, and a held one has been held at least one tick and carries
/// the class of its duration.
pub open spec fn button_inv(v: ButtonView) -> bool {
    if v.pressed {
        v.duration >= 1 && v.press_state == classify(v.duration)
    } else {
        v.duration == 0 && v.press_state == ButtonPressState::NotPressed
    }
}

/// Every reachable button state is consistent: the released state is, and
/// each tick keeps it so. A tick with the button let go leaves the duration
/// at 0, and in every consistent state the class is `NotPressed` exactly
/// when the button is released.
pub proof fn lemma_poll_keeps_consistency(v: ButtonView, is_pressed_now: bool)
    requires
        button_inv(v),
    ensures
        button_inv(released_view()),
        button_inv(poll_view(v, is_pressed_now)),
        poll_view(v, false).duration == 0,
        (v.press_state == ButtonPressState::NotPressed) <==> !v.pressed,
        (poll_view(v, is_pressed_now).press_state == ButtonPressState::NotPressed)
            <==> !is_pressed_now,
{
}

} // verus!
