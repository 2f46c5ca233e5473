use espresso_scale::button::{
    ButtonPressState, ButtonState, LONG_PRESS_THRESHOLD, SHORT_PRESS_THRESHOLD,
};

fn held_for(ticks: u32) -> ButtonState {
    let mut button = ButtonState::default();
    for _ in 0..ticks {
        button.poll(true);
    }
    button
}

#[test]
fn default_button_is_released() {
    let button = ButtonState::default();
    assert!(!button.is_pressed());
    assert_eq!(button.duration(), 0);
    assert_eq!(button.press_state(), ButtonPressState::NotPressed);
}

#[test]
fn short_hold_is_still_pressing() {
    let button = held_for(SHORT_PRESS_THRESHOLD - 1);
    assert!(button.is_pressed());
    assert_eq!(button.duration(), 2);
    assert_eq!(button.press_state(), ButtonPressState::Pressing);
}

#[test]
fn short_press_starts_at_short_threshold() {
    let button = held_for(SHORT_PRESS_THRESHOLD);
    assert_eq!(button.duration(), 3);
    assert_eq!(button.press_state(), ButtonPressState::ShortPress);
    let button = held_for(LONG_PRESS_THRESHOLD - 1);
    assert_eq!(button.press_state(), ButtonPressState::ShortPress);
}

#[test]
fn long_press_starts_at_long_threshold() {
    let button = held_for(LONG_PRESS_THRESHOLD);
    assert_eq!(button.duration(), 15);
    assert_eq!(button.press_state(), ButtonPressState::LongPress);
    let button = held_for(LONG_PRESS_THRESHOLD + 10);
    assert_eq!(button.press_state(), ButtonPressState::LongPress);
}

#[test]
fn release_clears_duration_and_class() {
    let mut button = held_for(20);
    button.poll(false);
    assert!(!button.is_pressed());
    assert_eq!(button.duration(), 0);
    assert_eq!(button.press_state(), ButtonPressState::NotPressed);
    button.poll(true);
    assert_eq!(button.duration(), 1);
    assert_eq!(button.press_state(), ButtonPressState::Pressing);
}

#[test]
fn not_pressed_exactly_when_released() {
    let mut button = ButtonState::default();
    for tick in [true, true, false, true, true, true, true, false, false, true] {
        button.poll(tick);
        assert_eq!(button.is_pressed(), tick);
        assert_eq!(button.press_state() == ButtonPressState::NotPressed, !tick);
        if !tick {
            assert_eq!(button.duration(), 0);
        }
    }
}

#[test]
fn pressed_release_and_reset_by_hand() {
    let mut button = ButtonState::default();
    button.pressed();
    button.pressed();
    button.pressed();
    assert_eq!(button.press_state(), ButtonPressState::ShortPress);
    button.release();
    assert_eq!(button.duration(), 0);
    assert_eq!(button.press_state(), ButtonPressState::NotPressed);
    button.pressed();
    button.reset();
    assert!(!button.is_pressed());
    assert_eq!(button.duration(), 0);
}
