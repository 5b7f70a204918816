//! Keyboard state tracking across events and ticks.

use rendercore::input::{Input, Keyboard};

#[test]
fn press_is_tracked() {
    let mut kb = Keyboard::new();
    kb.process_event(42, true);
    assert!(kb.is_pressed(42));
    assert!(kb.is_just_pressed(42));
    assert!(!kb.is_just_released(42));
    assert!(!kb.is_pressed(7));
}

#[test]
fn release_is_tracked() {
    let mut kb = Keyboard::new();
    kb.process_event(42, true);
    kb.process_event(42, false);
    assert!(!kb.is_pressed(42));
    assert!(kb.is_just_released(42));
}

#[test]
fn update_clears_just_released() {
    let mut kb = Keyboard::new();
    kb.process_event(42, true);
    kb.process_event(42, false);
    kb.update();
    assert!(!kb.is_just_released(42));
    assert!(!kb.is_pressed(42));
}

#[test]
fn held_keys_survive_update() {
    let mut kb = Keyboard::new();
    kb.process_event(9, true);
    kb.update();
    assert!(kb.is_pressed(9));
}

#[test]
fn input_wraps_keyboard() {
    let mut input = Input::new();
    input.keyboard.process_event(3, true);
    input.keyboard.process_event(3, false);
    input.update();
    assert!(!input.keyboard.is_just_released(3));
}
