//! Event dispatch decisions and the fixed-timestep accumulator.

use rendercore::schedule::{on_window_event, EventAction, FixedTimestep, WindowEventKind};

#[test]
fn events_map_to_their_actions() {
    assert_eq!(on_window_event(&WindowEventKind::CloseRequested), EventAction::Exit);
    assert_eq!(on_window_event(&WindowEventKind::RedrawRequested), EventAction::Render);
    assert_eq!(
        on_window_event(&WindowEventKind::KeyboardInput { key: 5, pressed: true }),
        EventAction::ProcessKey { key: 5, pressed: true }
    );
    assert_eq!(
        on_window_event(&WindowEventKind::Resized { width: 640, height: 480 }),
        EventAction::Resize { width: 640, height: 480 }
    );
    assert_eq!(
        on_window_event(&WindowEventKind::ScaleFactorChanged),
        EventAction::ResizeToWindowSize
    );
    assert_eq!(on_window_event(&WindowEventKind::Other), EventAction::Ignore);
}

#[test]
fn advance_pays_out_whole_steps() {
    let mut clock = FixedTimestep::new(10);
    assert_eq!(clock.advance(35), 3);
    assert_eq!(clock.accumulator, 5);
    assert_eq!(clock.advance(5), 1);
    assert_eq!(clock.accumulator, 0);
}

#[test]
fn advance_with_short_delta_owes_nothing() {
    let mut clock = FixedTimestep::new(16_666_667);
    assert_eq!(clock.advance(1_000_000), 0);
    assert_eq!(clock.accumulator, 1_000_000);
}

#[test]
fn advance_accumulates_across_calls() {
    let mut clock = FixedTimestep::new(100);
    assert_eq!(clock.advance(60), 0);
    assert_eq!(clock.advance(60), 1);
    assert_eq!(clock.accumulator, 20);
}
