//! Color construction and the channel round trip.

use rendercore::fixed::FX_ONE;
use rendercore::graphics::color::Color;

#[test]
fn rgb_to_array_round_trip() {
    let r = FX_ONE / 5;
    let g = 3 * FX_ONE / 10;
    let b = 4 * FX_ONE / 5;
    assert_eq!(Color::rgb(r, g, b).to_array(), [r, g, b, FX_ONE]);
}

#[test]
fn rgb_round_trip_holds_out_of_range_too() {
    // channels are not clamped; whatever goes in comes back
    assert_eq!(Color::rgb(-7, 0, 2 * FX_ONE).to_array(), [-7, 0, 2 * FX_ONE, FX_ONE]);
}

#[test]
fn named_colors() {
    assert_eq!(Color::red().to_array(), [FX_ONE, 0, 0, FX_ONE]);
    assert_eq!(Color::green().to_array(), [0, FX_ONE, 0, FX_ONE]);
    assert_eq!(Color::blue().to_array(), [0, 0, FX_ONE, FX_ONE]);
    assert_eq!(Color::white().to_array(), [FX_ONE, FX_ONE, FX_ONE, FX_ONE]);
    assert_eq!(Color::black().to_array(), [0, 0, 0, FX_ONE]);
    assert_eq!(Color::transparent().to_array(), [0, 0, 0, 0]);
}
