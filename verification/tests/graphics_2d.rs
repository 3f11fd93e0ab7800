//! Tests for the 2D panel driver: coordinate mapping, snaking, out-of-range
//! draws and the flush lifecycle.

use esp_hal_smartled::graphics::buffer_size_2d;
use esp_hal_smartled::graphics::coordinate_to_index;
use esp_hal_smartled::graphics::RmtSmartLedsGraphics;
use esp_hal_smartled::color::Rgb8;
use esp_hal_smartled::color_order::Rgb;
use esp_hal_smartled::error::TransmitFault;
use esp_hal_smartled::pulse::PulseCode;
use esp_hal_smartled::timing::Ws2812bTiming;

#[derive(Debug, PartialEq, Eq)]
struct StubChannel(u32);

type Panel = RmtSmartLedsGraphics<StubChannel, Rgb8, Rgb, Ws2812bTiming>;

fn make_panel(width: usize, height: usize, snaking: bool) -> Panel {
    Panel::new(StubChannel(0), 80, width, height, snaking)
}

fn end_marker() -> PulseCode {
    PulseCode { level1: false, length1: 0, level2: false, length2: 0 }
}

/// The "1"-bit descriptor of `Ws2812bTiming` at 80 MHz.
fn one_pulse() -> PulseCode {
    PulseCode { level1: true, length1: 68, level2: false, length2: 36 }
}

#[test]
fn buffer_size_2d_covers_every_pixel_plus_delimiter() {
    assert_eq!(buffer_size_2d::<Rgb8>(4, 2), 4 * 2 * 24 + 1);
    assert_eq!(buffer_size_2d::<Rgb8>(0, 5), 1);
}

#[test]
fn non_snaking_panel_maps_row_major() {
    // 4-wide, 2-tall panel: (2, 1) lands at index 6.
    assert_eq!(coordinate_to_index(2, 1, 4, false), 6);
    assert_eq!(coordinate_to_index(0, 0, 4, false), 0);
    assert_eq!(coordinate_to_index(3, 1, 4, false), 7);
}

#[test]
fn snaking_panel_reverses_row_zero_and_every_even_row() {
    // Row 0 is reversed: (2, 0) lands at 4 - 2 - 1 = 1.
    assert_eq!(coordinate_to_index(2, 0, 4, true), 1);
    // Row 1 runs normally: (2, 1) lands at 6.
    assert_eq!(coordinate_to_index(2, 1, 4, true), 6);
    // Row 2 is reversed again.
    assert_eq!(coordinate_to_index(0, 2, 4, true), 11);
}

#[test]
fn out_of_range_draws_are_noops_and_never_fail() {
    let mut panel = make_panel(2, 2, false);
    let before = panel.buffer().clone();
    let color = Rgb8 { r: 0xFF, g: 0xFF, b: 0xFF };
    assert!(panel.draw_pixel(-1, 0, color).is_ok());
    assert!(panel.draw_pixel(0, -3, color).is_ok());
    assert!(panel.draw_pixel(2, 0, color).is_ok());
    assert!(panel.draw_pixel(0, 2, color).is_ok());
    assert!(panel.draw_pixel(100, 100, color).is_ok());
    assert_eq!(panel.buffer(), &before);
}

#[test]
fn in_range_draw_writes_only_the_pixel_slots() {
    let mut panel = make_panel(2, 1, false);
    let color = Rgb8 { r: 0xFF, g: 0xFF, b: 0xFF };
    assert!(panel.draw_pixel(1, 0, color).is_ok());
    let buf = panel.buffer();
    assert_eq!(buf.len(), 49);
    // Pixel 0 untouched: still end markers from construction.
    for i in 0..24 {
        assert_eq!(buf[i], end_marker());
    }
    // Pixel 1 holds 24 "1" pulses.
    for i in 24..48 {
        assert_eq!(buf[i], one_pulse());
    }
    // The final delimiter slot is never written by a draw.
    assert_eq!(buf[48], end_marker());
}

#[test]
fn batch_draw_applies_pixels_in_order_and_drops_strays() {
    let mut panel = make_panel(2, 1, false);
    let white = Rgb8 { r: 0xFF, g: 0xFF, b: 0xFF };
    let black = Rgb8 { r: 0, g: 0, b: 0 };
    let pixels = vec![
        (0, 0, white),
        (7, 3, white),  // off-panel: dropped
        (0, 0, black),  // overwrites the first
    ];
    assert!(panel.draw_pixels(&pixels).is_ok());
    let buf = panel.buffer();
    // Pixel 0 ends up black: 24 "0" pulses.
    let zero = PulseCode { level1: true, length1: 32, level2: false, length2: 64 };
    for i in 0..24 {
        assert_eq!(buf[i], zero);
    }
}

#[test]
fn flush_hands_the_channel_out_and_back() {
    let mut panel = make_panel(2, 2, true);
    assert!(panel.owns_channel());
    let ch = panel.flush_begin();
    assert!(!panel.owns_channel());
    assert_eq!(ch, StubChannel(0));
    assert!(panel.flush_finish(ch, Ok(())).is_ok());
    assert!(panel.owns_channel());
    // A failed flush also restores the channel.
    let ch = panel.flush_begin();
    let r = panel.flush_finish(ch, Err(TransmitFault { code: 1 }));
    assert!(r.is_err());
    assert!(panel.owns_channel());
}

#[test]
fn panel_reports_its_geometry() {
    let panel = make_panel(5, 3, true);
    assert_eq!(panel.panel_width(), 5);
    assert_eq!(panel.panel_height(), 3);
    assert!(panel.is_snaking());
}
