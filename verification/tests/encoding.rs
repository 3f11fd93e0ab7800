//! Tests for buffer sizing and the pulse encoder.

use esp_hal_smartled::driver::buffer_size;
use esp_hal_smartled::driver::RmtSmartLeds;
use esp_hal_smartled::color::CctWhite8;
use esp_hal_smartled::color::Rgb16;
use esp_hal_smartled::color::Rgb8;
use esp_hal_smartled::color::Rgbcct8;
use esp_hal_smartled::color::Rgbw8;
use esp_hal_smartled::color::White8;
use esp_hal_smartled::color_order::Grb;
use esp_hal_smartled::color_order::Rgb;
use esp_hal_smartled::color_order::Rgbw;
use esp_hal_smartled::error::AdapterError;
use esp_hal_smartled::pulse::PulseCode;
use esp_hal_smartled::timing::Ws2812bTiming;

/// A stand-in for the hardware transmit channel resource.
#[derive(Debug, PartialEq, Eq)]
struct StubChannel(u32);

/// The "0"-bit descriptor of `Ws2812bTiming` at 80 MHz.
fn zero_pulse() -> PulseCode {
    // 400 ns * 80 MHz / 1000 = 32 ticks high, 800 ns -> 64 ticks low
    PulseCode { level1: true, length1: 32, level2: false, length2: 64 }
}

/// The "1"-bit descriptor of `Ws2812bTiming` at 80 MHz.
fn one_pulse() -> PulseCode {
    // 850 ns * 80 MHz / 1000 = 68 ticks high, 450 ns -> 36 ticks low
    PulseCode { level1: true, length1: 68, level2: false, length2: 36 }
}

fn end_marker() -> PulseCode {
    PulseCode { level1: false, length1: 0, level2: false, length2: 0 }
}

/// The expected pulse run for one 8-bit channel value, MSB first.
fn pulses_of_u8(v: u8) -> Vec<PulseCode> {
    (0..8u32)
        .rev()
        .map(|i| if v & (1 << i) != 0 { one_pulse() } else { zero_pulse() })
        .collect()
}

#[test]
fn buffer_size_is_count_times_bits_times_channels_plus_one() {
    assert_eq!(buffer_size::<Rgb8>(0), 1);
    assert_eq!(buffer_size::<Rgb8>(1), 25);
    assert_eq!(buffer_size::<Rgb8>(7), 7 * 3 * 8 + 1);
    assert_eq!(buffer_size::<Rgb16>(1), 49);
    assert_eq!(buffer_size::<Rgbw8>(2), 2 * 4 * 8 + 1);
    assert_eq!(buffer_size::<Rgbcct8>(1), 41);
    assert_eq!(buffer_size::<White8>(3), 25);
    assert_eq!(buffer_size::<CctWhite8>(1), 17);
}

#[test]
fn empty_sequence_encodes_to_single_end_marker() {
    let cap = buffer_size::<Rgb8>(0);
    let mut led = RmtSmartLeds::<StubChannel, Rgb8, Rgb, Ws2812bTiming>::new(
        StubChannel(0),
        80,
        cap,
    );
    let colors: Vec<Rgb8> = Vec::new();
    assert!(led.create_rmt_data(&colors).is_ok());
    assert_eq!(led.buffer().len(), 1);
    assert_eq!(led.buffer()[0], end_marker());
}

#[test]
fn one_color_encodes_all_bits_msb_first_in_rgb_order() {
    let cap = buffer_size::<Rgb8>(1);
    let mut led = RmtSmartLeds::<StubChannel, Rgb8, Rgb, Ws2812bTiming>::new(
        StubChannel(0),
        80,
        cap,
    );
    let color = Rgb8 { r: 0x80, g: 0xFF, b: 0x01 };
    assert!(led.create_rmt_data(&vec![color]).is_ok());
    let buf = led.buffer();
    assert_eq!(buf.len(), 25);
    let mut expected = Vec::new();
    expected.extend(pulses_of_u8(0x80));
    expected.extend(pulses_of_u8(0xFF));
    expected.extend(pulses_of_u8(0x01));
    for (i, want) in expected.iter().enumerate() {
        assert_eq!(buf[i], *want);
    }
    assert_eq!(buf[24], end_marker());
}

#[test]
fn grb_order_swaps_red_and_green_on_the_wire() {
    let cap = buffer_size::<Rgb8>(1);
    let mut led = RmtSmartLeds::<StubChannel, Rgb8, Grb, Ws2812bTiming>::new(
        StubChannel(0),
        80,
        cap,
    );
    let color = Rgb8 { r: 0x0F, g: 0xF0, b: 0x55 };
    assert!(led.create_rmt_data(&vec![color]).is_ok());
    let buf = led.buffer();
    let mut expected = Vec::new();
    expected.extend(pulses_of_u8(0xF0));
    expected.extend(pulses_of_u8(0x0F));
    expected.extend(pulses_of_u8(0x55));
    for (i, want) in expected.iter().enumerate() {
        assert_eq!(buf[i], *want);
    }
}

#[test]
fn two_colors_encode_in_input_order() {
    let cap = buffer_size::<Rgb8>(2);
    let mut led = RmtSmartLeds::<StubChannel, Rgb8, Rgb, Ws2812bTiming>::new(
        StubChannel(0),
        80,
        cap,
    );
    let a = Rgb8 { r: 0xAA, g: 0x00, b: 0x00 };
    let b = Rgb8 { r: 0x00, g: 0x00, b: 0x33 };
    assert!(led.create_rmt_data(&vec![a, b]).is_ok());
    let buf = led.buffer();
    assert_eq!(buf.len(), 49);
    let mut expected = Vec::new();
    for v in [0xAA, 0x00, 0x00, 0x00, 0x00, 0x33] {
        expected.extend(pulses_of_u8(v));
    }
    for (i, want) in expected.iter().enumerate() {
        assert_eq!(buf[i], *want);
    }
    assert_eq!(buf[48], end_marker());
}

#[test]
fn sixteen_bit_channels_use_sixteen_slots_msb_first() {
    let cap = buffer_size::<Rgb16>(1);
    let mut led = RmtSmartLeds::<StubChannel, Rgb16, Rgb, Ws2812bTiming>::new(
        StubChannel(0),
        80,
        cap,
    );
    let color = Rgb16 { r: 0x8001, g: 0, b: 0 };
    assert!(led.create_rmt_data(&vec![color]).is_ok());
    let buf = led.buffer();
    assert_eq!(buf.len(), 49);
    assert_eq!(buf[0], one_pulse());
    for i in 1..15 {
        assert_eq!(buf[i], zero_pulse());
    }
    assert_eq!(buf[15], one_pulse());
    for i in 16..48 {
        assert_eq!(buf[i], zero_pulse());
    }
    assert_eq!(buf[48], end_marker());
}

#[test]
fn four_channel_color_appends_white_on_the_wire() {
    let cap = buffer_size::<Rgbw8>(1);
    let mut led = RmtSmartLeds::<StubChannel, Rgbw8, Rgbw, Ws2812bTiming>::new(
        StubChannel(0),
        80,
        cap,
    );
    let color = Rgbw8 { r: 0x01, g: 0x02, b: 0x03, w: 0xFF };
    assert!(led.create_rmt_data(&vec![color]).is_ok());
    let buf = led.buffer();
    assert_eq!(buf.len(), 33);
    let mut expected = Vec::new();
    for v in [0x01, 0x02, 0x03, 0xFF] {
        expected.extend(pulses_of_u8(v));
    }
    for (i, want) in expected.iter().enumerate() {
        assert_eq!(buf[i], *want);
    }
    assert_eq!(buf[32], end_marker());
}

#[test]
fn too_many_colors_fail_with_buffer_size_exceeded() {
    let cap = buffer_size::<Rgb8>(1);
    let mut led = RmtSmartLeds::<StubChannel, Rgb8, Rgb, Ws2812bTiming>::new(
        StubChannel(0),
        80,
        cap,
    );
    let colors = vec![Rgb8 { r: 1, g: 2, b: 3 }, Rgb8 { r: 4, g: 5, b: 6 }];
    assert_eq!(
        led.create_rmt_data(&colors),
        Err(AdapterError::BufferSizeExceeded)
    );
    // The channel was never involved: the driver still owns it.
    assert!(led.owns_channel());
}

#[test]
fn pixel_write_beyond_capacity_is_rejected_and_changes_nothing() {
    let cap = buffer_size::<Rgb8>(2);
    let mut led = RmtSmartLeds::<StubChannel, Rgb8, Rgb, Ws2812bTiming>::new(
        StubChannel(0),
        80,
        cap,
    );
    let color = Rgb8 { r: 1, g: 2, b: 3 };
    assert!(led.write_pixel_data(0, color).is_ok());
    assert!(led.write_pixel_data(1, color).is_ok());
    let before = led.buffer().clone();
    assert_eq!(
        led.write_pixel_data(2, color),
        Err(AdapterError::BufferSizeExceeded)
    );
    assert_eq!(led.buffer(), &before);
}
