//! Tests for the channel orderings and the per-family timings.

use esp_hal_smartled::color::CctWhite8;
use esp_hal_smartled::color::Color;
use esp_hal_smartled::color::Rgb16;
use esp_hal_smartled::color::Rgb8;
use esp_hal_smartled::color::Rgbcct8;
use esp_hal_smartled::color::Rgbw8;
use esp_hal_smartled::color::White8;
use esp_hal_smartled::color_order::Bgr;
use esp_hal_smartled::color_order::Brg;
use esp_hal_smartled::color_order::ColorOrder;
use esp_hal_smartled::color_order::Gbr;
use esp_hal_smartled::color_order::Grb;
use esp_hal_smartled::color_order::Rbg;
use esp_hal_smartled::color_order::Rgb;
use esp_hal_smartled::color_order::Rgbw;
use esp_hal_smartled::timing::Sk68xxTiming;
use esp_hal_smartled::timing::Timing;
use esp_hal_smartled::timing::Ws2811LowSpeedTiming;
use esp_hal_smartled::timing::Ws2811Timing;
use esp_hal_smartled::timing::Ws2812Timing;
use esp_hal_smartled::timing::Ws2812bTiming;

fn wire3<O: ColorOrder<Rgb8>>(c: &Rgb8) -> [u16; 3] {
    [
        O::get_channel_data(c, 0),
        O::get_channel_data(c, 1),
        O::get_channel_data(c, 2),
    ]
}

#[test]
fn every_rgb_ordering_returns_the_documented_field() {
    let c = Rgb8 { r: 10, g: 20, b: 30 };
    assert_eq!(wire3::<Rgb>(&c), [10, 20, 30]);
    assert_eq!(wire3::<Rbg>(&c), [10, 30, 20]);
    assert_eq!(wire3::<Grb>(&c), [20, 10, 30]);
    assert_eq!(wire3::<Gbr>(&c), [20, 30, 10]);
    assert_eq!(wire3::<Brg>(&c), [30, 10, 20]);
    assert_eq!(wire3::<Bgr>(&c), [30, 20, 10]);
}

#[test]
fn rgb16_orderings_return_full_width_values() {
    let c = Rgb16 { r: 0x1234, g: 0x5678, b: 0x9ABC };
    assert_eq!(<Rgb as ColorOrder<Rgb16>>::get_channel_data(&c, 0), 0x1234);
    assert_eq!(<Grb as ColorOrder<Rgb16>>::get_channel_data(&c, 0), 0x5678);
    assert_eq!(<Bgr as ColorOrder<Rgb16>>::get_channel_data(&c, 2), 0x1234);
}

#[test]
fn rgbw_ordering_appends_white_after_blue() {
    let c = Rgbw8 { r: 1, g: 2, b: 3, w: 4 };
    assert_eq!(<Rgbw as ColorOrder<Rgbw8>>::get_channel_data(&c, 0), 1);
    assert_eq!(<Rgbw as ColorOrder<Rgbw8>>::get_channel_data(&c, 1), 2);
    assert_eq!(<Rgbw as ColorOrder<Rgbw8>>::get_channel_data(&c, 2), 3);
    assert_eq!(<Rgbw as ColorOrder<Rgbw8>>::get_channel_data(&c, 3), 4);
}

#[test]
fn color_formats_report_their_channel_counts_and_widths() {
    assert_eq!((Rgb8::channels(), Rgb8::bits()), (3, 8));
    assert_eq!((Rgb16::channels(), Rgb16::bits()), (3, 16));
    assert_eq!((Rgbw8::channels(), Rgbw8::bits()), (4, 8));
    assert_eq!((Rgbcct8::channels(), Rgbcct8::bits()), (5, 8));
    assert_eq!((White8::channels(), White8::bits()), (1, 8));
    assert_eq!((CctWhite8::channels(), CctWhite8::bits()), (2, 8));
}

#[test]
fn led_family_timings_match_their_datasheets() {
    let t = Sk68xxTiming::timing();
    // High and low of each bit sum to the 1200 ns code period.
    assert_eq!(
        (t.time_0_high, t.time_0_low, t.time_1_high, t.time_1_low),
        (320, 880, 640, 560)
    );
    assert_eq!(t.time_0_high + t.time_0_low, 1200);
    assert_eq!(t.time_1_high + t.time_1_low, 1200);

    let t = Ws2812bTiming::timing();
    assert_eq!(
        (t.time_0_high, t.time_0_low, t.time_1_high, t.time_1_low),
        (400, 800, 850, 450)
    );

    let t = Ws2812Timing::timing();
    assert_eq!(
        (t.time_0_high, t.time_0_low, t.time_1_high, t.time_1_low),
        (350, 700, 800, 600)
    );

    let slow = Ws2811LowSpeedTiming::timing();
    assert_eq!(
        (slow.time_0_high, slow.time_0_low, slow.time_1_high, slow.time_1_low),
        (500, 2000, 1200, 1300)
    );

    // High-speed WS2811 runs at exactly half the low-speed durations.
    let fast = Ws2811Timing::timing();
    assert_eq!(fast.time_0_high, slow.time_0_high / 2);
    assert_eq!(fast.time_0_low, slow.time_0_low / 2);
    assert_eq!(fast.time_1_high, slow.time_1_high / 2);
    assert_eq!(fast.time_1_low, slow.time_1_low / 2);
}
