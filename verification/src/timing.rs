//! Per-LED-family pulse timings.
//!
//! All common smart LEDs are controlled by sending PWM-like pulses, in two
//! different configurations for high ("1") and low ("0") bits. The required
//! timings (and tolerances) can be found in the relevant datasheets.

use vstd::prelude::*;

verus! {

/// The four datasheet durations, in nanoseconds, that describe how a single
/// logical bit is physically represented on the wire.
#[derive(Clone, Copy, PartialEq, Eq, Structural, Debug)]
pub struct TimingNanos {
    /// High time for a zero pulse, in nanoseconds.
    pub time_0_high: u16,
    /// Low time for a zero pulse, in nanoseconds.
    pub time_0_low: u16,
    /// High time for a one pulse, in nanoseconds.
    pub time_1_high: u16,
    /// Low time for a one pulse, in nanoseconds.
    pub time_1_low: u16,
}

/// Common trait for all different smart LED dependent timings.
///
/// Provided timings: [`Sk68xxTiming`], [`Ws2812bTiming`], [`Ws2812Timing`],
/// [`Ws2811Timing`], [`Ws2811LowSpeedTiming`].
///
/// Implementations of this are marker enums: they carry no data and
/// only select a timing at the type level.
pub trait Timing {
    /// The four nanosecond durations of this LED family, as a
    /// specification-level value.
    spec fn spec_timing() -> TimingNanos;

    /// The four nanosecond durations of this LED family.
    fn timing() -> (t: TimingNanos)
        ensures
            t == Self::spec_timing(),
    ;
}

/// Timing for the SK68 collection of LEDs (1200 ns code period).
pub enum Sk68xxTiming {
    /// The only value of this marker type; it carries nothing.
    Marker,
}

impl Timing for Sk68xxTiming {
    open spec fn spec_timing() -> TimingNanos {
        TimingNanos { time_0_high: 320, time_0_low: 880, time_1_high: 640, time_1_low: 560 }
    }

    fn timing() -> (t: TimingNanos) {
        TimingNanos { time_0_high: 320, time_0_low: 880, time_1_high: 640, time_1_low: 560 }
    }
}

/// Timing for the WS2812B LEDs.
pub enum Ws2812bTiming {
    /// The only value of this marker type; it carries nothing.
    Marker,
}

impl Timing for Ws2812bTiming {
    open spec fn spec_timing() -> TimingNanos {
        TimingNanos { time_0_high: 400, time_0_low: 800, time_1_high: 850, time_1_low: 450 }
    }

    fn timing() -> (t: TimingNanos) {
        TimingNanos { time_0_high: 400, time_0_low: 800, time_1_high: 850, time_1_low: 450 }
    }
}

/// Timing for the WS2812 LEDs.
pub enum Ws2812Timing {
    /// The only value of this marker type; it carries nothing.
    Marker,
}

impl Timing for Ws2812Timing {
    open spec fn spec_timing() -> TimingNanos {
        TimingNanos { time_0_high: 350, time_0_low: 700, time_1_high: 800, time_1_low: 600 }
    }

    fn timing() -> (t: TimingNanos) {
        TimingNanos { time_0_high: 350, time_0_low: 700, time_1_high: 800, time_1_low: 600 }
    }
}

/// Timing for the WS2811 driver ICs, low-speed mode.
pub enum Ws2811LowSpeedTiming {
    /// The only value of this marker type; it carries nothing.
    Marker,
}

impl Timing for Ws2811LowSpeedTiming {
    open spec fn spec_timing() -> TimingNanos {
        TimingNanos { time_0_high: 500, time_0_low: 2000, time_1_high: 1200, time_1_low: 1300 }
    }

    fn timing() -> (t: TimingNanos) {
        TimingNanos { time_0_high: 500, time_0_low: 2000, time_1_high: 1200, time_1_low: 1300 }
    }
}

/// Timing for the WS2811 driver ICs, high-speed mode: each duration is half
/// of the low-speed mode.
pub enum Ws2811Timing {
    /// The only value of this marker type; it carries nothing.
    Marker,
}

impl Timing for Ws2811Timing {
    open spec fn spec_timing() -> TimingNanos {
        TimingNanos { time_0_high: 250, time_0_low: 1000, time_1_high: 600, time_1_low: 650 }
    }

    fn timing() -> (t: TimingNanos) {
        TimingNanos { time_0_high: 250, time_0_low: 1000, time_1_high: 600, time_1_low: 650 }
    }
}

} // verus!
