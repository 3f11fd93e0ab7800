//! The hardware-level pulse descriptor and the conversion from datasheet
//! nanosecond timings to peripheral clock ticks.

use vstd::prelude::*;

verus! {

/// Maximum duration, in clock ticks, that one phase of a pulse can hold.
/// The peripheral stores each duration in a 15-bit field.
pub const MAX_PULSE_TICKS: u16 = 0x7FFF;

/// A single hardware pulse descriptor: two voltage levels, each held for a
/// number of peripheral clock ticks. One descriptor encodes one logical bit
/// on the wire (high phase followed by low phase).
#[derive(Clone, Copy, PartialEq, Eq, Structural, Debug)]
pub struct PulseCode {
    /// Output level during the first phase of the pulse.
    pub level1: bool,
    /// Duration of the first phase, in clock ticks.
    pub length1: u16,
    /// Output level during the second phase of the pulse.
    pub level2: bool,
    /// Duration of the second phase, in clock ticks.
    pub length2: u16,
}

impl PulseCode {
    /// Both durations fit the peripheral's 15-bit duration fields.
    pub open spec fn wf(self) -> bool {
        self.length1 <= MAX_PULSE_TICKS && self.length2 <= MAX_PULSE_TICKS
    }

    /// The end marker as a specification-level value: all fields zero.
    pub open spec fn spec_end_marker() -> PulseCode {
        PulseCode { level1: false, length1: 0, level2: false, length2: 0 }
    }

    /// The sentinel descriptor that tells the peripheral "no more data":
    /// both phases low with zero duration.
    pub fn end_marker() -> (r: PulseCode)
        ensures
            r == PulseCode::spec_end_marker(),
            r.wf(),
    {
        PulseCode { level1: false, length1: 0, level2: false, length2: 0 }
    }
}

/// Clock ticks corresponding to a duration in nanoseconds at the given
/// peripheral clock rate in whole MHz, by truncating integer division.
pub open spec fn spec_ticks(nanos: u16, src_clock_mhz: u32) -> int {
    (nanos * src_clock_mhz) / 1000
}

/// Convert a nanosecond duration to clock ticks at the given clock rate.
pub fn ticks_from_nanos(nanos: u16, src_clock_mhz: u32) -> (r: u16)
    requires
        spec_ticks(nanos, src_clock_mhz) <= MAX_PULSE_TICKS,
    ensures
        r == spec_ticks(nanos, src_clock_mhz),
        r <= MAX_PULSE_TICKS,
{
    proof {
        assert(nanos * src_clock_mhz <= MAX_PULSE_TICKS * 1000 + 999) by (nonlinear_arith)
            requires
                (nanos * src_clock_mhz) / 1000 <= MAX_PULSE_TICKS,
                nanos >= 0,
                src_clock_mhz >= 0,
        ;
    }
    let product: u32 = (nanos as u32) * src_clock_mhz;
    (product / 1000) as u16
}

/// Fuse a high-phase and a low-phase nanosecond duration into one pulse
/// descriptor: high for the first phase, low for the second.
pub fn pulse_from_nanos(high_nanos: u16, low_nanos: u16, src_clock_mhz: u32) -> (r: PulseCode)
    requires
        spec_ticks(high_nanos, src_clock_mhz) <= MAX_PULSE_TICKS,
        spec_ticks(low_nanos, src_clock_mhz) <= MAX_PULSE_TICKS,
    ensures
        r.level1 == true,
        r.length1 == spec_ticks(high_nanos, src_clock_mhz),
        r.level2 == false,
        r.length2 == spec_ticks(low_nanos, src_clock_mhz),
        r.wf(),
{
    PulseCode {
        level1: true,
        length1: ticks_from_nanos(high_nanos, src_clock_mhz),
        level2: false,
        length2: ticks_from_nanos(low_nanos, src_clock_mhz),
    }
}

} // verus!
