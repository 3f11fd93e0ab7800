//! The smart LED driver: owns the transmit channel and the fixed-capacity
//! pulse buffer, encodes color sequences into it, and hands the channel out
//! for exactly one transmission at a time.

use vstd::prelude::*;
use core::marker::PhantomData;
use crate::color::Color;
use crate::color_order::ColorOrder;
use crate::encode::color_pulse_count;
use crate::encode::color_pulses;
use crate::encode::colors_pulses;
use crate::encode::colors_pulses_upto;
use crate::encode::convert_colors_to_pulse;
use crate::encode::lemma_colors_pulses_upto_len;
use crate::error::AdapterError;
use crate::error::TransmitFault;
use crate::pulse::pulse_from_nanos;
use crate::pulse::spec_ticks;
use crate::pulse::PulseCode;
use crate::pulse::MAX_PULSE_TICKS;
use crate::timing::Timing;

verus! {

/// The pulse-slot capacity needed to drive `led_count` LEDs of a
/// `channels`-channel, `bits`-bit color format: one slot per bit of each
/// channel of each LED, plus one slot for the end delimiter.
pub open spec fn spec_buffer_size(led_count: int, channels: int, bits: int) -> int {
    led_count * channels * bits + 1
}

/// Calculate the required buffer capacity for a certain number of LEDs of
/// the color format `C`. This should be used to choose the capacity a
/// [`RmtSmartLeds`] is built with.
///
/// Attempting to use more LEDs than the buffer is sized for results in an
/// [`AdapterError::BufferSizeExceeded`] error.
pub fn buffer_size<C: Color>(led_count: usize) -> (r: usize)
    requires
        led_count * C::spec_channels() * C::spec_bits() + 1 <= usize::MAX,
    ensures
        r == spec_buffer_size(led_count as int, C::spec_channels() as int, C::spec_bits() as int),
        r == led_count * color_pulse_count::<C>() + 1,
{
    let channels = C::channels();
    let bits = C::bits();
    proof {
        C::format_in_range();
        assert(led_count * (channels * bits) == led_count * channels * bits && led_count
            * channels <= led_count * channels * bits) by (nonlinear_arith)
            requires
                bits >= 1,
                led_count >= 0,
                channels >= 0,
        ;
    }
    led_count * (channels as usize) * (bits as usize) + 1
}

/// Encoding more color values than a buffer was sized for must fail: a
/// sequence of `color_count` colors needs more slots than
/// `spec_buffer_size` grants to `led_count` LEDs whenever
/// `color_count > led_count`, so
/// [`RmtSmartLeds::create_rmt_data`] reports `BufferSizeExceeded` — before
/// the transmit channel is ever involved — by its own contract.
pub proof fn lemma_overfull_encoding_rejected<C: Color>(led_count: int, color_count: int)
    requires
        0 <= led_count < color_count,
    ensures
        color_count * color_pulse_count::<C>() + 1 > spec_buffer_size(
            led_count,
            C::spec_channels() as int,
            C::spec_bits() as int,
        ),
{
    C::format_in_range();
    let c = C::spec_channels() as int;
    let b = C::spec_bits() as int;
    assert(color_count * (c * b) > led_count * c * b) by (nonlinear_arith)
        requires
            0 <= led_count < color_count,
            c >= 1,
            b >= 1,
    ;
}

/// Smart LED driver built around a two-level pulse-generation peripheral.
///
/// The driver owns the transmit channel resource `Ch` and a pulse buffer
/// whose capacity is fixed at construction. Writing happens in two steps:
/// the color data is first encoded into the buffer (purely in software, so a
/// size mismatch is caught before the hardware is ever engaged), then the
/// channel is taken out with [`RmtSmartLeds::begin_transmit`], the buffer is
/// submitted to the peripheral by the caller, and the channel is handed back
/// with [`RmtSmartLeds::finish_transmit`] on success and failure alike, so
/// the driver stays usable after a failed transmission.
///
/// The type parameters fix the configuration at compile time: the color
/// format `C`, the wire ordering `Order`, and the LED family `Timing` whose
/// nanosecond pulse shapes are converted to clock ticks once, at
/// construction, and reused for every bit of every later encode.
pub struct RmtSmartLeds<Ch, C, Order, Tm> where
    C: Color,
    Order: ColorOrder<C>,
    Tm: Timing,
{
    channel: Option<Ch>,
    rmt_buffer: Vec<PulseCode>,
    pulses: (PulseCode, PulseCode),
    _color: PhantomData<C>,
    _order: PhantomData<Order>,
    _timing: PhantomData<Tm>,
}

impl<Ch, C, Order, Tm> RmtSmartLeds<Ch, C, Order, Tm> where
    C: Color,
    Order: ColorOrder<C>,
    Tm: Timing,
{
    /// The pulse buffer as it currently stands.
    pub closed spec fn spec_buffer(self) -> Seq<PulseCode> {
        self.rmt_buffer@
    }

    /// The transmit channel slot: holds the channel resource whenever no
    /// transmission is in flight.
    pub closed spec fn spec_channel(self) -> Option<Ch> {
        self.channel
    }

    /// Whether the driver currently owns its transmit channel.
    pub open spec fn has_channel(self) -> bool {
        self.spec_channel() is Some
    }

    /// The precomputed descriptor transmitted for a "0" bit.
    pub closed spec fn zero_pulse(self) -> PulseCode {
        self.pulses.0
    }

    /// The precomputed descriptor transmitted for a "1" bit.
    pub closed spec fn one_pulse(self) -> PulseCode {
        self.pulses.1
    }

    /// Every descriptor the driver holds fits the peripheral's 15-bit
    /// duration fields. Established at construction and preserved by every
    /// operation.
    pub open spec fn wf(self) -> bool {
        &&& self.zero_pulse().wf()
        &&& self.one_pulse().wf()
        &&& forall|i: int| 0 <= i < self.spec_buffer().len() ==> self.spec_buffer()[i].wf()
    }

    /// The parts of the driver that encoding never touches: the channel
    /// slot and the two precomputed bit descriptors.
    pub open spec fn same_config(self, other: Self) -> bool {
        &&& self.spec_channel() == other.spec_channel()
        &&& self.zero_pulse() == other.zero_pulse()
        &&& self.one_pulse() == other.one_pulse()
    }

    /// Creates a new [`RmtSmartLeds`] that owns the given transmit channel.
    ///
    /// `src_clock_mhz` is the peripheral clock rate in whole MHz; the four
    /// nanosecond durations of the LED family `Tm` are converted to clock
    /// ticks here, once, and reused for every bit of every later encode.
    /// `capacity` is the pulse-slot capacity of the buffer; size it with
    /// [`buffer_size`] for the desired LED count. Every slot starts out as
    /// an end marker.
    pub fn new(channel: Ch, src_clock_mhz: u32, capacity: usize) -> (r: Self)
        requires
            spec_ticks(Tm::spec_timing().time_0_high, src_clock_mhz) <= MAX_PULSE_TICKS as int,
            spec_ticks(Tm::spec_timing().time_0_low, src_clock_mhz) <= MAX_PULSE_TICKS as int,
            spec_ticks(Tm::spec_timing().time_1_high, src_clock_mhz) <= MAX_PULSE_TICKS as int,
            spec_ticks(Tm::spec_timing().time_1_low, src_clock_mhz) <= MAX_PULSE_TICKS as int,
        ensures
            r.spec_channel() == Some(channel),
            r.spec_buffer().len() == capacity,
            forall|i: int|
                0 <= i < capacity ==> r.spec_buffer()[i] == PulseCode::spec_end_marker(),
            r.zero_pulse() == (PulseCode {
                level1: true,
                length1: spec_ticks(Tm::spec_timing().time_0_high, src_clock_mhz) as u16,
                level2: false,
                length2: spec_ticks(Tm::spec_timing().time_0_low, src_clock_mhz) as u16,
            }),
            r.one_pulse() == (PulseCode {
                level1: true,
                length1: spec_ticks(Tm::spec_timing().time_1_high, src_clock_mhz) as u16,
                level2: false,
                length2: spec_ticks(Tm::spec_timing().time_1_low, src_clock_mhz) as u16,
            }),
            r.wf(),
    {
        let t = Tm::timing();
        let zero = pulse_from_nanos(t.time_0_high, t.time_0_low, src_clock_mhz);
        let one = pulse_from_nanos(t.time_1_high, t.time_1_low, src_clock_mhz);
        let mut buf: Vec<PulseCode> = Vec::new();
        let mut i: usize = 0;
        while i < capacity
            invariant
                0 <= i <= capacity,
                buf@.len() == i,
                forall|k: int| 0 <= k < i ==> buf@[k] == PulseCode::spec_end_marker(),
            decreases capacity - i,
        {
            buf.push(PulseCode::end_marker());
            i = i + 1;
        }
        RmtSmartLeds {
            channel: Some(channel),
            rmt_buffer: buf,
            pulses: (zero, one),
            _color: PhantomData,
            _order: PhantomData,
            _timing: PhantomData,
        }
    }

    /// Encode the color sequence into the pulse buffer: each color in input
    /// order, its channels in wire order, each most significant bit first,
    /// followed by exactly one end marker.
    ///
    /// Fails with [`AdapterError::BufferSizeExceeded`] exactly when the
    /// sequence needs more slots than the buffer holds; the failure is
    /// purely in software, before the hardware is engaged, and leaves the
    /// channel slot and the buffer capacity as they were.
    pub fn create_rmt_data(&mut self, colors: &Vec<C>) -> (r: Result<(), AdapterError>)
        requires
            old(self).wf(),
        ensures
            final(self).wf(),
            final(self).same_config(*old(self)),
            final(self).spec_buffer().len() == old(self).spec_buffer().len(),
            r is Ok <==> colors@.len() * color_pulse_count::<C>() + 1 <= old(
                self).spec_buffer().len(),
            r is Ok ==> {
                let data = colors_pulses::<C, Order>(
                    colors@,
                    old(self).zero_pulse(),
                    old(self).one_pulse(),
                );
                &&& final(self).spec_buffer().subrange(0, data.len() as int) == data
                &&& final(self).spec_buffer()[data.len() as int] == PulseCode::spec_end_marker()
                &&& forall|t: int|
                    data.len() + 1 <= t < final(self).spec_buffer().len() ==> final(
                        self).spec_buffer()[t] == old(self).spec_buffer()[t]
            },
            r is Err ==> r == Err::<(), AdapterError>(AdapterError::BufferSizeExceeded),
    {
        let ghost zero = self.pulses.0;
        let ghost one = self.pulses.1;
        let ghost cap = self.rmt_buffer@.len();
        let mut pos: usize = 0;
        let mut i: usize = 0;
        proof {
            lemma_colors_pulses_upto_len::<C, Order>(colors@, 0, zero, one);
        }
        while i < colors.len()
            invariant
                self.channel == old(self).channel,
                self.pulses == old(self).pulses,
                zero == self.pulses.0,
                one == self.pulses.1,
                self.rmt_buffer@.len() == cap,
                cap == old(self).spec_buffer().len(),
                old(self).wf(),
                forall|t: int| 0 <= t < cap ==> self.rmt_buffer@[t].wf(),
                0 <= i <= colors@.len(),
                pos <= cap,
                pos == i * color_pulse_count::<C>(),
                self.rmt_buffer@.subrange(0, pos as int) == colors_pulses_upto::<C, Order>(
                    colors@,
                    i as int,
                    zero,
                    one,
                ),
                forall|t: int|
                    pos <= t < cap ==> self.rmt_buffer@[t] == old(self).spec_buffer()[t],
            decreases colors@.len() - i,
        {
            let ghost prev = self.rmt_buffer@;
            let ghost prev_pos = pos;
            let r = convert_colors_to_pulse::<C, Order>(
                &colors[i],
                &mut self.rmt_buffer,
                &mut pos,
                self.pulses,
            );
            proof {
                lemma_colors_pulses_upto_len::<C, Order>(colors@, i as int, zero, one);
            }
            match r {
                Ok(()) => (),
                Err(e) => {
                    proof {
                        let cpc = color_pulse_count::<C>();
                        assert(colors@.len() * cpc >= (i + 1) * cpc && (i + 1) * cpc == i * cpc
                            + cpc) by (nonlinear_arith)
                            requires
                                0 <= i < colors@.len(),
                                cpc >= 0,
                        ;
                    }
                    return Err(e);
                },
            }
            proof {
                let cpc = color_pulse_count::<C>();
                assert((i + 1) * cpc == i * cpc + cpc) by (nonlinear_arith);
                assert(self.rmt_buffer@.subrange(0, pos as int) =~= colors_pulses_upto::<C, Order>(
                    colors@,
                    i as int + 1,
                    zero,
                    one,
                )) by {
                    assert(self.rmt_buffer@.subrange(0, prev_pos as int) =~= prev.subrange(
                        0,
                        prev_pos as int,
                    ));
                }
            }
            i = i + 1;
        }
        if pos >= self.rmt_buffer.len() {
            proof {
                assert(colors@.len() * color_pulse_count::<C>() + 1 > cap);
            }
            return Err(AdapterError::BufferSizeExceeded);
        }
        let ghost prev = self.rmt_buffer@;
        self.rmt_buffer[pos] = PulseCode::end_marker();
        proof {
            let data = colors_pulses::<C, Order>(colors@, zero, one);
            assert(self.rmt_buffer@.subrange(0, pos as int) =~= data) by {
                assert(self.rmt_buffer@.subrange(0, pos as int) =~= prev.subrange(0, pos as int));
            }
        }
        Ok(())
    }

    /// Write the pulses for a single color value into the slots for the LED
    /// at `index`, leaving every other slot — including the buffer's final
    /// slot, where the end delimiter lives — untouched. Drawing does not
    /// itself transmit; a separate flush hands the buffer to the peripheral.
    ///
    /// Fails with [`AdapterError::BufferSizeExceeded`], changing nothing,
    /// exactly when the slots for LED `index` do not fit in front of the
    /// buffer's last slot.
    pub fn write_pixel_data(&mut self, index: usize, color: C) -> (r: Result<(), AdapterError>)
        requires
            old(self).wf(),
        ensures
            final(self).wf(),
            final(self).same_config(*old(self)),
            final(self).spec_buffer().len() == old(self).spec_buffer().len(),
            r is Ok <==> (index + 1) * color_pulse_count::<C>() + 1 <= old(
                self).spec_buffer().len(),
            r is Ok ==> {
                let start = index * color_pulse_count::<C>();
                let run = color_pulses::<C, Order>(
                    color,
                    old(self).zero_pulse(),
                    old(self).one_pulse(),
                );
                &&& final(self).spec_buffer().subrange(start, start + color_pulse_count::<C>())
                    == run
                &&& forall|t: int|
                    0 <= t < old(self).spec_buffer().len() && !(start <= t < start
                        + color_pulse_count::<C>()) ==> final(self).spec_buffer()[t] == old(
                        self).spec_buffer()[t]
            },
            r is Err ==> {
                &&& *final(self) == *old(self)
                &&& r == Err::<(), AdapterError>(AdapterError::BufferSizeExceeded)
            },
    {
        let channels = C::channels();
        let bits = C::bits();
        proof {
            C::format_in_range();
            assert((channels as usize) * (bits as usize) <= 80) by (nonlinear_arith)
                requires
                    0 <= channels <= 5,
                    0 <= bits <= 16,
            ;
        }
        let cpc: usize = (channels as usize) * (bits as usize);
        let cap: usize = self.rmt_buffer.len();
        let ghost cpci = color_pulse_count::<C>();
        proof {
            assert((index + 1) * cpci == index * cpci + cpci) by (nonlinear_arith);
        }
        let start = match index.checked_mul(cpc) {
            Some(s) => s,
            None => {
                return Err(AdapterError::BufferSizeExceeded);
            },
        };
        let end = match start.checked_add(cpc) {
            Some(e) => e,
            None => {
                return Err(AdapterError::BufferSizeExceeded);
            },
        };
        if end >= cap {
            return Err(AdapterError::BufferSizeExceeded);
        }
        let mut pos: usize = start;
        match convert_colors_to_pulse::<C, Order>(
            &color,
            &mut self.rmt_buffer,
            &mut pos,
            self.pulses,
        ) {
            Ok(()) => (),
            Err(e) => {
                return Err(e);
            },
        }
        Ok(())
    }

    /// Take the transmit channel out of the driver to submit the buffer to
    /// the peripheral. Exactly one transmission can be in flight: the slot
    /// stays empty until [`RmtSmartLeds::finish_transmit`] returns the
    /// channel.
    pub fn begin_transmit(&mut self) -> (ch: Ch)
        requires
            old(self).has_channel(),
        ensures
            old(self).spec_channel() == Some(ch),
            !final(self).has_channel(),
            final(self).spec_buffer() == old(self).spec_buffer(),
            final(self).zero_pulse() == old(self).zero_pulse(),
            final(self).one_pulse() == old(self).one_pulse(),
            old(self).wf() ==> final(self).wf(),
    {
        let ch = self.channel.take();
        match ch {
            Some(c) => c,
            None => unreached(),
        }
    }

    /// Return the transmit channel to the driver after the peripheral
    /// reported the outcome of the transmission.
    ///
    /// The channel is restored on the success path and the failure path
    /// alike, so a subsequent write can always be attempted; a peripheral
    /// fault is wrapped in [`AdapterError::TransmissionError`] and surfaced
    /// verbatim.
    pub fn finish_transmit(&mut self, channel: Ch, outcome: Result<(), TransmitFault>) -> (r:
        Result<(), AdapterError>)
        requires
            !old(self).has_channel(),
        ensures
            final(self).spec_channel() == Some(channel),
            final(self).has_channel(),
            final(self).spec_buffer() == old(self).spec_buffer(),
            final(self).zero_pulse() == old(self).zero_pulse(),
            final(self).one_pulse() == old(self).one_pulse(),
            old(self).wf() ==> final(self).wf(),
            r is Ok <==> outcome is Ok,
            outcome matches Err(fault) ==> r == Err::<(), AdapterError>(
                AdapterError::TransmissionError(fault),
            ),
    {
        self.channel = Some(channel);
        match outcome {
            Ok(()) => Ok(()),
            Err(fault) => Err(AdapterError::TransmissionError(fault)),
        }
    }

    /// Whether the driver currently owns its transmit channel, as an
    /// executable check for unverified callers.
    pub fn owns_channel(&self) -> (b: bool)
        ensures
            b == self.has_channel(),
    {
        self.channel.is_some()
    }

    /// The pulse buffer, for handing to the peripheral.
    pub fn buffer(&self) -> (r: &Vec<PulseCode>)
        ensures
            r@ == self.spec_buffer(),
    {
        &self.rmt_buffer
    }

    /// The pulse-slot capacity the driver was built with.
    pub fn capacity(&self) -> (r: usize)
        ensures
            r == self.spec_buffer().len(),
    {
        self.rmt_buffer.len()
    }
}

/// A [`RmtSmartLeds`] specifically for 8-bit RGB colors, which is what most
/// smart LEDs use.
pub type Rgb8RmtSmartLeds<Ch, Order, Tm> = RmtSmartLeds<Ch, crate::color::Rgb8, Order, Tm>;

} // verus!
