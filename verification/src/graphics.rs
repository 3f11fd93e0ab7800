//! 2D panel driver: maps cartesian draw coordinates onto the linear LED
//! strip (optionally in a snaking layout) and accumulates pixel data in the
//! pulse buffer until an explicit flush transmits it.

use vstd::prelude::*;
use crate::color::Color;
use crate::color_order::ColorOrder;
use crate::driver::buffer_size;
use crate::driver::spec_buffer_size;
use crate::driver::RmtSmartLeds;
use crate::encode::color_pulse_count;
use crate::encode::color_pulses;
use crate::encode::lemma_color_pulses_len;
use crate::error::AdapterError;
use crate::error::TransmitFault;
use crate::pulse::spec_ticks;
use crate::pulse::PulseCode;
use crate::pulse::MAX_PULSE_TICKS;
use crate::timing::Timing;

verus! {

/// The linear strip index of the pixel at `(x, y)` on a `width`-wide panel.
///
/// Without snaking every row runs left to right: `x + y * width`. With
/// snaking, row 0 and every other even row is reversed, so `x` is mirrored
/// to `width - x - 1` on those rows before the same formula applies.
pub open spec fn spec_coordinate_to_index(x: int, y: int, width: int, snaking: bool) -> int {
    let wire_x = if snaking && y % 2 == 0 {
        width - x - 1
    } else {
        x
    };
    wire_x + y * width
}

/// Convert cartesian panel coordinates to the linear strip index.
pub fn coordinate_to_index(x: usize, y: usize, width: usize, snaking: bool) -> (r: usize)
    requires
        x < width,
        (y + 1) * width <= usize::MAX,
    ensures
        r == spec_coordinate_to_index(x as int, y as int, width as int, snaking),
        r < (y + 1) * width,
{
    proof {
        assert((y + 1) * width == y * width + width && y * width >= 0) by (nonlinear_arith)
            requires
                y >= 0,
                width >= 0,
        ;
    }
    let wire_x = if snaking && y % 2 == 0 {
        width - x - 1
    } else {
        x
    };
    wire_x + y * width
}

/// Calculate the required buffer capacity for a panel of the given width and
/// height in LEDs of the color format `C`.
pub fn buffer_size_2d<C: Color>(width: usize, height: usize) -> (r: usize)
    requires
        width * height * C::spec_channels() * C::spec_bits() + 1 <= usize::MAX,
    ensures
        r == spec_buffer_size(
            width * height,
            C::spec_channels() as int,
            C::spec_bits() as int,
        ),
        r == width * height * color_pulse_count::<C>() + 1,
{
    proof {
        C::format_in_range();
        let w = width as int;
        let h = height as int;
        let c = C::spec_channels() as int;
        let b = C::spec_bits() as int;
        assert(w * h <= w * h * c * b && (w * h) * c == w * h * c && (w * h) * c * b == w * h * c
            * b && (w * h) * (c * b) == w * h * c * b) by (nonlinear_arith)
            requires
                w >= 0,
                h >= 0,
                c >= 1,
                b >= 1,
        ;
    }
    buffer_size::<C>(width * height)
}

/// The pulse buffer after drawing one pixel at `(x, y)`: if the coordinates
/// lie on the panel, the slots of that LED are replaced by the color's pulse
/// run and everything else is kept; off-panel coordinates leave the buffer
/// exactly as it was.
pub open spec fn spec_draw_pixel<C: Color, Order: ColorOrder<C>>(
    buf: Seq<PulseCode>,
    width: int,
    height: int,
    snaking: bool,
    x: int,
    y: int,
    color: C,
    zero: PulseCode,
    one: PulseCode,
) -> Seq<PulseCode> {
    if 0 <= x < width && 0 <= y < height {
        let start = spec_coordinate_to_index(x, y, width, snaking) * color_pulse_count::<C>();
        buf.subrange(0, start) + color_pulses::<C, Order>(color, zero, one) + buf.subrange(
            start + color_pulse_count::<C>(),
            buf.len() as int,
        )
    } else {
        buf
    }
}

/// The pulse buffer after drawing a batch of pixels in order, each through
/// [`spec_draw_pixel`]: later pixels overwrite earlier ones, off-panel
/// pixels change nothing.
pub open spec fn spec_draw_pixels<C: Color, Order: ColorOrder<C>>(
    buf: Seq<PulseCode>,
    width: int,
    height: int,
    snaking: bool,
    pixels: Seq<(i32, i32, C)>,
    zero: PulseCode,
    one: PulseCode,
) -> Seq<PulseCode>
    decreases pixels.len(),
{
    if pixels.len() == 0 {
        buf
    } else {
        spec_draw_pixels::<C, Order>(
            spec_draw_pixel::<C, Order>(
                buf,
                width,
                height,
                snaking,
                pixels[0].0 as int,
                pixels[0].1 as int,
                pixels[0].2,
                zero,
                one,
            ),
            width,
            height,
            snaking,
            pixels.drop_first(),
            zero,
            one,
        )
    }
}

/// 2D display driver built on top of [`RmtSmartLeds`].
///
/// Use this to drive addressable LEDs arranged as a `width` by `height`
/// matrix. Drawing writes single pixels into the pulse buffer — translating
/// the coordinates through the optional snaking layout — and never touches
/// the hardware; an explicit flush transmits the accumulated state.
pub struct RmtSmartLedsGraphics<Ch, C, Order, Tm> where
    C: Color,
    Order: ColorOrder<C>,
    Tm: Timing,
{
    driver: RmtSmartLeds<Ch, C, Order, Tm>,
    width: usize,
    height: usize,
    snaking: bool,
}

impl<Ch, C, Order, Tm> RmtSmartLedsGraphics<Ch, C, Order, Tm> where
    C: Color,
    Order: ColorOrder<C>,
    Tm: Timing,
{
    /// The wrapped strip driver.
    pub closed spec fn spec_driver(self) -> RmtSmartLeds<Ch, C, Order, Tm> {
        self.driver
    }

    /// Width of the panel, in LEDs.
    pub closed spec fn spec_width(self) -> usize {
        self.width
    }

    /// Height of the panel, in LEDs.
    pub closed spec fn spec_height(self) -> usize {
        self.height
    }

    /// Whether every even row of the panel runs reversed.
    pub closed spec fn spec_snaking(self) -> bool {
        self.snaking
    }

    /// Whether the driver currently owns its transmit channel.
    pub open spec fn has_channel(self) -> bool {
        self.spec_driver().has_channel()
    }

    /// The wrapped driver is well formed and its buffer has a slot for
    /// every bit of every pixel of the panel, plus the end delimiter.
    pub open spec fn wf(self) -> bool {
        &&& self.spec_driver().wf()
        &&& self.spec_width() * self.spec_height() * color_pulse_count::<C>() + 1 <= self
            .spec_driver().spec_buffer().len()
    }

    /// The panel geometry and the driver configuration that drawing and
    /// flushing never change.
    pub open spec fn same_panel(self, other: Self) -> bool {
        &&& self.spec_width() == other.spec_width()
        &&& self.spec_height() == other.spec_height()
        &&& self.spec_snaking() == other.spec_snaking()
        &&& self.spec_driver().zero_pulse() == other.spec_driver().zero_pulse()
        &&& self.spec_driver().one_pulse() == other.spec_driver().one_pulse()
        &&& self.spec_driver().spec_buffer().len() == other.spec_driver().spec_buffer().len()
    }

    /// Create a new 2D display driver that owns the given transmit channel.
    ///
    /// The pulse buffer is sized exactly for `width * height` LEDs of the
    /// color format `C`; every slot starts out as an end marker. See
    /// [`RmtSmartLeds::new`] for the clock and timing conversion.
    pub fn new(channel: Ch, src_clock_mhz: u32, width: usize, height: usize, snaking: bool) -> (r:
        Self)
        requires
            spec_ticks(Tm::spec_timing().time_0_high, src_clock_mhz) <= MAX_PULSE_TICKS as int,
            spec_ticks(Tm::spec_timing().time_0_low, src_clock_mhz) <= MAX_PULSE_TICKS as int,
            spec_ticks(Tm::spec_timing().time_1_high, src_clock_mhz) <= MAX_PULSE_TICKS as int,
            spec_ticks(Tm::spec_timing().time_1_low, src_clock_mhz) <= MAX_PULSE_TICKS as int,
            width * height * C::spec_channels() * C::spec_bits() + 1 <= usize::MAX,
        ensures
            r.wf(),
            r.spec_width() == width,
            r.spec_height() == height,
            r.spec_snaking() == snaking,
            r.spec_driver().spec_channel() == Some(channel),
            r.spec_driver().spec_buffer().len() == width * height * color_pulse_count::<C>() + 1,
            forall|i: int|
                0 <= i < r.spec_driver().spec_buffer().len() ==> r.spec_driver().spec_buffer()[i]
                    == PulseCode::spec_end_marker(),
            r.spec_driver().zero_pulse() == (PulseCode {
                level1: true,
                length1: spec_ticks(Tm::spec_timing().time_0_high, src_clock_mhz) as u16,
                level2: false,
                length2: spec_ticks(Tm::spec_timing().time_0_low, src_clock_mhz) as u16,
            }),
            r.spec_driver().one_pulse() == (PulseCode {
                level1: true,
                length1: spec_ticks(Tm::spec_timing().time_1_high, src_clock_mhz) as u16,
                level2: false,
                length2: spec_ticks(Tm::spec_timing().time_1_low, src_clock_mhz) as u16,
            }),
    {
        let capacity = buffer_size_2d::<C>(width, height);
        let driver = RmtSmartLeds::<Ch, C, Order, Tm>::new(channel, src_clock_mhz, capacity);
        proof {
            let w = width as int;
            let h = height as int;
            let c = C::spec_channels() as int;
            let b = C::spec_bits() as int;
            assert((w * h) * (c * b) == w * h * c * b) by (nonlinear_arith);
        }
        RmtSmartLedsGraphics { driver, width, height, snaking }
    }

    /// Width of the panel, in LEDs.
    pub fn panel_width(&self) -> (r: usize)
        ensures
            r == self.spec_width(),
    {
        self.width
    }

    /// Height of the panel, in LEDs.
    pub fn panel_height(&self) -> (r: usize)
        ensures
            r == self.spec_height(),
    {
        self.height
    }

    /// Whether every even row of the panel runs reversed.
    pub fn is_snaking(&self) -> (r: bool)
        ensures
            r == self.spec_snaking(),
    {
        self.snaking
    }

    /// Number of LEDs in this panel.
    pub fn led_count(&self) -> (r: usize)
        requires
            self.wf(),
        ensures
            r == self.spec_width() * self.spec_height(),
    {
        let _cap: usize = self.driver.capacity();
        proof {
            C::format_in_range();
            let w = self.spec_width() as int;
            let h = self.spec_height() as int;
            assert(color_pulse_count::<C>() >= 1) by (nonlinear_arith)
                requires
                    C::spec_channels() >= 1,
                    C::spec_bits() >= 1,
                    color_pulse_count::<C>() == C::spec_channels() * C::spec_bits(),
            ;
            assert(w * h <= w * h * color_pulse_count::<C>()) by (nonlinear_arith)
                requires
                    w >= 0,
                    h >= 0,
                    color_pulse_count::<C>() >= 1,
            ;
        }
        self.width * self.height
    }

    /// Whether the driver currently owns its transmit channel, as an
    /// executable check for unverified callers.
    pub fn owns_channel(&self) -> (b: bool)
        ensures
            b == self.has_channel(),
    {
        self.driver.owns_channel()
    }

    /// The pulse buffer, for handing to the peripheral.
    pub fn buffer(&self) -> (r: &Vec<PulseCode>)
        ensures
            r@ == self.spec_driver().spec_buffer(),
    {
        self.driver.buffer()
    }

    /// Draw one pixel: write the color's pulse run into the slots of the
    /// LED at `(x, y)`, translated through the panel layout. Coordinates
    /// outside the panel — negative, or at least as large as the width or
    /// height — are accepted as no-ops: nothing is written and no error is
    /// raised. Drawing never transmits and never fails.
    pub fn draw_pixel(&mut self, x: i32, y: i32, color: C) -> (r: Result<(), AdapterError>)
        requires
            old(self).wf(),
        ensures
            r is Ok,
            final(self).wf(),
            final(self).same_panel(*old(self)),
            final(self).spec_driver().spec_channel() == old(self).spec_driver().spec_channel(),
            final(self).spec_driver().spec_buffer() == spec_draw_pixel::<C, Order>(
                old(self).spec_driver().spec_buffer(),
                old(self).spec_width() as int,
                old(self).spec_height() as int,
                old(self).spec_snaking(),
                x as int,
                y as int,
                color,
                old(self).spec_driver().zero_pulse(),
                old(self).spec_driver().one_pulse(),
            ),
    {
        if x < 0 || y < 0 {
            return Ok(());
        }
        let xu = x as usize;
        let yu = y as usize;
        if xu >= self.width || yu >= self.height {
            return Ok(());
        }
        let ghost w = self.width as int;
        let ghost h = self.height as int;
        let ghost cpc = color_pulse_count::<C>();
        let cap = self.driver.capacity();
        proof {
            C::format_in_range();
            assert(cpc >= 1) by (nonlinear_arith)
                requires
                    C::spec_channels() >= 1,
                    C::spec_bits() >= 1,
                    cpc == C::spec_channels() * C::spec_bits(),
            ;
            assert((yu + 1) * w <= h * w && h * w <= h * w * cpc && w * h * cpc == h * w * cpc)
                by (nonlinear_arith)
                requires
                    0 <= yu < h,
                    w >= 1,
                    cpc >= 1,
                    h >= 0,
            ;
        }
        let index = coordinate_to_index(xu, yu, self.width, self.snaking);
        proof {
            assert((index + 1) * cpc <= h * w * cpc) by (nonlinear_arith)
                requires
                    0 <= index + 1 <= h * w,
                    cpc >= 0,
                    h >= 0,
                    w >= 0,
            ;
            assert((index + 1) * cpc == index * cpc + cpc && index * cpc >= 0)
                by (nonlinear_arith)
                requires
                    index >= 0,
                    cpc >= 0,
            ;
        }
        let ghost before = self.driver.spec_buffer();
        match self.driver.write_pixel_data(index, color) {
            Ok(()) => (),
            Err(e) => {
                return Err(e);
            },
        }
        proof {
            let zero_p = old(self).spec_driver().zero_pulse();
            let one_p = old(self).spec_driver().one_pulse();
            let run = color_pulses::<C, Order>(color, zero_p, one_p);
            lemma_color_pulses_len::<C, Order>(color, zero_p, one_p);
            let start = index as int * cpc;
            let rhs = spec_draw_pixel::<C, Order>(
                before,
                w,
                h,
                old(self).spec_snaking(),
                x as int,
                y as int,
                color,
                zero_p,
                one_p,
            );
            assert(rhs == before.subrange(0, start) + run + before.subrange(
                start + cpc,
                cap as int,
            ));
            assert forall|t: int| 0 <= t < cap implies self.driver.spec_buffer()[t] == rhs[t] by {
                assert(before.subrange(0, start).len() == start);
                if start <= t < start + cpc {
                    assert(self.driver.spec_buffer().subrange(start, start + cpc)[t - start]
                        == run[t - start]);
                }
            }
            assert(self.driver.spec_buffer() =~= rhs);
        }
        Ok(())
    }

    /// Draw a batch of pixels, each a `(x, y, color)` triple, in order:
    /// later pixels overwrite earlier ones at the same coordinates, and
    /// off-panel pixels are dropped silently. Drawing never transmits and
    /// never fails.
    pub fn draw_pixels(&mut self, pixels: &Vec<(i32, i32, C)>) -> (r: Result<(), AdapterError>) where
        C: Copy,

        requires
            old(self).wf(),
        ensures
            r is Ok,
            final(self).wf(),
            final(self).same_panel(*old(self)),
            final(self).spec_driver().spec_channel() == old(self).spec_driver().spec_channel(),
            final(self).spec_driver().spec_buffer() == spec_draw_pixels::<C, Order>(
                old(self).spec_driver().spec_buffer(),
                old(self).spec_width() as int,
                old(self).spec_height() as int,
                old(self).spec_snaking(),
                pixels@,
                old(self).spec_driver().zero_pulse(),
                old(self).spec_driver().one_pulse(),
            ),
    {
        let ghost w = old(self).spec_width() as int;
        let ghost h = old(self).spec_height() as int;
        let ghost snaking = old(self).spec_snaking();
        let ghost zero_p = old(self).spec_driver().zero_pulse();
        let ghost one_p = old(self).spec_driver().one_pulse();
        let ghost whole = spec_draw_pixels::<C, Order>(
            old(self).spec_driver().spec_buffer(),
            w,
            h,
            snaking,
            pixels@,
            zero_p,
            one_p,
        );
        proof {
            assert(pixels@.skip(0) =~= pixels@);
        }
        let mut i: usize = 0;
        while i < pixels.len()
            invariant
                self.wf(),
                self.same_panel(*old(self)),
                self.spec_driver().spec_channel() == old(self).spec_driver().spec_channel(),
                w == self.spec_width() as int,
                h == self.spec_height() as int,
                snaking == self.spec_snaking(),
                zero_p == self.spec_driver().zero_pulse(),
                one_p == self.spec_driver().one_pulse(),
                0 <= i <= pixels@.len(),
                spec_draw_pixels::<C, Order>(
                    self.spec_driver().spec_buffer(),
                    w,
                    h,
                    snaking,
                    pixels@.skip(i as int),
                    zero_p,
                    one_p,
                ) == whole,
            decreases pixels@.len() - i,
        {
            let p = &pixels[i];
            let ghost before = self.spec_driver().spec_buffer();
            match self.draw_pixel(p.0, p.1, p.2) {
                Ok(()) => (),
                Err(e) => {
                    return Err(e);
                },
            }
            proof {
                assert(pixels@.skip(i as int)[0] == pixels@[i as int]);
                assert(pixels@.skip(i as int).drop_first() =~= pixels@.skip(i as int + 1));
            }
            i = i + 1;
        }
        proof {
            assert(pixels@.skip(pixels@.len() as int) =~= Seq::<(i32, i32, C)>::empty());
        }
        Ok(())
    }

    /// Take the transmit channel out of the driver to flush the accumulated
    /// pixel state: the caller submits the buffer to the peripheral and
    /// hands the channel back with [`RmtSmartLedsGraphics::flush_finish`].
    pub fn flush_begin(&mut self) -> (ch: Ch)
        requires
            old(self).has_channel(),
        ensures
            old(self).spec_driver().spec_channel() == Some(ch),
            !final(self).has_channel(),
            final(self).same_panel(*old(self)),
            final(self).spec_driver().spec_buffer() == old(self).spec_driver().spec_buffer(),
            old(self).wf() ==> final(self).wf(),
    {
        self.driver.begin_transmit()
    }

    /// Return the transmit channel after the peripheral reported the
    /// outcome of the flush. The channel is restored on the success path
    /// and the failure path alike, so the panel stays usable.
    pub fn flush_finish(&mut self, channel: Ch, outcome: Result<(), TransmitFault>) -> (r: Result<
        (),
        AdapterError,
    >)
        requires
            !old(self).has_channel(),
        ensures
            final(self).spec_driver().spec_channel() == Some(channel),
            final(self).has_channel(),
            final(self).same_panel(*old(self)),
            final(self).spec_driver().spec_buffer() == old(self).spec_driver().spec_buffer(),
            old(self).wf() ==> final(self).wf(),
            r is Ok <==> outcome is Ok,
            outcome matches Err(fault) ==> r == Err::<(), AdapterError>(
                AdapterError::TransmissionError(fault),
            ),
    {
        self.driver.finish_transmit(channel, outcome)
    }
}

} // verus!
