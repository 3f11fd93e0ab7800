//! The pulse encoder: translates channel values and whole color values into
//! runs of pulse descriptors written into a pre-sized buffer.

use vstd::prelude::*;
use crate::color::Color;
use crate::color_order::ColorOrder;
use crate::error::AdapterError;
use crate::pulse::PulseCode;

verus! {

/// Whether bit `i` (counted from the least significant end) of `v` is set.
pub open spec fn bit_of(v: u16, i: u16) -> bool {
    v & (1u16 << i) != 0
}

/// The run of pulse descriptors that transmits the low `bits` bits of `v`,
/// most significant bit first: the `one` descriptor for each set bit, the
/// `zero` descriptor for each clear bit.
pub open spec fn channel_pulses(v: u16, bits: u8, zero: PulseCode, one: PulseCode) -> Seq<
    PulseCode,
> {
    Seq::new(bits as nat, |j: int| if bit_of(v, (bits - 1 - j) as u16) { one } else { zero })
}

/// The pulses for wire positions `0 .. k` of one color value, in wire order.
pub open spec fn color_pulses_upto<C: Color, Order: ColorOrder<C>>(
    c: C,
    k: int,
    zero: PulseCode,
    one: PulseCode,
) -> Seq<PulseCode>
    decreases k,
{
    if k <= 0 {
        Seq::empty()
    } else {
        color_pulses_upto::<C, Order>(c, k - 1, zero, one) + channel_pulses(
            Order::spec_channel_data(c, k - 1),
            C::spec_bits(),
            zero,
            one,
        )
    }
}

/// The full run of pulses for one color value: its channels in wire order,
/// each most significant bit first.
pub open spec fn color_pulses<C: Color, Order: ColorOrder<C>>(
    c: C,
    zero: PulseCode,
    one: PulseCode,
) -> Seq<PulseCode> {
    color_pulses_upto::<C, Order>(c, C::spec_channels() as int, zero, one)
}

/// The number of pulse slots one color value occupies: one per bit of each
/// channel.
pub open spec fn color_pulse_count<C: Color>() -> int {
    C::spec_channels() * C::spec_bits()
}

proof fn lemma_color_pulses_upto_len<C: Color, Order: ColorOrder<C>>(
    c: C,
    k: int,
    zero: PulseCode,
    one: PulseCode,
)
    requires
        0 <= k,
    ensures
        color_pulses_upto::<C, Order>(c, k, zero, one).len() == k * C::spec_bits(),
    decreases k,
{
    if k > 0 {
        lemma_color_pulses_upto_len::<C, Order>(c, k - 1, zero, one);
        assert(color_pulses_upto::<C, Order>(c, k, zero, one).len() == (k - 1) * C::spec_bits()
            + C::spec_bits());
        assert((k - 1) * C::spec_bits() + C::spec_bits() == k * C::spec_bits())
            by (nonlinear_arith);
    } else {
        assert(k * C::spec_bits() == 0) by (nonlinear_arith)
            requires
                k == 0,
        ;
    }
}

/// One encoded color value occupies exactly `channels * bits` pulse slots.
pub proof fn lemma_color_pulses_len<C: Color, Order: ColorOrder<C>>(
    c: C,
    zero: PulseCode,
    one: PulseCode,
)
    ensures
        color_pulses::<C, Order>(c, zero, one).len() == color_pulse_count::<C>(),
{
    lemma_color_pulses_upto_len::<C, Order>(c, C::spec_channels() as int, zero, one);
}

proof fn lemma_color_pulses_upto_index<C: Color, Order: ColorOrder<C>>(
    c: C,
    m: int,
    k: int,
    j: int,
    zero: PulseCode,
    one: PulseCode,
)
    requires
        0 <= k < m,
        0 <= j < C::spec_bits(),
    ensures
        color_pulses_upto::<C, Order>(c, m, zero, one)[k * C::spec_bits() + j] == channel_pulses(
            Order::spec_channel_data(c, k),
            C::spec_bits(),
            zero,
            one,
        )[j],
    decreases m,
{
    let b = C::spec_bits() as int;
    lemma_color_pulses_upto_len::<C, Order>(c, m - 1, zero, one);
    if k == m - 1 {
        assert(k * b + j - (m - 1) * b == j);
    } else {
        assert(k * b + j < (m - 1) * b) by (nonlinear_arith)
            requires
                0 <= k < m - 1,
                0 <= j < b,
        ;
        lemma_color_pulses_upto_index::<C, Order>(c, m - 1, k, j, zero, one);
    }
}

/// Within one encoded color value, the slot at `k * bits + j` is the pulse
/// for bit `bits - 1 - j` of the value sent at wire position `k`: channels
/// appear in wire order, most significant bit first.
pub proof fn lemma_color_pulses_index<C: Color, Order: ColorOrder<C>>(
    c: C,
    k: int,
    j: int,
    zero: PulseCode,
    one: PulseCode,
)
    requires
        0 <= k < C::spec_channels(),
        0 <= j < C::spec_bits(),
    ensures
        color_pulses::<C, Order>(c, zero, one)[k * C::spec_bits() + j] == channel_pulses(
            Order::spec_channel_data(c, k),
            C::spec_bits(),
            zero,
            one,
        )[j],
{
    lemma_color_pulses_upto_index::<C, Order>(c, C::spec_channels() as int, k, j, zero, one);
}

/// The pulses for the first `i` color values of a sequence, in input order.
pub open spec fn colors_pulses_upto<C: Color, Order: ColorOrder<C>>(
    colors: Seq<C>,
    i: int,
    zero: PulseCode,
    one: PulseCode,
) -> Seq<PulseCode>
    decreases i,
{
    if i <= 0 || i > colors.len() {
        Seq::empty()
    } else {
        colors_pulses_upto::<C, Order>(colors, i - 1, zero, one) + color_pulses::<C, Order>(
            colors[i - 1],
            zero,
            one,
        )
    }
}

/// The full run of data pulses for a sequence of color values: each color in
/// input order, its channels in wire order, each most significant bit first.
/// The end marker is not part of this run.
pub open spec fn colors_pulses<C: Color, Order: ColorOrder<C>>(
    colors: Seq<C>,
    zero: PulseCode,
    one: PulseCode,
) -> Seq<PulseCode> {
    colors_pulses_upto::<C, Order>(colors, colors.len() as int, zero, one)
}

pub(crate) proof fn lemma_colors_pulses_upto_len<C: Color, Order: ColorOrder<C>>(
    colors: Seq<C>,
    i: int,
    zero: PulseCode,
    one: PulseCode,
)
    requires
        0 <= i <= colors.len(),
    ensures
        colors_pulses_upto::<C, Order>(colors, i, zero, one).len() == i * color_pulse_count::<
            C,
        >(),
    decreases i,
{
    if i > 0 {
        lemma_colors_pulses_upto_len::<C, Order>(colors, i - 1, zero, one);
        lemma_color_pulses_len::<C, Order>(colors[i - 1], zero, one);
        assert((i - 1) * color_pulse_count::<C>() + color_pulse_count::<C>() == i
            * color_pulse_count::<C>()) by (nonlinear_arith);
    } else {
        assert(i * color_pulse_count::<C>() == 0) by (nonlinear_arith)
            requires
                i == 0,
        ;
    }
}

/// Encoding `n` color values of a `c`-channel, `b`-bit format produces
/// exactly `n * c * b` data pulses.
pub proof fn lemma_colors_pulses_len<C: Color, Order: ColorOrder<C>>(
    colors: Seq<C>,
    zero: PulseCode,
    one: PulseCode,
)
    ensures
        colors_pulses::<C, Order>(colors, zero, one).len() == colors.len() * color_pulse_count::<
            C,
        >(),
{
    lemma_colors_pulses_upto_len::<C, Order>(colors, colors.len() as int, zero, one);
}

/// Encoding an empty sequence produces no data pulses at all.
pub proof fn lemma_colors_pulses_empty<C: Color, Order: ColorOrder<C>>(
    zero: PulseCode,
    one: PulseCode,
)
    ensures
        colors_pulses::<C, Order>(Seq::empty(), zero, one) == Seq::<PulseCode>::empty(),
{
}

proof fn lemma_colors_pulses_upto_index<C: Color, Order: ColorOrder<C>>(
    colors: Seq<C>,
    m: int,
    i: int,
    t: int,
    zero: PulseCode,
    one: PulseCode,
)
    requires
        0 <= i < m,
        m <= colors.len(),
        0 <= t < color_pulse_count::<C>(),
    ensures
        colors_pulses_upto::<C, Order>(colors, m, zero, one)[i * color_pulse_count::<C>() + t]
            == color_pulses::<C, Order>(colors[i], zero, one)[t],
    decreases m,
{
    let cpc = color_pulse_count::<C>();
    lemma_colors_pulses_upto_len::<C, Order>(colors, m - 1, zero, one);
    if i == m - 1 {
        lemma_color_pulses_len::<C, Order>(colors[i], zero, one);
        assert(i * cpc + t - (m - 1) * cpc == t);
    } else {
        assert(i * cpc + t < (m - 1) * cpc) by (nonlinear_arith)
            requires
                0 <= i < m - 1,
                0 <= t < cpc,
        ;
        lemma_colors_pulses_upto_index::<C, Order>(colors, m - 1, i, t, zero, one);
    }
}

/// Slot-level decomposition of a full encoding: the slot at
/// `i * (channels * bits) + t` belongs to the `i`-th input color, at offset
/// `t` within that color's run.
pub proof fn lemma_colors_pulses_index<C: Color, Order: ColorOrder<C>>(
    colors: Seq<C>,
    i: int,
    t: int,
    zero: PulseCode,
    one: PulseCode,
)
    requires
        0 <= i < colors.len(),
        0 <= t < color_pulse_count::<C>(),
    ensures
        colors_pulses::<C, Order>(colors, zero, one)[i * color_pulse_count::<C>() + t]
            == color_pulses::<C, Order>(colors[i], zero, one)[t],
{
    lemma_colors_pulses_upto_index::<C, Order>(colors, colors.len() as int, i, t, zero, one);
}

/// The encoding laid out slot by slot: for color `i`, wire channel `k` and
/// bit offset `j`, the slot at `i * channels * bits + k * bits + j` holds
/// the `one` descriptor exactly when bit `bits - 1 - j` of the value sent at
/// wire position `k` of color `i` is set — input order, channel order, most
/// significant bit first.
pub proof fn lemma_encoding_slot<C: Color, Order: ColorOrder<C>>(
    colors: Seq<C>,
    i: int,
    k: int,
    j: int,
    zero: PulseCode,
    one: PulseCode,
)
    requires
        0 <= i < colors.len(),
        0 <= k < C::spec_channels(),
        0 <= j < C::spec_bits(),
    ensures
        colors_pulses::<C, Order>(colors, zero, one)[i * color_pulse_count::<C>() + (k
            * C::spec_bits() + j)] == if bit_of(
            Order::spec_channel_data(colors[i], k),
            (C::spec_bits() - 1 - j) as u16,
        ) {
            one
        } else {
            zero
        },
{
    let b = C::spec_bits() as int;
    let c = C::spec_channels() as int;
    assert(0 <= k * b + j < c * b) by (nonlinear_arith)
        requires
            0 <= k < c,
            0 <= j < b,
    ;
    lemma_colors_pulses_index::<C, Order>(colors, i, k * b + j, zero, one);
    lemma_color_pulses_index::<C, Order>(colors[i], k, j, zero, one);
}

/// Emit the pulses for one channel value into `buffer`, advancing `*pos`,
/// most significant bit first.
///
/// Fails with [`AdapterError::BufferSizeExceeded`], writing nothing, exactly
/// when fewer than `bits` slots remain; outside the written run the buffer
/// is untouched.
pub(crate) fn convert_channel_to_pulses(
    channel_value: u16,
    bits: u8,
    buffer: &mut Vec<PulseCode>,
    pos: &mut usize,
    pulses: (PulseCode, PulseCode),
) -> (r: Result<(), AdapterError>)
    requires
        1 <= bits <= 16,
        *old(pos) <= old(buffer).len(),
    ensures
        final(buffer).len() == old(buffer).len(),
        r is Ok <==> *old(pos) + bits <= old(buffer).len(),
        r is Ok ==> {
            &&& *final(pos) == *old(pos) + bits
            &&& final(buffer)@.subrange(*old(pos) as int, *final(pos) as int) == channel_pulses(
                channel_value,
                bits,
                pulses.0,
                pulses.1,
            )
            &&& forall|k: int|
                0 <= k < final(buffer).len() && !(*old(pos) <= k < *final(pos))
                    ==> final(buffer)@[k] == old(buffer)@[k]
            &&& forall|k: int|
                *old(pos) <= k < *final(pos) ==> (final(buffer)@[k] == pulses.0 || final(
                    buffer)@[k] == pulses.1)
        },
        r is Err ==> {
            &&& final(buffer)@ == old(buffer)@
            &&& *final(pos) == *old(pos)
            &&& r == Err::<(), AdapterError>(AdapterError::BufferSizeExceeded)
        },
{
    if buffer.len() - *pos < bits as usize {
        return Err(AdapterError::BufferSizeExceeded);
    }
    let ghost start = *pos;
    let ghost want = channel_pulses(channel_value, bits, pulses.0, pulses.1);
    let mut j: u8 = 0;
    while j < bits
        invariant
            1 <= bits <= 16,
            0 <= j <= bits,
            start + bits <= buffer.len(),
            buffer.len() == old(buffer).len(),
            *pos == start + j,
            want == channel_pulses(channel_value, bits, pulses.0, pulses.1),
            buffer@.subrange(start as int, *pos as int) == want.take(j as int),
            forall|k: int|
                0 <= k < buffer.len() && !(start <= k < start + j) ==> buffer@[k] == old(
                    buffer)@[k],
            forall|k: int|
                start <= k < start + j ==> (buffer@[k] == pulses.0 || buffer@[k] == pulses.1),
        decreases bits - j,
    {
        let idx: u16 = bits as u16 - 1 - j as u16;
        let mask: u16 = 1u16 << idx;
        let p = if channel_value & mask != 0 {
            pulses.1
        } else {
            pulses.0
        };
        let ghost prev = buffer@;
        buffer[*pos] = p;
        *pos = *pos + 1;
        proof {
            assert(p == want[j as int]);
            assert(buffer@.subrange(start as int, *pos as int) =~= want.take(j as int + 1)) by {
                assert(buffer@.subrange(start as int, start + j) =~= prev.subrange(
                    start as int,
                    start + j,
                ));
            }
        }
        j = j + 1;
    }
    proof {
        assert(want.take(bits as int) =~= want);
    }
    Ok(())
}

/// Emit the full run of pulses for one color value into `buffer`, advancing
/// `*pos`: each channel in wire order, most significant bit first.
///
/// Fails with [`AdapterError::BufferSizeExceeded`], writing nothing, exactly
/// when fewer than `channels * bits` slots remain; outside the written run
/// the buffer is untouched.
pub(crate) fn convert_colors_to_pulse<C: Color, Order: ColorOrder<C>>(
    value: &C,
    buffer: &mut Vec<PulseCode>,
    pos: &mut usize,
    pulses: (PulseCode, PulseCode),
) -> (r: Result<(), AdapterError>)
    requires
        *old(pos) <= old(buffer).len(),
    ensures
        final(buffer).len() == old(buffer).len(),
        r is Ok <==> *old(pos) + color_pulse_count::<C>() <= old(buffer).len(),
        r is Ok ==> {
            &&& *final(pos) == *old(pos) + color_pulse_count::<C>()
            &&& final(buffer)@.subrange(*old(pos) as int, *final(pos) as int) == color_pulses::<
                C,
                Order,
            >(*value, pulses.0, pulses.1)
            &&& forall|k: int|
                0 <= k < final(buffer).len() && !(*old(pos) <= k < *final(pos))
                    ==> final(buffer)@[k] == old(buffer)@[k]
            &&& forall|k: int|
                *old(pos) <= k < *final(pos) ==> (final(buffer)@[k] == pulses.0 || final(
                    buffer)@[k] == pulses.1)
        },
        r is Err ==> {
            &&& final(buffer)@ == old(buffer)@
            &&& *final(pos) == *old(pos)
            &&& r == Err::<(), AdapterError>(AdapterError::BufferSizeExceeded)
        },
{
    let channels: u8 = C::channels();
    let bits: u8 = C::bits();
    proof {
        C::format_in_range();
        assert((channels as usize) * (bits as usize) <= 80) by (nonlinear_arith)
            requires
                0 <= channels <= 5,
                0 <= bits <= 16,
        ;
    }
    let total: usize = (channels as usize) * (bits as usize);
    if buffer.len() - *pos < total {
        return Err(AdapterError::BufferSizeExceeded);
    }
    let ghost start = *pos;
    let mut k: u8 = 0;
    while k < channels
        invariant
            channels == C::spec_channels(),
            bits == C::spec_bits(),
            1 <= channels <= 5,
            bits == 8 || bits == 16,
            total == channels * bits,
            0 <= k <= channels,
            start + total <= buffer.len(),
            buffer.len() == old(buffer).len(),
            *pos == start + k * bits,
            buffer@.subrange(start as int, *pos as int) == color_pulses_upto::<C, Order>(
                *value,
                k as int,
                pulses.0,
                pulses.1,
            ),
            forall|t: int|
                0 <= t < buffer.len() && !(start <= t < *pos) ==> buffer@[t] == old(
                    buffer)@[t],
            forall|t: int|
                start <= t < *pos ==> (buffer@[t] == pulses.0 || buffer@[t] == pulses.1),
        decreases channels - k,
    {
        proof {
            assert(k * bits + bits <= channels * bits && (k + 1) * bits == k * bits + bits)
                by (nonlinear_arith)
                requires
                    0 <= k < channels,
                    bits >= 1,
            ;
        }
        let v: u16 = Order::get_channel_data(value, k);
        let ghost mid = *pos;
        let ghost before = buffer@;
        match convert_channel_to_pulses(v, bits, buffer, pos, pulses) {
            Ok(()) => (),
            Err(e) => {
                return Err(e);
            },
        }
        proof {
            assert(buffer@.subrange(start as int, *pos as int) =~= color_pulses_upto::<C, Order>(
                *value,
                k as int + 1,
                pulses.0,
                pulses.1,
            )) by {
                assert(buffer@.subrange(start as int, mid as int) =~= before.subrange(
                    start as int,
                    mid as int,
                ));
                assert(buffer@.subrange(mid as int, *pos as int) == channel_pulses(
                    v,
                    bits,
                    pulses.0,
                    pulses.1,
                ));
            }
        }
        k = k + 1;
    }
    proof {
        lemma_color_pulses_upto_len::<C, Order>(*value, channels as int, pulses.0, pulses.1);
    }
    Ok(())
}

} // verus!
