//! The driver's global guarantees, stated once over the spec functions that
//! the operation contracts use, and proved for every configuration.

use vstd::prelude::*;
use vstd::arithmetic::div_mod::lemma_fundamental_div_mod;

use crate::color::{Rgb565, Rgb666};
use crate::dcs::{ActionView, DcsCommand, PixelFormat, SetAddressMode};
use crate::models::{
    spec_common_sequence, spec_encode_rgb565, spec_encode_rgb565_seq, spec_encode_rgb666,
    spec_encode_rgb666_seq, spec_init_sequence, spec_write_pixels_rgb565,
    spec_write_pixels_rgb666, POWER_ON_WAIT_US, RESET_PULSE_US,
};
use crate::options::ModelOptions;

verus! {

/// Every well-formed Rgb565 color encodes to exactly two bytes which, read
/// big endian, recombine to the color's native packed representation.
pub proof fn lemma_rgb565_bytes_exact(c: Rgb565)
    requires
        c.wf(),
    ensures
        spec_encode_rgb565(c).len() == 2,
        spec_encode_rgb565(c)[0] == c.spec_hi(),
        spec_encode_rgb565(c)[1] == c.spec_lo(),
        c.spec_hi() * 256 + c.spec_lo() == c.spec_packed(),
{
    let p = c.spec_packed();
    assert(0 <= p < 65536);
    lemma_fundamental_div_mod(p, 256);
}

/// Every well-formed Rgb666 color encodes to exactly three bytes, each equal
/// to the corresponding channel left-shifted by two bits, in red, green,
/// blue order.
pub proof fn lemma_rgb666_bytes_exact(c: Rgb666)
    requires
        c.wf(),
    ensures
        spec_encode_rgb666(c).len() == 3,
        spec_encode_rgb666(c)[0] == c.r * 4,
        spec_encode_rgb666(c)[1] == c.g * 4,
        spec_encode_rgb666(c)[2] == c.b * 4,
{
}

/// An encoded Rgb565 sequence is exactly two bytes per color.
pub proof fn lemma_encode_rgb565_seq_len(cs: Seq<Rgb565>)
    ensures
        spec_encode_rgb565_seq(cs).len() == 2 * cs.len(),
    decreases cs.len(),
{
    if cs.len() != 0 {
        lemma_encode_rgb565_seq_len(cs.drop_last());
    }
}

/// An encoded Rgb666 sequence is exactly three bytes per color.
pub proof fn lemma_encode_rgb666_seq_len(cs: Seq<Rgb666>)
    ensures
        spec_encode_rgb666_seq(cs).len() == 3 * cs.len(),
    decreases cs.len(),
{
    if cs.len() != 0 {
        lemma_encode_rgb666_seq_len(cs.drop_last());
    }
}

/// In an encoded Rgb565 sequence, the bytes of the color at position `i`
/// stand at positions `2 * i` and `2 * i + 1`: colors are encoded in
/// iteration order, two bytes each.
pub proof fn lemma_encode_rgb565_seq_at(cs: Seq<Rgb565>, i: int)
    requires
        0 <= i < cs.len(),
    ensures
        spec_encode_rgb565_seq(cs)[2 * i] == cs[i].spec_hi(),
        spec_encode_rgb565_seq(cs)[2 * i + 1] == cs[i].spec_lo(),
    decreases cs.len(),
{
    lemma_encode_rgb565_seq_len(cs.drop_last());
    if i == cs.len() - 1 {
        assert(cs.last() == cs[i]);
    } else {
        lemma_encode_rgb565_seq_at(cs.drop_last(), i);
        assert(cs.drop_last()[i] == cs[i]);
    }
}

/// In an encoded Rgb666 sequence, the bytes of the color at position `i`
/// stand at positions `3 * i`, `3 * i + 1` and `3 * i + 2`: colors are
/// encoded in iteration order, three bytes each.
pub proof fn lemma_encode_rgb666_seq_at(cs: Seq<Rgb666>, i: int)
    requires
        0 <= i < cs.len(),
    ensures
        spec_encode_rgb666_seq(cs)[3 * i] == (cs[i].r * 4) as u8,
        spec_encode_rgb666_seq(cs)[3 * i + 1] == (cs[i].g * 4) as u8,
        spec_encode_rgb666_seq(cs)[3 * i + 2] == (cs[i].b * 4) as u8,
    decreases cs.len(),
{
    lemma_encode_rgb666_seq_len(cs.drop_last());
    if i == cs.len() - 1 {
        assert(cs.last() == cs[i]);
    } else {
        lemma_encode_rgb666_seq_at(cs.drop_last(), i);
        assert(cs.drop_last()[i] == cs[i]);
    }
}

/// A pixel write of an empty color sequence is the memory-write-start
/// command followed by a data transfer of zero bytes.
pub proof fn lemma_write_pixels_empty_rgb565()
    ensures
        spec_encode_rgb565_seq(Seq::<Rgb565>::empty()) == Seq::<u8>::empty(),
        spec_write_pixels_rgb565(Seq::<Rgb565>::empty()).len() == 2,
        spec_write_pixels_rgb565(Seq::<Rgb565>::empty())[0] == (ActionView::Command {
            cmd: DcsCommand::WriteMemoryStart,
        }),
        spec_write_pixels_rgb565(Seq::<Rgb565>::empty())[1] == (ActionView::Data {
            bytes: Seq::<u8>::empty(),
        }),
{
}

/// A pixel write of an empty color sequence is the memory-write-start
/// command followed by a data transfer of zero bytes.
pub proof fn lemma_write_pixels_empty_rgb666()
    ensures
        spec_encode_rgb666_seq(Seq::<Rgb666>::empty()) == Seq::<u8>::empty(),
        spec_write_pixels_rgb666(Seq::<Rgb666>::empty()).len() == 2,
        spec_write_pixels_rgb666(Seq::<Rgb666>::empty())[0] == (ActionView::Command {
            cmd: DcsCommand::WriteMemoryStart,
        }),
        spec_write_pixels_rgb666(Seq::<Rgb666>::empty())[1] == (ActionView::Data {
            bytes: Seq::<u8>::empty(),
        }),
{
}

/// Shape of the shared register sequence: fifteen actions, all of them
/// commands except the single pre-display-on wait; none of them is a reset
/// of either kind.
proof fn lemma_common_shape(options: ModelOptions, pixel_format: PixelFormat)
    ensures
        ({
            let s = spec_common_sequence(options, pixel_format);
            &&& s.len() == 15
            &&& s[13] == (ActionView::DelayUs { us: POWER_ON_WAIT_US })
            &&& forall|i: int| 0 <= i < 15 && i != 13 ==> (#[trigger] s[i]) is Command
            &&& forall|i: int|
                0 <= i < 15 ==> (#[trigger] s[i]) != (ActionView::Command {
                    cmd: DcsCommand::SoftReset,
                })
        }),
{
    let s = spec_common_sequence(options, pixel_format);
    assert forall|i: int| 0 <= i < 15 && i != 13 implies (#[trigger] s[i]) is Command by {
        assert(s[i] is Command);
    }
    assert forall|i: int| 0 <= i < 15 implies (#[trigger] s[i]) != (ActionView::Command {
        cmd: DcsCommand::SoftReset,
    }) by {
        assert(s[i] != (ActionView::Command { cmd: DcsCommand::SoftReset }));
    }
}

/// The initialization trace performs the reset exclusively as asked: with a
/// reset line it is a pulse on the line and the software-reset command never
/// appears; without one it is exactly one software-reset command, first, and
/// the reset line is never driven.
pub proof fn lemma_reset_policy(options: ModelOptions, pixel_format: PixelFormat)
    ensures
        ({
            let s = spec_init_sequence(options, pixel_format, true);
            &&& s[0] == ActionView::ResetLow
            &&& s[1] == (ActionView::DelayUs { us: RESET_PULSE_US })
            &&& s[2] == ActionView::ResetHigh
            &&& forall|i: int|
                0 <= i < s.len() ==> (#[trigger] s[i]) != (ActionView::Command {
                    cmd: DcsCommand::SoftReset,
                })
        }),
        ({
            let s = spec_init_sequence(options, pixel_format, false);
            &&& s[0] == (ActionView::Command { cmd: DcsCommand::SoftReset })
            &&& forall|i: int|
                1 <= i < s.len() ==> (#[trigger] s[i]) != (ActionView::Command {
                    cmd: DcsCommand::SoftReset,
                })
            &&& forall|i: int|
                0 <= i < s.len() ==> !((#[trigger] s[i]) is ResetLow) && !(s[i] is ResetHigh)
        }),
{
    lemma_common_shape(options, pixel_format);
    let c = spec_common_sequence(options, pixel_format);
    let hard = spec_init_sequence(options, pixel_format, true);
    assert forall|i: int| 0 <= i < hard.len() implies (#[trigger] hard[i]) != (ActionView::Command {
        cmd: DcsCommand::SoftReset,
    }) by {
        if i >= 4 {
            assert(hard[i] == c[i - 4]);
        }
    }
    let soft = spec_init_sequence(options, pixel_format, false);
    assert forall|i: int| 1 <= i < soft.len() implies (#[trigger] soft[i]) != (ActionView::Command {
        cmd: DcsCommand::SoftReset,
    }) by {
        if i >= 2 {
            assert(soft[i] == c[i - 2]);
        }
    }
    assert forall|i: int| 0 <= i < soft.len() implies !((#[trigger] soft[i]) is ResetLow) && !(
    soft[i] is ResetHigh) by {
        if i >= 2 {
            assert(soft[i] == c[i - 2]);
            assert(soft[i] is Command || soft[i] is DelayUs);
        }
    }
}

/// Each initialization performs exactly two long power-up waits of 120,000
/// microseconds: one right after the reset step, one right before the
/// display is switched on.
pub proof fn lemma_power_on_waits(options: ModelOptions, pixel_format: PixelFormat, hardware_reset: bool)
    ensures
        POWER_ON_WAIT_US == 120_000,
        ({
            let s = spec_init_sequence(options, pixel_format, hardware_reset);
            let first = if hardware_reset { 3int } else { 1int };
            let second = if hardware_reset { 17int } else { 15int };
            &&& s.len() == (if hardware_reset { 19int } else { 17int })
            &&& s[first] == (ActionView::DelayUs { us: POWER_ON_WAIT_US })
            &&& s[second] == (ActionView::DelayUs { us: POWER_ON_WAIT_US })
            &&& forall|i: int|
                0 <= i < s.len() && i != first && i != second ==> (#[trigger] s[i]) != (
                ActionView::DelayUs { us: POWER_ON_WAIT_US })
        }),
{
    lemma_common_shape(options, pixel_format);
    let c = spec_common_sequence(options, pixel_format);
    let s = spec_init_sequence(options, pixel_format, hardware_reset);
    let off = if hardware_reset { 4int } else { 2int };
    let first = if hardware_reset { 3int } else { 1int };
    let second = if hardware_reset { 17int } else { 15int };
    assert forall|i: int| 0 <= i < s.len() && i != first && i != second implies (#[trigger] s[i])
        != (ActionView::DelayUs { us: POWER_ON_WAIT_US }) by {
        if i >= off {
            assert(s[i] == c[i - off]);
            if i - off != 13 {
                assert(c[i - off] is Command);
            }
        }
    }
}

/// The action the trace takes at each step of initialization does not depend
/// on the configuration: two configurations yield traces of the same length
/// that differ at most in the addressing-mode and invert payloads.
pub proof fn lemma_init_order_independent(
    first: ModelOptions,
    second: ModelOptions,
    pixel_format: PixelFormat,
    hardware_reset: bool,
)
    ensures
        spec_init_sequence(first, pixel_format, hardware_reset).map_values(
            |a: ActionView| spec_payload_blind(a),
        ) =~= spec_init_sequence(second, pixel_format, hardware_reset).map_values(
            |a: ActionView| spec_payload_blind(a),
        ),
{
    let s1 = spec_init_sequence(first, pixel_format, hardware_reset);
    let s2 = spec_init_sequence(second, pixel_format, hardware_reset);
    assert(s1.len() == s2.len());
    assert forall|i: int| 0 <= i < s1.len() implies spec_payload_blind(#[trigger] s1[i])
        == spec_payload_blind(s2[i]) by {
        let off = if hardware_reset { 4int } else { 2int };
        if i >= off {
            assert(s1[i] == spec_common_sequence(first, pixel_format)[i - off]);
            assert(s2[i] == spec_common_sequence(second, pixel_format)[i - off]);
        }
    }
}

/// `spec_payload_blind` erases from an action exactly the payloads that the
/// configuration controls, leaving the kind of action and everything else.
pub open spec fn spec_payload_blind(a: ActionView) -> ActionView {
    match a {
        ActionView::Command { cmd: DcsCommand::SetInvertMode(_) } => (ActionView::Command {
            cmd: DcsCommand::SetInvertMode(false),
        }),
        ActionView::Command { cmd: DcsCommand::SetAddressMode(_) } => (ActionView::Command {
            cmd: DcsCommand::SetAddressMode(SetAddressMode { bits: 0 }),
        }),
        _ => a,
    }
}

} // verus!
