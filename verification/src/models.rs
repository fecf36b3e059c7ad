//! The model capability of the ILI9488 controller family: one type per color
//! format, each offering initialization and pixel streaming, sharing one
//! register sequence.

use vstd::prelude::*;
use vstd::assert_seqs_equal;

use crate::color::{Rgb565, Rgb666};
use crate::dcs::{ActionView, BitsPerPixel, Dcs, DcsCommand, PixelFormat, SetAddressMode};
use crate::options::ModelOptions;

verus! {

/// Microseconds of the two mandatory power-up waits: one after reset, one
/// before the display is switched on.
pub const POWER_ON_WAIT_US: u32 = 120_000;

/// Microseconds the reset line is held low during a hardware reset pulse.
pub const RESET_PULSE_US: u32 = 10;

/// Marker for a wired hardware reset line, exclusively borrowed for the
/// duration of `init`.  When a driver operation drives the line, the edges
/// appear in the recorded trace as reset actions.
#[derive(Clone, Copy, PartialEq, Eq, Structural, Debug)]
pub struct ResetPin;

/// ILI9488 display in Rgb565 color mode.
#[derive(Clone, Copy, PartialEq, Eq, Structural, Debug)]
pub struct ILI9488Rgb565;

/// ILI9488 display in Rgb666 color mode.
#[derive(Clone, Copy, PartialEq, Eq, Structural, Debug)]
pub struct ILI9488Rgb666;

/// Actions of the reset step: a hardware pulse on the reset line when one is
/// wired, otherwise a single software-reset command.
pub open spec fn spec_reset_actions(hardware: bool) -> Seq<ActionView> {
    if hardware {
        seq![
            ActionView::ResetLow,
            ActionView::DelayUs { us: RESET_PULSE_US },
            ActionView::ResetHigh,
        ]
    } else {
        seq![ActionView::Command { cmd: DcsCommand::SoftReset }]
    }
}

/// The register sequence shared by every color format, from the addressing
/// mode to the final display-on command.  Only the addressing-mode, invert,
/// and pixel-format payloads depend on the arguments; order and table
/// contents are fixed.
pub open spec fn spec_common_sequence(options: ModelOptions, pixel_format: PixelFormat) -> Seq<
    ActionView,
> {
    seq![
        ActionView::Command {
            cmd: DcsCommand::SetAddressMode(SetAddressMode::spec_from_options(options)),
        },
        ActionView::Command { cmd: DcsCommand::SetInvertMode(options.invert_colors) },
        ActionView::Command { cmd: DcsCommand::SetPixelFormat(pixel_format) },
        ActionView::Command { cmd: DcsCommand::PowerControl1 },
        ActionView::Command { cmd: DcsCommand::PowerControl2 },
        ActionView::Command { cmd: DcsCommand::VcomControl1 },
        ActionView::Command { cmd: DcsCommand::FrameRateControl1 },
        ActionView::Command { cmd: DcsCommand::SetImageFunction },
        ActionView::Command { cmd: DcsCommand::PositiveGammaControl },
        ActionView::Command { cmd: DcsCommand::NegativeGammaControl },
        ActionView::Command { cmd: DcsCommand::DisplayFunctionControl },
        ActionView::Command { cmd: DcsCommand::ExitSleepMode },
        ActionView::Command { cmd: DcsCommand::EnterNormalMode },
        ActionView::DelayUs { us: POWER_ON_WAIT_US },
        ActionView::Command { cmd: DcsCommand::SetDisplayOn },
    ]
}

/// The full initialization trace: reset, the first power-up wait, then the
/// shared register sequence (which ends with the second wait and display-on).
pub open spec fn spec_init_sequence(
    options: ModelOptions,
    pixel_format: PixelFormat,
    hardware_reset: bool,
) -> Seq<ActionView> {
    spec_reset_actions(hardware_reset) + seq![ActionView::DelayUs { us: POWER_ON_WAIT_US }]
        + spec_common_sequence(options, pixel_format)
}

/// Wire bytes of one Rgb565 color: its packed representation, big endian.
pub open spec fn spec_encode_rgb565(c: Rgb565) -> Seq<u8> {
    seq![c.spec_hi(), c.spec_lo()]
}

/// Wire bytes of one Rgb666 color: each channel left-shifted by two bits,
/// in red, green, blue order.
pub open spec fn spec_encode_rgb666(c: Rgb666) -> Seq<u8> {
    seq![(c.r * 4) as u8, (c.g * 4) as u8, (c.b * 4) as u8]
}

/// Wire bytes of a whole Rgb565 color sequence, in iteration order.
pub open spec fn spec_encode_rgb565_seq(cs: Seq<Rgb565>) -> Seq<u8>
    decreases cs.len(),
{
    if cs.len() == 0 {
        Seq::<u8>::empty()
    } else {
        spec_encode_rgb565_seq(cs.drop_last()) + spec_encode_rgb565(cs.last())
    }
}

/// Wire bytes of a whole Rgb666 color sequence, in iteration order.
pub open spec fn spec_encode_rgb666_seq(cs: Seq<Rgb666>) -> Seq<u8>
    decreases cs.len(),
{
    if cs.len() == 0 {
        Seq::<u8>::empty()
    } else {
        spec_encode_rgb666_seq(cs.drop_last()) + spec_encode_rgb666(cs.last())
    }
}

/// The trace of one pixel write in Rgb565 mode: the memory-write-start
/// command, then one data transfer holding the encoded colors.
pub open spec fn spec_write_pixels_rgb565(cs: Seq<Rgb565>) -> Seq<ActionView> {
    seq![
        ActionView::Command { cmd: DcsCommand::WriteMemoryStart },
        ActionView::Data { bytes: spec_encode_rgb565_seq(cs) },
    ]
}

/// The trace of one pixel write in Rgb666 mode: the memory-write-start
/// command, then one data transfer holding the encoded colors.
pub open spec fn spec_write_pixels_rgb666(cs: Seq<Rgb666>) -> Seq<ActionView> {
    seq![
        ActionView::Command { cmd: DcsCommand::WriteMemoryStart },
        ActionView::Data { bytes: spec_encode_rgb666_seq(cs) },
    ]
}

/// Runs the register sequence shared by every color format and hands back the
/// addressing-mode descriptor it configured.
fn init_common(dcs: &mut Dcs, options: &ModelOptions, pixel_format: PixelFormat) -> (r:
    SetAddressMode)
    ensures
        final(dcs)@ == old(dcs)@ + spec_common_sequence(*options, pixel_format),
        r == SetAddressMode::spec_from_options(*options),
{
    let madctl = SetAddressMode::from_options(options);
    dcs.write_command(DcsCommand::SetAddressMode(madctl));
    dcs.write_command(DcsCommand::SetInvertMode(options.invert_colors));
    dcs.write_command(DcsCommand::SetPixelFormat(pixel_format));
    dcs.write_command(DcsCommand::PowerControl1);
    dcs.write_command(DcsCommand::PowerControl2);
    dcs.write_command(DcsCommand::VcomControl1);
    dcs.write_command(DcsCommand::FrameRateControl1);
    dcs.write_command(DcsCommand::SetImageFunction);
    dcs.write_command(DcsCommand::PositiveGammaControl);
    dcs.write_command(DcsCommand::NegativeGammaControl);
    dcs.write_command(DcsCommand::DisplayFunctionControl);
    dcs.write_command(DcsCommand::ExitSleepMode);
    dcs.write_command(DcsCommand::EnterNormalMode);
    dcs.delay_us(POWER_ON_WAIT_US);
    dcs.write_command(DcsCommand::SetDisplayOn);
    proof {
        assert_seqs_equal!(dcs@ == old(dcs)@ + spec_common_sequence(*options, pixel_format));
    }
    madctl
}

impl ILI9488Rgb565 {
    /// The pixel format this variant configures: 16 bits per pixel on both
    /// interfaces.
    pub open spec fn spec_pixel_format() -> PixelFormat {
        PixelFormat::spec_with_all(BitsPerPixel::Sixteen)
    }

    /// The default configuration of this variant: a 320x480 framebuffer and
    /// display, and every other setting at its default.
    pub open spec fn spec_default_options() -> ModelOptions {
        ModelOptions {
            framebuffer_size: (320, 480),
            display_size: (320, 480),
            invert_colors: false,
            orientation: crate::options::Orientation::Portrait,
            color_order_bgr: false,
        }
    }

    /// Executable form of `spec_default_options`.
    pub fn default_options() -> (r: ModelOptions)
        ensures
            r == ILI9488Rgb565::spec_default_options(),
            r.wf(),
    {
        ModelOptions::with_sizes((320, 480), (320, 480))
    }

    /// Initializes the controller: a hardware reset pulse when a reset line
    /// is supplied and a software reset otherwise, the first power-up wait,
    /// then the shared register sequence.  Returns the addressing-mode
    /// descriptor that was configured.
    pub fn init(&self, dcs: &mut Dcs, options: &ModelOptions, rst: &Option<ResetPin>) -> (r:
        SetAddressMode)
        ensures
            final(dcs)@ == old(dcs)@ + spec_init_sequence(
                *options,
                ILI9488Rgb565::spec_pixel_format(),
                rst.is_some(),
            ),
            r == SetAddressMode::spec_from_options(*options),
    {
        match rst {
            Option::Some(_) => {
                dcs.reset_low();
                dcs.delay_us(RESET_PULSE_US);
                dcs.reset_high();
            },
            Option::None => {
                dcs.write_command(DcsCommand::SoftReset);
            },
        }
        dcs.delay_us(POWER_ON_WAIT_US);
        let pf = PixelFormat::with_all(BitsPerPixel::Sixteen);
        let madctl = init_common(dcs, options, pf);
        proof {
            assert_seqs_equal!(dcs@ == old(dcs)@ + spec_init_sequence(
                *options,
                ILI9488Rgb565::spec_pixel_format(),
                rst.is_some(),
            ));
        }
        madctl
    }

    /// Issues the memory-write-start command, then streams the encoded bytes
    /// of every color in `colors`, in order, as one data transfer.  An empty
    /// sequence still issues the command, followed by an empty transfer.
    pub fn write_pixels(&self, dcs: &mut Dcs, colors: &Vec<Rgb565>)
        requires
            forall|k: int| 0 <= k < colors@.len() ==> colors@[k].wf(),
        ensures
            final(dcs)@ == old(dcs)@ + spec_write_pixels_rgb565(colors@),
    {
        dcs.write_command(DcsCommand::WriteMemoryStart);
        let mut bytes: Vec<u8> = Vec::new();
        let mut i: usize = 0;
        while i < colors.len()
            invariant
                i <= colors@.len(),
                bytes@ == spec_encode_rgb565_seq(colors@.subrange(0, i as int)),
                forall|k: int| 0 <= k < colors@.len() ==> colors@[k].wf(),
            decreases colors@.len() - i,
        {
            let c = colors[i];
            let (hi, lo) = c.to_wire_bytes();
            bytes.push(hi);
            bytes.push(lo);
            proof {
                let cs = colors@;
                assert(cs.subrange(0, i + 1).drop_last() =~= cs.subrange(0, i as int));
                assert(cs.subrange(0, i + 1).last() == cs[i as int]);
                assert_seqs_equal!(bytes@ == spec_encode_rgb565_seq(cs.subrange(0, i + 1)));
            }
            i = i + 1;
        }
        proof {
            assert(colors@.subrange(0, colors@.len() as int) =~= colors@);
        }
        dcs.send_data(bytes);
        proof {
            assert_seqs_equal!(dcs@ == old(dcs)@ + spec_write_pixels_rgb565(colors@));
        }
    }
}

impl ILI9488Rgb666 {
    /// The pixel format this variant configures: 18 bits per pixel on both
    /// interfaces.
    pub open spec fn spec_pixel_format() -> PixelFormat {
        PixelFormat::spec_with_all(BitsPerPixel::Eighteen)
    }

    /// The default configuration of this variant: a 320x480 framebuffer and
    /// display, and every other setting at its default.
    pub open spec fn spec_default_options() -> ModelOptions {
        ModelOptions {
            framebuffer_size: (320, 480),
            display_size: (320, 480),
            invert_colors: false,
            orientation: crate::options::Orientation::Portrait,
            color_order_bgr: false,
        }
    }

    /// Executable form of `spec_default_options`.
    pub fn default_options() -> (r: ModelOptions)
        ensures
            r == ILI9488Rgb666::spec_default_options(),
            r.wf(),
    {
        ModelOptions::with_sizes((320, 480), (320, 480))
    }

    /// Initializes the controller: a hardware reset pulse when a reset line
    /// is supplied and a software reset otherwise, the first power-up wait,
    /// then the shared register sequence.  Returns the addressing-mode
    /// descriptor that was configured.
    pub fn init(&self, dcs: &mut Dcs, options: &ModelOptions, rst: &Option<ResetPin>) -> (r:
        SetAddressMode)
        ensures
            final(dcs)@ == old(dcs)@ + spec_init_sequence(
                *options,
                ILI9488Rgb666::spec_pixel_format(),
                rst.is_some(),
            ),
            r == SetAddressMode::spec_from_options(*options),
    {
        match rst {
            Option::Some(_) => {
                dcs.reset_low();
                dcs.delay_us(RESET_PULSE_US);
                dcs.reset_high();
            },
            Option::None => {
                dcs.write_command(DcsCommand::SoftReset);
            },
        }
        dcs.delay_us(POWER_ON_WAIT_US);
        let pf = PixelFormat::with_all(BitsPerPixel::Eighteen);
        let madctl = init_common(dcs, options, pf);
        proof {
            assert_seqs_equal!(dcs@ == old(dcs)@ + spec_init_sequence(
                *options,
                ILI9488Rgb666::spec_pixel_format(),
                rst.is_some(),
            ));
        }
        madctl
    }

    /// Issues the memory-write-start command, then streams the encoded bytes
    /// of every color in `colors`, in order, as one data transfer.  An empty
    /// sequence still issues the command, followed by an empty transfer.
    pub fn write_pixels(&self, dcs: &mut Dcs, colors: &Vec<Rgb666>)
        requires
            forall|k: int| 0 <= k < colors@.len() ==> colors@[k].wf(),
        ensures
            final(dcs)@ == old(dcs)@ + spec_write_pixels_rgb666(colors@),
    {
        dcs.write_command(DcsCommand::WriteMemoryStart);
        let mut bytes: Vec<u8> = Vec::new();
        let mut i: usize = 0;
        while i < colors.len()
            invariant
                i <= colors@.len(),
                bytes@ == spec_encode_rgb666_seq(colors@.subrange(0, i as int)),
                forall|k: int| 0 <= k < colors@.len() ==> colors@[k].wf(),
            decreases colors@.len() - i,
        {
            let c = colors[i];
            let (r, g, b) = c.to_wire_bytes();
            bytes.push(r);
            bytes.push(g);
            bytes.push(b);
            proof {
                let cs = colors@;
                assert(cs.subrange(0, i + 1).drop_last() =~= cs.subrange(0, i as int));
                assert(cs.subrange(0, i + 1).last() == cs[i as int]);
                assert_seqs_equal!(bytes@ == spec_encode_rgb666_seq(cs.subrange(0, i + 1)));
            }
            i = i + 1;
        }
        proof {
            assert(colors@.subrange(0, colors@.len() as int) =~= colors@);
        }
        dcs.send_data(bytes);
        proof {
            assert_seqs_equal!(dcs@ == old(dcs)@ + spec_write_pixels_rgb666(colors@));
        }
    }
}

} // verus!
