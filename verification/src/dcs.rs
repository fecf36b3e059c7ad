//! Display command set of the controller family: typed commands, their wire
//! encoding, and a recording command channel.
//!
//! The channel does not talk to hardware itself; it records, in order, every
//! interface action the driver performs (commands, pixel data transfers,
//! delays, and reset-line edges), so that the exact wire trace of an operation
//! is part of its contract.  Unverified glue replays a recorded trace onto a
//! real bus, delay provider, and reset pin.

use vstd::prelude::*;
use vstd::assert_seqs_equal;

use crate::options::ModelOptions;

verus! {

/// Bits-per-pixel setting understood by the controller's pixel-format command.
#[derive(Clone, Copy, PartialEq, Eq, Structural, Debug)]
pub enum BitsPerPixel {
    /// 16 bits per pixel, 5/6/5 bits per channel.
    Sixteen,
    /// 18 bits per pixel, 6/6/6 bits per channel.
    Eighteen,
}

impl BitsPerPixel {
    /// Four-bit code for this depth inside the pixel-format command payload.
    pub open spec fn spec_code(self) -> u8 {
        match self {
            BitsPerPixel::Sixteen => 5,
            BitsPerPixel::Eighteen => 6,
        }
    }

    /// Executable form of `spec_code`.
    pub fn code(self) -> (r: u8)
        ensures
            r == self.spec_code(),
    {
        match self {
            BitsPerPixel::Sixteen => 5,
            BitsPerPixel::Eighteen => 6,
        }
    }
}

/// Payload of the pixel-format command: the depth used over the parallel
/// interface (`dpi`) and over the serial interface (`dbi`).
#[derive(Clone, Copy, PartialEq, Eq, Structural, Debug)]
pub struct PixelFormat {
    /// Depth for the display parallel interface.
    pub dpi: BitsPerPixel,
    /// Depth for the display bus interface.
    pub dbi: BitsPerPixel,
}

impl PixelFormat {
    /// The pixel format that uses `bpp` on both interfaces.
    pub open spec fn spec_with_all(bpp: BitsPerPixel) -> PixelFormat {
        PixelFormat { dpi: bpp, dbi: bpp }
    }

    /// Executable form of `spec_with_all`.
    pub fn with_all(bpp: BitsPerPixel) -> (r: PixelFormat)
        ensures
            r == PixelFormat::spec_with_all(bpp),
    {
        PixelFormat { dpi: bpp, dbi: bpp }
    }

    /// Single payload byte of the pixel-format command: the `dpi` code in the
    /// high nibble and the `dbi` code in the low nibble.
    pub open spec fn spec_byte(self) -> u8 {
        (self.dpi.spec_code() * 16 + self.dbi.spec_code()) as u8
    }

    /// Executable form of `spec_byte`.
    pub fn byte(self) -> (r: u8)
        ensures
            r == self.spec_byte(),
    {
        self.dpi.code() * 16 + self.dbi.code()
    }
}

/// Payload of the addressing-mode command: the raw register value holding the
/// scan-direction and color-order bits.
#[derive(Clone, Copy, PartialEq, Eq, Structural, Debug)]
pub struct SetAddressMode {
    /// Raw addressing-mode register value.
    pub bits: u8,
}

impl SetAddressMode {
    /// The addressing mode that `options` asks for: the orientation's
    /// scan-direction bits, plus the color-order bit when the controller
    /// expects blue-green-red order.
    pub open spec fn spec_from_options(options: ModelOptions) -> SetAddressMode {
        SetAddressMode {
            bits: (options.orientation.spec_madctl_bits() + if options.color_order_bgr {
                8u8
            } else {
                0u8
            }) as u8,
        }
    }

    /// Executable form of `spec_from_options`.
    pub fn from_options(options: &ModelOptions) -> (r: SetAddressMode)
        ensures
            r == SetAddressMode::spec_from_options(*options),
    {
        let order_bit: u8 = if options.color_order_bgr {
            8
        } else {
            0
        };
        SetAddressMode { bits: options.orientation.madctl_bits() + order_bit }
    }
}

/// One command of the controller's display command set, either a standard
/// command with a structured payload or one of the fixed configuration tables
/// of this controller family.
#[derive(Clone, Copy, PartialEq, Eq, Structural, Debug)]
pub enum DcsCommand {
    /// Software reset.
    SoftReset,
    /// Leave the low-power sleep state.
    ExitSleepMode,
    /// Enter normal display mode.
    EnterNormalMode,
    /// Switch color inversion on or off.
    SetInvertMode(bool),
    /// Configure scan direction and color order.
    SetAddressMode(SetAddressMode),
    /// Configure the pixel format of subsequent pixel data.
    SetPixelFormat(PixelFormat),
    /// Start a memory write; pixel data follows as a data transfer.
    WriteMemoryStart,
    /// Switch the display output on.
    SetDisplayOn,
    /// Power control 1 table.
    PowerControl1,
    /// Power control 2 table.
    PowerControl2,
    /// VCOM control 1 table.
    VcomControl1,
    /// Frame-rate control table (normal mode, full colors).
    FrameRateControl1,
    /// Set-image-function table (driver timing control A).
    SetImageFunction,
    /// Positive gamma correction table.
    PositiveGammaControl,
    /// Negative gamma correction table.
    NegativeGammaControl,
    /// Display function control table.
    DisplayFunctionControl,
}

impl DcsCommand {
    /// Instruction byte that introduces this command on the wire.
    pub open spec fn spec_instruction(self) -> u8 {
        match self {
            DcsCommand::SoftReset => 0x01,
            DcsCommand::ExitSleepMode => 0x11,
            DcsCommand::EnterNormalMode => 0x13,
            DcsCommand::SetInvertMode(on) => if on {
                0x21
            } else {
                0x20
            },
            DcsCommand::SetAddressMode(_) => 0x36,
            DcsCommand::SetPixelFormat(_) => 0x3A,
            DcsCommand::WriteMemoryStart => 0x2C,
            DcsCommand::SetDisplayOn => 0x29,
            DcsCommand::PowerControl1 => 0xC0,
            DcsCommand::PowerControl2 => 0xC1,
            DcsCommand::VcomControl1 => 0xC5,
            DcsCommand::FrameRateControl1 => 0xB1,
            DcsCommand::SetImageFunction => 0xE9,
            DcsCommand::PositiveGammaControl => 0xE0,
            DcsCommand::NegativeGammaControl => 0xE1,
            DcsCommand::DisplayFunctionControl => 0xB6,
        }
    }

    /// Executable form of `spec_instruction`.
    pub fn instruction(&self) -> (r: u8)
        ensures
            r == self.spec_instruction(),
    {
        match self {
            DcsCommand::SoftReset => 0x01,
            DcsCommand::ExitSleepMode => 0x11,
            DcsCommand::EnterNormalMode => 0x13,
            DcsCommand::SetInvertMode(on) => if *on {
                0x21
            } else {
                0x20
            },
            DcsCommand::SetAddressMode(_) => 0x36,
            DcsCommand::SetPixelFormat(_) => 0x3A,
            DcsCommand::WriteMemoryStart => 0x2C,
            DcsCommand::SetDisplayOn => 0x29,
            DcsCommand::PowerControl1 => 0xC0,
            DcsCommand::PowerControl2 => 0xC1,
            DcsCommand::VcomControl1 => 0xC5,
            DcsCommand::FrameRateControl1 => 0xB1,
            DcsCommand::SetImageFunction => 0xE9,
            DcsCommand::PositiveGammaControl => 0xE0,
            DcsCommand::NegativeGammaControl => 0xE1,
            DcsCommand::DisplayFunctionControl => 0xB6,
        }
    }

    /// Parameter bytes that follow the instruction byte on the wire.  The
    /// fixed tables of this controller family are literal constants here.
    pub open spec fn spec_params(self) -> Seq<u8> {
        match self {
            DcsCommand::SetInvertMode(_) => Seq::<u8>::empty(),
            DcsCommand::SetAddressMode(mode) => seq![mode.bits],
            DcsCommand::SetPixelFormat(format) => seq![format.spec_byte()],
            DcsCommand::PowerControl1 => seq![0x17u8, 0x15u8],
            DcsCommand::PowerControl2 => seq![0x41u8],
            DcsCommand::VcomControl1 => seq![0x00u8, 0x12u8, 0x80u8],
            DcsCommand::FrameRateControl1 => seq![0xA0u8],
            DcsCommand::SetImageFunction => seq![0x00u8],
            DcsCommand::PositiveGammaControl => seq![
                0x00u8,
                0x03u8,
                0x09u8,
                0x08u8,
                0x16u8,
                0x0Au8,
                0x3Fu8,
                0x78u8,
                0x4Cu8,
                0x09u8,
                0x0Au8,
                0x08u8,
                0x16u8,
                0x1Au8,
                0x0Fu8,
            ],
            DcsCommand::NegativeGammaControl => seq![
                0x00u8,
                0x0Eu8,
                0x14u8,
                0x03u8,
                0x11u8,
                0x07u8,
                0x31u8,
                0xC1u8,
                0x48u8,
                0x08u8,
                0x0Fu8,
                0x0Cu8,
                0x31u8,
                0x36u8,
                0x0Fu8,
            ],
            DcsCommand::DisplayFunctionControl => seq![0x02u8, 0x02u8, 0x3Bu8],
            _ => Seq::<u8>::empty(),
        }
    }

    /// Executable form of `spec_params`.
    pub fn params(&self) -> (r: Vec<u8>)
        ensures
            r@ == self.spec_params(),
    {
        let r: Vec<u8> = match self {
            DcsCommand::SetAddressMode(mode) => vec![mode.bits],
            DcsCommand::SetPixelFormat(format) => vec![format.byte()],
            DcsCommand::PowerControl1 => vec![0x17, 0x15],
            DcsCommand::PowerControl2 => vec![0x41],
            DcsCommand::VcomControl1 => vec![0x00, 0x12, 0x80],
            DcsCommand::FrameRateControl1 => vec![0xA0],
            DcsCommand::SetImageFunction => vec![0x00],
            DcsCommand::PositiveGammaControl => vec![
                0x00,
                0x03,
                0x09,
                0x08,
                0x16,
                0x0A,
                0x3F,
                0x78,
                0x4C,
                0x09,
                0x0A,
                0x08,
                0x16,
                0x1A,
                0x0F,
            ],
            DcsCommand::NegativeGammaControl => vec![
                0x00,
                0x0E,
                0x14,
                0x03,
                0x11,
                0x07,
                0x31,
                0xC1,
                0x48,
                0x08,
                0x0F,
                0x0C,
                0x31,
                0x36,
                0x0F,
            ],
            DcsCommand::DisplayFunctionControl => vec![0x02, 0x02, 0x3B],
            _ => Vec::new(),
        };
        proof {
            assert_seqs_equal!(r@ == self.spec_params());
        }
        r
    }
}

/// Abstract view of one recorded interface action.
pub enum ActionView {
    /// A display command, sent over the command channel.
    Command { cmd: DcsCommand },
    /// A pixel data transfer, sent over the command channel.
    Data { bytes: Seq<u8> },
    /// A blocking pause of the delay provider, in microseconds.
    DelayUs { us: u32 },
    /// The reset line driven low.
    ResetLow,
    /// The reset line driven high.
    ResetHigh,
}

/// One recorded interface action.
#[derive(PartialEq, Eq, Debug)]
pub enum Action {
    /// A display command, sent over the command channel.
    Command(DcsCommand),
    /// A pixel data transfer, sent over the command channel.
    Data(Vec<u8>),
    /// A blocking pause of the delay provider, in microseconds.
    DelayUs(u32),
    /// The reset line driven low.
    ResetLow,
    /// The reset line driven high.
    ResetHigh,
}

impl View for Action {
    type V = ActionView;

    open spec fn view(&self) -> ActionView {
        match self {
            Action::Command(cmd) => ActionView::Command { cmd: *cmd },
            Action::Data(bytes) => ActionView::Data { bytes: bytes@ },
            Action::DelayUs(us) => ActionView::DelayUs { us: *us },
            Action::ResetLow => ActionView::ResetLow,
            Action::ResetHigh => ActionView::ResetHigh,
        }
    }
}

/// Recording command channel: the driver's single point of contact with the
/// display interface, the delay provider, and the reset line.  Its view is
/// the sequence of actions recorded so far, oldest first.
pub struct Dcs {
    actions: Vec<Action>,
}

impl View for Dcs {
    type V = Seq<ActionView>;

    closed spec fn view(&self) -> Seq<ActionView> {
        self.actions@.map_values(|a: Action| a@)
    }
}

impl Dcs {
    /// A channel with an empty trace.
    pub fn new() -> (r: Dcs)
        ensures
            r@ == Seq::<ActionView>::empty(),
    {
        let r = Dcs { actions: Vec::new() };
        proof {
            assert_seqs_equal!(r@ == Seq::<ActionView>::empty());
        }
        r
    }

    /// Record a display command.
    pub fn write_command(&mut self, cmd: DcsCommand)
        ensures
            final(self)@ == old(self)@.push(ActionView::Command { cmd }),
    {
        self.actions.push(Action::Command(cmd));
        proof {
            assert_seqs_equal!(self@ == old(self)@.push(ActionView::Command { cmd }));
        }
    }

    /// Record a pixel data transfer.
    pub fn send_data(&mut self, bytes: Vec<u8>)
        ensures
            final(self)@ == old(self)@.push(ActionView::Data { bytes: bytes@ }),
    {
        let ghost view = bytes@;
        self.actions.push(Action::Data(bytes));
        proof {
            assert_seqs_equal!(self@ == old(self)@.push(ActionView::Data { bytes: view }));
        }
    }

    /// Record a blocking pause of `us` microseconds.
    pub fn delay_us(&mut self, us: u32)
        ensures
            final(self)@ == old(self)@.push(ActionView::DelayUs { us }),
    {
        self.actions.push(Action::DelayUs(us));
        proof {
            assert_seqs_equal!(self@ == old(self)@.push(ActionView::DelayUs { us }));
        }
    }

    /// Record the reset line being driven low.
    pub fn reset_low(&mut self)
        ensures
            final(self)@ == old(self)@.push(ActionView::ResetLow),
    {
        self.actions.push(Action::ResetLow);
        proof {
            assert_seqs_equal!(self@ == old(self)@.push(ActionView::ResetLow));
        }
    }

    /// Record the reset line being driven high.
    pub fn reset_high(&mut self)
        ensures
            final(self)@ == old(self)@.push(ActionView::ResetHigh),
    {
        self.actions.push(Action::ResetHigh);
        proof {
            assert_seqs_equal!(self@ == old(self)@.push(ActionView::ResetHigh));
        }
    }

    /// The recorded actions, oldest first.
    pub fn actions(&self) -> (r: &Vec<Action>)
        ensures
            r@.map_values(|a: Action| a@) == self@,
    {
        &self.actions
    }
}

} // verus!
