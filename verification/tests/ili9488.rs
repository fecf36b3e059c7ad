//! Behavioral tests of the ILI9488 driver core, cross-checked where possible
//! against the color types of embedded-graphics-core.

use mipidsi::builder::Builder;
use mipidsi::color::{Rgb565, Rgb666};
use mipidsi::dcs::{Action, BitsPerPixel, Dcs, DcsCommand, PixelFormat, SetAddressMode};
use mipidsi::error::{init_error_for, InitError};
use mipidsi::models::{ILI9488Rgb565, ILI9488Rgb666, ResetPin};
use mipidsi::options::{ModelOptions, Orientation};

use embedded_graphics_core::pixelcolor::Rgb565 as EgRgb565;
use embedded_graphics_core::pixelcolor::Rgb666 as EgRgb666;
use embedded_graphics_core::prelude::IntoStorage;
use embedded_graphics_core::prelude::RgbColor;

fn common_tail(options_madctl: u8, invert: bool, pf_byte: u8) -> Vec<Action> {
    vec![
        Action::Command(DcsCommand::SetAddressMode(SetAddressMode {
            bits: options_madctl,
        })),
        Action::Command(DcsCommand::SetInvertMode(invert)),
        Action::Command(DcsCommand::SetPixelFormat(PixelFormat::with_all(
            if pf_byte == 0x55 {
                BitsPerPixel::Sixteen
            } else {
                BitsPerPixel::Eighteen
            },
        ))),
        Action::Command(DcsCommand::PowerControl1),
        Action::Command(DcsCommand::PowerControl2),
        Action::Command(DcsCommand::VcomControl1),
        Action::Command(DcsCommand::FrameRateControl1),
        Action::Command(DcsCommand::SetImageFunction),
        Action::Command(DcsCommand::PositiveGammaControl),
        Action::Command(DcsCommand::NegativeGammaControl),
        Action::Command(DcsCommand::DisplayFunctionControl),
        Action::Command(DcsCommand::ExitSleepMode),
        Action::Command(DcsCommand::EnterNormalMode),
        Action::DelayUs(120_000),
        Action::Command(DcsCommand::SetDisplayOn),
    ]
}

#[test]
fn init_software_reset_full_trace() {
    let mut dcs = Dcs::new();
    let options = ILI9488Rgb565::default_options();
    let madctl = ILI9488Rgb565.init(&mut dcs, &options, &None);
    assert_eq!(madctl.bits, 0x00);

    let mut expected = vec![
        Action::Command(DcsCommand::SoftReset),
        Action::DelayUs(120_000),
    ];
    expected.extend(common_tail(0x00, false, 0x55));
    assert_eq!(dcs.actions(), &expected);
}

#[test]
fn init_hardware_reset_pulses_and_never_soft_resets() {
    let mut dcs = Dcs::new();
    let options = ILI9488Rgb666::default_options();
    ILI9488Rgb666.init(&mut dcs, &options, &Some(ResetPin));

    let actions = dcs.actions();
    assert_eq!(actions.len(), 19);
    assert_eq!(actions[0], Action::ResetLow);
    assert_eq!(actions[1], Action::DelayUs(10));
    assert_eq!(actions[2], Action::ResetHigh);
    for a in actions.iter() {
        assert_ne!(a, &Action::Command(DcsCommand::SoftReset));
    }
}

#[test]
fn init_issues_both_long_waits() {
    for hardware in [false, true] {
        let mut dcs = Dcs::new();
        let options = ILI9488Rgb565::default_options();
        let rst = if hardware { Some(ResetPin) } else { None };
        ILI9488Rgb565.init(&mut dcs, &options, &rst);
        let long_waits = dcs
            .actions()
            .iter()
            .filter(|a| a == &&Action::DelayUs(120_000))
            .count();
        assert_eq!(long_waits, 2);
    }
}

fn kinds(dcs: &Dcs) -> Vec<u32> {
    dcs.actions()
        .iter()
        .map(|a| match a {
            Action::Command(DcsCommand::SetInvertMode(_)) => 100,
            Action::Command(DcsCommand::SetAddressMode(_)) => 101,
            Action::Command(cmd) => u32::from(cmd.instruction()),
            Action::Data(_) => 102,
            Action::DelayUs(us) => 1000 + *us,
            Action::ResetLow => 103,
            Action::ResetHigh => 104,
        })
        .collect()
}

#[test]
fn init_order_does_not_depend_on_options() {
    let mut plain = Dcs::new();
    ILI9488Rgb565.init(&mut plain, &ILI9488Rgb565::default_options(), &None);

    let mut custom_options = ModelOptions::with_sizes((100, 200), (100, 200));
    custom_options.invert_colors = true;
    custom_options.orientation = Orientation::LandscapeInverted;
    custom_options.color_order_bgr = true;
    let mut custom = Dcs::new();
    ILI9488Rgb565.init(&mut custom, &custom_options, &None);

    assert_eq!(kinds(&plain), kinds(&custom));
}

#[test]
fn init_invert_payload_follows_options() {
    let mut options = ILI9488Rgb565::default_options();
    options.invert_colors = true;
    let mut dcs = Dcs::new();
    ILI9488Rgb565.init(&mut dcs, &options, &None);
    assert_eq!(
        dcs.actions()[3],
        Action::Command(DcsCommand::SetInvertMode(true))
    );
    // on the wire, inversion on and off are distinct instructions
    assert_eq!(DcsCommand::SetInvertMode(true).instruction(), 0x21);
    assert_eq!(DcsCommand::SetInvertMode(false).instruction(), 0x20);
    assert!(DcsCommand::SetInvertMode(true).params().is_empty());
}

#[test]
fn init_default_payloads_per_variant() {
    // Rgb565 variant: default addressing payload 0x00, pixel format 0x55
    let mut dcs565 = Dcs::new();
    ILI9488Rgb565.init(&mut dcs565, &ILI9488Rgb565::default_options(), &None);
    match &dcs565.actions()[2] {
        Action::Command(cmd) => {
            assert_eq!(cmd.instruction(), 0x36);
            assert_eq!(cmd.params(), vec![0x00]);
        }
        other => panic!("expected a command, got {:?}", other),
    }
    match &dcs565.actions()[4] {
        Action::Command(cmd) => {
            assert_eq!(cmd.instruction(), 0x3A);
            assert_eq!(cmd.params(), vec![0x55]);
        }
        other => panic!("expected a command, got {:?}", other),
    }

    // Rgb666 variant: pixel format 0x66
    let mut dcs666 = Dcs::new();
    ILI9488Rgb666.init(&mut dcs666, &ILI9488Rgb666::default_options(), &None);
    match &dcs666.actions()[4] {
        Action::Command(cmd) => {
            assert_eq!(cmd.instruction(), 0x3A);
            assert_eq!(cmd.params(), vec![0x66]);
        }
        other => panic!("expected a command, got {:?}", other),
    }
}

#[test]
fn opcode_table_matches_controller_family() {
    assert_eq!(DcsCommand::PositiveGammaControl.instruction(), 0xE0);
    assert_eq!(DcsCommand::NegativeGammaControl.instruction(), 0xE1);
    assert_eq!(DcsCommand::PowerControl1.instruction(), 0xC0);
    assert_eq!(DcsCommand::PowerControl2.instruction(), 0xC1);
    assert_eq!(DcsCommand::VcomControl1.instruction(), 0xC5);
    assert_eq!(DcsCommand::FrameRateControl1.instruction(), 0xB1);
    assert_eq!(DcsCommand::DisplayFunctionControl.instruction(), 0xB6);
    assert_eq!(DcsCommand::SetImageFunction.instruction(), 0xE9);
    assert_eq!(DcsCommand::SoftReset.instruction(), 0x01);
    assert_eq!(DcsCommand::ExitSleepMode.instruction(), 0x11);
    assert_eq!(DcsCommand::EnterNormalMode.instruction(), 0x13);
    assert_eq!(DcsCommand::WriteMemoryStart.instruction(), 0x2C);
    assert_eq!(DcsCommand::SetDisplayOn.instruction(), 0x29);
}

#[test]
fn fixed_tables_byte_content() {
    assert_eq!(DcsCommand::PowerControl1.params(), vec![0x17, 0x15]);
    assert_eq!(DcsCommand::PowerControl2.params(), vec![0x41]);
    assert_eq!(DcsCommand::VcomControl1.params(), vec![0x00, 0x12, 0x80]);
    assert_eq!(DcsCommand::FrameRateControl1.params(), vec![0xA0]);
    assert_eq!(DcsCommand::SetImageFunction.params(), vec![0x00]);
    assert_eq!(
        DcsCommand::PositiveGammaControl.params(),
        vec![0x00, 0x03, 0x09, 0x08, 0x16, 0x0A, 0x3F, 0x78, 0x4C, 0x09, 0x0A, 0x08, 0x16, 0x1A, 0x0F]
    );
    assert_eq!(
        DcsCommand::NegativeGammaControl.params(),
        vec![0x00, 0x0E, 0x14, 0x03, 0x11, 0x07, 0x31, 0xC1, 0x48, 0x08, 0x0F, 0x0C, 0x31, 0x36, 0x0F]
    );
    assert_eq!(
        DcsCommand::DisplayFunctionControl.params(),
        vec![0x02, 0x02, 0x3B]
    );
}

#[test]
fn write_pixels_rgb565_big_endian_packed() {
    let channels = [(31u8, 63u8, 31u8), (16, 32, 8), (0, 0, 1), (10, 20, 30)];
    let colors: Vec<Rgb565> = channels.iter().map(|&(r, g, b)| Rgb565::new(r, g, b)).collect();

    let mut dcs = Dcs::new();
    ILI9488Rgb565.write_pixels(&mut dcs, &colors);

    let mut expected_bytes: Vec<u8> = Vec::new();
    for &(r, g, b) in channels.iter() {
        let storage: u16 = EgRgb565::new(r, g, b).into_storage();
        expected_bytes.extend(storage.to_be_bytes());
    }
    assert_eq!(
        dcs.actions(),
        &vec![
            Action::Command(DcsCommand::WriteMemoryStart),
            Action::Data(expected_bytes),
        ]
    );
}

#[test]
fn write_pixels_rgb666_channels_shifted() {
    let channels = [(63u8, 0u8, 0u8), (0, 63, 0), (0, 0, 63), (1, 2, 3)];
    let colors: Vec<Rgb666> = channels.iter().map(|&(r, g, b)| Rgb666::new(r, g, b)).collect();

    let mut dcs = Dcs::new();
    ILI9488Rgb666.write_pixels(&mut dcs, &colors);

    let mut expected_bytes: Vec<u8> = Vec::new();
    for &(r, g, b) in channels.iter() {
        let c = EgRgb666::new(r, g, b);
        expected_bytes.extend([c.r() << 2, c.g() << 2, c.b() << 2]);
    }
    assert_eq!(
        dcs.actions(),
        &vec![
            Action::Command(DcsCommand::WriteMemoryStart),
            Action::Data(expected_bytes),
        ]
    );
}

#[test]
fn write_pixels_empty_sends_command_and_no_data() {
    let mut dcs = Dcs::new();
    ILI9488Rgb565.write_pixels(&mut dcs, &Vec::new());
    assert_eq!(
        dcs.actions(),
        &vec![
            Action::Command(DcsCommand::WriteMemoryStart),
            Action::Data(Vec::new()),
        ]
    );

    let mut dcs = Dcs::new();
    ILI9488Rgb666.write_pixels(&mut dcs, &Vec::new());
    assert_eq!(
        dcs.actions(),
        &vec![
            Action::Command(DcsCommand::WriteMemoryStart),
            Action::Data(Vec::new()),
        ]
    );
}

#[test]
fn packed_representation_matches_reference_colors() {
    for &(r, g, b) in [(0u8, 0u8, 0u8), (31, 63, 31), (1, 1, 1), (20, 40, 10)].iter() {
        let mine = Rgb565::new(r, g, b).packed();
        let reference: u16 = EgRgb565::new(r, g, b).into_storage();
        assert_eq!(mine, reference);
    }
    assert_eq!(Rgb565::new(31, 0, 0).packed(), 0xF800);
    assert_eq!(Rgb565::new(0, 63, 0).packed(), 0x07E0);
    assert_eq!(Rgb565::new(0, 0, 31).packed(), 0x001F);
}

#[test]
fn color_constructors_mask_channels() {
    let c = Rgb565::new(255, 255, 255);
    assert_eq!((c.r, c.g, c.b), (31, 63, 31));
    let c = Rgb666::new(255, 70, 64);
    assert_eq!((c.r, c.g, c.b), (63, 6, 0));
}

#[test]
fn address_mode_bits_follow_orientation_and_color_order() {
    let mut options = ModelOptions::with_sizes((320, 480), (320, 480));
    assert_eq!(SetAddressMode::from_options(&options).bits, 0x00);
    options.orientation = Orientation::Landscape;
    assert_eq!(SetAddressMode::from_options(&options).bits, 0x60);
    options.orientation = Orientation::PortraitInverted;
    assert_eq!(SetAddressMode::from_options(&options).bits, 0xC0);
    options.orientation = Orientation::LandscapeInverted;
    assert_eq!(SetAddressMode::from_options(&options).bits, 0xA0);
    options.color_order_bgr = true;
    assert_eq!(SetAddressMode::from_options(&options).bits, 0xA8);
}

#[test]
fn default_options_are_320_by_480() {
    for options in [
        ILI9488Rgb565::default_options(),
        ILI9488Rgb666::default_options(),
    ] {
        assert_eq!(options.framebuffer_size, (320, 480));
        assert_eq!(options.display_size, (320, 480));
        assert!(!options.invert_colors);
        assert_eq!(options.orientation, Orientation::Portrait);
        assert!(!options.color_order_bgr);
    }
}

#[test]
fn builders_apply_variant_defaults() {
    let b = Builder::ili9488_rgb565(Dcs::new());
    assert_eq!(b.options, ILI9488Rgb565::default_options());
    assert!(b.dcs.actions().is_empty());
    assert_eq!(b.model, ILI9488Rgb565);

    let b = Builder::ili9488_rgb666(Dcs::new());
    assert_eq!(b.options, ILI9488Rgb666::default_options());
    assert!(b.dcs.actions().is_empty());
    assert_eq!(b.model, ILI9488Rgb666);
}

#[test]
fn init_errors_distinguish_pin_from_transport() {
    assert_eq!(init_error_for(&Action::ResetLow), InitError::Pin);
    assert_eq!(init_error_for(&Action::ResetHigh), InitError::Pin);
    assert_eq!(
        init_error_for(&Action::Command(DcsCommand::SoftReset)),
        InitError::DisplayError
    );
    assert_eq!(
        init_error_for(&Action::DelayUs(10)),
        InitError::DisplayError
    );
    assert_eq!(
        init_error_for(&Action::Data(Vec::new())),
        InitError::DisplayError
    );
}
