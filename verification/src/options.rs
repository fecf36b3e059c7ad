//! Display configuration chosen by the caller before initialization.

use vstd::prelude::*;

verus! {

/// Orientation of the display content, controlling the scan direction bits of
/// the controller's addressing-mode register.
#[derive(Clone, Copy, PartialEq, Eq, Structural, Debug)]
pub enum Orientation {
    /// Portrait, no mirroring.
    Portrait,
    /// Portrait rotated by 180 degrees.
    PortraitInverted,
    /// Landscape.
    Landscape,
    /// Landscape rotated by 180 degrees.
    LandscapeInverted,
}

impl Orientation {
    /// Scan-direction bits of this orientation inside the addressing-mode
    /// register value (row/column exchange and mirroring bits).
    pub open spec fn spec_madctl_bits(self) -> u8 {
        match self {
            Orientation::Portrait => 0x00,
            Orientation::PortraitInverted => 0xC0,
            Orientation::Landscape => 0x60,
            Orientation::LandscapeInverted => 0xA0,
        }
    }

    /// Executable form of `spec_madctl_bits`.
    pub fn madctl_bits(self) -> (r: u8)
        ensures
            r == self.spec_madctl_bits(),
    {
        match self {
            Orientation::Portrait => 0x00,
            Orientation::PortraitInverted => 0xC0,
            Orientation::Landscape => 0x60,
            Orientation::LandscapeInverted => 0xA0,
        }
    }
}

/// Immutable description of one display instance: framebuffer and visible
/// sizes, color inversion, and the orientation bits sent as the
/// addressing-mode command payload.
#[derive(Clone, Copy, PartialEq, Eq, Debug)]
pub struct ModelOptions {
    /// Size in pixels of the controller's framebuffer, `(width, height)`.
    pub framebuffer_size: (u16, u16),
    /// Size in pixels of the visible area, `(width, height)`.
    pub display_size: (u16, u16),
    /// Whether the controller inverts every color it displays.
    pub invert_colors: bool,
    /// Orientation of the display content.
    pub orientation: Orientation,
    /// Whether the controller expects blue-green-red color order.
    pub color_order_bgr: bool,
}

impl ModelOptions {
    /// Both sizes have positive width and height.
    pub open spec fn wf(self) -> bool {
        self.framebuffer_size.0 > 0 && self.framebuffer_size.1 > 0
            && self.display_size.0 > 0 && self.display_size.1 > 0
    }

    /// Options with the given framebuffer and display sizes and all other
    /// settings at their defaults: portrait orientation, red-green-blue color
    /// order, no color inversion.
    pub fn with_sizes(framebuffer_size: (u16, u16), display_size: (u16, u16)) -> (r:
        ModelOptions)
        requires
            framebuffer_size.0 > 0,
            framebuffer_size.1 > 0,
            display_size.0 > 0,
            display_size.1 > 0,
        ensures
            r == (ModelOptions {
                framebuffer_size,
                display_size,
                invert_colors: false,
                orientation: Orientation::Portrait,
                color_order_bgr: false,
            }),
            r.wf(),
    {
        ModelOptions {
            framebuffer_size,
            display_size,
            invert_colors: false,
            orientation: Orientation::Portrait,
            color_order_bgr: false,
        }
    }
}

} // verus!
