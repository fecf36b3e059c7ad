//! Construction surface: one entry point per color-format variant, each
//! taking only the command channel and applying that variant's defaults.

use vstd::prelude::*;

use crate::dcs::Dcs;
use crate::models::{ILI9488Rgb565, ILI9488Rgb666};
use crate::options::ModelOptions;

verus! {

/// A display under construction: the command channel it will use, the model
/// variant, and the configuration that `init` will receive.
pub struct Builder<MODEL> {
    /// Command channel of the display.
    pub dcs: Dcs,
    /// The model variant.
    pub model: MODEL,
    /// Configuration handed to `init`, the variant's defaults until the
    /// caller overrides a field.
    pub options: ModelOptions,
}

impl Builder<ILI9488Rgb565> {
    /// Creates a new display builder for an ILI9488 display in Rgb565 color
    /// mode, with the variant's default 320x480 configuration.
    pub fn ili9488_rgb565(dcs: Dcs) -> (r: Builder<ILI9488Rgb565>)
        ensures
            r.dcs == dcs,
            r.options == ILI9488Rgb565::spec_default_options(),
    {
        Builder { dcs, model: ILI9488Rgb565, options: ILI9488Rgb565::default_options() }
    }
}

impl Builder<ILI9488Rgb666> {
    /// Creates a new display builder for an ILI9488 display in Rgb666 color
    /// mode, with the variant's default 320x480 configuration.
    pub fn ili9488_rgb666(dcs: Dcs) -> (r: Builder<ILI9488Rgb666>)
        ensures
            r.dcs == dcs,
            r.options == ILI9488Rgb666::spec_default_options(),
    {
        Builder { dcs, model: ILI9488Rgb666, options: ILI9488Rgb666::default_options() }
    }
}

} // verus!
