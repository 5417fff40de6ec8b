//! Brand palette: the fixed colors the interactive screen draws with.
//!
//! A color is held as plain red/green/blue components; the host maps them
//! onto whatever color type its terminal backend wants.

use vstd::prelude::*;

verus! {

/// One color of the palette, as 8-bit red/green/blue components.
#[derive(Clone, Copy, PartialEq, Eq, Structural, Debug)]
pub struct Rgb {
    pub r: u8,
    pub g: u8,
    pub b: u8,
}

/// The named colors the screens use.
#[derive(Clone, Copy, PartialEq, Eq, Structural, Debug)]
pub enum BrandColors {
    Lavender,
    Peach,
    Mint,
    Coral,
    Light,
    Dark,
    Gray,
    DarkGray,
}

impl BrandColors {
    /// The red/green/blue value of each palette entry.
    pub open spec fn spec_color(self) -> Rgb {
        match self {
            BrandColors::Lavender => Rgb { r: 195, g: 187, b: 227 },
            BrandColors::Peach => Rgb { r: 250, g: 209, b: 163 },
            BrandColors::Mint => Rgb { r: 204, g: 235, b: 177 },
            BrandColors::Coral => Rgb { r: 240, g: 119, b: 119 },
            BrandColors::Light => Rgb { r: 244, g: 241, b: 230 },
            BrandColors::Dark => Rgb { r: 37, g: 35, b: 34 },
            BrandColors::Gray => Rgb { r: 225, g: 225, b: 225 },
            BrandColors::DarkGray => Rgb { r: 124, g: 124, b: 124 },
        }
    }

    /// Returns the concrete color of this palette entry.
    pub fn color(&self) -> (c: Rgb)
        ensures
            c == self.spec_color(),
    {
        match self {
            BrandColors::Lavender => Rgb { r: 195, g: 187, b: 227 },
            BrandColors::Peach => Rgb { r: 250, g: 209, b: 163 },
            BrandColors::Mint => Rgb { r: 204, g: 235, b: 177 },
            BrandColors::Coral => Rgb { r: 240, g: 119, b: 119 },
            BrandColors::Light => Rgb { r: 244, g: 241, b: 230 },
            BrandColors::Dark => Rgb { r: 37, g: 35, b: 34 },
            BrandColors::Gray => Rgb { r: 225, g: 225, b: 225 },
            BrandColors::DarkGray => Rgb { r: 124, g: 124, b: 124 },
        }
    }
}

} // verus!
