//! Font attributes

use vstd::prelude::*;
use crate::data::Data;

verus! {

/// The size a descriptor carries when none is chosen, in layout units.
pub const DEFAULT_FONT_SIZE: u64 = 15;

/// A generic family of typefaces.
#[derive(Clone, Copy, Debug, PartialEq, Eq, Structural)]
pub enum FontFamily {
    SystemUi,
    Serif,
    SansSerif,
    Monospace,
}

impl Default for FontFamily {
    fn default() -> (r: Self)
        ensures
            r == FontFamily::SystemUi,
    {
        FontFamily::SystemUi
    }
}

/// The weight of a font, on the usual hundreds scale.
#[derive(Clone, Copy, Debug, PartialEq, Eq, Structural)]
pub struct FontWeight(pub u16);

impl FontWeight {
    pub fn regular() -> (r: FontWeight)
        ensures
            r == FontWeight(400),
    {
        FontWeight(400)
    }

    pub fn bold() -> (r: FontWeight)
        ensures
            r == FontWeight(700),
    {
        FontWeight(700)
    }
}

impl Default for FontWeight {
    fn default() -> (r: Self)
        ensures
            r == FontWeight(400),
    {
        FontWeight(400)
    }
}

/// The slant of a font.
#[derive(Clone, Copy, Debug, PartialEq, Eq, Structural)]
pub enum FontStyle {
    Regular,
    Italic,
}

impl Default for FontStyle {
    fn default() -> (r: Self)
        ensures
            r == FontStyle::Regular,
    {
        FontStyle::Regular
    }
}

/// A collection of attributes that describe a font.
///
/// This is provided as a convenience; library consumers may wish to have
/// a single type that represents a specific font face at a specific size.
#[derive(Clone, Copy, Debug, PartialEq, Eq, Structural)]
pub struct FontDescriptor {
    /// The font's family.
    pub family: FontFamily,
    /// The font's size, in layout units.
    pub size: u64,
    /// The font's weight.
    pub weight: FontWeight,
    /// The font's style.
    pub style: FontStyle,
}

impl FontDescriptor {
    /// The descriptor every constructor starts from: the given family at
    /// the default size, regular weight and regular style.
    pub open spec fn new_spec(family: FontFamily) -> FontDescriptor {
        FontDescriptor {
            family,
            size: DEFAULT_FONT_SIZE as u64,
            weight: FontWeight(400),
            style: FontStyle::Regular,
        }
    }

    /// Create a new descriptor with the provided [`FontFamily`].
    pub fn new(family: FontFamily) -> (r: Self)
        ensures
            r == FontDescriptor::new_spec(family),
    {
        FontDescriptor {
            family,
            size: DEFAULT_FONT_SIZE,
            weight: FontWeight::regular(),
            style: FontStyle::Regular,
        }
    }

    /// Builder-style method to set the descriptor's font size.
    pub fn with_size(self, size: u64) -> (r: Self)
        ensures
            r.size == size,
            r.family == self.family,
            r.weight == self.weight,
            r.style == self.style,
    {
        FontDescriptor { size, ..self }
    }

    /// Builder-style method to set the descriptor's [`FontWeight`].
    pub fn with_weight(self, weight: FontWeight) -> (r: Self)
        ensures
            r.weight == weight,
            r.family == self.family,
            r.size == self.size,
            r.style == self.style,
    {
        FontDescriptor { weight, ..self }
    }

    /// Builder-style method to set the descriptor's [`FontStyle`].
    pub fn with_style(self, style: FontStyle) -> (r: Self)
        ensures
            r.style == style,
            r.family == self.family,
            r.size == self.size,
            r.weight == self.weight,
    {
        FontDescriptor { style, ..self }
    }
}

impl Default for FontDescriptor {
    fn default() -> (r: Self)
        ensures
            r == FontDescriptor::new_spec(FontFamily::SystemUi),
    {
        FontDescriptor {
            family: FontFamily::SystemUi,
            weight: FontWeight(400),
            style: FontStyle::Regular,
            size: DEFAULT_FONT_SIZE,
        }
    }
}

impl Data for FontDescriptor {
    open spec fn same_spec(&self, other: &Self) -> bool {
        self == other
    }

    fn same(&self, other: &Self) -> (r: bool) {
        self.family == other.family && self.size == other.size && self.weight == other.weight
            && self.style == other.style
    }
}

} // verus!
