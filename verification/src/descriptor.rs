//! The shape of a face: its slant, its width class and its weight.

use vstd::prelude::*;

verus! {

/// The slant of a face.
#[derive(Clone, Copy, Debug, PartialEq, Eq, Structural)]
pub enum Style {
    Normal,
    Italic,
    Oblique,
}

/// The slant of a face as the native engine names it.
#[derive(Clone, Copy, Debug, PartialEq, Eq, Structural)]
pub enum NativeStyle {
    Normal,
    Oblique,
    Italic,
}

/// The width of a face relative to the normal width, in thousandths: 1000 is normal.
#[derive(Clone, Copy, Debug, PartialEq, Eq, Structural)]
pub struct Stretch(pub u32);

/// The weight of a face on the usual scale, where 400 is regular and 700 is bold.
#[derive(Clone, Copy, Debug, PartialEq, Eq, Structural)]
pub struct Weight(pub u32);

/// The shape of a face.
#[derive(Clone, Copy, Debug, PartialEq, Eq, Structural)]
pub struct Properties {
    pub style: Style,
    pub stretch: Stretch,
    pub weight: Weight,
}

/// The lowest native width class, ultra-condensed.
pub const NATIVE_STRETCH_MIN: u32 = 1;

/// The highest native width class, ultra-expanded.
pub const NATIVE_STRETCH_MAX: u32 = 9;

/// The width, in thousandths of normal, of each native width class from
/// ultra-condensed (1) to ultra-expanded (9).
pub open spec fn stretch_mapping(native_stretch: int) -> int {
    if native_stretch == 1 {
        500
    } else if native_stretch == 2 {
        625
    } else if native_stretch == 3 {
        750
    } else if native_stretch == 4 {
        875
    } else if native_stretch == 5 {
        1000
    } else if native_stretch == 6 {
        1125
    } else if native_stretch == 7 {
        1250
    } else if native_stretch == 8 {
        1500
    } else {
        2000
    }
}

/// The style that a native style stands for.
pub open spec fn spec_style_for_dwrite_style(style: NativeStyle) -> Style {
    match style {
        NativeStyle::Normal => Style::Normal,
        NativeStyle::Oblique => Style::Oblique,
        NativeStyle::Italic => Style::Italic,
    }
}

/// Maps a native style to the style of the same name.
pub fn style_for_dwrite_style(style: NativeStyle) -> (mapped: Style)
    ensures
        mapped == spec_style_for_dwrite_style(style),
{
    match style {
        NativeStyle::Normal => Style::Normal,
        NativeStyle::Oblique => Style::Oblique,
        NativeStyle::Italic => Style::Italic,
    }
}

/// Looks a native width class up in the table of widths.
pub fn stretch_for_native_stretch(native_stretch: u32) -> (stretch: Stretch)
    requires
        NATIVE_STRETCH_MIN <= native_stretch <= NATIVE_STRETCH_MAX,
    ensures
        stretch.0 == stretch_mapping(native_stretch as int),
{
    let index: u32 = native_stretch - 1;
    let thousandths: u32 = match index {
        0 => 500,
        1 => 625,
        2 => 750,
        3 => 875,
        4 => 1000,
        5 => 1125,
        6 => 1250,
        7 => 1500,
        _ => 2000,
    };
    Stretch(thousandths)
}

/// The table of widths never shrinks from one native width class to the next.
pub proof fn lemma_stretch_mapping_monotonic(narrower: int, wider: int)
    requires
        1 <= narrower <= wider <= 9,
    ensures
        stretch_mapping(narrower) <= stretch_mapping(wider),
{
}

} // verus!
