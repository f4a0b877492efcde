//! The closed sets of style tokens and their class-name words.
use vstd::prelude::*;

verus! {

/// The semantic colors of the palette.
#[derive(Clone, Copy, Debug, PartialEq, Eq, Structural)]
pub enum Palette {
    Standard,
    Info,
    Success,
    Warning,
    Danger,
    Light,
    Dark,
    Clean,
    Secondary,
}

/// The rendering variants, each reading its own sub-table of the palette.
#[derive(Clone, Copy, Debug, PartialEq, Eq, Structural)]
pub enum Style {
    Regular,
    Light,
    Outline,
}

/// The standard sizes of a widget.
#[derive(Clone, Copy, Debug, PartialEq, Eq, Structural)]
pub enum Size {
    Small,
    Medium,
    Big,
}

pub open spec fn palette_word(p: Palette) -> Seq<char> {
    match p {
        Palette::Standard => "standard"@,
        Palette::Info => "info"@,
        Palette::Success => "success"@,
        Palette::Warning => "warning"@,
        Palette::Danger => "danger"@,
        Palette::Light => "light"@,
        Palette::Dark => "dark"@,
        Palette::Clean => "clean"@,
        Palette::Secondary => "secondary"@,
    }
}

pub open spec fn style_word(s: Style) -> Seq<char> {
    match s {
        Style::Regular => "regular"@,
        Style::Light => "light"@,
        Style::Outline => "outline"@,
    }
}

pub open spec fn size_word(s: Size) -> Seq<char> {
    match s {
        Size::Small => "small"@,
        Size::Medium => "medium"@,
        Size::Big => "big"@,
    }
}

/// The class-name word of a palette color.
pub fn get_palette(p: Palette) -> (r: String)
    ensures
        r@ == palette_word(p),
{
    match p {
        Palette::Standard => String::from_str("standard"),
        Palette::Info => String::from_str("info"),
        Palette::Success => String::from_str("success"),
        Palette::Warning => String::from_str("warning"),
        Palette::Danger => String::from_str("danger"),
        Palette::Light => String::from_str("light"),
        Palette::Dark => String::from_str("dark"),
        Palette::Clean => String::from_str("clean"),
        Palette::Secondary => String::from_str("secondary"),
    }
}

/// The class-name word of a style mode.
pub fn get_style(s: Style) -> (r: String)
    ensures
        r@ == style_word(s),
{
    match s {
        Style::Regular => String::from_str("regular"),
        Style::Light => String::from_str("light"),
        Style::Outline => String::from_str("outline"),
    }
}

/// The class-name word of a size.
pub fn get_size(size: Size) -> (r: String)
    ensures
        r@ == size_word(size),
{
    match size {
        Size::Small => String::from_str("small"),
        Size::Medium => String::from_str("medium"),
        Size::Big => String::from_str("big"),
    }
}

} // verus!
