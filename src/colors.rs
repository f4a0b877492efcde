//! The palette registry: one entry for each style mode and palette color.
use vstd::prelude::*;
use crate::color::{Rgb, shade, shade_spec};
use crate::styles::{Palette, Style};

verus! {

/// The colors that a widget of one palette color and style mode uses.
#[derive(Clone, Copy, Debug, PartialEq, Eq, Structural)]
pub struct PaletteEntry {
    pub name: Palette,
    pub color: Rgb,
    pub border_color: Rgb,
    pub hover_color: Rgb,
    pub focus_color: Rgb,
    pub active_color: Rgb,
}

/// The interaction offsets, in percent, that the registry's shades use.
pub const HOVER_DELTA: i32 = -20;
pub const FOCUS_DELTA: i32 = -10;
pub const ACTIVE_DELTA: i32 = -30;

pub open spec fn base_color(p: Palette) -> Rgb {
    match p {
        Palette::Standard => Rgb { r: 145, g: 141, b: 148 },
        Palette::Info => Rgb { r: 38, g: 163, b: 216 },
        Palette::Success => Rgb { r: 46, g: 160, b: 67 },
        Palette::Warning => Rgb { r: 240, g: 173, b: 78 },
        Palette::Danger => Rgb { r: 217, g: 83, b: 79 },
        Palette::Light => Rgb { r: 248, g: 249, b: 250 },
        Palette::Dark => Rgb { r: 52, g: 58, b: 64 },
        Palette::Clean => Rgb { r: 255, g: 255, b: 255 },
        Palette::Secondary => Rgb { r: 108, g: 117, b: 125 },
    }
}

/// The main color of a palette color in a style mode.
pub open spec fn mode_color(mode: Style, p: Palette) -> Rgb {
    match mode {
        Style::Light => shade_spec(base_color(p), 40),
        _ => base_color(p),
    }
}

/// The border color of a palette color in a style mode.
pub open spec fn mode_border(mode: Style, p: Palette) -> Rgb {
    match mode {
        Style::Regular => shade_spec(base_color(p), -10),
        Style::Light => shade_spec(base_color(p), 20),
        Style::Outline => base_color(p),
    }
}

/// The registry's entry for a style mode and a palette color.
pub open spec fn entry_spec(mode: Style, p: Palette) -> PaletteEntry {
    let border = mode_border(mode, p);
    PaletteEntry {
        name: p,
        color: mode_color(mode, p),
        border_color: border,
        hover_color: shade_spec(border, HOVER_DELTA as int),
        focus_color: shade_spec(border, FOCUS_DELTA as int),
        active_color: shade_spec(border, ACTIVE_DELTA as int),
    }
}

impl PaletteEntry {
    /// The interaction colors are the border color shaded by the registry's
    /// offsets.
    pub open spec fn wf(&self) -> bool {
        &&& self.hover_color == shade_spec(self.border_color, HOVER_DELTA as int)
        &&& self.focus_color == shade_spec(self.border_color, FOCUS_DELTA as int)
        &&& self.active_color == shade_spec(self.border_color, ACTIVE_DELTA as int)
    }
}

fn base_color_exec(p: Palette) -> (r: Rgb)
    ensures
        r == base_color(p),
{
    match p {
        Palette::Standard => Rgb { r: 145, g: 141, b: 148 },
        Palette::Info => Rgb { r: 38, g: 163, b: 216 },
        Palette::Success => Rgb { r: 46, g: 160, b: 67 },
        Palette::Warning => Rgb { r: 240, g: 173, b: 78 },
        Palette::Danger => Rgb { r: 217, g: 83, b: 79 },
        Palette::Light => Rgb { r: 248, g: 249, b: 250 },
        Palette::Dark => Rgb { r: 52, g: 58, b: 64 },
        Palette::Clean => Rgb { r: 255, g: 255, b: 255 },
        Palette::Secondary => Rgb { r: 108, g: 117, b: 125 },
    }
}

/// The entry of a palette color in a style mode. Every pair of the closed
/// token sets has exactly one entry.
pub fn lookup(mode: Style, p: Palette) -> (r: PaletteEntry)
    ensures
        r == entry_spec(mode, p),
        r.name == p,
        r.wf(),
{
    let base = base_color_exec(p);
    let color = match mode {
        Style::Light => shade(base, 40),
        _ => base,
    };
    let border = match mode {
        Style::Regular => shade(base, -10),
        Style::Light => shade(base, 20),
        Style::Outline => base,
    };
    PaletteEntry {
        name: p,
        color,
        border_color: border,
        hover_color: shade(border, HOVER_DELTA),
        focus_color: shade(border, FOCUS_DELTA),
        active_color: shade(border, ACTIVE_DELTA),
    }
}

/// Every style mode and palette color has a well-formed entry named after
/// the palette color, whose five colors each render as `#rrggbb`.
pub proof fn lemma_lookup_total(mode: Style, p: Palette)
    ensures
        entry_spec(mode, p).name == p,
        entry_spec(mode, p).wf(),
        crate::color::css_color(entry_spec(mode, p).color).len() == 7,
        crate::color::css_color(entry_spec(mode, p).border_color).len() == 7,
        crate::color::css_color(entry_spec(mode, p).hover_color).len() == 7,
        crate::color::css_color(entry_spec(mode, p).focus_color).len() == 7,
        crate::color::css_color(entry_spec(mode, p).active_color).len() == 7,
{
}

} // verus!
