//! The palette of a light and of a dark desktop.

use crate::icon::Badge;
use vstd::prelude::*;

verus! {

/// A color as Windows packs it: blue, green and red from the high byte down.
pub open spec fn packed(r: int, g: int, b: int) -> int {
    r + g * 0x100 + b * 0x1_0000
}

pub fn rgb(r: u8, g: u8, b: u8) -> (c: u32)
    ensures
        c == packed(r as int, g as int, b as int),
{
    r as u32 + g as u32 * 0x100 + b as u32 * 0x1_0000
}

/// The colors of one mode.
#[derive(Clone, Copy, PartialEq, Eq, Debug, Structural)]
pub struct Palette {
    pub dark: bool,
    /// Window background.
    pub bg: u32,
    /// Read-only field and detail backgrounds.
    pub surface: u32,
    pub text: u32,
    pub subtext: u32,
    pub accent: u32,
    pub warn: u32,
    pub ok: u32,
    pub danger: u32,
    /// Hairline separator.
    pub sep: u32,
}

/// The color of a warning.
pub open spec fn warn_of(dark: bool) -> int {
    if dark {
        packed(0xfc, 0xb7, 0x43)
    } else {
        packed(0x9a, 0x63, 0x00)
    }
}

/// The color of something that has stopped.
pub open spec fn danger_of(dark: bool) -> int {
    if dark {
        packed(0xf5, 0x62, 0x62)
    } else {
        packed(0xc4, 0x2b, 0x1c)
    }
}

pub fn warn(dark: bool) -> (c: u32)
    ensures
        c == warn_of(dark),
{
    if dark {
        rgb(0xfc, 0xb7, 0x43)
    } else {
        rgb(0x9a, 0x63, 0x00)
    }
}

pub fn danger(dark: bool) -> (c: u32)
    ensures
        c == danger_of(dark),
{
    if dark {
        rgb(0xf5, 0x62, 0x62)
    } else {
        rgb(0xc4, 0x2b, 0x1c)
    }
}

impl Palette {
    /// The palette of the apps' mode.
    pub fn of(dark: bool) -> (r: Self)
        ensures
            r.dark == dark,
            r.bg == (if dark {
                packed(0x2b, 0x2b, 0x2b)
            } else {
                packed(0xf3, 0xf3, 0xf3)
            }),
            r.surface == (if dark {
                packed(0x3a, 0x3a, 0x3a)
            } else {
                packed(0xff, 0xff, 0xff)
            }),
            r.text == (if dark {
                packed(0xff, 0xff, 0xff)
            } else {
                packed(0x1a, 0x1a, 0x1a)
            }),
            r.subtext == (if dark {
                packed(0xb0, 0xb0, 0xb0)
            } else {
                packed(0x60, 0x60, 0x66)
            }),
            r.accent == (if dark {
                packed(0x4c, 0xc2, 0xff)
            } else {
                packed(0x00, 0x67, 0xc0)
            }),
            r.warn == warn_of(dark),
            r.ok == (if dark {
                packed(0x57, 0xc9, 0x8a)
            } else {
                packed(0x1a, 0x7f, 0x4f)
            }),
            r.danger == danger_of(dark),
            r.sep == (if dark {
                packed(0x50, 0x50, 0x50)
            } else {
                packed(0xdc, 0xdc, 0xe0)
            }),
    {
        if dark {
            Palette {
                dark,
                bg: rgb(0x2b, 0x2b, 0x2b),
                surface: rgb(0x3a, 0x3a, 0x3a),
                text: rgb(0xff, 0xff, 0xff),
                subtext: rgb(0xb0, 0xb0, 0xb0),
                accent: rgb(0x4c, 0xc2, 0xff),
                warn: warn(dark),
                ok: rgb(0x57, 0xc9, 0x8a),
                danger: danger(dark),
                sep: rgb(0x50, 0x50, 0x50),
            }
        } else {
            Palette {
                dark,
                bg: rgb(0xf3, 0xf3, 0xf3),
                surface: rgb(0xff, 0xff, 0xff),
                text: rgb(0x1a, 0x1a, 0x1a),
                subtext: rgb(0x60, 0x60, 0x66),
                accent: rgb(0x00, 0x67, 0xc0),
                warn: warn(dark),
                ok: rgb(0x1a, 0x7f, 0x4f),
                danger: danger(dark),
                sep: rgb(0xdc, 0xdc, 0xe0),
            }
        }
    }
}

/// The icon badge's two colors, for a given surface ink. The badge follows the
/// *taskbar's* theme and every other role the apps'; the two values are the same
/// either way, so the badge and the explanation rule cannot drift apart.
pub fn badge_colors(dark: bool) -> (r: (u32, u32))
    ensures
        r.0 == warn_of(dark),
        r.1 == danger_of(dark),
{
    (warn(dark), danger(dark))
}

/// The channels of a packed color: red, green and blue.
pub open spec fn channels(c: int) -> (int, int, int) {
    (c % 0x100, c / 0x100 % 0x100, c / 0x1_0000 % 0x100)
}

/// The ink of a badge on a taskbar of this theme: red, green and blue, the reverse of
/// how a color is packed.
pub fn badge_ink(kind: Badge, dark: bool) -> (r: (u8, u8, u8))
    ensures
        (r.0 as int, r.1 as int, r.2 as int) == channels(
            match kind {
                Badge::Warn => warn_of(dark),
                Badge::Stop => danger_of(dark),
            },
        ),
{
    let (warn, danger) = badge_colors(dark);
    let c: u32 = match kind {
        Badge::Warn => warn,
        Badge::Stop => danger,
    };
    ((c % 0x100) as u8, (c / 0x100 % 0x100) as u8, (c / 0x1_0000 % 0x100) as u8)
}

/// What a color is unpacked into is what it was packed from.
pub proof fn law_channels_are_packed(r: u8, g: u8, b: u8)
    ensures
        channels(packed(r as int, g as int, b as int)) == (r as int, g as int, b as int),
{
}

/// What one of the personalization values says, where 0 means dark. Absent means
/// light, which is what Windows itself assumes.
pub fn personalize_dark(value: Option<u32>) -> (r: bool)
    ensures
        r == (value == Some(0u32)),
{
    match value {
        Some(v) => v == 0,
        None => false,
    }
}

/// A color is its channels, red lowest.
pub proof fn law_a_color_is_its_channels(r: u8, g: u8, b: u8)
    ensures
        packed(r as int, g as int, b as int) % 0x100 == r,
        packed(r as int, g as int, b as int) / 0x100 % 0x100 == g,
        packed(r as int, g as int, b as int) / 0x1_0000 == b,
        warn_of(true) % 0x100 == 0xfc && warn_of(true) / 0x100 % 0x100 == 0xb7 && warn_of(true)
            / 0x1_0000 == 0x43,
        warn_of(false) % 0x100 == 0x9a && warn_of(false) / 0x100 % 0x100 == 0x63 && warn_of(false)
            / 0x1_0000 == 0,
        danger_of(true) % 0x100 == 0xf5 && danger_of(true) / 0x100 % 0x100 == 0x62 && danger_of(
            true,
        ) / 0x1_0000 == 0x62,
        danger_of(false) % 0x100 == 0xc4 && danger_of(false) / 0x100 % 0x100 == 0x2b && danger_of(
            false,
        ) / 0x1_0000 == 0x1c,
{
}

} // verus!
