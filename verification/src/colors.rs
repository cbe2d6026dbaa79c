use vstd::prelude::*;
use crate::terminal::BltColor;
use crate::theme::{BaseColor, Color, ColorPair, Effect};

verus! {

/// Whether a colour is wanted for the text or for the cell behind it.
#[derive(Clone, Copy, Debug, PartialEq, Eq, Structural)]
pub enum ColorRole {
    Foreground,
    Background,
}

/// The colours the terminal currently draws with.
#[derive(Clone, Copy, Debug, PartialEq, Eq, Structural)]
pub struct TerminalColors {
    pub foreground: BltColor,
    pub background: BltColor,
}

/// The channels of a dark base colour, from the ANSI colour table.
pub open spec fn dark_rgb(base: BaseColor) -> (u8, u8, u8) {
    match base {
        BaseColor::Black => (0, 0, 0),
        BaseColor::Red => (170, 0, 0),
        BaseColor::Green => (0, 170, 0),
        BaseColor::Yellow => (170, 85, 0),
        BaseColor::Blue => (0, 0, 170),
        BaseColor::Magenta => (170, 0, 170),
        BaseColor::Cyan => (0, 170, 170),
        BaseColor::White => (170, 170, 170),
    }
}

/// The channels of a light base colour, from the ANSI colour table.
pub open spec fn light_rgb(base: BaseColor) -> (u8, u8, u8) {
    match base {
        BaseColor::Black => (85, 85, 85),
        BaseColor::Red => (255, 85, 85),
        BaseColor::Green => (85, 255, 85),
        BaseColor::Yellow => (255, 255, 85),
        BaseColor::Blue => (85, 85, 255),
        BaseColor::Magenta => (255, 85, 255),
        BaseColor::Cyan => (85, 255, 255),
        BaseColor::White => (255, 255, 255),
    }
}

/// A channel of the 6x6x6 colour cube, `0..=5`, stretched to `0..=255`;
/// levels above 5 give full intensity.
pub open spec fn low_res_level(level: u8) -> u8 {
    if level >= 5 {
        255
    } else {
        (level * 51) as u8
    }
}

/// The fully opaque terminal colour with the given channels.
pub open spec fn opaque(rgb: (u8, u8, u8)) -> BltColor {
    BltColor { red: rgb.0, green: rgb.1, blue: rgb.2, alpha: 255 }
}

/// The terminal colour that draws `clr` in the given role, where `current`
/// holds the colours the terminal uses now.
pub open spec fn blt_colour_of(clr: Color, role: ColorRole, current: TerminalColors) -> BltColor {
    match clr {
        Color::TerminalDefault => match role {
            ColorRole::Foreground => current.foreground,
            ColorRole::Background => current.background,
        },
        Color::Dark(base) => opaque(dark_rgb(base)),
        Color::Light(base) => opaque(light_rgb(base)),
        Color::Rgb(r, g, b) => opaque((r, g, b)),
        Color::RgbLowRes(r, g, b) => opaque((low_res_level(r), low_res_level(g), low_res_level(b))),
    }
}

/// A terminal colour read back as a user-interface colour; the alpha channel
/// is dropped.
pub open spec fn colour_of_blt(c: BltColor) -> Color {
    Color::Rgb(c.red, c.green, c.blue)
}

/// What `set_color` hands back and installs: the previous colours as a pair,
/// and the colours the terminal draws with afterwards.
pub open spec fn set_color_outcome(color: ColorPair, current: TerminalColors) -> (ColorPair, TerminalColors) {
    (
        ColorPair { front: colour_of_blt(current.foreground), back: colour_of_blt(current.background) },
        TerminalColors {
            foreground: blt_colour_of(color.front, ColorRole::Foreground, current),
            background: blt_colour_of(color.back, ColorRole::Background, current),
        },
    )
}

/// The colours with foreground and background exchanged.
pub open spec fn swapped(current: TerminalColors) -> TerminalColors {
    TerminalColors { foreground: current.background, background: current.foreground }
}

/// The colours the terminal must switch to when an effect is turned on or
/// off: only reversed video changes them, by swapping; `None` leaves them.
pub open spec fn effect_change(effect: Effect, current: TerminalColors) -> Option<TerminalColors> {
    match effect {
        Effect::Reverse => Some(swapped(current)),
        _ => None,
    }
}

/// The colours in use after a change computed by `set_effect` or `unset_effect`.
pub open spec fn after_change(change: Option<TerminalColors>, current: TerminalColors) -> TerminalColors {
    match change {
        Some(next) => next,
        None => current,
    }
}

/// A terminal colour read back as a user-interface colour.
pub fn blt_colour_to_colour(c: BltColor) -> (clr: Color)
    ensures
        clr == colour_of_blt(c),
{
    Color::Rgb(c.red, c.green, c.blue)
}

/// A channel of the 6x6x6 colour cube stretched to a full byte.
pub fn low_res_channel(level: u8) -> (c: u8)
    ensures
        c == low_res_level(level),
{
    if level >= 5 {
        255
    } else {
        level * 51
    }
}

/// The terminal colour that draws `clr` in the given role.
pub fn colour_to_blt_colour(clr: Color, role: ColorRole, current: TerminalColors) -> (c: BltColor)
    ensures
        c == blt_colour_of(clr, role, current),
{
    let (r, g, b) = match clr {
        Color::TerminalDefault => {
            let clr = match role {
                ColorRole::Foreground => current.foreground,
                ColorRole::Background => current.background,
            };
            return clr;
        },
        Color::Dark(BaseColor::Black) => (0, 0, 0),
        Color::Dark(BaseColor::Red) => (170, 0, 0),
        Color::Dark(BaseColor::Green) => (0, 170, 0),
        Color::Dark(BaseColor::Yellow) => (170, 85, 0),
        Color::Dark(BaseColor::Blue) => (0, 0, 170),
        Color::Dark(BaseColor::Magenta) => (170, 0, 170),
        Color::Dark(BaseColor::Cyan) => (0, 170, 170),
        Color::Dark(BaseColor::White) => (170, 170, 170),

        Color::Light(BaseColor::Black) => (85, 85, 85),
        Color::Light(BaseColor::Red) => (255, 85, 85),
        Color::Light(BaseColor::Green) => (85, 255, 85),
        Color::Light(BaseColor::Yellow) => (255, 255, 85),
        Color::Light(BaseColor::Blue) => (85, 85, 255),
        Color::Light(BaseColor::Magenta) => (255, 85, 255),
        Color::Light(BaseColor::Cyan) => (85, 255, 255),
        Color::Light(BaseColor::White) => (255, 255, 255),

        Color::Rgb(r, g, b) => (r, g, b),
        Color::RgbLowRes(r, g, b) => (low_res_channel(r), low_res_channel(g), low_res_channel(b)),
    };
    BltColor::from_rgb(r, g, b)
}

/// Installing a colour pair: returns the pair that was in use and the
/// terminal colours to install.
pub fn set_color(color: ColorPair, current: TerminalColors) -> (res: (ColorPair, TerminalColors))
    ensures
        res == set_color_outcome(color, current),
        color.front == Color::TerminalDefault ==> res.1.foreground == current.foreground,
        color.back == Color::TerminalDefault ==> res.1.background == current.background,
{
    let previous = ColorPair {
        front: blt_colour_to_colour(current.foreground),
        back: blt_colour_to_colour(current.background),
    };
    let fg = colour_to_blt_colour(color.front, ColorRole::Foreground, current);
    let bg = colour_to_blt_colour(color.back, ColorRole::Background, current);
    (previous, TerminalColors { foreground: fg, background: bg })
}

/// Turning an effect on: the colours to switch to, if any.
pub fn set_effect(effect: Effect, current: TerminalColors) -> (change: Option<TerminalColors>)
    ensures
        change == effect_change(effect, current),
{
    match effect {
        Effect::Bold | Effect::Italic | Effect::Underline | Effect::Simple => None,
        Effect::Reverse => Some(TerminalColors {
            foreground: current.background,
            background: current.foreground,
        }),
    }
}

/// Turning an effect off: the colours to switch to, if any. Reversing and
/// un-reversing are the same swap.
pub fn unset_effect(effect: Effect, current: TerminalColors) -> (change: Option<TerminalColors>)
    ensures
        change == effect_change(effect, current),
{
    match effect {
        Effect::Bold | Effect::Italic | Effect::Underline | Effect::Simple => None,
        Effect::Reverse => Some(TerminalColors {
            foreground: current.background,
            background: current.foreground,
        }),
    }
}

/// Turning an effect off right after turning it on gives back the colours
/// that were in use before.
pub proof fn lemma_unset_effect_undoes_set_effect(effect: Effect, current: TerminalColors)
    ensures
        ({
            let on = after_change(effect_change(effect, current), current);
            after_change(effect_change(effect, on), on) == current
        }),
{
}

/// Handing the pair that `set_color` returned back to `set_color` restores
/// the terminal colours that were in use, when those were opaque.
pub proof fn lemma_set_color_restores(color: ColorPair, current: TerminalColors)
    requires
        current.foreground.alpha == 255,
        current.background.alpha == 255,
    ensures
        ({
            let (previous, after) = set_color_outcome(color, current);
            set_color_outcome(previous, after).1 == current
        }),
{
}

/// Every colour but the terminal default is drawn fully opaque; a true colour
/// reads back unchanged; and an opaque terminal colour, read back and drawn
/// again, is the same colour.
pub proof fn lemma_colour_round_trip(clr: Color, role: ColorRole, current: TerminalColors, c: BltColor)
    ensures
        clr != Color::TerminalDefault ==> blt_colour_of(clr, role, current).alpha == 255,
        clr is Rgb ==> colour_of_blt(blt_colour_of(clr, role, current)) == clr,
        c.alpha == 255 ==> blt_colour_of(colour_of_blt(c), role, current) == c,
{
}


/// The dark and light base colours are drawn with the channels of the ANSI
/// colour table, fully opaque, in either role.
pub proof fn lemma_ansi_palette(role: ColorRole, current: TerminalColors)
    ensures
        blt_colour_of(Color::Dark(BaseColor::Black), role, current) == (BltColor { red: 0, green: 0, blue: 0, alpha: 255 }),
        blt_colour_of(Color::Dark(BaseColor::Red), role, current) == (BltColor { red: 170, green: 0, blue: 0, alpha: 255 }),
        blt_colour_of(Color::Dark(BaseColor::Green), role, current) == (BltColor { red: 0, green: 170, blue: 0, alpha: 255 }),
        blt_colour_of(Color::Dark(BaseColor::Yellow), role, current) == (BltColor { red: 170, green: 85, blue: 0, alpha: 255 }),
        blt_colour_of(Color::Dark(BaseColor::Blue), role, current) == (BltColor { red: 0, green: 0, blue: 170, alpha: 255 }),
        blt_colour_of(Color::Dark(BaseColor::Magenta), role, current) == (BltColor { red: 170, green: 0, blue: 170, alpha: 255 }),
        blt_colour_of(Color::Dark(BaseColor::Cyan), role, current) == (BltColor { red: 0, green: 170, blue: 170, alpha: 255 }),
        blt_colour_of(Color::Dark(BaseColor::White), role, current) == (BltColor { red: 170, green: 170, blue: 170, alpha: 255 }),
        blt_colour_of(Color::Light(BaseColor::Black), role, current) == (BltColor { red: 85, green: 85, blue: 85, alpha: 255 }),
        blt_colour_of(Color::Light(BaseColor::Red), role, current) == (BltColor { red: 255, green: 85, blue: 85, alpha: 255 }),
        blt_colour_of(Color::Light(BaseColor::Green), role, current) == (BltColor { red: 85, green: 255, blue: 85, alpha: 255 }),
        blt_colour_of(Color::Light(BaseColor::Yellow), role, current) == (BltColor { red: 255, green: 255, blue: 85, alpha: 255 }),
        blt_colour_of(Color::Light(BaseColor::Blue), role, current) == (BltColor { red: 85, green: 85, blue: 255, alpha: 255 }),
        blt_colour_of(Color::Light(BaseColor::Magenta), role, current) == (BltColor { red: 255, green: 85, blue: 255, alpha: 255 }),
        blt_colour_of(Color::Light(BaseColor::Cyan), role, current) == (BltColor { red: 85, green: 255, blue: 255, alpha: 255 }),
        blt_colour_of(Color::Light(BaseColor::White), role, current) == (BltColor { red: 255, green: 255, blue: 255, alpha: 255 }),
{
}

/// The terminal default stands for the colour the terminal uses now in the
/// role asked for; a true colour keeps its channels; a low-resolution level
/// `n` of `0..=5` becomes `51 * n`, and any higher level full intensity.
pub proof fn lemma_colour_channels(r: u8, g: u8, b: u8, current: TerminalColors)
    ensures
        blt_colour_of(Color::TerminalDefault, ColorRole::Foreground, current) == current.foreground,
        blt_colour_of(Color::TerminalDefault, ColorRole::Background, current) == current.background,
        blt_colour_of(Color::Rgb(r, g, b), ColorRole::Foreground, current) == (BltColor {
            red: r,
            green: g,
            blue: b,
            alpha: 255,
        }),
        blt_colour_of(Color::Rgb(r, g, b), ColorRole::Background, current) == (BltColor {
            red: r,
            green: g,
            blue: b,
            alpha: 255,
        }),
        colour_of_blt(current.foreground) == Color::Rgb(
            current.foreground.red,
            current.foreground.green,
            current.foreground.blue,
        ),
        low_res_level(0) == 0,
        low_res_level(1) == 51,
        low_res_level(2) == 102,
        low_res_level(3) == 153,
        low_res_level(4) == 204,
        low_res_level(5) == 255,
        r > 5 ==> low_res_level(r) == 255,
        r <= 5 ==> low_res_level(r) as int == 51 * r,
{
}

/// Installing a pair hands back the colours in use as true colours, and a
/// terminal-default side of the pair keeps the colour that side has now.
pub proof fn lemma_set_color_sides(color: ColorPair, current: TerminalColors)
    ensures
        set_color_outcome(color, current).0 == (ColorPair {
            front: Color::Rgb(current.foreground.red, current.foreground.green, current.foreground.blue),
            back: Color::Rgb(current.background.red, current.background.green, current.background.blue),
        }),
        color.front == Color::TerminalDefault ==> set_color_outcome(color, current).1.foreground
            == current.foreground,
        color.back == Color::TerminalDefault ==> set_color_outcome(color, current).1.background
            == current.background,
        color.front != Color::TerminalDefault ==> set_color_outcome(color, current).1.foreground.alpha
            == 255,
        color.back != Color::TerminalDefault ==> set_color_outcome(color, current).1.background.alpha
            == 255,
{
}

/// Reversed video exchanges foreground and background; no other effect
/// changes the colours.
pub proof fn lemma_effects(effect: Effect, current: TerminalColors)
    ensures
        effect == Effect::Reverse ==> effect_change(effect, current) == Some(
            TerminalColors { foreground: current.background, background: current.foreground },
        ),
        effect != Effect::Reverse ==> effect_change(effect, current) is None,
{
}

} // verus!
