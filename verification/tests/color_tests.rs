use blt_backend::colors::{
    blt_colour_to_colour, colour_to_blt_colour, low_res_channel, set_color, set_effect,
    unset_effect, ColorRole, TerminalColors,
};
use blt_backend::terminal::BltColor;
use blt_backend::theme::{BaseColor, Color, ColorPair, Effect};

fn rgba(red: u8, green: u8, blue: u8, alpha: u8) -> BltColor {
    BltColor { red, green, blue, alpha }
}

fn current() -> TerminalColors {
    TerminalColors { foreground: rgba(200, 201, 202, 255), background: rgba(1, 2, 3, 255) }
}

#[test]
fn ansi_table() {
    let c = current();
    let fg = ColorRole::Foreground;
    assert_eq!(colour_to_blt_colour(Color::Dark(BaseColor::Black), fg, c), rgba(0, 0, 0, 255));
    assert_eq!(colour_to_blt_colour(Color::Dark(BaseColor::Red), fg, c), rgba(170, 0, 0, 255));
    assert_eq!(colour_to_blt_colour(Color::Dark(BaseColor::Yellow), fg, c), rgba(170, 85, 0, 255));
    assert_eq!(colour_to_blt_colour(Color::Dark(BaseColor::White), fg, c), rgba(170, 170, 170, 255));
    assert_eq!(colour_to_blt_colour(Color::Light(BaseColor::Black), fg, c), rgba(85, 85, 85, 255));
    assert_eq!(colour_to_blt_colour(Color::Light(BaseColor::Blue), fg, c), rgba(85, 85, 255, 255));
    assert_eq!(colour_to_blt_colour(Color::Light(BaseColor::Magenta), fg, c), rgba(255, 85, 255, 255));
    assert_eq!(colour_to_blt_colour(Color::Light(BaseColor::White), fg, c), rgba(255, 255, 255, 255));
}

#[test]
fn terminal_default_uses_current_colour_of_the_role() {
    let c = TerminalColors { foreground: rgba(9, 8, 7, 100), background: rgba(1, 2, 3, 4) };
    assert_eq!(colour_to_blt_colour(Color::TerminalDefault, ColorRole::Foreground, c), c.foreground);
    assert_eq!(colour_to_blt_colour(Color::TerminalDefault, ColorRole::Background, c), c.background);
}

#[test]
fn true_and_low_res_colours() {
    let c = current();
    assert_eq!(
        colour_to_blt_colour(Color::Rgb(12, 34, 56), ColorRole::Background, c),
        rgba(12, 34, 56, 255)
    );
    assert_eq!(
        colour_to_blt_colour(Color::RgbLowRes(1, 2, 3), ColorRole::Foreground, c),
        rgba(51, 102, 153, 255)
    );
    assert_eq!(
        colour_to_blt_colour(Color::RgbLowRes(0, 4, 5), ColorRole::Foreground, c),
        rgba(0, 204, 255, 255)
    );
}

#[test]
fn low_res_channel_matches_float_scaling() {
    for level in 0..=255u8 {
        let by_float = (level as f32 / 5.0 * 255.0) as u8;
        assert_eq!(low_res_channel(level), by_float, "level {}", level);
    }
}

#[test]
fn reading_back_drops_alpha() {
    assert_eq!(blt_colour_to_colour(rgba(4, 5, 6, 7)), Color::Rgb(4, 5, 6));
}

#[test]
fn set_color_returns_previous_and_installs_new() {
    let c = current();
    let pair = ColorPair { front: Color::Dark(BaseColor::Green), back: Color::TerminalDefault };
    let (previous, after) = set_color(pair, c);
    assert_eq!(previous, ColorPair { front: Color::Rgb(200, 201, 202), back: Color::Rgb(1, 2, 3) });
    assert_eq!(after, TerminalColors { foreground: rgba(0, 170, 0, 255), background: c.background });
}

#[test]
fn set_color_restores_with_returned_pair() {
    let c = current();
    let pair = ColorPair { front: Color::Light(BaseColor::Red), back: Color::Rgb(9, 9, 9) };
    let (previous, after) = set_color(pair, c);
    let (_, restored) = set_color(previous, after);
    assert_eq!(restored, c);
}

#[test]
fn reverse_swaps_and_unreverse_swaps_back() {
    let c = current();
    let on = set_effect(Effect::Reverse, c).unwrap();
    assert_eq!(on, TerminalColors { foreground: c.background, background: c.foreground });
    let off = unset_effect(Effect::Reverse, on).unwrap();
    assert_eq!(off, c);
}

#[test]
fn other_effects_leave_colours() {
    let c = current();
    for e in [Effect::Simple, Effect::Bold, Effect::Italic, Effect::Underline] {
        assert_eq!(set_effect(e, c), None);
        assert_eq!(unset_effect(e, c), None);
    }
}
