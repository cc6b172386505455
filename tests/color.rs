use fancytree::color::{AnsiColor, ChoiceError, Color, ColorChoice, Styling};

#[test]
fn ansi_from_rgb_bright_black() {
    assert_eq!(ColorChoice::ansi_from_rgb(85, 85, 85), AnsiColor::BrightBlack);
}

#[test]
fn ansi_from_rgb_black() {
    assert_eq!(ColorChoice::ansi_from_rgb(0, 0b10, 0b11), AnsiColor::Black);
}

#[test]
fn ansi_from_rgb_green() {
    assert_eq!(ColorChoice::ansi_from_rgb(0, 0b1000_0000, 0b11), AnsiColor::Green);
}

#[test]
fn ansi_from_rgb_bright_green() {
    assert_eq!(ColorChoice::ansi_from_rgb(0, 0b1100_0001, 0b11), AnsiColor::BrightGreen);
}

#[test]
fn ansi_from_rgb_bright_yellow() {
    assert_eq!(
        ColorChoice::ansi_from_rgb(0b1000_0000, 0b1100_0001, 0b11),
        AnsiColor::BrightYellow
    );
}

#[test]
fn ansi_from_rgb_bright_white() {
    assert_eq!(ColorChoice::ansi_from_rgb(0xFF, 0xFF, 0xFF), AnsiColor::BrightWhite);
}

#[test]
fn ansi_from_rgb_hue_bits() {
    assert_eq!(ColorChoice::ansi_from_rgb(0x80, 0, 0), AnsiColor::Red);
    assert_eq!(ColorChoice::ansi_from_rgb(0, 0, 0x80), AnsiColor::Blue);
    assert_eq!(ColorChoice::ansi_from_rgb(0x80, 0, 0x80), AnsiColor::Magenta);
    assert_eq!(ColorChoice::ansi_from_rgb(0, 0x80, 0x80), AnsiColor::Cyan);
    assert_eq!(ColorChoice::ansi_from_rgb(0x80, 0x80, 0x80), AnsiColor::White);
    assert_eq!(ColorChoice::ansi_from_rgb(0xC0, 0, 0), AnsiColor::BrightRed);
    assert_eq!(ColorChoice::ansi_from_rgb(0, 0, 0xFF), AnsiColor::BrightBlue);
}

#[test]
fn ansi_from_rgb_grey_band_edges() {
    assert_eq!(ColorChoice::ansi_from_rgb(0x40, 0x40, 0x40), AnsiColor::BrightBlack);
    assert_eq!(ColorChoice::ansi_from_rgb(0x7F, 0x7F, 0x7F), AnsiColor::BrightBlack);
    assert_eq!(ColorChoice::ansi_from_rgb(0x3F, 0x40, 0x40), AnsiColor::Black);
    assert_eq!(ColorChoice::ansi_from_rgb(0x40, 0x40, 0x80), AnsiColor::BrightBlue);
    assert_eq!(ColorChoice::ansi_from_rgb(0x3F, 0x3F, 0x80), AnsiColor::Blue);
}

#[test]
fn ansi_from_rgb_is_total_and_deterministic() {
    for r in (0..=255u8).step_by(15) {
        for g in (0..=255u8).step_by(17) {
            for b in (0..=255u8).step_by(51) {
                let first = ColorChoice::ansi_from_rgb(r, g, b);
                assert_eq!(first, ColorChoice::ansi_from_rgb(r, g, b));
                let bright = (r | g | b) >= 0xC0
                    || ((0x40..0x80).contains(&r) && (0x40..0x80).contains(&g) && (0x40..0x80).contains(&b));
                let hue = usize::from(r >> 7) | usize::from(g >> 7) << 1 | usize::from(b >> 7) << 2;
                let expected = AnsiColor::from_index(if bright { 8 } else { 0 } + hue);
                assert_eq!(first, expected);
            }
        }
    }
}

#[test]
fn rgb_brightness_predicates() {
    assert!(ColorChoice::rgb_is_bright(0xC0, 0, 0));
    assert!(!ColorChoice::rgb_is_bright(0xBF, 0x3F, 0));
    assert!(ColorChoice::rgb_is_bright_black(0x40, 0x7F, 0x55));
    assert!(!ColorChoice::rgb_is_bright_black(0x40, 0x80, 0x55));
}

#[test]
fn color_to_ansi_keeps_palette_colors() {
    assert_eq!(ColorChoice::color_to_ansi(Color::Ansi(AnsiColor::Cyan)), AnsiColor::Cyan);
    assert_eq!(ColorChoice::color_to_ansi(Color::Rgb(255, 0, 0)), AnsiColor::BrightRed);
}

#[test]
fn choice_predicates() {
    assert!(ColorChoice::Auto.is_auto());
    assert!(ColorChoice::On.is_on());
    assert!(ColorChoice::Ansi.is_ansi());
    assert!(ColorChoice::Off.is_off());
    assert!(!ColorChoice::On.is_off());
    assert_eq!(ColorChoice::default(), ColorChoice::Auto);
}

#[test]
fn off_and_colorless_are_plain() {
    let red = Some(Color::Rgb(200, 0, 0));
    for choice in [ColorChoice::Auto, ColorChoice::On, ColorChoice::Ansi, ColorChoice::Off] {
        for supports in [false, true] {
            assert_eq!(choice.styling(None, None, supports), Styling::Plain);
        }
    }
    for supports in [false, true] {
        assert_eq!(ColorChoice::Off.styling(red, red, supports), Styling::Plain);
        assert_eq!(ColorChoice::Off.styling(red, None, supports), Styling::Plain);
    }
}

#[test]
fn auto_follows_support() {
    let fg = Some(Color::Rgb(1, 2, 3));
    assert_eq!(ColorChoice::Auto.styling(fg, None, false), Styling::Plain);
    assert_eq!(
        ColorChoice::Auto.styling(fg, None, true),
        Styling::Colored { fg, bg: None }
    );
}

#[test]
fn on_applies_colors_unchanged() {
    let fg = Some(Color::Rgb(1, 2, 3));
    let bg = Some(Color::Ansi(AnsiColor::Blue));
    assert_eq!(ColorChoice::On.styling(fg, bg, false), Styling::Colored { fg, bg });
    assert_eq!(ColorChoice::On.styling(None, bg, false), Styling::Colored { fg: None, bg });
}

#[test]
fn ansi_degrades_both_sides() {
    let fg = Some(Color::Rgb(85, 85, 85));
    let bg = Some(Color::Rgb(0, 193, 3));
    assert_eq!(
        ColorChoice::Ansi.styling(fg, bg, false),
        Styling::Colored {
            fg: Some(Color::Ansi(AnsiColor::BrightBlack)),
            bg: Some(Color::Ansi(AnsiColor::BrightGreen)),
        }
    );
}

#[test]
fn parse_valid_tokens() {
    assert_eq!(ColorChoice::from_token("string", Some("auto")), Ok(ColorChoice::Auto));
    assert_eq!(ColorChoice::from_token("string", Some("on")), Ok(ColorChoice::On));
    assert_eq!(ColorChoice::from_token("string", Some("off")), Ok(ColorChoice::Off));
    assert_eq!(ColorChoice::from_token("string", Some("ansi")), Ok(ColorChoice::Ansi));
}

#[test]
fn parse_rejects_other_values() {
    let err = ColorChoice::from_token("string", Some("Auto")).unwrap_err();
    assert_eq!(err.from, "string");
    let err = ColorChoice::from_token("string", Some("")).unwrap_err();
    assert_eq!(err.from, "string");
    let err = ColorChoice::from_token("integer", None).unwrap_err();
    assert_eq!(err.from, "integer");
    assert_eq!(ChoiceError::valid_values(), vec!["auto", "on", "off", "ansi"]);
}

#[test]
fn str_eq_compares_text() {
    assert!(fancytree::color::str_eq("ansi", "ansi"));
    assert!(!fancytree::color::str_eq("ansi", "auto"));
    assert!(!fancytree::color::str_eq("on", "one"));
}

#[test]
fn palette_names_round_trip() {
    for i in 0..16 {
        let a = AnsiColor::from_index(i);
        assert_eq!(AnsiColor::from_name(a.name()), Some(a));
    }
    assert_eq!(AnsiColor::BrightBlack.name(), "bright-black");
    assert_eq!(AnsiColor::from_name("cyan"), Some(AnsiColor::Cyan));
    assert_eq!(AnsiColor::from_name("purple"), None);
}

#[test]
fn channels_must_fit_a_byte() {
    assert_eq!(Color::from_channels(0, 128, 255), Some(Color::Rgb(0, 128, 255)));
    assert_eq!(Color::from_channels(-1, 0, 0), None);
    assert_eq!(Color::from_channels(0, 256, 0), None);
}
