use amp::view::color::{theme_background, theme_line_highlight, Color, ColorMap, Colors, RGBColor, Theme, ThemeSettings};

fn theme() -> Theme {
    Theme {
        name: Some(String::from("Test Theme")),
        settings: ThemeSettings {
            foreground: Some(Color {
                r: 0x11,
                g: 0x22,
                b: 0x33,
                a: 0xFF,
            }),
            background: Some(Color {
                r: 0x22,
                g: 0x33,
                b: 0x44,
                a: 0xFF,
            }),
            line_highlight: Some(Color {
                r: 0x33,
                g: 0x44,
                b: 0x55,
                a: 0xFF,
            }),
        },
    }
}

#[test]
fn map_colors_uses_theme_background_for_default_colors() {
    let theme = theme();

    assert_eq!(
        theme.map_colors(Colors::Default, false),
        Colors::Custom(RGBColor(0x11, 0x22, 0x33), theme_background(&theme))
    );
}

#[test]
fn map_colors_uses_theme_background_for_custom_foreground() {
    let theme = theme();

    assert_eq!(
        theme.map_colors(Colors::CustomForeground(RGBColor(1, 2, 3)), false),
        Colors::Custom(RGBColor(1, 2, 3), theme_background(&theme))
    );
}

#[test]
fn map_colors_uses_line_highlight_for_focused_foreground() {
    let theme = theme();

    assert_eq!(
        theme.map_colors(Colors::CustomFocusedForeground(RGBColor(1, 2, 3)), false),
        Colors::Custom(RGBColor(1, 2, 3), theme_line_highlight(&theme))
    );
}

#[test]
fn map_colors_uses_terminal_background_for_default_colors_when_transparency_enabled() {
    let theme = theme();

    assert_eq!(
        theme.map_colors(Colors::Default, true),
        Colors::CustomForeground(RGBColor(0x11, 0x22, 0x33))
    );
}

#[test]
fn map_colors_uses_terminal_background_for_custom_foreground_when_transparency_enabled() {
    let theme = theme();

    assert_eq!(
        theme.map_colors(Colors::CustomForeground(RGBColor(1, 2, 3)), true),
        Colors::CustomForeground(RGBColor(1, 2, 3))
    );
}
