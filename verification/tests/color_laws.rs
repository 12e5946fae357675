use amp::view::color::{Color, ColorMap, Colors, RGBColor, Theme, ThemeSettings, theme_foreground};

fn all_colors() -> Vec<Colors> {
    vec![
        Colors::Default,
        Colors::Focused,
        Colors::Inverted,
        Colors::Insert,
        Colors::Warning,
        Colors::PinnedQuery,
        Colors::PasteMode,
        Colors::PathMode,
        Colors::SearchMode,
        Colors::SelectMode,
        Colors::CustomForeground(RGBColor(1, 2, 3)),
        Colors::CustomFocusedForeground(RGBColor(4, 5, 6)),
        Colors::Custom(RGBColor(7, 8, 9), RGBColor(10, 11, 12)),
    ]
}

fn empty_theme() -> Theme {
    Theme {
        name: None,
        settings: ThemeSettings { foreground: None, background: None, line_highlight: None },
    }
}

#[test]
fn themes_without_settings_fall_back_to_defaults() {
    let theme = empty_theme();
    assert_eq!(theme_foreground(&theme), RGBColor(255, 255, 255));
    assert_eq!(
        theme.map_colors(Colors::Focused, false),
        Colors::Custom(RGBColor(255, 255, 255), RGBColor(55, 55, 55))
    );
    assert_eq!(
        theme.map_colors(Colors::Inverted, false),
        Colors::Custom(RGBColor(0, 0, 0), RGBColor(255, 255, 255))
    );
}

#[test]
fn fixed_mode_colors() {
    let theme = empty_theme();
    assert_eq!(
        theme.map_colors(Colors::Insert, true),
        Colors::Custom(RGBColor(255, 255, 255), RGBColor(0, 180, 0))
    );
    assert_eq!(
        theme.map_colors(Colors::PathMode, false),
        Colors::Custom(RGBColor(255, 255, 255), RGBColor(255, 20, 147))
    );
}

#[test]
fn mapping_is_idempotent_and_resolves_every_combination() {
    let theme = Theme {
        name: None,
        settings: ThemeSettings {
            foreground: Some(Color { r: 1, g: 1, b: 1, a: 0 }),
            background: Some(Color { r: 2, g: 2, b: 2, a: 0 }),
            line_highlight: None,
        },
    };
    for transparent in [false, true] {
        for colors in all_colors() {
            let mapped = theme.map_colors(colors, transparent);
            assert_eq!(theme.map_colors(mapped, transparent), mapped);
            match mapped {
                Colors::Custom(_, _) => {}
                Colors::CustomForeground(_) => assert!(transparent),
                _ => panic!("unresolved colors"),
            }
        }
    }
}

#[test]
fn custom_colors_are_preserved_and_default_colors_are_default() {
    let theme = empty_theme();
    let custom = Colors::Custom(RGBColor(7, 8, 9), RGBColor(10, 11, 12));
    assert_eq!(theme.map_colors(custom, true), custom);
    assert_eq!(Colors::default(), Colors::Default);
}
