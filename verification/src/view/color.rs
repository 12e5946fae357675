//! Colors used by the terminal view, and their resolution against a theme.
use vstd::prelude::*;

verus! {

/// A fully specified terminal color.
#[derive(Clone, Copy, Debug, PartialEq, Eq, Structural)]
pub struct RGBColor(pub u8, pub u8, pub u8);

/// A convenience type used to represent a foreground/background
/// color combination. Provides generic/convenience variants to
/// discourage color selection outside of the theme, whenever possible.
#[derive(Clone, Copy, Debug, PartialEq, Eq, Structural)]
pub enum Colors {
    /// Default foreground on the default background.
    Default,
    /// Default foreground on the focused background.
    Focused,
    /// Default colors, inverted.
    Inverted,
    /// White on green.
    Insert,
    /// White on yellow.
    Warning,
    /// White on blue.
    PinnedQuery,
    /// White on purple.
    PasteMode,
    /// White on pink.
    PathMode,
    /// White on purple.
    SearchMode,
    /// White on blue.
    SelectMode,
    /// Custom foreground on the default background.
    CustomForeground(RGBColor),
    /// Custom foreground on the focused background.
    CustomFocusedForeground(RGBColor),
    /// Fully resolved colors; used when a specific background must be preserved.
    Custom(RGBColor, RGBColor),
}

impl Default for Colors {
    fn default() -> (c: Colors)
        ensures
            c == Colors::Default,
    {
        Colors::Default
    }
}

/// A theme color, with its alpha channel.
#[derive(Clone, Copy, Debug, PartialEq, Eq, Structural)]
pub struct Color {
    pub r: u8,
    pub g: u8,
    pub b: u8,
    pub a: u8,
}

/// The editor-level settings of a theme that the view reads: the colors it
/// uses for text, for the background, and for the line holding the cursor.
#[derive(Clone, Copy, Debug, PartialEq, Eq, Structural)]
pub struct ThemeSettings {
    pub foreground: Option<Color>,
    pub background: Option<Color>,
    pub line_highlight: Option<Color>,
}

/// A color theme, as far as the view reads it.
#[derive(Debug)]
pub struct Theme {
    pub name: Option<String>,
    pub settings: ThemeSettings,
}

/// Drops the alpha channel of a theme color.
pub open spec fn rgb_of(color: Color) -> RGBColor {
    RGBColor(color.r, color.g, color.b)
}

/// Converts a theme color into a terminal color, dropping its alpha channel.
pub fn to_rgb_color(color: Color) -> (rgb: RGBColor)
    ensures
        rgb == rgb_of(color),
{
    RGBColor(color.r, color.g, color.b)
}

/// The color that a theme setting resolves to: the setting's color when the
/// theme has one, and the given fallback otherwise.
pub open spec fn resolve_setting(setting: Option<Color>, fallback: RGBColor) -> RGBColor {
    match setting {
        Some(color) => rgb_of(color),
        None => fallback,
    }
}

/// White.
pub open spec fn white() -> RGBColor {
    RGBColor(255, 255, 255)
}

/// The theme's text color, white by default.
pub open spec fn spec_theme_foreground(theme: Theme) -> RGBColor {
    resolve_setting(theme.settings.foreground, white())
}

/// The theme's background color, black by default.
pub open spec fn spec_theme_background(theme: Theme) -> RGBColor {
    resolve_setting(theme.settings.background, RGBColor(0, 0, 0))
}

/// The theme's focused-line background, dark grey by default.
pub open spec fn spec_theme_line_highlight(theme: Theme) -> RGBColor {
    resolve_setting(theme.settings.line_highlight, RGBColor(55, 55, 55))
}

fn resolve(setting: Option<Color>, fallback: RGBColor) -> (rgb: RGBColor)
    ensures
        rgb == resolve_setting(setting, fallback),
{
    match setting {
        Some(color) => to_rgb_color(color),
        None => fallback,
    }
}

/// The theme's text color; white where the theme sets none.
pub fn theme_foreground(theme: &Theme) -> (rgb: RGBColor)
    ensures
        rgb == spec_theme_foreground(*theme),
{
    resolve(theme.settings.foreground, RGBColor(255, 255, 255))
}

/// The theme's background color; black where the theme sets none.
pub fn theme_background(theme: &Theme) -> (rgb: RGBColor)
    ensures
        rgb == spec_theme_background(*theme),
{
    resolve(theme.settings.background, RGBColor(0, 0, 0))
}

/// The theme's focused-line background; dark grey where the theme sets none.
pub fn theme_line_highlight(theme: &Theme) -> (rgb: RGBColor)
    ensures
        rgb == spec_theme_line_highlight(*theme),
{
    resolve(theme.settings.line_highlight, RGBColor(55, 55, 55))
}

/// How a color combination resolves, given the theme's foreground `fg`,
/// background `bg` and focused background `focused_bg`. With a transparent
/// background, combinations on the default background keep the terminal's
/// own background.
pub open spec fn resolved_colors(
    colors: Colors,
    transparent_background: bool,
    fg: RGBColor,
    bg: RGBColor,
    focused_bg: RGBColor,
) -> Colors {
    match colors {
        Colors::Default => if transparent_background {
            Colors::CustomForeground(fg)
        } else {
            Colors::Custom(fg, bg)
        },
        Colors::Focused => Colors::Custom(fg, focused_bg),
        Colors::Inverted => Colors::Custom(bg, fg),
        Colors::Insert => Colors::Custom(white(), RGBColor(0, 180, 0)),
        Colors::Warning => Colors::Custom(white(), RGBColor(240, 140, 20)),
        Colors::PinnedQuery => Colors::Custom(white(), RGBColor(0, 120, 160)),
        Colors::PasteMode => Colors::Custom(white(), RGBColor(120, 0, 120)),
        Colors::PathMode => Colors::Custom(white(), RGBColor(255, 20, 147)),
        Colors::SearchMode => Colors::Custom(white(), RGBColor(120, 0, 120)),
        Colors::SelectMode => Colors::Custom(white(), RGBColor(0, 120, 160)),
        Colors::CustomForeground(custom_fg) => if transparent_background {
            Colors::CustomForeground(custom_fg)
        } else {
            Colors::Custom(custom_fg, bg)
        },
        Colors::CustomFocusedForeground(custom_fg) => Colors::Custom(custom_fg, focused_bg),
        Colors::Custom(custom_fg, custom_bg) => Colors::Custom(custom_fg, custom_bg),
    }
}

/// What a theme resolves a color combination to.
pub open spec fn spec_map_colors(theme: Theme, colors: Colors, transparent_background: bool) -> Colors {
    resolved_colors(
        colors,
        transparent_background,
        spec_theme_foreground(theme),
        spec_theme_background(theme),
        spec_theme_line_highlight(theme),
    )
}

/// A resolved combination names its colors outright: it is a custom pair, or,
/// with a transparent background only, a custom foreground.
pub open spec fn is_resolved(colors: Colors, transparent_background: bool) -> bool {
    ||| colors is Custom
    ||| (transparent_background && colors is CustomForeground)
}

/// Resolves generic color combinations into concrete ones.
pub trait ColorMap {
    fn map_colors(&self, colors: Colors, transparent_background: bool) -> Colors;
}

impl ColorMap for Theme {
    fn map_colors(&self, colors: Colors, transparent_background: bool) -> (mapped: Colors)
        ensures
            mapped == spec_map_colors(*self, colors, transparent_background),
    {
        let fg = theme_foreground(self);
        let bg = theme_background(self);
        // The focused surface is theme-defined and resolved here, not by callers.
        let focused_bg = theme_line_highlight(self);
        let white = RGBColor(255, 255, 255);

        match colors {
            Colors::Default => {
                if transparent_background {
                    Colors::CustomForeground(fg)
                } else {
                    Colors::Custom(fg, bg)
                }
            },
            Colors::Focused => Colors::Custom(fg, focused_bg),
            Colors::Inverted => Colors::Custom(bg, fg),
            Colors::Insert => Colors::Custom(white, RGBColor(0, 180, 0)),
            Colors::Warning => Colors::Custom(white, RGBColor(240, 140, 20)),
            Colors::PinnedQuery => Colors::Custom(white, RGBColor(0, 120, 160)),
            Colors::PasteMode => Colors::Custom(white, RGBColor(120, 0, 120)),
            Colors::PathMode => Colors::Custom(white, RGBColor(255, 20, 147)),
            Colors::SearchMode => Colors::Custom(white, RGBColor(120, 0, 120)),
            Colors::SelectMode => Colors::Custom(white, RGBColor(0, 120, 160)),
            Colors::CustomForeground(custom_fg) => {
                if transparent_background {
                    Colors::CustomForeground(custom_fg)
                } else {
                    Colors::Custom(custom_fg, bg)
                }
            },
            Colors::CustomFocusedForeground(custom_fg) => Colors::Custom(custom_fg, focused_bg),
            Colors::Custom(custom_fg, custom_bg) => Colors::Custom(custom_fg, custom_bg),
        }
    }
}

/// Every combination a theme maps to is resolved, and without a transparent
/// background it is always a custom foreground/background pair.
pub proof fn lemma_mapped_colors_are_resolved(
    theme: Theme,
    colors: Colors,
    transparent_background: bool,
)
    ensures
        is_resolved(spec_map_colors(theme, colors, transparent_background), transparent_background),
        !transparent_background ==> spec_map_colors(theme, colors, transparent_background) is Custom,
{
}

/// Mapping is idempotent: mapping an already mapped combination again, with
/// the same theme and transparency, changes nothing.
pub proof fn lemma_map_colors_idempotent(theme: Theme, colors: Colors, transparent_background: bool)
    ensures
        spec_map_colors(
            theme,
            spec_map_colors(theme, colors, transparent_background),
            transparent_background,
        ) == spec_map_colors(theme, colors, transparent_background),
{
}

/// Fully resolved combinations are left as they are, whatever the theme.
pub proof fn lemma_custom_colors_are_preserved(
    theme: Theme,
    fg: RGBColor,
    bg: RGBColor,
    transparent_background: bool,
)
    ensures
        spec_map_colors(theme, Colors::Custom(fg, bg), transparent_background) == Colors::Custom(
            fg,
            bg,
        ),
{
}

/// A transparent background only affects combinations drawn on the default
/// background: every other combination maps the same either way.
pub proof fn lemma_transparency_only_affects_default_background(theme: Theme, colors: Colors)
    requires
        !(colors is Default),
        !(colors is CustomForeground),
    ensures
        spec_map_colors(theme, colors, true) == spec_map_colors(theme, colors, false),
{
}

} // verus!
