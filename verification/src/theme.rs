//! The theme resolver: the closed set of theme identifiers, the fixed palette
//! each one maps to, resolution of the automatic theme through the operating
//! system's light/dark preference, and a display label per identifier.

use vstd::prelude::*;

use crate::color::Rgb;
use crate::color::spec_rgb;

verus! {

/// Color scheme chosen by the user.
#[derive(Clone, Copy, Debug, PartialEq, Eq, Hash, Structural)]
pub enum Theme {
    /// `Dark` or `Light`, following the operating system's preference.
    Auto,
    /// Dark-ish and purple.
    Lupin,
    /// White on black.
    Dark,
    /// Black on white.
    Light,
}

/// What the operating system reports of its current light/dark preference:
/// light mode, dark mode, or no signal at all.
#[derive(Clone, Copy, Debug, PartialEq, Eq, Structural)]
pub enum Mode {
    Dark,
    Light,
    Unspecified,
}

/// The background/foreground pair of a palette.
#[derive(Clone, Copy, Debug, PartialEq, Eq, Structural)]
pub struct BaseColors {
    pub background: Rgb,
    pub foreground: Rgb,
}

/// The muted accent colors of a palette. `secondary` has no consumer today
/// but stays for palette completeness.
#[derive(Clone, Copy, Debug, PartialEq, Eq, Structural)]
pub struct NormalColors {
    pub primary: Rgb,
    pub secondary: Rgb,
    pub surface: Rgb,
    pub error: Rgb,
}

/// The vivid accent colors of a palette.
#[derive(Clone, Copy, Debug, PartialEq, Eq, Structural)]
pub struct BrightColors {
    pub primary: Rgb,
    pub secondary: Rgb,
    pub surface: Rgb,
    pub error: Rgb,
}

/// The full structured set of colors associated with one theme.
#[derive(Clone, Copy, Debug, PartialEq, Eq, Structural)]
pub struct ColorPalette {
    pub base: BaseColors,
    pub normal: NormalColors,
    pub bright: BrightColors,
}

/// The palette of the `Dark` theme.
pub open spec fn dark_palette() -> ColorPalette {
    ColorPalette {
        base: BaseColors {
            background: spec_rgb(0x111111),
            foreground: spec_rgb(0x1C1C1C),
        },
        normal: NormalColors {
            primary: spec_rgb(0x5E4266),
            secondary: spec_rgb(0x386E50),
            surface: spec_rgb(0x828282),
            error: spec_rgb(0x992B2B),
        },
        bright: BrightColors {
            primary: spec_rgb(0xBA84FC),
            secondary: spec_rgb(0x49EB7A),
            surface: spec_rgb(0xE0E0E0),
            error: spec_rgb(0xC13047),
        },
    }
}

/// The palette of the `Light` theme.
pub open spec fn light_palette() -> ColorPalette {
    ColorPalette {
        base: BaseColors {
            background: spec_rgb(0xEEEEEE),
            foreground: spec_rgb(0xE0E0E0),
        },
        normal: NormalColors {
            primary: spec_rgb(0x818181),
            secondary: spec_rgb(0xF9D659),
            surface: spec_rgb(0x818181),
            error: spec_rgb(0x992B2B),
        },
        bright: BrightColors {
            primary: spec_rgb(0x673AB7),
            secondary: spec_rgb(0x3797A4),
            surface: spec_rgb(0x000000),
            error: spec_rgb(0xC13047),
        },
    }
}

/// The palette of the `Lupin` theme.
pub open spec fn lupin_palette() -> ColorPalette {
    ColorPalette {
        base: BaseColors {
            background: spec_rgb(0x282A36),
            foreground: spec_rgb(0x353746),
        },
        normal: NormalColors {
            primary: spec_rgb(0x58406F),
            secondary: spec_rgb(0x386E50),
            surface: spec_rgb(0xA2A4A3),
            error: spec_rgb(0xA13034),
        },
        bright: BrightColors {
            primary: spec_rgb(0xBD94F9),
            secondary: spec_rgb(0x49EB7A),
            surface: spec_rgb(0xF4F8F3),
            error: spec_rgb(0xE63E6D),
        },
    }
}

/// The palette a theme resolves to when the operating system reports `mode`.
/// Only `Auto` looks at `mode`: a `Light` report gives the light palette, a
/// `Dark` or indeterminate report gives the dark one (the fallback-to-dark
/// policy is intentional).
pub open spec fn palette_of(theme: Theme, mode: Mode) -> ColorPalette {
    match theme {
        Theme::Dark => dark_palette(),
        Theme::Light => light_palette(),
        Theme::Lupin => lupin_palette(),
        Theme::Auto => match mode {
            Mode::Light => light_palette(),
            Mode::Dark => dark_palette(),
            Mode::Unspecified => dark_palette(),
        },
    }
}

fn build_dark_palette() -> (p: ColorPalette)
    ensures
        p == dark_palette(),
{
    ColorPalette {
        base: BaseColors {
            background: Rgb::from_hex(0x111111),
            foreground: Rgb::from_hex(0x1C1C1C),
        },
        normal: NormalColors {
            primary: Rgb::from_hex(0x5E4266),
            secondary: Rgb::from_hex(0x386E50),
            surface: Rgb::from_hex(0x828282),
            error: Rgb::from_hex(0x992B2B),
        },
        bright: BrightColors {
            primary: Rgb::from_hex(0xBA84FC),
            secondary: Rgb::from_hex(0x49EB7A),
            surface: Rgb::from_hex(0xE0E0E0),
            error: Rgb::from_hex(0xC13047),
        },
    }
}

fn build_light_palette() -> (p: ColorPalette)
    ensures
        p == light_palette(),
{
    ColorPalette {
        base: BaseColors {
            background: Rgb::from_hex(0xEEEEEE),
            foreground: Rgb::from_hex(0xE0E0E0),
        },
        normal: NormalColors {
            primary: Rgb::from_hex(0x818181),
            secondary: Rgb::from_hex(0xF9D659),
            surface: Rgb::from_hex(0x818181),
            error: Rgb::from_hex(0x992B2B),
        },
        bright: BrightColors {
            primary: Rgb::from_hex(0x673AB7),
            secondary: Rgb::from_hex(0x3797A4),
            surface: Rgb::from_hex(0x000000),
            error: Rgb::from_hex(0xC13047),
        },
    }
}

fn build_lupin_palette() -> (p: ColorPalette)
    ensures
        p == lupin_palette(),
{
    ColorPalette {
        base: BaseColors {
            background: Rgb::from_hex(0x282A36),
            foreground: Rgb::from_hex(0x353746),
        },
        normal: NormalColors {
            primary: Rgb::from_hex(0x58406F),
            secondary: Rgb::from_hex(0x386E50),
            surface: Rgb::from_hex(0xA2A4A3),
            error: Rgb::from_hex(0xA13034),
        },
        bright: BrightColors {
            primary: Rgb::from_hex(0xBD94F9),
            secondary: Rgb::from_hex(0x49EB7A),
            surface: Rgb::from_hex(0xF4F8F3),
            error: Rgb::from_hex(0xE63E6D),
        },
    }
}

/// Relies on `dark_light::detect`: it reports the operating system's current
/// light/dark preference and falls back to an indeterminate answer when no
/// signal is available; it never fails. Nothing more is promised of the
/// result: it depends on the machine's state at the time of the call.
#[verifier::external_body]
fn detect_os_mode() -> Mode {
    match dark_light::detect() {
        dark_light::Mode::Dark => Mode::Dark,
        dark_light::Mode::Light => Mode::Light,
        dark_light::Mode::Default => Mode::Unspecified,
    }
}

impl Theme {
    /// The palette of this theme under the given report of the operating
    /// system's preference. This is the whole resolution policy as a pure
    /// function; `palette` supplies the live report.
    pub fn palette_with(self, mode: Mode) -> (p: ColorPalette)
        ensures
            p == palette_of(self, mode),
    {
        match self {
            Theme::Dark => build_dark_palette(),
            Theme::Light => build_light_palette(),
            Theme::Lupin => build_lupin_palette(),
            Theme::Auto => match mode {
                Mode::Light => build_light_palette(),
                Mode::Dark => build_dark_palette(),
                Mode::Unspecified => build_dark_palette(),
            },
        }
    }

    /// The palette of this theme. `Dark`, `Light` and `Lupin` map to their
    /// fixed palettes; `Auto` queries the operating system's preference anew
    /// on each call and resolves to the dark or the light palette, never to
    /// another one.
    pub fn palette(self) -> (p: ColorPalette)
        ensures
            self == Theme::Dark ==> p == dark_palette(),
            self == Theme::Light ==> p == light_palette(),
            self == Theme::Lupin ==> p == lupin_palette(),
            self == Theme::Auto ==> p == dark_palette() || p == light_palette(),
    {
        match self {
            Theme::Auto => {
                let mode = detect_os_mode();
                self.palette_with(mode)
            },
            _ => self.palette_with(Mode::Unspecified),
        }
    }

    /// The label under which this theme is shown in a settings UI.
    pub fn display_label(self) -> (label: &'static str)
        ensures
            label@ == spec_display_label(self),
    {
        match self {
            Theme::Dark => "Dark",
            Theme::Light => "Light",
            Theme::Lupin => "Lupin",
            Theme::Auto => "Auto (follow system theme)",
        }
    }

    /// Every theme variant, in the order a selector UI presents them:
    /// `Auto` first, then the distinctive custom theme, then the two plain
    /// ones. The order is significant and is not declaration order.
    pub fn all_variants() -> (v: Vec<Theme>)
        ensures
            v@ == spec_all_variants(),
    {
        let v: Vec<Theme> = vec![Theme::Auto, Theme::Lupin, Theme::Dark, Theme::Light];
        proof {
            assert(v@ =~= spec_all_variants());
        }
        v
    }
}

/// The label of each theme variant, as a sequence of characters.
pub open spec fn spec_display_label(theme: Theme) -> Seq<char> {
    match theme {
        Theme::Dark => "Dark"@,
        Theme::Light => "Light"@,
        Theme::Lupin => "Lupin"@,
        Theme::Auto => "Auto (follow system theme)"@,
    }
}

/// The fixed order in which the theme variants are presented.
pub open spec fn spec_all_variants() -> Seq<Theme> {
    seq![Theme::Auto, Theme::Lupin, Theme::Dark, Theme::Light]
}

/// The variant list is complete and duplicate-free: it has one entry per
/// theme variant, every variant appears in it, and no two entries are equal.
pub proof fn lemma_all_variants_complete_and_distinct()
    ensures
        spec_all_variants().len() == 4,
        forall|t: Theme| spec_all_variants().contains(t),
        forall|i: int, j: int|
            0 <= i < j < spec_all_variants().len() ==> spec_all_variants()[i]
                != spec_all_variants()[j],
{
    assert forall|t: Theme| spec_all_variants().contains(t) by {
        match t {
            Theme::Auto => assert(spec_all_variants()[0] == t),
            Theme::Lupin => assert(spec_all_variants()[1] == t),
            Theme::Dark => assert(spec_all_variants()[2] == t),
            Theme::Light => assert(spec_all_variants()[3] == t),
        }
    }
}

/// The automatic theme follows the operating system: a `Light` report
/// resolves it to the same palette as the `Light` theme, and a `Dark` or
/// indeterminate report to the same palette as the `Dark` theme.
pub proof fn lemma_auto_follows_os(mode: Mode)
    ensures
        mode == Mode::Light ==> palette_of(Theme::Auto, mode) == palette_of(Theme::Light, mode),
        mode != Mode::Light ==> palette_of(Theme::Auto, mode) == palette_of(Theme::Dark, mode),
{
}

/// The automatic theme never resolves to the `Lupin` palette, whatever the
/// operating system reports.
pub proof fn lemma_auto_never_lupin(mode: Mode)
    ensures
        palette_of(Theme::Auto, mode) != lupin_palette(),
{
    assert(dark_palette().base.background.red == 0x11);
    assert(light_palette().base.background.red == 0xEE);
    assert(lupin_palette().base.background.red == 0x28);
}

/// Theme equality is consistent: it is reflexive, symmetric, and the four
/// variants are pairwise distinct, so the enumeration can serve as a lookup
/// key without collision.
pub proof fn lemma_theme_equality_consistent(a: Theme, b: Theme)
    ensures
        a == a,
        a == b ==> b == a,
        Theme::Auto != Theme::Lupin,
        Theme::Auto != Theme::Dark,
        Theme::Auto != Theme::Light,
        Theme::Lupin != Theme::Dark,
        Theme::Lupin != Theme::Light,
        Theme::Dark != Theme::Light,
{
}

/// Palette resolution is a pure function of the theme and of the reported
/// preference: the same theme under the same report always resolves to the
/// same palette.
pub proof fn lemma_palette_idempotent(theme: Theme, first: Mode, second: Mode)
    requires
        first == second,
    ensures
        palette_of(theme, first) == palette_of(theme, second),
{
}

impl Default for Theme {
    /// The default theme follows the operating system.
    fn default() -> (t: Theme)
        ensures
            t == Theme::Auto,
    {
        Theme::Auto
    }
}

} // verus!
