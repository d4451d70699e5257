use std::collections::HashMap;

use theme_resolver::color::Rgb;
use theme_resolver::theme::{Mode, Theme};

#[test]
fn dark_palette_colors_match_hex_constants() {
    let dark = Theme::Dark.palette();
    assert_eq!(dark.base.background, Rgb::from_hex(0x111111));
    assert_eq!(dark.base.foreground, Rgb::from_hex(0x1C1C1C));
    assert_eq!(dark.normal.primary, Rgb::from_hex(0x5E4266));
    assert_eq!(dark.normal.secondary, Rgb::from_hex(0x386E50));
    assert_eq!(dark.normal.surface, Rgb::from_hex(0x828282));
    assert_eq!(dark.normal.error, Rgb::from_hex(0x992B2B));
    assert_eq!(dark.bright.primary, Rgb::from_hex(0xBA84FC));
    assert_eq!(dark.bright.secondary, Rgb::from_hex(0x49EB7A));
    assert_eq!(dark.bright.surface, Rgb::from_hex(0xE0E0E0));
    assert_eq!(dark.bright.error, Rgb::from_hex(0xC13047));
}

#[test]
fn light_palette_colors_match_hex_constants() {
    let light = Theme::Light.palette();
    assert_eq!(light.base.background, Rgb::from_hex(0xEEEEEE));
    assert_eq!(light.base.foreground, Rgb::from_hex(0xE0E0E0));
    assert_eq!(light.normal.primary, Rgb::from_hex(0x818181));
    assert_eq!(light.normal.secondary, Rgb::from_hex(0xF9D659));
    assert_eq!(light.normal.surface, Rgb::from_hex(0x818181));
    assert_eq!(light.normal.error, Rgb::from_hex(0x992B2B));
    assert_eq!(light.bright.primary, Rgb::from_hex(0x673AB7));
    assert_eq!(light.bright.secondary, Rgb::from_hex(0x3797A4));
    assert_eq!(light.bright.surface, Rgb::from_hex(0x000000));
    assert_eq!(light.bright.error, Rgb::from_hex(0xC13047));
}

#[test]
fn lupin_palette_colors_match_hex_constants() {
    let lupin = Theme::Lupin.palette();
    assert_eq!(lupin.base.background, Rgb::from_hex(0x282A36));
    assert_eq!(lupin.base.foreground, Rgb::from_hex(0x353746));
    assert_eq!(lupin.normal.primary, Rgb::from_hex(0x58406F));
    assert_eq!(lupin.normal.secondary, Rgb::from_hex(0x386E50));
    assert_eq!(lupin.normal.surface, Rgb::from_hex(0xA2A4A3));
    assert_eq!(lupin.normal.error, Rgb::from_hex(0xA13034));
    assert_eq!(lupin.bright.primary, Rgb::from_hex(0xBD94F9));
    assert_eq!(lupin.bright.secondary, Rgb::from_hex(0x49EB7A));
    assert_eq!(lupin.bright.surface, Rgb::from_hex(0xF4F8F3));
    assert_eq!(lupin.bright.error, Rgb::from_hex(0xE63E6D));
}

#[test]
fn from_hex_splits_the_three_channels() {
    assert_eq!(
        Rgb::from_hex(0xC13047),
        Rgb { red: 0xC1, green: 0x30, blue: 0x47 }
    );
    assert_eq!(Rgb::from_hex(0x000000), Rgb { red: 0, green: 0, blue: 0 });
    assert_eq!(
        Rgb::from_hex(0xFFFFFF),
        Rgb { red: 0xFF, green: 0xFF, blue: 0xFF }
    );
}

#[test]
fn display_labels() {
    assert_eq!(Theme::Dark.display_label(), "Dark");
    assert_eq!(Theme::Light.display_label(), "Light");
    assert_eq!(Theme::Lupin.display_label(), "Lupin");
    assert_eq!(Theme::Auto.display_label(), "Auto (follow system theme)");
}

#[test]
fn all_variants_order_length_no_duplicates() {
    let all = Theme::all_variants();
    assert_eq!(all, vec![Theme::Auto, Theme::Lupin, Theme::Dark, Theme::Light]);
    assert_eq!(all.len(), 4);
    for i in 0..all.len() {
        for j in 0..all.len() {
            if i != j {
                assert_ne!(all[i], all[j]);
            }
        }
    }
}

#[test]
fn default_theme_is_auto() {
    assert_eq!(Theme::default(), Theme::Auto);
}

#[test]
fn auto_follows_the_reported_mode() {
    assert_eq!(
        Theme::Auto.palette_with(Mode::Light),
        Theme::Light.palette_with(Mode::Light)
    );
    assert_eq!(
        Theme::Auto.palette_with(Mode::Dark),
        Theme::Dark.palette_with(Mode::Dark)
    );
    assert_eq!(
        Theme::Auto.palette_with(Mode::Unspecified),
        Theme::Dark.palette_with(Mode::Unspecified)
    );
}

#[test]
fn auto_never_resolves_to_lupin() {
    let lupin = Theme::Lupin.palette();
    for mode in [Mode::Dark, Mode::Light, Mode::Unspecified] {
        assert_ne!(Theme::Auto.palette_with(mode), lupin);
    }
    let live = Theme::Auto.palette();
    assert_ne!(live, lupin);
    assert!(live == Theme::Dark.palette() || live == Theme::Light.palette());
}

#[test]
fn fixed_themes_ignore_the_reported_mode() {
    for mode in [Mode::Dark, Mode::Light, Mode::Unspecified] {
        assert_eq!(Theme::Dark.palette_with(mode), Theme::Dark.palette());
        assert_eq!(Theme::Light.palette_with(mode), Theme::Light.palette());
        assert_eq!(Theme::Lupin.palette_with(mode), Theme::Lupin.palette());
    }
}

#[test]
fn equality_and_hashing_are_consistent() {
    assert_eq!(Theme::Dark, Theme::Dark);
    assert_eq!(Theme::Auto, Theme::Auto);
    assert_ne!(Theme::Auto, Theme::Lupin);
    assert_ne!(Theme::Dark, Theme::Light);

    let mut table: HashMap<Theme, &'static str> = HashMap::new();
    for theme in Theme::all_variants() {
        table.insert(theme, theme.display_label());
    }
    assert_eq!(table.len(), 4);
    assert_eq!(table[&Theme::Lupin], "Lupin");
    assert_eq!(table[&Theme::Auto], "Auto (follow system theme)");
}

#[test]
fn repeated_resolution_is_idempotent() {
    for theme in Theme::all_variants() {
        for mode in [Mode::Dark, Mode::Light, Mode::Unspecified] {
            assert_eq!(theme.palette_with(mode), theme.palette_with(mode));
        }
    }
    assert_eq!(Theme::Dark.palette(), Theme::Dark.palette());
    assert_eq!(Theme::Lupin.palette(), Theme::Lupin.palette());
}
