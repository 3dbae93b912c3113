use dwm_decorator::color::{color_to_color_ref, option_color_to_color_ref, Rgba8};
use dwm_decorator::configuration::{
    parse_colors, BorderRadius, ColorScheme, ConfigFields, DecodedConfig, ParsedColors, RawConfig,
};
use dwm_decorator::hotkey::{choose_binding, decode_hotkey, HotkeyBinding, KeypadDigit, CTRL_MODIFIER_BITS};

fn readme_fields() -> ConfigFields {
    let mut f = ConfigFields::empty();
    f.force_color_scheme = Some("NoChange".to_string());
    f.force_border_radius = Some("NoChange".to_string());
    f.active_border_color = Some("#00aaff".to_string());
    f.active_topmost_border_color = Some("#ffba00".to_string());
    f.inactive_border_color = Some("#808080".to_string());
    f.inactive_topmost_border_color = Some("#775500".to_string());
    f.key_toggle_topmost = Some("Ctrl+Keypad0".to_string());
    f.key_increase_transparency = Some("Ctrl+Keypad2".to_string());
    f.key_decrease_transparency = Some("Ctrl+Keypad8".to_string());
    f
}

fn rgba(r: u8, g: u8, b: u8, a: u8) -> Rgba8 {
    Rgba8 { r, g, b, a }
}

#[test]
fn color_ref_packs_bgr() {
    assert_eq!(color_to_color_ref(rgba(0x00, 0xaa, 0xff, 0xff)), 0x00ffaa00);
    assert_eq!(color_to_color_ref(rgba(0x12, 0x34, 0x56, 0x00)), 0x00563412);
    assert_eq!(color_to_color_ref(rgba(0xff, 0xff, 0xff, 0xff)), 0x00ffffff);
    assert_eq!(color_to_color_ref(rgba(0, 0, 0, 0)), 0);
}

#[test]
fn color_ref_channels_read_back() {
    let c = color_to_color_ref(rgba(0x9a, 0xbc, 0xde, 0x7f));
    assert_eq!(c & 0xff, 0x9a);
    assert_eq!((c >> 8) & 0xff, 0xbc);
    assert_eq!((c >> 16) & 0xff, 0xde);
    assert_eq!(c >> 24, 0);
}

#[test]
fn optional_color_ref() {
    assert_eq!(option_color_to_color_ref(None), None);
    assert_eq!(option_color_to_color_ref(Some(rgba(1, 2, 3, 4))), Some(0x00030201));
}

#[test]
fn scheme_and_radius_names_and_codes() {
    assert_eq!(ColorScheme::from_name("Dark"), Some(ColorScheme::Dark));
    assert_eq!(ColorScheme::from_name("Light"), Some(ColorScheme::Light));
    assert_eq!(ColorScheme::from_name("NoChange"), Some(ColorScheme::NoChange));
    assert_eq!(ColorScheme::from_name("dark"), None);
    assert_eq!(ColorScheme::from_name("Round"), None);
    assert_eq!(BorderRadius::from_name("Round"), Some(BorderRadius::Round));
    assert_eq!(BorderRadius::from_name("Rect"), Some(BorderRadius::Rect));
    assert_eq!(BorderRadius::from_name("NoChange"), Some(BorderRadius::NoChange));
    assert_eq!(BorderRadius::from_name(""), None);
    assert_eq!(ColorScheme::NoChange.code(), -1);
    assert_eq!(ColorScheme::Dark.code(), 1);
    assert_eq!(ColorScheme::Light.code(), 0);
    assert_eq!(BorderRadius::NoChange.code(), -1);
    assert_eq!(BorderRadius::Rect.code(), 1);
    assert_eq!(BorderRadius::Round.code(), 2);
    assert_eq!(ColorScheme::default(), ColorScheme::NoChange);
    assert_eq!(BorderRadius::default(), BorderRadius::NoChange);
}

#[test]
fn raw_default_matches_readme() {
    let raw = RawConfig::default();
    assert_eq!(raw.force_color_scheme, ColorScheme::NoChange);
    assert_eq!(raw.force_border_radius, BorderRadius::NoChange);
    assert_eq!(raw.active_border_color, rgba(0x00, 0xaa, 0xff, 0xff));
    assert_eq!(raw.active_topmost_border_color, rgba(0xff, 0xba, 0x00, 0xff));
    assert_eq!(raw.inactive_border_color, rgba(0x80, 0x80, 0x80, 0xff));
    assert_eq!(raw.inactive_topmost_border_color, rgba(0x77, 0x55, 0x00, 0xff));
    assert_eq!(raw.key_toggle_topmost, "Ctrl+Keypad0");
    assert_eq!(raw.key_increase_transparency, "Ctrl+Keypad2");
    assert_eq!(raw.key_decrease_transparency, "Ctrl+Keypad8");
    assert_eq!(raw.active_title_color, None);
    assert_eq!(raw.inactive_text_color, None);
}

#[test]
fn readme_file_decodes_to_defaults() {
    let raw = RawConfig::from_fields(&readme_fields()).expect("the documented file decodes");
    let d = RawConfig::default();
    assert_eq!(raw.active_border_color, d.active_border_color);
    assert_eq!(raw.active_topmost_border_color, d.active_topmost_border_color);
    assert_eq!(raw.inactive_border_color, d.inactive_border_color);
    assert_eq!(raw.inactive_topmost_border_color, d.inactive_topmost_border_color);
    assert_eq!(raw.key_toggle_topmost, d.key_toggle_topmost);
    assert_eq!(raw.active_text_color, None);
}

#[test]
fn css_forms_are_accepted() {
    let mut f = readme_fields();
    f.active_border_color = Some("rgb(255,0,0)".to_string());
    f.inactive_border_color = Some("blue".to_string());
    f.active_title_color = Some("#202020".to_string());
    f.inactive_text_color = Some("#c0c8cf".to_string());
    f.force_color_scheme = Some("Dark".to_string());
    f.force_border_radius = Some("Round".to_string());
    let raw = RawConfig::from_fields(&f).expect("decodes");
    assert_eq!(DecodedConfig::from(RawConfig::from_fields(&f).unwrap()).force_border_radius, 2);
    assert_eq!(raw.active_border_color, rgba(255, 0, 0, 255));
    assert_eq!(raw.inactive_border_color, rgba(0, 0, 255, 255));
    assert_eq!(raw.active_title_color, Some(rgba(0x20, 0x20, 0x20, 255)));
    assert_eq!(raw.inactive_text_color, Some(rgba(0xc0, 0xc8, 0xcf, 255)));
    assert_eq!(raw.inactive_title_color, None);
    assert_eq!(raw.force_color_scheme, ColorScheme::Dark);
    assert_eq!(raw.force_border_radius, BorderRadius::Round);
}

#[test]
fn bad_entries_are_refused() {
    let mut f = readme_fields();
    f.active_border_color = Some("not a color".to_string());
    assert!(RawConfig::from_fields(&f).is_none());

    let mut f = readme_fields();
    f.inactive_text_color = Some("#12".to_string());
    assert!(RawConfig::from_fields(&f).is_none());

    let mut f = readme_fields();
    f.key_decrease_transparency = None;
    assert!(RawConfig::from_fields(&f).is_none());

    let mut f = readme_fields();
    f.force_border_radius = Some("Circle".to_string());
    assert!(RawConfig::from_fields(&f).is_none());

    assert!(RawConfig::from_fields(&ConfigFields::empty()).is_none());
}

#[test]
fn hotkeys_decode_or_fall_back() {
    let b = decode_hotkey("Ctrl+Keypad0", KeypadDigit::Two);
    assert_eq!(b.modifiers, CTRL_MODIFIER_BITS);
    assert_eq!(b.key.as_deref(), Some("Keypad0"));

    let b = decode_hotkey("Alt+F4", KeypadDigit::Zero);
    assert_eq!(b.modifiers, 0x108);
    assert_eq!(b.key.as_deref(), Some("F4"));

    let b = decode_hotkey("ctrl+shift", KeypadDigit::Zero);
    assert_eq!(b.modifiers, 0x84 | 0x42);
    assert_eq!(b.key, None);

    let b = decode_hotkey("Ctrl+Nokey", KeypadDigit::Eight);
    assert_eq!(b.modifiers, 0x84);
    assert_eq!(b.key.as_deref(), Some("Keypad8"));

    let b = decode_hotkey("", KeypadDigit::Two);
    assert_eq!(b.modifiers, 0x84);
    assert_eq!(b.key.as_deref(), Some("Keypad2"));
}

#[test]
fn decoded_default_config() {
    let d = DecodedConfig::default();
    assert_eq!(d.force_color_scheme, -1);
    assert_eq!(d.force_border_radius, -1);
    assert_eq!(d.active_border_color, 0x00ffaa00);
    assert_eq!(d.active_topmost_border_color, 0x0000baff);
    assert_eq!(d.inactive_border_color, 0x00808080);
    assert_eq!(d.inactive_topmost_border_color, 0x00005577);
    assert_eq!(d.key_toggle_topmost.modifiers, 0x84);
    assert_eq!(d.key_toggle_topmost.key.as_deref(), Some("Keypad0"));
    assert_eq!(d.key_increase_transparency.key.as_deref(), Some("Keypad2"));
    assert_eq!(d.key_decrease_transparency.key.as_deref(), Some("Keypad8"));
    assert_eq!(d.active_title_color, None);
    assert_eq!(d.inactive_title_color, None);
    assert_eq!(d.active_text_color, None);
    assert_eq!(d.inactive_text_color, None);
}

#[test]
fn decoding_raw_settings() {
    let mut f = readme_fields();
    f.force_color_scheme = Some("Light".to_string());
    f.force_border_radius = Some("Rect".to_string());
    f.active_border_color = Some("#010203".to_string());
    f.key_toggle_topmost = Some("Win+T".to_string());
    f.key_increase_transparency = Some("Ctrl+Keypad9+Keypad1".to_string());
    f.inactive_title_color = Some("#0a0b0c".to_string());
    let d = DecodedConfig::from(RawConfig::from_fields(&f).unwrap());
    assert_eq!(d.force_color_scheme, 0);
    assert_eq!(d.force_border_radius, 1);
    assert_eq!(d.active_border_color, 0x00030201);
    assert_eq!(d.key_toggle_topmost.modifiers, 0x21);
    assert_eq!(d.key_toggle_topmost.key.as_deref(), Some("T"));
    assert_eq!(d.key_increase_transparency.modifiers, 0x84);
    assert_eq!(d.key_increase_transparency.key.as_deref(), Some("Keypad2"));
    assert_eq!(d.inactive_title_color, Some(0x000c0b0a));
}

#[test]
fn unreadable_file_gives_defaults() {
    let (d, decoded) = DecodedConfig::from_fields(&ConfigFields::empty());
    assert!(!decoded);
    assert_eq!(d.active_border_color, 0x00ffaa00);
    assert_eq!(d.inactive_topmost_border_color, 0x00005577);
    assert_eq!(d.force_color_scheme, -1);

    let mut f = readme_fields();
    f.force_color_scheme = Some("Dark".to_string());
    f.active_border_color = Some("bogus".to_string());
    let (d, decoded) = DecodedConfig::from_fields(&f);
    assert!(!decoded);
    assert_eq!(d.force_color_scheme, -1);
    assert_eq!(d.active_border_color, 0x00ffaa00);

    let mut f = readme_fields();
    f.force_color_scheme = Some("Dark".to_string());
    let (d, decoded) = DecodedConfig::from_fields(&f);
    assert!(decoded);
    assert_eq!(d.force_color_scheme, 1);
}

fn all_parsed(c: Rgba8) -> ParsedColors {
    ParsedColors {
        active_border_color: Some(c),
        active_topmost_border_color: Some(c),
        inactive_border_color: Some(c),
        inactive_topmost_border_color: Some(c),
        active_title_color: None,
        inactive_title_color: None,
        active_text_color: None,
        inactive_text_color: None,
    }
}

#[test]
fn entries_with_given_colors() {
    let c = rgba(1, 2, 3, 4);
    let raw = RawConfig::from_entries(&readme_fields(), all_parsed(c)).expect("decodes");
    assert_eq!(raw.active_border_color, c);
    assert_eq!(raw.inactive_topmost_border_color, c);
    assert_eq!(raw.active_title_color, None);

    // A present optional entry that did not parse spoils the whole file.
    let mut f = readme_fields();
    f.active_text_color = Some("whatever".to_string());
    assert!(RawConfig::from_entries(&f, all_parsed(c)).is_none());
    let mut colors = all_parsed(c);
    colors.active_text_color = Some(rgba(9, 9, 9, 9));
    let raw = RawConfig::from_entries(&f, colors).expect("decodes");
    assert_eq!(raw.active_text_color, Some(rgba(9, 9, 9, 9)));

    // An absent required color does not decode, whatever the parser gave.
    let mut f = readme_fields();
    f.inactive_border_color = None;
    assert!(RawConfig::from_entries(&f, all_parsed(c)).is_none());

    // A required color that did not parse does not decode.
    let mut colors = all_parsed(c);
    colors.active_topmost_border_color = None;
    assert!(RawConfig::from_entries(&readme_fields(), colors).is_none());
}

#[test]
fn parse_colors_reads_each_entry() {
    let mut f = readme_fields();
    f.inactive_title_color = Some("#0000ff".to_string());
    f.active_text_color = Some("nonsense".to_string());
    let c = parse_colors(&f);
    assert_eq!(c.active_border_color, Some(rgba(0x00, 0xaa, 0xff, 0xff)));
    assert_eq!(c.inactive_topmost_border_color, Some(rgba(0x77, 0x55, 0x00, 0xff)));
    assert_eq!(c.active_title_color, None);
    assert_eq!(c.inactive_title_color, Some(rgba(0, 0, 0xff, 0xff)));
    assert_eq!(c.active_text_color, None);
}

#[test]
fn choosing_a_binding() {
    let b = choose_binding(
        Some(HotkeyBinding { modifiers: 0x2, key: Some("Space".to_string()) }),
        KeypadDigit::Zero,
    );
    assert_eq!(b.modifiers, 0x2);
    assert_eq!(b.key.as_deref(), Some("Space"));
    let b = choose_binding(None, KeypadDigit::Two);
    assert_eq!(b.modifiers, CTRL_MODIFIER_BITS);
    assert_eq!(b.key.as_deref(), Some("Keypad2"));
}

#[test]
fn refused_hotkey_texts() {
    let r = RawConfig::default().refused_hotkeys();
    assert!(!r.toggle_topmost && !r.increase_transparency && !r.decrease_transparency);
    let mut f = readme_fields();
    f.key_toggle_topmost = Some("Ctrl+Nokey".to_string());
    f.key_decrease_transparency = Some("A+B".to_string());
    let r = RawConfig::from_fields(&f).unwrap().refused_hotkeys();
    assert!(r.toggle_topmost);
    assert!(!r.increase_transparency);
    assert!(r.decrease_transparency);
}
