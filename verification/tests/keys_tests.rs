use dwm_decorator::configuration::{ConfigFields, DecodedConfig, RawConfig};
use dwm_decorator::keys::{
    adjust_counter, hotkey_table, key_event_effect, next_press_duration, KeyAction, KeyEffect, MAX_PRESS_DURATION,
};

#[test]
fn action_names() {
    assert_eq!(KeyAction::Topmost.name(), "Topmost");
    assert_eq!(KeyAction::IncreaseTransparency.name(), "IncreaseTransparency");
    assert_eq!(KeyAction::DecreaseTransparency.name(), "DecreaseTransparency");
}

#[test]
fn key_effects() {
    assert_eq!(key_event_effect(KeyAction::Topmost, true), KeyEffect::ToggleTopmost);
    assert_eq!(key_event_effect(KeyAction::Topmost, false), KeyEffect::Nothing);
    assert_eq!(key_event_effect(KeyAction::DecreaseTransparency, true), KeyEffect::AdjustTransparency(1));
    assert_eq!(key_event_effect(KeyAction::DecreaseTransparency, false), KeyEffect::AdjustTransparency(-1));
    assert_eq!(key_event_effect(KeyAction::IncreaseTransparency, true), KeyEffect::AdjustTransparency(-1));
    assert_eq!(key_event_effect(KeyAction::IncreaseTransparency, false), KeyEffect::AdjustTransparency(1));
}

#[test]
fn press_then_release_restores_counter() {
    for action in [KeyAction::IncreaseTransparency, KeyAction::DecreaseTransparency] {
        for start in [0, 3, -2, i32::MAX, i32::MIN] {
            let mut c = start;
            for pressed in [true, false] {
                if let KeyEffect::AdjustTransparency(d) = key_event_effect(action, pressed) {
                    c = adjust_counter(c, d);
                }
            }
            assert_eq!(c, start);
        }
    }
}

#[test]
fn counter_wraps_like_atomic_add() {
    assert_eq!(adjust_counter(i32::MAX, 1), i32::MIN);
    assert_eq!(adjust_counter(i32::MIN, -1), i32::MAX);
    assert_eq!(adjust_counter(4, -1), 3);
}

#[test]
fn press_duration_counts_up_to_limit_and_resets() {
    assert_eq!(next_press_duration(0, 1), 1);
    assert_eq!(next_press_duration(41, -1), 42);
    assert_eq!(next_press_duration(999, 2), 1000);
    assert_eq!(next_press_duration(MAX_PRESS_DURATION, 1), MAX_PRESS_DURATION);
    assert_eq!(next_press_duration(500, 0), 0);
    assert_eq!(next_press_duration(-5, 1), 0);
}

#[test]
fn hotkey_table_follows_settings() {
    let table = hotkey_table(&DecodedConfig::default());
    assert_eq!(table.len(), 3);
    assert_eq!(table[0].0, KeyAction::Topmost);
    assert_eq!(table[0].1.key.as_deref(), Some("Keypad0"));
    assert_eq!(table[1].0, KeyAction::IncreaseTransparency);
    assert_eq!(table[1].1.key.as_deref(), Some("Keypad2"));
    assert_eq!(table[2].0, KeyAction::DecreaseTransparency);
    assert_eq!(table[2].1.key.as_deref(), Some("Keypad8"));
    assert_eq!(table[2].1.modifiers, 0x84);

    let mut f = ConfigFields::empty();
    f.force_color_scheme = Some("NoChange".to_string());
    f.force_border_radius = Some("NoChange".to_string());
    f.active_border_color = Some("#000001".to_string());
    f.active_topmost_border_color = Some("#000002".to_string());
    f.inactive_border_color = Some("#000003".to_string());
    f.inactive_topmost_border_color = Some("#000004".to_string());
    f.key_toggle_topmost = Some("Alt+T".to_string());
    f.key_increase_transparency = Some("Ctrl+Up".to_string());
    f.key_decrease_transparency = Some("Ctrl+Down".to_string());
    let cfg = DecodedConfig::from(RawConfig::from_fields(&f).unwrap());
    let table = hotkey_table(&cfg);
    assert_eq!(table[0].1.modifiers, 0x108);
    assert_eq!(table[0].1.key.as_deref(), Some("T"));
    assert_eq!(table[1].1.modifiers, 0x84);
    assert_eq!(table[1].1.key.as_deref(), Some("Up"));
    assert_eq!(table[2].1.key.as_deref(), Some("Down"));
}
