use std::collections::HashMap;
use dwm_decorator::configuration::{ConfigFields, DecodedConfig, RawConfig};
use dwm_decorator::window::{
    alpha_after_change, alpha_flags, decide_window_attributes, handles_win_event, is_topmost,
    layered_style, toggle_topmost_style, AttributeWrite, WindowAttribute, WindowEvent,
    ACTIVE_TEXT_COLOR, INACTIVE_TEXT_COLOR, LWA_ALPHA,
};

fn write(hwnd: usize, attribute: WindowAttribute) -> AttributeWrite {
    AttributeWrite { hwnd, attribute }
}

fn forced_config() -> DecodedConfig {
    let mut f = ConfigFields::empty();
    f.force_color_scheme = Some("Dark".to_string());
    f.force_border_radius = Some("Round".to_string());
    f.active_border_color = Some("#000001".to_string());
    f.active_topmost_border_color = Some("#000002".to_string());
    f.inactive_border_color = Some("#000003".to_string());
    f.inactive_topmost_border_color = Some("#000004".to_string());
    f.key_toggle_topmost = Some("Ctrl+Keypad0".to_string());
    f.key_increase_transparency = Some("Ctrl+Keypad2".to_string());
    f.key_decrease_transparency = Some("Ctrl+Keypad8".to_string());
    f.active_title_color = Some("#000005".to_string());
    f.inactive_title_color = Some("#000006".to_string());
    f.active_text_color = Some("#000007".to_string());
    f.inactive_text_color = Some("#000008".to_string());
    DecodedConfig::from(RawConfig::from_fields(&f).unwrap())
}

#[test]
fn topmost_bit() {
    assert!(is_topmost(0x8));
    assert!(is_topmost(0x0008_0108));
    assert!(!is_topmost(0x0008_0100));
    assert!(!is_topmost(0));
    assert!(is_topmost(-1));
}

#[test]
fn toggle_topmost_flips_and_restores() {
    assert_eq!(toggle_topmost_style(0x100), (0x108, true));
    assert_eq!(toggle_topmost_style(0x108), (0x100, false));
    let (s1, t1) = toggle_topmost_style(0x0004_0300);
    let (s2, t2) = toggle_topmost_style(s1);
    assert!(t1);
    assert!(!t2);
    assert_eq!(s2, 0x0004_0300);
}

#[test]
fn layered_style_only_when_needed() {
    assert_eq!(layered_style(0x100), Some(0x0008_0100));
    assert_eq!(layered_style(0x0008_0100), None);
    assert_eq!(layered_style(0), Some(0x0008_0000));
}

#[test]
fn alpha_steps_are_clamped() {
    assert_eq!(alpha_after_change(Some(100), 3), 103);
    assert_eq!(alpha_after_change(Some(100), -7), 93);
    assert_eq!(alpha_after_change(Some(20), -10), 15);
    assert_eq!(alpha_after_change(Some(250), 10), 255);
    assert_eq!(alpha_after_change(None, -1), 254);
    assert_eq!(alpha_after_change(None, 5), 255);
    assert_eq!(alpha_after_change(Some(0), 0), 15);
    assert_eq!(alpha_after_change(Some(15), i32::MIN), 15);
}

#[test]
fn alpha_flags_add_lwa_alpha() {
    assert_eq!(alpha_flags(0), LWA_ALPHA);
    assert_eq!(alpha_flags(1), 3);
    assert_eq!(alpha_flags(2), 2);
}

#[test]
fn win_event_filter() {
    assert!(handles_win_event(0, 0x1234));
    assert!(!handles_win_event(0, 0));
    assert!(!handles_win_event(-4, 0x1234));
}

#[test]
fn focused_window_gets_active_colors_and_old_focus_is_demoted() {
    let cfg = DecodedConfig::default();
    let ev = WindowEvent { hwnd: 10, foreground: 10, hwnd_style: 0, last_focus_style: 0x8 };
    let up = decide_window_attributes(&cfg, Some(7), ev);
    assert_eq!(up.last_focus, Some(10));
    assert_eq!(
        up.writes,
        vec![
            write(7, WindowAttribute::TextColor(INACTIVE_TEXT_COLOR)),
            write(7, WindowAttribute::BorderColor(cfg.inactive_topmost_border_color)),
            write(10, WindowAttribute::TextColor(ACTIVE_TEXT_COLOR)),
            write(10, WindowAttribute::BorderColor(cfg.active_border_color)),
        ]
    );
}

#[test]
fn background_window_gets_inactive_colors() {
    let cfg = DecodedConfig::default();
    let ev = WindowEvent { hwnd: 11, foreground: 10, hwnd_style: 0x8, last_focus_style: 0 };
    let up = decide_window_attributes(&cfg, Some(10), ev);
    assert_eq!(up.last_focus, Some(10));
    assert_eq!(
        up.writes,
        vec![
            write(11, WindowAttribute::TextColor(INACTIVE_TEXT_COLOR)),
            write(11, WindowAttribute::BorderColor(0x0000_5577)),
        ]
    );
}

#[test]
fn same_focus_is_not_demoted_again() {
    let cfg = DecodedConfig::default();
    let ev = WindowEvent { hwnd: 10, foreground: 10, hwnd_style: 0x8, last_focus_style: 0x8 };
    let up = decide_window_attributes(&cfg, Some(10), ev);
    assert_eq!(up.last_focus, Some(10));
    assert_eq!(
        up.writes,
        vec![
            write(10, WindowAttribute::TextColor(ACTIVE_TEXT_COLOR)),
            write(10, WindowAttribute::BorderColor(0x0000_baff)),
        ]
    );
}

#[test]
fn forced_scheme_and_corners_come_first() {
    let cfg = forced_config();
    let ev = WindowEvent { hwnd: 5, foreground: 6, hwnd_style: 0, last_focus_style: 0 };
    let up = decide_window_attributes(&cfg, None, ev);
    assert_eq!(up.last_focus, None);
    assert_eq!(
        up.writes,
        vec![
            write(5, WindowAttribute::UseImmersiveDarkMode(1)),
            write(5, WindowAttribute::WindowCornerPreference(2)),
            write(5, WindowAttribute::TextColor(0x0008_0000)),
            write(5, WindowAttribute::BorderColor(0x0003_0000)),
            write(5, WindowAttribute::CaptionColor(0x0006_0000)),
        ]
    );
}

#[test]
fn first_focus_and_invalid_handles() {
    let cfg = forced_config();
    let ev = WindowEvent { hwnd: 5, foreground: 5, hwnd_style: 0x8, last_focus_style: 0 };
    let up = decide_window_attributes(&cfg, None, ev);
    assert_eq!(up.last_focus, Some(5));
    assert_eq!(up.writes.len(), 5);
    assert_eq!(up.writes[2], write(5, WindowAttribute::TextColor(0x0007_0000)));
    assert_eq!(up.writes[3], write(5, WindowAttribute::BorderColor(0x0002_0000)));
    assert_eq!(up.writes[4], write(5, WindowAttribute::CaptionColor(0x0005_0000)));

    let ev = WindowEvent { hwnd: 0, foreground: 0, hwnd_style: 0, last_focus_style: 0 };
    let up = decide_window_attributes(&cfg, Some(0x40), ev);
    assert_eq!(up.last_focus, Some(0));
    assert_eq!(
        up.writes,
        vec![
            write(0x40, WindowAttribute::TextColor(0x0008_0000)),
            write(0x40, WindowAttribute::BorderColor(0x0003_0000)),
            write(0x40, WindowAttribute::CaptionColor(0x0006_0000)),
        ]
    );

    let ev = WindowEvent { hwnd: 9, foreground: 9, hwnd_style: 0, last_focus_style: 0 };
    let up = decide_window_attributes(&cfg, Some(0), ev);
    assert_eq!(up.last_focus, Some(9));
    assert_eq!(up.writes.len(), 5);
    assert!(up.writes.iter().all(|w| w.hwnd == 9));
}

#[test]
fn configured_text_colors_and_partial_title_colors() {
    let mut f = ConfigFields::empty();
    f.force_color_scheme = Some("NoChange".to_string());
    f.force_border_radius = Some("NoChange".to_string());
    f.active_border_color = Some("#000001".to_string());
    f.active_topmost_border_color = Some("#000002".to_string());
    f.inactive_border_color = Some("#000003".to_string());
    f.inactive_topmost_border_color = Some("#000004".to_string());
    f.key_toggle_topmost = Some("Ctrl+Keypad0".to_string());
    f.key_increase_transparency = Some("Ctrl+Keypad2".to_string());
    f.key_decrease_transparency = Some("Ctrl+Keypad8".to_string());
    f.active_text_color = Some("#112233".to_string());
    f.active_title_color = Some("#202020".to_string());
    let cfg = DecodedConfig::from(RawConfig::from_fields(&f).unwrap());

    // Focus moves from 3 to 4: 3 gets the built-in inactive text color and no
    // caption (no inactive title color set); 4 gets the configured active ones.
    let ev = WindowEvent { hwnd: 4, foreground: 4, hwnd_style: 0, last_focus_style: 0 };
    let up = decide_window_attributes(&cfg, Some(3), ev);
    assert_eq!(
        up.writes,
        vec![
            write(3, WindowAttribute::TextColor(INACTIVE_TEXT_COLOR)),
            write(3, WindowAttribute::BorderColor(0x0003_0000)),
            write(4, WindowAttribute::TextColor(0x0033_2211)),
            write(4, WindowAttribute::BorderColor(0x0001_0000)),
            write(4, WindowAttribute::CaptionColor(0x0020_2020)),
        ]
    );

    // A background window: inactive text color, no caption write.
    let ev = WindowEvent { hwnd: 8, foreground: 4, hwnd_style: 0, last_focus_style: 0 };
    let up = decide_window_attributes(&cfg, Some(4), ev);
    assert_eq!(
        up.writes,
        vec![
            write(8, WindowAttribute::TextColor(INACTIVE_TEXT_COLOR)),
            write(8, WindowAttribute::BorderColor(0x0003_0000)),
        ]
    );
    let _ = ACTIVE_TEXT_COLOR;
}

#[test]
fn only_the_focused_window_keeps_an_active_border() {
    let cfg = DecodedConfig::default();
    let active = [cfg.active_border_color, cfg.active_topmost_border_color];
    let mut borders: HashMap<usize, u32> = HashMap::new();
    let mut focus: Option<usize> = None;
    let events = [
        (1, 1, 0), (2, 1, 0x8), (2, 2, 0x8), (3, 2, 0), (3, 3, 0), (1, 3, 0x8), (0, 0, 0), (1, 1, 0),
    ];
    for (hwnd, foreground, style) in events {
        let last_style = match focus { Some(2) => 0x8, _ => 0 };
        let ev = WindowEvent { hwnd, foreground, hwnd_style: style, last_focus_style: last_style };
        let up = decide_window_attributes(&cfg, focus, ev);
        for w in &up.writes {
            if let WindowAttribute::BorderColor(c) = w.attribute {
                borders.insert(w.hwnd, c);
            }
        }
        focus = up.last_focus;
        for (window, color) in &borders {
            if Some(*window) != focus {
                assert!(!active.contains(color), "window {} keeps an active border", window);
            }
        }
        assert!(!borders.contains_key(&0));
    }
}
