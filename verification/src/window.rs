//! Window styles, transparency and the attributes written to each window.

use vstd::prelude::*;
use crate::configuration::DecodedConfig;

verus! {

/// `WS_EX_TOPMOST`: the extended window style bit of an always-on-top window.
pub const WS_EX_TOPMOST: u32 = 0x0000_0008;

/// `WS_EX_LAYERED`: the extended window style bit of a layered window.
pub const WS_EX_LAYERED: u32 = 0x0008_0000;

/// `LWA_ALPHA`: the layered-window flag that makes the alpha value apply.
pub const LWA_ALPHA: u32 = 0x0000_0002;

/// `OBJID_WINDOW`: the object id of a window itself in a WinEvent.
pub const OBJID_WINDOW: i32 = 0;

/// The lowest alpha a window can be given (never fully transparent).
pub const MIN_ALPHA: i32 = 15;

/// The highest alpha (fully opaque).
pub const MAX_ALPHA: i32 = 255;

/// Whether an extended style marks a window as topmost.
pub open spec fn style_is_topmost(style: isize) -> bool {
    (style as u32) & WS_EX_TOPMOST != 0
}

/// Whether an extended window style has the topmost bit.
pub fn is_topmost(style: isize) -> (res: bool)
    ensures
        res == style_is_topmost(style),
{
    ((style as u32) & WS_EX_TOPMOST) != 0
}

/// The style with the topmost bit flipped.
pub open spec fn toggled_style(style: isize) -> isize {
    style ^ (WS_EX_TOPMOST as isize)
}

/// Flips the topmost bit of a window's extended style; returns the new
/// style and whether the window is now topmost (it goes to `HWND_TOPMOST`
/// in the z-order if so, to `HWND_NOTOPMOST` otherwise).
pub fn toggle_topmost_style(style: isize) -> (res: (isize, bool))
    ensures
        res.0 == toggled_style(style),
        res.1 == style_is_topmost(res.0),
{
    let new_style: isize = style ^ (WS_EX_TOPMOST as isize);
    let is_now_topmost: bool = (new_style & (WS_EX_TOPMOST as isize)) != 0;
    assert(((new_style & 8isize) != 0) == (((new_style as u32) & 8u32) != 0)) by (bit_vector);
    (new_style, is_now_topmost)
}

/// Toggling topmost twice gives back the style that was there.
pub proof fn lemma_toggle_twice(style: isize)
    ensures
        toggled_style(toggled_style(style)) == style,
{
    assert((style ^ 8isize) ^ 8isize == style) by (bit_vector);
}

/// Toggling flips whether the window is topmost and keeps every other bit.
pub proof fn lemma_toggle_flips_topmost(style: isize)
    ensures
        style_is_topmost(toggled_style(style)) == !style_is_topmost(style),
        toggled_style(style) & !8isize == style & !8isize,
{
    assert((((style ^ 8isize) as u32) & 8u32 != 0) == !(((style as u32) & 8u32) != 0))
        by (bit_vector);
    assert((style ^ 8isize) & !8isize == style & !8isize) by (bit_vector);
}

/// The style a window needs before its alpha can be set: `None` when it is
/// layered already, else the style with `WS_EX_LAYERED` added.
pub open spec fn layered_style_update(style: isize) -> Option<isize> {
    if style & (WS_EX_LAYERED as isize) == 0 {
        Some(style | (WS_EX_LAYERED as isize))
    } else {
        None
    }
}

/// Decides whether a window must be made layered before its transparency
/// changes, and with which style.
pub fn layered_style(style: isize) -> (res: Option<isize>)
    ensures
        res == layered_style_update(style),
{
    if (style & (WS_EX_LAYERED as isize)) == 0 {
        Some(style | (WS_EX_LAYERED as isize))
    } else {
        None
    }
}

/// The style that the update leaves is layered, and no other bit changes.
pub proof fn lemma_layered_style_sets_bit(style: isize)
    ensures
        layered_style_update(style) matches Some(s) ==> s & 0x80000isize != 0 && s & !0x80000isize
            == style & !0x80000isize,
{
    assert((style | 0x80000isize) & 0x80000isize != 0) by (bit_vector);
    assert((style | 0x80000isize) & !0x80000isize == style & !0x80000isize) by (bit_vector);
}

/// The alpha a window gets: its current alpha (255 where it could not be
/// read) plus `delta`, clamped to `[15, 255]`.
pub open spec fn next_alpha(current: Option<u8>, delta: i32) -> u8 {
    let alpha: int = match current {
        Some(a) => a as int,
        None => 255,
    };
    let v: int = alpha + delta;
    if v < MIN_ALPHA {
        MIN_ALPHA as u8
    } else if v > MAX_ALPHA {
        MAX_ALPHA as u8
    } else {
        v as u8
    }
}

/// Computes the new alpha of a window after a transparency step of `delta`.
pub fn alpha_after_change(current: Option<u8>, delta: i32) -> (res: u8)
    requires
        (match current {
            Some(a) => a as int,
            None => 255int,
        }) + delta <= i32::MAX,
    ensures
        res == next_alpha(current, delta),
        MIN_ALPHA <= res <= MAX_ALPHA,
{
    let alpha: u8 = match current {
        Some(a) => a,
        None => 255,
    };
    let v: i32 = alpha as i32 + delta;
    let clamped: i32 = if v < MIN_ALPHA {
        MIN_ALPHA
    } else if v > MAX_ALPHA {
        MAX_ALPHA
    } else {
        v
    };
    clamped as u8
}

/// The layered-window flags for a new alpha: the old flags with `LWA_ALPHA`.
pub fn alpha_flags(flags: u32) -> (res: u32)
    ensures
        res == flags | LWA_ALPHA,
{
    flags | LWA_ALPHA
}

/// More transparency never gives a higher alpha: the step is monotone.
pub proof fn lemma_next_alpha_monotone(current: Option<u8>, d1: i32, d2: i32)
    requires
        d1 <= d2,
    ensures
        next_alpha(current, d1) <= next_alpha(current, d2),
{
}

/// Whether a WinEvent concerns a window itself (not a child object) with a
/// valid handle; only those are decorated.
pub fn handles_win_event(id_object: i32, hwnd: usize) -> (res: bool)
    ensures
        res == (id_object == OBJID_WINDOW && hwnd != 0),
{
    id_object == OBJID_WINDOW && hwnd != 0
}


/// Title text color of the active window where the settings set none (`COLORREF`).
pub const ACTIVE_TEXT_COLOR: u32 = 0x00ff_f8f0;

/// Title text color of inactive windows where the settings set none (`COLORREF`).
pub const INACTIVE_TEXT_COLOR: u32 = 0x00cf_c8c0;

/// A window-manager attribute with its value.
#[derive(Clone, Copy, Debug, PartialEq, Eq, Structural)]
pub enum WindowAttribute {
    /// `DWMWA_USE_IMMERSIVE_DARK_MODE`
    UseImmersiveDarkMode(i32),
    /// `DWMWA_WINDOW_CORNER_PREFERENCE`
    WindowCornerPreference(i32),
    /// `DWMWA_TEXT_COLOR`
    TextColor(u32),
    /// `DWMWA_BORDER_COLOR`
    BorderColor(u32),
    /// `DWMWA_CAPTION_COLOR`
    CaptionColor(u32),
}

/// One attribute to set on one window (by its handle).
#[derive(Clone, Copy, Debug, PartialEq, Eq, Structural)]
pub struct AttributeWrite {
    pub hwnd: usize,
    pub attribute: WindowAttribute,
}

/// What is known of a window when it is to be decorated: its handle, the
/// foreground window's handle, its extended style, and the extended style
/// of the window that last had the focus (read only if there is one).
#[derive(Clone, Copy, Debug, PartialEq, Eq, Structural)]
pub struct WindowEvent {
    pub hwnd: usize,
    pub foreground: usize,
    pub hwnd_style: isize,
    pub last_focus_style: isize,
}

/// The outcome of decorating a window: the window that now counts as
/// focused, and the attributes to write, in order.
#[derive(Debug)]
pub struct WindowUpdate {
    pub last_focus: Option<usize>,
    pub writes: Vec<AttributeWrite>,
}

/// The border color of a window, by whether it is active and topmost.
pub open spec fn border_color_for(cfg: DecodedConfig, active: bool, topmost: bool) -> u32 {
    if active {
        if topmost {
            cfg.active_topmost_border_color
        } else {
            cfg.active_border_color
        }
    } else {
        if topmost {
            cfg.inactive_topmost_border_color
        } else {
            cfg.inactive_border_color
        }
    }
}

/// A write to a window, dropped where the handle is invalid (null).
pub open spec fn write_to(hwnd: usize, attribute: WindowAttribute) -> Seq<AttributeWrite> {
    if hwnd != 0 {
        seq![AttributeWrite { hwnd, attribute }]
    } else {
        seq![]
    }
}

/// Whether the window takes the focus: it is the foreground window and not
/// the one that had the focus.
pub open spec fn focus_moves(last_focus: Option<usize>, ev: WindowEvent) -> bool {
    ev.hwnd == ev.foreground && last_focus != Some(ev.hwnd)
}

/// The window that counts as focused afterwards.
pub open spec fn next_focus(last_focus: Option<usize>, ev: WindowEvent) -> Option<usize> {
    if focus_moves(last_focus, ev) {
        Some(ev.hwnd)
    } else {
        last_focus
    }
}

/// The title text color of a window: the configured active or inactive
/// text color where the settings set one, the built-in one otherwise.
pub open spec fn text_color_for(cfg: DecodedConfig, active: bool) -> u32 {
    if active {
        match cfg.active_text_color {
            Some(c) => c,
            None => ACTIVE_TEXT_COLOR,
        }
    } else {
        match cfg.inactive_text_color {
            Some(c) => c,
            None => INACTIVE_TEXT_COLOR,
        }
    }
}

/// The configured title bar (caption) color of an active or inactive window.
pub open spec fn title_color_for(cfg: DecodedConfig, active: bool) -> Option<u32> {
    if active {
        cfg.active_title_color
    } else {
        cfg.inactive_title_color
    }
}

/// The caption write for a window: its configured title color, none where
/// the settings set no title color (the caption is then left alone).
pub open spec fn caption_writes(cfg: DecodedConfig, hwnd: usize, active: bool) -> Seq<AttributeWrite> {
    match title_color_for(cfg, active) {
        Some(c) => write_to(hwnd, WindowAttribute::CaptionColor(c)),
        None => seq![],
    }
}

/// The writes that turn the window that lost the focus back to inactive
/// colors: inactive text color, inactive border color (by its topmost bit)
/// and inactive title color where one is set; none if there is no such
/// window or its handle is invalid.
pub open spec fn demote_writes(cfg: DecodedConfig, last_focus: Option<usize>, ev: WindowEvent) -> Seq<AttributeWrite> {
    if focus_moves(last_focus, ev) {
        match last_focus {
            Some(old) => if old != 0 {
                seq![
                    AttributeWrite { hwnd: old, attribute: WindowAttribute::TextColor(text_color_for(cfg, false)) },
                    AttributeWrite {
                        hwnd: old,
                        attribute: WindowAttribute::BorderColor(
                            border_color_for(cfg, false, style_is_topmost(ev.last_focus_style)),
                        ),
                    },
                ] + caption_writes(cfg, old, false)
            } else {
                seq![]
            },
            None => seq![],
        }
    } else {
        seq![]
    }
}

/// The forced color scheme and corner style writes for a window (where the
/// settings force them).
pub open spec fn forced_writes(cfg: DecodedConfig, ev: WindowEvent) -> Seq<AttributeWrite> {
    (if cfg.force_color_scheme >= 0 {
        write_to(ev.hwnd, WindowAttribute::UseImmersiveDarkMode(cfg.force_color_scheme))
    } else {
        seq![]
    }) + (if cfg.force_border_radius >= 0 {
        write_to(ev.hwnd, WindowAttribute::WindowCornerPreference(cfg.force_border_radius))
    } else {
        seq![]
    })
}

/// The window's own color writes: title text color, border color, and
/// title bar color where one is set.
pub open spec fn own_writes(cfg: DecodedConfig, ev: WindowEvent) -> Seq<AttributeWrite> {
    let active = ev.hwnd == ev.foreground;
    write_to(ev.hwnd, WindowAttribute::TextColor(text_color_for(cfg, active))) + write_to(
        ev.hwnd,
        WindowAttribute::BorderColor(border_color_for(cfg, active, style_is_topmost(ev.hwnd_style))),
    ) + caption_writes(cfg, ev.hwnd, active)
}

/// All writes for a window, in order: the forced color scheme and corner
/// style of the window (where the settings force them), then the demotion
/// of the window that lost the focus, then the window's own title text,
/// border and title bar colors.
pub open spec fn planned_writes(cfg: DecodedConfig, last_focus: Option<usize>, ev: WindowEvent) -> Seq<AttributeWrite> {
    forced_writes(cfg, ev) + demote_writes(cfg, last_focus, ev) + own_writes(cfg, ev)
}

fn push_write(writes: &mut Vec<AttributeWrite>, hwnd: usize, attribute: WindowAttribute)
    ensures
        final(writes)@ == old(writes)@ + write_to(hwnd, attribute),
{
    if hwnd != 0 {
        writes.push(AttributeWrite { hwnd, attribute });
    }
    assert(final(writes)@ =~= old(writes)@ + write_to(hwnd, attribute));
}

fn push_caption(writes: &mut Vec<AttributeWrite>, config: &DecodedConfig, hwnd: usize, active: bool)
    ensures
        final(writes)@ == old(writes)@ + caption_writes(*config, hwnd, active),
{
    let title = if active {
        config.active_title_color
    } else {
        config.inactive_title_color
    };
    match title {
        Some(c) => push_write(writes, hwnd, WindowAttribute::CaptionColor(c)),
        None => {
            assert(final(writes)@ =~= old(writes)@ + caption_writes(*config, hwnd, active));
        },
    }
}

fn text_color(config: &DecodedConfig, active: bool) -> (res: u32)
    ensures
        res == text_color_for(*config, active),
{
    if active {
        match config.active_text_color {
            Some(c) => c,
            None => ACTIVE_TEXT_COLOR,
        }
    } else {
        match config.inactive_text_color {
            Some(c) => c,
            None => INACTIVE_TEXT_COLOR,
        }
    }
}

fn border_color(config: &DecodedConfig, active: bool, topmost: bool) -> (res: u32)
    ensures
        res == border_color_for(*config, active, topmost),
{
    match (active, topmost) {
        (true, true) => config.active_topmost_border_color,
        (true, false) => config.active_border_color,
        (false, true) => config.inactive_topmost_border_color,
        (false, false) => config.inactive_border_color,
    }
}

fn push_demote(writes: &mut Vec<AttributeWrite>, config: &DecodedConfig, last_focus: Option<usize>, event: WindowEvent)
    ensures
        final(writes)@ == old(writes)@ + demote_writes(*config, last_focus, event),
{
    let hwnd = event.hwnd;
    let moves = hwnd == event.foreground && !(match last_focus {
        Some(h) => h == hwnd,
        None => false,
    });
    let ghost start = writes@;
    if moves {
        match last_focus {
            Some(old_focus) => {
                if old_focus != 0 {
                    let old_text = text_color(config, false);
                    let old_border = border_color(config, false, is_topmost(event.last_focus_style));
                    writes.push(AttributeWrite { hwnd: old_focus, attribute: WindowAttribute::TextColor(old_text) });
                    writes.push(AttributeWrite { hwnd: old_focus, attribute: WindowAttribute::BorderColor(old_border) });
                    push_caption(writes, config, old_focus, false);
                    assert(writes@ =~= start + demote_writes(*config, last_focus, event));
                } else {
                    assert(writes@ =~= start + demote_writes(*config, last_focus, event));
                }
            },
            None => {
                assert(writes@ =~= start + demote_writes(*config, last_focus, event));
            },
        }
    } else {
        assert(writes@ =~= start + demote_writes(*config, last_focus, event));
    }
}

fn push_own(writes: &mut Vec<AttributeWrite>, config: &DecodedConfig, event: WindowEvent)
    ensures
        final(writes)@ == old(writes)@ + own_writes(*config, event),
{
    let hwnd = event.hwnd;
    let is_active = hwnd == event.foreground;
    let own_text = text_color(config, is_active);
    let border = border_color(config, is_active, is_topmost(event.hwnd_style));
    let ghost start = writes@;
    push_write(writes, hwnd, WindowAttribute::TextColor(own_text));
    push_write(writes, hwnd, WindowAttribute::BorderColor(border));
    push_caption(writes, config, hwnd, is_active);
    assert(writes@ =~= start + own_writes(*config, event));
}

/// Decides how to decorate a window: which attributes to write to it (and
/// to the window that lost the focus) and which window is focused next.
pub fn decide_window_attributes(
    config: &DecodedConfig,
    last_focus: Option<usize>,
    event: WindowEvent,
) -> (res: WindowUpdate)
    ensures
        res.last_focus == next_focus(last_focus, event),
        res.writes@ == planned_writes(*config, last_focus, event),
{
    let hwnd = event.hwnd;
    let mut writes: Vec<AttributeWrite> = Vec::new();
    if config.force_color_scheme >= 0 {
        push_write(&mut writes, hwnd, WindowAttribute::UseImmersiveDarkMode(config.force_color_scheme));
    }
    if config.force_border_radius >= 0 {
        push_write(&mut writes, hwnd, WindowAttribute::WindowCornerPreference(config.force_border_radius));
    }
    assert(writes@ =~= forced_writes(*config, event));
    push_demote(&mut writes, config, last_focus, event);
    push_own(&mut writes, config, event);
    assert(writes@ =~= planned_writes(*config, last_focus, event));
    let moves = hwnd == event.foreground && !(match last_focus {
        Some(h) => h == hwnd,
        None => false,
    });
    let focus = if moves {
        Some(hwnd)
    } else {
        last_focus
    };
    WindowUpdate { last_focus: focus, writes }
}

/// No attribute is ever written to an invalid (null) window handle.
pub proof fn lemma_writes_target_valid_windows(cfg: DecodedConfig, last_focus: Option<usize>, ev: WindowEvent)
    ensures
        forall|i: int|
            0 <= i < planned_writes(cfg, last_focus, ev).len() ==> #[trigger] planned_writes(
                cfg,
                last_focus,
                ev,
            )[i].hwnd != 0,
{
    let w = planned_writes(cfg, last_focus, ev);
    let f = forced_writes(cfg, ev);
    let d = demote_writes(cfg, last_focus, ev);
    let o = own_writes(cfg, ev);
    let n = f.len() + d.len();
    assert(w == f + d + o);
    assert forall|i: int| 0 <= i < w.len() implies #[trigger] w[i].hwnd != 0 by {
        if i < f.len() {
            assert(w[i] == f[i]);
        } else if i < n {
            assert(w[i] == d[i - f.len()]);
        } else {
            assert(w[i] == o[i - n]);
        }
    }
}

/// The foreground window is the focused one once it has been decorated;
/// decorating any other window leaves the focus where it was.
pub proof fn lemma_focus_follows_foreground(last_focus: Option<usize>, ev: WindowEvent)
    ensures
        ev.hwnd == ev.foreground ==> next_focus(last_focus, ev) == Some(ev.hwnd),
        ev.hwnd != ev.foreground ==> next_focus(last_focus, ev) == last_focus,
{
}

/// Whether a write is to `hwnd` and sets a title text color.
pub open spec fn is_text_write(w: AttributeWrite, hwnd: usize) -> bool {
    w.hwnd == hwnd && w.attribute is TextColor
}

/// Whether a write is to `hwnd` and sets a border color.
pub open spec fn is_border_write(w: AttributeWrite, hwnd: usize) -> bool {
    w.hwnd == hwnd && w.attribute is BorderColor
}

/// Whether a write is to `hwnd` and sets a title bar color.
pub open spec fn is_caption_write(w: AttributeWrite, hwnd: usize) -> bool {
    w.hwnd == hwnd && w.attribute is CaptionColor
}

proof fn lemma_demote_other_window(cfg: DecodedConfig, last_focus: Option<usize>, ev: WindowEvent)
    ensures
        forall|i: int|
            0 <= i < demote_writes(cfg, last_focus, ev).len() ==> (#[trigger] demote_writes(
                cfg,
                last_focus,
                ev,
            )[i]).hwnd != ev.hwnd,
{
    if focus_moves(last_focus, ev) {
        match last_focus {
            Some(old) => {
                if old != 0 {
                    let d = demote_writes(cfg, last_focus, ev);
                    assert forall|i: int| 0 <= i < d.len() implies (#[trigger] d[i]).hwnd != ev.hwnd by {
                        assert(d[i].hwnd == old);
                    }
                }
            },
            None => {},
        }
    }
}

/// A valid window gets exactly one title text color, the configured one for
/// its state (active: the foreground window) or the built-in one where none
/// is set, and exactly one border color, chosen by whether it is active and
/// topmost; it gets a title bar color exactly when the settings set one for
/// its state, and then that one.
pub proof fn lemma_window_gets_its_colors(cfg: DecodedConfig, last_focus: Option<usize>, ev: WindowEvent)
    requires
        ev.hwnd != 0,
    ensures
        ({
            let w = planned_writes(cfg, last_focus, ev);
            let active = ev.hwnd == ev.foreground;
            let text = AttributeWrite {
                hwnd: ev.hwnd,
                attribute: WindowAttribute::TextColor(text_color_for(cfg, active)),
            };
            let border = AttributeWrite {
                hwnd: ev.hwnd,
                attribute: WindowAttribute::BorderColor(
                    border_color_for(cfg, active, style_is_topmost(ev.hwnd_style)),
                ),
            };
            &&& w.contains(text)
            &&& w.contains(border)
            &&& forall|i: int| 0 <= i < w.len() && is_text_write(#[trigger] w[i], ev.hwnd) ==> w[i] == text
            &&& forall|i: int| 0 <= i < w.len() && is_border_write(#[trigger] w[i], ev.hwnd) ==> w[i] == border
            &&& forall|c: u32|
                w.contains(AttributeWrite { hwnd: ev.hwnd, attribute: WindowAttribute::CaptionColor(c) })
                    <==> title_color_for(cfg, active) == Some(c)
        }),
{
    let w = planned_writes(cfg, last_focus, ev);
    let active = ev.hwnd == ev.foreground;
    let f = forced_writes(cfg, ev);
    let d = demote_writes(cfg, last_focus, ev);
    let o = own_writes(cfg, ev);
    lemma_demote_other_window(cfg, last_focus, ev);
    let n = f.len() + d.len();
    assert(w == f + d + o);
    assert(w[n as int] == o[0]);
    assert(w[n as int + 1] == o[1]);
    assert forall|i: int| 0 <= i < w.len() && (#[trigger] w[i]).hwnd == ev.hwnd implies (
        i < f.len() ==> !(w[i].attribute is TextColor || w[i].attribute is BorderColor
            || w[i].attribute is CaptionColor)) && (i >= n ==> w[i] == o[i - n]) && !(f.len() <= i < n) by {
        if i < f.len() {
            assert(w[i] == f[i]);
        } else if i < n {
            assert(w[i] == d[i - f.len()]);
        } else {
            assert(w[i] == o[i - n]);
        }
    }
    assert forall|c: u32|
        w.contains(AttributeWrite { hwnd: ev.hwnd, attribute: WindowAttribute::CaptionColor(c) })
            <==> title_color_for(cfg, active) == Some(c) by {
        let cw = AttributeWrite { hwnd: ev.hwnd, attribute: WindowAttribute::CaptionColor(c) };
        if title_color_for(cfg, active) == Some(c) {
            assert(w[n as int + 2] == cw);
        }
        if w.contains(cw) {
            let i = choose|i: int| 0 <= i < w.len() && w[i] == cw;
            assert(w[i].hwnd == ev.hwnd);
            assert(w[i] == o[i - n]);
        }
    }
}

/// When the focus moves away from a valid window, that window gets the
/// inactive title text color, its inactive border color (by its topmost
/// bit), and the inactive title bar color where the settings set one.
pub proof fn lemma_old_focus_demoted(cfg: DecodedConfig, old: usize, ev: WindowEvent)
    requires
        old != 0,
        ev.hwnd == ev.foreground,
        ev.hwnd != old,
    ensures
        planned_writes(cfg, Some(old), ev).contains(
            AttributeWrite { hwnd: old, attribute: WindowAttribute::TextColor(text_color_for(cfg, false)) },
        ),
        planned_writes(cfg, Some(old), ev).contains(
            AttributeWrite {
                hwnd: old,
                attribute: WindowAttribute::BorderColor(
                    border_color_for(cfg, false, style_is_topmost(ev.last_focus_style)),
                ),
            },
        ),
        cfg.inactive_title_color matches Some(c) ==> planned_writes(cfg, Some(old), ev).contains(
            AttributeWrite { hwnd: old, attribute: WindowAttribute::CaptionColor(c) },
        ),
{
    let w = planned_writes(cfg, Some(old), ev);
    let d = demote_writes(cfg, Some(old), ev);
    let n = forced_writes(cfg, ev).len();
    assert(w == forced_writes(cfg, ev) + d + own_writes(cfg, ev));
    assert(w[n as int] == d[0]);
    assert(w[n as int + 1] == d[1]);
    if cfg.inactive_title_color is Some {
        assert(w[n as int + 2] == d[2]);
    }
}

/// The forced color scheme and corner style go to a valid window exactly
/// when the settings force them (a number of at least 0).
pub proof fn lemma_forced_attributes(cfg: DecodedConfig, last_focus: Option<usize>, ev: WindowEvent)
    requires
        ev.hwnd != 0,
    ensures
        planned_writes(cfg, last_focus, ev).contains(
            AttributeWrite {
                hwnd: ev.hwnd,
                attribute: WindowAttribute::UseImmersiveDarkMode(cfg.force_color_scheme),
            },
        ) <==> cfg.force_color_scheme >= 0,
        planned_writes(cfg, last_focus, ev).contains(
            AttributeWrite {
                hwnd: ev.hwnd,
                attribute: WindowAttribute::WindowCornerPreference(cfg.force_border_radius),
            },
        ) <==> cfg.force_border_radius >= 0,
{
    let w = planned_writes(cfg, last_focus, ev);
    let dm = AttributeWrite {
        hwnd: ev.hwnd,
        attribute: WindowAttribute::UseImmersiveDarkMode(cfg.force_color_scheme),
    };
    let cp = AttributeWrite {
        hwnd: ev.hwnd,
        attribute: WindowAttribute::WindowCornerPreference(cfg.force_border_radius),
    };
    if cfg.force_color_scheme >= 0 {
        assert(w[0] == dm);
    } else {
        assert forall|i: int| 0 <= i < w.len() implies w[i] != dm by {
            assert(!(w[i].attribute is UseImmersiveDarkMode));
        }
    }
    if cfg.force_border_radius >= 0 {
        let k: int = if cfg.force_color_scheme >= 0 { 1 } else { 0 };
        assert(w[k] == cp);
    } else {
        assert forall|i: int| 0 <= i < w.len() implies w[i] != cp by {
            assert(!(w[i].attribute is WindowCornerPreference));
        }
    }
}


/// The border color each window shows after a run of writes: `borders`
/// updated by every border write, the later write winning.
pub open spec fn apply_border_writes(borders: Map<usize, u32>, writes: Seq<AttributeWrite>) -> Map<usize, u32>
    decreases writes.len(),
{
    if writes.len() == 0 {
        borders
    } else {
        let rest = apply_border_writes(borders, writes.drop_last());
        let w = writes.last();
        match w.attribute {
            WindowAttribute::BorderColor(c) => rest.insert(w.hwnd, c),
            _ => rest,
        }
    }
}

/// Whether a write sets the border color of window `x`.
pub open spec fn is_border_write_to(w: AttributeWrite, x: usize) -> bool {
    w.hwnd == x && w.attribute is BorderColor
}

/// A border color of an inactive window.
pub open spec fn is_inactive_border(cfg: DecodedConfig, c: u32) -> bool {
    c == cfg.inactive_border_color || c == cfg.inactive_topmost_border_color
}

/// The window borders as shown after decorating: no border on a null
/// handle, and every window other than the focused one shows an inactive
/// border color.
pub open spec fn only_focus_active(cfg: DecodedConfig, borders: Map<usize, u32>, focus: Option<usize>) -> bool {
    &&& !borders.dom().contains(0)
    &&& forall|x: usize|
        #[trigger] borders.dom().contains(x) && focus != Some(x) ==> is_inactive_border(cfg, borders[x])
}

/// A window that no write in `writes` gives a border keeps what it showed;
/// a window that gets border writes, all of them inactive colors, ends up
/// with an inactive color.
proof fn lemma_apply_border_writes(cfg: DecodedConfig, borders: Map<usize, u32>, writes: Seq<AttributeWrite>, x: usize)
    ensures
        (forall|i: int| 0 <= i < writes.len() ==> !is_border_write_to(#[trigger] writes[i], x)) ==> (
        apply_border_writes(borders, writes).dom().contains(x) == borders.dom().contains(x) && (
        borders.dom().contains(x) ==> apply_border_writes(borders, writes)[x] == borders[x])),
        (exists|i: int| 0 <= i < writes.len() && is_border_write_to(#[trigger] writes[i], x)) && (
        forall|i: int|
            0 <= i < writes.len() && is_border_write_to(#[trigger] writes[i], x) ==> is_inactive_border(
                cfg,
                writes[i].attribute->BorderColor_0,
            )) ==> apply_border_writes(borders, writes).dom().contains(x) && is_inactive_border(
            cfg,
            apply_border_writes(borders, writes)[x],
        ),
    decreases writes.len(),
{
    if writes.len() > 0 {
        let rest = writes.drop_last();
        let last = writes.last();
        lemma_apply_border_writes(cfg, borders, rest, x);
        assert forall|i: int| 0 <= i < rest.len() implies #[trigger] rest[i] == writes[i] by {}
        if is_border_write_to(last, x) {
        } else {
            if exists|i: int| 0 <= i < writes.len() && is_border_write_to(#[trigger] writes[i], x) {
                let i = choose|i: int| 0 <= i < writes.len() && is_border_write_to(#[trigger] writes[i], x);
                assert(i < rest.len());
                assert(is_border_write_to(rest[i], x));
            }
        }
    }
}

/// Every border write of a decoration is an inactive color, except the one
/// to the window that is focused afterwards.
proof fn lemma_border_writes_inactive_but_focus(cfg: DecodedConfig, last_focus: Option<usize>, ev: WindowEvent, x: usize)
    requires
        next_focus(last_focus, ev) != Some(x),
    ensures
        forall|i: int|
            0 <= i < planned_writes(cfg, last_focus, ev).len() && is_border_write_to(
                #[trigger] planned_writes(cfg, last_focus, ev)[i],
                x,
            ) ==> is_inactive_border(cfg, planned_writes(cfg, last_focus, ev)[i].attribute->BorderColor_0),
{
    let w = planned_writes(cfg, last_focus, ev);
    let f = forced_writes(cfg, ev);
    let d = demote_writes(cfg, last_focus, ev);
    let o = own_writes(cfg, ev);
    let n = f.len() + d.len();
    assert(w == f + d + o);
    assert forall|i: int| 0 <= i < w.len() && is_border_write_to(#[trigger] w[i], x) implies is_inactive_border(
        cfg,
        w[i].attribute->BorderColor_0,
    ) by {
        if i < f.len() {
            assert(w[i] == f[i]);
        } else if i < n {
            assert(w[i] == d[i - f.len()]);
        } else {
            assert(w[i] == o[i - n]);
        }
    }
}

/// Decorating one window keeps the borders in order: if before the call
/// only the focused window could show an active border, then after it (all
/// its writes applied) only the newly focused window can.
pub proof fn lemma_only_focus_keeps_active_border(
    cfg: DecodedConfig,
    borders: Map<usize, u32>,
    last_focus: Option<usize>,
    ev: WindowEvent,
)
    requires
        only_focus_active(cfg, borders, last_focus),
    ensures
        only_focus_active(
            cfg,
            apply_border_writes(borders, planned_writes(cfg, last_focus, ev)),
            next_focus(last_focus, ev),
        ),
{
    let w = planned_writes(cfg, last_focus, ev);
    let after = apply_border_writes(borders, w);
    let focus = next_focus(last_focus, ev);
    lemma_writes_target_valid_windows(cfg, last_focus, ev);
    lemma_apply_border_writes(cfg, borders, w, 0);
    assert forall|x: usize| #[trigger] after.dom().contains(x) && focus != Some(x) implies is_inactive_border(
        cfg,
        after[x],
    ) by {
        lemma_apply_border_writes(cfg, borders, w, x);
        lemma_border_writes_inactive_but_focus(cfg, last_focus, ev, x);
        if exists|i: int| 0 <= i < w.len() && is_border_write_to(#[trigger] w[i], x) {
        } else {
            assert(borders.dom().contains(x));
            if last_focus == Some(x) {
                // The focus moved away from `x`, which is then repainted.
                let f = forced_writes(cfg, ev);
                let d = demote_writes(cfg, last_focus, ev);
                assert(w == f + d + own_writes(cfg, ev));
                assert(w[f.len() as int + 1] == d[1]);
                assert(is_border_write_to(w[f.len() as int + 1], x));
            }
        }
    }
}

/// The state after decorating a run of windows from an empty screen: the
/// border each window shows and the focused window.
pub open spec fn run_decorations(cfg: DecodedConfig, events: Seq<WindowEvent>) -> (Map<usize, u32>, Option<usize>)
    decreases events.len(),
{
    if events.len() == 0 {
        (Map::empty(), None)
    } else {
        let (borders, focus) = run_decorations(cfg, events.drop_last());
        let ev = events.last();
        (apply_border_writes(borders, planned_writes(cfg, focus, ev)), next_focus(focus, ev))
    }
}

/// Over any run of decorations that starts with no focus and no borders,
/// only the focused window can show an active border color; every other
/// window that was given a border shows an inactive one.
pub proof fn lemma_run_only_focus_active(cfg: DecodedConfig, events: Seq<WindowEvent>)
    ensures
        only_focus_active(cfg, run_decorations(cfg, events).0, run_decorations(cfg, events).1),
    decreases events.len(),
{
    if events.len() > 0 {
        lemma_run_only_focus_active(cfg, events.drop_last());
        let (borders, focus) = run_decorations(cfg, events.drop_last());
        lemma_only_focus_keeps_active_border(cfg, borders, focus, events.last());
    }
}


/// Only the `WS_EX_TOPMOST` bit (8) decides whether a window counts as
/// topmost; toggling makes a window topmost exactly when that bit was clear.
pub proof fn lemma_topmost_bit_decides(style: isize)
    ensures
        style_is_topmost(style) == (style & 8isize != 0),
        style_is_topmost(toggled_style(style)) == (style & 8isize == 0),
        toggled_style(style) & 8isize != 0 <==> style & 8isize == 0,
{
    assert((((style as u32) & 8u32) != 0) == ((style & 8isize) != 0)) by (bit_vector);
    assert(((((style ^ 8isize) as u32) & 8u32) != 0) == ((style & 8isize) == 0)) by (bit_vector);
    assert(((style ^ 8isize) & 8isize != 0) == (style & 8isize == 0)) by (bit_vector);
}

/// A window without the `WS_EX_LAYERED` bit (0x80000) is always made
/// layered, whatever its other bits, with exactly that bit added; a window
/// that has the bit is left alone.
pub proof fn lemma_layered_update_exact(style: isize)
    ensures
        style & 0x80000isize == 0 ==> layered_style_update(style) == Some(style | 0x80000isize),
        style & 0x80000isize != 0 ==> layered_style_update(style) is None,
{
}

/// The alpha step: the current alpha (255, fully opaque, where it could not
/// be read) plus the step, kept within [15, 255].
pub proof fn lemma_next_alpha_values(current: Option<u8>, delta: i32)
    ensures
        ({
            let a: int = match current {
                Some(a) => a as int,
                None => 255,
            };
            &&& 15 <= a + delta <= 255 ==> next_alpha(current, delta) == a + delta
            &&& a + delta < 15 ==> next_alpha(current, delta) == 15
            &&& a + delta > 255 ==> next_alpha(current, delta) == 255
        }),
        next_alpha(None, delta) == next_alpha(Some(255u8), delta),
{
}

/// The colors a valid window gets, over the settings themselves: title text
/// `active_text_color` (else 0x00fff8f0) when it is the foreground window and
/// `inactive_text_color` (else 0x00cfc8c0) otherwise, never both; border by
/// active and by the `WS_EX_TOPMOST` bit of its style; title bar
/// `active_title_color` / `inactive_title_color` exactly where set.
pub proof fn lemma_window_colors_follow_settings(cfg: DecodedConfig, last_focus: Option<usize>, ev: WindowEvent)
    requires
        ev.hwnd != 0,
    ensures
        ({
            let w = planned_writes(cfg, last_focus, ev);
            let active = ev.hwnd == ev.foreground;
            let topmost = ev.hwnd_style & 8isize != 0;
            let text: u32 = if active {
                match cfg.active_text_color {
                    Some(c) => c,
                    None => 0x00ff_f8f0u32,
                }
            } else {
                match cfg.inactive_text_color {
                    Some(c) => c,
                    None => 0x00cf_c8c0u32,
                }
            };
            let border: u32 = if active {
                if topmost {
                    cfg.active_topmost_border_color
                } else {
                    cfg.active_border_color
                }
            } else {
                if topmost {
                    cfg.inactive_topmost_border_color
                } else {
                    cfg.inactive_border_color
                }
            };
            let title: Option<u32> = if active {
                cfg.active_title_color
            } else {
                cfg.inactive_title_color
            };
            &&& w.contains(AttributeWrite { hwnd: ev.hwnd, attribute: WindowAttribute::TextColor(text) })
            &&& forall|i: int|
                0 <= i < w.len() && (#[trigger] w[i]).hwnd == ev.hwnd && w[i].attribute is TextColor
                    ==> w[i].attribute == WindowAttribute::TextColor(text)
            &&& w.contains(AttributeWrite { hwnd: ev.hwnd, attribute: WindowAttribute::BorderColor(border) })
            &&& forall|i: int|
                0 <= i < w.len() && (#[trigger] w[i]).hwnd == ev.hwnd && w[i].attribute is BorderColor
                    ==> w[i].attribute == WindowAttribute::BorderColor(border)
            &&& forall|c: u32|
                w.contains(AttributeWrite { hwnd: ev.hwnd, attribute: WindowAttribute::CaptionColor(c) })
                    <==> title == Some(c)
        }),
{
    lemma_window_gets_its_colors(cfg, last_focus, ev);
    lemma_topmost_bit_decides(ev.hwnd_style);
    let w = planned_writes(cfg, last_focus, ev);
    assert forall|i: int| 0 <= i < w.len() && (#[trigger] w[i]).hwnd == ev.hwnd && w[i].attribute is TextColor
        implies w[i].attribute == WindowAttribute::TextColor(text_color_for(cfg, ev.hwnd == ev.foreground)) by {
        assert(is_text_write(w[i], ev.hwnd));
    }
    assert forall|i: int| 0 <= i < w.len() && (#[trigger] w[i]).hwnd == ev.hwnd && w[i].attribute is BorderColor
        implies w[i].attribute == WindowAttribute::BorderColor(
            border_color_for(cfg, ev.hwnd == ev.foreground, style_is_topmost(ev.hwnd_style)),
        ) by {
        assert(is_border_write(w[i], ev.hwnd));
    }
}

/// When the focus moves from a valid window to another, the old one gets
/// `inactive_text_color` (else 0x00cfc8c0), its inactive border by its own
/// `WS_EX_TOPMOST` bit, and `inactive_title_color` where set.
pub proof fn lemma_demoted_colors_follow_settings(cfg: DecodedConfig, old: usize, ev: WindowEvent)
    requires
        old != 0,
        ev.hwnd == ev.foreground,
        ev.hwnd != old,
    ensures
        ({
            let w = planned_writes(cfg, Some(old), ev);
            let text: u32 = match cfg.inactive_text_color {
                Some(c) => c,
                None => 0x00cf_c8c0u32,
            };
            let border: u32 = if ev.last_focus_style & 8isize != 0 {
                cfg.inactive_topmost_border_color
            } else {
                cfg.inactive_border_color
            };
            &&& w.contains(AttributeWrite { hwnd: old, attribute: WindowAttribute::TextColor(text) })
            &&& w.contains(AttributeWrite { hwnd: old, attribute: WindowAttribute::BorderColor(border) })
            &&& forall|c: u32|
                w.contains(AttributeWrite { hwnd: old, attribute: WindowAttribute::CaptionColor(c) })
                    <==> cfg.inactive_title_color == Some(c)
        }),
{
    lemma_old_focus_demoted(cfg, old, ev);
    lemma_topmost_bit_decides(ev.last_focus_style);
    let w = planned_writes(cfg, Some(old), ev);
    let f = forced_writes(cfg, ev);
    let d = demote_writes(cfg, Some(old), ev);
    let o = own_writes(cfg, ev);
    let n = f.len() + d.len();
    assert(w == f + d + o);
    assert forall|c: u32|
        w.contains(AttributeWrite { hwnd: old, attribute: WindowAttribute::CaptionColor(c) })
            <==> cfg.inactive_title_color == Some(c) by {
        let cw = AttributeWrite { hwnd: old, attribute: WindowAttribute::CaptionColor(c) };
        if cfg.inactive_title_color == Some(c) {
            assert(w[f.len() as int + 2] == d[2]);
        }
        if w.contains(cw) {
            let i = choose|i: int| 0 <= i < w.len() && w[i] == cw;
            if i < f.len() {
                assert(w[i] == f[i]);
            } else if i < n {
                assert(w[i] == d[i - f.len()]);
            } else {
                assert(w[i] == o[i - n]);
            }
        }
    }
}

} // verus!
