//! The configuration: the values of `config.toml` as text, the raw settings
//! they stand for, and the decoded settings that the decorator applies.

use vstd::prelude::*;
use crate::color::{
    Rgba8, color_ref_of, css_color_rgba8, parse_css_color, color_to_color_ref,
    option_color_to_color_ref,
};
use crate::hotkey::{
    BindingValue, HotkeyBinding, KeypadDigit, decode_hotkey, decoded_binding, hotkey_binding_of,
    hotkey_refused,
};

verus! {

/// Whether the view of `text` is `expected`.
fn text_is(text: &str, expected: &str) -> (res: bool)
    ensures
        res == (text@ == expected@),
{
    let a: String = text.to_owned();
    let b: String = expected.to_owned();
    a == b
}

/// The color scheme forced on every window.
#[derive(Clone, Copy, Debug, PartialEq, Eq, Structural)]
pub enum ColorScheme {
    NoChange,
    Dark,
    Light,
}

/// The value of a color-scheme setting as written in `config.toml`.
pub open spec fn color_scheme_named(name: Seq<char>) -> Option<ColorScheme> {
    if name == "NoChange"@ {
        Some(ColorScheme::NoChange)
    } else if name == "Dark"@ {
        Some(ColorScheme::Dark)
    } else if name == "Light"@ {
        Some(ColorScheme::Light)
    } else {
        None
    }
}

/// The number the window manager takes for a color scheme
/// (`DWMWA_USE_IMMERSIVE_DARK_MODE`); `-1` leaves the window alone.
pub open spec fn color_scheme_code(s: ColorScheme) -> i32 {
    match s {
        ColorScheme::NoChange => -1i32,
        ColorScheme::Dark => 1,
        ColorScheme::Light => 0,
    }
}

impl ColorScheme {
    /// Reads a color-scheme setting: `"NoChange"`, `"Dark"` or `"Light"`.
    pub fn from_name(name: &str) -> (res: Option<ColorScheme>)
        ensures
            res == color_scheme_named(name@),
    {
        if text_is(name, "NoChange") {
            Some(ColorScheme::NoChange)
        } else if text_is(name, "Dark") {
            Some(ColorScheme::Dark)
        } else if text_is(name, "Light") {
            Some(ColorScheme::Light)
        } else {
            None
        }
    }

    /// The number of the scheme: `NoChange` is -1, `Dark` 1, `Light` 0.
    pub fn code(&self) -> (res: i32)
        ensures
            res == color_scheme_code(*self),
    {
        match self {
            ColorScheme::NoChange => -1i32,
            ColorScheme::Dark => 1,
            ColorScheme::Light => 0,
        }
    }
}

impl Default for ColorScheme {
    fn default() -> (res: ColorScheme)
        ensures
            res == ColorScheme::NoChange,
    {
        ColorScheme::NoChange
    }
}

/// The corner style forced on every window.
#[derive(Clone, Copy, Debug, PartialEq, Eq, Structural)]
pub enum BorderRadius {
    NoChange,
    Rect,
    Round,
}

/// The value of a border-radius setting as written in `config.toml`.
pub open spec fn border_radius_named(name: Seq<char>) -> Option<BorderRadius> {
    if name == "NoChange"@ {
        Some(BorderRadius::NoChange)
    } else if name == "Rect"@ {
        Some(BorderRadius::Rect)
    } else if name == "Round"@ {
        Some(BorderRadius::Round)
    } else {
        None
    }
}

/// The number the window manager takes for a corner style
/// (`DWMWA_WINDOW_CORNER_PREFERENCE`): `Rect` is `DWMWCP_DONOTROUND` (1),
/// `Round` is `DWMWCP_ROUND` (2); `-1` leaves the window alone.
pub open spec fn border_radius_code(r: BorderRadius) -> i32 {
    match r {
        BorderRadius::NoChange => -1i32,
        BorderRadius::Rect => 1,
        BorderRadius::Round => 2,
    }
}

impl BorderRadius {
    /// Reads a border-radius setting: `"NoChange"`, `"Rect"` or `"Round"`.
    pub fn from_name(name: &str) -> (res: Option<BorderRadius>)
        ensures
            res == border_radius_named(name@),
    {
        if text_is(name, "NoChange") {
            Some(BorderRadius::NoChange)
        } else if text_is(name, "Rect") {
            Some(BorderRadius::Rect)
        } else if text_is(name, "Round") {
            Some(BorderRadius::Round)
        } else {
            None
        }
    }

    /// The number of the style: `NoChange` is -1, `Rect` 1
    /// (`DWMWCP_DONOTROUND`), `Round` 2 (`DWMWCP_ROUND`).
    pub fn code(&self) -> (res: i32)
        ensures
            res == border_radius_code(*self),
    {
        match self {
            BorderRadius::NoChange => -1i32,
            BorderRadius::Rect => 1,
            BorderRadius::Round => 2,
        }
    }
}

impl Default for BorderRadius {
    fn default() -> (res: BorderRadius)
        ensures
            res == BorderRadius::NoChange,
    {
        BorderRadius::NoChange
    }
}


/// The view of an optional text.
pub open spec fn opt_text(o: Option<String>) -> Option<Seq<char>> {
    match o {
        Some(s) => Some(s@),
        None => None,
    }
}

/// The settings of `config.toml` before decoding: color schemes, the four
/// border colors, the three hotkey texts and the four optional title colors.
#[derive(Debug)]
pub struct RawConfig {
    pub force_color_scheme: ColorScheme,
    pub force_border_radius: BorderRadius,
    pub active_border_color: Rgba8,
    pub active_topmost_border_color: Rgba8,
    pub inactive_border_color: Rgba8,
    pub inactive_topmost_border_color: Rgba8,
    pub key_toggle_topmost: String,
    pub key_increase_transparency: String,
    pub key_decrease_transparency: String,
    pub active_title_color: Option<Rgba8>,
    pub inactive_title_color: Option<Rgba8>,
    pub active_text_color: Option<Rgba8>,
    pub inactive_text_color: Option<Rgba8>,
}

/// A `RawConfig` with its texts taken as character sequences.
pub struct RawConfigView {
    pub force_color_scheme: ColorScheme,
    pub force_border_radius: BorderRadius,
    pub active_border_color: Rgba8,
    pub active_topmost_border_color: Rgba8,
    pub inactive_border_color: Rgba8,
    pub inactive_topmost_border_color: Rgba8,
    pub key_toggle_topmost: Seq<char>,
    pub key_increase_transparency: Seq<char>,
    pub key_decrease_transparency: Seq<char>,
    pub active_title_color: Option<Rgba8>,
    pub inactive_title_color: Option<Rgba8>,
    pub active_text_color: Option<Rgba8>,
    pub inactive_text_color: Option<Rgba8>,
}

impl View for RawConfig {
    type V = RawConfigView;

    open spec fn view(&self) -> RawConfigView {
        RawConfigView {
            force_color_scheme: self.force_color_scheme,
            force_border_radius: self.force_border_radius,
            active_border_color: self.active_border_color,
            active_topmost_border_color: self.active_topmost_border_color,
            inactive_border_color: self.inactive_border_color,
            inactive_topmost_border_color: self.inactive_topmost_border_color,
            key_toggle_topmost: self.key_toggle_topmost@,
            key_increase_transparency: self.key_increase_transparency@,
            key_decrease_transparency: self.key_decrease_transparency@,
            active_title_color: self.active_title_color,
            inactive_title_color: self.inactive_title_color,
            active_text_color: self.active_text_color,
            inactive_text_color: self.inactive_text_color,
        }
    }
}

/// The settings used where `config.toml` cannot be read or decoded:
/// no forced scheme or corners, borders `#00aaff` (active), `#ffba00`
/// (active topmost), `#808080` (inactive), `#775500` (inactive topmost),
/// hotkeys Ctrl+Keypad0 / Ctrl+Keypad2 / Ctrl+Keypad8, no title colors.
pub open spec fn default_raw_config() -> RawConfigView {
    RawConfigView {
        force_color_scheme: ColorScheme::NoChange,
        force_border_radius: BorderRadius::NoChange,
        active_border_color: Rgba8 { r: 0x00, g: 0xaa, b: 0xff, a: 0xff },
        active_topmost_border_color: Rgba8 { r: 0xff, g: 0xba, b: 0x00, a: 0xff },
        inactive_border_color: Rgba8 { r: 0x80, g: 0x80, b: 0x80, a: 0xff },
        inactive_topmost_border_color: Rgba8 { r: 0x77, g: 0x55, b: 0x00, a: 0xff },
        key_toggle_topmost: "Ctrl+Keypad0"@,
        key_increase_transparency: "Ctrl+Keypad2"@,
        key_decrease_transparency: "Ctrl+Keypad8"@,
        active_title_color: None,
        inactive_title_color: None,
        active_text_color: None,
        inactive_text_color: None,
    }
}

impl Default for RawConfig {
    fn default() -> (res: RawConfig)
        ensures
            res@ == default_raw_config(),
            res.force_color_scheme == ColorScheme::NoChange,
            res.force_border_radius == BorderRadius::NoChange,
            res.active_border_color == (Rgba8 { r: 0x00, g: 0xaa, b: 0xff, a: 0xff }),
            res.active_topmost_border_color == (Rgba8 { r: 0xff, g: 0xba, b: 0x00, a: 0xff }),
            res.inactive_border_color == (Rgba8 { r: 0x80, g: 0x80, b: 0x80, a: 0xff }),
            res.inactive_topmost_border_color == (Rgba8 { r: 0x77, g: 0x55, b: 0x00, a: 0xff }),
            res.key_toggle_topmost@ == "Ctrl+Keypad0"@,
            res.key_increase_transparency@ == "Ctrl+Keypad2"@,
            res.key_decrease_transparency@ == "Ctrl+Keypad8"@,
            res.active_title_color is None,
            res.inactive_title_color is None,
            res.active_text_color is None,
            res.inactive_text_color is None,
    {
        RawConfig {
            force_color_scheme: ColorScheme::NoChange,
            force_border_radius: BorderRadius::NoChange,
            active_border_color: Rgba8 { r: 0x00, g: 0xaa, b: 0xff, a: 0xff },
            active_topmost_border_color: Rgba8 { r: 0xff, g: 0xba, b: 0x00, a: 0xff },
            inactive_border_color: Rgba8 { r: 0x80, g: 0x80, b: 0x80, a: 0xff },
            inactive_topmost_border_color: Rgba8 { r: 0x77, g: 0x55, b: 0x00, a: 0xff },
            key_toggle_topmost: "Ctrl+Keypad0".to_owned(),
            key_increase_transparency: "Ctrl+Keypad2".to_owned(),
            key_decrease_transparency: "Ctrl+Keypad8".to_owned(),
            active_title_color: None,
            inactive_title_color: None,
            active_text_color: None,
            inactive_text_color: None,
        }
    }
}

/// The entries of `config.toml` as text, one per setting; `None` where the
/// file has no entry of that name.
#[derive(Debug)]
pub struct ConfigFields {
    pub force_color_scheme: Option<String>,
    pub force_border_radius: Option<String>,
    pub active_border_color: Option<String>,
    pub active_topmost_border_color: Option<String>,
    pub inactive_border_color: Option<String>,
    pub inactive_topmost_border_color: Option<String>,
    pub key_toggle_topmost: Option<String>,
    pub key_increase_transparency: Option<String>,
    pub key_decrease_transparency: Option<String>,
    pub active_title_color: Option<String>,
    pub inactive_title_color: Option<String>,
    pub active_text_color: Option<String>,
    pub inactive_text_color: Option<String>,
}

/// `ConfigFields` with its texts taken as character sequences.
pub struct ConfigFieldsView {
    pub force_color_scheme: Option<Seq<char>>,
    pub force_border_radius: Option<Seq<char>>,
    pub active_border_color: Option<Seq<char>>,
    pub active_topmost_border_color: Option<Seq<char>>,
    pub inactive_border_color: Option<Seq<char>>,
    pub inactive_topmost_border_color: Option<Seq<char>>,
    pub key_toggle_topmost: Option<Seq<char>>,
    pub key_increase_transparency: Option<Seq<char>>,
    pub key_decrease_transparency: Option<Seq<char>>,
    pub active_title_color: Option<Seq<char>>,
    pub inactive_title_color: Option<Seq<char>>,
    pub active_text_color: Option<Seq<char>>,
    pub inactive_text_color: Option<Seq<char>>,
}

impl View for ConfigFields {
    type V = ConfigFieldsView;

    open spec fn view(&self) -> ConfigFieldsView {
        ConfigFieldsView {
            force_color_scheme: opt_text(self.force_color_scheme),
            force_border_radius: opt_text(self.force_border_radius),
            active_border_color: opt_text(self.active_border_color),
            active_topmost_border_color: opt_text(self.active_topmost_border_color),
            inactive_border_color: opt_text(self.inactive_border_color),
            inactive_topmost_border_color: opt_text(self.inactive_topmost_border_color),
            key_toggle_topmost: opt_text(self.key_toggle_topmost),
            key_increase_transparency: opt_text(self.key_increase_transparency),
            key_decrease_transparency: opt_text(self.key_decrease_transparency),
            active_title_color: opt_text(self.active_title_color),
            inactive_title_color: opt_text(self.inactive_title_color),
            active_text_color: opt_text(self.active_text_color),
            inactive_text_color: opt_text(self.inactive_text_color),
        }
    }
}

impl ConfigFields {
    /// No entry at all: what an unreadable file gives.
    pub fn empty() -> (res: ConfigFields)
        ensures
            res.force_color_scheme is None,
            res.force_border_radius is None,
            res.active_border_color is None,
            res.active_topmost_border_color is None,
            res.inactive_border_color is None,
            res.inactive_topmost_border_color is None,
            res.key_toggle_topmost is None,
            res.key_increase_transparency is None,
            res.key_decrease_transparency is None,
            res.active_title_color is None,
            res.inactive_title_color is None,
            res.active_text_color is None,
            res.inactive_text_color is None,
    {
        ConfigFields {
            force_color_scheme: None,
            force_border_radius: None,
            active_border_color: None,
            active_topmost_border_color: None,
            inactive_border_color: None,
            inactive_topmost_border_color: None,
            key_toggle_topmost: None,
            key_increase_transparency: None,
            key_decrease_transparency: None,
            active_title_color: None,
            inactive_title_color: None,
            active_text_color: None,
            inactive_text_color: None,
        }
    }
}

/// What the CSS color parser made of each color entry: `None` where the
/// entry is absent or its text is refused.
#[derive(Clone, Copy, Debug, PartialEq, Eq, Structural)]
pub struct ParsedColors {
    pub active_border_color: Option<Rgba8>,
    pub active_topmost_border_color: Option<Rgba8>,
    pub inactive_border_color: Option<Rgba8>,
    pub inactive_topmost_border_color: Option<Rgba8>,
    pub active_title_color: Option<Rgba8>,
    pub inactive_title_color: Option<Rgba8>,
    pub active_text_color: Option<Rgba8>,
    pub inactive_text_color: Option<Rgba8>,
}

/// The parser's result for one color entry.
pub open spec fn entry_color(entry: Option<Seq<char>>) -> Option<Rgba8> {
    match entry {
        Some(text) => css_color_rgba8(text),
        None => None,
    }
}

/// The parser's results for all color entries of `f`.
pub open spec fn parsed_colors_of(f: ConfigFieldsView) -> ParsedColors {
    ParsedColors {
        active_border_color: entry_color(f.active_border_color),
        active_topmost_border_color: entry_color(f.active_topmost_border_color),
        inactive_border_color: entry_color(f.inactive_border_color),
        inactive_topmost_border_color: entry_color(f.inactive_topmost_border_color),
        active_title_color: entry_color(f.active_title_color),
        inactive_title_color: entry_color(f.inactive_title_color),
        active_text_color: entry_color(f.active_text_color),
        inactive_text_color: entry_color(f.inactive_text_color),
    }
}

/// A required color entry: present and parsed.
pub open spec fn required_color(entry: Option<Seq<char>>, parsed: Option<Rgba8>) -> Option<Rgba8> {
    match entry {
        Some(_) => parsed,
        None => None,
    }
}

/// An optional color entry: absent gives `Some(None)`; present, it must
/// have parsed.
pub open spec fn optional_color(entry: Option<Seq<char>>, parsed: Option<Rgba8>) -> Option<Option<Rgba8>> {
    match entry {
        None => Some(None),
        Some(_) => match parsed {
            Some(c) => Some(Some(c)),
            None => None,
        },
    }
}

/// A color-scheme entry.
pub open spec fn required_scheme(entry: Option<Seq<char>>) -> Option<ColorScheme> {
    match entry {
        Some(text) => color_scheme_named(text),
        None => None,
    }
}

/// A border-radius entry.
pub open spec fn required_radius(entry: Option<Seq<char>>) -> Option<BorderRadius> {
    match entry {
        Some(text) => border_radius_named(text),
        None => None,
    }
}

/// Whether the entries decode, given what the parser made of the colors:
/// all required entries present, the scheme and corner names known, every
/// present color parsed.
pub open spec fn entries_decode(f: ConfigFieldsView, c: ParsedColors) -> bool {
    &&& required_scheme(f.force_color_scheme) is Some
    &&& required_radius(f.force_border_radius) is Some
    &&& required_color(f.active_border_color, c.active_border_color) is Some
    &&& required_color(f.active_topmost_border_color, c.active_topmost_border_color) is Some
    &&& required_color(f.inactive_border_color, c.inactive_border_color) is Some
    &&& required_color(f.inactive_topmost_border_color, c.inactive_topmost_border_color) is Some
    &&& f.key_toggle_topmost is Some
    &&& f.key_increase_transparency is Some
    &&& f.key_decrease_transparency is Some
    &&& optional_color(f.active_title_color, c.active_title_color) is Some
    &&& optional_color(f.inactive_title_color, c.inactive_title_color) is Some
    &&& optional_color(f.active_text_color, c.active_text_color) is Some
    &&& optional_color(f.inactive_text_color, c.inactive_text_color) is Some
}

/// The settings that the entries stand for, given the parsed colors, where
/// they all decode.
pub open spec fn raw_config_from_entries(f: ConfigFieldsView, c: ParsedColors) -> Option<RawConfigView> {
    if entries_decode(f, c) {
        Some(
            RawConfigView {
                force_color_scheme: required_scheme(f.force_color_scheme)->0,
                force_border_radius: required_radius(f.force_border_radius)->0,
                active_border_color: required_color(f.active_border_color, c.active_border_color)->0,
                active_topmost_border_color: required_color(
                    f.active_topmost_border_color,
                    c.active_topmost_border_color,
                )->0,
                inactive_border_color: required_color(f.inactive_border_color, c.inactive_border_color)->0,
                inactive_topmost_border_color: required_color(
                    f.inactive_topmost_border_color,
                    c.inactive_topmost_border_color,
                )->0,
                key_toggle_topmost: f.key_toggle_topmost->0,
                key_increase_transparency: f.key_increase_transparency->0,
                key_decrease_transparency: f.key_decrease_transparency->0,
                active_title_color: optional_color(f.active_title_color, c.active_title_color)->0,
                inactive_title_color: optional_color(f.inactive_title_color, c.inactive_title_color)->0,
                active_text_color: optional_color(f.active_text_color, c.active_text_color)->0,
                inactive_text_color: optional_color(f.inactive_text_color, c.inactive_text_color)->0,
            },
        )
    } else {
        None
    }
}

/// Whether every entry of `f` decodes, its colors read by the CSS parser.
pub open spec fn fields_decode(f: ConfigFieldsView) -> bool {
    entries_decode(f, parsed_colors_of(f))
}

/// The settings that the entries of `f` stand for, where they all decode.
pub open spec fn raw_config_from_fields(f: ConfigFieldsView) -> Option<RawConfigView> {
    raw_config_from_entries(f, parsed_colors_of(f))
}

fn parse_entry_color(entry: &Option<String>) -> (res: Option<Rgba8>)
    ensures
        res == entry_color(opt_text(*entry)),
{
    match entry {
        Some(text) => parse_css_color(text.as_str()),
        None => None,
    }
}

/// Runs the CSS color parser on every color entry.
pub fn parse_colors(fields: &ConfigFields) -> (res: ParsedColors)
    ensures
        res == parsed_colors_of(fields@),
        res.active_border_color == (match fields.active_border_color {
            Some(t) => css_color_rgba8(t@),
            None => None,
        }),
        res.active_topmost_border_color == (match fields.active_topmost_border_color {
            Some(t) => css_color_rgba8(t@),
            None => None,
        }),
        res.inactive_border_color == (match fields.inactive_border_color {
            Some(t) => css_color_rgba8(t@),
            None => None,
        }),
        res.inactive_topmost_border_color == (match fields.inactive_topmost_border_color {
            Some(t) => css_color_rgba8(t@),
            None => None,
        }),
        res.active_title_color == (match fields.active_title_color {
            Some(t) => css_color_rgba8(t@),
            None => None,
        }),
        res.inactive_title_color == (match fields.inactive_title_color {
            Some(t) => css_color_rgba8(t@),
            None => None,
        }),
        res.active_text_color == (match fields.active_text_color {
            Some(t) => css_color_rgba8(t@),
            None => None,
        }),
        res.inactive_text_color == (match fields.inactive_text_color {
            Some(t) => css_color_rgba8(t@),
            None => None,
        }),
{
    ParsedColors {
        active_border_color: parse_entry_color(&fields.active_border_color),
        active_topmost_border_color: parse_entry_color(&fields.active_topmost_border_color),
        inactive_border_color: parse_entry_color(&fields.inactive_border_color),
        inactive_topmost_border_color: parse_entry_color(&fields.inactive_topmost_border_color),
        active_title_color: parse_entry_color(&fields.active_title_color),
        inactive_title_color: parse_entry_color(&fields.inactive_title_color),
        active_text_color: parse_entry_color(&fields.active_text_color),
        inactive_text_color: parse_entry_color(&fields.inactive_text_color),
    }
}

fn decode_required_color(entry: &Option<String>, parsed: Option<Rgba8>) -> (res: Option<Rgba8>)
    ensures
        res == required_color(opt_text(*entry), parsed),
{
    match entry {
        Some(_) => parsed,
        None => None,
    }
}

fn decode_optional_color(entry: &Option<String>, parsed: Option<Rgba8>) -> (res: Option<Option<Rgba8>>)
    ensures
        res == optional_color(opt_text(*entry), parsed),
{
    match entry {
        None => Some(None),
        Some(_) => match parsed {
            Some(c) => Some(Some(c)),
            None => None,
        },
    }
}

fn decode_text(entry: &Option<String>) -> (res: Option<String>)
    ensures
        opt_text(res) == opt_text(*entry),
{
    match entry {
        Some(text) => Some(text.clone()),
        None => None,
    }
}

fn decode_scheme(entry: &Option<String>) -> (res: Option<ColorScheme>)
    ensures
        res == required_scheme(opt_text(*entry)),
{
    match entry {
        Some(text) => ColorScheme::from_name(text.as_str()),
        None => None,
    }
}

fn decode_radius(entry: &Option<String>) -> (res: Option<BorderRadius>)
    ensures
        res == required_radius(opt_text(*entry)),
{
    match entry {
        Some(text) => BorderRadius::from_name(text.as_str()),
        None => None,
    }
}

impl RawConfig {
    /// Reads the settings from the entries of `config.toml`, with `colors`
    /// what the CSS color parser made of the color entries: `None` when an
    /// entry is missing (the title and text colors may be), when a scheme or
    /// corner name is unknown, or when a present color was not parsed.
    pub fn from_entries(fields: &ConfigFields, colors: ParsedColors) -> (res: Option<RawConfig>)
        ensures
            entries_decode(fields@, colors) <==> res is Some,
            res matches Some(r) ==> raw_config_from_entries(fields@, colors) == Some(r@),
    {
        let force_color_scheme = match decode_scheme(&fields.force_color_scheme) {
            Some(v) => v,
            None => return None,
        };
        let force_border_radius = match decode_radius(&fields.force_border_radius) {
            Some(v) => v,
            None => return None,
        };
        let active_border_color = match decode_required_color(
            &fields.active_border_color,
            colors.active_border_color,
        ) {
            Some(v) => v,
            None => return None,
        };
        let active_topmost_border_color = match decode_required_color(
            &fields.active_topmost_border_color,
            colors.active_topmost_border_color,
        ) {
            Some(v) => v,
            None => return None,
        };
        let inactive_border_color = match decode_required_color(
            &fields.inactive_border_color,
            colors.inactive_border_color,
        ) {
            Some(v) => v,
            None => return None,
        };
        let inactive_topmost_border_color = match decode_required_color(
            &fields.inactive_topmost_border_color,
            colors.inactive_topmost_border_color,
        ) {
            Some(v) => v,
            None => return None,
        };
        let key_toggle_topmost = match decode_text(&fields.key_toggle_topmost) {
            Some(v) => v,
            None => return None,
        };
        let key_increase_transparency = match decode_text(&fields.key_increase_transparency) {
            Some(v) => v,
            None => return None,
        };
        let key_decrease_transparency = match decode_text(&fields.key_decrease_transparency) {
            Some(v) => v,
            None => return None,
        };
        let active_title_color = match decode_optional_color(
            &fields.active_title_color,
            colors.active_title_color,
        ) {
            Some(v) => v,
            None => return None,
        };
        let inactive_title_color = match decode_optional_color(
            &fields.inactive_title_color,
            colors.inactive_title_color,
        ) {
            Some(v) => v,
            None => return None,
        };
        let active_text_color = match decode_optional_color(
            &fields.active_text_color,
            colors.active_text_color,
        ) {
            Some(v) => v,
            None => return None,
        };
        let inactive_text_color = match decode_optional_color(
            &fields.inactive_text_color,
            colors.inactive_text_color,
        ) {
            Some(v) => v,
            None => return None,
        };
        let raw = RawConfig {
            force_color_scheme,
            force_border_radius,
            active_border_color,
            active_topmost_border_color,
            inactive_border_color,
            inactive_topmost_border_color,
            key_toggle_topmost,
            key_increase_transparency,
            key_decrease_transparency,
            active_title_color,
            inactive_title_color,
            active_text_color,
            inactive_text_color,
        };
        assert(raw_config_from_entries(fields@, colors) == Some(raw@));
        Some(raw)
    }

    /// Reads the settings from the entries of `config.toml`, parsing the
    /// color entries with the CSS color parser (see `from_entries`).
    pub fn from_fields(fields: &ConfigFields) -> (res: Option<RawConfig>)
        ensures
            fields_decode(fields@) <==> res is Some,
            res matches Some(r) ==> raw_config_from_fields(fields@) == Some(r@),
    {
        let colors = parse_colors(fields);
        RawConfig::from_entries(fields, colors)
    }
}

/// Which hotkey texts of the settings `handy-keys` refuses; those hotkeys
/// are decoded to their Ctrl + keypad fallback.
#[derive(Clone, Copy, Debug, PartialEq, Eq, Structural)]
pub struct RefusedHotkeys {
    pub toggle_topmost: bool,
    pub increase_transparency: bool,
    pub decrease_transparency: bool,
}

impl RawConfig {
    /// Tells, for each hotkey text, whether `handy-keys` refuses it.
    pub fn refused_hotkeys(&self) -> (res: RefusedHotkeys)
        ensures
            res.toggle_topmost == (hotkey_binding_of(self.key_toggle_topmost@) is None),
            res.increase_transparency == (hotkey_binding_of(self.key_increase_transparency@) is None),
            res.decrease_transparency == (hotkey_binding_of(self.key_decrease_transparency@) is None),
    {
        RefusedHotkeys {
            toggle_topmost: hotkey_refused(self.key_toggle_topmost.as_str()),
            increase_transparency: hotkey_refused(self.key_increase_transparency.as_str()),
            decrease_transparency: hotkey_refused(self.key_decrease_transparency.as_str()),
        }
    }
}

/// The settings as the decorator applies them: scheme and corner numbers
/// (`-1` for "leave alone"), colors as `COLORREF`s, hotkeys as bindings.
#[derive(Debug)]
pub struct DecodedConfig {
    pub force_color_scheme: i32,
    pub force_border_radius: i32,
    pub active_border_color: u32,
    pub active_topmost_border_color: u32,
    pub inactive_border_color: u32,
    pub inactive_topmost_border_color: u32,
    pub key_toggle_topmost: HotkeyBinding,
    pub key_increase_transparency: HotkeyBinding,
    pub key_decrease_transparency: HotkeyBinding,
    pub active_title_color: Option<u32>,
    pub inactive_title_color: Option<u32>,
    pub active_text_color: Option<u32>,
    pub inactive_text_color: Option<u32>,
}

/// A `DecodedConfig` with its hotkeys taken as plain bindings.
pub struct DecodedConfigView {
    pub force_color_scheme: i32,
    pub force_border_radius: i32,
    pub active_border_color: u32,
    pub active_topmost_border_color: u32,
    pub inactive_border_color: u32,
    pub inactive_topmost_border_color: u32,
    pub key_toggle_topmost: BindingValue,
    pub key_increase_transparency: BindingValue,
    pub key_decrease_transparency: BindingValue,
    pub active_title_color: Option<u32>,
    pub inactive_title_color: Option<u32>,
    pub active_text_color: Option<u32>,
    pub inactive_text_color: Option<u32>,
}

impl View for DecodedConfig {
    type V = DecodedConfigView;

    open spec fn view(&self) -> DecodedConfigView {
        DecodedConfigView {
            force_color_scheme: self.force_color_scheme,
            force_border_radius: self.force_border_radius,
            active_border_color: self.active_border_color,
            active_topmost_border_color: self.active_topmost_border_color,
            inactive_border_color: self.inactive_border_color,
            inactive_topmost_border_color: self.inactive_topmost_border_color,
            key_toggle_topmost: self.key_toggle_topmost@,
            key_increase_transparency: self.key_increase_transparency@,
            key_decrease_transparency: self.key_decrease_transparency@,
            active_title_color: self.active_title_color,
            inactive_title_color: self.inactive_title_color,
            active_text_color: self.active_text_color,
            inactive_text_color: self.inactive_text_color,
        }
    }
}

/// An optional color as a `COLORREF`.
pub open spec fn optional_color_ref(c: Option<Rgba8>) -> Option<u32> {
    match c {
        Some(c) => Some(color_ref_of(c)),
        None => None,
    }
}

/// The decoding of raw settings: numbers of the scheme and corner style,
/// packed colors, and each hotkey text parsed, or Ctrl+Keypad0 (toggle
/// topmost), Ctrl+Keypad2 (increase transparency), Ctrl+Keypad8 (decrease
/// transparency) where the text is refused.
pub open spec fn decode_raw_config(raw: RawConfigView) -> DecodedConfigView {
    DecodedConfigView {
        force_color_scheme: color_scheme_code(raw.force_color_scheme),
        force_border_radius: border_radius_code(raw.force_border_radius),
        active_border_color: color_ref_of(raw.active_border_color),
        active_topmost_border_color: color_ref_of(raw.active_topmost_border_color),
        inactive_border_color: color_ref_of(raw.inactive_border_color),
        inactive_topmost_border_color: color_ref_of(raw.inactive_topmost_border_color),
        key_toggle_topmost: decoded_binding(raw.key_toggle_topmost, KeypadDigit::Zero),
        key_increase_transparency: decoded_binding(raw.key_increase_transparency, KeypadDigit::Two),
        key_decrease_transparency: decoded_binding(raw.key_decrease_transparency, KeypadDigit::Eight),
        active_title_color: optional_color_ref(raw.active_title_color),
        inactive_title_color: optional_color_ref(raw.inactive_title_color),
        active_text_color: optional_color_ref(raw.active_text_color),
        inactive_text_color: optional_color_ref(raw.inactive_text_color),
    }
}

/// The settings that the entries of `config.toml` give: their decoding
/// where they all decode, the decoding of the defaults otherwise.
pub open spec fn config_from_fields(f: ConfigFieldsView) -> DecodedConfigView {
    match raw_config_from_fields(f) {
        Some(raw) => decode_raw_config(raw),
        None => decode_raw_config(default_raw_config()),
    }
}

impl DecodedConfig {
    /// Decodes raw settings (see `decode_raw_config`).
    pub fn from(value: RawConfig) -> (res: DecodedConfig)
        ensures
            res@ == decode_raw_config(value@),
    {
        DecodedConfig {
            force_color_scheme: value.force_color_scheme.code(),
            force_border_radius: value.force_border_radius.code(),
            active_border_color: color_to_color_ref(value.active_border_color),
            active_topmost_border_color: color_to_color_ref(value.active_topmost_border_color),
            inactive_border_color: color_to_color_ref(value.inactive_border_color),
            inactive_topmost_border_color: color_to_color_ref(value.inactive_topmost_border_color),
            key_toggle_topmost: decode_hotkey(value.key_toggle_topmost.as_str(), KeypadDigit::Zero),
            key_increase_transparency: decode_hotkey(
                value.key_increase_transparency.as_str(),
                KeypadDigit::Two,
            ),
            key_decrease_transparency: decode_hotkey(
                value.key_decrease_transparency.as_str(),
                KeypadDigit::Eight,
            ),
            active_title_color: option_color_to_color_ref(value.active_title_color),
            inactive_title_color: option_color_to_color_ref(value.inactive_title_color),
            active_text_color: option_color_to_color_ref(value.active_text_color),
            inactive_text_color: option_color_to_color_ref(value.inactive_text_color),
        }
    }

    /// The settings from the entries of `config.toml`, falling back to the
    /// defaults as a whole when any entry fails to decode; the flag tells
    /// whether the entries decoded (`false`: the defaults were used).
    pub fn from_fields(fields: &ConfigFields) -> (res: (DecodedConfig, bool))
        ensures
            res.0@ == config_from_fields(fields@),
            res.1 == fields_decode(fields@),
    {
        match RawConfig::from_fields(fields) {
            Some(raw) => (DecodedConfig::from(raw), true),
            None => (DecodedConfig::from(RawConfig::default()), false),
        }
    }
}

impl Default for DecodedConfig {
    fn default() -> (res: DecodedConfig)
        ensures
            res@ == decode_raw_config(default_raw_config()),
    {
        DecodedConfig::from(RawConfig::default())
    }
}


/// `NoChange` is the one setting that decodes to a negative number, so it
/// is exactly the one that leaves windows alone; the color schemes decode to
/// 0 (light) / 1 (dark), the corner styles to 1 (square) / 2 (round).
pub proof fn lemma_no_change_codes(scheme: ColorScheme, radius: BorderRadius)
    ensures
        (color_scheme_code(scheme) < 0) <==> scheme == ColorScheme::NoChange,
        (border_radius_code(radius) < 0) <==> radius == BorderRadius::NoChange,
        -1 <= color_scheme_code(scheme) <= 1,
        -1 <= border_radius_code(radius) <= 2,
        radius == BorderRadius::Round ==> border_radius_code(radius) == 2,
        radius == BorderRadius::Rect ==> border_radius_code(radius) == 1,
{
}

/// Reading the settings either succeeds and decodes what the file holds, or
/// gives exactly the decoded defaults: there is no partly-default result.
pub proof fn lemma_fields_all_or_default(f: ConfigFieldsView)
    ensures
        fields_decode(f) ==> config_from_fields(f) == decode_raw_config(
            raw_config_from_fields(f)->0,
        ),
        !fields_decode(f) ==> config_from_fields(f) == decode_raw_config(default_raw_config()),
{
}


/// Decoding keeps each hotkey that `handy-keys` parses and otherwise gives
/// the action's own fallback: Ctrl+Keypad0 for toggle topmost, Ctrl+Keypad2
/// for increase transparency, Ctrl+Keypad8 for decrease transparency.
pub proof fn lemma_decoded_hotkeys(raw: RawConfigView)
    ensures
        hotkey_binding_of(raw.key_toggle_topmost) matches Some(b) ==> decode_raw_config(raw).key_toggle_topmost == b,
        hotkey_binding_of(raw.key_increase_transparency) matches Some(b) ==> decode_raw_config(raw).key_increase_transparency == b,
        hotkey_binding_of(raw.key_decrease_transparency) matches Some(b) ==> decode_raw_config(raw).key_decrease_transparency == b,
        hotkey_binding_of(raw.key_toggle_topmost) is None ==> decode_raw_config(raw).key_toggle_topmost == (
            0x84u32,
            Some("Keypad0"@),
        ),
        hotkey_binding_of(raw.key_increase_transparency) is None ==> decode_raw_config(raw).key_increase_transparency == (
            0x84u32,
            Some("Keypad2"@),
        ),
        hotkey_binding_of(raw.key_decrease_transparency) is None ==> decode_raw_config(raw).key_decrease_transparency == (
            0x84u32,
            Some("Keypad8"@),
        ),
{
}

/// Decoding gives the window manager's numbers for the scheme (light 0,
/// dark 1) and corner style (square 1, round 2), -1 for "no change", and
/// each color as `0x00BBGGRR`, an optional color staying absent or present.
pub proof fn lemma_decoded_values(raw: RawConfigView)
    ensures
        ({
            let d = decode_raw_config(raw);
            &&& d.force_color_scheme == match raw.force_color_scheme {
                ColorScheme::NoChange => -1i32,
                ColorScheme::Dark => 1i32,
                ColorScheme::Light => 0i32,
            }
            &&& d.force_border_radius == match raw.force_border_radius {
                BorderRadius::NoChange => -1i32,
                BorderRadius::Rect => 1i32,
                BorderRadius::Round => 2i32,
            }
            &&& d.active_border_color as int == raw.active_border_color.b as int * 0x10000
                + raw.active_border_color.g as int * 0x100 + raw.active_border_color.r as int
            &&& d.active_topmost_border_color as int == raw.active_topmost_border_color.b as int * 0x10000
                + raw.active_topmost_border_color.g as int * 0x100 + raw.active_topmost_border_color.r as int
            &&& d.inactive_border_color as int == raw.inactive_border_color.b as int * 0x10000
                + raw.inactive_border_color.g as int * 0x100 + raw.inactive_border_color.r as int
            &&& d.inactive_topmost_border_color as int == raw.inactive_topmost_border_color.b as int * 0x10000
                + raw.inactive_topmost_border_color.g as int * 0x100 + raw.inactive_topmost_border_color.r as int
            &&& (d.active_title_color is Some <==> raw.active_title_color is Some)
            &&& (d.inactive_title_color is Some <==> raw.inactive_title_color is Some)
            &&& (d.active_text_color is Some <==> raw.active_text_color is Some)
            &&& (d.inactive_text_color is Some <==> raw.inactive_text_color is Some)
            &&& (raw.active_title_color matches Some(c) ==> d.active_title_color == Some(color_ref_of(c)))
            &&& (raw.inactive_title_color matches Some(c) ==> d.inactive_title_color == Some(color_ref_of(c)))
            &&& (raw.active_text_color matches Some(c) ==> d.active_text_color == Some(color_ref_of(c)))
            &&& (raw.inactive_text_color matches Some(c) ==> d.inactive_text_color == Some(color_ref_of(c)))
        }),
{
}


/// The setting names are read exactly: `"NoChange"`, `"Dark"`, `"Light"`
/// for the scheme and `"NoChange"`, `"Rect"`, `"Round"` for the corners,
/// each to its own value, and no other text is accepted.
pub proof fn lemma_setting_names(name: Seq<char>)
    ensures
        color_scheme_named("NoChange"@) == Some(ColorScheme::NoChange),
        color_scheme_named("Dark"@) == Some(ColorScheme::Dark),
        color_scheme_named("Light"@) == Some(ColorScheme::Light),
        border_radius_named("NoChange"@) == Some(BorderRadius::NoChange),
        border_radius_named("Rect"@) == Some(BorderRadius::Rect),
        border_radius_named("Round"@) == Some(BorderRadius::Round),
        color_scheme_named(name) is Some ==> name == "NoChange"@ || name == "Dark"@ || name == "Light"@,
        border_radius_named(name) is Some ==> name == "NoChange"@ || name == "Rect"@ || name == "Round"@,
{
    reveal_strlit("NoChange");
    reveal_strlit("Dark");
    reveal_strlit("Light");
    reveal_strlit("Rect");
    reveal_strlit("Round");
    assert("NoChange"@.len() == 8);
    assert("Dark"@.len() == 4);
    assert("Light"@.len() == 5);
    assert("Rect"@.len() == 4);
    assert("Round"@.len() == 5);
    assert("Dark"@ != "NoChange"@);
    assert("Light"@ != "NoChange"@);
    assert("Light"@ != "Dark"@);
    assert("Rect"@ != "NoChange"@);
    assert("Round"@ != "NoChange"@);
    assert("Round"@ != "Rect"@);
}

/// How the entries decode, given the parsed colors: every setting but the
/// four title and text colors must be present; a present color must have
/// parsed; then each setting takes its entry's value, and an absent title
/// or text color stays absent.
pub proof fn lemma_entries_rules(f: ConfigFieldsView, c: ParsedColors)
    ensures
        f.force_color_scheme is None || f.force_border_radius is None || f.active_border_color is None
            || f.active_topmost_border_color is None || f.inactive_border_color is None
            || f.inactive_topmost_border_color is None || f.key_toggle_topmost is None
            || f.key_increase_transparency is None || f.key_decrease_transparency is None
            ==> raw_config_from_entries(f, c) is None,
        c.active_border_color is None || c.active_topmost_border_color is None
            || c.inactive_border_color is None || c.inactive_topmost_border_color is None
            ==> raw_config_from_entries(f, c) is None,
        (f.active_title_color is Some && c.active_title_color is None) || (f.inactive_title_color is Some
            && c.inactive_title_color is None) || (f.active_text_color is Some && c.active_text_color is None)
            || (f.inactive_text_color is Some && c.inactive_text_color is None)
            ==> raw_config_from_entries(f, c) is None,
        (f.force_color_scheme is Some && color_scheme_named(f.force_color_scheme->0) is None) || (
        f.force_border_radius is Some && border_radius_named(f.force_border_radius->0) is None)
            ==> raw_config_from_entries(f, c) is None,
        raw_config_from_entries(f, c) matches Some(r) ==> {
            &&& Some(r.force_color_scheme) == color_scheme_named(f.force_color_scheme->0)
            &&& Some(r.force_border_radius) == border_radius_named(f.force_border_radius->0)
            &&& Some(r.active_border_color) == c.active_border_color
            &&& Some(r.active_topmost_border_color) == c.active_topmost_border_color
            &&& Some(r.inactive_border_color) == c.inactive_border_color
            &&& Some(r.inactive_topmost_border_color) == c.inactive_topmost_border_color
            &&& Some(r.key_toggle_topmost) == f.key_toggle_topmost
            &&& Some(r.key_increase_transparency) == f.key_increase_transparency
            &&& Some(r.key_decrease_transparency) == f.key_decrease_transparency
            &&& r.active_title_color == (if f.active_title_color is Some { c.active_title_color } else { None })
            &&& r.inactive_title_color == (if f.inactive_title_color is Some { c.inactive_title_color } else { None })
            &&& r.active_text_color == (if f.active_text_color is Some { c.active_text_color } else { None })
            &&& r.inactive_text_color == (if f.inactive_text_color is Some { c.inactive_text_color } else { None })
        },
        f.force_color_scheme is Some && color_scheme_named(f.force_color_scheme->0) is Some
            && f.force_border_radius is Some && border_radius_named(f.force_border_radius->0) is Some
            && f.active_border_color is Some
            && f.active_topmost_border_color is Some && f.inactive_border_color is Some
            && f.inactive_topmost_border_color is Some && c.active_border_color is Some
            && c.active_topmost_border_color is Some && c.inactive_border_color is Some
            && c.inactive_topmost_border_color is Some && f.key_toggle_topmost is Some
            && f.key_increase_transparency is Some && f.key_decrease_transparency is Some
            && (f.active_title_color is Some ==> c.active_title_color is Some)
            && (f.inactive_title_color is Some ==> c.inactive_title_color is Some)
            && (f.active_text_color is Some ==> c.active_text_color is Some)
            && (f.inactive_text_color is Some ==> c.inactive_text_color is Some)
            ==> raw_config_from_entries(f, c) is Some,
{
}

} // verus!
