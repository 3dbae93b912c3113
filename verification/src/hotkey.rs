//! Hotkeys: a hotkey as its modifier bits and key name, decoded from the
//! text of the configuration with `handy-keys`.

use vstd::prelude::*;

verus! {

/// A hotkey as `handy_keys::Hotkey` holds it: the bits of its modifier set
/// (`Modifiers::bits`) and, if it has one, the name of its key (the key's
/// `Display` text).
#[derive(Debug)]
pub struct HotkeyBinding {
    pub modifiers: u32,
    pub key: Option<String>,
}

/// The plain value of a binding: modifier bits and key name.
pub type BindingValue = (u32, Option<Seq<char>>);

impl View for HotkeyBinding {
    type V = BindingValue;

    open spec fn view(&self) -> BindingValue {
        (
            self.modifiers,
            match self.key {
                Some(k) => Some(k@),
                None => None,
            },
        )
    }
}

impl HotkeyBinding {
    /// A copy of the binding.
    pub fn copied(&self) -> (res: HotkeyBinding)
        ensures
            res@ == self@,
    {
        HotkeyBinding {
            modifiers: self.modifiers,
            key: match &self.key {
                Some(k) => Some(k.clone()),
                None => None,
            },
        }
    }
}

/// The bits of `handy_keys::Modifiers::CTRL` (left and right Ctrl).
pub const CTRL_MODIFIER_BITS: u32 = 0x84;

/// The keypad keys that stand in the default bindings.
#[derive(Clone, Copy, Debug, PartialEq, Eq, Structural)]
pub enum KeypadDigit {
    Zero,
    Two,
    Eight,
}

/// The name of a keypad key, as `handy_keys::Key` displays it.
pub open spec fn keypad_key_name(digit: KeypadDigit) -> Seq<char> {
    match digit {
        KeypadDigit::Zero => "Keypad0"@,
        KeypadDigit::Two => "Keypad2"@,
        KeypadDigit::Eight => "Keypad8"@,
    }
}

/// The binding Ctrl + the given keypad key.
pub open spec fn ctrl_keypad_value(digit: KeypadDigit) -> BindingValue {
    (CTRL_MODIFIER_BITS, Some(keypad_key_name(digit)))
}

/// The plain value of an optional binding.
pub open spec fn opt_binding(b: Option<HotkeyBinding>) -> Option<BindingValue> {
    match b {
        Some(b) => Some(b@),
        None => None,
    }
}

/// What `handy-keys` reads from hotkey text (`"Ctrl+Keypad0"`, `"Alt+F4"`, ...):
/// `None` where `<Hotkey as FromStr>::from_str` refuses it, otherwise the
/// modifier bits and the key's display name of the parsed hotkey.
pub uninterp spec fn hotkey_binding_of(text: Seq<char>) -> Option<BindingValue>;

/// Parses hotkey text with `<handy_keys::Hotkey as FromStr>::from_str` and
/// converts the hotkey into its modifier bits (`Modifiers::bits`) and key
/// name (`Key`'s `Display`). Trusted: the result is a function of the text
/// alone, named `hotkey_binding_of`; nothing more is claimed of the parser.
#[verifier::external_body]
pub(crate) fn parse_hotkey(text: &str) -> (res: Option<HotkeyBinding>)
    ensures
        opt_binding(res) == hotkey_binding_of(text@),
{
    match text.parse::<handy_keys::Hotkey>() {
        Ok(hotkey) => Some(HotkeyBinding {
            modifiers: hotkey.modifiers.bits(),
            key: match hotkey.key {
                Some(key) => Some(key.to_string()),
                None => None,
            },
        }),
        Err(_) => None,
    }
}

/// Builds `Hotkey::new(Modifiers::CTRL, key)` for a keypad key with
/// `handy-keys` and converts it as `parse_hotkey` does. Trusted: the
/// handy-keys source defines `CTRL` as the bits `1 << 2 | 1 << 7` and displays
/// `Key::Keypad0`, `Keypad2`, `Keypad8` as `"Keypad0"`, `"Keypad2"`,
/// `"Keypad8"`; `Hotkey::new` fails only without modifiers and key.
#[verifier::external_body]
fn ctrl_keypad_binding(digit: KeypadDigit) -> (res: HotkeyBinding)
    ensures
        res@ == ctrl_keypad_value(digit),
{
    let key = match digit {
        KeypadDigit::Zero => handy_keys::Key::Keypad0,
        KeypadDigit::Two => handy_keys::Key::Keypad2,
        KeypadDigit::Eight => handy_keys::Key::Keypad8,
    };
    let hotkey = handy_keys::Hotkey::new(handy_keys::Modifiers::CTRL, key).unwrap();
    HotkeyBinding {
        modifiers: hotkey.modifiers.bits(),
        key: match hotkey.key {
            Some(key) => Some(key.to_string()),
            None => None,
        },
    }
}

/// A parsed binding, or Ctrl + the fallback keypad key where there is none.
pub open spec fn binding_or_fallback(parsed: Option<BindingValue>, fallback: KeypadDigit) -> BindingValue {
    match parsed {
        Some(b) => b,
        None => ctrl_keypad_value(fallback),
    }
}

/// The binding decoded from hotkey text: the parsed hotkey, or Ctrl + the
/// fallback keypad key where `handy-keys` refuses the text.
pub open spec fn decoded_binding(text: Seq<char>, fallback: KeypadDigit) -> BindingValue {
    binding_or_fallback(hotkey_binding_of(text), fallback)
}

/// Keeps a parsed binding, or builds Ctrl + `fallback` where parsing failed.
pub fn choose_binding(parsed: Option<HotkeyBinding>, fallback: KeypadDigit) -> (res: HotkeyBinding)
    ensures
        res@ == binding_or_fallback(opt_binding(parsed), fallback),
{
    match parsed {
        Some(binding) => binding,
        None => ctrl_keypad_binding(fallback),
    }
}

/// Whether `handy-keys` refuses the hotkey text (decoding then falls back).
pub fn hotkey_refused(text: &str) -> (res: bool)
    ensures
        res == (hotkey_binding_of(text@) is None),
{
    parse_hotkey(text).is_none()
}

/// Decodes hotkey text, falling back to Ctrl + `fallback` when `handy-keys`
/// refuses the text.
pub fn decode_hotkey(text: &str, fallback: KeypadDigit) -> (res: HotkeyBinding)
    ensures
        res@ == decoded_binding(text@, fallback),
{
    choose_binding(parse_hotkey(text), fallback)
}


/// Whatever `handy-keys` parses is kept as it is, with or without
/// modifiers and whatever the fallback; the fallback Ctrl + keypad key
/// (modifier bits 0x84) is used only where it refuses the text.
pub proof fn lemma_decoded_binding_exact(text: Seq<char>, fallback: KeypadDigit)
    ensures
        hotkey_binding_of(text) matches Some(b) ==> decoded_binding(text, fallback) == b,
        hotkey_binding_of(text) is None ==> decoded_binding(text, fallback) == (
            0x84u32,
            Some(
                match fallback {
                    KeypadDigit::Zero => "Keypad0"@,
                    KeypadDigit::Two => "Keypad2"@,
                    KeypadDigit::Eight => "Keypad8"@,
                },
            ),
        ),
        forall|b: BindingValue| #[trigger] binding_or_fallback(Some(b), fallback) == b,
{
}

} // verus!
