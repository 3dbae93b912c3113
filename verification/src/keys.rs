//! Hotkey actions: what a press or release of each hotkey does, and how a
//! held transparency key speeds up.

use vstd::prelude::*;
use crate::configuration::DecodedConfig;
use crate::hotkey::HotkeyBinding;

verus! {

/// The actions bound to hotkeys.
#[derive(Clone, Copy, Debug, PartialEq, Eq, Hash, Structural)]
pub enum KeyAction {
    Topmost,
    IncreaseTransparency,
    DecreaseTransparency,
}

/// The name of an action, as it is shown in the log.
pub open spec fn key_action_name(action: KeyAction) -> Seq<char> {
    match action {
        KeyAction::Topmost => "Topmost"@,
        KeyAction::IncreaseTransparency => "IncreaseTransparency"@,
        KeyAction::DecreaseTransparency => "DecreaseTransparency"@,
    }
}

impl KeyAction {
    /// The action's name: `"Topmost"`, `"IncreaseTransparency"` or
    /// `"DecreaseTransparency"`.
    pub fn name(&self) -> (res: &'static str)
        ensures
            res@ == key_action_name(*self),
    {
        match self {
            KeyAction::Topmost => "Topmost",
            KeyAction::IncreaseTransparency => "IncreaseTransparency",
            KeyAction::DecreaseTransparency => "DecreaseTransparency",
        }
    }
}

/// What a hotkey event does.
#[derive(Clone, Copy, Debug, PartialEq, Eq, Structural)]
pub enum KeyEffect {
    /// Nothing happens.
    Nothing,
    /// The foreground window's topmost state is toggled.
    ToggleTopmost,
    /// The transparency counter changes by this amount; while the counter
    /// is positive the alpha rises (less transparent), while it is negative
    /// the alpha falls.
    AdjustTransparency(i32),
}

/// The effect of a hotkey being pressed (`pressed`) or released: Topmost
/// toggles on press only; DecreaseTransparency adds 1 to the counter on
/// press and takes it back on release; IncreaseTransparency the reverse.
pub open spec fn key_effect(action: KeyAction, pressed: bool) -> KeyEffect {
    match action {
        KeyAction::Topmost => if pressed {
            KeyEffect::ToggleTopmost
        } else {
            KeyEffect::Nothing
        },
        KeyAction::DecreaseTransparency => KeyEffect::AdjustTransparency(
            if pressed {
                1i32
            } else {
                -1i32
            },
        ),
        KeyAction::IncreaseTransparency => KeyEffect::AdjustTransparency(
            if pressed {
                -1i32
            } else {
                1i32
            },
        ),
    }
}

/// Decides what a hotkey event does.
pub fn key_event_effect(action: KeyAction, pressed: bool) -> (res: KeyEffect)
    ensures
        res == key_effect(action, pressed),
{
    match action {
        KeyAction::Topmost => {
            if pressed {
                KeyEffect::ToggleTopmost
            } else {
                KeyEffect::Nothing
            }
        },
        KeyAction::DecreaseTransparency => {
            if pressed {
                KeyEffect::AdjustTransparency(1)
            } else {
                KeyEffect::AdjustTransparency(-1)
            }
        },
        KeyAction::IncreaseTransparency => {
            if pressed {
                KeyEffect::AdjustTransparency(-1)
            } else {
                KeyEffect::AdjustTransparency(1)
            }
        },
    }
}

/// The counter after an adjustment, wrapping as an atomic add does.
pub open spec fn adjusted_counter(counter: i32, adjustment: i32) -> i32 {
    let v = counter + adjustment;
    if v > i32::MAX {
        (v - 0x1_0000_0000) as i32
    } else if v < i32::MIN {
        (v + 0x1_0000_0000) as i32
    } else {
        v as i32
    }
}

/// Applies an adjustment to the transparency counter, wrapping around on
/// overflow like `AtomicI32::fetch_add`.
pub fn adjust_counter(counter: i32, adjustment: i32) -> (res: i32)
    ensures
        res == adjusted_counter(counter, adjustment),
        i32::MIN <= counter + adjustment <= i32::MAX ==> res == counter + adjustment,
{
    counter.wrapping_add(adjustment)
}

/// The counter after one hotkey event (unchanged unless the event adjusts it).
pub open spec fn counter_after(counter: i32, action: KeyAction, pressed: bool) -> i32 {
    match key_effect(action, pressed) {
        KeyEffect::AdjustTransparency(d) => adjusted_counter(counter, d),
        _ => counter,
    }
}

/// Pressing and then releasing any hotkey leaves the transparency counter
/// as it was, whatever its value.
pub proof fn lemma_press_release_restores_counter(counter: i32, action: KeyAction)
    ensures
        counter_after(counter_after(counter, action, true), action, false) == counter,
{
}

/// Each press moves the counter by one in the key's own direction:
/// DecreaseTransparency up, IncreaseTransparency down; Topmost never
/// touches it.
pub proof fn lemma_key_directions(counter: i32)
    requires
        counter < i32::MAX,
        counter > i32::MIN,
    ensures
        counter_after(counter, KeyAction::DecreaseTransparency, true) == counter + 1,
        counter_after(counter, KeyAction::IncreaseTransparency, true) == counter - 1,
        counter_after(counter, KeyAction::Topmost, true) == counter,
        counter_after(counter, KeyAction::Topmost, false) == counter,
{
}

/// The longest counted press, in ticks.
pub const MAX_PRESS_DURATION: i32 = 1000;

/// The press duration after one tick: one more (at most 1000) while the
/// counter is not 0, back to 0 when it is.
pub open spec fn next_press(press_duration: i32, counter: i32) -> i32 {
    if counter != 0 {
        let v = press_duration + 1;
        if v < 0 {
            0
        } else if v > MAX_PRESS_DURATION {
            MAX_PRESS_DURATION
        } else {
            v as i32
        }
    } else {
        0
    }
}

/// Advances the press duration by one tick of the transparency loop.
pub fn next_press_duration(press_duration: i32, counter: i32) -> (res: i32)
    requires
        press_duration < i32::MAX,
    ensures
        res == next_press(press_duration, counter),
        0 <= res <= MAX_PRESS_DURATION,
{
    if counter != 0 {
        let v: i32 = press_duration + 1;
        if v < 0 {
            0
        } else if v > MAX_PRESS_DURATION {
            MAX_PRESS_DURATION
        } else {
            v
        }
    } else {
        0
    }
}


/// The binding of each action in the settings.
pub open spec fn binding_of_action(config: DecodedConfig, action: KeyAction) -> HotkeyBinding {
    match action {
        KeyAction::Topmost => config.key_toggle_topmost,
        KeyAction::IncreaseTransparency => config.key_increase_transparency,
        KeyAction::DecreaseTransparency => config.key_decrease_transparency,
    }
}

/// The actions in the order in which their hotkeys are registered.
pub open spec fn registered_actions() -> Seq<KeyAction> {
    seq![KeyAction::Topmost, KeyAction::IncreaseTransparency, KeyAction::DecreaseTransparency]
}

/// The hotkeys to register: each action with the binding that the settings
/// give it (`key_toggle_topmost`, `key_increase_transparency`,
/// `key_decrease_transparency`).
pub fn hotkey_table(config: &DecodedConfig) -> (res: Vec<(KeyAction, HotkeyBinding)>)
    ensures
        res@.len() == 3,
        res@[0].0 == KeyAction::Topmost && res@[0].1@ == config.key_toggle_topmost@,
        res@[1].0 == KeyAction::IncreaseTransparency && res@[1].1@ == config.key_increase_transparency@,
        res@[2].0 == KeyAction::DecreaseTransparency && res@[2].1@ == config.key_decrease_transparency@,
        forall|i: int|
            0 <= i < 3 ==> (#[trigger] res@[i]).0 == registered_actions()[i] && res@[i].1@
                == binding_of_action(*config, registered_actions()[i])@,
{
    let mut table: Vec<(KeyAction, HotkeyBinding)> = Vec::new();
    table.push((KeyAction::Topmost, config.key_toggle_topmost.copied()));
    table.push((KeyAction::IncreaseTransparency, config.key_increase_transparency.copied()));
    table.push((KeyAction::DecreaseTransparency, config.key_decrease_transparency.copied()));
    table
}


/// What each hotkey event does: Topmost toggles on press only; a
/// transparency key changes the counter on press and back on release,
/// DecreaseTransparency upwards (alpha rises), IncreaseTransparency
/// downwards (alpha falls).
pub proof fn lemma_key_effects()
    ensures
        key_effect(KeyAction::Topmost, true) == KeyEffect::ToggleTopmost,
        key_effect(KeyAction::Topmost, false) == KeyEffect::Nothing,
        key_effect(KeyAction::DecreaseTransparency, true) == KeyEffect::AdjustTransparency(1i32),
        key_effect(KeyAction::DecreaseTransparency, false) == KeyEffect::AdjustTransparency(-1i32),
        key_effect(KeyAction::IncreaseTransparency, true) == KeyEffect::AdjustTransparency(-1i32),
        key_effect(KeyAction::IncreaseTransparency, false) == KeyEffect::AdjustTransparency(1i32),
{
}

/// The press duration counts ticks while the counter is not 0, up to 1000,
/// and drops to 0 as soon as the counter is 0.
pub proof fn lemma_press_duration_counts(press_duration: i32, counter: i32)
    ensures
        counter == 0 ==> next_press(press_duration, counter) == 0,
        counter != 0 && 0 <= press_duration < 1000 ==> next_press(press_duration, counter) == press_duration + 1,
        counter != 0 && press_duration >= 1000 ==> next_press(press_duration, counter) == 1000,
{
}


/// The actions' names are `"Topmost"`, `"IncreaseTransparency"` and
/// `"DecreaseTransparency"`, one per action.
pub proof fn lemma_key_action_names()
    ensures
        key_action_name(KeyAction::Topmost) == "Topmost"@,
        key_action_name(KeyAction::IncreaseTransparency) == "IncreaseTransparency"@,
        key_action_name(KeyAction::DecreaseTransparency) == "DecreaseTransparency"@,
{
}

} // verus!
