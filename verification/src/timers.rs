//! Timers that are created from the tray menu: which shortcut a quick timer
//! gets, and how a preset becomes a timer.

use crate::text::{append_decimal, decimal, optional_text, texts_of, trim, trimmed};
use vstd::prelude::*;
use vstd::string::StringExecFns;

verus! {

/// The number of function keys that a quick timer may be bound to.
pub const FUNCTION_KEYS: u32 = 12;

/// A timer as it is written into the configuration.
#[derive(Debug, PartialEq, Eq)]
pub struct TimerIcon {
    pub id: String,
    pub name: Option<String>,
    pub icon_name: String,
    pub keybind: Option<String>,
    pub timer_duration: u64,
    pub notification_type: String,
    pub timer_type: String,
}

/// A preset as it is read from the configuration. A field that the
/// configuration does not hold, or holds with another type, is `None`.
#[derive(Debug, PartialEq, Eq)]
pub struct TimerPreset {
    pub id: Option<String>,
    pub name: Option<String>,
    pub icon_name: Option<String>,
    pub notification_type: Option<String>,
    pub duration: Option<u64>,
    pub keybind: Option<String>,
}

/// What a [`TimerIcon`] holds.
pub struct TimerIconView {
    pub id: Seq<char>,
    pub name: Option<Seq<char>>,
    pub icon_name: Seq<char>,
    pub keybind: Option<Seq<char>>,
    pub timer_duration: u64,
    pub notification_type: Seq<char>,
    pub timer_type: Seq<char>,
}

/// What a [`TimerPreset`] holds.
pub struct TimerPresetView {
    pub id: Option<Seq<char>>,
    pub name: Option<Seq<char>>,
    pub icon_name: Option<Seq<char>>,
    pub notification_type: Option<Seq<char>>,
    pub duration: Option<u64>,
    pub keybind: Option<Seq<char>>,
}

/// What each preset of a list holds.
pub open spec fn presets_view(list: Seq<TimerPreset>) -> Seq<TimerPresetView> {
    Seq::new(list.len(), |i: int| list[i]@)
}

impl View for TimerIcon {
    type V = TimerIconView;

    open spec fn view(&self) -> TimerIconView {
        TimerIconView {
            id: self.id@,
            name: optional_text(self.name),
            icon_name: self.icon_name@,
            keybind: optional_text(self.keybind),
            timer_duration: self.timer_duration,
            notification_type: self.notification_type@,
            timer_type: self.timer_type@,
        }
    }
}

impl View for TimerPreset {
    type V = TimerPresetView;

    open spec fn view(&self) -> TimerPresetView {
        TimerPresetView {
            id: optional_text(self.id),
            name: optional_text(self.name),
            icon_name: optional_text(self.icon_name),
            notification_type: optional_text(self.notification_type),
            duration: self.duration,
            keybind: optional_text(self.keybind),
        }
    }
}

/// The identifier of a timer created at `now_ms` milliseconds.
pub open spec fn timer_id(now_ms: u128) -> Seq<char> {
    "icon-"@ + decimal(now_ms as nat)
}

/// The shortcut string of Alt with the function key of number `n`.
pub open spec fn alt_function_key(n: nat) -> Seq<char> {
    "Alt+F"@ + decimal(n)
}

/// The number of the first function key, from `n` on, whose shortcut with
/// Alt is not in `used`.
pub open spec fn first_free_key_from(used: Seq<Seq<char>>, n: nat) -> Option<nat>
    decreases FUNCTION_KEYS + 1 - n,
{
    if n > FUNCTION_KEYS {
        None
    } else if !used.contains(alt_function_key(n)) {
        Some(n)
    } else {
        first_free_key_from(used, n + 1)
    }
}

/// The number of the first function key whose shortcut with Alt is not in
/// `used`, if one of the twelve is free.
pub open spec fn first_free_key(used: Seq<Seq<char>>) -> Option<nat> {
    first_free_key_from(used, 1)
}

/// The quick timer with the given shortcut and duration, created at `now_ms`.
pub open spec fn quick_timer_with(keybind: Seq<char>, duration: u64, now_ms: u128) -> TimerIconView {
    TimerIconView {
        id: timer_id(now_ms),
        name: None,
        icon_name: "Timer"@,
        keybind: Some(keybind),
        timer_duration: duration,
        notification_type: "notification"@,
        timer_type: "countdown"@,
    }
}

/// What comes of creating a quick timer of `duration` seconds at `now_ms`
/// while the shortcuts `used` are taken: the timer, bound to the first free
/// shortcut, or the message that none is free.
pub open spec fn quick_timer_of(used: Seq<Seq<char>>, duration: u64, now_ms: u128) -> Result<
    TimerIconView,
    Seq<char>,
> {
    match first_free_key(used) {
        Some(n) => Ok(quick_timer_with(alt_function_key(n), duration, now_ms)),
        None => Err("No available Alt+F* shortcuts (F1-F12 all in use)"@),
    }
}

/// The first preset of `presets` that has the identifier `id`, if there is
/// one.
pub open spec fn find_preset(presets: Seq<TimerPresetView>, id: Seq<char>) -> Option<
    TimerPresetView,
>
    decreases presets.len(),
{
    if presets.len() == 0 {
        None
    } else if presets.first().id == Some(id) {
        Some(presets.first())
    } else {
        find_preset(presets.drop_first(), id)
    }
}

/// The shortcut of a preset: its text without the white space around it, or
/// none where nothing is left.
pub open spec fn preset_keybind(keybind: Option<Seq<char>>) -> Option<Seq<char>> {
    match keybind {
        Some(text) => if trimmed(text).len() > 0 {
            Some(trimmed(text))
        } else {
            None
        },
        None => None,
    }
}

/// `text`, or `default` where there is none.
pub open spec fn text_or(text: Option<Seq<char>>, default: Seq<char>) -> Seq<char> {
    match text {
        Some(s) => s,
        None => default,
    }
}

/// The timer that `preset` with the duration `duration` becomes at `now_ms`.
pub open spec fn preset_timer_with(preset: TimerPresetView, duration: u64, now_ms: u128) -> TimerIconView {
    TimerIconView {
        id: timer_id(now_ms),
        name: Some(text_or(preset.name, "Timer Preset"@)),
        icon_name: text_or(preset.icon_name, "Timer"@),
        keybind: preset_keybind(preset.keybind),
        timer_duration: duration,
        notification_type: text_or(preset.notification_type, "notification"@),
        timer_type: "countdown"@,
    }
}

/// What comes of creating a timer at `now_ms` from the preset of `presets`
/// with the identifier `id`: the timer, or the message of what is missing.
pub open spec fn preset_timer_of(
    presets: Option<Seq<TimerPresetView>>,
    id: Seq<char>,
    now_ms: u128,
) -> Result<TimerIconView, Seq<char>> {
    match presets {
        None => Err("No presets configured"@),
        Some(list) => match find_preset(list, id) {
            None => Err("Preset not found"@),
            Some(preset) => match preset.duration {
                None => Err("Preset missing duration"@),
                Some(duration) => Ok(preset_timer_with(preset, duration, now_ms)),
            },
        },
    }
}

/// What an optional list of presets holds.
pub open spec fn optional_presets(presets: Option<&Vec<TimerPreset>>) -> Option<
    Seq<TimerPresetView>,
> {
    match presets {
        Some(list) => Some(presets_view(list@)),
        None => None,
    }
}

/// Whether a timer or a message, as text, is what `outcome` says.
pub open spec fn timer_result_is(
    result: Result<TimerIcon, String>,
    outcome: Result<TimerIconView, Seq<char>>,
) -> bool {
    match result {
        Ok(icon) => outcome == Ok::<TimerIconView, Seq<char>>(icon@),
        Err(message) => outcome == Err::<TimerIconView, Seq<char>>(message@),
    }
}

/// The first free function key is the least of the twelve whose shortcut is
/// not in use; there is none exactly if all twelve are in use.
pub proof fn lemma_first_free_key_is_least(used: Seq<Seq<char>>)
    ensures
        match first_free_key(used) {
            Some(n) => {
                &&& 1 <= n <= FUNCTION_KEYS
                &&& !used.contains(alt_function_key(n))
                &&& forall|m: nat| 1 <= m < n ==> used.contains(#[trigger] alt_function_key(m))
            },
            None => forall|m: nat|
                1 <= m <= FUNCTION_KEYS ==> used.contains(#[trigger] alt_function_key(m)),
        },
{
    lemma_first_free_key_from(used, 1);
}

proof fn lemma_first_free_key_from(used: Seq<Seq<char>>, from: nat)
    requires
        1 <= from,
    ensures
        match first_free_key_from(used, from) {
            Some(n) => {
                &&& from <= n <= FUNCTION_KEYS
                &&& !used.contains(alt_function_key(n))
                &&& forall|m: nat| from <= m < n ==> used.contains(#[trigger] alt_function_key(m))
            },
            None => forall|m: nat|
                from <= m <= FUNCTION_KEYS ==> used.contains(#[trigger] alt_function_key(m)),
        },
    decreases FUNCTION_KEYS + 1 - from,
{
    if from <= FUNCTION_KEYS && used.contains(alt_function_key(from)) {
        lemma_first_free_key_from(used, from + 1);
    }
}

/// Tells whether `text` is one of the strings of `list`.
fn contains_text(list: &Vec<String>, text: &String) -> (found: bool)
    ensures
        found == texts_of(list@).contains(text@),
{
    let mut i: usize = 0;
    while i < list.len()
        invariant
            i <= list.len(),
            forall|j: int| 0 <= j < i ==> texts_of(list@)[j] != text@,
        decreases list.len() - i,
    {
        if list[i] == *text {
            assert(texts_of(list@)[i as int] == text@);
            return true;
        }
        i = i + 1;
    }
    false
}

fn new_timer_id(now_ms: u128) -> (id: String)
    ensures
        id@ == timer_id(now_ms),
{
    let mut id = String::from_str("icon-");
    append_decimal(&mut id, now_ms);
    id
}

fn text_or_default(text: &Option<String>, default: &str) -> (chosen: String)
    ensures
        chosen@ == text_or(optional_text(*text), default@),
{
    match text {
        Some(s) => s.clone(),
        None => String::from_str(default),
    }
}

/// Creates a quick timer of `duration` seconds at `now_ms` milliseconds,
/// bound to the first of `Alt+F1`..`Alt+F12` that is not in `used_keybinds`.
///
/// The result is an error, with a fixed message, exactly if all twelve
/// shortcuts are in use.
pub fn new_quick_timer(used_keybinds: &Vec<String>, duration: u64, now_ms: u128) -> (result:
    Result<TimerIcon, String>)
    ensures
        timer_result_is(result, quick_timer_of(texts_of(used_keybinds@), duration, now_ms)),
{
    let mut number: u32 = 1;
    while number <= FUNCTION_KEYS
        invariant
            1 <= number <= FUNCTION_KEYS + 1,
            first_free_key(texts_of(used_keybinds@)) == first_free_key_from(
                texts_of(used_keybinds@),
                number as nat,
            ),
        decreases FUNCTION_KEYS + 1 - number,
    {
        let mut keybind = String::from_str("Alt+F");
        append_decimal(&mut keybind, number as u128);
        if !contains_text(used_keybinds, &keybind) {
            return Ok(
                TimerIcon {
                    id: new_timer_id(now_ms),
                    name: None,
                    icon_name: String::from_str("Timer"),
                    keybind: Some(keybind),
                    timer_duration: duration,
                    notification_type: String::from_str("notification"),
                    timer_type: String::from_str("countdown"),
                },
            );
        }
        number = number + 1;
    }
    Err(String::from_str("No available Alt+F* shortcuts (F1-F12 all in use)"))
}

/// Creates, at `now_ms` milliseconds, a timer from the first preset of
/// `presets` that has the identifier `preset_id`.
///
/// The result is an error with a fixed message where there is no list of
/// presets, where no preset of the list has the identifier, and where the
/// preset found has no duration, in this order.
pub fn new_preset_timer(presets: Option<&Vec<TimerPreset>>, preset_id: &str, now_ms: u128) -> (result:
    Result<TimerIcon, String>)
    ensures
        timer_result_is(result, preset_timer_of(optional_presets(presets), preset_id@, now_ms)),
{
    let list = match presets {
        Some(list) => {
            assert(presets_view(list@).skip(0) =~= presets_view(list@));
            list
        },
        None => {
            return Err(String::from_str("No presets configured"));
        },
    };
    let mut at: usize = 0;
    while at < list.len()
        invariant
            presets == Some(list),
            at <= list.len(),
            find_preset(presets_view(list@), preset_id@) == find_preset(
                presets_view(list@).skip(at as int),
                preset_id@,
            ),
        decreases list.len() - at,
    {
        let preset = &list[at];
        let found = match &preset.id {
            Some(id) => id.as_str().eq(preset_id),
            None => false,
        };
        assert(presets_view(list@).skip(at as int).first() == list@[at as int]@);
        assert(presets_view(list@).skip(at as int).drop_first() =~= presets_view(list@).skip(
            at + 1,
        ));
        if found {
            let duration = match preset.duration {
                Some(duration) => duration,
                None => {
                    return Err(String::from_str("Preset missing duration"));
                },
            };
            let keybind = match &preset.keybind {
                Some(text) => {
                    let inner = trim(text.as_str());
                    if inner.is_empty() {
                        None
                    } else {
                        Some(String::from_str(inner))
                    }
                },
                None => None,
            };
            return Ok(
                TimerIcon {
                    id: new_timer_id(now_ms),
                    name: Some(text_or_default(&preset.name, "Timer Preset")),
                    icon_name: text_or_default(&preset.icon_name, "Timer"),
                    keybind,
                    timer_duration: duration,
                    notification_type: text_or_default(&preset.notification_type, "notification"),
                    timer_type: String::from_str("countdown"),
                },
            );
        }
        at = at + 1;
    }
    assert(presets_view(list@).skip(at as int).len() == 0);
    Err(String::from_str("Preset not found"))
}

} // verus!
