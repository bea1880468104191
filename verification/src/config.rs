//! The configuration document: what the timers and the tray menu read from
//! it, and how a new timer is written into it.

use crate::json::{
    find_member, items_view, lemma_array_view, lemma_object_view, member_index, members_view,
    with_member, Json, JsonNumber, JsonNumberView, JsonView,
};
use crate::json_text::{
    json_result_is, parse_json, parsed_json, render_json, rendered_json, text_result_is,
};
use crate::text::{optional_text, texts_of};
use crate::timers::{
    new_preset_timer, new_quick_timer, preset_timer_of, presets_view, quick_timer_of, TimerIcon,
    TimerIconView, TimerPreset, TimerPresetView,
};
use vstd::prelude::*;
use vstd::string::StringExecFns;

verus! {

/// The timers of the configuration: the values of its key `icons`, or none
/// where the key is missing or is no array.
pub open spec fn icons_of(config: JsonView) -> Seq<JsonView> {
    match config.items_member("icons"@) {
        Some(icons) => icons,
        None => Seq::empty(),
    }
}

/// The shortcuts of the timers `icons`, in their order: of each timer the
/// text of its key `keybind`, where it has one.
pub open spec fn keybinds_of(icons: Seq<JsonView>) -> Seq<Seq<char>>
    decreases icons.len(),
{
    if icons.len() == 0 {
        Seq::empty()
    } else {
        keybinds_of(icons.drop_last()) + (match icons.last().text_member("keybind"@) {
            Some(keybind) => seq![keybind],
            None => Seq::empty(),
        })
    }
}

/// The shortcuts that the configuration has in use: those of its timers, and
/// after them the one that resets every timer, where it is set.
pub open spec fn used_keybinds_of(config: JsonView) -> Seq<Seq<char>> {
    keybinds_of(icons_of(config)) + (match config.text_member("resetAllTimersKeybind"@) {
        Some(keybind) => seq![keybind],
        None => Seq::empty(),
    })
}

/// The preset that the value `value` of the configuration describes.
pub open spec fn preset_of(value: JsonView) -> TimerPresetView {
    TimerPresetView {
        id: value.text_member("id"@),
        name: value.text_member("name"@),
        icon_name: value.text_member("iconName"@),
        notification_type: value.text_member("notificationType"@),
        duration: value.unsigned_member("duration"@),
        keybind: value.text_member("keybind"@),
    }
}

/// The presets of the configuration: one for each value of its key
/// `timerPresets`, or none at all where the key is missing or is no array.
pub open spec fn presets_of(config: JsonView) -> Option<Seq<TimerPresetView>> {
    match config.items_member("timerPresets"@) {
        Some(items) => Some(Seq::new(items.len(), |i: int| preset_of(items[i]))),
        None => None,
    }
}

/// The member with the key `key` and the text `text`, where there is a text.
pub open spec fn optional_member(key: Seq<char>, text: Option<Seq<char>>) -> Seq<
    (Seq<char>, JsonView),
> {
    match text {
        Some(t) => seq![(key, JsonView::Text(t))],
        None => Seq::empty(),
    }
}

/// The object that stands for the timer `icon` in the configuration.
pub open spec fn icon_json_of(icon: TimerIconView) -> JsonView {
    JsonView::Object(
        seq![("id"@, JsonView::Text(icon.id))] + optional_member("name"@, icon.name)
            + seq![("iconName"@, JsonView::Text(icon.icon_name))] + optional_member(
            "keybind"@,
            icon.keybind,
        ) + seq![
            ("timerDuration"@, JsonView::Number(JsonNumberView::Unsigned(icon.timer_duration))),
            ("notificationType"@, JsonView::Text(icon.notification_type)),
            ("timerType"@, JsonView::Text(icon.timer_type)),
        ],
    )
}

/// The configuration `config` with `icon` as its last timer: an object with
/// the members of `config`, whose key `icons` holds the timers of `config`
/// and then `icon`.
pub open spec fn with_icon_of(config: JsonView, icon: JsonView) -> JsonView {
    JsonView::Object(
        with_member(config.members(), "icons"@, JsonView::Array(icons_of(config).push(icon))),
    )
}

/// Whether the configuration can take a timer: it is an object, or `null`.
pub open spec fn takes_icons(config: JsonView) -> bool {
    config is Object || config is Null
}

/// The text of the key `key` of `value`, where `value` is an object whose
/// key holds a text.
pub fn text_member(value: &Json, key: &str) -> (text: Option<String>)
    ensures
        optional_text(text) == value@.text_member(key@),
{
    match value.get(key) {
        Some(member) => match member.as_str() {
            Some(text) => Some(String::from_str(text)),
            None => None,
        },
        None => None,
    }
}

/// The number of the key `key` of `value`, where `value` is an object whose
/// key holds an integer that is not negative.
pub fn unsigned_member(value: &Json, key: &str) -> (number: Option<u64>)
    ensures
        number == value@.unsigned_member(key@),
{
    match value.get(key) {
        Some(member) => member.as_u64(),
        None => None,
    }
}

/// Collects the shortcuts that the configuration has in use.
pub fn used_keybinds(config: &Json) -> (used: Vec<String>)
    ensures
        texts_of(used@) == used_keybinds_of(config@),
{
    let mut used: Vec<String> = Vec::new();
    let icons = match config.get("icons") {
        Some(value) => value.as_array(),
        None => None,
    };
    if let Some(icons) = icons {
        let mut i: usize = 0;
        assert(items_view(icons@).take(0) =~= Seq::<JsonView>::empty());
        assert(texts_of(used@) =~= Seq::<Seq<char>>::empty());
        while i < icons.len()
            invariant
                i <= icons.len(),
                texts_of(used@) == keybinds_of(items_view(icons@).take(i as int)),
            decreases icons.len() - i,
        {
            let ghost before = texts_of(used@);
            if let Some(keybind) = text_member(&icons[i], "keybind") {
                used.push(keybind);
                assert(texts_of(used@) =~= before + seq![keybind@]);
            } else {
                assert(texts_of(used@) =~= before + Seq::<Seq<char>>::empty());
            }
            i = i + 1;
            assert(items_view(icons@).take(i as int).drop_last() =~= items_view(icons@).take(
                i - 1,
            ));
            assert(items_view(icons@).take(i as int).last() == icons@[i - 1]@);
        }
        assert(items_view(icons@).take(i as int) =~= items_view(icons@));
    } else {
        assert(texts_of(used@) =~= Seq::<Seq<char>>::empty());
    }
    let ghost timers = texts_of(used@);
    assert(timers == keybinds_of(icons_of(config@)));
    if let Some(keybind) = text_member(config, "resetAllTimersKeybind") {
        used.push(keybind);
        assert(texts_of(used@) =~= timers + seq![keybind@]);
    } else {
        assert(texts_of(used@) =~= timers + Seq::<Seq<char>>::empty());
    }
    used
}

/// Reads the preset that `value` describes.
pub fn preset_from(value: &Json) -> (preset: TimerPreset)
    ensures
        preset@ == preset_of(value@),
{
    TimerPreset {
        id: text_member(value, "id"),
        name: text_member(value, "name"),
        icon_name: text_member(value, "iconName"),
        notification_type: text_member(value, "notificationType"),
        duration: unsigned_member(value, "duration"),
        keybind: text_member(value, "keybind"),
    }
}

/// Reads the presets of the configuration.
pub fn config_presets(config: &Json) -> (presets: Option<Vec<TimerPreset>>)
    ensures
        match presets {
            Some(list) => presets_of(config@) == Some(presets_view(list@)),
            None => presets_of(config@) is None,
        },
{
    let items = match config.get("timerPresets") {
        Some(value) => value.as_array(),
        None => None,
    };
    match items {
        Some(items) => {
            let mut list: Vec<TimerPreset> = Vec::new();
            let mut i: usize = 0;
            while i < items.len()
                invariant
                    i <= items.len(),
                    list.len() == i,
                    forall|j: int| 0 <= j < i ==> (#[trigger] list@[j])@ == preset_of(items@[j]@),
                decreases items.len() - i,
            {
                list.push(preset_from(&items[i]));
                i = i + 1;
            }
            assert(presets_view(list@) =~= Seq::new(
                items_view(items@).len(),
                |i: int| preset_of(items_view(items@)[i]),
            ));
            Some(list)
        },
        None => None,
    }
}

fn text_pair(key: &str, text: String) -> (pair: (String, Json))
    ensures
        pair.0@ == key@,
        pair.1@ == JsonView::Text(text@),
{
    (String::from_str(key), Json::Text(text))
}

/// Makes the object that stands for the timer `icon` in the configuration.
pub fn icon_to_json(icon: TimerIcon) -> (json: Json)
    ensures
        json@ == icon_json_of(icon@),
{
    let ghost held = icon@;
    let mut members: Vec<(String, Json)> = Vec::new();
    members.push(text_pair("id", icon.id));
    if let Some(name) = icon.name {
        members.push(text_pair("name", name));
    }
    members.push(text_pair("iconName", icon.icon_name));
    if let Some(keybind) = icon.keybind {
        members.push(text_pair("keybind", keybind));
    }
    members.push(
        (String::from_str("timerDuration"), Json::Number(JsonNumber::Unsigned(icon.timer_duration))),
    );
    members.push(text_pair("notificationType", icon.notification_type));
    members.push(text_pair("timerType", icon.timer_type));
    proof {
        lemma_object_view(members);
        assert(members_view(members@) =~= icon_json_of(held).members());
    }
    Json::Object(members)
}

/// Where a key is found among the members of an object, it is the key of the
/// member found.
pub proof fn lemma_member_index_is_of_key(members: Seq<(Seq<char>, JsonView)>, key: Seq<char>)
    ensures
        match member_index(members, key) {
            Some(at) => 0 <= at < members.len() && members[at].0 == key,
            None => true,
        },
    decreases members.len(),
{
    if members.len() > 0 && members.last().0 != key {
        lemma_member_index_is_of_key(members.drop_last(), key);
    }
}

/// Writes `icon` into the configuration as its last timer.
pub fn add_icon(config: Json, icon: Json) -> (updated: Json)
    requires
        takes_icons(config@),
    ensures
        updated@ == with_icon_of(config@, icon@),
{
    let ghost before = config@;
    let mut members: Vec<(String, Json)> = match config {
        Json::Object(members) => {
            proof {
                lemma_object_view(members);
            }
            members
        },
        _ => Vec::new(),
    };
    assert(members_view(members@) =~= before.members());
    let ghost held = members_view(members@);
    match find_member(&members, "icons") {
        Some(at) => {
            proof {
                lemma_member_index_is_of_key(held, "icons"@);
            }
            let (key, value) = members.remove(at);
            let mut icons: Vec<Json> = match value {
                Json::Array(items) => {
                    proof {
                        lemma_array_view(items);
                    }
                    items
                },
                _ => Vec::new(),
            };
            assert(items_view(icons@) =~= icons_of(before));
            let ghost earlier = items_view(icons@);
            icons.push(icon);
            assert(items_view(icons@) =~= earlier.push(icon@));
            proof {
                lemma_array_view(icons);
            }
            members.insert(at, (key, Json::Array(icons)));
            proof {
                lemma_object_view(members);
                assert(members_view(members@) =~= held.update(
                    at as int,
                    ("icons"@, JsonView::Array(icons_of(before).push(icon@))),
                ));
            }
        },
        None => {
            let mut icons: Vec<Json> = Vec::new();
            icons.push(icon);
            assert(items_view(icons@) =~= icons_of(before).push(icon@));
            proof {
                lemma_array_view(icons);
            }
            members.push((String::from_str("icons"), Json::Array(icons)));
            proof {
                lemma_object_view(members);
                assert(members_view(members@) =~= held.push(
                    ("icons"@, JsonView::Array(icons_of(before).push(icon@))),
                ));
            }
        },
    }
    Json::Object(members)
}

/// What comes of adding a quick timer of `duration` seconds to the
/// configuration at `now_ms`: the configuration with the timer as its last,
/// or the message that no shortcut is free.
pub open spec fn quick_timer_config_of(config: JsonView, duration: u64, now_ms: u128) -> Result<
    JsonView,
    Seq<char>,
> {
    match quick_timer_of(used_keybinds_of(config), duration, now_ms) {
        Ok(icon) => Ok(with_icon_of(config, icon_json_of(icon))),
        Err(message) => Err(message),
    }
}

/// What comes of adding a timer from the preset `preset_id` to the
/// configuration at `now_ms`: the configuration with the timer as its last,
/// or the message of what is missing.
pub open spec fn preset_timer_config_of(
    config: JsonView,
    preset_id: Seq<char>,
    now_ms: u128,
) -> Result<JsonView, Seq<char>> {
    match preset_timer_of(presets_of(config), preset_id, now_ms) {
        Ok(icon) => Ok(with_icon_of(config, icon_json_of(icon))),
        Err(message) => Err(message),
    }
}

/// Adds a quick timer of `duration` seconds, created at `now_ms`
/// milliseconds, to the configuration. The timer is bound to the first of
/// `Alt+F1`..`Alt+F12` that the configuration does not use; where all twelve
/// are in use, the result is the error that says so.
pub fn add_quick_timer(config: Json, duration: u64, now_ms: u128) -> (result: Result<Json, String>)
    requires
        takes_icons(config@),
    ensures
        json_result_is(result, quick_timer_config_of(config@, duration, now_ms)),
{
    let used = used_keybinds(&config);
    match new_quick_timer(&used, duration, now_ms) {
        Ok(icon) => Ok(add_icon(config, icon_to_json(icon))),
        Err(message) => Err(message),
    }
}

/// Adds a timer made from the preset `preset_id`, created at `now_ms`
/// milliseconds, to the configuration. Where the configuration has no list
/// of presets, no preset with the identifier, or a preset without duration,
/// the result is the error that says so.
pub fn add_preset_timer(config: Json, preset_id: &str, now_ms: u128) -> (result: Result<
    Json,
    String,
>)
    ensures
        json_result_is(result, preset_timer_config_of(config@, preset_id@, now_ms)),
{
    let presets = config_presets(&config);
    let made = match &presets {
        Some(list) => new_preset_timer(Some(list), preset_id, now_ms),
        None => new_preset_timer(None, preset_id, now_ms),
    };
    match made {
        Ok(icon) => Ok(add_icon(config, icon_to_json(icon))),
        Err(message) => Err(message),
    }
}

/// The message `prefix` followed by `detail`.
pub open spec fn failure(prefix: Seq<char>, detail: Seq<char>) -> Seq<char> {
    prefix + detail
}

/// What comes of adding a quick timer to the configuration with the text
/// `text`: the text of the new configuration, or the message of the error.
///
/// The errors are, in this order: the text is no JSON document; the
/// document is neither an object nor `null`; no shortcut is free; the new
/// configuration cannot be written as text.
pub open spec fn quick_create_timer_of(text: Seq<char>, duration: u64, now_ms: u128) -> Result<
    Seq<char>,
    Seq<char>,
> {
    match parsed_json(text) {
        Err(detail) => Err(failure("Failed to parse config: "@, detail)),
        Ok(config) => if !takes_icons(config) {
            Err("Config is not a JSON object"@)
        } else {
            match quick_timer_config_of(config, duration, now_ms) {
                Err(message) => Err(message),
                Ok(updated) => match rendered_json(updated) {
                    Ok(written) => Ok(written),
                    Err(detail) => Err(failure("Failed to serialize config: "@, detail)),
                },
            }
        },
    }
}

/// What comes of adding a timer from the preset `preset_id` to the
/// configuration with the text `text`: the text of the new configuration, or
/// the message of the error.
///
/// The errors are, in this order: the text is no JSON document; there is no
/// list of presets; no preset has the identifier; the preset has no
/// duration; the new configuration cannot be written as text.
pub open spec fn create_timer_from_preset_of(
    text: Seq<char>,
    preset_id: Seq<char>,
    now_ms: u128,
) -> Result<Seq<char>, Seq<char>> {
    match parsed_json(text) {
        Err(detail) => Err(failure("Failed to parse config: "@, detail)),
        Ok(config) => match preset_timer_config_of(config, preset_id, now_ms) {
            Err(message) => Err(message),
            Ok(updated) => match rendered_json(updated) {
                Ok(written) => Ok(written),
                Err(detail) => Err(failure("Failed to serialize config: "@, detail)),
            },
        },
    }
}

fn failed(prefix: &str, detail: String) -> (message: String)
    ensures
        message@ == failure(prefix@, detail@),
{
    let mut message = String::from_str(prefix);
    message.append(detail.as_str());
    message
}

fn written(config: &Json) -> (result: Result<String, String>)
    ensures
        text_result_is(
            result,
            match rendered_json(config@) {
                Ok(text) => Ok(text),
                Err(detail) => Err(failure("Failed to serialize config: "@, detail)),
            },
        ),
{
    match render_json(config) {
        Ok(text) => Ok(text),
        Err(detail) => Err(failed("Failed to serialize config: ", detail)),
    }
}

/// Adds a quick timer of `duration` seconds, created at `now_ms`
/// milliseconds, to the configuration with the text `config_text`, and gives
/// the text of the new configuration.
pub fn quick_create_timer(config_text: &str, duration: u64, now_ms: u128) -> (result: Result<
    String,
    String,
>)
    ensures
        text_result_is(result, quick_create_timer_of(config_text@, duration, now_ms)),
{
    let config = match parse_json(config_text) {
        Ok(config) => config,
        Err(detail) => {
            return Err(failed("Failed to parse config: ", detail));
        },
    };
    let fits = match &config {
        Json::Object(_) => true,
        Json::Null => true,
        _ => false,
    };
    if !fits {
        return Err(String::from_str("Config is not a JSON object"));
    }
    match add_quick_timer(config, duration, now_ms) {
        Ok(updated) => written(&updated),
        Err(message) => Err(message),
    }
}

/// Adds a timer made from the preset `preset_id`, created at `now_ms`
/// milliseconds, to the configuration with the text `config_text`, and gives
/// the text of the new configuration.
pub fn create_timer_from_preset(config_text: &str, preset_id: &str, now_ms: u128) -> (result:
    Result<String, String>)
    ensures
        text_result_is(result, create_timer_from_preset_of(config_text@, preset_id@, now_ms)),
{
    let config = match parse_json(config_text) {
        Ok(config) => config,
        Err(detail) => {
            return Err(failed("Failed to parse config: ", detail));
        },
    };
    match add_preset_timer(config, preset_id, now_ms) {
        Ok(updated) => written(&updated),
        Err(message) => Err(message),
    }
}

} // verus!
