//! The tray menu: the identifiers of its items and what a click on one of
//! them asks for.

use crate::text::{has_prefix, optional_str, strip_prefix};
use vstd::prelude::*;
use vstd::string::StringExecFns;

verus! {

/// What a click on a menu item asks for.
#[derive(Debug, PartialEq, Eq)]
pub enum MenuAction {
    /// Start the timer with the given identifier.
    StartTimer(String),
    /// Reset the timer with the given identifier.
    ResetTimer(String),
    /// Create a timer from the preset with the given identifier.
    CreateFromPreset(String),
    /// Create a quick timer of the given number of seconds.
    QuickCreate(u64),
    /// Show the settings window.
    Settings,
    /// Reset every timer.
    ResetAllTimers,
    /// Leave the application.
    Quit,
    /// The item is not one that asks for anything.
    Unknown,
}

/// What a [`MenuAction`] holds, as plain text.
pub enum MenuActionView {
    StartTimer(Seq<char>),
    ResetTimer(Seq<char>),
    CreateFromPreset(Seq<char>),
    QuickCreate(u64),
    Settings,
    ResetAllTimers,
    Quit,
    Unknown,
}

impl View for MenuAction {
    type V = MenuActionView;

    open spec fn view(&self) -> MenuActionView {
        match self {
            MenuAction::StartTimer(id) => MenuActionView::StartTimer(id@),
            MenuAction::ResetTimer(id) => MenuActionView::ResetTimer(id@),
            MenuAction::CreateFromPreset(id) => MenuActionView::CreateFromPreset(id@),
            MenuAction::QuickCreate(seconds) => MenuActionView::QuickCreate(*seconds),
            MenuAction::Settings => MenuActionView::Settings,
            MenuAction::ResetAllTimers => MenuActionView::ResetAllTimers,
            MenuAction::Quit => MenuActionView::Quit,
            MenuAction::Unknown => MenuActionView::Unknown,
        }
    }
}

/// What follows the first `prefix.len()` characters of `text`.
pub open spec fn after_prefix(text: Seq<char>, prefix: Seq<char>) -> Seq<char> {
    text.subrange(prefix.len() as int, text.len() as int)
}

/// The duration in seconds of the quick timer that the item `item` creates,
/// if it is one of the items that create a quick timer.
pub open spec fn quick_create_seconds_of(item: Seq<char>) -> Option<u64> {
    if item == "quick_create_30s"@ {
        Some(30u64)
    } else if item == "quick_create_1min"@ {
        Some(60u64)
    } else if item == "quick_create_2min"@ {
        Some(120u64)
    } else if item == "quick_create_5min"@ {
        Some(300u64)
    } else if item == "quick_create_10min"@ {
        Some(600u64)
    } else if item == "quick_create_15min"@ {
        Some(900u64)
    } else if item == "quick_create_30min"@ {
        Some(1800u64)
    } else {
        None
    }
}

/// What a click on the item `item` asks for.
///
/// An item whose identifier begins with `start_timer_`, `reset_timer_` or
/// `create_preset_` names a timer or a preset by what follows; an item of the
/// quick timers gives a duration; `settings`, `reset_timers` and `quit` are
/// themselves; anything else is unknown.
pub open spec fn menu_action_of(item: Seq<char>) -> MenuActionView {
    if has_prefix(item, "start_timer_"@) {
        MenuActionView::StartTimer(after_prefix(item, "start_timer_"@))
    } else if has_prefix(item, "reset_timer_"@) {
        MenuActionView::ResetTimer(after_prefix(item, "reset_timer_"@))
    } else if has_prefix(item, "create_preset_"@) {
        MenuActionView::CreateFromPreset(after_prefix(item, "create_preset_"@))
    } else if quick_create_seconds_of(item) is Some {
        MenuActionView::QuickCreate(quick_create_seconds_of(item)->0)
    } else if item == "settings"@ {
        MenuActionView::Settings
    } else if item == "reset_timers"@ {
        MenuActionView::ResetAllTimers
    } else if item == "quit"@ {
        MenuActionView::Quit
    } else {
        MenuActionView::Unknown
    }
}

/// The label of a timer in the menu: its name, else the name of its icon,
/// else `Timer`.
pub open spec fn timer_label_of(name: Option<Seq<char>>, icon_name: Option<Seq<char>>) -> Seq<
    char,
> {
    match name {
        Some(text) => text,
        None => match icon_name {
            Some(text) => text,
            None => "Timer"@,
        },
    }
}

fn joined(prefix: &str, rest: &str) -> (text: String)
    ensures
        text@ == prefix@ + rest@,
{
    let mut text = String::from_str(prefix);
    text.append(rest);
    text
}

/// The identifier of the menu item that starts the timer `timer_id`.
pub fn start_timer_item(timer_id: &str) -> (item: String)
    ensures
        item@ == "start_timer_"@ + timer_id@,
{
    joined("start_timer_", timer_id)
}

/// The identifier of the menu item that resets the timer `timer_id`.
pub fn reset_timer_item(timer_id: &str) -> (item: String)
    ensures
        item@ == "reset_timer_"@ + timer_id@,
{
    joined("reset_timer_", timer_id)
}

/// The identifier of the menu item that creates a timer from the preset
/// `preset_id`.
pub fn create_preset_item(preset_id: &str) -> (item: String)
    ensures
        item@ == "create_preset_"@ + preset_id@,
{
    joined("create_preset_", preset_id)
}

/// The label of a timer in the menu.
pub fn timer_label(name: Option<&str>, icon_name: Option<&str>) -> (label: String)
    ensures
        label@ == timer_label_of(optional_str(name), optional_str(icon_name)),
{
    match name {
        Some(text) => String::from_str(text),
        None => match icon_name {
            Some(text) => String::from_str(text),
            None => String::from_str("Timer"),
        },
    }
}

/// The label of the menu item that starts a timer: `Start` and the label of
/// the timer.
pub fn start_timer_label(name: Option<&str>, icon_name: Option<&str>) -> (label: String)
    ensures
        label@ == "Start "@ + timer_label_of(optional_str(name), optional_str(icon_name)),
{
    let mut label = String::from_str("Start ");
    label.append(timer_label(name, icon_name).as_str());
    label
}

/// The label of a preset in the menu: its name, else `Preset`.
pub fn preset_label(name: Option<&str>) -> (label: String)
    ensures
        label@ == (match name {
            Some(text) => text@,
            None => "Preset"@,
        }),
{
    match name {
        Some(text) => String::from_str(text),
        None => String::from_str("Preset"),
    }
}

/// The duration in seconds of the quick timer that the menu item `item`
/// creates, if it is one of the items that create a quick timer.
pub fn quick_create_seconds(item: &str) -> (seconds: Option<u64>)
    ensures
        seconds == quick_create_seconds_of(item@),
{
    if item.eq("quick_create_30s") {
        Some(30)
    } else if item.eq("quick_create_1min") {
        Some(60)
    } else if item.eq("quick_create_2min") {
        Some(120)
    } else if item.eq("quick_create_5min") {
        Some(300)
    } else if item.eq("quick_create_10min") {
        Some(600)
    } else if item.eq("quick_create_15min") {
        Some(900)
    } else if item.eq("quick_create_30min") {
        Some(1800)
    } else {
        None
    }
}

/// Tells what a click on the menu item `item` asks for.
pub fn menu_action(item: &str) -> (action: MenuAction)
    ensures
        action@ == menu_action_of(item@),
{
    if let Some(timer_id) = strip_prefix(item, "start_timer_") {
        return MenuAction::StartTimer(String::from_str(timer_id));
    }
    if let Some(timer_id) = strip_prefix(item, "reset_timer_") {
        return MenuAction::ResetTimer(String::from_str(timer_id));
    }
    if let Some(preset_id) = strip_prefix(item, "create_preset_") {
        return MenuAction::CreateFromPreset(String::from_str(preset_id));
    }
    if let Some(seconds) = quick_create_seconds(item) {
        return MenuAction::QuickCreate(seconds);
    }
    if item.eq("settings") {
        MenuAction::Settings
    } else if item.eq("reset_timers") {
        MenuAction::ResetAllTimers
    } else if item.eq("quit") {
        MenuAction::Quit
    } else {
        MenuAction::Unknown
    }
}

/// A click on the item that was made for a timer or a preset asks for that
/// timer or preset, whatever its identifier.
pub proof fn lemma_item_names_its_subject(id: Seq<char>)
    ensures
        menu_action_of("start_timer_"@ + id) == MenuActionView::StartTimer(id),
        menu_action_of("reset_timer_"@ + id) == MenuActionView::ResetTimer(id),
        menu_action_of("create_preset_"@ + id) == MenuActionView::CreateFromPreset(id),
{
    reveal_strlit("start_timer_");
    reveal_strlit("reset_timer_");
    reveal_strlit("create_preset_");
    let start = "start_timer_"@ + id;
    let reset = "reset_timer_"@ + id;
    let create = "create_preset_"@ + id;
    assert(start.subrange(0, 12) =~= "start_timer_"@);
    assert(after_prefix(start, "start_timer_"@) =~= id);
    assert(reset.subrange(0, 12) =~= "reset_timer_"@);
    assert(reset.subrange(0, 12)[0] == 'r');
    assert(after_prefix(reset, "reset_timer_"@) =~= id);
    assert(create.subrange(0, 14) =~= "create_preset_"@);
    assert(create.subrange(0, 12)[0] == 'c');
    assert(after_prefix(create, "create_preset_"@) =~= id);
}

} // verus!
