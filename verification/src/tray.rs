//! The tray: its icon, and the entries of its menu that depend on the
//! configuration, one to start and one to reset each timer and one for each
//! preset.

use crate::config::{icons_of, text_member};
use crate::json::{items_view, Json, JsonView};
use crate::json_text::{parse_json, parsed_json};
use crate::menu::{
    create_preset_item, preset_label, quick_create_seconds_of, reset_timer_item,
    start_timer_item, start_timer_label, timer_label, timer_label_of,
};
use crate::text::{optional_str, optional_text};
use vstd::prelude::*;
use vstd::string::StringExecFns;

verus! {

/// One entry of the menu: the identifier of its item and the text shown.
#[derive(Debug, PartialEq, Eq)]
pub struct MenuEntry {
    pub id: String,
    pub label: String,
}

/// The entries of the menu that depend on the configuration.
#[derive(Debug, PartialEq, Eq)]
pub struct TrayMenu {
    /// One entry for each timer, to start it.
    pub start: Vec<MenuEntry>,
    /// One entry for each timer, to reset it.
    pub reset: Vec<MenuEntry>,
    /// One entry for each preset, to create a timer from it.
    pub presets: Vec<MenuEntry>,
}

/// What a [`MenuEntry`] holds.
pub struct MenuEntryView {
    pub id: Seq<char>,
    pub label: Seq<char>,
}

/// What a [`TrayMenu`] holds.
pub struct TrayMenuView {
    pub start: Seq<MenuEntryView>,
    pub reset: Seq<MenuEntryView>,
    pub presets: Seq<MenuEntryView>,
}

/// The picture of the tray icon: its pixels row by row, four bytes each for
/// red, green, blue and alpha, and its size in pixels.
#[derive(Debug, PartialEq, Eq)]
pub struct TrayImage {
    pub rgba: Vec<u8>,
    pub width: u32,
    pub height: u32,
}

/// Reads a picture from the bytes of its file with `image::load_from_memory`,
/// converts it with `DynamicImage::to_rgba8` and takes its size and pixels
/// with `ImageBuffer::dimensions` and `ImageBuffer::into_raw`. The result is
/// `None` where `image` reports an error. Which formats `image` reads, and
/// how, depends on the decoders registered in the process, so nothing is
/// claimed of the picture.
#[verifier::external_body]
fn decode_image(data: &[u8]) -> Option<TrayImage> {
    let decoded = image::load_from_memory(data).ok()?;
    let pixels = decoded.to_rgba8();
    let (width, height) = pixels.dimensions();
    Some(TrayImage { rgba: pixels.into_raw(), width, height })
}

/// Makes the picture of the tray icon from the bytes of its file; `data` is
/// `None` where the file could not be read. Without bytes the tray has no
/// picture; with bytes it has the picture that they decode to, if they
/// decode.
pub fn tray_icon(data: Option<&[u8]>) -> (icon: Option<TrayImage>)
    ensures
        data is None ==> icon is None,
{
    match data {
        Some(bytes) => decode_image(bytes),
        None => None,
    }
}

/// The three kinds of entries.
#[derive(Clone, Copy, Debug, PartialEq, Eq, Structural)]
pub enum EntryKind {
    Start,
    Reset,
    Preset,
}

impl View for MenuEntry {
    type V = MenuEntryView;

    open spec fn view(&self) -> MenuEntryView {
        MenuEntryView { id: self.id@, label: self.label@ }
    }
}

/// What each entry of a list holds.
pub open spec fn entries_view(entries: Seq<MenuEntry>) -> Seq<MenuEntryView> {
    Seq::new(entries.len(), |i: int| entries[i]@)
}

impl View for TrayMenu {
    type V = TrayMenuView;

    open spec fn view(&self) -> TrayMenuView {
        TrayMenuView {
            start: entries_view(self.start@),
            reset: entries_view(self.reset@),
            presets: entries_view(self.presets@),
        }
    }
}

/// The entry of the kind `kind` for the timer or preset `value`; there is
/// none where `value` has no text under the key `id`.
pub open spec fn entry_of(kind: EntryKind, value: JsonView) -> Option<MenuEntryView> {
    match value.text_member("id"@) {
        None => None,
        Some(id) => Some(
            match kind {
                EntryKind::Start => MenuEntryView {
                    id: "start_timer_"@ + id,
                    label: "Start "@ + timer_label_of(
                        value.text_member("name"@),
                        value.text_member("iconName"@),
                    ),
                },
                EntryKind::Reset => MenuEntryView {
                    id: "reset_timer_"@ + id,
                    label: timer_label_of(
                        value.text_member("name"@),
                        value.text_member("iconName"@),
                    ),
                },
                EntryKind::Preset => MenuEntryView {
                    id: "create_preset_"@ + id,
                    label: match value.text_member("name"@) {
                        Some(name) => name,
                        None => "Preset"@,
                    },
                },
            },
        ),
    }
}

/// The entries of the kind `kind` for the values `values`, in their order.
pub open spec fn entries_of(kind: EntryKind, values: Seq<JsonView>) -> Seq<MenuEntryView>
    decreases values.len(),
{
    if values.len() == 0 {
        Seq::empty()
    } else {
        entries_of(kind, values.drop_last()) + (match entry_of(kind, values.last()) {
            Some(entry) => seq![entry],
            None => Seq::empty(),
        })
    }
}

/// The values of the key `timerPresets` of the configuration, or none where
/// the key is missing or is no array.
pub open spec fn preset_items_of(config: JsonView) -> Seq<JsonView> {
    match config.items_member("timerPresets"@) {
        Some(items) => items,
        None => Seq::empty(),
    }
}

/// The entries of the menu for the configuration `config`.
pub open spec fn tray_menu_of(config: JsonView) -> TrayMenuView {
    TrayMenuView {
        start: entries_of(EntryKind::Start, icons_of(config)),
        reset: entries_of(EntryKind::Reset, icons_of(config)),
        presets: entries_of(EntryKind::Preset, preset_items_of(config)),
    }
}

/// The menu without entries.
pub open spec fn empty_tray_menu() -> TrayMenuView {
    TrayMenuView { start: Seq::empty(), reset: Seq::empty(), presets: Seq::empty() }
}

/// The entries of the menu for the configuration with the text `text`. Where
/// there is no text, or the text is no JSON document, the menu has no
/// entries.
pub open spec fn tray_menu_for(text: Option<Seq<char>>) -> TrayMenuView {
    match text {
        None => empty_tray_menu(),
        Some(t) => match parsed_json(t) {
            Ok(config) => tray_menu_of(config),
            Err(_) => empty_tray_menu(),
        },
    }
}

fn as_option_str(text: &Option<String>) -> (slice: Option<&str>)
    ensures
        optional_str(slice) == optional_text(*text),
{
    match text {
        Some(s) => Some(s.as_str()),
        None => None,
    }
}

/// The entries of the menu that create a quick timer, from the shortest to
/// the longest.
pub open spec fn quick_create_entries_of() -> Seq<MenuEntryView> {
    seq![
        MenuEntryView { id: "quick_create_30s"@, label: "30 seconds"@ },
        MenuEntryView { id: "quick_create_1min"@, label: "1 minute"@ },
        MenuEntryView { id: "quick_create_2min"@, label: "2 minutes"@ },
        MenuEntryView { id: "quick_create_5min"@, label: "5 minutes"@ },
        MenuEntryView { id: "quick_create_10min"@, label: "10 minutes"@ },
        MenuEntryView { id: "quick_create_15min"@, label: "15 minutes"@ },
        MenuEntryView { id: "quick_create_30min"@, label: "30 minutes"@ },
    ]
}

fn entry(id: &str, label: &str) -> (made: MenuEntry)
    ensures
        made@ == (MenuEntryView { id: id@, label: label@ }),
{
    MenuEntry { id: String::from_str(id), label: String::from_str(label) }
}

/// Makes the entries of the menu that create a quick timer.
pub fn quick_create_entries() -> (entries: Vec<MenuEntry>)
    ensures
        entries_view(entries@) == quick_create_entries_of(),
{
    let mut entries: Vec<MenuEntry> = Vec::new();
    entries.push(entry("quick_create_30s", "30 seconds"));
    entries.push(entry("quick_create_1min", "1 minute"));
    entries.push(entry("quick_create_2min", "2 minutes"));
    entries.push(entry("quick_create_5min", "5 minutes"));
    entries.push(entry("quick_create_10min", "10 minutes"));
    entries.push(entry("quick_create_15min", "15 minutes"));
    entries.push(entry("quick_create_30min", "30 minutes"));
    assert(entries_view(entries@) =~= quick_create_entries_of());
    entries
}

/// Every entry that creates a quick timer has a duration, and the entries
/// are exactly the items that have one.
pub proof fn lemma_quick_create_entries_have_durations()
    ensures
        forall|i: int|
            0 <= i < quick_create_entries_of().len() ==> quick_create_seconds_of(
                #[trigger] quick_create_entries_of()[i].id,
            ) is Some,
        forall|item: Seq<char>|
            quick_create_seconds_of(item) is Some ==> exists|i: int|
                0 <= i < quick_create_entries_of().len() && #[trigger] quick_create_entries_of()[i].id
                    == item,
{
    let entries = quick_create_entries_of();
    assert forall|item: Seq<char>| quick_create_seconds_of(item) is Some implies exists|i: int|
        0 <= i < entries.len() && #[trigger] entries[i].id == item by {
        if item == "quick_create_30s"@ {
            assert(entries[0].id == item);
        } else if item == "quick_create_1min"@ {
            assert(entries[1].id == item);
        } else if item == "quick_create_2min"@ {
            assert(entries[2].id == item);
        } else if item == "quick_create_5min"@ {
            assert(entries[3].id == item);
        } else if item == "quick_create_10min"@ {
            assert(entries[4].id == item);
        } else if item == "quick_create_15min"@ {
            assert(entries[5].id == item);
        } else {
            assert(entries[6].id == item);
        }
    }
}

/// Makes the entry of the kind `kind` for the timer or preset `value`.
pub fn menu_entry(kind: EntryKind, value: &Json) -> (entry: Option<MenuEntry>)
    ensures
        match entry {
            Some(made) => entry_of(kind, value@) == Some(made@),
            None => entry_of(kind, value@) is None,
        },
{
    let id = match text_member(value, "id") {
        Some(id) => id,
        None => {
            return None;
        },
    };
    let name = text_member(value, "name");
    let icon_name = text_member(value, "iconName");
    Some(
        match kind {
            EntryKind::Start => MenuEntry {
                id: start_timer_item(id.as_str()),
                label: start_timer_label(as_option_str(&name), as_option_str(&icon_name)),
            },
            EntryKind::Reset => MenuEntry {
                id: reset_timer_item(id.as_str()),
                label: timer_label(as_option_str(&name), as_option_str(&icon_name)),
            },
            EntryKind::Preset => MenuEntry {
                id: create_preset_item(id.as_str()),
                label: preset_label(as_option_str(&name)),
            },
        },
    )
}

fn entries_under(kind: EntryKind, config: &Json, key: &str) -> (entries: Vec<MenuEntry>)
    ensures
        entries_view(entries@) == entries_of(
            kind,
            match config@.items_member(key@) {
                Some(items) => items,
                None => Seq::empty(),
            },
        ),
{
    let mut entries: Vec<MenuEntry> = Vec::new();
    let values = match config.get(key) {
        Some(value) => value.as_array(),
        None => None,
    };
    assert(entries_view(entries@) =~= Seq::<MenuEntryView>::empty());
    if let Some(values) = values {
        let mut i: usize = 0;
        assert(items_view(values@).take(0) =~= Seq::<JsonView>::empty());
        while i < values.len()
            invariant
                i <= values.len(),
                entries_view(entries@) == entries_of(kind, items_view(values@).take(i as int)),
            decreases values.len() - i,
        {
            let ghost before = entries_view(entries@);
            if let Some(entry) = menu_entry(kind, &values[i]) {
                entries.push(entry);
                assert(entries_view(entries@) =~= before + seq![entry@]);
            } else {
                assert(entries_view(entries@) =~= before + Seq::<MenuEntryView>::empty());
            }
            i = i + 1;
            assert(items_view(values@).take(i as int).drop_last() =~= items_view(values@).take(
                i - 1,
            ));
            assert(items_view(values@).take(i as int).last() == values@[i - 1]@);
        }
        assert(items_view(values@).take(i as int) =~= items_view(values@));
    }
    entries
}

/// Makes the entries of the menu for the configuration `config`.
pub fn tray_menu_entries(config: &Json) -> (menu: TrayMenu)
    ensures
        menu@ == tray_menu_of(config@),
{
    TrayMenu {
        start: entries_under(EntryKind::Start, config, "icons"),
        reset: entries_under(EntryKind::Reset, config, "icons"),
        presets: entries_under(EntryKind::Preset, config, "timerPresets"),
    }
}

fn no_entries() -> (menu: TrayMenu)
    ensures
        menu@ == empty_tray_menu(),
{
    let menu = TrayMenu { start: Vec::new(), reset: Vec::new(), presets: Vec::new() };
    assert(menu@.start =~= Seq::<MenuEntryView>::empty());
    assert(menu@.reset =~= Seq::<MenuEntryView>::empty());
    assert(menu@.presets =~= Seq::<MenuEntryView>::empty());
    menu
}

/// Makes the entries of the menu for the configuration with the text
/// `config_text`. Where there is no text, or the text is no JSON document,
/// the menu has no entries.
pub fn tray_menu(config_text: Option<&str>) -> (menu: TrayMenu)
    ensures
        menu@ == tray_menu_for(optional_str(config_text)),
{
    let parsed = match config_text {
        Some(text) => parse_json(text),
        None => {
            return no_entries();
        },
    };
    match parsed {
        Ok(config) => tray_menu_entries(&config),
        Err(_) => no_entries(),
    }
}

} // verus!
