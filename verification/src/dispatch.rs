//! The hook dispatcher: what happens on one keyboard event.
//!
//! The operating system hands every keyboard event to the dispatcher before
//! any window sees it. The dispatcher only watches: where the event is a key
//! press whose key has a name, it composes the shortcut string of the key with
//! the modifiers held and calls the callback registered under it, if there is
//! one. Whatever it found, the event goes on to the next stage.
//!
//! Only a key that goes from up to down at the keyboard is a press. A key-up,
//! an event that a program injected and the key-downs that a held key keeps
//! sending are passed on untouched. The system's record marks an injected
//! event; a repeated key-down is told by [`KeysDown`], which follows the keys
//! that are down from one event to the next.

use crate::keys::{key_name, vk_code_to_key_name};
use crate::modifiers::ModifierState;
use crate::registry::ShortcutRegistry;
use crate::shortcut::{
    compose_shortcut, is_shortcut_string, lemma_combinations_are_their_strings, shortcut_text,
};
use crate::text::optional_text;
use std::collections::HashSet;
use vstd::prelude::*;

verus! {

broadcast use vstd::std_specs::hash::group_hash_axioms;

/// The message of a key that goes down.
pub const WM_KEYDOWN: usize = 0x0100;

/// The message of a key that goes up.
pub const WM_KEYUP: usize = 0x0101;

/// The message of a key that goes down while Alt is held.
pub const WM_SYSKEYDOWN: usize = 0x0104;

/// The message of a key that goes up while Alt is held.
pub const WM_SYSKEYUP: usize = 0x0105;

/// The flag of an event that a program injected into the input stream.
pub const LLKHF_INJECTED: u32 = 0x10;

/// One keyboard event as the hook receives it.
#[derive(Clone, Copy, Debug, PartialEq, Eq, Structural)]
pub struct KeyEvent {
    /// The hook code; a negative code marks an event that must not be
    /// processed.
    pub code: i32,
    /// The message that tells the kind of event.
    pub message: usize,
    /// The virtual-key code of the key.
    pub vk_code: u32,
    /// The flags of the system's record of the event.
    pub flags: u32,
    /// Whether the event repeats a key-down: its key was down already.
    pub repeat: bool,
}

/// The keys that are down, as far as the events seen so far tell.
pub struct KeysDown {
    keys: HashSet<u32>,
}

impl View for KeysDown {
    type V = Set<u32>;

    closed spec fn view(&self) -> Set<u32> {
        self.keys@
    }
}

/// What the dispatcher did with one event.
#[derive(Debug, PartialEq, Eq)]
pub struct Dispatch {
    /// The shortcut string that the event stands for, if it stands for one.
    pub shortcut: Option<String>,
    /// Whether a callback was called.
    pub invoked: bool,
    /// Whether the event is to be passed on to the next stage.
    pub forwarded: bool,
}

/// Whether `message` is one of the two messages of a key that goes down.
pub open spec fn is_key_down(message: usize) -> bool {
    message == WM_KEYDOWN || message == WM_SYSKEYDOWN
}

/// Whether `message` is one of the two messages of a key that goes up.
pub open spec fn is_key_up(message: usize) -> bool {
    message == WM_KEYUP || message == WM_SYSKEYUP
}

/// Whether the flags mark an event that a program injected.
pub open spec fn is_injected(flags: u32) -> bool {
    flags & LLKHF_INJECTED != 0
}

/// Whether the event is a key press that the dispatcher processes: its code
/// is not negative, its message is one of the two key-down messages, no
/// program injected it and it does not repeat a key-down. Only the
/// transition of a key from up to down, made at the keyboard, is a press.
pub open spec fn is_key_press(event: KeyEvent) -> bool {
    &&& event.code >= 0
    &&& is_key_down(event.message)
    &&& !is_injected(event.flags)
    &&& !event.repeat
}

/// Whether an event with the message `message` for the key `vk_code` repeats
/// a key-down while the keys `down` are down: it is a key-down of a key that
/// is down already.
pub open spec fn repeats(down: Set<u32>, message: usize, vk_code: u32) -> bool {
    is_key_down(message) && down.contains(vk_code)
}

/// The keys that are down after an event with the message `message` for the
/// key `vk_code`, where the keys `down` were down before it.
pub open spec fn keys_after(down: Set<u32>, message: usize, vk_code: u32) -> Set<u32> {
    if is_key_down(message) {
        down.insert(vk_code)
    } else if is_key_up(message) {
        down.remove(vk_code)
    } else {
        down
    }
}

/// The event that the record of the system stands for while the keys `down`
/// are down.
pub open spec fn event_of(
    down: Set<u32>,
    code: i32,
    message: usize,
    vk_code: u32,
    flags: u32,
) -> KeyEvent {
    KeyEvent { code, message, vk_code, flags, repeat: code >= 0 && repeats(down, message, vk_code) }
}

/// The shortcut string that `event` stands for while `modifiers` are held:
/// that of its key, where the event is a key press and the key has a name.
pub open spec fn event_shortcut(event: KeyEvent, modifiers: ModifierState) -> Option<Seq<char>> {
    if is_key_press(event) && key_name(event.vk_code) is Some {
        Some(shortcut_text(modifiers, key_name(event.vk_code)->0))
    } else {
        None
    }
}

/// The callback that `event` fires while `modifiers` are held, given what is
/// registered: the one registered under the event's shortcut string.
pub open spec fn fired<F>(
    registrations: Map<Seq<char>, F>,
    event: KeyEvent,
    modifiers: ModifierState,
) -> Option<F> {
    match event_shortcut(event, modifiers) {
        Some(shortcut) => if registrations.contains_key(shortcut) {
            Some(registrations[shortcut])
        } else {
            None
        },
        None => None,
    }
}

/// What is registered after `callbacks` have been registered under
/// `shortcut` one after another, on top of `registrations`.
pub open spec fn registered_in_turn<F>(
    registrations: Map<Seq<char>, F>,
    shortcut: Seq<char>,
    callbacks: Seq<F>,
) -> Map<Seq<char>, F>
    decreases callbacks.len(),
{
    if callbacks.len() == 0 {
        registrations
    } else {
        registered_in_turn(registrations, shortcut, callbacks.drop_last()).insert(
            shortcut,
            callbacks.last(),
        )
    }
}

impl KeysDown {
    /// No key is down.
    pub fn new() -> (keys: KeysDown)
        ensures
            keys@ == Set::<u32>::empty(),
    {
        KeysDown { keys: HashSet::new() }
    }

    /// Takes note of an event with the message `message` for the key
    /// `vk_code`, and tells whether the event repeats a key-down. A key-down
    /// puts the key among those that are down, a key-up takes it out, and
    /// any other message changes nothing.
    pub fn observe(&mut self, message: usize, vk_code: u32) -> (repeat: bool)
        ensures
            repeat == repeats(old(self)@, message, vk_code),
            final(self)@ == keys_after(old(self)@, message, vk_code),
    {
        if message == WM_KEYDOWN || message == WM_SYSKEYDOWN {
            !self.keys.insert(vk_code)
        } else if message == WM_KEYUP || message == WM_SYSKEYUP {
            self.keys.remove(&vk_code);
            false
        } else {
            false
        }
    }

    /// Makes the event out of the record of the system and takes note of it.
    /// A record with a negative code must not be processed: it is not taken
    /// note of and repeats nothing.
    pub fn event(&mut self, code: i32, message: usize, vk_code: u32, flags: u32) -> (event:
        KeyEvent)
        ensures
            event == event_of(old(self)@, code, message, vk_code, flags),
            final(self)@ == (if code >= 0 {
                keys_after(old(self)@, message, vk_code)
            } else {
                old(self)@
            }),
    {
        let repeat = if code >= 0 {
            self.observe(message, vk_code)
        } else {
            false
        };
        KeyEvent { code, message, vk_code, flags, repeat }
    }
}

impl KeyEvent {
    /// Tells whether a program injected the event.
    pub fn is_injected(&self) -> (injected: bool)
        ensures
            injected == is_injected(self.flags),
    {
        self.flags & LLKHF_INJECTED != 0
    }

    /// Tells whether the event is a key press that the dispatcher processes.
    /// Only for such an event do the modifiers have to be sampled.
    pub fn is_key_press(&self) -> (press: bool)
        ensures
            press == is_key_press(*self),
    {
        self.code >= 0 && (self.message == WM_KEYDOWN || self.message == WM_SYSKEYDOWN)
            && !self.is_injected() && !self.repeat
    }
}

/// Handles one keyboard event: calls the callback registered under the
/// event's shortcut string, if the event stands for one and one is
/// registered, and reports the event as forwarded in every case.
///
/// `registry` is the registry where the lock that guards it could be taken,
/// and `None` where the lock is poisoned; then nothing is looked up and
/// nothing is called.
pub fn low_level_keyboard_proc<F: Fn()>(
    registry: Option<&ShortcutRegistry<F>>,
    event: &KeyEvent,
    modifiers: ModifierState,
) -> (outcome: Dispatch)
    requires
        registry matches Some(held) ==> held.well_formed(),
    ensures
        outcome.forwarded,
        match registry {
            Some(held) => {
                &&& optional_text(outcome.shortcut) == event_shortcut(*event, modifiers)
                &&& outcome.invoked == fired(held@, *event, modifiers).is_some()
                &&& outcome.invoked ==> call_ensures(
                    fired(held@, *event, modifiers)->0,
                    (),
                    (),
                )
            },
            None => outcome.shortcut is None && !outcome.invoked,
        },
{
    let mut shortcut: Option<String> = None;
    let mut invoked = false;
    if let Some(held) = registry {
        if event.is_key_press() {
            if let Some(key) = vk_code_to_key_name(event.vk_code) {
                let text = compose_shortcut(modifiers, key.as_str());
                invoked = held.lookup_and_invoke(text.as_str());
                shortcut = Some(text);
            }
        }
    }
    Dispatch { shortcut, invoked, forwarded: true }
}

/// However often a shortcut string is registered, a matching event fires the
/// callback of the last registration, and registrations under other strings
/// are as they were.
pub proof fn lemma_last_registration_wins<F>(
    registrations: Map<Seq<char>, F>,
    shortcut: Seq<char>,
    callbacks: Seq<F>,
    event: KeyEvent,
    modifiers: ModifierState,
)
    requires
        callbacks.len() > 0,
        event_shortcut(event, modifiers) == Some(shortcut),
    ensures
        fired(registered_in_turn(registrations, shortcut, callbacks), event, modifiers) == Some(
            callbacks.last(),
        ),
        registered_in_turn(registrations, shortcut, callbacks).remove(shortcut)
            == registrations.remove(shortcut),
    decreases callbacks.len(),
{
    let earlier = registered_in_turn(registrations, shortcut, callbacks.drop_last());
    if callbacks.len() > 1 {
        lemma_last_registration_wins(
            registrations,
            shortcut,
            callbacks.drop_last(),
            event,
            modifiers,
        );
    }
    assert(earlier.insert(shortcut, callbacks.last()).remove(shortcut) =~= earlier.remove(
        shortcut,
    ));
}

/// Once every registration has been removed, no event fires a callback.
pub proof fn lemma_nothing_fires_when_empty<F>(event: KeyEvent, modifiers: ModifierState)
    ensures
        fired(Map::<Seq<char>, F>::empty(), event, modifiers) is None,
{
}

/// A callback registered for one combination of modifiers and key fires on a
/// key press exactly if the press is of that key with those modifiers held.
pub proof fn lemma_fires_only_on_its_combination<F>(
    callback: F,
    held: ModifierState,
    key: u32,
    event: KeyEvent,
    modifiers: ModifierState,
)
    requires
        key_name(key) is Some,
        is_key_press(event),
        key_name(event.vk_code) is Some,
    ensures
        fired(
            Map::<Seq<char>, F>::empty().insert(shortcut_text(held, key_name(key)->0), callback),
            event,
            modifiers,
        ) == (if held == modifiers && key_name(key) == key_name(event.vk_code) {
            Some(callback)
        } else {
            None
        }),
{
    lemma_combinations_are_their_strings(held, key, modifiers, event.vk_code);
}

/// The shortcut strings are exactly the strings that key presses stand for:
/// a string is the canonical string of some modifier state with some named
/// key exactly if some processed event stands for it.
pub proof fn lemma_shortcut_strings_are_what_key_presses_stand_for(text: Seq<char>)
    ensures
        is_shortcut_string(text) <==> exists|event: KeyEvent, modifiers: ModifierState|
            #[trigger] event_shortcut(event, modifiers) == Some(text),
{
    if is_shortcut_string(text) {
        let (modifiers, vk) = choose|modifiers: ModifierState, vk: u32|
            key_name(vk) is Some && text == #[trigger] shortcut_text(modifiers, key_name(vk)->0);
        let event = KeyEvent { code: 0, message: WM_KEYDOWN, vk_code: vk, flags: 0, repeat: false };
        assert(0u32 & LLKHF_INJECTED == 0) by (bit_vector);
        assert(event_shortcut(event, modifiers) == Some(text));
    }
    if exists|event: KeyEvent, modifiers: ModifierState|
        #[trigger] event_shortcut(event, modifiers) == Some(text) {
        let (event, modifiers) = choose|event: KeyEvent, modifiers: ModifierState|
            #[trigger] event_shortcut(event, modifiers) == Some(text);
        assert(text == shortcut_text(modifiers, key_name(event.vk_code)->0));
    }
}

/// An event that a program injected, and an event that repeats a key-down,
/// fire no callback, whatever is registered.
pub proof fn lemma_injected_and_repeated_events_fire_nothing<F>(
    registrations: Map<Seq<char>, F>,
    event: KeyEvent,
    modifiers: ModifierState,
)
    requires
        is_injected(event.flags) || event.repeat,
    ensures
        fired(registrations, event, modifiers) is None,
{
}

/// While a key is held, only its first key-down is a press: every further
/// key-down of the key repeats, until a key-up of the key has been seen.
pub proof fn lemma_a_held_key_repeats(down: Set<u32>, message: usize, vk_code: u32)
    requires
        is_key_down(message),
    ensures
        forall|again: usize|
            is_key_down(again) ==> #[trigger] repeats(
                keys_after(down, message, vk_code),
                again,
                vk_code,
            ),
        forall|up: usize, again: usize|
            is_key_up(up) ==> !#[trigger] repeats(
                keys_after(keys_after(down, message, vk_code), up, vk_code),
                again,
                vk_code,
            ),
{
}

} // verus!
