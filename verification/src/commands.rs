//! The operations on shortcuts that the user interface calls, what a fired
//! shortcut tells the rest of the application, and the small rules of the
//! commands that save icons and the configuration.

use crate::hook::{register_shortcut, unregister_all_shortcuts, Backend, HookError};
use crate::registry::ShortcutRegistry;
use vstd::prelude::*;
use vstd::string::StringExecFns;

verus! {

/// What the application is told when a shortcut has fired.
#[derive(Debug, PartialEq, Eq)]
pub enum ShortcutEvent {
    /// Every timer is to be reset.
    ResetAllTimers,
    /// The shortcut of the timer with the given identifier was pressed.
    ShortcutTriggered(String),
}

/// The identifier under which the shortcut that resets every timer is
/// registered.
pub open spec fn reset_all_timers_id() -> Seq<char> {
    "__reset_all_timers__"@
}

/// The identifier that the event of a fired shortcut carries, by the
/// identifier that the shortcut was registered for: none for the shortcut
/// that resets every timer, else the identifier itself.
pub open spec fn shortcut_event_of(icon_id: Seq<char>) -> Option<Seq<char>> {
    if icon_id == reset_all_timers_id() {
        None
    } else {
        Some(icon_id)
    }
}

impl ShortcutEvent {
    /// The identifier that the event carries, if it carries one.
    pub open spec fn triggered(self) -> Option<Seq<char>> {
        match self {
            ShortcutEvent::ResetAllTimers => None,
            ShortcutEvent::ShortcutTriggered(icon_id) => Some(icon_id@),
        }
    }

    /// The name of the event.
    pub open spec fn name_text(self) -> Seq<char> {
        match self {
            ShortcutEvent::ResetAllTimers => "reset-all-timers"@,
            ShortcutEvent::ShortcutTriggered(_) => "shortcut-triggered"@,
        }
    }

    /// The name under which the event is sent.
    pub fn name(&self) -> (text: String)
        ensures
            text@ == self.name_text(),
    {
        match self {
            ShortcutEvent::ResetAllTimers => String::from_str("reset-all-timers"),
            ShortcutEvent::ShortcutTriggered(_) => String::from_str("shortcut-triggered"),
        }
    }
}

/// Tells what the application is told when the shortcut registered for
/// `icon_id` has fired: to reset every timer where the identifier is the one
/// reserved for that, else that the shortcut of this timer was pressed.
pub fn shortcut_event(icon_id: String) -> (event: ShortcutEvent)
    ensures
        event.triggered() == shortcut_event_of(icon_id@),
{
    let reserved = String::from_str("__reset_all_timers__");
    if icon_id == reserved {
        ShortcutEvent::ResetAllTimers
    } else {
        ShortcutEvent::ShortcutTriggered(icon_id)
    }
}

/// What [`register_low_level_shortcut`] answers: nothing where the callback
/// was registered, else the message of the error.
pub open spec fn register_answer(backend: Backend, reached: bool) -> Result<(), Seq<char>> {
    match backend {
        Backend::Inert => Err(HookError::Unsupported.message_text()),
        Backend::Interception => if reached {
            Ok(())
        } else {
            Err("Failed to register shortcut: "@ + HookError::Poisoned.message_text())
        },
    }
}

/// Registers `callback` under `shortcut` for the user interface.
///
/// `registry` is the registry where the lock that guards it could be taken,
/// and `None` where the lock is poisoned. With the intercepting backend the
/// callback is registered and the result is `Ok`, unless the registry could
/// not be reached. With the inert backend nothing is registered and the
/// result is the message of [`HookError::Unsupported`].
pub fn register_low_level_shortcut<F: Fn()>(
    backend: Backend,
    registry: Option<&mut ShortcutRegistry<F>>,
    shortcut: String,
    callback: F,
) -> (result: Result<(), String>)
    requires
        registry matches Some(held) ==> held.well_formed(),
        call_requires(callback, ()),
    ensures
        match result {
            Ok(_) => register_answer(backend, registry is Some) == Ok::<(), Seq<char>>(()),
            Err(message) => register_answer(backend, registry is Some) == Err::<(), Seq<char>>(
                message@,
            ),
        },
        registry matches Some(held) ==> {
            &&& final(held).well_formed()
            &&& final(held)@ == (match backend {
                Backend::Interception => held@.insert(shortcut@, callback),
                Backend::Inert => held@,
            })
        },
{
    if let Err(error) = backend.supported() {
        return Err(error.message());
    }
    match register_shortcut(backend, registry, shortcut, callback) {
        Ok(_) => Ok(()),
        Err(error) => {
            let mut message = String::from_str("Failed to register shortcut: ");
            message.append(error.message().as_str());
            Err(message)
        },
    }
}

/// Removes every registration for the user interface.
///
/// `registry` is the registry where the lock that guards it could be taken,
/// and `None` where the lock is poisoned. With the inert backend, and where
/// the registry could not be reached, nothing changes. The result is `Ok` in
/// every case.
pub fn unregister_all_low_level_shortcuts<F: Fn()>(
    backend: Backend,
    registry: Option<&mut ShortcutRegistry<F>>,
) -> (result: Result<(), String>)
    requires
        registry matches Some(held) ==> held.well_formed(),
    ensures
        result is Ok,
        registry matches Some(held) ==> {
            &&& final(held).well_formed()
            &&& final(held)@ == (match backend {
                Backend::Interception => Map::<Seq<char>, F>::empty(),
                Backend::Inert => held@,
            })
        },
{
    match unregister_all_shortcuts(backend, registry) {
        Ok(_) => Ok(()),
        Err(error) => {
            let mut message = String::from_str("Failed to unregister shortcuts: ");
            message.append(error.message().as_str());
            Err(message)
        },
    }
}

/// The name of the file that holds the icon `icon_id`.
pub open spec fn icon_file_name_of(icon_id: Seq<char>) -> Seq<char> {
    icon_id + ".png"@
}

/// The path of the icon `icon_id`, relative to the directory of the
/// application's data.
pub open spec fn icon_relative_path_of(icon_id: Seq<char>) -> Seq<char> {
    "icons/"@ + icon_id + ".png"@
}

/// The name of the file that holds the icon `icon_id`.
pub fn icon_file_name(icon_id: &str) -> (name: String)
    ensures
        name@ == icon_file_name_of(icon_id@),
{
    let mut name = String::from_str(icon_id);
    name.append(".png");
    name
}

/// The path under which the user interface finds the icon `icon_id`.
pub fn icon_relative_path(icon_id: &str) -> (path: String)
    ensures
        path@ == icon_relative_path_of(icon_id@),
{
    let mut path = String::from_str("icons/");
    path.append(icon_id);
    path.append(".png");
    assert(path@ =~= icon_relative_path_of(icon_id@));
    path
}

/// Tells whether saving the configuration announces the change: it does
/// unless the caller asked for silence.
pub fn emits_config_changed(emit_event: Option<bool>) -> (emits: bool)
    ensures
        emits == (match emit_event {
            Some(wanted) => wanted,
            None => true,
        }),
{
    match emit_event {
        Some(wanted) => wanted,
        None => true,
    }
}

} // verus!
