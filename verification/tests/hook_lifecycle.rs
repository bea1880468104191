use overlay_timer::commands::{
    register_low_level_shortcut, shortcut_event, unregister_all_low_level_shortcuts, ShortcutEvent,
};
use overlay_timer::dispatch::{low_level_keyboard_proc, KeyEvent, WM_KEYDOWN};
use overlay_timer::hook::{
    register_low_level_hook, register_shortcut, unregister_all_shortcuts,
    unregister_low_level_hook, Backend, HookError, HookHandle, HookLifecycle,
};
use overlay_timer::modifiers::ModifierState;
use overlay_timer::registry::ShortcutRegistry;
use std::cell::Cell;
use std::rc::Rc;

type Callback = Box<dyn Fn()>;

fn counter() -> (Rc<Cell<u32>>, Callback) {
    let count = Rc::new(Cell::new(0u32));
    let seen = count.clone();
    (count, Box::new(move || seen.set(seen.get() + 1)))
}

fn alt_f5() -> (KeyEvent, ModifierState) {
    (
        KeyEvent { code: 0, message: WM_KEYDOWN, vk_code: 0x74, flags: 0, repeat: false },
        ModifierState { alt: true, ctrl: false, shift: false },
    )
}

#[test]
fn only_the_inert_backend_is_unsupported() {
    assert_eq!(Backend::Interception.supported(), Ok(()));
    assert_eq!(Backend::Inert.supported(), Err(HookError::Unsupported));
}

#[test]
fn a_new_lifecycle_has_no_hook() {
    let lifecycle = HookLifecycle::new(Backend::Interception);
    assert_eq!(lifecycle.get_backend(), Backend::Interception);
    assert_eq!(lifecycle.installed_handle(), None);
    assert!(lifecycle.install_needed());
    let inert = HookLifecycle::new(Backend::Inert);
    assert_eq!(inert.get_backend(), Backend::Inert);
    assert_eq!(inert.installed_handle(), None);
    assert!(!inert.install_needed());
}

#[test]
fn a_successful_installation_stores_the_handle() {
    let mut lifecycle = HookLifecycle::new(Backend::Interception);
    let result = register_low_level_hook(&mut lifecycle, Ok(HookHandle { raw: 0x1234 }));
    assert_eq!(result, Ok(()));
    assert_eq!(lifecycle.installed_handle(), Some(HookHandle { raw: 0x1234 }));
    assert!(!lifecycle.install_needed());
}

#[test]
fn a_refused_installation_is_an_install_error() {
    let mut lifecycle = HookLifecycle::new(Backend::Interception);
    let result = register_low_level_hook(&mut lifecycle, Err(-2147024891));
    assert_eq!(result, Err(HookError::Install(-2147024891)));
    assert_eq!(lifecycle.installed_handle(), None);
    assert!(lifecycle.install_needed());
    let result = register_low_level_hook(&mut lifecycle, Ok(HookHandle { raw: 7 }));
    assert_eq!(result, Ok(()));
    assert_eq!(lifecycle.installed_handle(), Some(HookHandle { raw: 7 }));
}

#[test]
fn at_most_one_hook_is_installed() {
    let mut lifecycle = HookLifecycle::new(Backend::Interception);
    assert_eq!(register_low_level_hook(&mut lifecycle, Ok(HookHandle { raw: 1 })), Ok(()));
    assert!(!lifecycle.install_needed());
    assert_eq!(register_low_level_hook(&mut lifecycle, Err(5)), Ok(()));
    assert_eq!(lifecycle.installed_handle(), Some(HookHandle { raw: 1 }));
}

#[test]
fn the_inert_backend_installs_nothing_and_succeeds() {
    let mut lifecycle = HookLifecycle::new(Backend::Inert);
    assert!(!lifecycle.install_needed());
    assert_eq!(register_low_level_hook(&mut lifecycle, Err(1)), Ok(()));
    assert_eq!(lifecycle.installed_handle(), None);
    assert_eq!(unregister_low_level_hook(&mut lifecycle, Ok(())), Ok(()));
    assert_eq!(unregister_low_level_hook(&mut lifecycle, Err(1)), Ok(()));
    assert_eq!(lifecycle.get_backend(), Backend::Inert);
}

#[test]
fn removing_the_hook_gives_up_the_handle() {
    let mut lifecycle = HookLifecycle::new(Backend::Interception);
    assert_eq!(register_low_level_hook(&mut lifecycle, Ok(HookHandle { raw: 42 })), Ok(()));
    assert_eq!(unregister_low_level_hook(&mut lifecycle, Ok(())), Ok(()));
    assert_eq!(lifecycle.installed_handle(), None);
    assert!(lifecycle.install_needed());
}

#[test]
fn removing_without_a_hook_is_a_success() {
    let mut lifecycle = HookLifecycle::new(Backend::Interception);
    assert_eq!(unregister_low_level_hook(&mut lifecycle, Ok(())), Ok(()));
    assert_eq!(unregister_low_level_hook(&mut lifecycle, Err(1404)), Ok(()));
    assert_eq!(register_low_level_hook(&mut lifecycle, Ok(HookHandle { raw: 42 })), Ok(()));
    assert_eq!(unregister_low_level_hook(&mut lifecycle, Ok(())), Ok(()));
    assert_eq!(unregister_low_level_hook(&mut lifecycle, Ok(())), Ok(()));
    assert_eq!(lifecycle.installed_handle(), None);
}

#[test]
fn a_removal_that_the_system_refuses_is_a_success_and_the_handle_is_gone() {
    let mut lifecycle = HookLifecycle::new(Backend::Interception);
    assert_eq!(register_low_level_hook(&mut lifecycle, Ok(HookHandle { raw: 42 })), Ok(()));
    assert_eq!(unregister_low_level_hook(&mut lifecycle, Err(1404)), Ok(()));
    assert_eq!(lifecycle.installed_handle(), None);
    assert!(lifecycle.install_needed());
    assert_eq!(unregister_low_level_hook(&mut lifecycle, Err(1404)), Ok(()));
    assert_eq!(unregister_low_level_hook(&mut lifecycle, Err(i32::MIN)), Ok(()));
    assert_eq!(lifecycle.installed_handle(), None);
}

#[test]
fn the_hook_can_be_installed_again_after_removal() {
    let mut lifecycle = HookLifecycle::new(Backend::Interception);
    assert_eq!(register_low_level_hook(&mut lifecycle, Ok(HookHandle { raw: 1 })), Ok(()));
    assert_eq!(unregister_low_level_hook(&mut lifecycle, Ok(())), Ok(()));
    assert_eq!(register_low_level_hook(&mut lifecycle, Ok(HookHandle { raw: 2 })), Ok(()));
    assert_eq!(lifecycle.installed_handle(), Some(HookHandle { raw: 2 }));
}

#[test]
fn error_messages_name_the_failure_and_the_code() {
    assert_eq!(
        HookError::Unsupported.message(),
        "Low-level keyboard hooks are only available on Windows"
    );
    assert_eq!(
        HookError::Install(5).message(),
        "Failed to install the low-level keyboard hook (code 5)"
    );
    assert_eq!(
        HookError::Install(-2147024891).message(),
        "Failed to install the low-level keyboard hook (code -2147024891)"
    );
    assert_eq!(
        HookError::Install(i32::MIN).message(),
        "Failed to install the low-level keyboard hook (code -2147483648)"
    );
    assert_eq!(
        HookError::Install(0).message(),
        "Failed to install the low-level keyboard hook (code 0)"
    );
    assert_eq!(
        HookError::Install(i32::MAX).message(),
        "Failed to install the low-level keyboard hook (code 2147483647)"
    );
    assert_eq!(HookError::Poisoned.message(), "The lock of the shortcut registry is poisoned");
}

#[test]
fn register_shortcut_reports_a_poisoned_lock() {
    let (count, callback) = counter();
    let result =
        register_shortcut::<Callback>(Backend::Interception, None, "Alt+F5".to_string(), callback);
    assert_eq!(result, Err(HookError::Poisoned));
    assert_eq!(count.get(), 0);
}

#[test]
fn the_inert_backend_does_not_need_the_registry() {
    let (_count, callback) = counter();
    let result = register_shortcut::<Callback>(Backend::Inert, None, "Alt+F5".to_string(), callback);
    assert_eq!(result, Ok(()));
    assert_eq!(unregister_all_shortcuts::<Callback>(Backend::Inert, None), Ok(()));
    assert_eq!(unregister_all_low_level_shortcuts::<Callback>(Backend::Inert, None), Ok(()));
}

#[test]
fn unregistering_succeeds_even_with_a_poisoned_lock() {
    assert_eq!(unregister_all_shortcuts::<Callback>(Backend::Interception, None), Ok(()));
    assert_eq!(unregister_all_low_level_shortcuts::<Callback>(Backend::Interception, None), Ok(()));
}

#[test]
fn the_command_reports_a_poisoned_lock() {
    let (_count, callback) = counter();
    let result = register_low_level_shortcut::<Callback>(
        Backend::Interception,
        None,
        "Alt+F5".to_string(),
        callback,
    );
    assert_eq!(
        result,
        Err("Failed to register shortcut: The lock of the shortcut registry is poisoned"
            .to_string())
    );
    let (_count, callback) = counter();
    let result =
        register_low_level_shortcut::<Callback>(Backend::Inert, None, "Alt+F5".to_string(), callback);
    assert_eq!(
        result,
        Err("Low-level keyboard hooks are only available on Windows".to_string())
    );
}

#[test]
fn register_shortcut_registers_with_the_intercepting_backend() {
    let mut registry: ShortcutRegistry<Callback> = ShortcutRegistry::new();
    let (count, callback) = counter();
    let result =
        register_shortcut(Backend::Interception, Some(&mut registry), "Alt+F5".to_string(), callback);
    assert_eq!(result, Ok(()));
    let (event, modifiers) = alt_f5();
    assert!(low_level_keyboard_proc(Some(&registry), &event, modifiers).invoked);
    assert_eq!(count.get(), 1);
}

#[test]
fn register_shortcut_replaces_the_earlier_callback() {
    let mut registry: ShortcutRegistry<Callback> = ShortcutRegistry::new();
    let (first, first_callback) = counter();
    let (second, second_callback) = counter();
    let backend = Backend::Interception;
    assert_eq!(register_shortcut(backend, Some(&mut registry), "Alt+F5".to_string(), first_callback), Ok(()));
    assert_eq!(register_shortcut(backend, Some(&mut registry), "Alt+F5".to_string(), second_callback), Ok(()));
    let (event, modifiers) = alt_f5();
    assert!(low_level_keyboard_proc(Some(&registry), &event, modifiers).invoked);
    assert_eq!(first.get(), 0);
    assert_eq!(second.get(), 1);
}

#[test]
fn register_shortcut_is_without_effect_with_the_inert_backend() {
    let mut registry: ShortcutRegistry<Callback> = ShortcutRegistry::new();
    let (count, callback) = counter();
    let result = register_shortcut(Backend::Inert, Some(&mut registry), "Alt+F5".to_string(), callback);
    assert_eq!(result, Ok(()));
    assert!(registry.lookup("Alt+F5").is_none());
    let (event, modifiers) = alt_f5();
    let outcome = low_level_keyboard_proc(Some(&registry), &event, modifiers);
    assert!(!outcome.invoked);
    assert!(outcome.forwarded);
    assert_eq!(count.get(), 0);
}

#[test]
fn unregister_all_shortcuts_always_succeeds() {
    let mut registry: ShortcutRegistry<Callback> = ShortcutRegistry::new();
    assert_eq!(unregister_all_shortcuts(Backend::Interception, Some(&mut registry)), Ok(()));
    let (count, callback) = counter();
    registry.register("Alt+F5".to_string(), callback);
    assert_eq!(unregister_all_shortcuts(Backend::Interception, Some(&mut registry)), Ok(()));
    assert_eq!(unregister_all_shortcuts(Backend::Interception, Some(&mut registry)), Ok(()));
    let (event, modifiers) = alt_f5();
    assert!(!low_level_keyboard_proc(Some(&registry), &event, modifiers).invoked);
    assert_eq!(count.get(), 0);
}

#[test]
fn unregister_all_shortcuts_changes_nothing_with_the_inert_backend() {
    let mut registry: ShortcutRegistry<Callback> = ShortcutRegistry::new();
    let (_count, callback) = counter();
    registry.register("Alt+F5".to_string(), callback);
    assert_eq!(unregister_all_shortcuts(Backend::Inert, Some(&mut registry)), Ok(()));
    assert!(registry.lookup("Alt+F5").is_some());
}

#[test]
fn the_command_registers_with_the_intercepting_backend() {
    let mut registry: ShortcutRegistry<Callback> = ShortcutRegistry::new();
    let (count, callback) = counter();
    let result = register_low_level_shortcut(
        Backend::Interception,
        Some(&mut registry),
        "Alt+F5".to_string(),
        callback,
    );
    assert_eq!(result, Ok(()));
    let (event, modifiers) = alt_f5();
    assert!(low_level_keyboard_proc(Some(&registry), &event, modifiers).invoked);
    assert_eq!(count.get(), 1);
}

#[test]
fn the_command_reports_the_inert_backend_as_unsupported() {
    let mut registry: ShortcutRegistry<Callback> = ShortcutRegistry::new();
    let (_count, callback) = counter();
    let result =
        register_low_level_shortcut(Backend::Inert, Some(&mut registry), "Alt+F5".to_string(), callback);
    assert_eq!(
        result,
        Err("Low-level keyboard hooks are only available on Windows".to_string())
    );
    assert!(registry.lookup("Alt+F5").is_none());
}

#[test]
fn the_command_to_unregister_always_succeeds() {
    let mut registry: ShortcutRegistry<Callback> = ShortcutRegistry::new();
    let (count, callback) = counter();
    registry.register("Alt+F5".to_string(), callback);
    assert_eq!(unregister_all_low_level_shortcuts(Backend::Interception, Some(&mut registry)), Ok(()));
    assert!(registry.lookup("Alt+F5").is_none());
    assert_eq!(unregister_all_low_level_shortcuts(Backend::Interception, Some(&mut registry)), Ok(()));
    assert_eq!(unregister_all_low_level_shortcuts(Backend::Inert, Some(&mut registry)), Ok(()));
    assert_eq!(count.get(), 0);
}

#[test]
fn the_reserved_identifier_resets_every_timer() {
    let event = shortcut_event("__reset_all_timers__".to_string());
    assert_eq!(event, ShortcutEvent::ResetAllTimers);
    assert_eq!(event.name(), "reset-all-timers");
}

#[test]
fn any_other_identifier_triggers_its_timer() {
    let event = shortcut_event("icon-1700000000000".to_string());
    assert_eq!(event, ShortcutEvent::ShortcutTriggered("icon-1700000000000".to_string()));
    assert_eq!(event.name(), "shortcut-triggered");
    assert_eq!(
        shortcut_event("__reset_all_timers__ ".to_string()),
        ShortcutEvent::ShortcutTriggered("__reset_all_timers__ ".to_string())
    );
    assert_eq!(shortcut_event(String::new()), ShortcutEvent::ShortcutTriggered(String::new()));
}
