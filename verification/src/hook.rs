//! The life cycle of the keyboard hook and the operations that the rest of
//! the application uses to register shortcuts.
//!
//! Installing and removing the hook is work of the operating system. This
//! module holds the decisions around it: whether the system has to be asked
//! at all, and what its answer means for the state of the hook. The caller
//! asks the system and hands the answer back.

use crate::registry::ShortcutRegistry;
use crate::text::{append_signed_decimal, signed_decimal};
use vstd::prelude::*;
use vstd::string::StringExecFns;

verus! {

/// How shortcuts reach the application on this platform.
#[derive(Clone, Copy, Debug, PartialEq, Eq, Structural)]
pub enum Backend {
    /// The platform lets a process watch the keyboard system-wide.
    Interception,
    /// The platform has no such facility: installing and removing the hook do
    /// nothing, and registrations stay without effect.
    Inert,
}

/// The identifier that the system gave to the installed hook.
#[derive(Clone, Copy, Debug, PartialEq, Eq, Structural)]
pub struct HookHandle {
    pub raw: isize,
}

/// Why an operation on the hook failed.
#[derive(Clone, Copy, Debug, PartialEq, Eq, Structural)]
pub enum HookError {
    /// The platform has no system-wide keyboard hook.
    Unsupported,
    /// The system refused to install the hook, with the given code.
    Install(i32),
    /// The lock that guards the registry is poisoned: a thread panicked
    /// while it held the lock, and the registry can no longer be reached.
    Poisoned,
}

/// The state of the hook: the backend in use and the handle of the installed
/// hook, if one is installed. At most one hook is installed at any time.
#[derive(Clone, Copy, Debug, PartialEq, Eq, Structural)]
pub struct HookLifecycle {
    backend: Backend,
    handle: Option<HookHandle>,
}

impl Backend {
    /// Tells whether the platform has a system-wide keyboard hook: the
    /// result is [`HookError::Unsupported`] exactly for the inert backend.
    pub fn supported(self) -> (result: Result<(), HookError>)
        ensures
            result == (match self {
                Backend::Interception => Ok::<(), HookError>(()),
                Backend::Inert => Err::<(), HookError>(HookError::Unsupported),
            }),
    {
        match self {
            Backend::Interception => Ok(()),
            Backend::Inert => Err(HookError::Unsupported),
        }
    }
}

impl HookError {
    /// The text that describes the error: what failed and, where the system
    /// gave one, its code in decimal.
    pub open spec fn message_text(self) -> Seq<char> {
        match self {
            HookError::Unsupported => "Low-level keyboard hooks are only available on Windows"@,
            HookError::Install(code) => "Failed to install the low-level keyboard hook (code "@
                + signed_decimal(code as int) + ")"@,
            HookError::Poisoned => "The lock of the shortcut registry is poisoned"@,
        }
    }

    /// Describes the error in words.
    pub fn message(&self) -> (text: String)
        ensures
            text@ == self.message_text(),
    {
        match self {
            HookError::Unsupported => String::from_str(
                "Low-level keyboard hooks are only available on Windows",
            ),
            HookError::Install(code) => {
                let mut text = String::from_str(
                    "Failed to install the low-level keyboard hook (code ",
                );
                append_signed_decimal(&mut text, *code);
                text.append(")");
                text
            },
            HookError::Poisoned => String::from_str(
                "The lock of the shortcut registry is poisoned",
            ),
        }
    }
}

impl HookLifecycle {
    /// The backend in use.
    pub closed spec fn backend(self) -> Backend {
        self.backend
    }

    /// The handle of the installed hook, if one is installed.
    pub closed spec fn handle(self) -> Option<HookHandle> {
        self.handle
    }

    /// Whether the system has to be asked to install the hook: the backend
    /// intercepts and no hook is installed yet.
    pub open spec fn needs_install(self) -> bool {
        self.backend() == Backend::Interception && self.handle() is None
    }

    /// The state with the given backend and no hook installed.
    pub fn new(backend: Backend) -> (lifecycle: HookLifecycle)
        ensures
            lifecycle.backend() == backend,
            lifecycle.handle() is None,
    {
        HookLifecycle { backend, handle: None }
    }

    /// The backend in use.
    pub fn get_backend(&self) -> (backend: Backend)
        ensures
            backend == self.backend(),
    {
        self.backend
    }

    /// The handle of the installed hook, if one is installed. It is the
    /// handle that the system has to be asked to remove.
    pub fn installed_handle(&self) -> (handle: Option<HookHandle>)
        ensures
            handle == self.handle(),
    {
        self.handle
    }

    /// Tells whether the system has to be asked to install the hook.
    pub fn install_needed(&self) -> (needed: bool)
        ensures
            needed == self.needs_install(),
    {
        match self.backend {
            Backend::Interception => self.handle.is_none(),
            Backend::Inert => false,
        }
    }
}

/// Records the system's answer to the request to install the hook.
///
/// The system is asked only where an installation is needed, so a handle
/// comes in only then: a second hook is never recorded. A handle is stored
/// and the result is `Ok`; a refusal where an installation was needed leaves
/// the state as it was and comes back as [`HookError::Install`] with the
/// system's code. Where no installation was needed, nothing changes and the
/// result is `Ok`.
pub fn register_low_level_hook(
    lifecycle: &mut HookLifecycle,
    attempt: Result<HookHandle, i32>,
) -> (result: Result<(), HookError>)
    requires
        old(lifecycle).needs_install() || attempt is Err,
    ensures
        final(lifecycle).backend() == old(lifecycle).backend(),
        !old(lifecycle).needs_install() ==> {
            &&& result == Ok::<(), HookError>(())
            &&& *final(lifecycle) == *old(lifecycle)
        },
        old(lifecycle).needs_install() ==> match attempt {
            Ok(handle) => {
                &&& result == Ok::<(), HookError>(())
                &&& final(lifecycle).handle() == Some(handle)
            },
            Err(code) => {
                &&& result == Err::<(), HookError>(HookError::Install(code))
                &&& *final(lifecycle) == *old(lifecycle)
            },
        },
{
    if !lifecycle.install_needed() {
        return Ok(());
    }
    match attempt {
        Ok(handle) => {
            lifecycle.handle = Some(handle);
            Ok(())
        },
        Err(code) => Err(HookError::Install(code)),
    }
}

/// Records that the system was asked to remove the installed hook, with its
/// answer `removal`.
///
/// The handle is given up whatever the system answered, and the result is
/// `Ok` in every case: a handle that the system no longer knows is a hook
/// that is gone already, and removing it again changes nothing. Where no
/// hook is installed, nothing changes.
pub fn unregister_low_level_hook(
    lifecycle: &mut HookLifecycle,
    removal: Result<(), i32>,
) -> (result: Result<(), HookError>)
    ensures
        final(lifecycle).backend() == old(lifecycle).backend(),
        final(lifecycle).handle() is None,
        result == Ok::<(), HookError>(()),
{
    let _ = removal;
    lifecycle.handle = None;
    Ok(())
}

/// Registers `callback` under `shortcut`, replacing a callback registered
/// under the same string before.
///
/// `registry` is the registry where the lock that guards it could be taken,
/// and `None` where the lock is poisoned. With the inert backend nothing is
/// registered and the result is `Ok`. With the intercepting backend the
/// result is [`HookError::Poisoned`] exactly if the registry could not be
/// reached.
pub fn register_shortcut<F: Fn()>(
    backend: Backend,
    registry: Option<&mut ShortcutRegistry<F>>,
    shortcut: String,
    callback: F,
) -> (result: Result<(), HookError>)
    requires
        registry matches Some(held) ==> held.well_formed(),
        call_requires(callback, ()),
    ensures
        result == (if backend == Backend::Interception && registry is None {
            Err::<(), HookError>(HookError::Poisoned)
        } else {
            Ok::<(), HookError>(())
        }),
        registry matches Some(held) ==> {
            &&& final(held).well_formed()
            &&& final(held)@ == (match backend {
                Backend::Interception => held@.insert(shortcut@, callback),
                Backend::Inert => held@,
            })
        },
{
    match backend {
        Backend::Inert => Ok(()),
        Backend::Interception => match registry {
            Some(held) => {
                held.register(shortcut, callback);
                Ok(())
            },
            None => Err(HookError::Poisoned),
        },
    }
}

/// Removes every registration.
///
/// `registry` is the registry where the lock that guards it could be taken,
/// and `None` where the lock is poisoned. With the inert backend, and where
/// the registry could not be reached, nothing changes. The result is `Ok` in
/// every case.
pub fn unregister_all_shortcuts<F: Fn()>(
    backend: Backend,
    registry: Option<&mut ShortcutRegistry<F>>,
) -> (result: Result<(), HookError>)
    requires
        registry matches Some(held) ==> held.well_formed(),
    ensures
        result == Ok::<(), HookError>(()),
        registry matches Some(held) ==> {
            &&& final(held).well_formed()
            &&& final(held)@ == (match backend {
                Backend::Interception => Map::<Seq<char>, F>::empty(),
                Backend::Inert => held@,
            })
        },
{
    match backend {
        Backend::Inert => {},
        Backend::Interception => match registry {
            Some(held) => {
                held.unregister_all();
            },
            None => {},
        },
    }
    Ok(())
}

} // verus!
