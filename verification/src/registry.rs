//! The shortcut registry: which callback belongs to which shortcut string.

use vstd::hash_map::StringHashMap;
use vstd::prelude::*;

verus! {

/// A mapping from shortcut strings to callbacks.
///
/// The registry owns each callback from the moment it is registered. A
/// shortcut string has at most one callback at a time: registering again
/// under the same string discards the one that was there.
#[verifier::reject_recursive_types(F)]
pub struct ShortcutRegistry<F: Fn()> {
    callbacks: StringHashMap<F>,
}

impl<F: Fn()> View for ShortcutRegistry<F> {
    type V = Map<Seq<char>, F>;

    closed spec fn view(&self) -> Map<Seq<char>, F> {
        self.callbacks@
    }
}

impl<F: Fn()> ShortcutRegistry<F> {
    /// The registry is well formed: every callback that it holds may be
    /// called.
    pub open spec fn well_formed(&self) -> bool {
        forall|shortcut: Seq<char>| #[trigger]
            self@.contains_key(shortcut) ==> call_requires(self@[shortcut], ())
    }

    /// An empty registry.
    pub fn new() -> (registry: Self)
        ensures
            registry@ == Map::<Seq<char>, F>::empty(),
            registry.well_formed(),
    {
        ShortcutRegistry { callbacks: StringHashMap::new() }
    }

    /// Registers `callback` under `shortcut`. A callback that was registered
    /// under the same string before is discarded; all others stay.
    pub fn register(&mut self, shortcut: String, callback: F)
        requires
            old(self).well_formed(),
            call_requires(callback, ()),
        ensures
            final(self)@ == old(self)@.insert(shortcut@, callback),
            final(self).well_formed(),
    {
        let ghost key = shortcut@;
        self.callbacks.insert(shortcut, callback);
        assert forall|other: Seq<char>| #[trigger] self@.contains_key(other) implies call_requires(
            self@[other],
            (),
        ) by {
            if other != key {
                assert(old(self)@.contains_key(other));
            }
        }
    }

    /// Removes every registration.
    pub fn unregister_all(&mut self)
        ensures
            final(self)@ == Map::<Seq<char>, F>::empty(),
            final(self).well_formed(),
    {
        self.callbacks.clear();
    }

    /// The callback registered under `shortcut`, if there is one.
    pub fn lookup(&self, shortcut: &str) -> (found: Option<&F>)
        ensures
            match found {
                Some(callback) => self@.contains_key(shortcut@) && *callback == self@[shortcut@],
                None => !self@.contains_key(shortcut@),
            },
    {
        self.callbacks.get(shortcut)
    }

    /// Calls the callback registered under `shortcut`, if there is one, and
    /// tells whether it did: the result is `true` exactly if a callback is
    /// registered under the string, and then that callback has run to its end.
    pub fn lookup_and_invoke(&self, shortcut: &str) -> (invoked: bool)
        requires
            self.well_formed(),
        ensures
            invoked == self@.contains_key(shortcut@),
            invoked ==> call_ensures(self@[shortcut@], (), ()),
    {
        match self.callbacks.get(shortcut) {
            Some(callback) => {
                assert(self@.contains_key(shortcut@));
                callback();
                true
            },
            None => false,
        }
    }
}

} // verus!
