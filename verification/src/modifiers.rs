//! The state of the modifier keys Alt, Ctrl and Shift.
//!
//! A keyboard event does not say which modifiers are held. Their state is
//! sampled from the operating system when a key goes down; this module turns
//! the raw samples into a [`ModifierState`].

use vstd::prelude::*;

verus! {

/// One of the three modifier keys that may take part in a shortcut.
#[derive(Clone, Copy, Debug, PartialEq, Eq, Structural)]
pub enum Modifier {
    Alt,
    Ctrl,
    Shift,
}

/// Which of the modifier keys are held down at one instant.
#[derive(Clone, Copy, Debug, PartialEq, Eq, Structural)]
pub struct ModifierState {
    pub alt: bool,
    pub ctrl: bool,
    pub shift: bool,
}

/// Whether a raw key-state sample reports the key as down: its most
/// significant bit is set.
pub open spec fn sample_is_down(sample: i16) -> bool {
    (sample as u16) & 0x8000 != 0
}

/// The modifier state after the modifiers of `presses` have gone down one
/// after another, in that order, starting with none held.
pub open spec fn held_after(presses: Seq<Modifier>) -> ModifierState
    decreases presses.len(),
{
    if presses.len() == 0 {
        ModifierState { alt: false, ctrl: false, shift: false }
    } else {
        held_after(presses.drop_last()).with(presses.last())
    }
}

/// Tells from a raw key-state sample whether the key is down.
pub fn key_is_down(sample: i16) -> (down: bool)
    ensures
        down == sample_is_down(sample),
{
    assert((sample < 0) == ((sample as u16) & 0x8000 != 0)) by (bit_vector);
    sample < 0
}

impl ModifierState {
    /// The state with the given modifier held in addition.
    pub open spec fn with(self, modifier: Modifier) -> ModifierState {
        match modifier {
            Modifier::Alt => ModifierState { alt: true, ..self },
            Modifier::Ctrl => ModifierState { ctrl: true, ..self },
            Modifier::Shift => ModifierState { shift: true, ..self },
        }
    }

    /// The state in which no modifier is held.
    pub fn none() -> (state: ModifierState)
        ensures
            state == (ModifierState { alt: false, ctrl: false, shift: false }),
    {
        ModifierState { alt: false, ctrl: false, shift: false }
    }

    /// Builds the state from the three raw samples of Alt, Ctrl and Shift.
    pub fn from_key_states(alt: i16, ctrl: i16, shift: i16) -> (state: ModifierState)
        ensures
            state.alt == sample_is_down(alt),
            state.ctrl == sample_is_down(ctrl),
            state.shift == sample_is_down(shift),
    {
        ModifierState { alt: key_is_down(alt), ctrl: key_is_down(ctrl), shift: key_is_down(shift) }
    }

    /// The state after `modifier` has gone down; a modifier that is already
    /// held stays held.
    pub fn press(self, modifier: Modifier) -> (state: ModifierState)
        ensures
            state == self.with(modifier),
    {
        match modifier {
            Modifier::Alt => ModifierState { alt: true, ctrl: self.ctrl, shift: self.shift },
            Modifier::Ctrl => ModifierState { alt: self.alt, ctrl: true, shift: self.shift },
            Modifier::Shift => ModifierState { alt: self.alt, ctrl: self.ctrl, shift: true },
        }
    }

    /// The state after the given modifiers have gone down one after another,
    /// starting with none held.
    pub fn from_presses(presses: &Vec<Modifier>) -> (state: ModifierState)
        ensures
            state == held_after(presses@),
    {
        let mut state = ModifierState::none();
        let mut i: usize = 0;
        while i < presses.len()
            invariant
                i <= presses.len(),
                state == held_after(presses@.take(i as int)),
            decreases presses.len() - i,
        {
            state = state.press(presses[i]);
            i = i + 1;
            assert(presses@.take(i as int).drop_last() =~= presses@.take(i - 1));
        }
        assert(presses@.take(i as int) =~= presses@);
        state
    }
}

/// A modifier is held after a sequence of presses exactly if it occurs in
/// the sequence.
pub proof fn lemma_held_after_contains(presses: Seq<Modifier>)
    ensures
        held_after(presses).alt == presses.contains(Modifier::Alt),
        held_after(presses).ctrl == presses.contains(Modifier::Ctrl),
        held_after(presses).shift == presses.contains(Modifier::Shift),
    decreases presses.len(),
{
    if presses.len() > 0 {
        let earlier = presses.drop_last();
        lemma_held_after_contains(earlier);
        assert forall|m: Modifier|
            presses.contains(m) == (earlier.contains(m) || m == presses.last()) by {
            if earlier.contains(m) {
                let j = choose|j: int| 0 <= j < earlier.len() && earlier[j] == m;
                assert(presses[j] == m);
            }
            if presses.contains(m) {
                let j = choose|j: int| 0 <= j < presses.len() && presses[j] == m;
                if j < earlier.len() {
                    assert(earlier[j] == m);
                }
            }
            assert(presses[presses.len() - 1] == presses.last());
        }
    }
}

/// The modifier state does not depend on the order in which the modifiers
/// went down, nor on how often each did: two press sequences in which the
/// same modifiers occur leave the same state.
pub proof fn lemma_press_order_is_irrelevant(first: Seq<Modifier>, second: Seq<Modifier>)
    requires
        forall|m: Modifier| first.contains(m) == second.contains(m),
    ensures
        held_after(first) == held_after(second),
{
    lemma_held_after_contains(first);
    lemma_held_after_contains(second);
}

} // verus!
