//! Canonical shortcut strings.
//!
//! A key combination is identified by one string: the held modifiers in the
//! fixed order `Alt`, `Ctrl`, `Shift`, then the name of the key, joined by `+`
//! (`Alt+Ctrl+F5`). Two combinations are the same exactly if their strings are
//! equal.

use crate::keys::key_name;
use crate::text::decimal;
use crate::modifiers::{held_after, lemma_held_after_contains, Modifier, ModifierState};
use vstd::prelude::*;
use vstd::string::StringExecFns;

verus! {

/// The character that joins the parts of a shortcut string.
pub const SEPARATOR: char = '+';

/// The part of a shortcut string that names the held modifiers, each followed
/// by the separator.
pub open spec fn modifier_prefix(modifiers: ModifierState) -> Seq<char> {
    (if modifiers.alt {
        "Alt+"@
    } else {
        Seq::<char>::empty()
    }) + (if modifiers.ctrl {
        "Ctrl+"@
    } else {
        Seq::<char>::empty()
    }) + (if modifiers.shift {
        "Shift+"@
    } else {
        Seq::<char>::empty()
    })
}

/// The canonical string of the combination of `modifiers` with the key named
/// `key`.
pub open spec fn shortcut_text(modifiers: ModifierState, key: Seq<char>) -> Seq<char> {
    modifier_prefix(modifiers) + key
}

/// Whether `text` is a shortcut string: the canonical string of some modifier
/// state with some named key.
pub open spec fn is_shortcut_string(text: Seq<char>) -> bool {
    exists|modifiers: ModifierState, vk: u32|
        key_name(vk) is Some && text == #[trigger] shortcut_text(modifiers, key_name(vk)->0)
}

/// Composes the canonical shortcut string of `modifiers` held with the key
/// named `key`.
pub fn compose_shortcut(modifiers: ModifierState, key: &str) -> (text: String)
    ensures
        text@ == shortcut_text(modifiers, key@),
{
    let mut text = String::new();
    if modifiers.alt {
        text.append("Alt+");
    }
    if modifiers.ctrl {
        text.append("Ctrl+");
    }
    if modifiers.shift {
        text.append("Shift+");
    }
    text.append(key);
    assert(text@ =~= shortcut_text(modifiers, key@));
    text
}

/// The modifier part of a shortcut string has a length that tells the held
/// modifiers apart, and where it is not empty it ends in the separator.
proof fn lemma_modifier_prefix_shape(modifiers: ModifierState)
    ensures
        modifier_prefix(modifiers).len() == (if modifiers.alt {
            4int
        } else {
            0
        }) + (if modifiers.ctrl {
            5int
        } else {
            0
        }) + (if modifiers.shift {
            6int
        } else {
            0
        }),
        modifier_prefix(modifiers).len() > 0 ==> modifier_prefix(modifiers).last() == SEPARATOR,
{
    reveal_strlit("Alt+");
    reveal_strlit("Ctrl+");
    reveal_strlit("Shift+");
}

/// The decimal numeral of a number holds digits only.
proof fn lemma_decimal_is_plain(n: nat)
    ensures
        decimal(n).len() > 0,
        !decimal(n).contains(SEPARATOR),
    decreases n,
{
    if n >= 10 {
        lemma_decimal_is_plain(n / 10);
        let head = decimal(n / 10);
        let all = decimal(n);
        if all.contains(SEPARATOR) {
            let j = choose|j: int| 0 <= j < all.len() && all[j] == SEPARATOR;
            if j < head.len() {
                assert(head[j] == SEPARATOR);
            }
        }
    }
}

/// No key name is empty, and none holds the separator.
pub proof fn lemma_key_name_is_plain(vk: u32)
    requires
        key_name(vk) is Some,
    ensures
        key_name(vk)->0.len() > 0,
        !key_name(vk)->0.contains(SEPARATOR),
{
    reveal_strlit("Numpad");
    reveal_strlit("Space");
    reveal_strlit("Enter");
    reveal_strlit("Tab");
    reveal_strlit("Escape");
    reveal_strlit("Backspace");
    reveal_strlit("Delete");
    reveal_strlit("Insert");
    reveal_strlit("Home");
    reveal_strlit("End");
    reveal_strlit("PageUp");
    reveal_strlit("PageDown");
    reveal_strlit("ArrowUp");
    reveal_strlit("ArrowDown");
    reveal_strlit("ArrowLeft");
    reveal_strlit("ArrowRight");
    let name = key_name(vk)->0;
    if 0x70 <= vk <= 0x7B {
        lemma_decimal_is_plain((vk - 0x70 + 1) as nat);
        let digits = decimal((vk - 0x70 + 1) as nat);
        if name.contains(SEPARATOR) {
            let j = choose|j: int| 0 <= j < name.len() && name[j] == SEPARATOR;
            if j > 0 {
                assert(digits[j - 1] == SEPARATOR);
            }
        }
    } else {
        if name.contains(SEPARATOR) {
            let j = choose|j: int| 0 <= j < name.len() && name[j] == SEPARATOR;
            assert(name[j] != SEPARATOR);
        }
    }
}

/// Two combinations have the same canonical string only if they hold the same
/// modifiers and the same key: the string identifies the combination.
pub proof fn lemma_shortcut_text_is_injective(
    first: ModifierState,
    first_key: Seq<char>,
    second: ModifierState,
    second_key: Seq<char>,
)
    requires
        !first_key.contains(SEPARATOR),
        !second_key.contains(SEPARATOR),
        shortcut_text(first, first_key) == shortcut_text(second, second_key),
    ensures
        first == second,
        first_key == second_key,
{
    let first_prefix = modifier_prefix(first);
    let second_prefix = modifier_prefix(second);
    let text = shortcut_text(first, first_key);
    lemma_modifier_prefix_shape(first);
    lemma_modifier_prefix_shape(second);
    if first_prefix.len() < second_prefix.len() {
        let at: int = second_prefix.len() - 1;
        assert(text[at] == second_prefix[at]);
        assert(text[at] == first_key[at - first_prefix.len()]);
        assert(first_key.contains(SEPARATOR));
    }
    if second_prefix.len() < first_prefix.len() {
        let at: int = first_prefix.len() - 1;
        assert(text[at] == first_prefix[at]);
        assert(text[at] == second_key[at - second_prefix.len()]);
        assert(second_key.contains(SEPARATOR));
    }
    assert(first == second);
    assert(first_key =~= text.subrange(first_prefix.len() as int, text.len() as int));
    assert(second_key =~= text.subrange(second_prefix.len() as int, text.len() as int));
}

/// Two combinations of modifiers with a named key are the same exactly if
/// their canonical strings are equal.
pub proof fn lemma_combinations_are_their_strings(
    first: ModifierState,
    first_key: u32,
    second: ModifierState,
    second_key: u32,
)
    requires
        key_name(first_key) is Some,
        key_name(second_key) is Some,
    ensures
        shortcut_text(first, key_name(first_key)->0) == shortcut_text(
            second,
            key_name(second_key)->0,
        ) <==> first == second && key_name(first_key) == key_name(second_key),
{
    lemma_key_name_is_plain(first_key);
    lemma_key_name_is_plain(second_key);
    if shortcut_text(first, key_name(first_key)->0) == shortcut_text(
        second,
        key_name(second_key)->0,
    ) {
        lemma_shortcut_text_is_injective(
            first,
            key_name(first_key)->0,
            second,
            key_name(second_key)->0,
        );
    }
}

/// The shortcut string of a key does not depend on the order in which the
/// modifiers went down: it names each modifier that occurs among the presses
/// once, always in the order `Alt`, `Ctrl`, `Shift`, and then the key.
pub proof fn lemma_shortcut_ignores_press_order(
    first: Seq<Modifier>,
    second: Seq<Modifier>,
    key: Seq<char>,
)
    requires
        forall|m: Modifier| first.contains(m) == second.contains(m),
    ensures
        shortcut_text(held_after(first), key) == shortcut_text(held_after(second), key),
        shortcut_text(held_after(first), key) == (if first.contains(Modifier::Alt) {
            "Alt+"@
        } else {
            Seq::<char>::empty()
        }) + (if first.contains(Modifier::Ctrl) {
            "Ctrl+"@
        } else {
            Seq::<char>::empty()
        }) + (if first.contains(Modifier::Shift) {
            "Shift+"@
        } else {
            Seq::<char>::empty()
        }) + key,
{
    lemma_held_after_contains(first);
    lemma_held_after_contains(second);
}

} // verus!
