//! The names of keys: from raw virtual-key codes to canonical key names.
//!
//! A key code is the unsigned integer by which the operating system identifies
//! a key. Only the keys listed here have a name; every other code has none and
//! can never take part in a shortcut.

use crate::text::{append_decimal, decimal, digit, digit_char};
use vstd::prelude::*;
use vstd::string::StringExecFns;

verus! {

/// First code of the digit keys `0`..`9`.
pub const VK_DIGIT_FIRST: u32 = 0x30;

/// Last code of the digit keys.
pub const VK_DIGIT_LAST: u32 = 0x39;

/// First code of the letter keys `A`..`Z`.
pub const VK_LETTER_FIRST: u32 = 0x41;

/// Last code of the letter keys.
pub const VK_LETTER_LAST: u32 = 0x5A;

/// First code of the numeric-keypad digits `Numpad0`..`Numpad9`.
pub const VK_NUMPAD_FIRST: u32 = 0x60;

/// Last code of the numeric-keypad digits.
pub const VK_NUMPAD_LAST: u32 = 0x69;

/// First code of the function keys `F1`..`F12`.
pub const VK_FUNCTION_FIRST: u32 = 0x70;

/// Last code of the function keys.
pub const VK_FUNCTION_LAST: u32 = 0x7B;

/// The name of a key of the fixed table of control keys, if `vk` is one.
pub open spec fn control_key_name(vk: u32) -> Option<Seq<char>> {
    if vk == 0x20 {
        Some("Space"@)
    } else if vk == 0x0D {
        Some("Enter"@)
    } else if vk == 0x09 {
        Some("Tab"@)
    } else if vk == 0x1B {
        Some("Escape"@)
    } else if vk == 0x08 {
        Some("Backspace"@)
    } else if vk == 0x2E {
        Some("Delete"@)
    } else if vk == 0x2D {
        Some("Insert"@)
    } else if vk == 0x24 {
        Some("Home"@)
    } else if vk == 0x23 {
        Some("End"@)
    } else if vk == 0x21 {
        Some("PageUp"@)
    } else if vk == 0x22 {
        Some("PageDown"@)
    } else if vk == 0x26 {
        Some("ArrowUp"@)
    } else if vk == 0x28 {
        Some("ArrowDown"@)
    } else if vk == 0x25 {
        Some("ArrowLeft"@)
    } else if vk == 0x27 {
        Some("ArrowRight"@)
    } else {
        None
    }
}

/// The canonical name of the key with code `vk`, or `None` where the key has
/// no name.
///
/// A digit or a letter is named by its own character, a function key by `F`
/// and its number, a keypad digit by `Numpad` and the digit, and a control key
/// by its entry in [`control_key_name`].
pub open spec fn key_name(vk: u32) -> Option<Seq<char>> {
    if VK_DIGIT_FIRST <= vk <= VK_DIGIT_LAST {
        Some(seq![digit_char(vk - VK_DIGIT_FIRST)])
    } else if VK_LETTER_FIRST <= vk <= VK_LETTER_LAST {
        Some(seq![vk as u8 as char])
    } else if VK_FUNCTION_FIRST <= vk <= VK_FUNCTION_LAST {
        Some(seq!['F'] + decimal((vk - VK_FUNCTION_FIRST + 1) as nat))
    } else if VK_NUMPAD_FIRST <= vk <= VK_NUMPAD_LAST {
        Some("Numpad"@.push(digit_char(vk - VK_NUMPAD_FIRST)))
    } else {
        control_key_name(vk)
    }
}

fn control_key(vk_code: u32) -> (name: Option<String>)
    ensures
        match name {
            Some(s) => control_key_name(vk_code) == Some(s@),
            None => control_key_name(vk_code) is None,
        },
{
    match vk_code {
        0x20 => Some(String::from_str("Space")),
        0x0D => Some(String::from_str("Enter")),
        0x09 => Some(String::from_str("Tab")),
        0x1B => Some(String::from_str("Escape")),
        0x08 => Some(String::from_str("Backspace")),
        0x2E => Some(String::from_str("Delete")),
        0x2D => Some(String::from_str("Insert")),
        0x24 => Some(String::from_str("Home")),
        0x23 => Some(String::from_str("End")),
        0x21 => Some(String::from_str("PageUp")),
        0x22 => Some(String::from_str("PageDown")),
        0x26 => Some(String::from_str("ArrowUp")),
        0x28 => Some(String::from_str("ArrowDown")),
        0x25 => Some(String::from_str("ArrowLeft")),
        0x27 => Some(String::from_str("ArrowRight")),
        _ => None,
    }
}

/// Gives the canonical name of the key with the raw code `vk_code`.
///
/// The result is `Some` exactly for the codes that [`key_name`] names, and
/// then holds that name; for every other code it is `None`.
pub fn vk_code_to_key_name(vk_code: u32) -> (name: Option<String>)
    ensures
        match name {
            Some(s) => key_name(vk_code) == Some(s@),
            None => key_name(vk_code) is None,
        },
{
    if VK_DIGIT_FIRST <= vk_code && vk_code <= VK_DIGIT_LAST {
        let mut s = String::new();
        s.push(digit((vk_code - VK_DIGIT_FIRST) as u8));
        assert(s@ =~= seq![digit_char(vk_code - VK_DIGIT_FIRST)]);
        Some(s)
    } else if VK_LETTER_FIRST <= vk_code && vk_code <= VK_LETTER_LAST {
        let mut s = String::new();
        s.push(vk_code as u8 as char);
        assert(s@ =~= seq![vk_code as u8 as char]);
        Some(s)
    } else if VK_FUNCTION_FIRST <= vk_code && vk_code <= VK_FUNCTION_LAST {
        let mut s = String::new();
        s.push('F');
        append_decimal(&mut s, (vk_code - VK_FUNCTION_FIRST + 1) as u128);
        assert(s@ =~= seq!['F'] + decimal((vk_code - VK_FUNCTION_FIRST + 1) as nat));
        Some(s)
    } else if VK_NUMPAD_FIRST <= vk_code && vk_code <= VK_NUMPAD_LAST {
        let mut s = String::from_str("Numpad");
        s.push(digit((vk_code - VK_NUMPAD_FIRST) as u8));
        Some(s)
    } else {
        control_key(vk_code)
    }
}

} // verus!
