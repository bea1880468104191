use overlay_timer::modifiers::{key_is_down, Modifier, ModifierState};
use overlay_timer::shortcut::compose_shortcut;

#[test]
fn a_sample_with_the_high_bit_set_is_down() {
    assert!(key_is_down(i16::MIN));
    assert!(key_is_down(-1));
    assert!(key_is_down(-32767));
}

#[test]
fn a_sample_without_the_high_bit_is_up() {
    assert!(!key_is_down(0));
    assert!(!key_is_down(1));
    assert!(!key_is_down(i16::MAX));
}

#[test]
fn key_is_down_agrees_with_the_high_bit_on_every_sample() {
    for sample in i16::MIN..=i16::MAX {
        assert_eq!(key_is_down(sample), (sample as u16) & 0x8000 != 0);
    }
}

#[test]
fn from_key_states_reads_each_modifier_from_its_own_sample() {
    assert_eq!(
        ModifierState::from_key_states(i16::MIN, 0, 1),
        ModifierState { alt: true, ctrl: false, shift: false }
    );
    assert_eq!(
        ModifierState::from_key_states(0, -1, 0),
        ModifierState { alt: false, ctrl: true, shift: false }
    );
    assert_eq!(
        ModifierState::from_key_states(1, 1, -32767),
        ModifierState { alt: false, ctrl: false, shift: true }
    );
    assert_eq!(
        ModifierState::from_key_states(-1, -1, -1),
        ModifierState { alt: true, ctrl: true, shift: true }
    );
}

#[test]
fn none_holds_no_modifier() {
    assert_eq!(ModifierState::none(), ModifierState { alt: false, ctrl: false, shift: false });
}

#[test]
fn press_holds_the_modifier_and_keeps_the_others() {
    let state = ModifierState::none().press(Modifier::Ctrl);
    assert_eq!(state, ModifierState { alt: false, ctrl: true, shift: false });
    let state = state.press(Modifier::Alt);
    assert_eq!(state, ModifierState { alt: true, ctrl: true, shift: false });
    let state = state.press(Modifier::Shift);
    assert_eq!(state, ModifierState { alt: true, ctrl: true, shift: true });
    assert_eq!(state.press(Modifier::Alt), state);
}

#[test]
fn from_presses_does_not_depend_on_the_order() {
    let orders = [
        vec![Modifier::Alt, Modifier::Ctrl, Modifier::Shift],
        vec![Modifier::Alt, Modifier::Shift, Modifier::Ctrl],
        vec![Modifier::Ctrl, Modifier::Alt, Modifier::Shift],
        vec![Modifier::Ctrl, Modifier::Shift, Modifier::Alt],
        vec![Modifier::Shift, Modifier::Alt, Modifier::Ctrl],
        vec![Modifier::Shift, Modifier::Ctrl, Modifier::Alt],
        vec![Modifier::Shift, Modifier::Shift, Modifier::Ctrl, Modifier::Alt, Modifier::Ctrl],
    ];
    for order in orders {
        assert_eq!(
            ModifierState::from_presses(&order),
            ModifierState { alt: true, ctrl: true, shift: true }
        );
    }
    assert_eq!(ModifierState::from_presses(&vec![]), ModifierState::none());
    assert_eq!(
        ModifierState::from_presses(&vec![Modifier::Shift]),
        ModifierState { alt: false, ctrl: false, shift: true }
    );
}

#[test]
fn shift_then_alt_and_alt_then_shift_both_give_alt_shift_f5() {
    let first = ModifierState::from_presses(&vec![Modifier::Shift, Modifier::Alt]);
    let second = ModifierState::from_presses(&vec![Modifier::Alt, Modifier::Shift]);
    assert_eq!(compose_shortcut(first, "F5"), "Alt+Shift+F5");
    assert_eq!(compose_shortcut(second, "F5"), "Alt+Shift+F5");
}

#[test]
fn compose_renders_modifiers_in_the_fixed_order() {
    let all = ModifierState { alt: true, ctrl: true, shift: true };
    assert_eq!(compose_shortcut(all, "F5"), "Alt+Ctrl+Shift+F5");
    let alt_ctrl = ModifierState { alt: true, ctrl: true, shift: false };
    assert_eq!(compose_shortcut(alt_ctrl, "F5"), "Alt+Ctrl+F5");
    let ctrl_shift = ModifierState { alt: false, ctrl: true, shift: true };
    assert_eq!(compose_shortcut(ctrl_shift, "Home"), "Ctrl+Shift+Home");
    let alt = ModifierState { alt: true, ctrl: false, shift: false };
    assert_eq!(compose_shortcut(alt, "F5"), "Alt+F5");
    let shift = ModifierState { alt: false, ctrl: false, shift: true };
    assert_eq!(compose_shortcut(shift, "A"), "Shift+A");
}

#[test]
fn compose_without_modifiers_is_the_key_name() {
    assert_eq!(compose_shortcut(ModifierState::none(), "F5"), "F5");
    assert_eq!(compose_shortcut(ModifierState::none(), "Numpad7"), "Numpad7");
}

#[test]
fn different_combinations_have_different_strings() {
    let keys = ["A", "F5", "Home", "Numpad0", "Space"];
    let mut seen: Vec<String> = Vec::new();
    for alt in [false, true] {
        for ctrl in [false, true] {
            for shift in [false, true] {
                for key in keys {
                    let text = compose_shortcut(ModifierState { alt, ctrl, shift }, key);
                    assert!(!seen.contains(&text), "{} twice", text);
                    seen.push(text);
                }
            }
        }
    }
    assert_eq!(seen.len(), 40);
}
