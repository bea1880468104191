use overlay_timer::keys::vk_code_to_key_name;

fn expected_name(vk: u32) -> Option<String> {
    let named: [(u32, &str); 15] = [
        (0x20, "Space"),
        (0x0D, "Enter"),
        (0x09, "Tab"),
        (0x1B, "Escape"),
        (0x08, "Backspace"),
        (0x2E, "Delete"),
        (0x2D, "Insert"),
        (0x24, "Home"),
        (0x23, "End"),
        (0x21, "PageUp"),
        (0x22, "PageDown"),
        (0x26, "ArrowUp"),
        (0x28, "ArrowDown"),
        (0x25, "ArrowLeft"),
        (0x27, "ArrowRight"),
    ];
    let digits = ["0", "1", "2", "3", "4", "5", "6", "7", "8", "9"];
    let letters = [
        "A", "B", "C", "D", "E", "F", "G", "H", "I", "J", "K", "L", "M", "N", "O", "P", "Q", "R",
        "S", "T", "U", "V", "W", "X", "Y", "Z",
    ];
    let function_keys = [
        "F1", "F2", "F3", "F4", "F5", "F6", "F7", "F8", "F9", "F10", "F11", "F12",
    ];
    if (0x30..=0x39).contains(&vk) {
        return Some(digits[(vk - 0x30) as usize].to_string());
    }
    if (0x41..=0x5A).contains(&vk) {
        return Some(letters[(vk - 0x41) as usize].to_string());
    }
    if (0x70..=0x7B).contains(&vk) {
        return Some(function_keys[(vk - 0x70) as usize].to_string());
    }
    if (0x60..=0x69).contains(&vk) {
        return Some(format!("Numpad{}", digits[(vk - 0x60) as usize]));
    }
    for (code, name) in named {
        if code == vk {
            return Some(name.to_string());
        }
    }
    None
}

#[test]
fn digits_are_named_by_their_character() {
    assert_eq!(vk_code_to_key_name(0x30), Some("0".to_string()));
    assert_eq!(vk_code_to_key_name(0x35), Some("5".to_string()));
    assert_eq!(vk_code_to_key_name(0x39), Some("9".to_string()));
}

#[test]
fn letters_are_named_by_their_character() {
    assert_eq!(vk_code_to_key_name(0x41), Some("A".to_string()));
    assert_eq!(vk_code_to_key_name(0x4D), Some("M".to_string()));
    assert_eq!(vk_code_to_key_name(0x5A), Some("Z".to_string()));
}

#[test]
fn function_keys_are_named_f1_to_f12() {
    assert_eq!(vk_code_to_key_name(0x70), Some("F1".to_string()));
    assert_eq!(vk_code_to_key_name(0x74), Some("F5".to_string()));
    assert_eq!(vk_code_to_key_name(0x78), Some("F9".to_string()));
    assert_eq!(vk_code_to_key_name(0x79), Some("F10".to_string()));
    assert_eq!(vk_code_to_key_name(0x7B), Some("F12".to_string()));
}

#[test]
fn keypad_digits_are_named_numpad0_to_numpad9() {
    assert_eq!(vk_code_to_key_name(0x60), Some("Numpad0".to_string()));
    assert_eq!(vk_code_to_key_name(0x64), Some("Numpad4".to_string()));
    assert_eq!(vk_code_to_key_name(0x69), Some("Numpad9".to_string()));
}

#[test]
fn control_keys_have_their_table_names() {
    assert_eq!(vk_code_to_key_name(0x20), Some("Space".to_string()));
    assert_eq!(vk_code_to_key_name(0x0D), Some("Enter".to_string()));
    assert_eq!(vk_code_to_key_name(0x09), Some("Tab".to_string()));
    assert_eq!(vk_code_to_key_name(0x1B), Some("Escape".to_string()));
    assert_eq!(vk_code_to_key_name(0x08), Some("Backspace".to_string()));
    assert_eq!(vk_code_to_key_name(0x2E), Some("Delete".to_string()));
    assert_eq!(vk_code_to_key_name(0x2D), Some("Insert".to_string()));
    assert_eq!(vk_code_to_key_name(0x24), Some("Home".to_string()));
    assert_eq!(vk_code_to_key_name(0x23), Some("End".to_string()));
    assert_eq!(vk_code_to_key_name(0x21), Some("PageUp".to_string()));
    assert_eq!(vk_code_to_key_name(0x22), Some("PageDown".to_string()));
    assert_eq!(vk_code_to_key_name(0x26), Some("ArrowUp".to_string()));
    assert_eq!(vk_code_to_key_name(0x28), Some("ArrowDown".to_string()));
    assert_eq!(vk_code_to_key_name(0x25), Some("ArrowLeft".to_string()));
    assert_eq!(vk_code_to_key_name(0x27), Some("ArrowRight".to_string()));
}

#[test]
fn codes_next_to_the_ranges_have_no_name() {
    for vk in [
        0x00u32, 0x07, 0x0A, 0x0C, 0x0E, 0x10, 0x11, 0x12, 0x1A, 0x1C, 0x1F, 0x29, 0x2C, 0x2F,
        0x3A, 0x40, 0x5B, 0x5F, 0x6A, 0x6F, 0x7C, 0x7F, 0xA0, 0xFF,
    ] {
        assert_eq!(vk_code_to_key_name(vk), None, "code {:#x}", vk);
    }
}

#[test]
fn modifier_keys_themselves_have_no_name() {
    assert_eq!(vk_code_to_key_name(0x10), None);
    assert_eq!(vk_code_to_key_name(0x11), None);
    assert_eq!(vk_code_to_key_name(0x12), None);
}

#[test]
fn every_code_up_to_two_bytes_agrees_with_the_table() {
    let mut named = 0;
    for vk in 0u32..=0xFFFF {
        let name = vk_code_to_key_name(vk);
        assert_eq!(name, expected_name(vk), "code {:#x}", vk);
        if name.is_some() {
            named += 1;
        }
    }
    assert_eq!(named, 10 + 26 + 12 + 10 + 15);
}

#[test]
fn large_codes_have_no_name() {
    assert_eq!(vk_code_to_key_name(0x1_0030), None);
    assert_eq!(vk_code_to_key_name(0x8000_0041), None);
    assert_eq!(vk_code_to_key_name(u32::MAX), None);
}

#[test]
fn no_key_name_holds_the_separator() {
    for vk in 0u32..=0xFF {
        if let Some(name) = vk_code_to_key_name(vk) {
            assert!(!name.is_empty());
            assert!(!name.contains('+'));
        }
    }
}
