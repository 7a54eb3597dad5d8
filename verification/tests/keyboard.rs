use kt_ui::keyboard::{bridge_payload_to_input, key_for_name, phone_keybar, terminal_input_for_key_name, terminal_input_for_text};
use kt_ui::terminal::{PhoneKeyKind, TerminalKey};

#[test]
fn soft_keyboard_text_is_forwarded_verbatim_without_modifiers() {
    assert_eq!(bridge_payload_to_input(&["text".into(), "ls -la".into()], false, false), Some(b"ls -la".to_vec()));
    assert_eq!(bridge_payload_to_input(&["text".into(), "目录".into()], false, false), Some("目录".as_bytes().to_vec()));
}

#[test]
fn armed_ctrl_turns_the_next_soft_keyboard_character_into_a_control_code() {
    assert_eq!(bridge_payload_to_input(&["text".into(), "c".into()], true, false), Some(vec![0x03]));
    assert_eq!(bridge_payload_to_input(&["key".into(), "ArrowUp".into()], false, false), Some(vec![0x1b, b'[', b'A']));
}

#[test]
fn unknown_and_incomplete_bridge_messages_are_ignored() {
    assert_eq!(bridge_payload_to_input(&[], false, false), None);
    assert_eq!(bridge_payload_to_input(&["text".into()], false, false), None);
    assert_eq!(bridge_payload_to_input(&["text".into(), String::new()], false, false), None);
    assert_eq!(bridge_payload_to_input(&["wat".into(), "x".into()], false, false), None);
    assert_eq!(bridge_payload_to_input(&["key".into(), "Shift".into()], false, false), None);
}

#[test]
fn keybar_covers_the_keys_a_touch_keyboard_cannot_produce() {
    let keybar = phone_keybar();
    let labels: Vec<&str> = keybar.iter().map(|key| key.label).collect();
    for required in ["Esc", "Tab", "Ctrl", "↑", "↓", "←", "→", "|", "~"] {
        assert!(labels.contains(&required), "missing {required}");
    }
    for key in &keybar {
        if let PhoneKeyKind::Send(name) = key.kind {
            assert!(terminal_input_for_key_name(name, false, false).is_some(), "{} sends nothing", key.label);
        }
    }
}

#[test]
fn armed_alt_prefixes_escape() {
    assert_eq!(terminal_input_for_text("b", false, true), vec![0x1b, b'b']);
    assert_eq!(terminal_input_for_text("", false, true), Vec::<u8>::new());
    assert_eq!(bridge_payload_to_input(&["key".into(), "Tab".into()], false, true), Some(vec![0x1b, 0x09]));
    assert_eq!(terminal_input_for_key_name("Delete", false, false), Some(vec![0x1b, b'[', b'3', b'~']));
    assert_eq!(terminal_input_for_key_name("F5", false, false), Some(vec![0x1b, b'[', b'1', b'5', b'~']));
}

#[test]
fn key_names_map_to_terminal_keys() {
    assert_eq!(key_for_name("Enter"), TerminalKey::Enter);
    assert_eq!(key_for_name("~"), TerminalKey::Character("~".to_string()));
    assert_eq!(key_for_name("Shift"), TerminalKey::Other);
    assert_eq!(key_for_name(""), TerminalKey::Other);
    assert_eq!(phone_keybar().len(), 17);
    assert_eq!(phone_keybar()[2].kind, PhoneKeyKind::StickyCtrl);
}
