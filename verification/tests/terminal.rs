use kt_ui::session_data::SessionId;
use kt_ui::terminal::{
    character_input, line_matches_trigger, phone_key_class, phone_keyboard_input_id,
    terminal_cell_style, terminal_cell_text, terminal_input_for_key, terminal_pane_id,
    terminal_paste_input, terminal_screen_id, CellAttrs, PhoneKeyKind, Rgb, SnapshotCell,
    TerminalKey,
};

const DEFAULT_BG: Rgb = Rgb { r: 26, g: 27, b: 38 };

fn plain_cell(c: char) -> SnapshotCell {
    SnapshotCell {
        c,
        fg: Rgb { r: 192, g: 202, b: 245 },
        bg: DEFAULT_BG,
        attrs: CellAttrs { bold: false, italic: false, underline: false, strikeout: false, dim: false, inverse: false },
    }
}

#[test]
fn line_trigger_matching_is_case_insensitive_and_ignores_empty_rules() {
    let triggers = vec![" error ".to_string(), String::new()];
    assert!(line_matches_trigger("Build ERROR: failed", &triggers));
    assert!(!line_matches_trigger("all good", &triggers));
    assert!(!line_matches_trigger("anything", &["   ".to_string()]));
    assert!(!line_matches_trigger("anything", &[]));
}

#[test]
fn function_keys_emit_xterm_sequences() {
    assert_eq!(terminal_input_for_key(&TerminalKey::F1, false), b"\x1bOP");
    assert_eq!(terminal_input_for_key(&TerminalKey::F2, false), b"\x1bOQ");
    assert_eq!(terminal_input_for_key(&TerminalKey::F12, false), b"\x1b[24~");
    assert_eq!(terminal_input_for_key(&TerminalKey::F5, false), b"\x1b[15~");
}

#[test]
fn navigation_keys_emit_terminal_sequences() {
    assert_eq!(terminal_input_for_key(&TerminalKey::Home, false), b"\x1b[H");
    assert_eq!(terminal_input_for_key(&TerminalKey::End, false), b"\x1b[F");
    assert_eq!(terminal_input_for_key(&TerminalKey::Delete, false), b"\x1b[3~");
    assert_eq!(terminal_input_for_key(&TerminalKey::PageUp, false), b"\x1b[5~");
    assert_eq!(terminal_input_for_key(&TerminalKey::ArrowUp, false), b"\x1b[A");
    assert_eq!(terminal_input_for_key(&TerminalKey::Enter, false), b"\r");
    assert_eq!(terminal_input_for_key(&TerminalKey::Backspace, false), vec![0x7f]);
    assert!(terminal_input_for_key(&TerminalKey::Other, false).is_empty());
}

#[test]
fn ctrl_letters_become_control_codes() {
    assert_eq!(character_input("c", true), vec![0x03]);
    assert_eq!(character_input("C", true), vec![0x03]);
    assert_eq!(character_input("c", false), b"c".to_vec());
    assert_eq!(character_input("1", true), b"1".to_vec());
    assert_eq!(character_input("目录", false), "目录".as_bytes().to_vec());
    assert!(character_input("", true).is_empty());
    assert_eq!(terminal_input_for_key(&TerminalKey::Character("a".to_string()), true), vec![0x01]);
}

#[test]
fn terminal_paste_input_normalizes_line_endings() {
    assert_eq!(terminal_paste_input("one\r\ntwo\rthree"), b"one\ntwo\nthree");
    assert!(terminal_paste_input("").is_empty());
    assert_eq!(terminal_paste_input("\r\r\n"), b"\n\n");
}

#[test]
fn default_background_cells_do_not_paint_full_row_background() {
    let mut cell = plain_cell(' ');
    cell.attrs.underline = true;
    let style = terminal_cell_style(&cell, false, DEFAULT_BG);
    assert!(!style.contains("background: rgb"));
    assert!(!style.contains("text-decoration"));
    assert!(style.contains("width: 1ch"));
}

#[test]
fn cell_styles_follow_attributes_and_cursor() {
    let mut cell = plain_cell('x');
    cell.attrs.bold = true;
    cell.attrs.underline = true;
    cell.bg = Rgb { r: 1, g: 2, b: 3 };
    assert_eq!(
        terminal_cell_style(&cell, true, DEFAULT_BG),
        "color: rgb(192, 202, 245); display: inline-block; width: 1ch; background: rgb(1, 2, 3); font-weight: bold; text-decoration: underline; background: #c0caf5; color: #1a1b26;"
    );
    let mut inverse = plain_cell('y');
    inverse.attrs.inverse = true;
    assert_eq!(
        terminal_cell_style(&inverse, false, DEFAULT_BG),
        "color: rgb(26, 27, 38); background: rgb(192, 202, 245); display: inline-block; width: 1ch;"
    );
    assert_eq!(terminal_cell_text(&plain_cell(' ')), "\u{00A0}");
    assert_eq!(terminal_cell_text(&plain_cell('\0')), "\u{00A0}");
    assert_eq!(terminal_cell_text(&plain_cell('z')), "z");
}

#[test]
fn terminal_context_menu_ids_and_style_are_stable() {
    assert_eq!(terminal_screen_id("terminal-1-primary"), "terminal-1-primary-screen");
}

#[test]
fn terminal_pane_id_matches_the_id_the_terminal_component_renders() {
    assert_eq!(terminal_pane_id(SessionId(5)), "terminal-5-primary");
}

#[test]
fn keyboard_input_ids_are_scoped_per_session() {
    assert_eq!(phone_keyboard_input_id(SessionId(3)), "kt-phone-keyboard-3");
    assert_ne!(phone_keyboard_input_id(SessionId(1)), phone_keyboard_input_id(SessionId(2)));
}

#[test]
fn sticky_keys_light_up_only_their_own_button() {
    assert_eq!(phone_key_class(PhoneKeyKind::StickyCtrl, true, false), "phone-key is-armed");
    assert_eq!(phone_key_class(PhoneKeyKind::StickyAlt, true, false), "phone-key");
    assert_eq!(phone_key_class(PhoneKeyKind::Send("Escape"), true, true), "phone-key");
}

#[test]
fn trigger_rules_match_whole_grid_rows() {
    let cells: Vec<SnapshotCell> = "helloERRORxxxxx".chars().map(plain_cell).collect();
    let rules = vec!["error".to_string()];
    assert!(!kt_ui::terminal::row_matches_trigger(&cells, 5, 0, &rules));
    assert!(kt_ui::terminal::row_matches_trigger(&cells, 5, 1, &rules));
    assert!(!kt_ui::terminal::row_matches_trigger(&cells, 5, 2, &rules));
    assert!(!kt_ui::terminal::row_matches_trigger(&cells, 5, 1, &[]));
    assert!(!kt_ui::terminal::row_matches_trigger(&cells, 5, 1, &["  ".to_string()]));
}

#[test]
fn pasted_text_never_carries_carriage_returns() {
    for text in ["a\r\nb", "\r\r\n\n", "x\ry", "plain"] {
        assert!(!terminal_paste_input(text).contains(&b'\r'));
    }
}
