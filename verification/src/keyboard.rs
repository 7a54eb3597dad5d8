//! Terminal input on phones: the key bar for the keys a touch keyboard
//! lacks, and the messages of the soft-keyboard bridge turned into PTY bytes.

use vstd::prelude::*;
use crate::terminal::{character_input, spec_character_input, spec_key_input, terminal_input_for_key, PhoneKeyKind, TerminalKey};
use crate::text::{owned, str_eq};

verus! {

/// A button of the phone key bar.
#[derive(Clone, Copy, Debug, PartialEq, Eq)]
pub struct PhoneKeyDef {
    pub label: &'static str,
    pub kind: PhoneKeyKind,
}

/// The labels and key names of the key bar, most used first. Ctrl and Alt
/// (third and fourth) are sticky; every other button sends its key.
pub open spec fn keybar_spec() -> Seq<(Seq<char>, Option<Seq<char>>)> {
    seq![
        ("Esc"@, Some("Escape"@)),
        ("Tab"@, Some("Tab"@)),
        ("Ctrl"@, None),
        ("Alt"@, None),
        ("↑"@, Some("ArrowUp"@)),
        ("↓"@, Some("ArrowDown"@)),
        ("←"@, Some("ArrowLeft"@)),
        ("→"@, Some("ArrowRight"@)),
        ("|"@, Some("|"@)),
        ("-"@, Some("-"@)),
        ("/"@, Some("/"@)),
        ("~"@, Some("~"@)),
        ("Home"@, Some("Home"@)),
        ("End"@, Some("End"@)),
        ("PgUp"@, Some("PageUp"@)),
        ("PgDn"@, Some("PageDown"@)),
        ("Del"@, Some("Delete"@)),
    ]
}

/// The label and, for a sending button, the key name of a key-bar button.
pub open spec fn key_def_view(k: PhoneKeyDef) -> (Seq<char>, Option<Seq<char>>) {
    (k.label@, match k.kind {
        PhoneKeyKind::Send(name) => Some(name@),
        _ => None,
    })
}

/// A button that sends the named key.
fn send_key(label: &'static str, name: &'static str) -> (r: PhoneKeyDef)
    ensures
        r.label == label,
        r.kind == PhoneKeyKind::Send(name),
{
    PhoneKeyDef { label, kind: PhoneKeyKind::Send(name) }
}

/// The buttons of the key bar, in order.
pub fn phone_keybar() -> (r: Vec<PhoneKeyDef>)
    ensures
        r@.map_values(|k: PhoneKeyDef| key_def_view(k)) == keybar_spec(),
        r@[2].kind == PhoneKeyKind::StickyCtrl,
        r@[3].kind == PhoneKeyKind::StickyAlt,
{
    let r = vec![
        send_key("Esc", "Escape"),
        send_key("Tab", "Tab"),
        PhoneKeyDef { label: "Ctrl", kind: PhoneKeyKind::StickyCtrl },
        PhoneKeyDef { label: "Alt", kind: PhoneKeyKind::StickyAlt },
        send_key("↑", "ArrowUp"),
        send_key("↓", "ArrowDown"),
        send_key("←", "ArrowLeft"),
        send_key("→", "ArrowRight"),
        send_key("|", "|"),
        send_key("-", "-"),
        send_key("/", "/"),
        send_key("~", "~"),
        send_key("Home", "Home"),
        send_key("End", "End"),
        send_key("PgUp", "PageUp"),
        send_key("PgDn", "PageDown"),
        send_key("Del", "Delete"),
    ];
    assert(r@.map_values(|k: PhoneKeyDef| key_def_view(k)) =~= keybar_spec());
    r
}

/// The key a web key name stands for: the named keys the terminal knows,
/// a single character as that character, anything else as no key.
pub open spec fn spec_key_for_name(name: Seq<char>) -> TerminalKey {
    if name == "Enter"@ {
        TerminalKey::Enter
    } else if name == "Backspace"@ {
        TerminalKey::Backspace
    } else if name == "Tab"@ {
        TerminalKey::Tab
    } else if name == "Escape"@ {
        TerminalKey::Escape
    } else if name == "ArrowUp"@ {
        TerminalKey::ArrowUp
    } else if name == "ArrowDown"@ {
        TerminalKey::ArrowDown
    } else if name == "ArrowRight"@ {
        TerminalKey::ArrowRight
    } else if name == "ArrowLeft"@ {
        TerminalKey::ArrowLeft
    } else if name == "Home"@ {
        TerminalKey::Home
    } else if name == "End"@ {
        TerminalKey::End
    } else if name == "Insert"@ {
        TerminalKey::Insert
    } else if name == "Delete"@ {
        TerminalKey::Delete
    } else if name == "PageUp"@ {
        TerminalKey::PageUp
    } else if name == "PageDown"@ {
        TerminalKey::PageDown
    } else if name == "F1"@ {
        TerminalKey::F1
    } else if name == "F2"@ {
        TerminalKey::F2
    } else if name == "F3"@ {
        TerminalKey::F3
    } else if name == "F4"@ {
        TerminalKey::F4
    } else if name == "F5"@ {
        TerminalKey::F5
    } else if name == "F6"@ {
        TerminalKey::F6
    } else if name == "F7"@ {
        TerminalKey::F7
    } else if name == "F8"@ {
        TerminalKey::F8
    } else if name == "F9"@ {
        TerminalKey::F9
    } else if name == "F10"@ {
        TerminalKey::F10
    } else if name == "F11"@ {
        TerminalKey::F11
    } else if name == "F12"@ {
        TerminalKey::F12
    } else {
        TerminalKey::Other
    }
}

/// Whether a key name is one character long, which makes it a character key.
pub open spec fn is_character_name(name: Seq<char>) -> bool {
    name.len() == 1
}

/// The key a web key name stands for.
pub fn key_for_name(name: &str) -> (r: TerminalKey)
    ensures
        is_character_name(name@) ==> (r matches TerminalKey::Character(s) && s@ == name@),
        !is_character_name(name@) ==> r == spec_key_for_name(name@),
{
    if name.unicode_len() == 1 {
        return TerminalKey::Character(owned(name));
    }
    let names: [&str; 26] = [
        "Enter", "Backspace", "Tab", "Escape", "ArrowUp", "ArrowDown", "ArrowRight", "ArrowLeft", "Home", "End",
        "Insert", "Delete", "PageUp", "PageDown", "F1", "F2", "F3", "F4", "F5", "F6", "F7", "F8", "F9", "F10",
        "F11", "F12",
    ];
    if str_eq(name, names[0]) {
        TerminalKey::Enter
    } else if str_eq(name, names[1]) {
        TerminalKey::Backspace
    } else if str_eq(name, names[2]) {
        TerminalKey::Tab
    } else if str_eq(name, names[3]) {
        TerminalKey::Escape
    } else if str_eq(name, names[4]) {
        TerminalKey::ArrowUp
    } else if str_eq(name, names[5]) {
        TerminalKey::ArrowDown
    } else if str_eq(name, names[6]) {
        TerminalKey::ArrowRight
    } else if str_eq(name, names[7]) {
        TerminalKey::ArrowLeft
    } else if str_eq(name, names[8]) {
        TerminalKey::Home
    } else if str_eq(name, names[9]) {
        TerminalKey::End
    } else if str_eq(name, names[10]) {
        TerminalKey::Insert
    } else if str_eq(name, names[11]) {
        TerminalKey::Delete
    } else if str_eq(name, names[12]) {
        TerminalKey::PageUp
    } else if str_eq(name, names[13]) {
        TerminalKey::PageDown
    } else if str_eq(name, names[14]) {
        TerminalKey::F1
    } else if str_eq(name, names[15]) {
        TerminalKey::F2
    } else if str_eq(name, names[16]) {
        TerminalKey::F3
    } else if str_eq(name, names[17]) {
        TerminalKey::F4
    } else if str_eq(name, names[18]) {
        TerminalKey::F5
    } else if str_eq(name, names[19]) {
        TerminalKey::F6
    } else if str_eq(name, names[20]) {
        TerminalKey::F7
    } else if str_eq(name, names[21]) {
        TerminalKey::F8
    } else if str_eq(name, names[22]) {
        TerminalKey::F9
    } else if str_eq(name, names[23]) {
        TerminalKey::F10
    } else if str_eq(name, names[24]) {
        TerminalKey::F11
    } else if str_eq(name, names[25]) {
        TerminalKey::F12
    } else {
        TerminalKey::Other
    }
}

/// The bytes the key of a web key name sends (before Alt).
pub open spec fn key_name_bytes(name: Seq<char>, ctrl: bool) -> Seq<u8> {
    if is_character_name(name) {
        spec_character_input(name, ctrl)
    } else {
        spec_key_input(spec_key_for_name(name), ctrl)
    }
}

/// Bytes with Alt applied: an `ESC` in front, as a meta key sends in xterm;
/// nothing stays nothing.
pub open spec fn with_alt(bytes: Seq<u8>, alt: bool) -> Seq<u8> {
    if alt && bytes.len() > 0 {
        seq![0x1bu8] + bytes
    } else {
        bytes
    }
}

/// Puts `ESC` in front of the bytes when Alt is held and there are bytes.
fn apply_alt(bytes: Vec<u8>, alt: bool) -> (r: Vec<u8>)
    ensures
        r@ == with_alt(bytes@, alt),
{
    if alt && bytes.len() > 0 {
        let mut r: Vec<u8> = vec![0x1bu8];
        let mut i: usize = 0;
        while i < bytes.len()
            invariant
                i <= bytes@.len(),
                r@ == seq![0x1bu8] + bytes@.take(i as int),
            decreases bytes@.len() - i,
        {
            r.push(bytes[i]);
            assert(bytes@.take(i as int + 1) =~= bytes@.take(i as int).push(bytes@[i as int]));
            i = i + 1;
        }
        assert(bytes@.take(bytes@.len() as int) =~= bytes@);
        r
    } else {
        bytes
    }
}

/// The bytes a soft-keyboard text sends, with the armed modifiers.
pub fn terminal_input_for_text(value: &str, ctrl: bool, alt: bool) -> (r: Vec<u8>)
    ensures
        r@ == with_alt(spec_character_input(value@, ctrl), alt),
{
    apply_alt(character_input(value, ctrl), alt)
}

/// The bytes the key of a web key name sends, or `None` when the name is
/// no key the terminal sends anything for (a bare modifier, say).
pub fn terminal_input_for_key_name(name: &str, ctrl: bool, alt: bool) -> (r: Option<Vec<u8>>)
    ensures
        match r {
            Some(v) => key_name_bytes(name@, ctrl).len() > 0 && v@ == with_alt(key_name_bytes(name@, ctrl), alt),
            None => key_name_bytes(name@, ctrl).len() == 0,
        },
{
    let key = key_for_name(name);
    let bytes = terminal_input_for_key(&key, ctrl);
    if bytes.len() == 0 {
        None
    } else {
        Some(apply_alt(bytes, alt))
    }
}

/// The bytes of one message of the soft-keyboard bridge, `[kind, value]`:
/// typed text (`text`) or a key press (`key`). A message of another kind,
/// a short one, or one that sends nothing gives `None`.
pub fn bridge_payload_to_input(payload: &[String], ctrl: bool, alt: bool) -> (r: Option<Vec<u8>>)
    ensures
        payload@.len() < 2 ==> r is None,
        payload@.len() >= 2 && payload@[0]@ == "text"@ ==> match r {
            Some(v) => v@.len() > 0 && v@ == with_alt(spec_character_input(payload@[1]@, ctrl), alt),
            None => with_alt(spec_character_input(payload@[1]@, ctrl), alt).len() == 0,
        },
        payload@.len() >= 2 && payload@[0]@ == "key"@ ==> match r {
            Some(v) => key_name_bytes(payload@[1]@, ctrl).len() > 0 && v@ == with_alt(
                key_name_bytes(payload@[1]@, ctrl),
                alt,
            ),
            None => key_name_bytes(payload@[1]@, ctrl).len() == 0,
        },
        payload@.len() >= 2 && payload@[0]@ != "text"@ && payload@[0]@ != "key"@ ==> r is None,
{
    if payload.len() < 2 {
        return None;
    }
    let kind = payload[0].as_str();
    let value = payload[1].as_str();
    proof {
        reveal_strlit("text");
        reveal_strlit("key");
    }
    if str_eq(kind, "text") {
        assert("text"@.len() != "key"@.len());
        let data = terminal_input_for_text(value, ctrl, alt);
        if data.len() == 0 {
            None
        } else {
            Some(data)
        }
    } else if str_eq(kind, "key") {
        let r = terminal_input_for_key_name(value, ctrl, alt);
        assert(value@ == payload@[1]@);
        r
    } else {
        None
    }
}

} // verus!
