//! Terminal input and rendering helpers: the bytes a key press sends to the
//! PTY, pasted text with normalized line endings, trigger-line matching,
//! the inline style of a grid cell and the DOM ids of terminal panes.

use vstd::prelude::*;
use crate::session_data::SessionId;
use crate::text::{
    chars_of, decimal, owned, push_char, push_decimal, trim_bounds, trim_ws,
};

verus! {

/// The keys the terminal distinguishes.
#[derive(Clone, Debug, PartialEq, Eq)]
pub enum TerminalKey {
    Enter,
    Backspace,
    Tab,
    Escape,
    ArrowUp,
    ArrowDown,
    ArrowRight,
    ArrowLeft,
    Home,
    End,
    Insert,
    Delete,
    PageUp,
    PageDown,
    F1,
    F2,
    F3,
    F4,
    F5,
    F6,
    F7,
    F8,
    F9,
    F10,
    F11,
    F12,
    /// A key that produces text.
    Character(String),
    /// Any other key; it sends nothing.
    Other,
}

/// `ESC [ final`.
pub open spec fn spec_csi_final(b: u8) -> Seq<u8> {
    seq![0x1bu8, 0x5bu8, b]
}

/// `ESC [ number ~`.
pub open spec fn spec_csi_numbered(n: u8) -> Seq<u8> {
    seq![0x1bu8, 0x5bu8] + decimal(n as nat).map_values(|c: char| c as u8) + seq![0x7eu8]
}

/// `ESC O final`.
pub open spec fn spec_ss3_final(b: u8) -> Seq<u8> {
    seq![0x1bu8, 0x4fu8, b]
}

/// Whether a character is an ASCII letter.
pub open spec fn is_ascii_letter(c: char) -> bool {
    ('a' <= c <= 'z') || ('A' <= c <= 'Z')
}

/// The ASCII lowercase of a character; other characters are unchanged.
pub open spec fn ascii_lower(c: char) -> char {
    if 'A' <= c <= 'Z' {
        ((c as int) + 32) as char
    } else {
        c
    }
}

/// The bytes of typed text: with Ctrl held and an ASCII letter first, the
/// control code of that letter; otherwise the UTF-8 bytes of the text.
pub open spec fn spec_character_input(value: Seq<char>, ctrl: bool) -> Seq<u8> {
    if ctrl && value.len() > 0 && is_ascii_letter(value[0]) {
        seq![(ascii_lower(value[0]) as int - 96) as u8]
    } else {
        vstd::utf8::encode_utf8(value)
    }
}

/// The bytes a key press sends: xterm sequences for navigation and function keys.
pub open spec fn spec_key_input(key: TerminalKey, ctrl: bool) -> Seq<u8> {
    match key {
        TerminalKey::Enter => seq![0x0du8],
        TerminalKey::Backspace => seq![0x7fu8],
        TerminalKey::Tab => seq![0x09u8],
        TerminalKey::Escape => seq![0x1bu8],
        TerminalKey::ArrowUp => spec_csi_final(0x41),
        TerminalKey::ArrowDown => spec_csi_final(0x42),
        TerminalKey::ArrowRight => spec_csi_final(0x43),
        TerminalKey::ArrowLeft => spec_csi_final(0x44),
        TerminalKey::Home => spec_csi_final(0x48),
        TerminalKey::End => spec_csi_final(0x46),
        TerminalKey::Insert => spec_csi_numbered(2),
        TerminalKey::Delete => spec_csi_numbered(3),
        TerminalKey::PageUp => spec_csi_numbered(5),
        TerminalKey::PageDown => spec_csi_numbered(6),
        TerminalKey::F1 => spec_ss3_final(0x50),
        TerminalKey::F2 => spec_ss3_final(0x51),
        TerminalKey::F3 => spec_ss3_final(0x52),
        TerminalKey::F4 => spec_ss3_final(0x53),
        TerminalKey::F5 => spec_csi_numbered(15),
        TerminalKey::F6 => spec_csi_numbered(17),
        TerminalKey::F7 => spec_csi_numbered(18),
        TerminalKey::F8 => spec_csi_numbered(19),
        TerminalKey::F9 => spec_csi_numbered(20),
        TerminalKey::F10 => spec_csi_numbered(21),
        TerminalKey::F11 => spec_csi_numbered(23),
        TerminalKey::F12 => spec_csi_numbered(24),
        TerminalKey::Character(s) => spec_character_input(s@, ctrl),
        TerminalKey::Other => Seq::empty(),
    }
}

/// Pasted bytes with every `CR LF` and every lone `CR` turned into `LF`.
pub open spec fn normalize_newlines(b: Seq<u8>) -> Seq<u8>
    decreases b.len(),
{
    if b.len() == 0 {
        Seq::empty()
    } else if b[0] == 13u8 {
        if b.len() > 1 && b[1] == 10u8 {
            seq![10u8] + normalize_newlines(b.skip(2))
        } else {
            seq![10u8] + normalize_newlines(b.skip(1))
        }
    } else {
        seq![b[0]] + normalize_newlines(b.skip(1))
    }
}

/// Pasted text reaches the PTY without any carriage return: every line
/// ends in a single `LF`.
pub proof fn law_pasted_text_has_no_carriage_returns(b: Seq<u8>)
    ensures
        forall|i: int| 0 <= i < normalize_newlines(b).len() ==> #[trigger] normalize_newlines(b)[i] != 13u8,
    decreases b.len(),
{
    if b.len() > 0 {
        let rest = if b[0] == 13u8 && b.len() > 1 && b[1] == 10u8 { b.skip(2) } else { b.skip(1) };
        law_pasted_text_has_no_carriage_returns(rest);
        let head: u8 = if b[0] == 13u8 { 10u8 } else { b[0] };
        assert(normalize_newlines(b) == seq![head] + normalize_newlines(rest));
        assert forall|i: int| 0 <= i < normalize_newlines(b).len() implies #[trigger] normalize_newlines(b)[i] != 13u8 by {
            if i > 0 {
                assert(normalize_newlines(b)[i] == normalize_newlines(rest)[i - 1]);
            }
        }
    }
}

/// `ESC [ final`.
pub fn csi_final(final_byte: u8) -> (r: Vec<u8>)
    ensures
        r@ == spec_csi_final(final_byte),
{
    let r = vec![0x1bu8, 0x5bu8, final_byte];
    assert(r@ =~= spec_csi_final(final_byte));
    r
}

/// `ESC O final`.
pub fn ss3_final(final_byte: u8) -> (r: Vec<u8>)
    ensures
        r@ == spec_ss3_final(final_byte),
{
    let r = vec![0x1bu8, 0x4fu8, final_byte];
    assert(r@ =~= spec_ss3_final(final_byte));
    r
}

/// The bytes of an ASCII string.
fn ascii_bytes(s: &String) -> (r: Vec<u8>)
    requires
        forall|i: int| 0 <= i < s@.len() ==> (s@[i] as int) < 128,
    ensures
        r@ == s@.map_values(|c: char| c as u8),
{
    let v = chars_of(s.as_str());
    let mut r: Vec<u8> = Vec::new();
    let mut i: usize = 0;
    while i < v.len()
        invariant
            i <= v@.len(),
            v@ == s@,
            forall|k: int| 0 <= k < s@.len() ==> (s@[k] as int) < 128,
            r@ == v@.take(i as int).map_values(|c: char| c as u8),
        decreases v@.len() - i,
    {
        let c = v[i];
        assert((c as int) < 128);
        r.push(c as u8);
        assert(v@.take(i as int + 1).map_values(|c: char| c as u8)
            =~= v@.take(i as int).map_values(|c: char| c as u8).push(c as u8));
        i = i + 1;
    }
    assert(v@.take(v@.len() as int) =~= v@);
    r
}

proof fn lemma_decimal_is_ascii(n: nat)
    ensures
        forall|i: int| 0 <= i < decimal(n).len() ==> (#[trigger] decimal(n)[i] as int) < 128,
    decreases n,
{
    if n >= 10 {
        lemma_decimal_is_ascii(n / 10);
        assert(((48 + (n % 10) as int) as char) as int == 48 + n % 10);
        let d = decimal(n);
        let p = decimal(n / 10);
        assert(d == p.push(crate::text::digit_char((n % 10) as int)));
        assert forall|i: int| 0 <= i < d.len() implies (#[trigger] d[i] as int) < 128 by {
            if i < p.len() {
                assert(d[i] == p[i]);
            }
        }
    } else {
        assert(((48 + n as int) as char) as int == 48 + n);
        assert(decimal(n)[0] == crate::text::digit_char(n as int));
    }
}

/// `ESC [ number ~`.
pub fn csi_numbered(number: u8) -> (r: Vec<u8>)
    ensures
        r@ == spec_csi_numbered(number),
{
    let mut digits = String::new();
    push_decimal(&mut digits, number as u128);
    proof {
        lemma_decimal_is_ascii(number as nat);
    }
    let mut r: Vec<u8> = vec![0x1bu8, 0x5bu8];
    let mut mid = ascii_bytes(&digits);
    r.append(&mut mid);
    r.push(0x7eu8);
    assert(r@ =~= spec_csi_numbered(number));
    r
}

/// The UTF-8 bytes of a string slice.
fn utf8_bytes(s: &str) -> (r: Vec<u8>)
    ensures
        r@ == vstd::utf8::encode_utf8(s@),
{
    let b = s.as_bytes();
    let mut r: Vec<u8> = Vec::new();
    let mut i: usize = 0;
    while i < b.len()
        invariant
            i <= b@.len(),
            b@ == vstd::utf8::encode_utf8(s@),
            r@ == b@.take(i as int),
        decreases b@.len() - i,
    {
        r.push(b[i]);
        assert(b@.take(i as int + 1) =~= b@.take(i as int).push(b@[i as int]));
        i = i + 1;
    }
    assert(b@.take(b@.len() as int) =~= b@);
    r
}

/// The bytes typed text sends, with Ctrl turning a leading ASCII letter into
/// its control code.
pub fn character_input(value: &str, ctrl: bool) -> (r: Vec<u8>)
    ensures
        r@ == spec_character_input(value@, ctrl),
{
    if ctrl && value.unicode_len() > 0 {
        let ch = value.get_char(0);
        if ('a' <= ch && ch <= 'z') || ('A' <= ch && ch <= 'Z') {
            let lower: u32 = if 'A' <= ch && ch <= 'Z' { ch as u32 + 32 } else { ch as u32 };
            proof {
                if 'A' <= ch <= 'Z' {
                    assert(((ch as int + 32) as char) as int == ch as int + 32);
                }
            }
            let r = vec![(lower - 96) as u8];
            assert(r@ =~= spec_character_input(value@, ctrl));
            return r;
        }
    }
    utf8_bytes(value)
}

/// The arrow keys send the xterm cursor sequences whatever Ctrl does:
/// `ESC [ A` up, `ESC [ B` down, `ESC [ C` right and `ESC [ D` left, so
/// the four are pairwise distinct.
pub proof fn law_arrow_keys_send_cursor_sequences(ctrl: bool)
    ensures
        spec_key_input(TerminalKey::ArrowUp, ctrl) == seq![0x1bu8, 0x5bu8, 0x41u8],
        spec_key_input(TerminalKey::ArrowDown, ctrl) == seq![0x1bu8, 0x5bu8, 0x42u8],
        spec_key_input(TerminalKey::ArrowRight, ctrl) == seq![0x1bu8, 0x5bu8, 0x43u8],
        spec_key_input(TerminalKey::ArrowLeft, ctrl) == seq![0x1bu8, 0x5bu8, 0x44u8],
        spec_key_input(TerminalKey::ArrowUp, ctrl) != spec_key_input(TerminalKey::ArrowDown, ctrl),
        spec_key_input(TerminalKey::ArrowUp, ctrl) != spec_key_input(TerminalKey::ArrowRight, ctrl),
        spec_key_input(TerminalKey::ArrowUp, ctrl) != spec_key_input(TerminalKey::ArrowLeft, ctrl),
        spec_key_input(TerminalKey::ArrowDown, ctrl) != spec_key_input(TerminalKey::ArrowRight, ctrl),
        spec_key_input(TerminalKey::ArrowDown, ctrl) != spec_key_input(TerminalKey::ArrowLeft, ctrl),
        spec_key_input(TerminalKey::ArrowRight, ctrl) != spec_key_input(TerminalKey::ArrowLeft, ctrl),
{
    assert(spec_key_input(TerminalKey::ArrowUp, ctrl)[2] != spec_key_input(TerminalKey::ArrowDown, ctrl)[2]);
    assert(spec_key_input(TerminalKey::ArrowUp, ctrl)[2] != spec_key_input(TerminalKey::ArrowRight, ctrl)[2]);
    assert(spec_key_input(TerminalKey::ArrowUp, ctrl)[2] != spec_key_input(TerminalKey::ArrowLeft, ctrl)[2]);
    assert(spec_key_input(TerminalKey::ArrowDown, ctrl)[2] != spec_key_input(TerminalKey::ArrowRight, ctrl)[2]);
    assert(spec_key_input(TerminalKey::ArrowDown, ctrl)[2] != spec_key_input(TerminalKey::ArrowLeft, ctrl)[2]);
    assert(spec_key_input(TerminalKey::ArrowRight, ctrl)[2] != spec_key_input(TerminalKey::ArrowLeft, ctrl)[2]);
}

/// The bytes a key press sends to the PTY.
pub fn terminal_input_for_key(key: &TerminalKey, ctrl: bool) -> (r: Vec<u8>)
    ensures
        r@ == spec_key_input(*key, ctrl),
{
    match key {
        TerminalKey::Enter => {
            let r = vec![0x0du8];
            assert(r@ =~= seq![0x0du8]);
            r
        },
        TerminalKey::Backspace => {
            let r = vec![0x7fu8];
            assert(r@ =~= seq![0x7fu8]);
            r
        },
        TerminalKey::Tab => {
            let r = vec![0x09u8];
            assert(r@ =~= seq![0x09u8]);
            r
        },
        TerminalKey::Escape => {
            let r = vec![0x1bu8];
            assert(r@ =~= seq![0x1bu8]);
            r
        },
        TerminalKey::ArrowUp => csi_final(0x41),
        TerminalKey::ArrowDown => csi_final(0x42),
        TerminalKey::ArrowRight => csi_final(0x43),
        TerminalKey::ArrowLeft => csi_final(0x44),
        TerminalKey::Home => csi_final(0x48),
        TerminalKey::End => csi_final(0x46),
        TerminalKey::Insert => csi_numbered(2),
        TerminalKey::Delete => csi_numbered(3),
        TerminalKey::PageUp => csi_numbered(5),
        TerminalKey::PageDown => csi_numbered(6),
        TerminalKey::F1 => ss3_final(0x50),
        TerminalKey::F2 => ss3_final(0x51),
        TerminalKey::F3 => ss3_final(0x52),
        TerminalKey::F4 => ss3_final(0x53),
        TerminalKey::F5 => csi_numbered(15),
        TerminalKey::F6 => csi_numbered(17),
        TerminalKey::F7 => csi_numbered(18),
        TerminalKey::F8 => csi_numbered(19),
        TerminalKey::F9 => csi_numbered(20),
        TerminalKey::F10 => csi_numbered(21),
        TerminalKey::F11 => csi_numbered(23),
        TerminalKey::F12 => csi_numbered(24),
        TerminalKey::Character(c) => character_input(c.as_str(), ctrl),
        TerminalKey::Other => Vec::new(),
    }
}

/// The bytes pasted text sends, with line endings normalized to `LF`.
pub fn terminal_paste_input(text: &str) -> (r: Vec<u8>)
    ensures
        r@ == normalize_newlines(vstd::utf8::encode_utf8(text@)),
{
    let b = text.as_bytes();
    let ghost bytes = b@;
    let mut r: Vec<u8> = Vec::new();
    let mut i: usize = 0;
    assert(bytes.skip(0) =~= bytes);
    while i < b.len()
        invariant
            i <= b@.len(),
            b@ == bytes,
            bytes == vstd::utf8::encode_utf8(text@),
            normalize_newlines(bytes) == r@ + normalize_newlines(bytes.skip(i as int)),
        decreases b@.len() - i,
    {
        let ghost rest = bytes.skip(i as int);
        if b[i] == 13u8 {
            r.push(10u8);
            if i + 1 < b.len() && b[i + 1] == 10u8 {
                assert(rest.skip(2) =~= bytes.skip(i as int + 2));
                i = i + 2;
            } else {
                assert(rest.skip(1) =~= bytes.skip(i as int + 1));
                i = i + 1;
            }
        } else {
            r.push(b[i]);
            assert(rest.skip(1) =~= bytes.skip(i as int + 1));
            i = i + 1;
        }
    }
    assert(bytes.skip(b@.len() as int) =~= Seq::<u8>::empty());
    r
}

/// The DOM id of a terminal's screen element.
pub fn terminal_screen_id(terminal_id: &str) -> (r: String)
    ensures
        r@ == terminal_id@ + "-screen"@,
{
    let mut r = owned(terminal_id);
    r.append("-screen");
    r
}

/// The DOM id of a session's primary terminal pane.
pub fn terminal_pane_id(session_id: SessionId) -> (r: String)
    ensures
        r@ == "terminal-"@ + decimal(session_id.0 as nat) + "-primary"@,
{
    let mut r = owned("terminal-");
    push_decimal(&mut r, session_id.0 as u128);
    r.append("-primary");
    r
}

/// The DOM id of a session's soft-keyboard input on phones.
pub fn phone_keyboard_input_id(session_id: SessionId) -> (r: String)
    ensures
        r@ == "kt-phone-keyboard-"@ + decimal(session_id.0 as nat),
{
    let mut r = owned("kt-phone-keyboard-");
    push_decimal(&mut r, session_id.0 as u128);
    r
}

/// A key of the phone key bar.
#[derive(Clone, Copy, Debug, PartialEq, Eq)]
pub enum PhoneKeyKind {
    /// Sends the bytes of the named key.
    Send(&'static str),
    /// Sticky Ctrl: applies to the next key, then releases.
    StickyCtrl,
    /// Sticky Alt, like sticky Ctrl.
    StickyAlt,
}

/// The class of a key-bar button: a sticky modifier lights up while armed.
pub fn phone_key_class(kind: PhoneKeyKind, ctrl_armed: bool, alt_armed: bool) -> (r: &'static str)
    ensures
        r@ == (if (kind is StickyCtrl && ctrl_armed) || (kind is StickyAlt && alt_armed) {
            "phone-key is-armed"@
        } else {
            "phone-key"@
        }),
{
    let armed = match kind {
        PhoneKeyKind::StickyCtrl => ctrl_armed,
        PhoneKeyKind::StickyAlt => alt_armed,
        PhoneKeyKind::Send(_) => false,
    };
    if armed {
        "phone-key is-armed"
    } else {
        "phone-key"
    }
}

/// `s` with ASCII uppercase letters lowered, as `str::to_ascii_lowercase`.
pub open spec fn lower_seq(s: Seq<char>) -> Seq<char> {
    s.map_values(|c: char| ascii_lower(c))
}

/// Whether `needle` occurs in `hay` as a contiguous run.
pub open spec fn is_substring(needle: Seq<char>, hay: Seq<char>) -> bool {
    exists|k: int| 0 <= k && k + needle.len() <= hay.len() && #[trigger] hay.subrange(k, k + needle.len()) == needle
}

/// Whether one trigger rule fires on a line: the trimmed rule, ignoring
/// ASCII case, is non-empty and occurs in the line.
pub open spec fn trigger_fires(line: Seq<char>, rule: Seq<char>) -> bool {
    let t = lower_seq(trim_ws(rule));
    t.len() > 0 && is_substring(t, lower_seq(line))
}

pub(crate) fn lower_chars(v: &Vec<char>, lo: usize, hi: usize) -> (r: Vec<char>)
    requires
        lo <= hi <= v@.len(),
    ensures
        r@ == lower_seq(v@.subrange(lo as int, hi as int)),
{
    let mut r: Vec<char> = Vec::new();
    let mut i: usize = lo;
    while i < hi
        invariant
            lo <= i <= hi <= v@.len(),
            r@ == lower_seq(v@.subrange(lo as int, i as int)),
        decreases hi - i,
    {
        let c = v[i];
        let l = if 'A' <= c && c <= 'Z' { ((c as u32) + 32) as u8 as char } else { c };
        proof {
            if 'A' <= c <= 'Z' {
                assert((((c as u32) + 32) as u8) as int == c as int + 32);
            }
        }
        r.push(l);
        assert(lower_seq(v@.subrange(lo as int, i as int + 1)) =~= lower_seq(v@.subrange(lo as int, i as int)).push(ascii_lower(c)));
        i = i + 1;
    }
    r
}

pub(crate) fn contains_run(hay: &Vec<char>, needle: &Vec<char>) -> (r: bool)
    ensures
        r == is_substring(needle@, hay@),
{
    let n = needle.len();
    if n > hay.len() {
        return false;
    }
    if n == 0 {
        assert(hay@.subrange(0int, 0int + needle@.len()) =~= needle@);
        return true;
    }
    let mut k: usize = 0;
    let last = hay.len() - n;
    while k <= last
        invariant
            last == hay@.len() - n,
            n == needle@.len(),
            n >= 1,
            hay@.len() <= usize::MAX,
            n <= hay@.len(),
            k <= hay@.len() - n + 1,
            forall|j: int| 0 <= j < k ==> #[trigger] hay@.subrange(j, j + n) != needle@,
        decreases hay@.len() - k,
    {
        let mut i: usize = 0;
        let mut same = true;
        while i < n
            invariant
                n == needle@.len(),
                k <= last,
                hay@.len() <= usize::MAX,
                last == hay@.len() - n,
                k + n <= hay@.len(),
                i <= n,
                same == (forall|j: int| 0 <= j < i ==> hay@[k + j] == needle@[j]),
            decreases n - i,
        {
            if hay[k + i] != needle[i] {
                same = false;
            }
            i = i + 1;
        }
        if same {
            assert(hay@.subrange(k as int, k + n) =~= needle@);
            return true;
        }
        assert(hay@.subrange(k as int, k + n) != needle@) by {
            let j = choose|j: int| 0 <= j < n && hay@[k + j] != needle@[j];
            assert(hay@.subrange(k as int, k + n)[j] == hay@[k + j]);
        }
        k = k + 1;
    }
    proof {
        if is_substring(needle@, hay@) {
            let j = choose|j: int| 0 <= j && j + n <= hay@.len() && #[trigger] hay@.subrange(j, j + n) == needle@;
            assert(j < k);
        }
    }
    false
}

/// Whether any trigger rule fires on a terminal line.
pub fn line_matches_trigger(line: &str, triggers: &[String]) -> (r: bool)
    ensures
        r == exists|i: int| 0 <= i < triggers@.len() && #[trigger] trigger_fires(line@, triggers@[i]@),
{
    let lv = chars_of(line);
    let lower_line = lower_chars(&lv, 0, lv.len());
    assert(lv@.subrange(0, lv@.len() as int) =~= lv@);
    let mut i: usize = 0;
    while i < triggers.len()
        invariant
            i <= triggers@.len(),
            lower_line@ == lower_seq(line@),
            forall|j: int| 0 <= j < i ==> !#[trigger] trigger_fires(line@, triggers@[j]@),
        decreases triggers@.len() - i,
    {
        let tv = chars_of(triggers[i].as_str());
        let (lo, hi) = trim_bounds(&tv);
        let t = lower_chars(&tv, lo, hi);
        if t.len() > 0 && contains_run(&lower_line, &t) {
            assert(trigger_fires(line@, triggers@[i as int]@));
            return true;
        }
        i = i + 1;
    }
    false
}

/// A terminal colour.
#[derive(Clone, Copy, Debug, PartialEq, Eq, Structural)]
pub struct Rgb {
    pub r: u8,
    pub g: u8,
    pub b: u8,
}

/// The text attributes of a grid cell.
#[derive(Clone, Copy, Debug, PartialEq, Eq, Structural)]
pub struct CellAttrs {
    pub bold: bool,
    pub italic: bool,
    pub underline: bool,
    pub strikeout: bool,
    pub dim: bool,
    pub inverse: bool,
}

/// One cell of the terminal grid.
#[derive(Clone, Copy, Debug, PartialEq, Eq, Structural)]
pub struct SnapshotCell {
    pub c: char,
    pub fg: Rgb,
    pub bg: Rgb,
    pub attrs: CellAttrs,
}

/// `rgb(r, g, b)`.
pub open spec fn spec_rgb(c: Rgb) -> Seq<char> {
    "rgb("@ + decimal(c.r as nat) + ", "@ + decimal(c.g as nat) + ", "@ + decimal(c.b as nat) + ")"@
}

/// A blank cell: NUL or space.
pub open spec fn spec_is_blank(cell: SnapshotCell) -> bool {
    cell.c == '\0' || cell.c == ' '
}

/// Whether the cell paints a background: inverse video or a non-default background.
pub open spec fn spec_visible_background(cell: SnapshotCell, default_bg: Rgb) -> bool {
    cell.attrs.inverse || cell.bg != default_bg
}

/// `text` when `cond`, else nothing.
pub open spec fn when(cond: bool, text: Seq<char>) -> Seq<char> {
    if cond { text } else { Seq::empty() }
}

/// The inline style of a grid cell.
pub open spec fn spec_cell_style(cell: SnapshotCell, is_cursor: bool, default_bg: Rgb) -> Seq<char> {
    let fg = spec_rgb(cell.fg);
    let bg = spec_rgb(cell.bg);
    let base = if cell.attrs.inverse {
        "color: "@ + bg + "; background: "@ + fg + "; display: inline-block; width: 1ch;"@
    } else {
        "color: "@ + fg + "; display: inline-block; width: 1ch;"@
            + when(spec_visible_background(cell, default_bg), " background: "@ + bg + ";"@)
            + when(cell.attrs.bold, " font-weight: bold;"@)
            + when(cell.attrs.italic, " font-style: italic;"@)
            + when(cell.attrs.underline && !spec_is_blank(cell), " text-decoration: underline;"@)
            + when(cell.attrs.strikeout && !spec_is_blank(cell), " text-decoration: line-through;"@)
            + when(cell.attrs.dim, " opacity: 0.7;"@)
    };
    base + when(is_cursor, " background: #c0caf5; color: #1a1b26;"@)
}

fn push_rgb(s: &mut String, c: Rgb)
    ensures
        final(s)@ == old(s)@ + spec_rgb(c),
{
    let ghost start = s@;
    s.append("rgb(");
    push_decimal(s, c.r as u128);
    s.append(", ");
    push_decimal(s, c.g as u128);
    s.append(", ");
    push_decimal(s, c.b as u128);
    s.append(")");
    assert(s@ =~= start + spec_rgb(c));
}

/// Whether a cell is blank.
pub fn is_blank_cell(cell: &SnapshotCell) -> (r: bool)
    ensures
        r == spec_is_blank(*cell),
{
    cell.c == '\0' || cell.c == ' '
}

/// Whether a cell paints its own background.
pub fn cell_has_visible_background(cell: &SnapshotCell, default_bg: Rgb) -> (r: bool)
    ensures
        r == spec_visible_background(*cell, default_bg),
{
    cell.attrs.inverse || cell.bg.r != default_bg.r || cell.bg.g != default_bg.g || cell.bg.b != default_bg.b
}

/// The inline style of a grid cell: colours, attributes and the cursor.
/// Blank cells get no underline or strike-through, and cells on the default
/// background paint none, so empty rows stay transparent.
pub fn terminal_cell_style(cell: &SnapshotCell, is_cursor: bool, default_bg: Rgb) -> (r: String)
    ensures
        r@ == spec_cell_style(*cell, is_cursor, default_bg),
{
    let mut style = String::new();
    let ghost fg = spec_rgb(cell.fg);
    let ghost bg = spec_rgb(cell.bg);
    if cell.attrs.inverse {
        style.append("color: ");
        push_rgb(&mut style, cell.bg);
        style.append("; background: ");
        push_rgb(&mut style, cell.fg);
        style.append("; display: inline-block; width: 1ch;");
        assert(style@ =~= "color: "@ + bg + "; background: "@ + fg + "; display: inline-block; width: 1ch;"@);
    } else {
        style.append("color: ");
        push_rgb(&mut style, cell.fg);
        style.append("; display: inline-block; width: 1ch;");
        let ghost s0 = style@;
        if cell_has_visible_background(cell, default_bg) {
            style.append(" background: ");
            push_rgb(&mut style, cell.bg);
            style.append(";");
        }
        assert(style@ =~= s0 + when(spec_visible_background(*cell, default_bg), " background: "@ + bg + ";"@));
        let ghost s1 = style@;
        if cell.attrs.bold {
            style.append(" font-weight: bold;");
        }
        assert(style@ =~= s1 + when(cell.attrs.bold, " font-weight: bold;"@));
        let ghost s2 = style@;
        if cell.attrs.italic {
            style.append(" font-style: italic;");
        }
        assert(style@ =~= s2 + when(cell.attrs.italic, " font-style: italic;"@));
        let blank = is_blank_cell(cell);
        let ghost s3 = style@;
        if cell.attrs.underline && !blank {
            style.append(" text-decoration: underline;");
        }
        assert(style@ =~= s3 + when(cell.attrs.underline && !spec_is_blank(*cell), " text-decoration: underline;"@));
        let ghost s4 = style@;
        if cell.attrs.strikeout && !blank {
            style.append(" text-decoration: line-through;");
        }
        assert(style@ =~= s4 + when(cell.attrs.strikeout && !spec_is_blank(*cell), " text-decoration: line-through;"@));
        let ghost s5 = style@;
        if cell.attrs.dim {
            style.append(" opacity: 0.7;");
        }
        assert(style@ =~= s5 + when(cell.attrs.dim, " opacity: 0.7;"@));
    }
    let ghost s6 = style@;
    if is_cursor {
        style.append(" background: #c0caf5; color: #1a1b26;");
    }
    assert(style@ =~= s6 + when(is_cursor, " background: #c0caf5; color: #1a1b26;"@));
    style
}

/// The text of a cell: a non-breaking space for blank cells, so that the
/// grid keeps its width.
pub fn terminal_cell_text(cell: &SnapshotCell) -> (r: String)
    ensures
        r@ == (if spec_is_blank(*cell) { seq!['\u{00A0}'] } else { seq![cell.c] }),
{
    let mut r = String::new();
    if is_blank_cell(cell) {
        push_char(&mut r, '\u{00A0}');
    } else {
        push_char(&mut r, cell.c);
    }
    r
}

/// The characters of row `row` of a grid `cols` cells wide.
pub open spec fn row_text(cells: Seq<SnapshotCell>, cols: int, row: int) -> Seq<char> {
    cells.subrange(row * cols, row * cols + cols).map_values(|cell: SnapshotCell| cell.c)
}

/// Whether any trigger rule fires on row `row` of a terminal grid `cols`
/// cells wide; never without rules.
pub fn row_matches_trigger(cells: &[SnapshotCell], cols: usize, row: usize, triggers: &[String]) -> (r: bool)
    requires
        (row + 1) * cols <= cells@.len(),
    ensures
        r == (triggers@.len() > 0 && exists|i: int| 0 <= i < triggers@.len() && #[trigger] trigger_fires(
            row_text(cells@, cols as int, row as int),
            triggers@[i]@,
        )),
{
    if triggers.len() == 0 {
        return false;
    }
    let n = cells.len();
    proof {
        assert((row + 1) * cols == row * cols + cols) by (nonlinear_arith);
        assert(row * cols <= (row + 1) * cols) by (nonlinear_arith);
    }
    assert(row * cols + cols <= n);
    let start = row * cols;
    let end = start + cols;
    let mut line = String::new();
    let mut k: usize = start;
    while k < end
        invariant
            start <= k <= end,
            end <= cells@.len(),
            start == row * cols,
            end == start + cols,
            line@ == cells@.subrange(start as int, k as int).map_values(|cell: SnapshotCell| cell.c),
        decreases end - k,
    {
        push_char(&mut line, cells[k].c);
        assert(cells@.subrange(start as int, k as int + 1).map_values(|cell: SnapshotCell| cell.c) =~= cells@.subrange(
            start as int,
            k as int,
        ).map_values(|cell: SnapshotCell| cell.c).push(cells@[k as int].c));
        k = k + 1;
    }
    assert(line@ == row_text(cells@, cols as int, row as int));
    line_matches_trigger(line.as_str(), triggers)
}

} // verus!

verus! {

/// Whether `a` is directly followed by `b` somewhere in `s`.
pub open spec fn has_pair(s: Seq<char>, a: char, b: char) -> bool
    decreases s.len(),
{
    if s.len() < 2 {
        false
    } else {
        (s[0] == a && s[1] == b) || has_pair(s.drop_first(), a, b)
    }
}

/// Text with no `a` followed by `b`, and not ending in `a` (so nothing
/// appended to it can complete the pair across the join).
pub open spec fn pair_free(s: Seq<char>, a: char, b: char) -> bool {
    !has_pair(s, a, b) && (s.len() == 0 || s.last() != a)
}

proof fn lemma_pair_at(s: Seq<char>, a: char, b: char, k: int)
    requires
        0 <= k,
        k + 1 < s.len(),
        s[k] == a,
        s[k + 1] == b,
    ensures
        has_pair(s, a, b),
    decreases k,
{
    if k > 0 {
        lemma_pair_at(s.drop_first(), a, b, k - 1);
    }
}

proof fn lemma_pair_free_concat(x: Seq<char>, y: Seq<char>, a: char, b: char)
    requires
        pair_free(x, a, b),
        pair_free(y, a, b),
    ensures
        pair_free(x + y, a, b),
    decreases x.len(),
{
    if x.len() > 0 {
        let rest = x.drop_first();
        assert((x + y).drop_first() =~= rest + y);
        if x.len() > 1 {
            assert(rest.last() == x.last());
            assert(!has_pair(rest, a, b));
            lemma_pair_free_concat(rest, y, a, b);
        } else {
            assert(rest + y =~= y);
        }
        if y.len() > 0 {
            assert((x + y).last() == y.last());
        } else {
            assert(x + y =~= x);
        }
    } else {
        assert(x + y =~= y);
    }
}

proof fn lemma_pair_free_without(s: Seq<char>, a: char, b: char)
    requires
        forall|i: int| 0 <= i < s.len() ==> s[i] != a,
    ensures
        pair_free(s, a, b),
    decreases s.len(),
{
    if s.len() >= 2 {
        assert(s[0] != a);
        let rest = s.drop_first();
        assert forall|i: int| 0 <= i < rest.len() implies rest[i] != a by {
            assert(rest[i] == s[i + 1]);
        }
        lemma_pair_free_without(rest, a, b);
    }
    if s.len() > 0 {
        assert(s[s.len() - 1] != a);
    }
}

proof fn lemma_rgb_pair_free(c: Rgb, a: char, b: char)
    requires
        !('0' <= a && a <= '9'),
        pair_free("rgb("@, a, b),
        pair_free(", "@, a, b),
        pair_free(")"@, a, b),
    ensures
        pair_free(spec_rgb(c), a, b),
{
    crate::dialog::lemma_decimal_digits(c.r as nat);
    crate::dialog::lemma_decimal_digits(c.g as nat);
    crate::dialog::lemma_decimal_digits(c.b as nat);
    lemma_pair_free_without(decimal(c.r as nat), a, b);
    lemma_pair_free_without(decimal(c.g as nat), a, b);
    lemma_pair_free_without(decimal(c.b as nat), a, b);
    let p1 = "rgb("@ + decimal(c.r as nat);
    lemma_pair_free_concat("rgb("@, decimal(c.r as nat), a, b);
    let p2 = p1 + ", "@;
    lemma_pair_free_concat(p1, ", "@, a, b);
    let p3 = p2 + decimal(c.g as nat);
    lemma_pair_free_concat(p2, decimal(c.g as nat), a, b);
    let p4 = p3 + ", "@;
    lemma_pair_free_concat(p3, ", "@, a, b);
    let p5 = p4 + decimal(c.b as nat);
    lemma_pair_free_concat(p4, decimal(c.b as nat), a, b);
    lemma_pair_free_concat(p5, ")"@, a, b);
}

proof fn lemma_when_pair_free(cond: bool, t: Seq<char>, a: char, b: char)
    requires
        cond ==> pair_free(t, a, b),
    ensures
        pair_free(when(cond, t), a, b),
{
}

/// The style of a cell that is not inverse has no `a` followed by `b` when
/// none of its possible pieces has one.
proof fn lemma_style_pair_free(cell: SnapshotCell, is_cursor: bool, default_bg: Rgb, a: char, b: char)
    requires
        !cell.attrs.inverse,
        !('0' <= a && a <= '9'),
        pair_free("color: "@, a, b),
        pair_free("; display: inline-block; width: 1ch;"@, a, b),
        pair_free(" background: "@, a, b),
        pair_free(";"@, a, b),
        pair_free(" font-weight: bold;"@, a, b),
        pair_free(" font-style: italic;"@, a, b),
        pair_free(" opacity: 0.7;"@, a, b),
        pair_free(" background: #c0caf5; color: #1a1b26;"@, a, b),
        pair_free("rgb("@, a, b),
        pair_free(", "@, a, b),
        pair_free(")"@, a, b),
        cell.attrs.underline && !spec_is_blank(cell) ==> pair_free(" text-decoration: underline;"@, a, b),
        cell.attrs.strikeout && !spec_is_blank(cell) ==> pair_free(" text-decoration: line-through;"@, a, b),
    ensures
        pair_free(spec_cell_style(cell, is_cursor, default_bg), a, b),
{
    let fg = spec_rgb(cell.fg);
    let bg = spec_rgb(cell.bg);
    lemma_rgb_pair_free(cell.fg, a, b);
    lemma_rgb_pair_free(cell.bg, a, b);
    let bgp = " background: "@ + bg + ";"@;
    lemma_pair_free_concat(" background: "@, bg, a, b);
    lemma_pair_free_concat(" background: "@ + bg, ";"@, a, b);
    let w1 = when(spec_visible_background(cell, default_bg), bgp);
    let w2 = when(cell.attrs.bold, " font-weight: bold;"@);
    let w3 = when(cell.attrs.italic, " font-style: italic;"@);
    let w4 = when(cell.attrs.underline && !spec_is_blank(cell), " text-decoration: underline;"@);
    let w5 = when(cell.attrs.strikeout && !spec_is_blank(cell), " text-decoration: line-through;"@);
    let w6 = when(cell.attrs.dim, " opacity: 0.7;"@);
    let w7 = when(is_cursor, " background: #c0caf5; color: #1a1b26;"@);
    lemma_when_pair_free(spec_visible_background(cell, default_bg), bgp, a, b);
    lemma_when_pair_free(cell.attrs.bold, " font-weight: bold;"@, a, b);
    lemma_when_pair_free(cell.attrs.italic, " font-style: italic;"@, a, b);
    lemma_when_pair_free(cell.attrs.underline && !spec_is_blank(cell), " text-decoration: underline;"@, a, b);
    lemma_when_pair_free(cell.attrs.strikeout && !spec_is_blank(cell), " text-decoration: line-through;"@, a, b);
    lemma_when_pair_free(cell.attrs.dim, " opacity: 0.7;"@, a, b);
    lemma_when_pair_free(is_cursor, " background: #c0caf5; color: #1a1b26;"@, a, b);
    let s1 = "color: "@ + fg;
    lemma_pair_free_concat("color: "@, fg, a, b);
    let s2 = s1 + "; display: inline-block; width: 1ch;"@;
    lemma_pair_free_concat(s1, "; display: inline-block; width: 1ch;"@, a, b);
    lemma_pair_free_concat(s2, w1, a, b);
    lemma_pair_free_concat(s2 + w1, w2, a, b);
    lemma_pair_free_concat(s2 + w1 + w2, w3, a, b);
    lemma_pair_free_concat(s2 + w1 + w2 + w3, w4, a, b);
    lemma_pair_free_concat(s2 + w1 + w2 + w3 + w4, w5, a, b);
    lemma_pair_free_concat(s2 + w1 + w2 + w3 + w4 + w5, w6, a, b);
    lemma_pair_free_concat(s2 + w1 + w2 + w3 + w4 + w5 + w6, w7, a, b);
}

proof fn lemma_dash_t_free_color()
    ensures
        pair_free("color: "@, '-', 't'),
{
    reveal_strlit("color: ");
    reveal_with_fuel(has_pair, 40);
}

proof fn lemma_dash_t_free_display()
    ensures
        pair_free("; display: inline-block; width: 1ch;"@, '-', 't'),
{
    reveal_strlit("; display: inline-block; width: 1ch;");
    reveal_with_fuel(has_pair, 40);
}

proof fn lemma_dash_t_free_background()
    ensures
        pair_free(" background: "@, '-', 't'),
{
    reveal_strlit(" background: ");
    reveal_with_fuel(has_pair, 40);
}

proof fn lemma_dash_t_free_semicolon()
    ensures
        pair_free(";"@, '-', 't'),
{
    reveal_strlit(";");
    reveal_with_fuel(has_pair, 40);
}

proof fn lemma_dash_t_free_bold()
    ensures
        pair_free(" font-weight: bold;"@, '-', 't'),
{
    reveal_strlit(" font-weight: bold;");
    reveal_with_fuel(has_pair, 40);
}

proof fn lemma_dash_t_free_italic()
    ensures
        pair_free(" font-style: italic;"@, '-', 't'),
{
    reveal_strlit(" font-style: italic;");
    reveal_with_fuel(has_pair, 40);
}

proof fn lemma_dash_t_free_opacity()
    ensures
        pair_free(" opacity: 0.7;"@, '-', 't'),
{
    reveal_strlit(" opacity: 0.7;");
    reveal_with_fuel(has_pair, 40);
}

proof fn lemma_dash_t_free_cursor()
    ensures
        pair_free(" background: #c0caf5; color: #1a1b26;"@, '-', 't'),
{
    reveal_strlit(" background: #c0caf5; color: #1a1b26;");
    reveal_with_fuel(has_pair, 40);
}

proof fn lemma_dash_t_free_rgb_open()
    ensures
        pair_free("rgb("@, '-', 't'),
{
    reveal_strlit("rgb(");
    reveal_with_fuel(has_pair, 40);
}

proof fn lemma_dash_t_free_comma()
    ensures
        pair_free(", "@, '-', 't'),
{
    reveal_strlit(", ");
    reveal_with_fuel(has_pair, 40);
}

proof fn lemma_dash_t_free_rgb_close()
    ensures
        pair_free(")"@, '-', 't'),
{
    reveal_strlit(")");
    reveal_with_fuel(has_pair, 40);
}

proof fn lemma_dash_t_free_underline()
    ensures
        pair_free(" text-decoration: underline;"@, '-', 't'),
{
    reveal_strlit(" text-decoration: underline;");
    reveal_with_fuel(has_pair, 40);
}

proof fn lemma_r_l_free_color()
    ensures
        pair_free("color: "@, 'r', 'l'),
{
    reveal_strlit("color: ");
    reveal_with_fuel(has_pair, 40);
}

proof fn lemma_r_l_free_display()
    ensures
        pair_free("; display: inline-block; width: 1ch;"@, 'r', 'l'),
{
    reveal_strlit("; display: inline-block; width: 1ch;");
    reveal_with_fuel(has_pair, 40);
}

proof fn lemma_r_l_free_background()
    ensures
        pair_free(" background: "@, 'r', 'l'),
{
    reveal_strlit(" background: ");
    reveal_with_fuel(has_pair, 40);
}

proof fn lemma_r_l_free_semicolon()
    ensures
        pair_free(";"@, 'r', 'l'),
{
    reveal_strlit(";");
    reveal_with_fuel(has_pair, 40);
}

proof fn lemma_r_l_free_bold()
    ensures
        pair_free(" font-weight: bold;"@, 'r', 'l'),
{
    reveal_strlit(" font-weight: bold;");
    reveal_with_fuel(has_pair, 40);
}

proof fn lemma_r_l_free_italic()
    ensures
        pair_free(" font-style: italic;"@, 'r', 'l'),
{
    reveal_strlit(" font-style: italic;");
    reveal_with_fuel(has_pair, 40);
}

proof fn lemma_r_l_free_opacity()
    ensures
        pair_free(" opacity: 0.7;"@, 'r', 'l'),
{
    reveal_strlit(" opacity: 0.7;");
    reveal_with_fuel(has_pair, 40);
}

proof fn lemma_r_l_free_cursor()
    ensures
        pair_free(" background: #c0caf5; color: #1a1b26;"@, 'r', 'l'),
{
    reveal_strlit(" background: #c0caf5; color: #1a1b26;");
    reveal_with_fuel(has_pair, 40);
}

proof fn lemma_r_l_free_rgb_open()
    ensures
        pair_free("rgb("@, 'r', 'l'),
{
    reveal_strlit("rgb(");
    reveal_with_fuel(has_pair, 40);
}

proof fn lemma_r_l_free_comma()
    ensures
        pair_free(", "@, 'r', 'l'),
{
    reveal_strlit(", ");
    reveal_with_fuel(has_pair, 40);
}

proof fn lemma_r_l_free_rgb_close()
    ensures
        pair_free(")"@, 'r', 'l'),
{
    reveal_strlit(")");
    reveal_with_fuel(has_pair, 40);
}

proof fn lemma_r_l_free_line_through()
    ensures
        pair_free(" text-decoration: line-through;"@, 'r', 'l'),
{
    reveal_strlit(" text-decoration: line-through;");
    reveal_with_fuel(has_pair, 40);
}

proof fn lemma_struck_out_shown(cell: SnapshotCell, is_cursor: bool, default_bg: Rgb)
    requires
        !cell.attrs.inverse,
        !spec_is_blank(cell),
        cell.attrs.strikeout,
    ensures
        is_substring("line-through"@, spec_cell_style(cell, is_cursor, default_bg)),
{
    reveal_strlit("line-through");
    reveal_strlit(" text-decoration: line-through;");
    let style = spec_cell_style(cell, is_cursor, default_bg);
    let fg = spec_rgb(cell.fg);
    let bg = spec_rgb(cell.bg);
    let before = "color: "@ + fg + "; display: inline-block; width: 1ch;"@ + when(
        spec_visible_background(cell, default_bg),
        " background: "@ + bg + ";"@,
    ) + when(cell.attrs.bold, " font-weight: bold;"@) + when(cell.attrs.italic, " font-style: italic;"@) + when(
        cell.attrs.underline,
        " text-decoration: underline;"@,
    );
    let w6 = when(cell.attrs.dim, " opacity: 0.7;"@);
    let w7 = when(is_cursor, " background: #c0caf5; color: #1a1b26;"@);
    assert(style == before + " text-decoration: line-through;"@ + w6 + w7);
    let k: int = before.len() as int + 18;
    assert(style.subrange(k, k + 12) =~= "line-through"@);
}

proof fn lemma_underline_shown(cell: SnapshotCell, is_cursor: bool, default_bg: Rgb)
    requires
        !cell.attrs.inverse,
        !spec_is_blank(cell),
        cell.attrs.underline,
    ensures
        is_substring("underline"@, spec_cell_style(cell, is_cursor, default_bg)),
{
    reveal_strlit("underline");
    reveal_strlit(" text-decoration: underline;");
    let style = spec_cell_style(cell, is_cursor, default_bg);
    let fg = spec_rgb(cell.fg);
    let bg = spec_rgb(cell.bg);
    let before = "color: "@ + fg + "; display: inline-block; width: 1ch;"@ + when(
        spec_visible_background(cell, default_bg),
        " background: "@ + bg + ";"@,
    ) + when(cell.attrs.bold, " font-weight: bold;"@) + when(cell.attrs.italic, " font-style: italic;"@);
    let w5 = when(cell.attrs.strikeout, " text-decoration: line-through;"@);
    let w6 = when(cell.attrs.dim, " opacity: 0.7;"@);
    let w7 = when(is_cursor, " background: #c0caf5; color: #1a1b26;"@);
    assert(style == before + " text-decoration: underline;"@ + w5 + w6 + w7);
    let k: int = before.len() as int + 18;
    assert(style.subrange(k, k + 9) =~= "underline"@);
}

proof fn lemma_struck_out_absent(cell: SnapshotCell, is_cursor: bool, default_bg: Rgb)
    requires
        !cell.attrs.inverse,
        !cell.attrs.strikeout,
    ensures
        !is_substring("line-through"@, spec_cell_style(cell, is_cursor, default_bg)),
{
    let style = spec_cell_style(cell, is_cursor, default_bg);
    lemma_dash_t_free_color();
    lemma_dash_t_free_display();
    lemma_dash_t_free_background();
    lemma_dash_t_free_semicolon();
    lemma_dash_t_free_bold();
    lemma_dash_t_free_italic();
    lemma_dash_t_free_opacity();
    lemma_dash_t_free_cursor();
    lemma_dash_t_free_rgb_open();
    lemma_dash_t_free_comma();
    lemma_dash_t_free_rgb_close();
    lemma_dash_t_free_underline();
    lemma_style_pair_free(cell, is_cursor, default_bg, '-', 't');
    if is_substring("line-through"@, style) {
        reveal_strlit("line-through");
        let k = choose|k: int| 0 <= k && k + 12 <= style.len() && #[trigger] style.subrange(k, k + 12) == "line-through"@;
        assert(style.subrange(k, k + 12)[4] == '-');
        assert(style.subrange(k, k + 12)[5] == 't');
        lemma_pair_at(style, '-', 't', k + 4);
    }
}

proof fn lemma_underline_absent(cell: SnapshotCell, is_cursor: bool, default_bg: Rgb)
    requires
        !cell.attrs.inverse,
        !cell.attrs.underline,
    ensures
        !is_substring("underline"@, spec_cell_style(cell, is_cursor, default_bg)),
{
    let style = spec_cell_style(cell, is_cursor, default_bg);
    lemma_r_l_free_color();
    lemma_r_l_free_display();
    lemma_r_l_free_background();
    lemma_r_l_free_semicolon();
    lemma_r_l_free_bold();
    lemma_r_l_free_italic();
    lemma_r_l_free_opacity();
    lemma_r_l_free_cursor();
    lemma_r_l_free_rgb_open();
    lemma_r_l_free_comma();
    lemma_r_l_free_rgb_close();
    lemma_r_l_free_line_through();
    lemma_style_pair_free(cell, is_cursor, default_bg, 'r', 'l');
    if is_substring("underline"@, style) {
        reveal_strlit("underline");
        let k = choose|k: int| 0 <= k && k + 9 <= style.len() && #[trigger] style.subrange(k, k + 9) == "underline"@;
        assert(style.subrange(k, k + 9)[4] == 'r');
        assert(style.subrange(k, k + 9)[5] == 'l');
        lemma_pair_at(style, 'r', 'l', k + 4);
    }
}

/// Which decorations a visible, non-inverse cell's style carries follows its
/// attributes exactly: the style mentions `line-through` exactly when the
/// cell is struck out, and `underline` exactly when it is underlined.
pub proof fn law_cell_style_decorations(cell: SnapshotCell, is_cursor: bool, default_bg: Rgb)
    requires
        !cell.attrs.inverse,
        !spec_is_blank(cell),
    ensures
        is_substring("line-through"@, spec_cell_style(cell, is_cursor, default_bg)) <==> cell.attrs.strikeout,
        is_substring("underline"@, spec_cell_style(cell, is_cursor, default_bg)) <==> cell.attrs.underline,
{
    if cell.attrs.strikeout {
        lemma_struck_out_shown(cell, is_cursor, default_bg);
    } else {
        lemma_struck_out_absent(cell, is_cursor, default_bg);
    }
    if cell.attrs.underline {
        lemma_underline_shown(cell, is_cursor, default_bg);
    } else {
        lemma_underline_absent(cell, is_cursor, default_bg);
    }
}

} // verus!
