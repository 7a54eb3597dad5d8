//! Terminal fonts: recognising monospace family names and turning a
//! configured family into a CSS value that cannot escape its declaration.

use vstd::prelude::*;
use crate::terminal::{contains_run, is_substring, lower_chars, lower_seq};
use crate::dialog::lemma_trim_of_trimmed;
use crate::text::{chars_of, char_is_alphanumeric, str_views, is_alphanumeric, string_of, trim_ws, trim_bounds};

verus! {

/// The family names offered when the system's fonts cannot be listed, and
/// always offered besides them.
pub const FALLBACK_FONTS: [&'static str; 7] = ["Menlo", "SF Mono", "Consolas", "DejaVu Sans Mono", "Courier New", "Monaco", "monospace"];

/// The CSS family list used when the configured one has nothing usable.
pub const DEFAULT_FONT_FAMILY: &'static str = "\"SF Mono\", \"Menlo\", \"Consolas\", monospace";

/// Whether a family name, ignoring ASCII case, mentions a typical
/// monospace marker.
pub open spec fn spec_looks_monospace(font: Seq<char>) -> bool {
    let n = lower_seq(font);
    ||| is_substring("mono"@, n)
    ||| is_substring("code"@, n)
    ||| is_substring("courier"@, n)
    ||| is_substring("console"@, n)
    ||| is_substring("menlo"@, n)
    ||| is_substring("monaco"@, n)
}

/// Whether a family name is probably a monospace font. Only used to order
/// the font list, never to decide whether a font can be used.
pub fn looks_monospace(font: &str) -> (r: bool)
    ensures
        r == spec_looks_monospace(font@),
{
    let v = chars_of(font);
    let normalized = lower_chars(&v, 0, v.len());
    assert(v@.subrange(0, v@.len() as int) =~= v@);
    let markers: [&str; 6] = ["mono", "code", "courier", "console", "menlo", "monaco"];
    let mut i: usize = 0;
    while i < 6
        invariant
            i <= 6,
            normalized@ == lower_seq(font@),
            markers@ == seq!["mono", "code", "courier", "console", "menlo", "monaco"],
            forall|j: int| 0 <= j < i ==> !is_substring(#[trigger] markers@[j]@, normalized@),
        decreases 6 - i,
    {
        let needle = chars_of(markers[i]);
        if contains_run(&normalized, &needle) {
            return true;
        }
        i = i + 1;
    }
    assert(!is_substring(markers@[0]@, normalized@));
    assert(!is_substring(markers@[1]@, normalized@));
    assert(!is_substring(markers@[2]@, normalized@));
    assert(!is_substring(markers@[3]@, normalized@));
    assert(!is_substring(markers@[4]@, normalized@));
    assert(!is_substring(markers@[5]@, normalized@));
    false
}

/// Whether a character may stay in a CSS font-family value: letters,
/// digits, and the space, comma, hyphen, underscore, dot and quotes.
pub open spec fn is_font_char(c: char) -> bool {
    char_is_alphanumeric(c) || c == ' ' || c == ',' || c == '-' || c == '_' || c == '.' || c == '\'' || c == '"'
}

/// The characters of `s` that may stay in a font-family value, in order.
pub open spec fn font_chars(s: Seq<char>) -> Seq<char>
    decreases s.len(),
{
    if s.len() == 0 {
        Seq::empty()
    } else if is_font_char(s.last()) {
        font_chars(s.drop_last()).push(s.last())
    } else {
        font_chars(s.drop_last())
    }
}

/// The CSS value for a configured font family: its permitted characters,
/// or the default family list when they are blank.
pub open spec fn spec_css_font_family(value: Seq<char>) -> Seq<char> {
    let kept = font_chars(value);
    if trim_ws(kept).len() == 0 {
        DEFAULT_FONT_FAMILY@
    } else {
        kept
    }
}

/// Only permitted characters survive, so a configured family cannot end
/// the declaration (`;`), open a block (`{`) or inject another property.
pub proof fn law_font_family_keeps_only_permitted_characters(value: Seq<char>)
    ensures
        forall|i: int| 0 <= i < font_chars(value).len() ==> is_font_char(#[trigger] font_chars(value)[i]),
    decreases value.len(),
{
    if value.len() > 0 {
        let rest = value.drop_last();
        law_font_family_keeps_only_permitted_characters(rest);
        if is_font_char(value.last()) {
            assert forall|i: int| 0 <= i < font_chars(value).len() implies is_font_char(#[trigger] font_chars(value)[i]) by {
                if i < font_chars(rest).len() {
                    assert(font_chars(value)[i] == font_chars(rest)[i]);
                }
            }
        }
    }
}

/// The value put into the style is safe and never blank: each of its
/// characters is a letter, a digit, or one of space `,` `-` `_` `.` `'` `"`
/// (so never `;`, `:`, `{` or `}`), and it holds a character that is not
/// whitespace.
pub proof fn law_css_font_family_is_safe_and_not_blank(value: Seq<char>)
    ensures
        forall|i: int|
            0 <= i < spec_css_font_family(value).len() ==> is_font_char(#[trigger] spec_css_font_family(value)[i]),
        trim_ws(spec_css_font_family(value)).len() > 0,
{
    law_font_family_keeps_only_permitted_characters(value);
    if trim_ws(font_chars(value)).len() == 0 {
        reveal_strlit("\"SF Mono\", \"Menlo\", \"Consolas\", monospace");
        let d = DEFAULT_FONT_FAMILY@;
        assert forall|i: int| 0 <= i < d.len() implies is_font_char(#[trigger] d[i]) by {}
        lemma_trim_of_trimmed(d);
    }
}

/// Turns a configured font family into a value safe to put in an inline
/// style.
pub fn css_font_family(value: &str) -> (r: String)
    ensures
        r@ == spec_css_font_family(value@),
{
    let v = chars_of(value);
    let mut kept: Vec<char> = Vec::new();
    let mut i: usize = 0;
    while i < v.len()
        invariant
            i <= v@.len(),
            v@ == value@,
            kept@ == font_chars(v@.take(i as int)),
        decreases v@.len() - i,
    {
        let c = v[i];
        assert(v@.take(i as int + 1).drop_last() =~= v@.take(i as int));
        if is_alphanumeric(c) || c == ' ' || c == ',' || c == '-' || c == '_' || c == '.' || c == '\'' || c == '"' {
            kept.push(c);
        }
        i = i + 1;
    }
    assert(v@.take(v@.len() as int) =~= v@);
    let (lo, hi) = trim_bounds(&kept);
    if lo == hi {
        let mut r = String::new();
        r.append(DEFAULT_FONT_FAMILY);
        r
    } else {
        assert(kept@.subrange(0, kept@.len() as int) =~= kept@);
        string_of(&kept, 0, kept.len())
    }
}

/// Code-point lexicographic order of character sequences, which is the
/// order `String` compares in (UTF-8 byte order agrees with it).
pub open spec fn seq_lt(a: Seq<char>, b: Seq<char>) -> bool
    decreases a.len(),
{
    if a.len() == 0 {
        b.len() > 0
    } else if b.len() == 0 {
        false
    } else if a[0] != b[0] {
        (a[0] as int) < (b[0] as int)
    } else {
        seq_lt(a.drop_first(), b.drop_first())
    }
}

pub proof fn lemma_seq_lt_irreflexive(a: Seq<char>)
    ensures
        !seq_lt(a, a),
    decreases a.len(),
{
    if a.len() > 0 {
        lemma_seq_lt_irreflexive(a.drop_first());
    }
}

pub proof fn lemma_seq_lt_transitive(a: Seq<char>, b: Seq<char>, c: Seq<char>)
    requires
        seq_lt(a, b),
        seq_lt(b, c),
    ensures
        seq_lt(a, c),
    decreases a.len(),
{
    if a.len() > 0 && b.len() > 0 && c.len() > 0 && a[0] == b[0] && b[0] == c[0] {
        lemma_seq_lt_transitive(a.drop_first(), b.drop_first(), c.drop_first());
    }
}

pub proof fn lemma_seq_lt_total(a: Seq<char>, b: Seq<char>)
    requires
        a != b,
    ensures
        seq_lt(a, b) || seq_lt(b, a),
    decreases a.len(),
{
    if a.len() > 0 && b.len() > 0 && a[0] == b[0] {
        if a.drop_first() == b.drop_first() {
            assert(a =~= seq![a[0]] + a.drop_first());
            assert(b =~= seq![b[0]] + b.drop_first());
        }
        lemma_seq_lt_total(a.drop_first(), b.drop_first());
    } else if a.len() == 0 && b.len() == 0 {
        assert(a =~= b);
    }
}

/// Whether family `a` is listed before family `b`: monospace-looking names
/// first, then by ASCII-lowercased name, then by the name itself.
pub open spec fn font_before(a: Seq<char>, b: Seq<char>) -> bool {
    let ma = spec_looks_monospace(a);
    let mb = spec_looks_monospace(b);
    if ma != mb {
        ma
    } else if lower_seq(a) != lower_seq(b) {
        seq_lt(lower_seq(a), lower_seq(b))
    } else {
        seq_lt(a, b)
    }
}

proof fn lemma_font_before_transitive(a: Seq<char>, b: Seq<char>, c: Seq<char>)
    requires
        font_before(a, b),
        font_before(b, c),
    ensures
        font_before(a, c),
{
    let (la, lb, lc) = (lower_seq(a), lower_seq(b), lower_seq(c));
    if spec_looks_monospace(a) == spec_looks_monospace(b) && spec_looks_monospace(b) == spec_looks_monospace(c) {
        if la != lb && lb != lc {
            lemma_seq_lt_transitive(la, lb, lc);
            if la == lc {
                lemma_seq_lt_irreflexive(la);
            }
        } else if la == lb && lb == lc {
            lemma_seq_lt_transitive(a, b, c);
        }
    }
}

proof fn lemma_font_before_total(a: Seq<char>, b: Seq<char>)
    requires
        a != b,
    ensures
        font_before(a, b) || font_before(b, a),
{
    if lower_seq(a) != lower_seq(b) {
        lemma_seq_lt_total(lower_seq(a), lower_seq(b));
    } else {
        lemma_seq_lt_total(a, b);
    }
}

/// Whether `a` comes before `b` in code-point order.
pub(crate) fn chars_lt(a: &Vec<char>, b: &Vec<char>) -> (r: bool)
    ensures
        r == seq_lt(a@, b@),
{
    let mut i: usize = 0;
    assert(a@.skip(0) =~= a@);
    assert(b@.skip(0) =~= b@);
    while i < a.len() && i < b.len()
        invariant
            i <= a@.len(),
            i <= b@.len(),
            seq_lt(a@, b@) == seq_lt(a@.skip(i as int), b@.skip(i as int)),
        decreases a@.len() - i,
    {
        assert(a@.skip(i as int)[0] == a@[i as int]);
        assert(b@.skip(i as int)[0] == b@[i as int]);
        if a[i] != b[i] {
            return a[i] < b[i];
        }
        assert(a@.skip(i as int).drop_first() =~= a@.skip(i as int + 1));
        assert(b@.skip(i as int).drop_first() =~= b@.skip(i as int + 1));
        i = i + 1;
    }
    i < b.len()
}

/// Whether family `a` is listed before family `b`.
pub fn font_listed_before(a: &str, b: &str) -> (r: bool)
    ensures
        r == font_before(a@, b@),
{
    let ma = looks_monospace(a);
    let mb = looks_monospace(b);
    if ma != mb {
        return ma;
    }
    let av = chars_of(a);
    let bv = chars_of(b);
    let la = lower_chars(&av, 0, av.len());
    let lb = lower_chars(&bv, 0, bv.len());
    assert(av@.subrange(0, av@.len() as int) =~= av@);
    assert(bv@.subrange(0, bv@.len() as int) =~= bv@);
    if chars_lt(&la, &lb) {
        proof {
            lemma_seq_lt_irreflexive(la@);
        }
        true
    } else if chars_lt(&lb, &la) {
        proof {
            lemma_seq_lt_irreflexive(la@);
        }
        false
    } else {
        proof {
            if la@ != lb@ {
                lemma_seq_lt_total(la@, lb@);
            }
        }
        chars_lt(&av, &bv)
    }
}

/// The characters of each string.
pub open spec fn string_views(v: Seq<String>) -> Seq<Seq<char>> {
    v.map_values(|s: String| s@)
}

/// Whether a list of family names is in listing order, each name once.
pub open spec fn fonts_in_order(v: Seq<Seq<char>>) -> bool {
    forall|i: int, j: int| 0 <= i < j < v.len() ==> font_before(#[trigger] v[i], #[trigger] v[j])
}

/// Adds a family name to an ordered list, at its place, unless it is there.
fn insert_font(fonts: &mut Vec<String>, font: String)
    requires
        fonts_in_order(string_views(old(fonts)@)),
    ensures
        fonts_in_order(string_views(final(fonts)@)),
        forall|s: Seq<char>| #[trigger] string_views(final(fonts)@).contains(s) <==> (string_views(old(fonts)@).contains(s)
            || s == font@),
{
    let ghost old_views = string_views(fonts@);
    let mut p: usize = 0;
    while p < fonts.len() && font_listed_before(fonts[p].as_str(), font.as_str())
        invariant
            p <= fonts@.len(),
            string_views(fonts@) == old_views,
            fonts_in_order(old_views),
            forall|j: int| 0 <= j < p ==> font_before(#[trigger] old_views[j], font@),
        decreases fonts@.len() - p,
    {
        p = p + 1;
    }
    if p < fonts.len() && crate::text::str_eq(fonts[p].as_str(), font.as_str()) {
        assert(old_views[p as int] == font@);
        return;
    }
    proof {
        if p < old_views.len() {
            assert(old_views[p as int] != font@);
            lemma_font_before_total(old_views[p as int], font@);
            assert forall|j: int| p < j < old_views.len() implies font_before(font@, #[trigger] old_views[j]) by {
                assert(font_before(old_views[p as int], old_views[j]));
                lemma_font_before_transitive(font@, old_views[p as int], old_views[j]);
            }
        }
    }
    let ghost f = font@;
    fonts.insert(p, font);
    proof {
        let nv = string_views(fonts@);
        old_views.insert_ensures(p as int, f);
        assert(nv =~= old_views.insert(p as int, f));
        assert forall|i: int, j: int| 0 <= i < j < nv.len() implies font_before(#[trigger] nv[i], #[trigger] nv[j]) by {
            if j < p {
                assert(nv[i] == old_views[i] && nv[j] == old_views[j]);
            } else if j == p {
                assert(nv[i] == old_views[i]);
            } else if i < p {
                assert(nv[i] == old_views[i] && nv[j] == old_views[j - 1]);
            } else if i == p {
                assert(nv[j] == old_views[j - 1]);
            } else {
                assert(nv[i] == old_views[i - 1] && nv[j] == old_views[j - 1]);
            }
        }
        assert forall|s: Seq<char>| #[trigger] nv.contains(s) <==> (old_views.contains(s) || s == f) by {
            if nv.contains(s) {
                let k = choose|k: int| 0 <= k < nv.len() && nv[k] == s;
                if k < p {
                    assert(old_views[k] == s);
                } else if k > p {
                    assert(old_views[k - 1] == s);
                }
            }
            if old_views.contains(s) {
                let k = choose|k: int| 0 <= k < old_views.len() && old_views[k] == s;
                if k < p {
                    assert(nv[k] == s);
                } else {
                    assert(nv[k + 1] == s);
                }
            }
            if s == f {
                assert(nv[p as int] == s);
            }
        }
    }
}

/// The family names to offer: every given name and every fallback name,
/// each once, monospace-looking names first, then by ASCII-lowercased name,
/// then by the name itself.
pub fn order_font_families(families: &[String]) -> (r: Vec<String>)
    ensures
        fonts_in_order(string_views(r@)),
        forall|s: Seq<char>| #[trigger] string_views(r@).contains(s) <==> (string_views(families@).contains(s)
            || str_views(FALLBACK_FONTS@).contains(s)),
{
    let mut fonts: Vec<String> = Vec::new();
    let mut i: usize = 0;
    while i < 7
        invariant
            i <= 7,
            fonts_in_order(string_views(fonts@)),
            forall|s: Seq<char>| #[trigger] string_views(fonts@).contains(s) <==> exists|k: int| 0 <= k < i && FALLBACK_FONTS@[k]@ == s,
        decreases 7 - i,
    {
        let f = crate::text::owned(FALLBACK_FONTS[i]);
        insert_font(&mut fonts, f);
        i = i + 1;
    }
    proof {
        assert forall|s: Seq<char>| (exists|k: int| 0 <= k < 7 && FALLBACK_FONTS@[k]@ == s) <==> #[trigger] str_views(FALLBACK_FONTS@).contains(s) by {
            if exists|k: int| 0 <= k < 7 && FALLBACK_FONTS@[k]@ == s {
                let k = choose|k: int| 0 <= k < 7 && FALLBACK_FONTS@[k]@ == s;
                assert(str_views(FALLBACK_FONTS@)[k] == s);
            }
        }
    }
    let mut j: usize = 0;
    while j < families.len()
        invariant
            j <= families@.len(),
            fonts_in_order(string_views(fonts@)),
            forall|s: Seq<char>| #[trigger] string_views(fonts@).contains(s) <==> (str_views(FALLBACK_FONTS@).contains(s)
                || exists|k: int| 0 <= k < j && families@[k]@ == s),
        decreases families@.len() - j,
    {
        insert_font(&mut fonts, families[j].clone());
        j = j + 1;
    }
    proof {
        assert forall|s: Seq<char>| (exists|k: int| 0 <= k < families@.len() && families@[k]@ == s) <==> #[trigger] string_views(families@).contains(s) by {
            if exists|k: int| 0 <= k < families@.len() && families@[k]@ == s {
                let k = choose|k: int| 0 <= k < families@.len() && families@[k]@ == s;
                assert(string_views(families@)[k] == s);
            }
        }
    }
    fonts
}

/// The fallback family names, in their own order: the list offered where
/// the system's fonts are not read.
pub fn fallback_fonts() -> (r: Vec<String>)
    ensures
        string_views(r@) == FALLBACK_FONTS@.map_values(|f: &str| f@),
{
    let mut fonts: Vec<String> = Vec::new();
    let mut i: usize = 0;
    while i < 7
        invariant
            i <= 7,
            string_views(fonts@) == FALLBACK_FONTS@.map_values(|f: &str| f@).take(i as int),
        decreases 7 - i,
    {
        fonts.push(crate::text::owned(FALLBACK_FONTS[i]));
        assert(FALLBACK_FONTS@.map_values(|f: &str| f@).take(i as int + 1) =~= FALLBACK_FONTS@.map_values(|f: &str| f@).take(
            i as int,
        ).push(FALLBACK_FONTS@[i as int]@));
        assert(string_views(fonts@) =~= FALLBACK_FONTS@.map_values(|f: &str| f@).take(i as int + 1));
        i = i + 1;
    }
    assert(FALLBACK_FONTS@.map_values(|f: &str| f@).take(7) =~= FALLBACK_FONTS@.map_values(|f: &str| f@));
    fonts
}

} // verus!
