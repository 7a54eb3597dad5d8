//! Remote POSIX path handling of the file browser: parent and child paths,
//! the home shorthand, user-typed paths and local names for downloaded files.

use vstd::prelude::*;
use crate::text::{
    chars_of, owned, push_char, str_eq, string_of, trim_bounds, trim_end_bound,
    trim_end_char, trim_start_char, trim_ws,
};

verus! {

/// The index of the last `c` in `s`, or -1.
pub open spec fn last_index_of(s: Seq<char>, c: char) -> int
    decreases s.len(),
{
    if s.len() == 0 {
        -1
    } else if s.last() == c {
        s.len() - 1
    } else {
        last_index_of(s.drop_last(), c)
    }
}

/// The parent directory of a remote path; the root and the home directory
/// have the root as parent.
pub open spec fn spec_parent_path(p: Seq<char>) -> Seq<char> {
    if p == "/"@ || p == "."@ {
        "/"@
    } else {
        let t = trim_end_char(p, '/');
        let pos = last_index_of(t, '/');
        if pos <= 0 {
            "/"@
        } else {
            t.take(pos)
        }
    }
}

/// A child path of a directory.
pub open spec fn spec_join_path(base: Seq<char>, name: Seq<char>) -> Seq<char> {
    if base == "/"@ {
        "/"@ + name
    } else if base == "."@ {
        name
    } else {
        trim_end_char(base, '/') + "/"@ + name
    }
}

/// A path with its trailing slashes removed; a path of slashes only, or an
/// empty one, is the root.
pub open spec fn spec_trim_trailing_slashes(p: Seq<char>) -> Seq<char> {
    if forall|i: int| 0 <= i < p.len() ==> p[i] == '/' {
        "/"@
    } else {
        trim_end_char(p, '/')
    }
}

/// The remote path for what the user typed: trimmed, `~` and `~/...` mapped
/// into the home directory `.`, trailing slashes removed; `None` when blank.
pub open spec fn spec_normalize_path_input(input: Seq<char>) -> Option<Seq<char>> {
    let t = trim_ws(input);
    if t.len() == 0 {
        None
    } else {
        let path = if t == "~"@ {
            "."@
        } else if t.len() >= 2 && t[0] == '~' && t[1] == '/' {
            let rest = trim_start_char(t.skip(2), '/');
            if rest.len() == 0 {
                "."@
            } else {
                "./"@ + rest
            }
        } else {
            t
        };
        Some(spec_trim_trailing_slashes(path))
    }
}

/// The last path segment, or `remote-file` when there is none.
pub open spec fn spec_remote_file_name(path: Seq<char>) -> Seq<char> {
    let t = trim_end_char(path, '/');
    let name = t.skip(last_index_of(t, '/') + 1);
    if name.len() == 0 {
        "remote-file"@
    } else {
        name
    }
}

/// A character kept as is in local file names: ASCII letters and digits, `.`, `-`, `_`.
pub open spec fn is_safe_file_char(c: char) -> bool {
    ('a' <= c <= 'z') || ('A' <= c <= 'Z') || ('0' <= c <= '9') || c == '.' || c == '-' || c == '_'
}

/// Every other character replaced by `_`; an empty name becomes `remote-file`.
pub open spec fn spec_sanitize_file_name(name: Seq<char>) -> Seq<char> {
    if name.len() == 0 {
        "remote-file"@
    } else {
        name.map_values(|c: char| if is_safe_file_char(c) { c } else { '_' })
    }
}

/// The index of the last `c` in `v[..hi]`, or `None`.
fn last_index(v: &Vec<char>, hi: usize, c: char) -> (r: Option<usize>)
    requires
        hi <= v@.len(),
    ensures
        match r {
            Some(i) => i < hi && last_index_of(v@.subrange(0, hi as int), c) == i as int,
            None => last_index_of(v@.subrange(0, hi as int), c) == -1,
        },
{
    let mut end: usize = hi;
    while end > 0
        invariant
            end <= hi <= v@.len(),
            last_index_of(v@.subrange(0, hi as int), c) == last_index_of(v@.subrange(0, end as int), c),
        decreases end,
    {
        if v[end - 1] == c {
            return Some(end - 1);
        }
        assert(v@.subrange(0, end as int).drop_last() =~= v@.subrange(0, end as int - 1));
        end = end - 1;
    }
    None
}

/// The parent directory of a remote path.
pub fn parent_path(path: &str) -> (r: String)
    ensures
        r@ == spec_parent_path(path@),
{
    if str_eq(path, "/") || str_eq(path, ".") {
        return owned("/");
    }
    let v = chars_of(path);
    assert(v@.subrange(0, v@.len() as int) =~= v@);
    let end = trim_end_bound(&v, v.len(), '/');
    match last_index(&v, end, '/') {
        Some(pos) if pos > 0 => {
            assert(v@.subrange(0, pos as int) =~= v@.subrange(0, end as int).take(pos as int));
            string_of(&v, 0, pos)
        },
        _ => owned("/"),
    }
}

/// A child path of a remote directory.
pub fn join_path(base: &str, name: &str) -> (r: String)
    ensures
        r@ == spec_join_path(base@, name@),
{
    if str_eq(base, "/") {
        let mut r = owned("/");
        r.append(name);
        r
    } else if str_eq(base, ".") {
        owned(name)
    } else {
        let v = chars_of(base);
        assert(v@.subrange(0, v@.len() as int) =~= v@);
        let end = trim_end_bound(&v, v.len(), '/');
        let mut r = string_of(&v, 0, end);
        r.append("/");
        r.append(name);
        r
    }
}

/// The path as the user reads it: the home directory `.` is shown as `~`.
pub fn display_path(path: &str) -> (r: String)
    ensures
        r@ == (if path@ == "."@ { "~"@ } else { path@ }),
{
    if str_eq(path, ".") {
        owned("~")
    } else {
        owned(path)
    }
}

/// Whether a path is the root or the home directory, which have no way up.
pub fn is_root(path: &str) -> (r: bool)
    ensures
        r == (path@ == "/"@ || path@ == "."@),
{
    str_eq(path, "/") || str_eq(path, ".")
}

/// Removes trailing slashes from `v`; a path of slashes only is the root.
fn trim_trailing_slashes_of(v: &Vec<char>) -> (r: String)
    ensures
        r@ == spec_trim_trailing_slashes(v@),
{
    let mut i: usize = 0;
    while i < v.len()
        invariant
            i <= v@.len(),
            forall|j: int| 0 <= j < i ==> v@[j] == '/',
        decreases v@.len() - i,
    {
        if v[i] != '/' {
            assert(!(forall|j: int| 0 <= j < v@.len() ==> v@[j] == '/'));
            assert(v@.subrange(0, v@.len() as int) =~= v@);
            let end = trim_end_bound(v, v.len(), '/');
            proof {
                lemma_trim_end_keeps_other(v@, '/', i as int);
            }
            return string_of(v, 0, end);
        }
        i = i + 1;
    }
    owned("/")
}

/// Trimming trailing copies of `c` keeps every position before a non-`c`.
proof fn lemma_trim_end_keeps_other(s: Seq<char>, c: char, i: int)
    requires
        0 <= i < s.len(),
        s[i] != c,
    ensures
        trim_end_char(s, c).len() > i,
    decreases s.len(),
{
    if s.last() == c {
        lemma_trim_end_keeps_other(s.drop_last(), c, i);
    }
}

/// Removes trailing slashes from a path; a path of slashes only is the root.
pub fn trim_sftp_trailing_slashes(path: &str) -> (r: String)
    ensures
        r@ == spec_trim_trailing_slashes(path@),
{
    let v = chars_of(path);
    trim_trailing_slashes_of(&v)
}

/// The remote path for what the user typed into the path bar, or `None`
/// when the input is blank.
pub fn normalize_sftp_path_input(input: &str) -> (r: Option<String>)
    ensures
        match r {
            Some(p) => spec_normalize_path_input(input@) == Some(p@),
            None => spec_normalize_path_input(input@) is None,
        },
{
    let v = chars_of(input);
    let (lo, hi) = trim_bounds(&v);
    if lo == hi {
        return None;
    }
    let ghost t = trim_ws(input@);
    let mut path: Vec<char> = Vec::new();
    if hi - lo == 1 && v[lo] == '~' {
        path.push('.');
        proof {
            reveal_strlit("~");
            reveal_strlit(".");
        }
        assert(t =~= "~"@);
        assert(path@ =~= "."@);
    } else if hi - lo >= 2 && v[lo] == '~' && v[lo + 1] == '/' {
        proof {
            reveal_strlit("~");
            if t == "~"@ {
                assert(t.len() == 1);
            }
        }
        let mut start: usize = lo + 2;
        assert(t.skip(2) =~= v@.subrange(start as int, hi as int));
        while start < hi && v[start] == '/'
            invariant
                lo + 2 <= start <= hi <= v@.len(),
                t == v@.subrange(lo as int, hi as int),
                trim_start_char(t.skip(2), '/') == trim_start_char(v@.subrange(start as int, hi as int), '/'),
            decreases hi - start,
        {
            assert(v@.subrange(start as int, hi as int).drop_first() =~= v@.subrange(start as int + 1, hi as int));
            start = start + 1;
        }
        proof {
            if start == lo + 2 {
                assert(t.skip(2) =~= v@.subrange(start as int, hi as int));
            }
        }
        if start == hi {
            path.push('.');
            proof {
                reveal_strlit(".");
            }
            assert(path@ =~= "."@);
        } else {
            path.push('.');
            path.push('/');
            let mut i: usize = start;
            while i < hi
                invariant
                    start <= i <= hi <= v@.len(),
                    path@ == seq!['.', '/'] + v@.subrange(start as int, i as int),
                decreases hi - i,
            {
                path.push(v[i]);
                assert(v@.subrange(start as int, i as int + 1) =~= v@.subrange(start as int, i as int).push(v@[i as int]));
                i = i + 1;
            }
            assert(trim_start_char(v@.subrange(start as int, hi as int), '/') == v@.subrange(start as int, hi as int));
            assert("./"@ =~= seq!['.', '/']) by {
                reveal_strlit("./");
            }
        }
    } else {
        let mut i: usize = lo;
        while i < hi
            invariant
                lo <= i <= hi <= v@.len(),
                path@ == v@.subrange(lo as int, i as int),
            decreases hi - i,
        {
            path.push(v[i]);
            assert(v@.subrange(lo as int, i as int + 1) =~= v@.subrange(lo as int, i as int).push(v@[i as int]));
            i = i + 1;
        }
        proof {
            reveal_strlit("~");
            if t == "~"@ {
                assert(t.len() == 1 && t[0] == '~');
            }
        }
    }
    Some(trim_trailing_slashes_of(&path))
}

/// The file name of a remote path, or `remote-file` when it has none.
pub fn remote_file_name(path: &str) -> (r: String)
    ensures
        r@ == spec_remote_file_name(path@),
{
    let v = chars_of(path);
    assert(v@.subrange(0, v@.len() as int) =~= v@);
    let end = trim_end_bound(&v, v.len(), '/');
    let start: usize = match last_index(&v, end, '/') {
        Some(pos) => pos + 1,
        None => 0,
    };
    if start == end {
        owned("remote-file")
    } else {
        assert(v@.subrange(start as int, end as int) =~= v@.subrange(0, end as int).skip(
            last_index_of(v@.subrange(0, end as int), '/') + 1));
        string_of(&v, start, end)
    }
}

/// A local file name built from a remote one: only ASCII letters, digits,
/// `.`, `-` and `_` are kept, everything else becomes `_`.
pub fn sanitize_local_file_name(name: &str) -> (r: String)
    ensures
        r@ == spec_sanitize_file_name(name@),
{
    let v = chars_of(name);
    if v.len() == 0 {
        return owned("remote-file");
    }
    let mut r = String::new();
    let mut i: usize = 0;
    while i < v.len()
        invariant
            i <= v@.len(),
            r@ == v@.take(i as int).map_values(|c: char| if is_safe_file_char(c) { c } else { '_' }),
        decreases v@.len() - i,
    {
        let c = v[i];
        let keep = ('a' <= c && c <= 'z') || ('A' <= c && c <= 'Z') || ('0' <= c && c <= '9')
            || c == '.' || c == '-' || c == '_';
        push_char(&mut r, if keep { c } else { '_' });
        assert(v@.take(i as int + 1).map_values(|c: char| if is_safe_file_char(c) { c } else { '_' })
            =~= v@.take(i as int).map_values(|c: char| if is_safe_file_char(c) { c } else { '_' })
                .push(if is_safe_file_char(c) { c } else { '_' }));
        i = i + 1;
    }
    assert(v@.take(v@.len() as int) =~= v@);
    r
}

/// A path segment: non-empty and without `/`.
pub open spec fn is_segment(name: Seq<char>) -> bool {
    name.len() > 0 && forall|i: int| 0 <= i < name.len() ==> name[i] != '/'
}

proof fn lemma_last_index_past_segment(a: Seq<char>, b: Seq<char>, c: char)
    requires
        a.len() > 0,
        a.last() == c,
        forall|i: int| 0 <= i < b.len() ==> b[i] != c,
    ensures
        last_index_of(a + b, c) == a.len() - 1,
    decreases b.len(),
{
    if b.len() == 0 {
        assert(a + b =~= a);
    } else {
        assert((a + b).drop_last() =~= a + b.drop_last());
        lemma_last_index_past_segment(a, b.drop_last(), c);
    }
}

/// Going into a directory entry and back up returns to the directory: the
/// parent of `join(base, name)` is `base` without trailing slashes (the root
/// for the root), for every segment `name` and every base except the home
/// directory `.` and slash-only bases other than the root.
pub proof fn law_parent_of_joined_path(base: Seq<char>, name: Seq<char>)
    requires
        is_segment(name),
        base != "."@,
        base == "/"@ || trim_end_char(base, '/').len() > 0,
    ensures
        spec_parent_path(spec_join_path(base, name)) == (if base == "/"@ { "/"@ } else { trim_end_char(base, '/') }),
{
    reveal_strlit("/");
    reveal_strlit(".");
    let a = if base == "/"@ { "/"@ } else { trim_end_char(base, '/') + "/"@ };
    let joined = spec_join_path(base, name);
    assert(joined =~= a + name);
    assert(joined.last() == name.last());
    assert(trim_end_char(joined, '/') == joined);
    lemma_last_index_past_segment(a, name, '/');
    if base != "/"@ {
        assert(joined.take(a.len() - 1) =~= trim_end_char(base, '/'));
        assert(joined != "/"@ && joined != "."@) by {
            assert(joined.len() >= 2);
        }
    } else {
        assert(joined.len() >= 2);
    }
}

/// The file name of a joined path is the entry name.
pub proof fn law_file_name_of_joined_path(base: Seq<char>, name: Seq<char>)
    requires
        is_segment(name),
    ensures
        spec_remote_file_name(spec_join_path(base, name)) == name,
{
    reveal_strlit("/");
    let joined = spec_join_path(base, name);
    assert(joined.last() == name.last()) by {
        if base == "/"@ {
            assert(joined =~= "/"@ + name);
        } else if base == "."@ {
        } else {
            assert(joined =~= (trim_end_char(base, '/') + "/"@) + name);
        }
    }
    assert(trim_end_char(joined, '/') == joined);
    if base == "."@ {
        reveal_strlit(".");
        assert(base[0] == '.');
        assert("/"@[0] == '/');
        assert(base != "/"@);
        assert(joined == name);
        lemma_no_index(name, '/');
        assert(joined.skip(0) =~= name);
    } else {
        let a = if base == "/"@ { "/"@ } else { trim_end_char(base, '/') + "/"@ };
        assert(joined =~= a + name);
        lemma_last_index_past_segment(a, name, '/');
        assert(joined.skip(a.len() as int) =~= name);
    }
}

proof fn lemma_no_index(s: Seq<char>, c: char)
    requires
        forall|i: int| 0 <= i < s.len() ==> s[i] != c,
    ensures
        last_index_of(s, c) == -1,
    decreases s.len(),
{
    if s.len() > 0 {
        lemma_no_index(s.drop_last(), c);
    }
}

} // verus!
