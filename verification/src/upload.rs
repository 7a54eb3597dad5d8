//! Uploading dropped local files and folders: which dropped paths are
//! upload roots, what each is called remotely, which remote entries it
//! would replace, and which remote files an upload may overwrite.

use vstd::prelude::*;
use crate::fonts::seq_lt;
use crate::scanner::opt_view;
use crate::session_data::SftpEntry;
use crate::sftp_path::{join_path, spec_join_path};
use crate::text::{owned, str_eq};

verus! {

/// One item of an upload batch: a local file or folder and where it goes.
#[derive(Clone, Debug, PartialEq, Eq)]
pub struct SftpBatchEntry {
    pub local: String,
    pub remote: String,
    pub is_dir: bool,
}

/// The last component of a path, as `Path::file_name` gives it: `None`
/// for a root, an empty path, or a path ending in `..`. Like the two names
/// below, it reads paths by the rules of the platform the library is built
/// for (`/` on Unix; `\`, `/` and drive prefixes on Windows), fixed for one build.
pub uninterp spec fn path_file_name(path: Seq<char>) -> Option<Seq<char>>;

/// Whether `base` is a prefix of `path` in whole components, as
/// `Path::strip_prefix` decides it.
pub uninterp spec fn path_has_prefix(path: Seq<char>, base: Seq<char>) -> bool;

/// Whether two paths have the same components, as `Path`'s `==` decides.
pub uninterp spec fn same_path(a: Seq<char>, b: Seq<char>) -> bool;

/// The last component of a path.
///
/// Calls `Path::file_name` on the path, then `OsStr::to_str` (which cannot
/// fail on a part of a `&str`); the result is named `path_file_name`.
#[verifier::external_body]
fn file_name_of(path: &str) -> (r: Option<String>)
    ensures
        opt_view(r) == path_file_name(path@),
{
    match std::path::Path::new(path).file_name() {
        Some(name) => match name.to_str() {
            Some(text) => Some(text.to_string()),
            None => None,
        },
        None => None,
    }
}

/// Whether `base` is a prefix of `path` in whole components.
///
/// Calls `Path::strip_prefix` and reports whether it succeeded; the result
/// is named `path_has_prefix`.
#[verifier::external_body]
fn has_path_prefix(path: &str, base: &str) -> (r: bool)
    ensures
        r == path_has_prefix(path@, base@),
{
    std::path::Path::new(path).strip_prefix(base).is_ok()
}

/// Whether two paths are equal component by component.
///
/// Calls `Path`'s `==`; the result is named `same_path`.
#[verifier::external_body]
fn paths_equal(a: &str, b: &str) -> (r: bool)
    ensures
        r == same_path(a@, b@),
{
    std::path::Path::new(a) == std::path::Path::new(b)
}

/// Whether strings are in non-decreasing order (code-point order, which is
/// `String`'s byte order).
pub open spec fn strings_sorted(s: Seq<Seq<char>>) -> bool {
    forall|i: int, j: int| 0 <= i < j < s.len() ==> !seq_lt(#[trigger] s[j], #[trigger] s[i])
}

/// The characters of each string.
pub open spec fn views(v: Seq<String>) -> Seq<Seq<char>> {
    v.map_values(|s: String| s@)
}

/// Sorts strings.
///
/// Calls `slice::sort` on `String`s. Its documentation promises a
/// permutation in non-decreasing order, and strings are ordered by their
/// bytes, which for UTF-8 is code-point order.
#[verifier::external_body]
fn sort_strings(v: &mut Vec<String>)
    ensures
        views(final(v)@).to_multiset() == views(old(v)@).to_multiset(),
        strings_sorted(views(final(v)@)),
{
    v.sort();
}

/// The paths without consecutive repeats (a path equal to the last one kept
/// is dropped), as `Vec::dedup` leaves them.
pub open spec fn dedup_paths(s: Seq<Seq<char>>) -> Seq<Seq<char>>
    decreases s.len(),
{
    if s.len() == 0 {
        s
    } else {
        let d = dedup_paths(s.drop_last());
        if d.len() > 0 && same_path(s.last(), d.last()) {
            d
        } else {
            d.push(s.last())
        }
    }
}

/// Whether a path is one of `roots`, or lies inside one.
pub open spec fn covered_by(path: Seq<char>, roots: Seq<Seq<char>>) -> bool {
    exists|i: int| 0 <= i < roots.len() && (same_path(path, #[trigger] roots[i]) || path_has_prefix(path, roots[i]))
}

/// The paths that are not inside an earlier kept one, in order.
pub open spec fn keep_outermost(s: Seq<Seq<char>>) -> Seq<Seq<char>>
    decreases s.len(),
{
    if s.len() == 0 {
        s
    } else {
        let k = keep_outermost(s.drop_last());
        if covered_by(s.last(), k) {
            k
        } else {
            k.push(s.last())
        }
    }
}

/// The upload roots of dropped paths, given the paths in sorted order.
pub open spec fn roots_of_sorted(sorted: Seq<Seq<char>>) -> Seq<Seq<char>> {
    keep_outermost(dedup_paths(sorted))
}

/// Copies of the strings.
fn clone_strings(v: &[String]) -> (r: Vec<String>)
    ensures
        views(r@) == views(v@),
{
    let mut r: Vec<String> = Vec::new();
    let mut i: usize = 0;
    while i < v.len()
        invariant
            i <= v@.len(),
            views(r@) == views(v@).take(i as int),
        decreases v@.len() - i,
    {
        let ghost before = views(r@);
        r.push(v[i].clone());
        assert(views(r@) =~= before.push(v@[i as int]@));
        assert(views(v@).take(i as int + 1) =~= views(v@).take(i as int).push(v@[i as int]@));
        i = i + 1;
    }
    assert(views(v@).take(v@.len() as int) =~= views(v@));
    r
}

/// The dropped paths to upload, in path order: each once, and none that
/// lies inside another dropped folder (that one uploads it already).
pub fn upload_roots(paths: &[String]) -> (r: Vec<String>)
    ensures
        exists|sorted: Seq<Seq<char>>| #![trigger roots_of_sorted(sorted)]
            strings_sorted(sorted) && sorted.to_multiset() == views(paths@).to_multiset() && views(r@)
                == roots_of_sorted(sorted),
{
    let mut sorted = clone_strings(paths);
    sort_strings(&mut sorted);
    let ghost sv = views(sorted@);
    let mut deduped: Vec<String> = Vec::new();
    let mut i: usize = 0;
    while i < sorted.len()
        invariant
            i <= sorted@.len(),
            sv == views(sorted@),
            views(deduped@) == dedup_paths(sv.take(i as int)),
        decreases sorted@.len() - i,
    {
        assert(sv.take(i as int + 1).drop_last() =~= sv.take(i as int));
        assert(sv.take(i as int + 1).last() == sorted@[i as int]@);
        let n = deduped.len();
        if n > 0 && paths_equal(sorted[i].as_str(), deduped[n - 1].as_str()) {
        } else {
            deduped.push(sorted[i].clone());
            assert(views(deduped@) =~= dedup_paths(sv.take(i as int)).push(sorted@[i as int]@));
        }
        i = i + 1;
    }
    assert(sv.take(sv.len() as int) =~= sv);
    let ghost dv = views(deduped@);
    let mut kept: Vec<String> = Vec::new();
    let mut j: usize = 0;
    while j < deduped.len()
        invariant
            j <= deduped@.len(),
            dv == views(deduped@),
            views(kept@) == keep_outermost(dv.take(j as int)),
        decreases deduped@.len() - j,
    {
        assert(dv.take(j as int + 1).drop_last() =~= dv.take(j as int));
        assert(dv.take(j as int + 1).last() == deduped@[j as int]@);
        let path = deduped[j].as_str();
        let mut covered = false;
        let mut k: usize = 0;
        while k < kept.len()
            invariant
                k <= kept@.len(),
                path@ == deduped@[j as int]@,
                covered == exists|m: int| 0 <= m < k && (same_path(path@, #[trigger] views(kept@)[m]) || path_has_prefix(path@, views(kept@)[m])),
            decreases kept@.len() - k,
        {
            let parent = kept[k].as_str();
            if paths_equal(path, parent) || has_path_prefix(path, parent) {
                assert(views(kept@)[k as int] == parent@);
                covered = true;
            }
            k = k + 1;
        }
        if !covered {
            let ghost before = views(kept@);
            kept.push(deduped[j].clone());
            assert(views(kept@) =~= before.push(deduped@[j as int]@));
        }
        j = j + 1;
    }
    assert(dv.take(dv.len() as int) =~= dv);
    assert(strings_sorted(sv) && sv.to_multiset() == views(paths@).to_multiset() && views(kept@) == roots_of_sorted(sv));
    kept
}

/// The remote name of a dropped path: its last component, unless that is
/// empty, `.` or `..`; otherwise the error names the path.
pub open spec fn spec_local_file_name(path: Seq<char>) -> Result<Seq<char>, Seq<char>> {
    match path_file_name(path) {
        Some(name) => if name.len() > 0 && name != "."@ && name != ".."@ {
            Ok(name)
        } else {
            Err("无法读取本地条目名称："@ + path)
        },
        None => Err("无法读取本地条目名称："@ + path),
    }
}

/// The remote name of a dropped path.
pub fn local_file_name(path: &str) -> (r: Result<String, String>)
    ensures
        match (r, spec_local_file_name(path@)) {
            (Ok(name), Ok(expected)) => name@ == expected,
            (Err(message), Err(expected)) => message@ == expected,
            _ => false,
        },
{
    match file_name_of(path) {
        Some(name) => {
            if name.unicode_len() > 0 && !str_eq(name.as_str(), ".") && !str_eq(name.as_str(), "..") {
                return Ok(name);
            }
        },
        None => {},
    }
    let mut message = owned("无法读取本地条目名称：");
    message.append(path);
    Err(message)
}

/// A dropped path that will be uploaded, and whether it is a folder.
#[derive(Clone, Debug, PartialEq, Eq)]
pub struct UploadRoot {
    pub path: String,
    pub is_dir: bool,
}

/// What has to be confirmed before an upload: the remote names it would
/// replace, and whether every file needs confirmation (a folder is dropped).
#[derive(Clone, Debug, PartialEq, Eq)]
pub struct UploadPlan {
    pub conflicts: Vec<String>,
    pub confirm_all_files: bool,
}

/// The first remote entry with the name, if any.
pub open spec fn first_named(entries: Seq<SftpEntry>, name: Seq<char>) -> Option<int>
    decreases entries.len(),
{
    if entries.len() == 0 {
        None
    } else if entries[0].name@ == name {
        Some(0)
    } else {
        match first_named(entries.drop_first(), name) {
            Some(i) => Some(i + 1),
            None => None,
        }
    }
}

/// The scan of the roots before the last: the remote names so far, the
/// conflicts so far and whether a folder was seen; or the first error.
pub open spec fn scan_roots(roots: Seq<UploadRoot>, remote: Seq<SftpEntry>) -> Result<(Seq<Seq<char>>, Seq<Seq<char>>, bool), Seq<char>>
    decreases roots.len(),
{
    if roots.len() == 0 {
        Ok((Seq::empty(), Seq::empty(), false))
    } else {
        match scan_roots(roots.drop_last(), remote) {
            Err(e) => Err(e),
            Ok((names, conflicts, any_dir)) => {
                let root = roots.last();
                match spec_local_file_name(root.path@) {
                    Err(e) => Err(e),
                    Ok(name) => if names.contains(name) {
                        Err("多个本地条目将上传到同一个远端名称："@ + name)
                    } else {
                        match first_named(remote, name) {
                            Some(i) => if remote[i].is_dir != root.is_dir {
                                Err("本地条目 "@ + name + " 与远端同名条目类型不同，无法合并"@)
                            } else {
                                Ok((names.push(name), conflicts.push(name), any_dir || root.is_dir))
                            },
                            None => Ok((names.push(name), conflicts, any_dir || root.is_dir)),
                        }
                    },
                }
            },
        }
    }
}

/// The confirmation an upload of the roots needs against the remote folder's
/// entries: names dropped twice, or a file replacing a folder (or the other
/// way round), are errors; a root replacing an entry of its kind is a
/// conflict; and when a folder is dropped without conflicts, every root is
/// listed for confirmation.
pub open spec fn spec_upload_plan(roots: Seq<UploadRoot>, remote: Seq<SftpEntry>) -> Result<(Seq<Seq<char>>, bool), Seq<char>> {
    match scan_roots(roots, remote) {
        Err(e) => Err(e),
        Ok((names, conflicts, any_dir)) => if any_dir && conflicts.len() == 0 {
            Ok((names, true))
        } else {
            Ok((conflicts, any_dir))
        },
    }
}

/// The remote name of a root: its last path component (empty when it has
/// none, which makes the plan fail).
pub open spec fn root_name(root: UploadRoot) -> Seq<char> {
    match spec_local_file_name(root.path@) {
        Ok(name) => name,
        Err(_) => Seq::empty(),
    }
}

/// The remote names of the roots, in order.
pub open spec fn root_names(roots: Seq<UploadRoot>) -> Seq<Seq<char>> {
    roots.map_values(|r: UploadRoot| root_name(r))
}

/// Whether some remote entry has the name.
pub open spec fn named_remotely(remote: Seq<SftpEntry>, name: Seq<char>) -> bool {
    first_named(remote, name) is Some
}

proof fn lemma_scan_roots_ok(roots: Seq<UploadRoot>, remote: Seq<SftpEntry>)
    requires
        scan_roots(roots, remote) is Ok,
    ensures
        match scan_roots(roots, remote) {
            Ok((names, conflicts, any_dir)) => {
                &&& names == root_names(roots)
                &&& conflicts == root_names(roots).filter(|n: Seq<char>| named_remotely(remote, n))
                &&& any_dir == exists|i: int| 0 <= i < roots.len() && #[trigger] roots[i].is_dir
            },
            Err(_) => false,
        },
        forall|i: int| 0 <= i < roots.len() ==> spec_local_file_name(#[trigger] roots[i].path@) is Ok,
        forall|i: int|
            0 <= i < roots.len() ==> match first_named(remote, #[trigger] root_names(roots)[i]) {
                Some(j) => remote[j].is_dir == roots[i].is_dir,
                None => true,
            },
        forall|i: int, j: int| 0 <= i < j < roots.len() ==> #[trigger] root_names(roots)[i] != #[trigger] root_names(roots)[j],
    decreases roots.len(),
{
    if roots.len() > 0 {
        let pre = roots.drop_last();
        let root = roots.last();
        let keep = |n: Seq<char>| named_remotely(remote, n);
        assert(scan_roots(pre, remote) is Ok);
        lemma_scan_roots_ok(pre, remote);
        let names = root_names(roots);
        assert(names.drop_last() =~= root_names(pre));
        assert(names.last() == root_name(root));
        reveal(Seq::filter);
        assert(names.filter(keep) == if keep(names.last()) {
            names.drop_last().filter(keep).push(names.last())
        } else {
            names.drop_last().filter(keep)
        });
        let prev_names = root_names(pre);
        let name = root_name(root);
        assert(!prev_names.contains(name));
        assert(names =~= prev_names.push(name));
        assert forall|i: int| 0 <= i < roots.len() implies spec_local_file_name(#[trigger] roots[i].path@) is Ok by {
            if i < roots.len() - 1 {
                assert(roots[i] == pre[i]);
            }
        }
        assert forall|i: int|
            0 <= i < roots.len() implies match first_named(remote, #[trigger] root_names(roots)[i]) {
                Some(j) => remote[j].is_dir == roots[i].is_dir,
                None => true,
            } by {
            if i < roots.len() - 1 {
                assert(roots[i] == pre[i]);
                assert(root_names(roots)[i] == prev_names[i]);
            }
        }
        assert forall|i: int, j: int| 0 <= i < j < roots.len() implies #[trigger] root_names(roots)[i]
            != #[trigger] root_names(roots)[j] by {
            assert(root_names(roots)[i] == prev_names[i]);
            if j < roots.len() - 1 {
                assert(root_names(roots)[j] == prev_names[j]);
            } else {
                assert(prev_names[i] == prev_names[i]);
            }
        }
        match scan_roots(pre, remote) {
            Ok((_, _, prev_dir)) => {
                if root.is_dir {
                    assert(roots[roots.len() - 1].is_dir);
                }
                if prev_dir {
                    let i = choose|i: int| 0 <= i < pre.len() && #[trigger] pre[i].is_dir;
                    assert(roots[i] == pre[i]);
                }
                if exists|i: int| 0 <= i < roots.len() && #[trigger] roots[i].is_dir {
                    let i = choose|i: int| 0 <= i < roots.len() && #[trigger] roots[i].is_dir;
                    if i < roots.len() - 1 {
                        assert(pre[i] == roots[i]);
                    }
                }
            },
            Err(_) => {},
        }
    } else {
        assert(root_names(roots) =~= Seq::<Seq<char>>::empty());
        reveal(Seq::filter);
        assert(root_names(roots).filter(|n: Seq<char>| named_remotely(remote, n)) =~= Seq::<Seq<char>>::empty());
    }
}

/// What a successful plan holds, in terms of the roots and the remote
/// listing: every root has a name, no two roots share one, a root whose name
/// is taken remotely is of the same kind as that entry, and the conflicts
/// are exactly the taken names, in root order; all files need confirming
/// exactly when a folder is among the roots, and when no name is taken the
/// confirmation lists every root's name instead.
pub proof fn law_upload_plan_lists_every_conflict(roots: Seq<UploadRoot>, remote: Seq<SftpEntry>)
    requires
        spec_upload_plan(roots, remote) is Ok,
    ensures
        forall|i: int| 0 <= i < roots.len() ==> spec_local_file_name(#[trigger] roots[i].path@) is Ok,
        forall|i: int, j: int| 0 <= i < j < roots.len() ==> #[trigger] root_names(roots)[i] != #[trigger] root_names(roots)[j],
        forall|i: int|
            0 <= i < roots.len() ==> match first_named(remote, #[trigger] root_names(roots)[i]) {
                Some(j) => remote[j].is_dir == roots[i].is_dir,
                None => true,
            },
        ({
            let taken = root_names(roots).filter(|n: Seq<char>| named_remotely(remote, n));
            let any_dir = exists|i: int| 0 <= i < roots.len() && #[trigger] roots[i].is_dir;
            spec_upload_plan(roots, remote) == if any_dir && taken.len() == 0 {
                Ok::<(Seq<Seq<char>>, bool), Seq<char>>((root_names(roots), true))
            } else {
                Ok((taken, any_dir))
            }
        }),
{
    lemma_scan_roots_ok(roots, remote);
}

/// The first remote entry named `name`.
fn find_remote(entries: &[SftpEntry], name: &str) -> (r: Option<usize>)
    ensures
        match (r, first_named(entries@, name@)) {
            (Some(i), Some(j)) => i == j && i < entries@.len(),
            (None, None) => true,
            _ => false,
        },
{
    let mut i: usize = 0;
    assert(entries@.skip(0) =~= entries@);
    while i < entries.len()
        invariant
            i <= entries@.len(),
            first_named(entries@, name@) == match first_named(entries@.skip(i as int), name@) {
                Some(k) => Some(k + i),
                None => None::<int>,
            },
        decreases entries@.len() - i,
    {
        assert(entries@.skip(i as int)[0] == entries@[i as int]);
        if str_eq(entries[i].name.as_str(), name) {
            return Some(i);
        }
        assert(entries@.skip(i as int).drop_first() =~= entries@.skip(i as int + 1));
        i = i + 1;
    }
    None
}

/// Whether `name` is among `names`.
fn contains_name(names: &Vec<String>, name: &str) -> (r: bool)
    ensures
        r == views(names@).contains(name@),
{
    let mut i: usize = 0;
    while i < names.len()
        invariant
            i <= names@.len(),
            forall|j: int| 0 <= j < i ==> names@[j]@ != name@,
        decreases names@.len() - i,
    {
        if str_eq(names[i].as_str(), name) {
            assert(views(names@)[i as int] == name@);
            return true;
        }
        i = i + 1;
    }
    proof {
        if views(names@).contains(name@) {
            let j = choose|j: int| 0 <= j < views(names@).len() && views(names@)[j] == name@;
            assert(names@[j]@ == name@);
        }
    }
    false
}

/// What an upload of the roots needs confirmed, or why it cannot start.
pub fn upload_plan(roots: &[UploadRoot], remote_entries: &[SftpEntry]) -> (r: Result<UploadPlan, String>)
    ensures
        match (r, spec_upload_plan(roots@, remote_entries@)) {
            (Ok(plan), Ok((conflicts, confirm_all))) => views(plan.conflicts@) == conflicts && plan.confirm_all_files
                == confirm_all,
            (Err(message), Err(expected)) => message@ == expected,
            _ => false,
        },
{
    let mut names: Vec<String> = Vec::new();
    let mut conflicts: Vec<String> = Vec::new();
    let mut any_dir = false;
    let mut i: usize = 0;
    assert(roots@.take(0) =~= Seq::<UploadRoot>::empty());
    assert(views(names@) =~= Seq::<Seq<char>>::empty());
    assert(views(conflicts@) =~= Seq::<Seq<char>>::empty());
    while i < roots.len()
        invariant
            i <= roots@.len(),
            scan_roots(roots@.take(i as int), remote_entries@) == Ok::<(Seq<Seq<char>>, Seq<Seq<char>>, bool), Seq<char>>(
                (views(names@), views(conflicts@), any_dir),
            ),
        decreases roots@.len() - i,
    {
        assert(roots@.take(i as int + 1).drop_last() =~= roots@.take(i as int));
        assert(roots@.take(i as int + 1).last() == roots@[i as int]);
        let root = &roots[i];
        let name = match local_file_name(root.path.as_str()) {
            Ok(name) => name,
            Err(message) => {
                proof {
                    lemma_scan_error_persists(roots@, remote_entries@, i as int + 1);
                }
                return Err(message);
            },
        };
        if contains_name(&names, name.as_str()) {
            let mut message = owned("多个本地条目将上传到同一个远端名称：");
            message.append(name.as_str());
            proof {
                lemma_scan_error_persists(roots@, remote_entries@, i as int + 1);
            }
            return Err(message);
        }
        if root.is_dir {
            any_dir = true;
        }
        match find_remote(remote_entries, name.as_str()) {
            Some(k) => {
                if remote_entries[k].is_dir != root.is_dir {
                    let mut message = owned("本地条目 ");
                    message.append(name.as_str());
                    message.append(" 与远端同名条目类型不同，无法合并");
                    proof {
                        lemma_scan_error_persists(roots@, remote_entries@, i as int + 1);
                    }
                    return Err(message);
                }
                let ghost before = views(conflicts@);
                conflicts.push(name.clone());
                assert(views(conflicts@) =~= before.push(name@));
            },
            None => {},
        }
        let ghost before_names = views(names@);
        names.push(name);
        assert(views(names@) =~= before_names.push(views(names@).last()));
        i = i + 1;
    }
    assert(roots@.take(roots@.len() as int) =~= roots@);
    if any_dir && conflicts.len() == 0 {
        Ok(UploadPlan { conflicts: names, confirm_all_files: true })
    } else {
        Ok(UploadPlan { conflicts, confirm_all_files: any_dir })
    }
}

/// Once the scan of a prefix of the roots fails, the scan of all of them
/// fails with the same error.
proof fn lemma_scan_error_persists(roots: Seq<UploadRoot>, remote: Seq<SftpEntry>, n: int)
    requires
        0 <= n <= roots.len(),
        scan_roots(roots.take(n), remote) is Err,
    ensures
        scan_roots(roots, remote) == scan_roots(roots.take(n), remote),
    decreases roots.len() - n,
{
    if n == roots.len() {
        assert(roots.take(n) =~= roots);
    } else {
        assert(roots.take(n + 1).drop_last() =~= roots.take(n));
        lemma_scan_error_persists(roots, remote, n + 1);
    }
}

/// The remote files an upload may overwrite: none without the user's
/// consent; with it, every file of the batch when a folder was dropped, or
/// else the conflicting names inside the target folder.
pub open spec fn spec_overwrite_paths(
    entries: Seq<SftpBatchEntry>,
    conflicts: Seq<Seq<char>>,
    target_dir: Seq<char>,
    overwrite: bool,
    confirm_all_files: bool,
) -> Seq<Seq<char>> {
    if overwrite && confirm_all_files {
        entries.filter(|e: SftpBatchEntry| !e.is_dir).map_values(|e: SftpBatchEntry| e.remote@)
    } else if overwrite {
        conflicts.map_values(|name: Seq<char>| spec_join_path(target_dir, name))
    } else {
        Seq::empty()
    }
}

/// The remote files an upload may overwrite.
pub fn overwrite_paths(
    entries: &[SftpBatchEntry],
    conflicts: &[String],
    target_dir: &str,
    overwrite: bool,
    confirm_all_files: bool,
) -> (r: Vec<String>)
    ensures
        views(r@) == spec_overwrite_paths(entries@, views(conflicts@), target_dir@, overwrite, confirm_all_files),
{
    let mut out: Vec<String> = Vec::new();
    if overwrite && confirm_all_files {
        let mut i: usize = 0;
        while i < entries.len()
            invariant
                i <= entries@.len(),
                views(out@) == entries@.take(i as int).filter(|e: SftpBatchEntry| !e.is_dir).map_values(
                    |e: SftpBatchEntry| e.remote@,
                ),
            decreases entries@.len() - i,
        {
            let ghost before = views(out@);
            assert(entries@.take(i as int + 1).drop_last() =~= entries@.take(i as int));
            reveal(Seq::filter);
            if !entries[i].is_dir {
                out.push(entries[i].remote.clone());
                assert(views(out@) =~= before.push(entries@[i as int].remote@));
            }
            assert(views(out@) =~= entries@.take(i as int + 1).filter(|e: SftpBatchEntry| !e.is_dir).map_values(
                |e: SftpBatchEntry| e.remote@,
            ));
            i = i + 1;
        }
        assert(entries@.take(entries@.len() as int) =~= entries@);
    } else if overwrite {
        let mut i: usize = 0;
        while i < conflicts.len()
            invariant
                i <= conflicts@.len(),
                views(out@) == views(conflicts@).take(i as int).map_values(|name: Seq<char>| spec_join_path(target_dir@, name)),
            decreases conflicts@.len() - i,
        {
            let ghost before = views(out@);
            out.push(join_path(target_dir, conflicts[i].as_str()));
            assert(views(out@) =~= before.push(spec_join_path(target_dir@, conflicts@[i as int]@)));
            assert(views(conflicts@).take(i as int + 1) =~= views(conflicts@).take(i as int).push(conflicts@[i as int]@));
            assert(views(out@) =~= views(conflicts@).take(i as int + 1).map_values(
                |name: Seq<char>| spec_join_path(target_dir@, name),
            ));
            i = i + 1;
        }
        assert(views(conflicts@).take(conflicts@.len() as int) =~= views(conflicts@));
    }
    out
}

/// What a local path is, as its metadata (links not followed) says.
#[derive(Clone, Copy, Debug, PartialEq, Eq, Structural)]
pub enum LocalEntryKind {
    Symlink,
    Directory,
    File,
    Special,
}

/// The batch item for a local path of the given kind that goes to `remote`:
/// a folder or a regular file is uploaded (a folder's children follow it);
/// a symbolic link or a special file is refused, the message naming it.
pub open spec fn spec_upload_entry(local: Seq<char>, remote: Seq<char>, kind: LocalEntryKind) -> Result<
    (Seq<char>, Seq<char>, bool),
    Seq<char>,
> {
    match kind {
        LocalEntryKind::Symlink => Err("不支持上传符号链接："@ + local),
        LocalEntryKind::Directory => Ok((local, remote, true)),
        LocalEntryKind::File => Ok((local, remote, false)),
        LocalEntryKind::Special => Err("不支持上传特殊文件："@ + local),
    }
}

/// The batch item for a local path of the given kind.
pub fn upload_entry(local: &str, remote: &str, kind: LocalEntryKind) -> (r: Result<SftpBatchEntry, String>)
    ensures
        match (r, spec_upload_entry(local@, remote@, kind)) {
            (Ok(e), Ok(expected)) => (e.local@, e.remote@, e.is_dir) == expected,
            (Err(message), Err(expected)) => message@ == expected,
            _ => false,
        },
{
    match kind {
        LocalEntryKind::Symlink => {
            let mut message = owned("不支持上传符号链接：");
            message.append(local);
            Err(message)
        },
        LocalEntryKind::Directory => Ok(SftpBatchEntry { local: owned(local), remote: owned(remote), is_dir: true }),
        LocalEntryKind::File => Ok(SftpBatchEntry { local: owned(local), remote: owned(remote), is_dir: false }),
        LocalEntryKind::Special => {
            let mut message = owned("不支持上传特殊文件：");
            message.append(local);
            Err(message)
        },
    }
}

/// Where a child of an uploaded folder goes: inside the folder's remote
/// path, under the child's own name.
pub open spec fn spec_child_remote(remote_dir: Seq<char>, child: Seq<char>) -> Result<Seq<char>, Seq<char>> {
    match spec_local_file_name(child) {
        Ok(name) => Ok(spec_join_path(remote_dir, name)),
        Err(message) => Err(message),
    }
}

/// Where a child of an uploaded folder goes.
pub fn child_remote_path(remote_dir: &str, child: &str) -> (r: Result<String, String>)
    ensures
        match (r, spec_child_remote(remote_dir@, child@)) {
            (Ok(path), Ok(expected)) => path@ == expected,
            (Err(message), Err(expected)) => message@ == expected,
            _ => false,
        },
{
    match local_file_name(child) {
        Ok(name) => Ok(join_path(remote_dir, name.as_str())),
        Err(message) => Err(message),
    }
}

/// The children of an uploaded folder in the order they are uploaded: by
/// their path text (code-point order), none lost or repeated.
pub fn upload_child_order(children: Vec<String>) -> (r: Vec<String>)
    ensures
        views(r@).to_multiset() == views(children@).to_multiset(),
        strings_sorted(views(r@)),
{
    let mut ordered = children;
    sort_strings(&mut ordered);
    ordered
}

/// The items of each batch, one batch after another.
pub open spec fn batch_items(batches: Seq<Vec<SftpBatchEntry>>) -> Seq<SftpBatchEntry> {
    batches.map_values(|b: Vec<SftpBatchEntry>| b@).flatten()
}

/// The batch of an uploaded folder: the folder itself first (so it exists
/// remotely before anything is put into it), then the batches of its
/// children, in the order given.
pub fn folder_batch(local: &str, remote: &str, children: Vec<Vec<SftpBatchEntry>>) -> (r: Vec<SftpBatchEntry>)
    ensures
        r@.len() == 1 + batch_items(children@).len(),
        r@[0].local@ == local@ && r@[0].remote@ == remote@ && r@[0].is_dir,
        r@.drop_first() == batch_items(children@),
{
    let folder = SftpBatchEntry { local: owned(local), remote: owned(remote), is_dir: true };
    let ghost first = folder;
    let ghost all = children@;
    assert(all.len() == children.len());
    let mut out: Vec<SftpBatchEntry> = Vec::new();
    out.push(folder);
    let mut rest = children;
    let mut k: usize = 0;
    assert(all.take(0).map_values(|b: Vec<SftpBatchEntry>| b@).flatten() =~= Seq::<SftpBatchEntry>::empty());
    assert(all.skip(0) =~= all);
    while rest.len() > 0
        invariant
            k <= all.len(),
            all.len() <= usize::MAX,
            rest@ == all.skip(k as int),
            out@ == seq![first] + batch_items(all.take(k as int)),
        decreases rest@.len(),
    {
        let mut batch = rest.remove(0);
        proof {
            assert(batch == all[k as int]);
            assert(all.take(k as int + 1) =~= all.take(k as int).push(batch));
            assert(all.take(k as int + 1).map_values(|b: Vec<SftpBatchEntry>| b@) =~= all.take(k as int).map_values(
                |b: Vec<SftpBatchEntry>| b@,
            ).push(batch@));
            all.take(k as int).map_values(|b: Vec<SftpBatchEntry>| b@).lemma_flatten_push(batch@);
            assert(all.skip(k as int).remove(0) =~= all.skip(k as int + 1));
        }
        out.append(&mut batch);
        assert(out@ =~= seq![first] + batch_items(all.take(k as int + 1)));
        k = k + 1;
    }
    assert(all.take(k as int) =~= all);
    assert(out@.drop_first() =~= batch_items(all));
    out
}

} // verus!
