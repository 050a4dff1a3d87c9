//! Reconciliation of the local tree with a crawl: which local files the
//! crawl no longer accounts for, and which directories are left empty.
//!
//! Paths here are relative to the local root, without a leading slash,
//! as `plan::relative_of` gives them for crawled rows.

use vstd::prelude::*;

use crate::paths::{extension, extension_of, lemma_extension_len, strm_path, trim_leading_slashes, with_strm_extension};
use crate::paths::local_join;
use crate::plan::{lemma_trim_len, mirror_plan_fits, relative_of, ItemPlan};
use crate::text::{contains_text, texts};
use crate::types::{is_streamable_file, streamable_extensions, EntryWithPath};

verus! {

/// The local path that a crawled row accounts for: none for a directory,
/// the placeholder's path for a streamable file, its own path otherwise.
pub open spec fn expected_of(item: EntryWithPath) -> Option<Seq<char>> {
    let rel = relative_of(item);
    if item.entry.is_dir {
        None
    } else {
        match extension_of(rel) {
            Some(e) => if streamable_extensions().contains(e) {
                Some(strm_path(rel, e))
            } else {
                Some(rel)
            },
            None => Some(rel),
        }
    }
}

/// The local paths that the rows `items` account for, in order.
pub open spec fn expected_paths(items: Seq<EntryWithPath>) -> Seq<Seq<char>>
    decreases items.len(),
{
    if items.len() == 0 {
        Seq::empty()
    } else {
        let rest = expected_paths(items.drop_last());
        match expected_of(items.last()) {
            Some(p) => rest.push(p),
            None => rest,
        }
    }
}

/// The local path that `item` accounts for (see `expected_of`).
pub fn expected_local_path(item: &EntryWithPath) -> (r: Option<String>)
    requires
        item.path_str@.len() < i64::MAX,
    ensures
        r matches Some(p) ==> expected_of(*item) == Some(p@),
        r is None ==> expected_of(*item) is None,
{
    if item.entry.is_dir {
        return None;
    }
    let rel = trim_leading_slashes(item.path_str.as_str());
    proof {
        lemma_trim_len(item.path_str@);
    }
    match extension(rel.as_str()) {
        Some(e) => {
            proof {
                lemma_extension_len(rel@);
            }
            if is_streamable_file(e.as_str()) {
                Some(with_strm_extension(rel.as_str(), e.as_str()))
            } else {
                Some(rel)
            }
        },
        None => Some(rel),
    }
}

/// The local paths that the crawl result `items` accounts for.
pub fn expected_local_paths(items: &Vec<EntryWithPath>) -> (r: Vec<String>)
    requires
        forall|i: int| 0 <= i < items@.len() ==> (#[trigger] items@[i]).path_str@.len() < i64::MAX,
    ensures
        texts(r@) == expected_paths(items@),
{
    let mut r: Vec<String> = Vec::new();
    let mut i: usize = 0;
    while i < items.len()
        invariant
            i <= items@.len(),
            forall|j: int| 0 <= j < items@.len() ==> (#[trigger] items@[j]).path_str@.len() < i64::MAX,
            texts(r@) == expected_paths(items@.take(i as int)),
        decreases items@.len() - i,
    {
        proof {
            assert(items@.take(i + 1).drop_last() =~= items@.take(i as int));
        }
        let ghost before = r@;
        match expected_local_path(&items[i]) {
            Some(p) => {
                r.push(p);
                proof {
                    assert(texts(r@) =~= texts(before).push(r@.last()@));
                }
            },
            None => {},
        }
        i = i + 1;
    }
    proof {
        assert(items@.take(i as int) =~= items@);
    }
    r
}

/// The files among `local` that `expected` does not hold, in order.
pub open spec fn unaccounted(local: Seq<Seq<char>>, expected: Seq<Seq<char>>) -> Seq<Seq<char>>
    decreases local.len(),
{
    if local.len() == 0 {
        Seq::empty()
    } else {
        let rest = unaccounted(local.drop_last(), expected);
        if expected.contains(local.last()) {
            rest
        } else {
            rest.push(local.last())
        }
    }
}

/// The files among the local files `local` that the crawl does not account
/// for: the ones to remove.
pub fn removable_files(local: &Vec<String>, expected: &Vec<String>) -> (r: Vec<String>)
    ensures
        texts(r@) == unaccounted(texts(local@), texts(expected@)),
{
    let mut r: Vec<String> = Vec::new();
    let mut i: usize = 0;
    while i < local.len()
        invariant
            i <= local@.len(),
            texts(r@) == unaccounted(texts(local@).take(i as int), texts(expected@)),
        decreases local@.len() - i,
    {
        proof {
            assert(texts(local@).take(i + 1).drop_last() =~= texts(local@).take(i as int));
        }
        let ghost before = r@;
        if !contains_text(expected, local[i].as_str()) {
            r.push(local[i].clone());
            proof {
                assert(texts(r@) =~= texts(before).push(local@[i as int]@));
            }
        }
        i = i + 1;
    }
    proof {
        assert(texts(local@).take(i as int) =~= texts(local@));
    }
    r
}

/// Whether the file `f` lies inside the directory `d`; every file lies
/// inside the root, whose relative path is empty.
pub open spec fn inside(f: Seq<char>, d: Seq<char>) -> bool {
    d.len() == 0 || (d + seq!['/']).is_prefix_of(f)
}

/// Whether some file of `files` lies inside `d`.
pub open spec fn holds_file(d: Seq<char>, files: Seq<Seq<char>>) -> bool {
    exists|i: int| 0 <= i < files.len() && inside(#[trigger] files[i], d)
}

/// The directories among `dirs` that hold none of `files`, in order.
pub open spec fn empty_dirs(dirs: Seq<Seq<char>>, files: Seq<Seq<char>>) -> Seq<Seq<char>>
    decreases dirs.len(),
{
    if dirs.len() == 0 {
        Seq::empty()
    } else {
        let rest = empty_dirs(dirs.drop_last(), files);
        if holds_file(dirs.last(), files) {
            rest
        } else {
            rest.push(dirs.last())
        }
    }
}

/// Whether the text `f` lies inside the directory `d` (see `inside`).
fn is_inside(f: &str, d: &str) -> (r: bool)
    ensures
        r == inside(f@, d@),
{
    let n = d.unicode_len();
    if n == 0 {
        return true;
    }
    let m = f.unicode_len();
    if m <= n {
        return false;
    }
    if f.get_char(n) != '/' {
        proof {
            assert((d@ + seq!['/'])[n as int] == '/');
        }
        return false;
    }
    let mut i: usize = 0;
    while i < n
        invariant
            n == d@.len(),
            m == f@.len(),
            n < m,
            i <= n,
            forall|j: int| 0 <= j < i ==> f@[j] == d@[j],
        decreases n - i,
    {
        if f.get_char(i) != d.get_char(i) {
            proof {
                assert((d@ + seq!['/'])[i as int] == d@[i as int]);
            }
            return false;
        }
        i = i + 1;
    }
    proof {
        assert forall|j: int| 0 <= j < n + 1 implies (d@ + seq!['/'])[j] == f@[j] by {
            if j < n {
                assert((d@ + seq!['/'])[j] == d@[j]);
            }
        }
    }
    true
}

/// The directories among `dirs` that hold none of the files `remaining`:
/// the ones left empty, to remove.  Given the directories of a walk that
/// lists contents first, the result keeps that order, so that each
/// directory comes after the directories inside it.
pub fn prunable_dirs(dirs: &Vec<String>, remaining: &Vec<String>) -> (r: Vec<String>)
    ensures
        texts(r@) == empty_dirs(texts(dirs@), texts(remaining@)),
{
    let mut r: Vec<String> = Vec::new();
    let mut i: usize = 0;
    while i < dirs.len()
        invariant
            i <= dirs@.len(),
            texts(r@) == empty_dirs(texts(dirs@).take(i as int), texts(remaining@)),
        decreases dirs@.len() - i,
    {
        proof {
            assert(texts(dirs@).take(i + 1).drop_last() =~= texts(dirs@).take(i as int));
        }
        let d = dirs[i].as_str();
        let mut found = false;
        let mut k: usize = 0;
        while k < remaining.len()
            invariant
                k <= remaining@.len(),
                found == (exists|j: int| 0 <= j < k && inside(#[trigger] texts(remaining@)[j], d@)),
            decreases remaining@.len() - k,
        {
            let hit = is_inside(remaining[k].as_str(), d);
            proof {
                let t = texts(remaining@);
                assert(t[k as int] == remaining@[k as int]@);
                if !hit && !found {
                    assert forall|j: int| 0 <= j < k + 1 implies !inside(#[trigger] t[j], d@) by {}
                }
            }
            if hit {
                found = true;
            }
            k = k + 1;
        }
        let ghost before = r@;
        if !found {
            r.push(dirs[i].clone());
            proof {
                assert(texts(r@) =~= texts(before).push(dirs@[i as int]@));
            }
        }
        i = i + 1;
    }
    proof {
        assert(texts(dirs@).take(i as int) =~= texts(dirs@));
    }
    r
}

/// Reconciliation removes exactly the local files that the crawl does not
/// account for: a file is removable if and only if it is a local file and
/// no crawled row accounts for it.
pub proof fn lemma_removable_iff_unaccounted(
    local: Seq<Seq<char>>,
    expected: Seq<Seq<char>>,
    f: Seq<char>,
)
    ensures
        unaccounted(local, expected).contains(f) <==> (local.contains(f) && !expected.contains(f)),
    decreases local.len(),
{
    if local.len() > 0 {
        let init = local.drop_last();
        lemma_removable_iff_unaccounted(init, expected, f);
        let rest = unaccounted(init, expected);
        if local.contains(f) && f != local.last() {
            let k = choose|k: int| 0 <= k < local.len() && local[k] == f;
            assert(init[k] == f);
        }
        if init.contains(f) {
            let k = choose|k: int| 0 <= k < init.len() && init[k] == f;
            assert(local[k] == f);
        }
        if !expected.contains(local.last()) {
            let r = rest.push(local.last());
            assert(r[rest.len() as int] == local.last());
            if rest.contains(f) {
                let k = choose|k: int| 0 <= k < rest.len() && rest[k] == f;
                assert(r[k] == f);
            }
            if r.contains(f) && f != local.last() {
                let k = choose|k: int| 0 <= k < r.len() && r[k] == f;
                assert(rest[k] == f);
            }
        }
        assert(local[local.len() - 1] == local.last());
    }
}

/// After the stale files are gone, a directory is removed if and only if it
/// is one of the walked directories and no remaining file lies inside it.
pub proof fn lemma_pruned_iff_empty(dirs: Seq<Seq<char>>, files: Seq<Seq<char>>, d: Seq<char>)
    ensures
        empty_dirs(dirs, files).contains(d) <==> (dirs.contains(d) && !holds_file(d, files)),
    decreases dirs.len(),
{
    if dirs.len() > 0 {
        let init = dirs.drop_last();
        lemma_pruned_iff_empty(init, files, d);
        let rest = empty_dirs(init, files);
        if dirs.contains(d) && d != dirs.last() {
            let k = choose|k: int| 0 <= k < dirs.len() && dirs[k] == d;
            assert(init[k] == d);
        }
        if init.contains(d) {
            let k = choose|k: int| 0 <= k < init.len() && init[k] == d;
            assert(dirs[k] == d);
        }
        if !holds_file(dirs.last(), files) {
            let r = rest.push(dirs.last());
            assert(r[rest.len() as int] == dirs.last());
            if rest.contains(d) {
                let k = choose|k: int| 0 <= k < rest.len() && rest[k] == d;
                assert(r[k] == d);
            }
            if r.contains(d) && d != dirs.last() {
                let k = choose|k: int| 0 <= k < r.len() && r[k] == d;
                assert(rest[k] == d);
            }
        }
        assert(dirs[dirs.len() - 1] == dirs.last());
    }
}

/// What a mirror writes for a row is what reconciliation expects of it:
/// the destination of a placeholder or of a metadata download is the row's
/// expected path under the root, so reconciliation keeps it.
pub proof fn lemma_mirror_output_is_expected(item: EntryWithPath, root: Seq<char>, plan: ItemPlan)
    requires
        mirror_plan_fits(item, root, plan),
    ensures
        plan matches ItemPlan::Placeholder { dest } ==> (expected_of(item) matches Some(p)
            && dest@ == local_join(root, p)),
        plan matches ItemPlan::Download { dest, .. } ==> (expected_of(item) matches Some(p)
            && dest@ == local_join(root, p)),
{
}

} // verus!
