//! Remote and local paths as text: joining, trimming, file names and
//! extensions.  A remote path is `/`-separated; its last component is the
//! file name.

use vstd::prelude::*;

verus! {

/// The path of the entry `name` inside the directory `parent`.
pub open spec fn child_path(parent: Seq<char>, name: Seq<char>) -> Seq<char> {
    parent + seq!['/'] + name
}

/// `s` without its leading slashes.
pub open spec fn trim_slashes(s: Seq<char>) -> Seq<char>
    decreases s.len(),
{
    if s.len() > 0 && s[0] == '/' {
        trim_slashes(s.drop_first())
    } else {
        s
    }
}

/// `rel` placed under the local directory `root`, with one separator
/// between them unless `root` is empty or already ends in one.
pub open spec fn local_join(root: Seq<char>, rel: Seq<char>) -> Seq<char> {
    if root.len() == 0 {
        rel
    } else if root.last() == '/' {
        root + rel
    } else {
        root + seq!['/'] + rel
    }
}

/// The index of the last `c` in `s`, or -1 if there is none.
pub open spec fn last_index_of(s: Seq<char>, c: char) -> int
    decreases s.len(),
{
    if s.len() == 0 {
        -1
    } else if s.last() == c {
        s.len() - 1
    } else {
        last_index_of(s.drop_last(), c)
    }
}

/// The last component of a path.
pub open spec fn file_name(path: Seq<char>) -> Seq<char> {
    path.subrange(last_index_of(path, '/') + 1, path.len() as int)
}

/// The extension of a path: what follows the last dot of its file name,
/// where that dot is not the name's first character, and the name is not
/// `..`.
pub open spec fn extension_of(path: Seq<char>) -> Option<Seq<char>> {
    let name = file_name(path);
    let d = last_index_of(name, '.');
    if name == ".."@ || d <= 0 {
        None
    } else {
        Some(name.subrange(d + 1, name.len() as int))
    }
}

/// `path` with its extension `ext` replaced by `strm`.
pub open spec fn strm_path(path: Seq<char>, ext: Seq<char>) -> Seq<char> {
    path.subrange(0, path.len() - ext.len()) + "strm"@
}

proof fn lemma_last_index_of(s: Seq<char>, c: char, k: int)
    requires
        -1 <= k < s.len(),
        k >= 0 ==> s[k] == c,
        forall|j: int| k < j < s.len() ==> s[j] != c,
    ensures
        last_index_of(s, c) == k,
    decreases s.len(),
{
    if s.len() > 0 && s.len() - 1 != k {
        lemma_last_index_of(s.drop_last(), c, k);
    }
}

proof fn lemma_last_index_bounds(s: Seq<char>, c: char)
    ensures
        -1 <= last_index_of(s, c) < s.len(),
        last_index_of(s, c) >= 0 ==> s[last_index_of(s, c)] == c,
    decreases s.len(),
{
    if s.len() > 0 && s.last() != c {
        lemma_last_index_bounds(s.drop_last(), c);
    }
}

/// The index of the last `c` in `s`, or -1.
fn find_last(s: &str, c: char) -> (r: i64)
    requires
        s@.len() < i64::MAX,
    ensures
        r == last_index_of(s@, c),
{
    let n = s.unicode_len();
    let mut i: usize = n;
    while i > 0
        invariant
            n == s@.len(),
            n < i64::MAX,
            i <= n,
            forall|j: int| i <= j < n ==> s@[j] != c,
        decreases i,
    {
        if s.get_char(i - 1) == c {
            proof {
                lemma_last_index_of(s@, c, i - 1);
            }
            return (i - 1) as i64;
        }
        i = i - 1;
    }
    proof {
        lemma_last_index_of(s@, c, -1);
    }
    -1
}

/// The path of the entry `name` inside the directory `parent`.
pub fn join_child(parent: &str, name: &str) -> (r: String)
    ensures
        r@ == child_path(parent@, name@),
{
    let mut r = parent.to_owned();
    r.append("/");
    r.append(name);
    proof {
        reveal_strlit("/");
        assert(r@ =~= child_path(parent@, name@));
    }
    r
}

/// `s` without its leading slashes.
pub fn trim_leading_slashes(s: &str) -> (r: String)
    ensures
        r@ == trim_slashes(s@),
{
    let n = s.unicode_len();
    let mut i: usize = 0;
    assert(s@.subrange(0, n as int) =~= s@);
    while i < n && s.get_char(i) == '/'
        invariant
            n == s@.len(),
            i <= n,
            trim_slashes(s@.subrange(i as int, n as int)) == trim_slashes(s@),
        decreases n - i,
    {
        proof {
            assert(s@.subrange(i as int, n as int).drop_first() =~= s@.subrange(i + 1, n as int));
        }
        i = i + 1;
    }
    proof {
        assert(s@.subrange(n as int, n as int).len() == 0);
    }
    s.substring_char(i, n).to_owned()
}

/// `rel` placed under the local directory `root` (see `local_join`).
pub fn join_local(root: &str, rel: &str) -> (r: String)
    ensures
        r@ == local_join(root@, rel@),
{
    let n = root.unicode_len();
    let mut r = root.to_owned();
    if n > 0 && root.get_char(n - 1) != '/' {
        r.append("/");
        proof {
            reveal_strlit("/");
        }
    }
    r.append(rel);
    proof {
        if n > 0 && root@.last() != '/' {
            assert(r@ =~= root@ + seq!['/'] + rel@);
        }
    }
    r
}

/// The local path of the remote path `remote` under the directory `root`:
/// the remote path loses its leading slashes and is joined to `root`.
pub fn local_destination(root: &str, remote: &str) -> (r: String)
    ensures
        r@ == local_join(root@, trim_slashes(remote@)),
{
    let rel = trim_leading_slashes(remote);
    join_local(root, rel.as_str())
}

/// The extension of `path` (see `extension_of`).
pub fn extension(path: &str) -> (r: Option<String>)
    requires
        path@.len() < i64::MAX,
    ensures
        r matches Some(e) ==> extension_of(path@) == Some(e@),
        r is None ==> extension_of(path@) is None,
{
    let n = path.unicode_len();
    let slash = find_last(path, '/');
    proof {
        lemma_last_index_bounds(path@, '/');
    }
    let start = (slash + 1) as usize;
    let name = path.substring_char(start, n);
    assert(name@ == file_name(path@));
    let dot = find_last(name, '.');
    proof {
        lemma_last_index_bounds(name@, '.');
        reveal_strlit("..");
    }
    let m = name.unicode_len();
    if dot <= 0 || (m == 2 && name.get_char(0) == '.' && name.get_char(1) == '.') {
        proof {
            if m == 2 && name@[0] == '.' && name@[1] == '.' {
                assert(name@ =~= ".."@);
            }
        }
        None
    } else {
        proof {
            if name@ == ".."@ {
                assert(name@.len() == 2);
            }
        }
        Some(name.substring_char((dot + 1) as usize, m).to_owned())
    }
}

/// `path` with its extension `ext` replaced by `strm`.
pub fn with_strm_extension(path: &str, ext: &str) -> (r: String)
    requires
        ext@.len() <= path@.len(),
    ensures
        r@ == strm_path(path@, ext@),
{
    let n = path.unicode_len();
    let k = ext.unicode_len();
    let mut r = path.substring_char(0, n - k).to_owned();
    r.append("strm");
    r
}

/// An extension is no longer than the path it was taken from.
pub proof fn lemma_extension_len(path: Seq<char>)
    ensures
        extension_of(path) matches Some(e) ==> e.len() <= path.len(),
{
    lemma_last_index_bounds(path, '/');
    let name = file_name(path);
    lemma_last_index_bounds(name, '.');
}

} // verus!
