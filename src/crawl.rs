//! The breadth-first crawl of the remote tree.
//!
//! A `Crawler` keeps every directory path it has accepted, in the order of
//! acceptance; the ones before `next` have been dealt with, the rest wait.
//! Accepting a path is the visit test: a path already accepted is never
//! accepted again, so each directory is listed at most once however often
//! listings refer to it.  The caller lists the directory that the crawler
//! asks for and hands back what the listing yielded.

use vstd::prelude::*;

use crate::api::{Listing, SyncError};
use crate::paths::{child_path, join_child};
use crate::retry::RetryPolicy;
use crate::text::{contains_text, texts};
use crate::types::{EntryInfo, EntryWithPath};

verus! {

/// How many times a failed listing is retried before the directory is
/// given up.
pub const MAX_LIST_RETRIES: u32 = 3;

/// The wait before each retry of a listing, in milliseconds.
pub const LIST_RETRY_DELAY_MS: u64 = 1000;

/// The retry policy of listings: the first try and `MAX_LIST_RETRIES`
/// retries, each after the same fixed delay.
pub open spec fn list_policy() -> RetryPolicy {
    RetryPolicy {
        max_attempts: (MAX_LIST_RETRIES + 1) as u32,
        base_delay_ms: LIST_RETRY_DELAY_MS,
        max_delay_ms: LIST_RETRY_DELAY_MS,
    }
}

/// The retry policy of listings (see `list_policy`).
pub fn list_retry_policy() -> (r: RetryPolicy)
    ensures
        r == list_policy(),
{
    RetryPolicy {
        max_attempts: MAX_LIST_RETRIES + 1,
        base_delay_ms: LIST_RETRY_DELAY_MS,
        max_delay_ms: LIST_RETRY_DELAY_MS,
    }
}

/// What the crawler asks of its caller.
#[derive(Debug)]
pub enum CrawlAction {
    /// List the directory `path`, after waiting `delay_ms` milliseconds.
    List { path: String, delay_ms: u64 },
    /// The crawl is over.
    Finished,
}

/// The paths of the directories among `entries`, listed in `parent`.
pub open spec fn dir_children(parent: Seq<char>, entries: Seq<EntryInfo>) -> Seq<Seq<char>>
    decreases entries.len(),
{
    if entries.len() == 0 {
        Seq::empty()
    } else {
        let rest = dir_children(parent, entries.drop_last());
        if entries.last().is_dir {
            rest.push(child_path(parent, entries.last().name@))
        } else {
            rest
        }
    }
}

/// `seen` after offering it each of `cands` in turn: a candidate is
/// appended if it is not there yet, the first one in wins.
pub open spec fn accept_all(seen: Seq<Seq<char>>, cands: Seq<Seq<char>>) -> Seq<Seq<char>>
    decreases cands.len(),
{
    if cands.len() == 0 {
        seen
    } else {
        let s = accept_all(seen, cands.drop_last());
        if s.contains(cands.last()) {
            s
        } else {
            s.push(cands.last())
        }
    }
}

proof fn lemma_accept_all(seen: Seq<Seq<char>>, cands: Seq<Seq<char>>)
    requires
        seen.no_duplicates(),
    ensures
        accept_all(seen, cands).no_duplicates(),
        accept_all(seen, cands).len() >= seen.len(),
        accept_all(seen, cands).subrange(0, seen.len() as int) == seen,
        forall|i: int| 0 <= i < cands.len() ==> accept_all(seen, cands).contains(#[trigger] cands[i]),
    decreases cands.len(),
{
    if cands.len() > 0 {
        let rest = cands.drop_last();
        lemma_accept_all(seen, rest);
        let s = accept_all(seen, rest);
        let r = accept_all(seen, cands);
        assert forall|i: int| 0 <= i < cands.len() implies r.contains(#[trigger] cands[i]) by {
            if i < cands.len() - 1 {
                assert(rest[i] == cands[i]);
                assert(s.contains(rest[i]));
                let k = choose|k: int| 0 <= k < s.len() && s[k] == rest[i];
                if !s.contains(cands.last()) {
                    assert(r[k] == cands[i]);
                }
            } else {
                if !s.contains(cands.last()) {
                    assert(r[s.len() as int] == cands.last());
                }
            }
        }
        if !s.contains(cands.last()) {
            assert(r.subrange(0, seen.len() as int) =~= s.subrange(0, seen.len() as int));
            assert forall|a: int, b: int| 0 <= a < r.len() && 0 <= b < r.len() && a != b implies r[a] != r[b] by {
                if a == s.len() {
                    assert(r[b] == s[b]);
                } else if b == s.len() {
                    assert(r[a] == s[a]);
                }
            }
        }
    }
}

/// A crawl in progress.
pub struct Crawler {
    dirs: Vec<String>,
    next: usize,
    items: Vec<EntryWithPath>,
    failures: u32,
    abandoned: Vec<String>,
}

impl Crawler {
    /// Every directory path accepted so far, in the order of acceptance:
    /// the root first, then each newly found directory.
    pub closed spec fn seen(&self) -> Seq<Seq<char>> {
        texts(self.dirs@)
    }

    /// The directories dealt with so far, listed or given up, in order.
    pub open spec fn listed(&self) -> Seq<Seq<char>> {
        self.seen().take(self.done_count() as int)
    }

    /// How many directories have been dealt with.
    pub closed spec fn done_count(&self) -> nat {
        self.next as nat
    }

    /// The rows found so far, in the order they were listed.
    pub closed spec fn items(&self) -> Seq<EntryWithPath> {
        self.items@
    }

    /// How many listings of the current directory have failed.
    pub closed spec fn failures(&self) -> nat {
        self.failures as nat
    }

    /// The directories given up after their retries ran out.
    pub closed spec fn abandoned(&self) -> Seq<Seq<char>> {
        texts(self.abandoned@)
    }

    /// Whether every accepted directory has been dealt with.
    pub open spec fn is_done(&self) -> bool {
        self.done_count() == self.seen().len()
    }

    /// The directory being listed: the first that waits.
    pub open spec fn current(&self) -> Seq<char> {
        self.seen()[self.done_count() as int]
    }

    /// The crawler's invariant: the accepted paths are distinct, every
    /// directory row found has its path accepted, and the retry count is
    /// within bounds.
    pub closed spec fn wf(&self) -> bool {
        &&& self.dirs@.len() >= 1
        &&& self.next <= self.dirs@.len()
        &&& self.seen().no_duplicates()
        &&& forall|i: int|
            0 <= i < self.items@.len() && (#[trigger] self.items@[i]).entry.is_dir
                ==> self.seen().contains(self.items@[i].path_str@)
        &&& self.failures <= MAX_LIST_RETRIES
        &&& self.failures > 0 ==> self.next < self.dirs@.len()
    }

    /// The root of the crawl.
    pub open spec fn root(&self) -> Seq<char> {
        self.seen()[0]
    }

    /// Whether `a` is what this crawler asks for: the listing of the
    /// current directory, after the retry delay if a listing of it has
    /// failed; or the end, once every directory has been dealt with.
    pub open spec fn asks(&self, a: CrawlAction) -> bool {
        if self.is_done() {
            a is Finished
        } else {
            &&& a matches CrawlAction::List { path, delay_ms }
            &&& path@ == self.current()
            &&& delay_ms == (if self.failures() > 0 {
                list_policy().delay_after(self.failures())
            } else {
                0
            })
        }
    }

    /// A crawl of the tree under `root`: the root is accepted and waits.
    pub fn new(root: String) -> (r: Crawler)
        ensures
            r.wf(),
            r.seen() == seq![root@],
            r.done_count() == 0,
            r.items().len() == 0,
            r.failures() == 0,
            r.abandoned().len() == 0,
    {
        let mut dirs: Vec<String> = Vec::new();
        dirs.push(root);
        let r = Crawler { dirs, next: 0, items: Vec::new(), failures: 0, abandoned: Vec::new() };
        proof {
            assert(r.seen() =~= seq![root@]);
            assert(r.abandoned() =~= Seq::<Seq<char>>::empty());
        }
        r
    }

    /// What the crawler asks for now.
    pub fn request(&self) -> (a: CrawlAction)
        requires
            self.wf(),
        ensures
            self.asks(a),
    {
        if self.next == self.dirs.len() {
            CrawlAction::Finished
        } else {
            let delay_ms: u64 = if self.failures > 0 {
                list_retry_policy().backoff_ms(self.failures)
            } else {
                0
            };
            CrawlAction::List { path: self.dirs[self.next].clone(), delay_ms }
        }
    }

    /// Whether the crawl is over.
    pub fn is_finished(&self) -> (r: bool)
        ensures
            r == self.is_done(),
    {
        self.next == self.dirs.len()
    }

    /// Hands the crawler what the listing of the current directory yielded,
    /// and returns what it asks for next.
    ///
    /// A listing with rows adds one row per entry, with the path
    /// `current/name` and the listing's provider, accepts the paths of the
    /// directories among them that were not accepted before, and moves on.
    /// An empty listing (no content collection) moves on and adds nothing:
    /// it is no failure and is not retried.  A failure leaves everything as
    /// it is and asks for the same listing again, until `MAX_LIST_RETRIES`
    /// retries have failed too; then the directory is given up and the
    /// crawl moves on.
    pub fn on_listing(&mut self, listing: Result<Listing, SyncError>) -> (a: CrawlAction)
        requires
            old(self).wf(),
            !old(self).is_done(),
        ensures
            final(self).wf(),
            final(self).asks(a),
            final(self).root() == old(self).root(),
            final(self).seen().len() >= old(self).seen().len(),
            final(self).seen().subrange(0, old(self).seen().len() as int) == old(self).seen(),
            match listing {
                Ok(Listing::Entries { entries, provider }) => {
                    let n0 = old(self).items().len();
                    &&& final(self).seen() == accept_all(
                        old(self).seen(),
                        dir_children(old(self).current(), entries@),
                    )
                    &&& final(self).items().len() == n0 + entries@.len()
                    &&& final(self).items().subrange(0, n0 as int) == old(self).items()
                    &&& forall|i: int|
                        0 <= i < entries@.len() ==> {
                            let it = #[trigger] final(self).items()[n0 + i];
                            &&& it.entry == entries@[i]
                            &&& it.path_str@ == child_path(old(self).current(), entries@[i].name@)
                            &&& it.provider@ == provider@
                        }
                    &&& final(self).done_count() == old(self).done_count() + 1
                    &&& final(self).failures() == 0
                    &&& final(self).abandoned() == old(self).abandoned()
                },
                Ok(Listing::Empty) => {
                    &&& final(self).seen() == old(self).seen()
                    &&& final(self).items() == old(self).items()
                    &&& final(self).done_count() == old(self).done_count() + 1
                    &&& final(self).failures() == 0
                    &&& final(self).abandoned() == old(self).abandoned()
                },
                Err(_) => {
                    &&& final(self).seen() == old(self).seen()
                    &&& final(self).items() == old(self).items()
                    &&& if old(self).failures() < MAX_LIST_RETRIES {
                        &&& final(self).done_count() == old(self).done_count()
                        &&& final(self).failures() == old(self).failures() + 1
                        &&& final(self).abandoned() == old(self).abandoned()
                    } else {
                        &&& final(self).done_count() == old(self).done_count() + 1
                        &&& final(self).failures() == 0
                        &&& final(self).abandoned() == old(self).abandoned().push(
                            old(self).current(),
                        )
                    }
                },
            },
    {
        match listing {
            Ok(Listing::Entries { entries, provider }) => {
                let ghost cands = dir_children(old(self).current(), entries@);
                self.add_rows(entries, provider);
                proof {
                    lemma_accept_all(old(self).seen(), cands);
                    assert(self.seen().len() == self.dirs@.len());
                }
                let _n = self.dirs.len();
                self.next = self.next + 1;
                self.failures = 0;
            },
            Ok(Listing::Empty) => {
                let _n = self.dirs.len();
                self.next = self.next + 1;
                self.failures = 0;
            },
            Err(_) => {
                if list_retry_policy().retries_after(self.failures + 1) {
                    self.failures = self.failures + 1;
                } else {
                    let cur = self.dirs[self.next].clone();
                    self.abandoned.push(cur);
                    let _n = self.dirs.len();
                    self.next = self.next + 1;
                    self.failures = 0;
                    proof {
                        assert(self.abandoned() =~= old(self).abandoned().push(old(self).current()));
                    }
                }
            },
        }
        self.request()
    }

    fn add_rows(&mut self, entries: Vec<EntryInfo>, provider: String)
        requires
            old(self).wf(),
            !old(self).is_done(),
        ensures
            final(self).next == old(self).next,
            final(self).failures == old(self).failures,
            final(self).abandoned == old(self).abandoned,
            final(self).dirs@.len() >= 1,
            final(self).seen().no_duplicates(),
            forall|i: int|
                0 <= i < final(self).items@.len() && (#[trigger] final(self).items@[i]).entry.is_dir
                    ==> final(self).seen().contains(final(self).items@[i].path_str@),
            final(self).seen() == accept_all(
                old(self).seen(),
                dir_children(old(self).current(), entries@),
            ),
            final(self).items().len() == old(self).items().len() + entries@.len(),
            final(self).items().subrange(0, old(self).items().len() as int) == old(self).items(),
            forall|i: int|
                0 <= i < entries@.len() ==> {
                    let it = #[trigger] final(self).items()[old(self).items().len() + i];
                    &&& it.entry == entries@[i]
                    &&& it.path_str@ == child_path(old(self).current(), entries@[i].name@)
                    &&& it.provider@ == provider@
                },
    {
        let cur = self.dirs[self.next].clone();
        let ghost seen0 = self.seen();
        let ghost items0 = self.items@;
        let ghost all = entries@;
        let n0 = self.items.len();
        let mut k: usize = 0;
        let total = entries.len();
        let mut src = entries;
        let mut rest: Vec<EntryInfo> = Vec::new();
        while src.len() > 0
            invariant
                rest@.len() + src@.len() == all.len(),
                src@ == all.take(src@.len() as int),
                forall|j: int| 0 <= j < rest@.len() ==> rest@[j] == all[all.len() - 1 - j],
            decreases src@.len(),
        {
            let e = src.pop().unwrap();
            rest.push(e);
            proof {
                assert(src@ =~= all.take(src@.len() as int));
            }
        }
        proof {
            assert(seen0 == accept_all(seen0, dir_children(cur@, all.take(0))));
        }
        while rest.len() > 0
            invariant
                (old(self).next as int) < seen0.len(),
                cur@ == seen0[old(self).next as int],
                all.len() == total,
                self.next == old(self).next,
                self.failures == old(self).failures,
                self.abandoned == old(self).abandoned,
                n0 == items0.len(),
                seen0 == old(self).seen(),
                seen0.no_duplicates(),
                items0 == old(self).items@,
                k + rest@.len() == all.len(),
                forall|j: int| 0 <= j < rest@.len() ==> rest@[j] == all[all.len() - 1 - j],
                self.seen() == accept_all(seen0, dir_children(cur@, all.take(k as int))),
                self.items@.len() == n0 + k,
                self.items@.subrange(0, n0 as int) == items0,
                forall|i: int|
                    0 <= i < k ==> {
                        let it = #[trigger] self.items@[n0 + i];
                        &&& it.entry == all[i]
                        &&& it.path_str@ == child_path(cur@, all[i].name@)
                        &&& it.provider@ == provider@
                    },
                forall|i: int|
                    0 <= i < self.items@.len() && (#[trigger] self.items@[i]).entry.is_dir
                        ==> self.seen().contains(self.items@[i].path_str@),
            decreases rest@.len(),
        {
            let e = rest.pop().unwrap();
            proof {
                lemma_accept_all(seen0, dir_children(cur@, all.take(k as int)));
                assert(all.take(k + 1).drop_last() =~= all.take(k as int));
                assert(e == all[k as int]);
            }
            let path = join_child(cur.as_str(), e.name.as_str());
            let ghost before = self.seen();
            if e.is_dir {
                if !contains_text(&self.dirs, path.as_str()) {
                    self.dirs.push(path.clone());
                    proof {
                        assert(self.seen() =~= before.push(path@));
                    }
                }
            }
            proof {
                let prev = dir_children(cur@, all.take(k as int));
                let nxt = dir_children(cur@, all.take(k + 1));
                if e.is_dir {
                    assert(nxt == prev.push(path@));
                    assert(nxt.drop_last() =~= prev);
                } else {
                    assert(nxt == prev);
                }
                lemma_accept_all(seen0, dir_children(cur@, all.take(k + 1)));
                assert(self.seen() == accept_all(seen0, dir_children(cur@, all.take(k + 1))));
                if e.is_dir {
                    assert(self.seen().contains(path@));
                }
                assert forall|x: Seq<char>| before.contains(x) implies self.seen().contains(x) by {
                    let j = choose|j: int| 0 <= j < before.len() && before[j] == x;
                    assert(self.seen()[j] == x);
                }
            }
            let ghost items_before = self.items@;
            self.items.push(EntryWithPath { entry: e, path_str: path, provider: provider.clone() });
            proof {
                assert forall|i: int|
                    0 <= i < self.items@.len() && (#[trigger] self.items@[i]).entry.is_dir
                        implies self.seen().contains(self.items@[i].path_str@) by {
                    if i < items_before.len() {
                        assert(self.items@[i] == items_before[i]);
                        assert(before.contains(items_before[i].path_str@));
                    }
                }
                assert(self.items@.subrange(0, n0 as int) =~= items0);
            }
            k = k + 1;
        }
        proof {
            assert(all.take(k as int) =~= all);
            lemma_accept_all(seen0, dir_children(cur@, all));
        }
    }

    /// The rows found, once the crawl is over.
    pub fn into_items(self) -> (r: Vec<EntryWithPath>)
        ensures
            r@ == self.items(),
    {
        self.items
    }

    /// The directories given up.
    pub fn abandoned_dirs(&self) -> (r: &Vec<String>)
        ensures
            texts(r@) == self.abandoned(),
    {
        &self.abandoned
    }
}

/// Each directory is listed at most once, however often listings refer to
/// it, and a finished crawl has listed every directory it found: the
/// directories dealt with are distinct, and once the crawl is over they
/// include the root and the path of every directory row found.
pub proof fn lemma_each_directory_listed_once(c: &Crawler)
    requires
        c.wf(),
    ensures
        c.listed().no_duplicates(),
        c.is_done() ==> c.listed().contains(c.root()),
        c.is_done() ==> forall|i: int|
            0 <= i < c.items().len() && (#[trigger] c.items()[i]).entry.is_dir
                ==> c.listed().contains(c.items()[i].path_str@),
{
    let s = c.seen();
    assert forall|a: int, b: int|
        0 <= a < c.listed().len() && 0 <= b < c.listed().len() && a != b
            implies c.listed()[a] != c.listed()[b] by {
        assert(c.listed()[a] == s[a] && c.listed()[b] == s[b]);
    }
    if c.is_done() {
        assert(c.listed() =~= s);
        assert(c.listed()[0] == c.root());
    }
}

} // verus!
