//! One file's download, as a state machine.
//!
//! A task first looks at the local copy when it has a hash to trust: a copy
//! whose digest is the expected hash is kept, and nothing is fetched.
//! Otherwise it asks the service for the file's short-lived URL, fetches
//! it, saves the body, and checks the saved content against the hash.  A
//! failure at any step ends the try; tries are repeated with capped
//! exponential backoff until the attempts run out.  The caller performs
//! each action and hands back what happened.

use vstd::prelude::*;

use crate::api::{raw_url_from, raw_url_of, SyncError};
use crate::checksum::{content_matches, digest_hex, lower_of};
use crate::retry::RetryPolicy;
use crate::types::{ApiResponse, HashObject};

verus! {

/// How many times a download is tried, the first try included.
pub const MAX_DOWNLOAD_ATTEMPTS: u32 = 3;

/// The wait after the first failed try, in milliseconds.
pub const INITIAL_BACKOFF_MS: u64 = 500;

/// The longest wait between tries, in milliseconds.
pub const MAX_BACKOFF_MS: u64 = 10000;

/// The retry policy of downloads.
pub open spec fn download_policy() -> RetryPolicy {
    RetryPolicy {
        max_attempts: MAX_DOWNLOAD_ATTEMPTS,
        base_delay_ms: INITIAL_BACKOFF_MS,
        max_delay_ms: MAX_BACKOFF_MS,
    }
}

/// The retry policy of downloads (see `download_policy`).
pub fn download_retry_policy() -> (r: RetryPolicy)
    ensures
        r == download_policy(),
{
    RetryPolicy {
        max_attempts: MAX_DOWNLOAD_ATTEMPTS,
        base_delay_ms: INITIAL_BACKOFF_MS,
        max_delay_ms: MAX_BACKOFF_MS,
    }
}

/// Where a download task stands.
#[derive(Debug, Clone, Copy)]
pub enum Stage {
    /// Waiting for the content of the local copy.
    CheckLocal,
    /// Waiting for the service's reply with the download URL.
    RequestUrl,
    /// Waiting for the status of the GET of the URL.
    Fetch,
    /// Waiting for the body to be saved at the destination.
    Save,
    /// Waiting for the content of the saved file.
    Verify,
    /// Waiting out the delay before the next try.
    Backoff,
    /// Over; see the task's outcome.
    Done,
}

/// What a download task asks of its caller.
#[derive(Debug)]
pub enum TaskAction {
    /// Read the file at the destination; report `LocalContent`, with `None`
    /// if there is no such file.
    HashLocal,
    /// Ask the service for the file's descriptor; report `UrlReply`.
    RequestUrl,
    /// GET `url`; report `Response` with the status.
    Fetch { url: String },
    /// Write the body of the response to the destination, creating its
    /// parent directories and replacing any file there; report `Saved`.
    SaveBody,
    /// Read the saved file; report `SavedContent`.
    ReadSaved,
    /// Wait `delay_ms` milliseconds; report `Waited`.
    Wait { delay_ms: u64 },
    /// The task is over.
    Finished,
}

/// What the caller hands back to a download task.
#[derive(Debug)]
pub enum TaskEvent {
    LocalContent(Option<Vec<u8>>),
    UrlReply(Result<ApiResponse, SyncError>),
    Response(Result<u16, SyncError>),
    Saved(Result<(), SyncError>),
    SavedContent(Option<Vec<u8>>),
    Waited,
}

/// The stage a try starts in: the local check when there is a hash.
pub open spec fn first_stage(expected: Option<HashObject>) -> Stage {
    if expected is Some {
        Stage::CheckLocal
    } else {
        Stage::RequestUrl
    }
}

/// Whether `status` is a success status (2xx).
pub open spec fn is_success_status(status: u16) -> bool {
    200 <= status < 300
}

/// The download of one file.
pub struct DownloadTask {
    expected: Option<HashObject>,
    attempt: u32,
    stage: Stage,
    url: String,
    fetches: u32,
    last_error: Option<SyncError>,
}

impl DownloadTask {
    /// The hash the content must have, if one is trusted.
    pub closed spec fn expected(&self) -> Option<HashObject> {
        self.expected
    }

    /// The number of the current try, from 1.
    pub closed spec fn attempt(&self) -> nat {
        self.attempt as nat
    }

    /// Where the task stands.
    pub closed spec fn stage(&self) -> Stage {
        self.stage
    }

    /// The download URL of the current try, once known.
    pub closed spec fn url(&self) -> Seq<char> {
        self.url@
    }

    /// How many GETs the task has asked for.
    pub closed spec fn fetches(&self) -> nat {
        self.fetches as nat
    }

    /// The failure of the last failed try, if any try failed since the
    /// task began or last succeeded.
    pub closed spec fn last_error(&self) -> Option<SyncError> {
        self.last_error
    }

    /// The task's invariant.
    pub closed spec fn wf(&self) -> bool {
        &&& 1 <= self.attempt <= MAX_DOWNLOAD_ATTEMPTS
        &&& (self.stage is CheckLocal || self.stage is Verify) ==> self.expected is Some
        &&& self.stage is Backoff ==> self.attempt < MAX_DOWNLOAD_ATTEMPTS
        &&& self.fetches <= self.attempt
        &&& (self.stage is CheckLocal || self.stage is RequestUrl) ==> self.fetches < self.attempt
    }

    /// Whether the task is over and succeeded.
    pub open spec fn succeeded(&self) -> bool {
        self.stage() is Done && self.last_error() is None
    }

    /// `t` is `self` moved to stage `s`, with nothing else changed.
    pub open spec fn moved(&self, t: DownloadTask, s: Stage) -> bool {
        &&& t.expected() == self.expected()
        &&& t.attempt() == self.attempt()
        &&& t.url() == self.url()
        &&& t.fetches() == self.fetches()
        &&& t.last_error() == self.last_error()
        &&& t.stage() == s
    }

    /// `t` is `self` finished with success.
    pub open spec fn finished_ok(&self, t: DownloadTask) -> bool {
        &&& t.expected() == self.expected()
        &&& t.attempt() == self.attempt()
        &&& t.url() == self.url()
        &&& t.fetches() == self.fetches()
        &&& t.last_error() is None
        &&& t.stage() is Done
    }

    /// `t` is `self` after its current try failed with `e`: waiting for
    /// the next try if one is left, finished with `e` otherwise.
    pub open spec fn failed_with(&self, t: DownloadTask, e: SyncError) -> bool {
        &&& t.expected() == self.expected()
        &&& t.attempt() == self.attempt()
        &&& t.url() == self.url()
        &&& t.fetches() == self.fetches()
        &&& t.last_error() == Some(e)
        &&& t.stage() == (if self.attempt() < MAX_DOWNLOAD_ATTEMPTS {
            Stage::Backoff
        } else {
            Stage::Done
        })
    }

    /// The transition of a task on an event.  An event that does not
    /// answer what the task waits for leaves it as it is.
    pub open spec fn step_to(&self, ev: TaskEvent, t: DownloadTask) -> bool {
        match (self.stage(), ev) {
            (Stage::CheckLocal, TaskEvent::LocalContent(c)) => {
                if content_matches(self.expected()->Some_0, c) {
                    self.finished_ok(t)
                } else {
                    self.moved(t, Stage::RequestUrl)
                }
            },
            (Stage::RequestUrl, TaskEvent::UrlReply(r)) => match raw_url_of(r) {
                Ok(u) => {
                    &&& t.expected() == self.expected()
                    &&& t.attempt() == self.attempt()
                    &&& t.url() == u@
                    &&& t.fetches() == self.fetches() + 1
                    &&& t.last_error() == self.last_error()
                    &&& t.stage() is Fetch
                },
                Err(e) => self.failed_with(t, e),
            },
            (Stage::Fetch, TaskEvent::Response(r)) => match r {
                Ok(status) => if is_success_status(status) {
                    self.moved(t, Stage::Save)
                } else {
                    self.failed_with(t, SyncError::HttpStatus(status))
                },
                Err(e) => self.failed_with(t, e),
            },
            (Stage::Save, TaskEvent::Saved(r)) => match r {
                Ok(_) => if self.expected() is Some {
                    self.moved(t, Stage::Verify)
                } else {
                    self.finished_ok(t)
                },
                Err(e) => self.failed_with(t, e),
            },
            (Stage::Verify, TaskEvent::SavedContent(c)) => {
                if content_matches(self.expected()->Some_0, c) {
                    self.finished_ok(t)
                } else {
                    self.failed_with(t, SyncError::ChecksumMismatch)
                }
            },
            (Stage::Backoff, TaskEvent::Waited) => {
                &&& t.expected() == self.expected()
                &&& t.attempt() == self.attempt() + 1
                &&& t.url() == self.url()
                &&& t.fetches() == self.fetches()
                &&& t.last_error() == self.last_error()
                &&& t.stage() == first_stage(self.expected())
            },
            _ => t == *self,
        }
    }

    /// Whether `a` is what `self` asks for in its stage.
    pub open spec fn asks(&self, a: TaskAction) -> bool {
        match self.stage() {
            Stage::CheckLocal => a is HashLocal,
            Stage::RequestUrl => a is RequestUrl,
            Stage::Fetch => a matches TaskAction::Fetch { url } && url@ == self.url(),
            Stage::Save => a is SaveBody,
            Stage::Verify => a is ReadSaved,
            Stage::Backoff => a matches TaskAction::Wait { delay_ms } && delay_ms
                == download_policy().delay_after(self.attempt()),
            Stage::Done => a is Finished,
        }
    }

    /// A task that downloads a file whose content must have the hash
    /// `expected`, if there is one: its first try begins.
    pub fn new(expected: Option<HashObject>) -> (r: DownloadTask)
        ensures
            r.wf(),
            r.expected() == expected,
            r.attempt() == 1,
            r.stage() == first_stage(expected),
            r.fetches() == 0,
            r.last_error() is None,
    {
        let stage = if expected.is_some() {
            Stage::CheckLocal
        } else {
            Stage::RequestUrl
        };
        DownloadTask { expected, attempt: 1, stage, url: String::new(), fetches: 0, last_error: None }
    }

    /// What the task asks for now.
    pub fn action(&self) -> (a: TaskAction)
        requires
            self.wf(),
        ensures
            self.asks(a),
    {
        match self.stage {
            Stage::CheckLocal => TaskAction::HashLocal,
            Stage::RequestUrl => TaskAction::RequestUrl,
            Stage::Fetch => TaskAction::Fetch { url: self.url.clone() },
            Stage::Save => TaskAction::SaveBody,
            Stage::Verify => TaskAction::ReadSaved,
            Stage::Backoff => {
                let policy = download_retry_policy();
                TaskAction::Wait { delay_ms: policy.backoff_ms(self.attempt) }
            },
            Stage::Done => TaskAction::Finished,
        }
    }

    fn fail(&mut self, e: SyncError)
        requires
            old(self).wf(),
            !(old(self).stage is Backoff),
            !(old(self).stage is Done),
        ensures
            final(self).wf(),
            old(self).failed_with(*final(self), e),
    {
        self.last_error = Some(e);
        if download_retry_policy().retries_after(self.attempt) {
            self.stage = Stage::Backoff;
        } else {
            self.stage = Stage::Done;
        }
    }

    fn succeed(&mut self)
        requires
            old(self).wf(),
        ensures
            final(self).wf(),
            old(self).finished_ok(*final(self)),
    {
        self.last_error = None;
        self.stage = Stage::Done;
    }

    /// Hands the task what happened, and returns what it asks for next
    /// (see `step_to`).
    pub fn on_event(&mut self, ev: TaskEvent) -> (a: TaskAction)
        requires
            old(self).wf(),
        ensures
            final(self).wf(),
            old(self).step_to(ev, *final(self)),
            final(self).asks(a),
    {
        let ghost ev0 = ev;
        match (self.stage, ev) {
            (Stage::CheckLocal, TaskEvent::LocalContent(c)) => {
                let ok = match &self.expected {
                    Some(h) => h.verify_file_checksum(&c),
                    None => false,
                };
                if ok {
                    self.succeed();
                } else {
                    self.stage = Stage::RequestUrl;
                }
            },
            (Stage::RequestUrl, TaskEvent::UrlReply(r)) => match raw_url_from(r) {
                Ok(u) => {
                    self.url = u;
                    self.fetches = self.fetches + 1;
                    self.stage = Stage::Fetch;
                },
                Err(e) => self.fail(e),
            },
            (Stage::Fetch, TaskEvent::Response(r)) => match r {
                Ok(status) => {
                    if 200 <= status && status < 300 {
                        self.stage = Stage::Save;
                    } else {
                        self.fail(SyncError::HttpStatus(status));
                    }
                },
                Err(e) => self.fail(e),
            },
            (Stage::Save, TaskEvent::Saved(r)) => match r {
                Ok(_) => {
                    if self.expected.is_some() {
                        self.stage = Stage::Verify;
                    } else {
                        self.succeed();
                    }
                },
                Err(e) => self.fail(e),
            },
            (Stage::Verify, TaskEvent::SavedContent(c)) => {
                let ok = match &self.expected {
                    Some(h) => h.verify_file_checksum(&c),
                    None => false,
                };
                if ok {
                    self.succeed();
                } else {
                    self.fail(SyncError::ChecksumMismatch);
                }
            },
            (Stage::Backoff, TaskEvent::Waited) => {
                self.attempt = self.attempt + 1;
                self.stage = if self.expected.is_some() {
                    Stage::CheckLocal
                } else {
                    Stage::RequestUrl
                };
            },
            _ => {},
        }
        self.action()
    }

    /// Whether the task is over.
    pub fn is_finished(&self) -> (r: bool)
        ensures
            r == (self.stage() is Done),
    {
        match self.stage {
            Stage::Done => true,
            _ => false,
        }
    }

    /// The number of the current try; once the task is over, the number
    /// of tries it made.
    pub fn attempts(&self) -> (r: u32)
        ensures
            r == self.attempt(),
    {
        self.attempt
    }

    /// How many GETs the task has asked for.
    pub fn fetch_count(&self) -> (r: u32)
        ensures
            r == self.fetches(),
    {
        self.fetches
    }

    /// The outcome of a finished task: success, or the failure of its last
    /// try.
    pub fn into_outcome(self) -> (r: Result<(), SyncError>)
        requires
            self.stage() is Done,
        ensures
            r is Ok <==> self.last_error() is None,
            r matches Err(e) ==> self.last_error() == Some(e),
    {
        match self.last_error {
            None => Ok(()),
            Some(e) => Err(e),
        }
    }
}

/// Verification after a write accepts content whose digest is the expected
/// hash, and rejects with `ChecksumMismatch` content whose digest is not,
/// such as the same content with a byte changed.
pub proof fn lemma_verification_round_trip(t: DownloadTask, data: Vec<u8>, after: DownloadTask)
    requires
        t.wf(),
        t.stage() is Verify,
        t.step_to(TaskEvent::SavedContent(Some(data)), after),
    ensures
        t.expected() matches Some(h) && digest_hex(h, data@) == lower_of(h.reported())
            ==> after.succeeded(),
        t.expected() matches Some(h) && digest_hex(h, data@) != lower_of(h.reported())
            ==> after.last_error() == Some(SyncError::ChecksumMismatch),
{
}

/// A file that a download left verified is not fetched again: when a try
/// ended by accepting the saved content, a new task for the same hash that
/// finds that content at the destination finishes without any GET.
pub proof fn lemma_verified_file_not_fetched_again(
    first: DownloadTask,
    content: Option<Vec<u8>>,
    done: DownloadTask,
    second: DownloadTask,
    after: DownloadTask,
)
    requires
        first.wf(),
        first.stage() is Verify,
        first.step_to(TaskEvent::SavedContent(content), done),
        done.succeeded(),
        second.expected() == first.expected(),
        second.stage() == first_stage(second.expected()),
        second.fetches() == 0,
        second.step_to(TaskEvent::LocalContent(content), after),
    ensures
        after.succeeded(),
        after.fetches() == 0,
{
}

/// The tally of a batch of downloads: how many succeeded, and each failed
/// path with its final error.  A failure is recorded and the batch goes on.
#[derive(Debug)]
pub struct DownloadReport {
    succeeded: u64,
    failed: Vec<(String, SyncError)>,
}

impl DownloadReport {
    /// How many downloads succeeded.
    pub closed spec fn succeeded(&self) -> nat {
        self.succeeded as nat
    }

    /// The failed downloads, in the order they were recorded.
    pub closed spec fn failed(&self) -> Seq<(String, SyncError)> {
        self.failed@
    }

    /// An empty tally.
    pub fn new() -> (r: DownloadReport)
        ensures
            r.succeeded() == 0,
            r.failed().len() == 0,
    {
        DownloadReport { succeeded: 0, failed: Vec::new() }
    }

    /// Records the outcome of the download of `path`.
    pub fn record(&mut self, path: String, outcome: Result<(), SyncError>)
        requires
            old(self).succeeded() < u64::MAX,
        ensures
            match outcome {
                Ok(_) => final(self).succeeded() == old(self).succeeded() + 1
                    && final(self).failed() == old(self).failed(),
                Err(e) => final(self).succeeded() == old(self).succeeded()
                    && final(self).failed() == old(self).failed().push((path, e)),
            },
    {
        match outcome {
            Ok(_) => {
                self.succeeded = self.succeeded + 1;
            },
            Err(e) => {
                self.failed.push((path, e));
            },
        }
    }

    /// How many downloads succeeded.
    pub fn succeeded_count(&self) -> (r: u64)
        ensures
            r == self.succeeded(),
    {
        self.succeeded
    }

    /// How many downloads failed.
    pub fn failed_count(&self) -> (r: usize)
        ensures
            r == self.failed().len(),
    {
        self.failed.len()
    }

    /// The failed downloads with their final errors.
    pub fn failures(&self) -> (r: &Vec<(String, SyncError)>)
        ensures
            r@ == self.failed(),
    {
        &self.failed
    }

    /// Whether no download failed.
    pub fn all_succeeded(&self) -> (r: bool)
        ensures
            r == (self.failed().len() == 0),
    {
        self.failed.len() == 0
    }
}

} // verus!
