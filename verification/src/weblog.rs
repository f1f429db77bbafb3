//! Crawl bookkeeping records: visited-page status, snapshot and task logs,
//! and the queries the crawler asks of them.
//!
//! Paths and URLs are held as plain strings; reading and writing the logs is
//! I/O and happens outside the library, which only decides.
use vstd::prelude::*;
use vstd::string::StringExecFns;
use crate::textutil::str_eq;

verus! {

/// A URL string normalized by stripping the fragment.
#[derive(Debug, PartialEq, Eq)]
pub struct CanonicalUrlString(pub String);

/// A URL string exactly as first seen.
#[derive(Debug, PartialEq, Eq)]
pub struct OriginalUrlString(pub String);

/// An RFC 3339 timestamp of a snapshot.
#[derive(Debug, PartialEq, Eq)]
pub struct SnapshotDate(pub String);

impl SnapshotDate {
    /// Relies on chrono::Utc::now and to_rfc3339: the current instant;
    /// nothing is promised of the value.
    #[verifier::external_body]
    pub fn now() -> SnapshotDate {
        SnapshotDate(chrono::Utc::now().to_rfc3339())
    }
}

/// A compact session timestamp.
#[derive(Debug, PartialEq, Eq)]
pub struct Timestamp(pub String);

impl Timestamp {
    /// Relies on chrono::Local::now and its formatter: the current local
    /// time in `YYYYMMDD-HH:MM` form; nothing is promised of the value.
    #[verifier::external_body]
    pub fn now() -> Timestamp {
        Timestamp(chrono::Local::now().format("%Y%m%d-%H:%M").to_string())
    }
}

/// A file path relative to the output directory.
#[derive(Debug, PartialEq, Eq)]
pub struct RelativeFilePath(pub String);

impl RelativeFilePath {
    /// The `file://./`-prefixed form used in serialized output.
    pub fn to_file_url(&self) -> (r: String)
        ensures
            r@ == "file://./"@ + self.0@,
    {
        String::from_str("file://./").concat(self.0.as_str())
    }
}

/// The directory a snapshot's files live in.
#[derive(Debug, PartialEq, Eq)]
pub struct SnapshotDirectory(pub String);

impl SnapshotDirectory {
    /// The path of a file inside the snapshot directory, joined with a
    /// single separator.
    pub fn join(&self, path: &str) -> (r: String)
        ensures
            r@ == self.0@ + "/"@ + path@,
    {
        self.0.clone().concat("/").concat(path)
    }
}

/// The outcome of visiting one URL.
#[derive(Debug, PartialEq, Eq)]
pub enum Status {
    Success { url: OriginalUrlString, http_status: Option<i64> },
    Failure { url: OriginalUrlString, http_status: Option<i64> },
    Redirected { from: OriginalUrlString, to: OriginalUrlString, http_status: Option<i64> },
}

/// Whether a status entry mentions the given URL, as origin or target.
pub open spec fn status_mentions(s: Status, u: Seq<char>) -> bool {
    match s {
        Status::Success { url, .. } => url.0@ == u,
        Status::Failure { url, .. } => url.0@ == u,
        Status::Redirected { from, to, .. } => from.0@ == u || to.0@ == u,
    }
}

fn status_mentions_url(s: &Status, u: &str) -> (r: bool)
    ensures
        r == status_mentions(*s, u@),
{
    match s {
        Status::Success { url, .. } => str_eq(url.0.as_str(), u),
        Status::Failure { url, .. } => str_eq(url.0.as_str(), u),
        Status::Redirected { from, to, .. } => str_eq(from.0.as_str(), u) || str_eq(
            to.0.as_str(),
            u,
        ),
    }
}

/// The per-directory visit log.
#[derive(Debug, PartialEq, Eq)]
pub struct TaskLog {
    pub entries: Vec<Status>,
}

impl TaskLog {
    /// An empty log.
    pub fn new() -> (r: TaskLog)
        ensures
            r.entries@.len() == 0,
    {
        TaskLog { entries: Vec::new() }
    }

    /// Whether this log, merged with entries already persisted elsewhere,
    /// mentions the URL.  The caller supplies the persisted entries; reading
    /// them from disk is not the library's concern.
    pub fn contains_url(&self, given_url: &str, existing: &Vec<Status>) -> (r: bool)
        ensures
            r == (exists|i: int|
                0 <= i < self.entries@.len() && status_mentions(
                    #[trigger] self.entries@[i],
                    given_url@,
                ) || exists|i: int|
                0 <= i < existing@.len() && status_mentions(#[trigger] existing@[i], given_url@)),
    {
        let mut i: usize = 0;
        while i < self.entries.len()
            invariant
                i <= self.entries@.len(),
                forall|j: int| 0 <= j < i
                    ==> !status_mentions(#[trigger] self.entries@[j], given_url@),
            decreases self.entries@.len() - i,
        {
            if status_mentions_url(&self.entries[i], given_url) {
                return true;
            }
            i = i + 1;
        }
        let mut k: usize = 0;
        while k < existing.len()
            invariant
                k <= existing@.len(),
                forall|j: int| 0 <= j < k ==> !status_mentions(#[trigger] existing@[j], given_url@),
            decreases existing@.len() - k,
        {
            if status_mentions_url(&existing[k], given_url) {
                return true;
            }
            k = k + 1;
        }
        false
    }

    /// Whether any entry records a failure.
    pub fn contains_failures(&self) -> (r: bool)
        ensures
            r == exists|i: int|
                0 <= i < self.entries@.len() && (#[trigger] self.entries@[i]) is Failure,
    {
        let mut i: usize = 0;
        while i < self.entries.len()
            invariant
                i <= self.entries@.len(),
                forall|j: int| 0 <= j < i ==> !((#[trigger] self.entries@[j]) is Failure),
            decreases self.entries@.len() - i,
        {
            match &self.entries[i] {
                Status::Failure { .. } => {
                    return true;
                }
                _ => {}
            }
            i = i + 1;
        }
        false
    }
}

/// A page visit recorded by the older single-manifest crawler.
#[derive(Debug, PartialEq, Eq)]
pub enum VisitedPage {
    Success { url: OriginalUrlString, http_status: Option<i64> },
    Failure { url: OriginalUrlString, http_status: Option<i64> },
    Redirected { from: OriginalUrlString, to: OriginalUrlString, http_status: Option<i64> },
}

/// Whether a visited-page entry mentions the given URL.
pub open spec fn visited_mentions(s: VisitedPage, u: Seq<char>) -> bool {
    match s {
        VisitedPage::Success { url, .. } => url.0@ == u,
        VisitedPage::Failure { url, .. } => url.0@ == u,
        VisitedPage::Redirected { from, to, .. } => from.0@ == u || to.0@ == u,
    }
}

/// Everything recorded about one snapshotted page.
#[derive(Debug, PartialEq, Eq)]
pub struct WebpageSnapshotMetadata {
    pub http_status: Option<i64>,
    pub original_url: OriginalUrlString,
    pub canonical_url: CanonicalUrlString,
    /// Relative to the output directory.
    pub snapshot_path: RelativeFilePath,
    pub snapshot_date: SnapshotDate,
    pub outgoing_links: Vec<OriginalUrlString>,
    pub incoming_links: Vec<OriginalUrlString>,
}

/// The single-file crawl manifest.
#[derive(Debug, PartialEq, Eq)]
pub struct SnapshotManifest {
    pub snapshots: Vec<WebpageSnapshotMetadata>,
    pub visited_pages: Vec<VisitedPage>,
}

impl SnapshotManifest {
    /// An empty manifest.
    pub fn new() -> (r: SnapshotManifest)
        ensures
            r.snapshots@.len() == 0,
            r.visited_pages@.len() == 0,
    {
        SnapshotManifest { snapshots: Vec::new(), visited_pages: Vec::new() }
    }

    /// A URL should be visited unless some visited-page entry mentions it.
    pub fn should_visit(&self, given_url: &str) -> (r: bool)
        ensures
            r == !exists|i: int|
                0 <= i < self.visited_pages@.len() && visited_mentions(
                    #[trigger] self.visited_pages@[i],
                    given_url@,
                ),
    {
        let mut i: usize = 0;
        while i < self.visited_pages.len()
            invariant
                i <= self.visited_pages@.len(),
                forall|j: int| 0 <= j < i
                    ==> !visited_mentions(#[trigger] self.visited_pages@[j], given_url@),
            decreases self.visited_pages@.len() - i,
        {
            let mentioned = match &self.visited_pages[i] {
                VisitedPage::Success { url, .. } => str_eq(url.0.as_str(), given_url),
                VisitedPage::Failure { url, .. } => str_eq(url.0.as_str(), given_url),
                VisitedPage::Redirected { from, to, .. } => str_eq(from.0.as_str(), given_url)
                    || str_eq(to.0.as_str(), given_url),
            };
            if mentioned {
                return false;
            }
            i = i + 1;
        }
        true
    }
}

/// One snapshot log, as persisted beside each snapshot.
#[derive(Debug, PartialEq, Eq)]
pub struct SnapshotLog {
    pub http_status: Option<i64>,
    pub original_url: OriginalUrlString,
    pub canonical_url: CanonicalUrlString,
    /// Relative to the output directory.
    pub snapshot_path: RelativeFilePath,
    pub snapshot_date: SnapshotDate,
    pub outgoing_links: Vec<OriginalUrlString>,
    pub incoming_links: Vec<OriginalUrlString>,
}

/// The in-memory aggregation of every snapshot and task log of a project.
#[derive(Debug, PartialEq, Eq)]
pub struct ProjectLog {
    pub snapshot_logs: Vec<SnapshotLog>,
    pub task_logs: Vec<TaskLog>,
}

impl ProjectLog {
    /// An empty project log.
    pub fn new() -> (r: ProjectLog)
        ensures
            r.snapshot_logs@.len() == 0,
            r.task_logs@.len() == 0,
    {
        ProjectLog { snapshot_logs: Vec::new(), task_logs: Vec::new() }
    }

    /// A URL should be visited unless some in-memory task log mentions it.
    pub fn should_visit(&self, given_url: &str) -> (r: bool)
        ensures
            r == !exists|i: int, j: int|
                0 <= i < self.task_logs@.len() && 0 <= j
                    < (#[trigger] self.task_logs@[i]).entries@.len() && status_mentions(
                    #[trigger] self.task_logs@[i].entries@[j],
                    given_url@,
                ),
    {
        let empty: Vec<Status> = Vec::new();
        let mut i: usize = 0;
        while i < self.task_logs.len()
            invariant
                i <= self.task_logs@.len(),
                forall|a: int, j: int|
                    0 <= a < i && 0 <= j < (#[trigger] self.task_logs@[a]).entries@.len()
                        ==> !status_mentions(#[trigger] self.task_logs@[a].entries@[j], given_url@),
        decreases self.task_logs@.len() - i,
        {
            if self.task_logs[i].contains_url(given_url, &empty) {
                return false;
            }
            i = i + 1;
        }
        true
    }
}

} // verus!
