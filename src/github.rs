//! The remote API side: the records it returns, and the decisions of a
//! cache-aware, rate-limited fetch of one resource or of a paginated list.
//! The fetch is a state machine: the caller performs each returned action
//! (look at the cache, sleep, send a request, ...) and hands back what came of
//! it as the next event.
use vstd::prelude::*;

use crate::cache::{
    is_stale, is_stale_spec, list_page_path, list_page_path_spec, owner_dir, owner_dir_spec,
    traffic_path, traffic_path_spec, MAX_FILE_AGE_SECS,
};
use crate::date::CalDate;
use crate::links::{has_next_link, has_next_spec};
use crate::text::{decimal, push_decimal};
use crate::{stat_word, StatType};

verus! {

/// Pause before every request to the remote API, in milliseconds.
pub const RATE_LIMIT_MS: u64 = 300;

/// The only response status that is a success.
pub const STATUS_OK: u16 = 200;

/// Repositories asked for per page of a list.
pub const PER_PAGE: u64 = 100;

/// One day of a traffic facet, as the remote API reports it.
#[derive(Clone, Copy, Debug, PartialEq, Eq, Structural)]
pub struct DayStats {
    pub timestamp: CalDate,
    pub count: u64,
    pub uniques: u64,
}

/// The clone traffic of a repository: totals and the days they come from.
pub struct CloningStats {
    pub count: u64,
    pub uniques: u64,
    pub clones: Vec<DayStats>,
}

/// The view traffic of a repository: totals and the days they come from.
pub struct ViewStats {
    pub count: u64,
    pub uniques: u64,
    pub views: Vec<DayStats>,
}

/// The license of a repository.
pub struct License {
    pub key: String,
    pub name: String,
    pub spdx_id: String,
    pub url: Option<String>,
    pub node_id: String,
}

/// The account that owns a repository.
pub struct Owner {
    pub login: String,
    pub id: u64,
    pub node_id: String,
    pub avatar_url: String,
    pub gravatar_id: String,
    pub url: String,
    pub html_url: String,
    pub followers_url: String,
    pub following_url: String,
    pub gists_url: String,
    pub starred_url: String,
    pub subscriptions_url: String,
    pub organizations_url: String,
    pub repos_url: String,
    pub events_url: String,
    pub received_events_url: String,
    pub owner_type: String,
    pub site_admin: bool,
}

/// What the token may do with a repository.
#[derive(Clone, Copy, Debug, PartialEq, Eq, Structural)]
pub struct Permissions {
    pub admin: bool,
    pub maintain: bool,
    pub push: bool,
    pub triage: bool,
    pub pull: bool,
}

/// What is fetched: a paginated list of an owner's repositories, or one
/// traffic facet of a repository.
pub enum FetchTarget {
    RepoList { owner: String },
    Traffic { owner: String, repo: String, kind: StatType },
}

#[derive(Clone, Copy, Debug, PartialEq, Eq, Structural)]
pub enum Phase {
    Inspecting,
    Removing,
    Reading,
    Sleeping,
    Requesting,
    Storing,
    Decoding,
    Done,
    Failed,
}

/// Why a fetch failed.
pub enum FetchError {
    /// The cache could not be read or written.
    Io(String),
    /// The request could not be sent or its answer not received.
    Network(String),
    /// The answer had a status other than success.
    Status(u16),
    /// The answer, or the cache entry, was empty.
    Empty,
    /// The payload could not be decoded.
    Decode(String),
    /// The page number would pass `u64::MAX`.
    PageLimit,
    /// The event does not fit the state the fetch is in.
    Unexpected,
}

/// What the caller is to do next.
pub enum Action {
    /// Make sure `dir` exists, then report whether `path` exists and, if so,
    /// its age in seconds.
    Inspect { dir: String, path: String },
    /// Delete the stale entry `path`.
    Remove { path: String },
    /// Read the entry `path`.
    Read { path: String },
    /// Sleep for `millis` milliseconds.
    Sleep { millis: u64 },
    /// Send a GET request to `url`.
    Get { url: String },
    /// Write `body` to a temporary file and move it to `path`.
    Store { path: String, body: String },
    /// Decode `body` into records.
    Decode { body: String },
    /// Nothing: the records are ready.
    Finish,
    /// Nothing: the fetch failed.
    Fail { error: FetchError },
}

/// What came of the last action.
pub enum Event<T> {
    Missing,
    Present { age_secs: u64 },
    Removed,
    Loaded { body: String },
    Slept,
    Response { status: u16, link: Option<String>, body: String },
    Stored,
    Decoded { items: Vec<T> },
    IoFailed { reason: String },
    NetworkFailed { reason: String },
    DecodeFailed { reason: String },
}

pub open spec fn list_url_spec(owner: Seq<char>, page: nat) -> Seq<char> {
    "https://api.github.com/users/"@ + owner
        + "/repos?type=all&sort=created&direction=asc&per_page="@ + decimal(PER_PAGE as nat)
        + "&page="@ + decimal(page)
}

pub open spec fn traffic_url_spec(owner: Seq<char>, repo: Seq<char>, t: StatType) -> Seq<char> {
    "https://api.github.com/repos/"@ + owner + "/"@ + repo + "/traffic/"@ + stat_word(t)
        + "?per=day"@
}

/// The cache entry of page `page` of `target`.
pub open spec fn entry_path(target: FetchTarget, page: nat) -> Seq<char> {
    match target {
        FetchTarget::RepoList { owner } => list_page_path_spec(owner@, page),
        FetchTarget::Traffic { owner, repo, kind } => traffic_path_spec(owner@, repo@, kind),
    }
}

pub open spec fn entry_dir(target: FetchTarget) -> Seq<char> {
    match target {
        FetchTarget::RepoList { owner } => owner_dir_spec(owner@),
        FetchTarget::Traffic { owner, .. } => owner_dir_spec(owner@),
    }
}

/// The request for page `page` of `target`.
pub open spec fn request_url(target: FetchTarget, page: nat) -> Seq<char> {
    match target {
        FetchTarget::RepoList { owner } => list_url_spec(owner@, page),
        FetchTarget::Traffic { owner, repo, kind } => traffic_url_spec(owner@, repo@, kind),
    }
}

/// Whether a response advertises a further page of `target`: only a list has
/// pages, and only a `next` link announces one.
pub open spec fn advertises_next(target: FetchTarget, link: Option<String>) -> bool {
    &&& target is RepoList
    &&& link matches Some(l)
    &&& has_next_spec(l@)
}

/// One fetch in progress.
pub struct Fetch<T> {
    pub target: FetchTarget,
    pub page: u64,
    pub phase: Phase,
    pub has_next: bool,
    pub cached: bool,
    pub body: String,
    pub items: Vec<T>,
    pub delay_millis: u64,
    pub ttl_secs: u64,
}

/// Whether the page just decoded, of `count` records, is followed by another.
/// A page from the network is when it advertised a `next` link. A page from the
/// cache keeps no header: it is when it is a full page of a list, since only the
/// last page of a list is short.
pub open spec fn continues<T>(s: Fetch<T>, count: nat) -> bool {
    if s.cached {
        s.target is RepoList && count == PER_PAGE
    } else {
        s.has_next
    }
}

/// `post` is `pre` moved to phase `ph`, all else kept.
pub open spec fn moved<T>(pre: Fetch<T>, post: Fetch<T>, ph: Phase) -> bool {
    post == Fetch { phase: ph, ..pre }
}

/// `post` is `pre` failed with `error`, announced by `a`.
pub open spec fn failed<T>(pre: Fetch<T>, post: Fetch<T>, a: Action, error: FetchError) -> bool {
    &&& moved(pre, post, Phase::Failed)
    &&& a == Action::Fail { error }
}

pub open spec fn is_inspect_of<T>(s: Fetch<T>, a: Action) -> bool {
    &&& a matches Action::Inspect { dir, path }
    &&& dir@ == entry_dir(s.target)
    &&& path@ == entry_path(s.target, s.page as nat)
}

/// How the fetch starts.
pub open spec fn start_spec<T>(s: Fetch<T>, a: Action, target: FetchTarget) -> bool {
    &&& s.target == target
    &&& s.page == 1
    &&& s.phase == Phase::Inspecting
    &&& !s.has_next
    &&& !s.cached
    &&& s.body@ == Seq::<char>::empty()
    &&& s.items@ == Seq::<T>::empty()
    &&& s.delay_millis == RATE_LIMIT_MS
    &&& s.ttl_secs == MAX_FILE_AGE_SECS
    &&& is_inspect_of(s, a)
}

/// One step of the fetch: in state `pre`, event `e` leads to state `post` and
/// action `a`.
pub open spec fn step_spec<T>(pre: Fetch<T>, e: Event<T>, post: Fetch<T>, a: Action) -> bool {
    match (pre.phase, e) {
        (Phase::Inspecting, Event::Missing) => {
            &&& moved(pre, post, Phase::Sleeping)
            &&& a == Action::Sleep { millis: pre.delay_millis }
        },
        (Phase::Inspecting, Event::Present { age_secs }) => if is_stale_spec(
            age_secs as int,
            pre.ttl_secs as int,
        ) {
            &&& moved(pre, post, Phase::Removing)
            &&& a matches Action::Remove { path }
            &&& path@ == entry_path(pre.target, pre.page as nat)
        } else {
            &&& moved(pre, post, Phase::Reading)
            &&& a matches Action::Read { path }
            &&& path@ == entry_path(pre.target, pre.page as nat)
        },
        (Phase::Removing, Event::Removed) => {
            &&& moved(pre, post, Phase::Sleeping)
            &&& a == Action::Sleep { millis: pre.delay_millis }
        },
        (Phase::Reading, Event::Loaded { body }) => if body@.len() == 0 {
            failed(pre, post, a, FetchError::Empty)
        } else {
            &&& post == Fetch { phase: Phase::Decoding, has_next: false, cached: true, body, ..pre }
            &&& a == Action::Decode { body }
        },
        (Phase::Sleeping, Event::Slept) => {
            &&& moved(pre, post, Phase::Requesting)
            &&& a matches Action::Get { url }
            &&& url@ == request_url(pre.target, pre.page as nat)
        },
        (Phase::Requesting, Event::Response { status, link, body }) => if status != STATUS_OK {
            failed(pre, post, a, FetchError::Status(status))
        } else if body@.len() == 0 {
            failed(pre, post, a, FetchError::Empty)
        } else {
            &&& post == Fetch {
                phase: Phase::Storing,
                has_next: advertises_next(pre.target, link),
                cached: false,
                body,
                ..pre
            }
            &&& a matches Action::Store { path, body: b }
            &&& path@ == entry_path(pre.target, pre.page as nat)
            &&& b == body
        },
        (Phase::Requesting, Event::NetworkFailed { reason }) => failed(
            pre,
            post,
            a,
            FetchError::Network(reason),
        ),
        (Phase::Storing, Event::Stored) => {
            &&& moved(pre, post, Phase::Decoding)
            &&& a == Action::Decode { body: pre.body }
        },
        (Phase::Decoding, Event::Decoded { items }) => {
            &&& post.target == pre.target
            &&& post.delay_millis == pre.delay_millis
            &&& post.ttl_secs == pre.ttl_secs
            &&& post.items@ == pre.items@ + items@
            &&& if !continues(pre, items@.len()) {
                &&& post.phase == Phase::Done
                &&& post.page == pre.page
                &&& a == Action::Finish
            } else if pre.page == u64::MAX {
                &&& post.phase == Phase::Failed
                &&& a == Action::Fail { error: FetchError::PageLimit }
            } else {
                &&& post.phase == Phase::Inspecting
                &&& post.page == pre.page + 1
                &&& !post.has_next
                &&& !post.cached
                &&& is_inspect_of(post, a)
            }
        },
        (Phase::Decoding, Event::DecodeFailed { reason }) => failed(
            pre,
            post,
            a,
            FetchError::Decode(reason),
        ),
        (_, Event::IoFailed { reason }) => if pre.phase is Inspecting || pre.phase is Removing
            || pre.phase is Reading || pre.phase is Storing {
            failed(pre, post, a, FetchError::Io(reason))
        } else {
            failed(pre, post, a, FetchError::Unexpected)
        },
        _ => failed(pre, post, a, FetchError::Unexpected),
    }
}

impl<T> Fetch<T> {
    /// Starts fetching `target` with the default pause and cache lifetime: the
    /// first action looks at the cache entry of its first page.
    pub fn start(target: FetchTarget) -> (r: (Fetch<T>, Action))
        ensures
            start_spec(r.0, r.1, target),
    {
        let dir = target_dir(&target);
        let path = target_path(&target, 1);
        let f = Fetch {
            target,
            page: 1,
            phase: Phase::Inspecting,
            has_next: false,
            cached: false,
            body: String::new(),
            items: Vec::new(),
            delay_millis: RATE_LIMIT_MS,
            ttl_secs: MAX_FILE_AGE_SECS,
        };
        (f, Action::Inspect { dir, path })
    }

    fn fail(&mut self, error: FetchError) -> (a: Action)
        ensures
            failed(*old(self), *final(self), a, error),
    {
        self.phase = Phase::Failed;
        Action::Fail { error }
    }

    /// Whether the fetch has ended, with its records or with a failure.
    pub fn is_over(&self) -> (r: bool)
        ensures
            r == (self.phase is Done || self.phase is Failed),
    {
        match self.phase {
            Phase::Done | Phase::Failed => true,
            _ => false,
        }
    }

    /// Takes the outcome `e` of the last action and returns the next one.
    pub fn step(&mut self, e: Event<T>) -> (a: Action)
        ensures
            step_spec(*old(self), e, *final(self), a),
    {
        let ph = self.phase;
        match (ph, e) {
            (Phase::Inspecting, Event::Missing) => {
                self.phase = Phase::Sleeping;
                Action::Sleep { millis: self.delay_millis }
            },
            (Phase::Inspecting, Event::Present { age_secs }) => {
                let path = target_path(&self.target, self.page);
                if is_stale(age_secs, self.ttl_secs) {
                    self.phase = Phase::Removing;
                    Action::Remove { path }
                } else {
                    self.phase = Phase::Reading;
                    Action::Read { path }
                }
            },
            (Phase::Removing, Event::Removed) => {
                self.phase = Phase::Sleeping;
                Action::Sleep { millis: self.delay_millis }
            },
            (Phase::Reading, Event::Loaded { body }) => {
                if body.as_str().is_empty() {
                    self.fail(FetchError::Empty)
                } else {
                    let b = body.clone();
                    self.phase = Phase::Decoding;
                    self.has_next = false;
                    self.cached = true;
                    self.body = body;
                    Action::Decode { body: b }
                }
            },
            (Phase::Sleeping, Event::Slept) => {
                self.phase = Phase::Requesting;
                Action::Get { url: target_url(&self.target, self.page) }
            },
            (Phase::Requesting, Event::Response { status, link, body }) => {
                if status != STATUS_OK {
                    self.fail(FetchError::Status(status))
                } else if body.as_str().is_empty() {
                    self.fail(FetchError::Empty)
                } else {
                    let next = match (&self.target, &link) {
                        (FetchTarget::RepoList { .. }, Some(l)) => has_next_link(l.as_str()),
                        _ => false,
                    };
                    let path = target_path(&self.target, self.page);
                    let b = body.clone();
                    self.phase = Phase::Storing;
                    self.has_next = next;
                    self.cached = false;
                    self.body = body;
                    Action::Store { path, body: b }
                }
            },
            (Phase::Requesting, Event::NetworkFailed { reason }) => self.fail(
                FetchError::Network(reason),
            ),
            (Phase::Storing, Event::Stored) => {
                self.phase = Phase::Decoding;
                Action::Decode { body: self.body.clone() }
            },
            (Phase::Decoding, Event::Decoded { items }) => {
                let count = items.len();
                let more = if self.cached {
                    match self.target {
                        FetchTarget::RepoList { .. } => count as u64 == PER_PAGE,
                        FetchTarget::Traffic { .. } => false,
                    }
                } else {
                    self.has_next
                };
                let mut items = items;
                self.items.append(&mut items);
                if !more {
                    self.phase = Phase::Done;
                    Action::Finish
                } else if self.page == u64::MAX {
                    self.phase = Phase::Failed;
                    Action::Fail { error: FetchError::PageLimit }
                } else {
                    self.page = self.page + 1;
                    self.has_next = false;
                    self.cached = false;
                    self.phase = Phase::Inspecting;
                    let dir = target_dir(&self.target);
                    let path = target_path(&self.target, self.page);
                    Action::Inspect { dir, path }
                }
            },
            (Phase::Decoding, Event::DecodeFailed { reason }) => self.fail(
                FetchError::Decode(reason),
            ),
            (Phase::Inspecting, Event::IoFailed { reason })
            | (Phase::Removing, Event::IoFailed { reason })
            | (Phase::Reading, Event::IoFailed { reason })
            | (Phase::Storing, Event::IoFailed { reason }) => self.fail(FetchError::Io(reason)),
            _ => self.fail(FetchError::Unexpected),
        }
    }
}

/// Every request is sent right after a pause of the configured length: when
/// the second of two consecutive steps asks for a `Get`, the first asked for a
/// `Sleep` of `delay_millis`, and the pause length never changes.
pub proof fn request_follows_pause<T>(
    s0: Fetch<T>,
    e1: Event<T>,
    s1: Fetch<T>,
    a1: Action,
    e2: Event<T>,
    s2: Fetch<T>,
    a2: Action,
)
    requires
        step_spec(s0, e1, s1, a1),
        step_spec(s1, e2, s2, a2),
        a2 is Get,
    ensures
        a1 == (Action::Sleep { millis: s0.delay_millis }),
        s1.delay_millis == s0.delay_millis,
{
}

/// A fetch never starts with a request: its first action looks at the cache.
pub proof fn start_is_no_request<T>(s: Fetch<T>, a: Action, target: FetchTarget)
    requires
        start_spec(s, a, target),
    ensures
        a is Inspect,
{
}

/// A fresh cache entry is read, not fetched, and the bytes read are exactly
/// the bytes decoded.
pub proof fn fresh_entry_is_served<T>(
    s0: Fetch<T>,
    age_secs: u64,
    s1: Fetch<T>,
    a1: Action,
    body: String,
    s2: Fetch<T>,
    a2: Action,
)
    requires
        s0.phase == Phase::Inspecting,
        age_secs < s0.ttl_secs,
        step_spec(s0, Event::Present { age_secs }, s1, a1),
        step_spec(s1, Event::Loaded { body }, s2, a2),
        body@.len() > 0,
    ensures
        a1 matches Action::Read { path } && path@ == entry_path(s0.target, s0.page as nat),
        a2 == (Action::Decode { body }),
{
}

/// A list page served from the cache does not end the list while it is full:
/// its records are kept and the next page is looked up, so a fresh cached
/// first page never cuts a longer list short.
pub proof fn cached_full_page_continues<T>(
    s0: Fetch<T>,
    body: String,
    s1: Fetch<T>,
    a1: Action,
    items: Vec<T>,
    s2: Fetch<T>,
    a2: Action,
)
    requires
        s0.phase == Phase::Reading,
        s0.target is RepoList,
        s0.page < u64::MAX,
        body@.len() > 0,
        items@.len() == PER_PAGE,
        step_spec(s0, Event::Loaded { body }, s1, a1),
        step_spec(s1, Event::Decoded { items }, s2, a2),
    ensures
        s2.phase == Phase::Inspecting,
        s2.page == s0.page + 1,
        s2.items@ == s0.items@ + items@,
        is_inspect_of(s2, a2),
{
}

/// A stale cache entry is removed and fetched again exactly once: remove,
/// pause, then one request for the same resource.
pub proof fn stale_entry_is_fetched_once<T>(
    s0: Fetch<T>,
    age_secs: u64,
    s1: Fetch<T>,
    a1: Action,
    s2: Fetch<T>,
    a2: Action,
    s3: Fetch<T>,
    a3: Action,
)
    requires
        s0.phase == Phase::Inspecting,
        age_secs >= s0.ttl_secs,
        step_spec(s0, Event::Present { age_secs }, s1, a1),
        step_spec(s1, Event::Removed, s2, a2),
        step_spec(s2, Event::Slept, s3, a3),
    ensures
        a1 matches Action::Remove { path } && path@ == entry_path(s0.target, s0.page as nat),
        a2 == (Action::Sleep { millis: s0.delay_millis }),
        a3 matches Action::Get { url } && url@ == request_url(s0.target, s0.page as nat),
        s3.phase == Phase::Requesting,
{
}

/// What is stored in the cache is exactly the body that was received, and it
/// is decoded only once it is stored: the records come from the same bytes.
pub proof fn stored_body_is_decoded<T>(
    s0: Fetch<T>,
    link: Option<String>,
    body: String,
    s1: Fetch<T>,
    a1: Action,
    e2: Event<T>,
    s2: Fetch<T>,
    a2: Action,
)
    requires
        s0.phase == Phase::Requesting,
        body@.len() > 0,
        step_spec(s0, Event::Response { status: STATUS_OK, link, body }, s1, a1),
        step_spec(s1, e2, s2, a2),
        a2 is Decode,
    ensures
        a1 matches Action::Store { path, body: b } && b == body && path@ == entry_path(
            s0.target,
            s0.page as nat,
        ),
        e2 is Stored,
        a2 == (Action::Decode { body }),
{
}

/// The cache directory of `target`.
fn target_dir(target: &FetchTarget) -> (r: String)
    ensures
        r@ == entry_dir(*target),
{
    match target {
        FetchTarget::RepoList { owner } => owner_dir(owner.as_str()),
        FetchTarget::Traffic { owner, .. } => owner_dir(owner.as_str()),
    }
}

/// The cache entry of page `page` of `target`.
fn target_path(target: &FetchTarget, page: u64) -> (r: String)
    ensures
        r@ == entry_path(*target, page as nat),
{
    match target {
        FetchTarget::RepoList { owner } => list_page_path(owner.as_str(), page),
        FetchTarget::Traffic { owner, repo, kind } => traffic_path(
            owner.as_str(),
            repo.as_str(),
            *kind,
        ),
    }
}

/// The request for page `page` of `target`.
fn target_url(target: &FetchTarget, page: u64) -> (r: String)
    ensures
        r@ == request_url(*target, page as nat),
{
    match target {
        FetchTarget::RepoList { owner } => {
            let mut s = String::from_str("https://api.github.com/users/");
            s.append(owner.as_str());
            s.append("/repos?type=all&sort=created&direction=asc&per_page=");
            push_decimal(&mut s, PER_PAGE);
            s.append("&page=");
            push_decimal(&mut s, page);
            s
        },
        FetchTarget::Traffic { owner, repo, kind } => {
            let mut s = String::from_str("https://api.github.com/repos/");
            s.append(owner.as_str());
            s.append("/");
            s.append(repo.as_str());
            s.append("/traffic/");
            s.append(kind.word());
            s.append("?per=day");
            s
        },
    }
}

} // verus!
