//! Snapshots of fetched repositories, one per source, and the rule that says
//! when they are stale.

use crate::formatter::RepoSource;
use crate::github::Repository;
use std::time::{Duration, SystemTime, SystemTimeError};
use vstd::prelude::*;

verus! {

/// Seconds after which a snapshot counts as stale: thirty minutes.
pub const CACHE_EXPIRY_SECS: u64 = 1800;

/// When a snapshot was taken, and for which user.
pub struct SourceCache {
    pub timestamp: u64,
    pub username: String,
}

/// The snapshots of both sources; either may be absent.
pub struct CacheData {
    pub github: Option<SourceData>,
    pub gitlab: Option<SourceData>,
}

/// The snapshot of one source.
pub struct SourceData {
    pub cache_info: SourceCache,
    pub repositories: Vec<RepoData>,
}

/// One repository of the searchable corpus.
#[derive(Clone)]
pub struct RepoData {
    pub name: String,
    pub url: String,
    pub description: String,
    pub owner: String,
    pub is_fork: bool,
    pub is_private: bool,
    pub source: RepoSource,
}

/// Whether a snapshot taken at `timestamp` is stale at `now`: strictly more
/// than the expiry window lies between the two. A snapshot that is exactly
/// thirty minutes old is still fresh, and so is one stamped in the future.
pub open spec fn expired_at(timestamp: u64, now: u64) -> bool {
    now - timestamp > CACHE_EXPIRY_SECS
}

/// Whether a snapshot, where there is one, is stale at `now`.
pub open spec fn source_expired_at(source: Option<SourceData>, now: u64) -> bool {
    source is Some && expired_at(source->0.cache_info.timestamp, now)
}

/// The repositories of a snapshot, none where it is absent.
pub open spec fn source_repositories(source: Option<SourceData>) -> Seq<RepoData> {
    match source {
        Some(data) => data.repositories@,
        None => Seq::empty(),
    }
}

/// The record that a source's tuple stands for.
pub open spec fn repo_data_of(repo: Repository, source: RepoSource) -> RepoData {
    RepoData {
        name: repo.0,
        url: repo.1,
        description: repo.2,
        owner: repo.3,
        is_fork: repo.4,
        is_private: repo.5,
        source,
    }
}

/// Each tuple of a source as a record.
pub open spec fn repo_data_seq(repos: Seq<Repository>, source: RepoSource) -> Seq<RepoData> {
    Seq::new(repos.len(), |i: int| repo_data_of(repos[i], source))
}

/// The system clock's point in time; nothing is known of what it holds.
#[verifier::external_type_specification]
#[verifier::external_body]
pub struct ExSystemTime(std::time::SystemTime);

/// The error of a point in time that lies before another; nothing is known
/// of what it holds.
#[verifier::external_type_specification]
#[verifier::external_body]
pub struct ExSystemTimeError(std::time::SystemTimeError);

/// Calls `SystemTime::now`. Nothing is claimed of the result.
#[verifier::external_body]
pub(crate) fn clock_now() -> (now: SystemTime) {
    SystemTime::now()
}

/// Calls `SystemTime::duration_since` with the Unix epoch, which fails
/// where the point in time lies before the epoch. Nothing is claimed of
/// the result.
#[verifier::external_body]
pub(crate) fn since_epoch(time: &SystemTime) -> (elapsed: Result<Duration, SystemTimeError>) {
    time.duration_since(SystemTime::UNIX_EPOCH)
}

/// Calls `Duration::as_secs`. Nothing is claimed of the result.
#[verifier::external_body]
pub(crate) fn whole_seconds(elapsed: &Duration) -> (secs: u64) {
    elapsed.as_secs()
}

/// The seconds since the Unix epoch by the system clock, zero where the
/// clock stands before the epoch.
pub(crate) fn unix_now() -> (now: u64) {
    let time = clock_now();
    match since_epoch(&time) {
        Ok(elapsed) => whole_seconds(&elapsed),
        Err(_) => 0,
    }
}

impl RepoData {
    /// An equal record of its own.
    pub fn duplicate(&self) -> (copy: RepoData)
        ensures
            copy == *self,
    {
        RepoData {
            name: self.name.clone(),
            url: self.url.clone(),
            description: self.description.clone(),
            owner: self.owner.clone(),
            is_fork: self.is_fork,
            is_private: self.is_private,
            source: self.source,
        }
    }
}

/// Appends an equal copy of every record of `more` to `all`.
pub fn extend_with_copies(all: &mut Vec<RepoData>, more: &Vec<RepoData>)
    ensures
        final(all)@ == old(all)@ + more@,
{
    let mut i: usize = 0;
    while i < more.len()
        invariant
            i <= more.len(),
            all@ == old(all)@ + more@.take(i as int),
        decreases more.len() - i,
    {
        all.push(more[i].duplicate());
        assert(more@.take(i + 1) =~= more@.take(i as int).push(more@[i as int]));
        i = i + 1;
    }
    assert(more@.take(more.len() as int) =~= more@);
}

impl SourceCache {
    /// The stamp of a snapshot taken for `username` at `timestamp`.
    pub fn at(username: String, timestamp: u64) -> (stamp: Self)
        ensures
            stamp.username == username,
            stamp.timestamp == timestamp,
    {
        Self { timestamp, username }
    }

    /// The stamp of a snapshot taken for `username` now. The timestamp is
    /// whatever the clock says.
    pub fn new(username: String) -> (stamp: Self)
        ensures
            stamp.username == username,
    {
        let now = unix_now();
        Self::at(username, now)
    }

    /// Whether the snapshot is stale at `now`.
    pub fn is_expired_at(&self, now: u64) -> (expired: bool)
        ensures
            expired == expired_at(self.timestamp, now),
    {
        now > self.timestamp && now - self.timestamp > CACHE_EXPIRY_SECS
    }

    /// Whether the snapshot is stale by the clock: the answer is that of
    /// `is_expired_at` for the time that the clock gave.
    pub fn is_expired(&self) -> (expired: bool)
        ensures
            exists|now: u64| expired == #[trigger] expired_at(self.timestamp, now),
    {
        let now = unix_now();
        self.is_expired_at(now)
    }
}

impl CacheData {
    /// Whether the combined cache is stale at `now`: a snapshot that is
    /// present is stale, or no snapshot is present at all.
    pub open spec fn expired_at(&self, now: u64) -> bool {
        ||| source_expired_at(self.github, now)
        ||| source_expired_at(self.gitlab, now)
        ||| (self.github is None && self.gitlab is None)
    }

    /// Whether the cache can stand in for a fetch at `now`: every source that
    /// is asked for has a snapshot, and the cache is not stale.
    pub open spec fn serves_at(&self, want_github: bool, want_gitlab: bool, now: u64) -> bool {
        &&& !self.expired_at(now)
        &&& want_github ==> self.github is Some
        &&& want_gitlab ==> self.gitlab is Some
    }

    /// The repositories of both snapshots, GitHub's first.
    pub open spec fn all_repositories(&self) -> Seq<RepoData> {
        source_repositories(self.github) + source_repositories(self.gitlab)
    }

    /// A cache without snapshots.
    pub fn new() -> (cache: Self)
        ensures
            cache.github is None,
            cache.gitlab is None,
    {
        Self { github: None, gitlab: None }
    }

    /// Whether the combined cache is stale at `now`.
    pub fn is_expired_at(&self, now: u64) -> (expired: bool)
        ensures
            expired == self.expired_at(now),
    {
        if let Some(github) = &self.github {
            if github.cache_info.is_expired_at(now) {
                return true;
            }
        }
        if let Some(gitlab) = &self.gitlab {
            if gitlab.cache_info.is_expired_at(now) {
                return true;
            }
        }
        self.github.is_none() && self.gitlab.is_none()
    }

    /// Whether the combined cache is stale by the clock: the answer is that
    /// of `is_expired_at` for the time that the clock gave. A cache without
    /// snapshots is stale whatever the clock says.
    pub fn is_expired(&self) -> (expired: bool)
        ensures
            exists|now: u64| expired == #[trigger] self.expired_at(now),
            self.github is None && self.gitlab is None ==> expired,
    {
        let now = unix_now();
        self.is_expired_at(now)
    }

    /// Whether the cache can stand in for a fetch of the sources asked for.
    pub fn serves(&self, want_github: bool, want_gitlab: bool, now: u64) -> (ok: bool)
        ensures
            ok == self.serves_at(want_github, want_gitlab, now),
    {
        !self.is_expired_at(now) && (!want_github || self.github.is_some()) && (!want_gitlab
            || self.gitlab.is_some())
    }

    /// Replaces GitHub's snapshot by one taken at `now`.
    pub fn update_github_at(&mut self, username: String, repositories: Vec<RepoData>, now: u64)
        ensures
            final(self).github == Some(
                SourceData { cache_info: SourceCache { timestamp: now, username }, repositories },
            ),
            final(self).gitlab == old(self).gitlab,
    {
        self.github = Some(SourceData { cache_info: SourceCache::at(username, now), repositories });
    }

    /// Replaces GitLab's snapshot by one taken at `now`.
    pub fn update_gitlab_at(&mut self, username: String, repositories: Vec<RepoData>, now: u64)
        ensures
            final(self).gitlab == Some(
                SourceData { cache_info: SourceCache { timestamp: now, username }, repositories },
            ),
            final(self).github == old(self).github,
    {
        self.gitlab = Some(SourceData { cache_info: SourceCache::at(username, now), repositories });
    }

    /// Replaces GitHub's snapshot by one taken now, by the clock.
    pub fn update_github(&mut self, username: String, repositories: Vec<RepoData>)
        ensures
            final(self).github is Some,
            final(self).github->0.cache_info.username == username,
            final(self).github->0.repositories == repositories,
            final(self).gitlab == old(self).gitlab,
    {
        let now = unix_now();
        self.update_github_at(username, repositories, now);
    }

    /// Replaces GitLab's snapshot by one taken now, by the clock.
    pub fn update_gitlab(&mut self, username: String, repositories: Vec<RepoData>)
        ensures
            final(self).gitlab is Some,
            final(self).gitlab->0.cache_info.username == username,
            final(self).gitlab->0.repositories == repositories,
            final(self).github == old(self).github,
    {
        let now = unix_now();
        self.update_gitlab_at(username, repositories, now);
    }

    /// The repositories of both snapshots, GitHub's first.
    pub fn get_all_repositories(&self) -> (all: Vec<RepoData>)
        ensures
            all@ == self.all_repositories(),
    {
        let mut all_repos: Vec<RepoData> = Vec::new();
        if let Some(github) = &self.github {
            extend_with_copies(&mut all_repos, &github.repositories);
        }
        if let Some(gitlab) = &self.gitlab {
            extend_with_copies(&mut all_repos, &gitlab.repositories);
        }
        assert(all_repos@ =~= self.all_repositories());
        all_repos
    }
}

/// Converts a GitHub repository tuple to the unified record.
pub fn github_repo_to_repo_data(repo: &Repository) -> (data: RepoData)
    ensures
        data == repo_data_of(*repo, RepoSource::GitHub),
{
    RepoData {
        name: repo.0.clone(),
        url: repo.1.clone(),
        description: repo.2.clone(),
        owner: repo.3.clone(),
        is_fork: repo.4,
        is_private: repo.5,
        source: RepoSource::GitHub,
    }
}

/// Converts a GitLab repository tuple to the unified record.
pub fn gitlab_repo_to_repo_data(repo: &Repository) -> (data: RepoData)
    ensures
        data == repo_data_of(*repo, RepoSource::GitLab),
{
    RepoData {
        name: repo.0.clone(),
        url: repo.1.clone(),
        description: repo.2.clone(),
        owner: repo.3.clone(),
        is_fork: repo.4,
        is_private: repo.5,
        source: RepoSource::GitLab,
    }
}

/// Converts every tuple of a source to the unified record, in order.
pub fn repos_to_repo_data(repos: &Vec<Repository>, source: RepoSource) -> (data: Vec<RepoData>)
    ensures
        data@ == repo_data_seq(repos@, source),
{
    let mut data: Vec<RepoData> = Vec::new();
    let mut i: usize = 0;
    while i < repos.len()
        invariant
            i <= repos.len(),
            data@ == repo_data_seq(repos@.take(i as int), source),
        decreases repos.len() - i,
    {
        let record = match source {
            RepoSource::GitHub => github_repo_to_repo_data(&repos[i]),
            RepoSource::GitLab => gitlab_repo_to_repo_data(&repos[i]),
        };
        data.push(record);
        assert(data@ =~= repo_data_seq(repos@.take(i + 1), source));
        i = i + 1;
    }
    assert(repos@.take(repos.len() as int) =~= repos@);
    data
}

/// One stale snapshot makes the combined cache stale, however fresh the
/// other snapshot is.
pub proof fn lemma_one_stale_source_expires_all(cache: CacheData, now: u64)
    requires
        source_expired_at(cache.github, now) || source_expired_at(cache.gitlab, now),
    ensures
        cache.expired_at(now),
        forall|want_github: bool, want_gitlab: bool|
            !#[trigger] cache.serves_at(want_github, want_gitlab, now),
{
}

/// The expiry window is open at its end: a snapshot is stale from the
/// second after thirty minutes on, and fresh up to and at thirty minutes.
pub proof fn lemma_expiry_boundary(timestamp: u64, now: u64)
    ensures
        now - timestamp >= CACHE_EXPIRY_SECS + 1 ==> expired_at(timestamp, now),
        now - timestamp <= CACHE_EXPIRY_SECS ==> !expired_at(timestamp, now),
{
}

} // verus!
