//! The refresh cycle: whether the cache can serve, what each fetch outcome
//! adds to the corpus and to the cache, and the messages that tell the
//! picker about it. Fetching, saving and sending are left to the caller.

use crate::cache::{
    extend_with_copies, repo_data_seq, repos_to_repo_data, source_repositories, CacheData,
    RepoData, SourceData,
};
use crate::formatter::{
    format_repository, repo_info_view, repository_text, RepoSource,
};
use crate::github::{dummy_at, dummy_username, generate_dummy_repos, Repository};
use crate::text::{decimal, decimal_of, join_text, same_text};
use vstd::prelude::*;
use vstd::string::*;

verus! {

/// Message type for repository updates.
pub enum RepoUpdateMessage {
    /// New repositories have been loaded: the whole corpus so far.
    NewRepos { repos: Vec<RepoData>, github_username: String, gitlab_username: String },
    /// Background loading has completed.
    LoadingComplete,
    /// An error occurred during loading.
    Error(String),
    /// Status update message.
    Status(String),
}

/// A message as plain values.
pub enum MessageView {
    NewRepos { repos: Seq<RepoData>, github_username: Seq<char>, gitlab_username: Seq<char> },
    LoadingComplete,
    Error(Seq<char>),
    Status(Seq<char>),
}

impl View for RepoUpdateMessage {
    type V = MessageView;

    open spec fn view(&self) -> MessageView {
        match *self {
            RepoUpdateMessage::NewRepos { repos, github_username, gitlab_username } => {
                MessageView::NewRepos {
                    repos: repos@,
                    github_username: github_username@,
                    gitlab_username: gitlab_username@,
                }
            },
            RepoUpdateMessage::LoadingComplete => MessageView::LoadingComplete,
            RepoUpdateMessage::Error(text) => MessageView::Error(text@),
            RepoUpdateMessage::Status(text) => MessageView::Status(text@),
        }
    }
}

/// The messages of a sequence as plain values.
pub open spec fn message_views(messages: Seq<RepoUpdateMessage>) -> Seq<MessageView> {
    Seq::new(messages.len(), |i: int| messages[i]@)
}

/// The display line of each repository.
pub open spec fn display_texts(repos: Seq<RepoData>) -> Seq<Seq<char>> {
    Seq::new(
        repos.len(),
        |i: int|
            repository_text(
                repos[i].name@,
                repos[i].description@,
                repos[i].is_fork,
                repos[i].is_private,
            ),
    )
}

/// The display line of each repository, in order.
pub fn display_lines(repos: &Vec<RepoData>) -> (lines: Vec<String>)
    ensures
        crate::filter::texts(lines@) == display_texts(repos@),
{
    let mut lines: Vec<String> = Vec::new();
    let mut i: usize = 0;
    while i < repos.len()
        invariant
            i <= repos.len(),
            lines.len() == i,
            forall|k: int|
                0 <= k < i ==> (#[trigger] lines@[k])@ == repository_text(
                    repos@[k].name@,
                    repos@[k].description@,
                    repos@[k].is_fork,
                    repos@[k].is_private,
                ),
        decreases repos.len() - i,
    {
        let repo = &repos[i];
        lines.push(
            format_repository(
                repo.name.as_str(),
                repo.description.as_str(),
                repo.is_fork,
                repo.is_private,
            ),
        );
        i = i + 1;
    }
    assert(crate::filter::texts(lines@) =~= display_texts(repos@));
    lines
}

/// The name of a source in messages.
pub open spec fn source_label(source: RepoSource) -> Seq<char> {
    match source {
        RepoSource::GitHub => "GitHub"@,
        RepoSource::GitLab => "GitLab"@,
    }
}

/// The name of a source in messages.
pub fn source_name(source: RepoSource) -> (name: &'static str)
    ensures
        name@ == source_label(source),
{
    match source {
        RepoSource::GitHub => "GitHub",
        RepoSource::GitLab => "GitLab",
    }
}

/// The status that announces a fetch.
pub open spec fn fetching_text(source: RepoSource) -> Seq<char> {
    "Fetching "@ + source_label(source) + " repositories..."@
}

/// The status that reports how many repositories a source gave.
pub open spec fn fetched_text(source: RepoSource, count: nat) -> Seq<char> {
    "Fetched "@ + decimal_of(count) + " "@ + source_label(source) + " repositories"@
}

/// The error that reports a failed fetch: the source and the cause.
pub open spec fn fetch_error_text(source: RepoSource, cause: Seq<char>) -> Seq<char> {
    source_label(source) + " error: "@ + cause
}

/// The status that reports how many repositories the cache gave.
pub open spec fn loaded_text(count: nat) -> Seq<char> {
    "Loaded "@ + decimal_of(count) + " repositories from cache"@
}

/// The status that announces the fetch of a source.
pub fn fetching_status(source: RepoSource) -> (message: RepoUpdateMessage)
    ensures
        message@ == MessageView::Status(fetching_text(source)),
{
    let a = join_text("Fetching ", source_name(source));
    RepoUpdateMessage::Status(join_text(a.as_str(), " repositories..."))
}

/// The user name of a snapshot, or `fallback` where the snapshot is absent.
pub open spec fn username_or(source: Option<SourceData>, fallback: Seq<char>) -> Seq<char> {
    match source {
        Some(data) => data.cache_info.username@,
        None => fallback,
    }
}

/// Whether the cache is used at start: it is not passed over by force,
/// there is one, it holds every source that is asked for, and it is fresh.
pub open spec fn cache_hit(
    force_download: bool,
    want_github: bool,
    want_gitlab: bool,
    cached: Option<CacheData>,
    now: u64,
) -> bool {
    !force_download && cached is Some && cached->0.serves_at(want_github, want_gitlab, now)
}

/// The statuses at start, before anything is fetched.
pub open spec fn startup_texts(
    force_download: bool,
    want_github: bool,
    want_gitlab: bool,
    cached: Option<CacheData>,
    now: u64,
    held_before: nat,
) -> Seq<MessageView> {
    if force_download {
        seq![MessageView::Status("Force downloading repositories in background"@)] + waiting_texts(
            held_before,
        )
    } else if cached is None {
        seq![MessageView::Status("No cache found, will fetch repositories in background"@)]
            + waiting_texts(held_before)
    } else if !cached->0.serves_at(want_github, want_gitlab, now) {
        seq![MessageView::Status("Cache expired, will fetch fresh data in background"@)]
            + waiting_texts(held_before)
    } else {
        seq![
            MessageView::Status("Using cached repositories"@),
            MessageView::Status(loaded_text(cached->0.all_repositories().len())),
        ]
    }
}

/// The status that says that the picker starts empty, where it does.
pub open spec fn waiting_texts(held: nat) -> Seq<MessageView> {
    if held == 0 {
        seq![MessageView::Status("Waiting for initial repository data..."@)]
    } else {
        Seq::empty()
    }
}

/// Serves the corpus from the cache where the cache can serve, and says in
/// statuses what was done. On a hit the corpus is replaced by the cache's
/// repositories and each user name by that of its snapshot; on a miss
/// nothing is changed. The returned flag says whether it was a hit.
pub fn start_from_cache(
    force_download: bool,
    want_github: bool,
    want_gitlab: bool,
    cached: &Option<CacheData>,
    now: u64,
    all_repos: &mut Vec<RepoData>,
    github_username: &mut String,
    gitlab_username: &mut String,
) -> (out: (bool, Vec<RepoUpdateMessage>))
    ensures
        out.0 == cache_hit(force_download, want_github, want_gitlab, *cached, now),
        message_views(out.1@) == startup_texts(
            force_download,
            want_github,
            want_gitlab,
            *cached,
            now,
            old(all_repos)@.len(),
        ),
        out.0 ==> final(all_repos)@ == cached->0.all_repositories(),
        out.0 ==> final(github_username)@ == username_or(cached->0.github, old(github_username)@),
        out.0 ==> final(gitlab_username)@ == username_or(cached->0.gitlab, old(gitlab_username)@),
        !out.0 ==> final(all_repos)@ == old(all_repos)@,
        !out.0 ==> final(github_username)@ == old(github_username)@,
        !out.0 ==> final(gitlab_username)@ == old(gitlab_username)@,
{
    let mut messages: Vec<RepoUpdateMessage> = Vec::new();
    let mut cache_loaded = false;
    if !force_download {
        match cached {
            Some(cache_data) => {
                if cache_data.serves(want_github, want_gitlab, now) {
                    messages.push(
                        RepoUpdateMessage::Status(String::from_str("Using cached repositories")),
                    );
                    *all_repos = cache_data.get_all_repositories();
                    if let Some(github) = &cache_data.github {
                        *github_username = github.cache_info.username.clone();
                    }
                    if let Some(gitlab) = &cache_data.gitlab {
                        *gitlab_username = gitlab.cache_info.username.clone();
                    }
                    let a = join_text("Loaded ", decimal(all_repos.len()).as_str());
                    messages.push(
                        RepoUpdateMessage::Status(join_text(a.as_str(), " repositories from cache")),
                    );
                    cache_loaded = true;
                } else {
                    messages.push(
                        RepoUpdateMessage::Status(
                            String::from_str("Cache expired, will fetch fresh data in background"),
                        ),
                    );
                }
            },
            None => {
                messages.push(
                    RepoUpdateMessage::Status(
                        String::from_str("No cache found, will fetch repositories in background"),
                    ),
                );
            },
        }
    } else {
        messages.push(
            RepoUpdateMessage::Status(
                String::from_str("Force downloading repositories in background"),
            ),
        );
    }
    if !cache_loaded && all_repos.len() == 0 {
        messages.push(
            RepoUpdateMessage::Status(String::from_str("Waiting for initial repository data...")),
        );
    }
    assert(message_views(messages@) =~= startup_texts(
        force_download,
        want_github,
        want_gitlab,
        *cached,
        now,
        old(all_repos)@.len(),
    ));
    (cache_loaded, messages)
}

/// One refresh cycle: the corpus merged so far, the cache that will be
/// written, and which sources are still awaited.
pub struct RefreshCycle {
    /// The snapshots of the sources that have succeeded.
    pub cache_data: CacheData,
    /// The repositories of the sources that have succeeded, in the order in
    /// which the sources came in.
    pub all_repos: Vec<RepoData>,
    pub github_username: String,
    pub gitlab_username: String,
    /// GitHub is asked for and has not come in yet.
    pub github_pending: bool,
    /// GitLab is asked for and has not come in yet.
    pub gitlab_pending: bool,
    /// The cycle has emitted its completion.
    pub finished: bool,
}

/// The snapshot that a cache holds for a source.
pub open spec fn snapshot_of(cache: CacheData, source: RepoSource) -> Option<SourceData> {
    match source {
        RepoSource::GitHub => cache.github,
        RepoSource::GitLab => cache.gitlab,
    }
}

/// The messages for a source that came in: the corpus merged so far with
/// the user names known by then, and the count of what the source gave.
pub open spec fn fetched_messages(
    source: RepoSource,
    merged: Seq<RepoData>,
    github_username: Seq<char>,
    gitlab_username: Seq<char>,
    count: nat,
) -> Seq<MessageView> {
    seq![
        MessageView::NewRepos { repos: merged, github_username, gitlab_username },
        MessageView::Status(fetched_text(source, count)),
    ]
}

/// The messages that close a cycle: the word that the cache was written,
/// where it was, then the completion. A cache that could not be written is
/// no matter for the picker: nothing is said of it, and the caller logs the
/// cause.
pub open spec fn closing_messages(cache_saved: bool) -> Seq<MessageView> {
    if cache_saved {
        seq![MessageView::Status("Cache updated successfully"@), MessageView::LoadingComplete]
    } else {
        seq![MessageView::LoadingComplete]
    }
}

/// A cycle closes without an error, however writing the cache went, and
/// the completion is its last message.
pub proof fn lemma_closing_holds_no_error(cache_saved: bool)
    ensures
        forall|k: int|
            0 <= k < closing_messages(cache_saved).len() ==> !(#[trigger] closing_messages(
                cache_saved,
            )[k] is Error),
        forall|k: int|
            0 <= k < closing_messages(cache_saved).len() ==> !(#[trigger] closing_messages(
                cache_saved,
            )[k] is NewRepos),
        closing_messages(cache_saved).last() is LoadingComplete,
{
}

impl RefreshCycle {
    /// Whether the source is still awaited.
    pub open spec fn awaits(&self, source: RepoSource) -> bool {
        !self.finished && match source {
            RepoSource::GitHub => self.github_pending,
            RepoSource::GitLab => self.gitlab_pending,
        }
    }

    /// Every source that was asked for has come in, and the cycle is not
    /// closed yet.
    pub open spec fn settled(&self) -> bool {
        !self.finished && !self.github_pending && !self.gitlab_pending
    }

    /// What holds of a cycle from its start on, and is kept by every step:
    /// a source that is awaited has no snapshot, and the corpus is made of
    /// the snapshots, in the order in which they came in.
    pub open spec fn wf(&self) -> bool {
        &&& self.github_pending ==> self.cache_data.github is None
        &&& self.gitlab_pending ==> self.cache_data.gitlab is None
        &&& {
            ||| self.all_repos@ == source_repositories(self.cache_data.github)
                + source_repositories(self.cache_data.gitlab)
            ||| self.all_repos@ == source_repositories(self.cache_data.gitlab)
                + source_repositories(self.cache_data.github)
        }
    }

    /// A cycle that awaits the sources asked for, with an empty corpus and
    /// an empty cache.
    pub fn new(want_github: bool, want_gitlab: bool) -> (cycle: Self)
        ensures
            cycle.wf(),
            cycle.cache_data.github is None,
            cycle.cache_data.gitlab is None,
            cycle.all_repos@.len() == 0,
            cycle.github_username@.len() == 0,
            cycle.gitlab_username@.len() == 0,
            cycle.github_pending == want_github,
            cycle.gitlab_pending == want_gitlab,
            !cycle.finished,
    {
        let cycle = Self {
            cache_data: CacheData::new(),
            all_repos: Vec::new(),
            github_username: String::new(),
            gitlab_username: String::new(),
            github_pending: want_github,
            gitlab_pending: want_gitlab,
            finished: false,
        };
        assert(cycle.all_repos@ =~= source_repositories(cycle.cache_data.github)
            + source_repositories(cycle.cache_data.gitlab));
        cycle
    }

    /// Whether the source is still awaited.
    pub fn is_awaited(&self, source: RepoSource) -> (awaited: bool)
        ensures
            awaited == self.awaits(source),
    {
        !self.finished && match source {
            RepoSource::GitHub => self.github_pending,
            RepoSource::GitLab => self.gitlab_pending,
        }
    }

    /// Whether the cycle is ready to be closed.
    pub fn is_settled(&self) -> (settled: bool)
        ensures
            settled == self.settled(),
    {
        !self.finished && !self.github_pending && !self.gitlab_pending
    }

    /// Takes in what an awaited source gave at `now`: its repositories are
    /// added behind the corpus, its snapshot is put into the cache, and the
    /// messages carry the corpus merged so far and the count. The other
    /// source is left as it is. For a source that is not awaited nothing
    /// changes and nothing is said.
    pub fn source_fetched(
        &mut self,
        source: RepoSource,
        username: String,
        repos: &Vec<Repository>,
        now: u64,
    ) -> (messages: Vec<RepoUpdateMessage>)
        ensures
            old(self).wf() ==> final(self).wf(),
            !old(self).awaits(source) ==> *final(self) == *old(self) && messages@.len() == 0,
            old(self).awaits(source) ==> {
                &&& final(self).all_repos@ == old(self).all_repos@ + repo_data_seq(repos@, source)
                &&& snapshot_of(final(self).cache_data, source) is Some
                &&& snapshot_of(final(self).cache_data, source)->0.repositories@ == repo_data_seq(
                    repos@,
                    source,
                )
                &&& snapshot_of(final(self).cache_data, source)->0.cache_info.username@
                    == username@
                &&& snapshot_of(final(self).cache_data, source)->0.cache_info.timestamp == now
                &&& !final(self).awaits(source)
                &&& final(self).finished == old(self).finished
                &&& message_views(messages@) == fetched_messages(
                    source,
                    final(self).all_repos@,
                    final(self).github_username@,
                    final(self).gitlab_username@,
                    repos@.len(),
                )
            },
            old(self).awaits(source) && source == RepoSource::GitHub ==> {
                &&& final(self).github_username@ == username@
                &&& final(self).gitlab_username == old(self).gitlab_username
                &&& final(self).cache_data.gitlab == old(self).cache_data.gitlab
                &&& final(self).gitlab_pending == old(self).gitlab_pending
            },
            old(self).awaits(source) && source == RepoSource::GitLab ==> {
                &&& final(self).gitlab_username@ == username@
                &&& final(self).github_username == old(self).github_username
                &&& final(self).cache_data.github == old(self).cache_data.github
                &&& final(self).github_pending == old(self).github_pending
            },
    {
        let mut messages: Vec<RepoUpdateMessage> = Vec::new();
        if !self.is_awaited(source) {
            return messages;
        }
        let data = repos_to_repo_data(repos, source);
        extend_with_copies(&mut self.all_repos, &data);
        match source {
            RepoSource::GitHub => {
                self.github_username = username.clone();
                self.cache_data.update_github_at(username, data, now);
                self.github_pending = false;
            },
            RepoSource::GitLab => {
                self.gitlab_username = username.clone();
                self.cache_data.update_gitlab_at(username, data, now);
                self.gitlab_pending = false;
            },
        }
        proof {
            let added = repo_data_seq(repos@, source);
            assert(source_repositories(snapshot_of(self.cache_data, source)) == added);
            assert(self.all_repos@ =~= old(self).all_repos@ + added);
            assert(Seq::<RepoData>::empty() + added =~= added);
            assert(added + Seq::<RepoData>::empty() =~= added);
            assert(old(self).all_repos@ + Seq::<RepoData>::empty() =~= old(self).all_repos@);
            assert(Seq::<RepoData>::empty() + old(self).all_repos@ =~= old(self).all_repos@);
        }
        let mut merged: Vec<RepoData> = Vec::new();
        extend_with_copies(&mut merged, &self.all_repos);
        assert(merged@ =~= self.all_repos@);
        messages.push(
            RepoUpdateMessage::NewRepos {
                repos: merged,
                github_username: self.github_username.clone(),
                gitlab_username: self.gitlab_username.clone(),
            },
        );
        let a = join_text("Fetched ", decimal(repos.len()).as_str());
        let b = join_text(a.as_str(), " ");
        let c = join_text(b.as_str(), source_name(source));
        messages.push(RepoUpdateMessage::Status(join_text(c.as_str(), " repositories")));
        assert(message_views(messages@) =~= fetched_messages(
            source,
            self.all_repos@,
            self.github_username@,
            self.gitlab_username@,
            repos@.len(),
        ));
        messages
    }

    /// Takes in that an awaited source failed: the error names the source
    /// and the cause, and corpus and cache stay as they are, so that the
    /// other source is not held up. For a source that is not awaited
    /// nothing changes and nothing is said.
    pub fn source_failed(&mut self, source: RepoSource, cause: &str) -> (messages: Vec<
        RepoUpdateMessage,
    >)
        ensures
            old(self).wf() ==> final(self).wf(),
            !old(self).awaits(source) ==> *final(self) == *old(self) && messages@.len() == 0,
            old(self).awaits(source) ==> {
                &&& message_views(messages@) == seq![
                    MessageView::Error(fetch_error_text(source, cause@)),
                ]
                &&& !final(self).awaits(source)
                &&& final(self).cache_data == old(self).cache_data
                &&& final(self).all_repos == old(self).all_repos
                &&& final(self).github_username == old(self).github_username
                &&& final(self).gitlab_username == old(self).gitlab_username
                &&& final(self).finished == old(self).finished
            },
            old(self).awaits(source) && source == RepoSource::GitHub ==> final(self).gitlab_pending
                == old(self).gitlab_pending,
            old(self).awaits(source) && source == RepoSource::GitLab ==> final(self).github_pending
                == old(self).github_pending,
    {
        let mut messages: Vec<RepoUpdateMessage> = Vec::new();
        if !self.is_awaited(source) {
            return messages;
        }
        match source {
            RepoSource::GitHub => {
                self.github_pending = false;
            },
            RepoSource::GitLab => {
                self.gitlab_pending = false;
            },
        }
        let a = join_text(source_name(source), " error: ");
        messages.push(RepoUpdateMessage::Error(join_text(a.as_str(), cause)));
        assert(message_views(messages@) =~= seq![
            MessageView::Error(fetch_error_text(source, cause@)),
        ]);
        messages
    }

    /// Closes a settled cycle after the cache was written (`cache_saved`),
    /// or could not be: the messages say that the cache was updated, where
    /// it was, and that loading is complete. A failed write is not told to
    /// the picker. A cycle that still awaits a source, or is closed
    /// already, stays as it is and says nothing.
    pub fn finish(&mut self, cache_saved: bool) -> (messages: Vec<RepoUpdateMessage>)
        ensures
            old(self).wf() ==> final(self).wf(),
            !old(self).settled() ==> *final(self) == *old(self) && messages@.len() == 0,
            old(self).settled() ==> {
                &&& final(self).finished
                &&& !final(self).github_pending
                &&& !final(self).gitlab_pending
                &&& final(self).cache_data == old(self).cache_data
                &&& final(self).all_repos == old(self).all_repos
                &&& final(self).github_username == old(self).github_username
                &&& final(self).gitlab_username == old(self).gitlab_username
                &&& message_views(messages@) == closing_messages(cache_saved)
            },
    {
        let mut messages: Vec<RepoUpdateMessage> = Vec::new();
        if !self.is_settled() {
            return messages;
        }
        if cache_saved {
            messages.push(RepoUpdateMessage::Status(String::from_str("Cache updated successfully")));
        }
        messages.push(RepoUpdateMessage::LoadingComplete);
        self.finished = true;
        assert(message_views(messages@) =~= closing_messages(cache_saved));
        messages
    }
}

/// A closed cycle awaits nothing and cannot be closed again: whatever comes
/// in after completion finds no source awaited, so no message goes out and
/// corpus and cache stay as they were.
pub proof fn lemma_closed_cycle_awaits_nothing(cycle: RefreshCycle, source: RepoSource)
    requires
        cycle.finished,
    ensures
        !cycle.awaits(source),
        !cycle.settled(),
{
}

/// The cache of a cycle holds a snapshot only of a source that came in:
/// while a source is awaited, or after it failed with the cache untouched,
/// its snapshot is absent.
pub proof fn lemma_awaited_source_has_no_snapshot(cycle: RefreshCycle, source: RepoSource)
    requires
        cycle.wf(),
        cycle.awaits(source),
    ensures
        snapshot_of(cycle.cache_data, source) is None,
{
}

/// Loads the sample repositories: they are added behind `all_repos` as
/// GitHub records, and the user names are set to the sample users.
pub fn load_dummy_repositories(
    all_repos: &mut Vec<RepoData>,
    github_username: &mut String,
    gitlab_username: &mut String,
)
    ensures
        final(github_username)@ == dummy_username(),
        final(gitlab_username)@ == "Gira"@,
        final(all_repos)@.len() == old(all_repos)@.len() + 100,
        final(all_repos)@.take(old(all_repos)@.len() as int) == old(all_repos)@,
        forall|k: int|
            0 <= k < 100 ==> {
                let repo = #[trigger] final(all_repos)@[old(all_repos)@.len() + k];
                &&& (repo.name@, repo.url@, repo.description@, repo.owner@, repo.is_fork, repo.is_private)
                    == dummy_at(k)
                &&& repo.source == RepoSource::GitHub
            },
{
    let (dummy_username, dummy_repos) = generate_dummy_repos();
    *github_username = dummy_username;
    *gitlab_username = String::from_str("Gira");
    let data = repos_to_repo_data(&dummy_repos, RepoSource::GitHub);
    extend_with_copies(all_repos, &data);
    proof {
        let base = old(all_repos)@.len() as int;
        assert(all_repos@.take(base) =~= old(all_repos)@);
        assert forall|k: int| 0 <= k < 100 implies {
            let repo = #[trigger] all_repos@[base + k];
            &&& (repo.name@, repo.url@, repo.description@, repo.owner@, repo.is_fork, repo.is_private)
                == dummy_at(k)
            &&& repo.source == RepoSource::GitHub
        } by {
            assert(all_repos@[base + k] == data@[k]);
            assert(crate::github::repository_view(dummy_repos@[k]) == dummy_at(k));
        }
    }
}

/// What a record stands for, for the user of its source: the repository
/// name, its clone address and its page, on GitHub or on GitLab as the
/// record says.
pub open spec fn record_info(
    repo: RepoData,
    github_username: Seq<char>,
    gitlab_username: Seq<char>,
) -> (Seq<char>, Seq<char>, Option<Seq<char>>) {
    match repo.source {
        RepoSource::GitHub => (
            repo.name@,
            crate::github::clone_url(github_username, repo.name@),
            Some(crate::github::browser_url(github_username, repo.name@)),
        ),
        RepoSource::GitLab => (
            repo.name@,
            crate::gitlab::clone_url(gitlab_username, repo.name@),
            Some(crate::gitlab::browser_url(gitlab_username, repo.name@)),
        ),
    }
}

/// The index of the first line at or after `from` that is the chosen one,
/// or the number of lines where there is none.
pub open spec fn chosen_index(lines: Seq<Seq<char>>, selection: Seq<char>, from: int) -> int
    decreases lines.len() - from,
{
    if from < 0 || from >= lines.len() {
        lines.len() as int
    } else if lines[from] == selection {
        from
    } else {
        chosen_index(lines, selection, from + 1)
    }
}

/// What `chosen_index` finds: the first line that is the chosen one.
pub proof fn lemma_chosen_index(lines: Seq<Seq<char>>, selection: Seq<char>, from: int)
    requires
        0 <= from <= lines.len(),
    ensures
        from <= chosen_index(lines, selection, from) <= lines.len(),
        forall|i: int|
            from <= i < chosen_index(lines, selection, from) ==> #[trigger] lines[i] != selection,
        chosen_index(lines, selection, from) < lines.len() ==> lines[chosen_index(
            lines,
            selection,
            from,
        )] == selection,
    decreases lines.len() - from,
{
    if from < lines.len() && lines[from] != selection {
        lemma_chosen_index(lines, selection, from + 1);
    }
}

/// What a record stands for, for the user of its source.
pub fn resolve_record(repo: &RepoData, github_username: &str, gitlab_username: &str) -> (info: (
    String,
    String,
    Option<String>,
))
    ensures
        repo_info_view(Some(info)) == Some(record_info(*repo, github_username@, gitlab_username@)),
{
    match repo.source {
        RepoSource::GitHub => (
            repo.name.clone(),
            crate::github::make_clone_url(github_username, repo.name.as_str()),
            Some(crate::github::make_browser_url(github_username, repo.name.as_str())),
        ),
        RepoSource::GitLab => (
            repo.name.clone(),
            crate::gitlab::make_clone_url(gitlab_username, repo.name.as_str()),
            Some(crate::gitlab::make_browser_url(gitlab_username, repo.name.as_str())),
        ),
    }
}

/// The place in the corpus of the record that a chosen line was made from:
/// the first record whose display line is the chosen line, if there is one.
pub fn find_selection(repos: &Vec<RepoData>, selection: &str) -> (found: Option<usize>)
    ensures
        found is Some <==> chosen_index(display_texts(repos@), selection@, 0) < repos@.len(),
        found is Some ==> found->0 == chosen_index(display_texts(repos@), selection@, 0),
{
    let ghost lines = display_texts(repos@);
    let mut i: usize = 0;
    while i < repos.len()
        invariant
            i <= repos.len(),
            lines == display_texts(repos@),
            chosen_index(lines, selection@, 0) == chosen_index(lines, selection@, i as int),
        decreases repos.len() - i,
    {
        let repo = &repos[i];
        let line = format_repository(
            repo.name.as_str(),
            repo.description.as_str(),
            repo.is_fork,
            repo.is_private,
        );
        assert(line@ == lines[i as int]);
        if same_text(line.as_str(), selection) {
            return Some(i);
        }
        i = i + 1;
    }
    None
}

/// Maps a chosen line back to the repository it was made from and says
/// what that repository stands for: its name as the source gave it, free
/// of marks and emoji, and the clone address and the page on the source
/// that the record names, for that source's user. A line that no record
/// of the corpus shows stands for nothing.
pub fn resolve_selection(
    repos: &Vec<RepoData>,
    selection: &str,
    github_username: &str,
    gitlab_username: &str,
) -> (info: Option<(String, String, Option<String>)>)
    ensures
        repo_info_view(info) == (if chosen_index(display_texts(repos@), selection@, 0)
            < repos@.len() {
            Some(
                record_info(
                    repos@[chosen_index(display_texts(repos@), selection@, 0)],
                    github_username@,
                    gitlab_username@,
                ),
            )
        } else {
            None
        }),
{
    match find_selection(repos, selection) {
        Some(i) => Some(resolve_record(&repos[i], github_username, gitlab_username)),
        None => None,
    }
}

} // verus!
