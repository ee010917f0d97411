//! The options that a run is started with.

use vstd::prelude::*;

verus! {

/// The options of one run.
pub struct AppArgs {
    /// Work on sample repositories, without a network.
    pub use_dummy: bool,
    pub github_token: Option<String>,
    pub gitlab_token: Option<String>,
    /// Pass over the cache and fetch.
    pub force_download: bool,
}

/// Whether a run can start with these options: it works on samples, or it
/// has a token for at least one source.
pub open spec fn options_are_usable(
    use_dummy: bool,
    github_token: Option<String>,
    gitlab_token: Option<String>,
) -> bool {
    use_dummy || github_token is Some || gitlab_token is Some
}

impl AppArgs {
    /// The options of a run from what the command line gave. A run on
    /// samples takes no tokens; a run that is not on samples needs a token
    /// for at least one source, and without one there are no options.
    pub fn from_flags(
        use_dummy: bool,
        github_token: Option<String>,
        gitlab_token: Option<String>,
        force_download: bool,
    ) -> (args: Option<AppArgs>)
        ensures
            args is Some <==> options_are_usable(use_dummy, github_token, gitlab_token),
            args is Some ==> {
                &&& args->0.use_dummy == use_dummy
                &&& args->0.force_download == force_download
                &&& args->0.github_token == (if use_dummy {
                    None
                } else {
                    github_token
                })
                &&& args->0.gitlab_token == (if use_dummy {
                    None
                } else {
                    gitlab_token
                })
            },
    {
        if use_dummy {
            return Some(
                AppArgs { use_dummy, github_token: None, gitlab_token: None, force_download },
            );
        }
        if github_token.is_none() && gitlab_token.is_none() {
            return None;
        }
        Some(AppArgs { use_dummy, github_token, gitlab_token, force_download })
    }
}

} // verus!
