//! GitLab: what a chosen line stands for.

use crate::formatter::{line_name, repo_info_view, repo_name_of_line};
use crate::text::join_text;
use vstd::prelude::*;
use vstd::string::*;

verus! {

/// A repository as GitLab reports it:
/// (name, clone url, description, owner, is a fork, is private).
pub type Repository = (String, String, String, String, bool, bool);

/// A project as GitLab's interface describes it, reduced to what the
/// picker reads.
pub struct GitLabProject {
    pub name: String,
    pub description: Option<String>,
    pub ssh_url_to_repo: String,
    pub is_forked: bool,
    pub visibility: String,
}

/// The clone address of a repository on GitLab.
pub open spec fn clone_url(username: Seq<char>, name: Seq<char>) -> Seq<char> {
    "git@gitlab.com:"@ + username + "/"@ + name + ".git"@
}

/// The page of a repository on GitLab.
pub open spec fn browser_url(username: Seq<char>, name: Seq<char>) -> Seq<char> {
    "https://gitlab.com/"@ + username + "/"@ + name
}

/// Turns a GitLab project into a repository tuple owned by `username`. A
/// project without description gets the empty one; every project whose
/// visibility is not `public` counts as private.
pub fn convert_project(project: GitLabProject, username: &str) -> (repo: Repository)
    ensures
        repo.0 == project.name,
        repo.1 == project.ssh_url_to_repo,
        repo.2@ == (match project.description {
            Some(text) => text@,
            None => Seq::<char>::empty(),
        }),
        repo.3@ == username@,
        repo.4 == project.is_forked,
        repo.5 == (project.visibility@ != "public"@),
{
    let description = match project.description {
        Some(text) => text,
        None => String::new(),
    };
    let public = String::from_str("public");
    let is_private = !(project.visibility == public);
    (
        project.name,
        project.ssh_url_to_repo,
        description,
        String::from_str(username),
        project.is_forked,
        is_private,
    )
}

/// Builds the clone address of a repository on GitLab.
pub fn make_clone_url(username: &str, name: &str) -> (url: String)
    ensures
        url@ == clone_url(username@, name@),
{
    let a = join_text("git@gitlab.com:", username);
    let b = join_text(a.as_str(), "/");
    let c = join_text(b.as_str(), name);
    join_text(c.as_str(), ".git")
}

/// Builds the page address of a repository on GitLab.
pub fn make_browser_url(username: &str, name: &str) -> (url: String)
    ensures
        url@ == browser_url(username@, name@),
{
    let a = join_text("https://gitlab.com/", username);
    let b = join_text(a.as_str(), "/");
    join_text(b.as_str(), name)
}

/// Reads a chosen display line: the repository name, which is what stands
/// before the first mark that a display line holds behind a name (the
/// fork mark, the privacy mark, the description, the category emoji), and
/// the clone address and the page built from it for the given user. A
/// name may hold spaces. Every line yields a result.
pub fn extract_repo_info(selection: &str, username: &str) -> (info: Option<
    (String, String, Option<String>),
>)
    ensures
        repo_info_view(info) == Some(
            (
                line_name(selection@),
                clone_url(username@, line_name(selection@)),
                Some(browser_url(username@, line_name(selection@))),
            ),
        ),
{
    let repo_name = repo_name_of_line(selection);
    let url = make_clone_url(username, repo_name);
    let page = make_browser_url(username, repo_name);
    Some((String::from_str(repo_name), url, Some(page)))
}

/// Whether another page is asked for after a page of `received` projects,
/// where `per_page` were asked for: only a page that came back full, and
/// not empty, can have more behind it.
pub fn wants_next_page(received: usize, per_page: usize) -> (more: bool)
    ensures
        more == (received > 0 && received == per_page),
{
    received > 0 && received == per_page
}

} // verus!
