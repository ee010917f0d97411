//! GitHub: what a chosen line stands for, and a fixed set of sample
//! repositories for trying the picker without a network.

use crate::formatter::{line_name, repo_info_view, repo_name_of_line};
use crate::text::{join_text, decimal, decimal_of};
use vstd::prelude::*;
use vstd::string::*;

verus! {

/// A repository as GitHub reports it:
/// (name, clone url, description, owner, is a fork, is private).
pub type Repository = (String, String, String, String, bool, bool);

/// A repository tuple as plain values.
pub type RepositoryView = (Seq<char>, Seq<char>, Seq<char>, Seq<char>, bool, bool);

/// The plain values of a repository tuple.
pub open spec fn repository_view(repo: Repository) -> RepositoryView {
    (repo.0@, repo.1@, repo.2@, repo.3@, repo.4, repo.5)
}

/// The clone address of a repository on GitHub.
pub open spec fn clone_url(username: Seq<char>, name: Seq<char>) -> Seq<char> {
    "git@github.com:"@ + username + "/"@ + name + ".git"@
}

/// The page of a repository on GitHub.
pub open spec fn browser_url(username: Seq<char>, name: Seq<char>) -> Seq<char> {
    "https://github.com/"@ + username + "/"@ + name
}

/// Builds the clone address of a repository on GitHub.
pub fn make_clone_url(username: &str, name: &str) -> (url: String)
    ensures
        url@ == clone_url(username@, name@),
{
    let a = join_text("git@github.com:", username);
    let b = join_text(a.as_str(), "/");
    let c = join_text(b.as_str(), name);
    join_text(c.as_str(), ".git")
}

/// Builds the page address of a repository on GitHub.
pub fn make_browser_url(username: &str, name: &str) -> (url: String)
    ensures
        url@ == browser_url(username@, name@),
{
    let a = join_text("https://github.com/", username);
    let b = join_text(a.as_str(), "/");
    join_text(b.as_str(), name)
}

/// Reads a chosen display line: the repository name, which is what stands
/// before the first mark that a display line holds behind a name (the
/// fork mark, the privacy mark, the description, the category emoji), and
/// the clone address and the page built from it for the given user. A
/// name may hold spaces. Every line yields a result.
pub fn extract_repo_info(selection: &str, username: &str) -> (info: Option<
    (String, String, Option<String>),
>)
    ensures
        repo_info_view(info) == Some(
            (
                line_name(selection@),
                clone_url(username@, line_name(selection@)),
                Some(browser_url(username@, line_name(selection@))),
            ),
        ),
{
    let repo_name = repo_name_of_line(selection);
    let url = make_clone_url(username, repo_name);
    let page = make_browser_url(username, repo_name);
    Some((String::from_str(repo_name), url, Some(page)))
}

/// The user that the sample repositories belong to.
pub open spec fn dummy_username() -> Seq<char> {
    "dima-369"@
}

/// The category of the sample repository with the given number.
pub open spec fn dummy_category(i: nat) -> Seq<char> {
    let k = i % 10;
    if k == 0 {
        "api"@
    } else if k == 1 {
        "web"@
    } else if k == 2 {
        "mobile"@
    } else if k == 3 {
        "backend"@
    } else if k == 4 {
        "frontend"@
    } else if k == 5 {
        "database"@
    } else if k == 6 {
        "utils"@
    } else if k == 7 {
        "tools"@
    } else if k == 8 {
        "docs"@
    } else {
        "test"@
    }
}

/// The name of the sample repository with the given number.
pub open spec fn dummy_name(i: nat) -> Seq<char> {
    dummy_category(i) + "-project-"@ + decimal_of(i)
}

/// The sample repository with the given number, from 1 on: every fifth is
/// a fork, every seventh is private, and the even ones are for development.
pub open spec fn dummy_repo(i: nat) -> RepositoryView {
    (
        dummy_name(i),
        clone_url(dummy_username(), dummy_name(i)),
        "A "@ + dummy_category(i) + " project for "@ + (if i % 2 == 0 {
            "development"@
        } else {
            "production"@
        }),
        dummy_username(),
        i % 5 == 0,
        i % 7 == 0,
    )
}

/// The three sample repositories that stand in front of the numbered ones.
pub open spec fn dummy_special(k: int) -> RepositoryView {
    if k == 0 {
        (
            "clj-basic-image-cache-server"@,
            "git@github.com:dima-369/clj-basic-image-cache-server.git"@,
            "A basic image cache server written in Clojure"@,
            dummy_username(),
            true,
            false,
        )
    } else if k == 1 {
        (
            "rust-web-server"@,
            "git@github.com:dima-369/rust-web-server.git"@,
            "A web server written in Rust"@,
            dummy_username(),
            false,
            true,
        )
    } else {
        (
            "go-microservices"@,
            "git@github.com:dima-369/go-microservices.git"@,
            "Microservices examples in Go"@,
            dummy_username(),
            false,
            false,
        )
    }
}

/// The sample repository at place `k` of the hundred.
pub open spec fn dummy_at(k: int) -> RepositoryView {
    if k < 3 {
        dummy_special(k)
    } else {
        dummy_repo((k - 2) as nat)
    }
}

/// Decides `dummy_category`.
pub fn dummy_category_name(i: usize) -> (name: &'static str)
    ensures
        name@ == dummy_category(i as nat),
{
    let k: usize = i % 10;
    if k == 0 {
        "api"
    } else if k == 1 {
        "web"
    } else if k == 2 {
        "mobile"
    } else if k == 3 {
        "backend"
    } else if k == 4 {
        "frontend"
    } else if k == 5 {
        "database"
    } else if k == 6 {
        "utils"
    } else if k == 7 {
        "tools"
    } else if k == 8 {
        "docs"
    } else {
        "test"
    }
}

/// Builds the sample repository with the given number.
pub fn make_dummy_repo(i: usize) -> (repo: Repository)
    ensures
        repository_view(repo) == dummy_repo(i as nat),
{
    let category = dummy_category_name(i);
    let number = decimal(i);
    let stem = join_text(category, "-project-");
    let name = join_text(stem.as_str(), number.as_str());
    let url = make_clone_url("dima-369", name.as_str());
    let a = join_text("A ", category);
    let b = join_text(a.as_str(), " project for ");
    let description = join_text(
        b.as_str(),
        if i % 2 == 0 {
            "development"
        } else {
            "production"
        },
    );
    (name, url, description, String::from_str("dima-369"), i % 5 == 0, i % 7 == 0)
}

/// A hundred sample repositories of one user: three that are easy to find,
/// then ninety-seven numbered ones spread over ten categories.
pub fn generate_dummy_repos() -> (out: (String, Vec<Repository>))
    ensures
        out.0@ == dummy_username(),
        out.1@.len() == 100,
        forall|k: int| 0 <= k < 100 ==> repository_view(#[trigger] out.1@[k]) == dummy_at(k),
{
    let username = String::from_str("dima-369");
    let mut dummy_repos: Vec<Repository> = Vec::new();
    dummy_repos.push(
        (
            String::from_str("clj-basic-image-cache-server"),
            String::from_str("git@github.com:dima-369/clj-basic-image-cache-server.git"),
            String::from_str("A basic image cache server written in Clojure"),
            String::from_str("dima-369"),
            true,
            false,
        ),
    );
    dummy_repos.push(
        (
            String::from_str("rust-web-server"),
            String::from_str("git@github.com:dima-369/rust-web-server.git"),
            String::from_str("A web server written in Rust"),
            String::from_str("dima-369"),
            false,
            true,
        ),
    );
    dummy_repos.push(
        (
            String::from_str("go-microservices"),
            String::from_str("git@github.com:dima-369/go-microservices.git"),
            String::from_str("Microservices examples in Go"),
            String::from_str("dima-369"),
            false,
            false,
        ),
    );
    let mut i: usize = 1;
    while i <= 97
        invariant
            1 <= i <= 98,
            dummy_repos@.len() == i + 2,
            forall|k: int|
                0 <= k < i + 2 ==> repository_view(#[trigger] dummy_repos@[k]) == dummy_at(k),
        decreases 98 - i,
    {
        dummy_repos.push(make_dummy_repo(i));
        i = i + 1;
    }
    (username, dummy_repos)
}

} // verus!
