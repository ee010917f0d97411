//! Display lines for repositories: the name with its fork and privacy marks,
//! the description, and an emoji for the kind of project.

use crate::text::{join_text, contains, contains_text, lowercase_of, to_lowercase};
use vstd::prelude::*;
use vstd::string::*;

verus! {

/// Where a repository is hosted.
#[derive(Clone, Copy, Debug, PartialEq, Eq, Structural)]
pub enum RepoSource {
    GitHub,
    GitLab,
}

/// The name followed by the fork mark and the privacy mark, where they apply.
pub open spec fn repo_name_text(name: Seq<char>, is_fork: bool, is_private: bool) -> Seq<char> {
    name + (if is_fork {
        " 🍴"@
    } else {
        ""@
    }) + (if is_private {
        " 🔒"@
    } else {
        ""@
    })
}

/// Formats a repository name with fork and private status icons.
pub fn format_repo_name(name: &str, is_fork: bool, is_private: bool) -> (line: String)
    ensures
        line@ == repo_name_text(name@, is_fork, is_private),
{
    let fork_icon = if is_fork {
        " 🍴"
    } else {
        ""
    };
    let private_icon = if is_private {
        " 🔒"
    } else {
        ""
    };
    let marked = join_text(name, fork_icon);
    join_text(marked.as_str(), private_icon)
}

/// Web and frontend projects.
pub open spec fn is_web(text: Seq<char>) -> bool {
    ||| contains_text(text, "web"@)
    ||| contains_text(text, "frontend"@)
    ||| contains_text(text, "html"@)
    ||| contains_text(text, "css"@)
    ||| contains_text(text, "javascript"@)
    ||| contains_text(text, "react"@)
    ||| contains_text(text, "vue"@)
    ||| contains_text(text, "angular"@)
}

/// Backend projects.
pub open spec fn is_backend(text: Seq<char>) -> bool {
    ||| contains_text(text, "backend"@)
    ||| contains_text(text, "server"@)
    ||| contains_text(text, "api"@)
    ||| contains_text(text, "database"@)
    ||| contains_text(text, "db"@)
}

/// Mobile projects.
pub open spec fn is_mobile(text: Seq<char>) -> bool {
    ||| contains_text(text, "mobile"@)
    ||| contains_text(text, "android"@)
    ||| contains_text(text, "ios"@)
    ||| contains_text(text, "app"@)
    ||| contains_text(text, "flutter"@)
    ||| contains_text(text, "swift"@)
}

/// Data science and machine learning projects.
pub open spec fn is_data(text: Seq<char>) -> bool {
    ||| contains_text(text, "data"@)
    ||| contains_text(text, "machine learning"@)
    ||| contains_text(text, "ml"@)
    ||| contains_text(text, "ai"@)
    ||| contains_text(text, "analytics"@)
    ||| contains_text(text, "tensorflow"@)
    ||| contains_text(text, "pytorch"@)
}

/// Test suites and testing tools.
pub open spec fn is_testing(text: Seq<char>) -> bool {
    ||| contains_text(text, "test"@)
    ||| contains_text(text, "spec"@)
    ||| contains_text(text, "qa"@)
}

/// Tools and utilities.
pub open spec fn is_tooling(text: Seq<char>) -> bool {
    ||| contains_text(text, "tool"@)
    ||| contains_text(text, "util"@)
    ||| contains_text(text, "cli"@)
    ||| contains_text(text, "command"@)
    ||| contains_text(text, "script"@)
}

/// Documentation and learning material.
pub open spec fn is_docs(text: Seq<char>) -> bool {
    ||| contains_text(text, "doc"@)
    ||| contains_text(text, "tutorial"@)
    ||| contains_text(text, "learn"@)
    ||| contains_text(text, "guide"@)
    ||| contains_text(text, "book"@)
}

/// Game development.
pub open spec fn is_game(text: Seq<char>) -> bool {
    ||| contains_text(text, "game"@)
    ||| contains_text(text, "unity"@)
    ||| contains_text(text, "unreal"@)
    ||| contains_text(text, "godot"@)
}

/// The emoji of the first category that a lower-cased text falls under, in
/// the order web, backend, mobile, data, testing, tooling, documentation,
/// games; the empty text where it falls under none.
pub open spec fn category_of(text: Seq<char>) -> Seq<char> {
    if is_web(text) {
        "🌐"@
    } else if is_backend(text) {
        "🖥️"@
    } else if is_mobile(text) {
        "📱"@
    } else if is_data(text) {
        "📊"@
    } else if is_testing(text) {
        "🧪"@
    } else if is_tooling(text) {
        "🔧"@
    } else if is_docs(text) {
        "📚"@
    } else if is_game(text) {
        "🎮"@
    } else {
        ""@
    }
}

/// The text that a repository is categorised by: name, a space, description.
pub open spec fn category_text(name: Seq<char>, description: Seq<char>) -> Seq<char> {
    lowercase_of(name + " "@ + description)
}

/// Picks the category emoji for a text that is already lower-cased.
pub fn category_emoji_for(text: &str) -> (emoji: &'static str)
    ensures
        emoji@ == category_of(text@),
{
    if contains(text, "web") || contains(text, "frontend") || contains(text, "html") || contains(
        text,
        "css",
    ) || contains(text, "javascript") || contains(text, "react") || contains(text, "vue")
        || contains(text, "angular") {
        return "🌐";
    }
    if contains(text, "backend") || contains(text, "server") || contains(text, "api") || contains(
        text,
        "database",
    ) || contains(text, "db") {
        return "🖥️";
    }
    if contains(text, "mobile") || contains(text, "android") || contains(text, "ios") || contains(
        text,
        "app",
    ) || contains(text, "flutter") || contains(text, "swift") {
        return "📱";
    }
    if contains(text, "data") || contains(text, "machine learning") || contains(text, "ml")
        || contains(text, "ai") || contains(text, "analytics") || contains(text, "tensorflow")
        || contains(text, "pytorch") {
        return "📊";
    }
    if contains(text, "test") || contains(text, "spec") || contains(text, "qa") {
        return "🧪";
    }
    if contains(text, "tool") || contains(text, "util") || contains(text, "cli") || contains(
        text,
        "command",
    ) || contains(text, "script") {
        return "🔧";
    }
    if contains(text, "doc") || contains(text, "tutorial") || contains(text, "learn") || contains(
        text,
        "guide",
    ) || contains(text, "book") {
        return "📚";
    }
    if contains(text, "game") || contains(text, "unity") || contains(text, "unreal") || contains(
        text,
        "godot",
    ) {
        return "🎮";
    }
    ""
}

/// Determines the emoji for a repository from its name and description.
pub fn get_category_emoji(name: &str, description: &str) -> (emoji: &'static str)
    ensures
        emoji@ == category_of(category_text(name@, description@)),
{
    let spaced = join_text(name, " ");
    let joined = join_text(spaced.as_str(), description);
    let text = to_lowercase(joined.as_str());
    category_emoji_for(text.as_str())
}

/// A display line put together: the marked name, then the description in
/// parentheses and the emoji, or, where there is no description, the emoji
/// alone behind a space, or nothing where there is no emoji either.
pub open spec fn line_text(marked: Seq<char>, description: Seq<char>, emoji: Seq<char>) -> Seq<
    char,
> {
    if description.len() == 0 {
        if emoji.len() != 0 {
            marked + " "@ + emoji
        } else {
            marked
        }
    } else {
        marked + " ("@ + description + ") "@ + emoji
    }
}

/// The display line of a repository: the marked name, the description in
/// parentheses where there is one, and the category emoji.
pub open spec fn repository_text(
    name: Seq<char>,
    description: Seq<char>,
    is_fork: bool,
    is_private: bool,
) -> Seq<char> {
    line_text(
        repo_name_text(name, is_fork, is_private),
        description,
        category_of(category_text(name, description)),
    )
}

/// Puts a display line together from the marked name, the description and
/// the category emoji.
pub fn assemble_line(marked: &str, description: &str, emoji: &str) -> (line: String)
    ensures
        line@ == line_text(marked@, description@, emoji@),
{
    if description.is_empty() {
        if !emoji.is_empty() {
            let spaced = join_text(marked, " ");
            join_text(spaced.as_str(), emoji)
        } else {
            String::from_str(marked)
        }
    } else {
        let opened = join_text(marked, " (");
        let described = join_text(opened.as_str(), description);
        let closed = join_text(described.as_str(), ") ");
        join_text(closed.as_str(), emoji)
    }
}

/// Formats a complete repository display string with name, description and emojis.
pub fn format_repository(name: &str, description: &str, is_fork: bool, is_private: bool) -> (line:
    String)
    ensures
        line@ == repository_text(name@, description@, is_fork, is_private),
{
    let formatted_name = format_repo_name(name, is_fork, is_private);
    let category_emoji = get_category_emoji(name, description);
    assemble_line(formatted_name.as_str(), description, category_emoji)
}

/// The characters that open what a display line holds behind the name: the
/// parenthesis of the description, the fork mark, the privacy mark, and
/// the first character of each category emoji.
pub open spec fn is_mark_char(c: char) -> bool {
    ||| c == '('
    ||| c == '\u{1f374}'
    ||| c == '\u{1f512}'
    ||| c == '\u{1f310}'
    ||| c == '\u{1f5a5}'
    ||| c == '\u{1f4f1}'
    ||| c == '\u{1f4ca}'
    ||| c == '\u{1f9ea}'
    ||| c == '\u{1f527}'
    ||| c == '\u{1f4da}'
    ||| c == '\u{1f3ae}'
}

/// A mark stands at index `i` of the line: a space with a mark character
/// right behind it.
pub open spec fn mark_at(line: Seq<char>, i: int) -> bool {
    0 <= i && i + 1 < line.len() && line[i] == ' ' && is_mark_char(line[i + 1])
}

/// The text holds no mark.
pub open spec fn holds_no_mark(text: Seq<char>) -> bool {
    forall|i: int| 0 <= i < text.len() ==> !mark_at(text, i)
}

/// Where the repository name ends in a display line: at the first mark,
/// looking from `from` on, or at the end of the line where there is none.
pub open spec fn name_end(line: Seq<char>, from: int) -> int
    decreases line.len() - from,
{
    if from < 0 || from >= line.len() {
        line.len() as int
    } else if mark_at(line, from) {
        from
    } else {
        name_end(line, from + 1)
    }
}

/// The repository name at the front of a display line: what stands before
/// the first mark, or the whole line. Spaces inside the name stay.
pub open spec fn line_name(line: Seq<char>) -> Seq<char> {
    line.take(name_end(line, 0))
}

/// Where the name ends: at the first mark, seen from `from`, or at the end
/// of a line that holds no mark from there on.
pub proof fn lemma_name_end_is_first(line: Seq<char>, from: int)
    requires
        0 <= from <= line.len(),
    ensures
        from <= name_end(line, from) <= line.len(),
        forall|i: int| from <= i < name_end(line, from) ==> !mark_at(line, i),
        name_end(line, from) < line.len() ==> mark_at(line, name_end(line, from)),
    decreases line.len() - from,
{
    if from < line.len() && !mark_at(line, from) {
        lemma_name_end_is_first(line, from + 1);
    }
}

/// A name without a mark that stands at the front of a line, with nothing
/// or a mark behind it, is the name read from that line.
pub proof fn lemma_line_name_of_prefix(name: Seq<char>, rest: Seq<char>)
    requires
        holds_no_mark(name),
        rest.len() == 0 || mark_at(rest, 0),
    ensures
        line_name(name + rest) == name,
{
    let line = name + rest;
    let n = name.len() as int;
    lemma_name_end_is_first(line, 0);
    let end = name_end(line, 0);
    if end < n {
        assert(!mark_at(name, end));
        assert(line[end] == name[end]);
        if end + 1 < n {
            assert(line[end + 1] == name[end + 1]);
        } else {
            assert(line[end + 1] == rest[0]);
        }
    }
    if end > n {
        assert(line[n] == rest[0]);
        assert(line[n + 1] == rest[1]);
        assert(mark_at(line, n));
    }
    assert(line.take(end) =~= name);
}

/// Reading a display line gives back the repository's name, free of marks,
/// description and emoji: for every name that holds no mark itself,
/// spaces or not, whatever the description and the flags are.
pub proof fn lemma_line_name_is_repository_name(
    name: Seq<char>,
    description: Seq<char>,
    is_fork: bool,
    is_private: bool,
)
    requires
        holds_no_mark(name),
    ensures
        line_name(repository_text(name, description, is_fork, is_private)) == name,
{
    reveal_strlit("");
    reveal_strlit(" ");
    reveal_strlit(" (");
    reveal_strlit(" 🍴");
    reveal_strlit(" 🔒");
    reveal_strlit("🌐");
    reveal_strlit("🖥️");
    reveal_strlit("📱");
    reveal_strlit("📊");
    reveal_strlit("🧪");
    reveal_strlit("🔧");
    reveal_strlit("📚");
    reveal_strlit("🎮");
    let line = repository_text(name, description, is_fork, is_private);
    let marks = (if is_fork {
        " 🍴"@
    } else {
        ""@
    }) + (if is_private {
        " 🔒"@
    } else {
        ""@
    });
    let emoji = category_of(category_text(name, description));
    let tail = if description.len() == 0 {
        if emoji.len() != 0 {
            " "@ + emoji
        } else {
            Seq::<char>::empty()
        }
    } else {
        " ("@ + description + ") "@ + emoji
    };
    let rest = marks + tail;
    assert(line =~= name + rest);
    assert(emoji.len() != 0 ==> is_mark_char(emoji[0]));
    assert(rest.len() == 0 || mark_at(rest, 0));
    lemma_line_name_of_prefix(name, rest);
}

/// Decides `is_mark_char`.
pub fn char_is_mark(c: char) -> (mark: bool)
    ensures
        mark == is_mark_char(c),
{
    c == '(' || c == '\u{1f374}' || c == '\u{1f512}' || c == '\u{1f310}' || c == '\u{1f5a5}' || c
        == '\u{1f4f1}' || c == '\u{1f4ca}' || c == '\u{1f9ea}' || c == '\u{1f527}' || c
        == '\u{1f4da}' || c == '\u{1f3ae}'
}

/// What was read from a chosen line, as plain values: name, clone address
/// and, where there is one, the page to open.
pub open spec fn repo_info_view(info: Option<(String, String, Option<String>)>) -> Option<
    (Seq<char>, Seq<char>, Option<Seq<char>>),
> {
    match info {
        Some((name, url, page)) => Some(
            (
                name@,
                url@,
                match page {
                    Some(text) => Some(text@),
                    None => None,
                },
            ),
        ),
        None => None,
    }
}

/// The repository name at the front of a display line.
pub fn repo_name_of_line(line: &str) -> (name: &str)
    ensures
        name@ == line_name(line@),
{
    let n: usize = line.unicode_len();
    let mut i: usize = 0;
    while i < n && !(line.get_char(i) == ' ' && i + 1 < n && char_is_mark(line.get_char(i + 1)))
        invariant
            n == line@.len(),
            i <= n,
            name_end(line@, 0) == name_end(line@, i as int),
        decreases n - i,
    {
        i = i + 1;
    }
    let name = line.substring_char(0, i);
    assert(name@ =~= line@.take(i as int));
    name
}

} // verus!
