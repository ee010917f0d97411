//! The menu that follows a choice: what each answer asks for.

use crate::text::{lowercase_of, same_text, to_lowercase, trim, trim_of};
use vstd::prelude::*;
use vstd::string::*;

verus! {

/// One entry of the menu.
pub struct MenuOption {
    pub key: char,
    pub description: String,
    pub value: String,
}

/// What an answer to the menu asks for.
#[derive(Clone, Copy, Debug, PartialEq, Eq, Structural)]
pub enum MenuChoice {
    CopyCloneCommand,
    CopySshUrl,
    OpenInBrowser,
    Quit,
    /// The answer names nothing; the clone command is copied.
    Fallback,
}

/// What an answer asks for, given the answer and its lower-case form: `c`
/// the clone command, `s` the SSH address, `o` the browser where there is a
/// page to open, Esc or `q` in either case to leave, and anything else
/// nothing.
pub open spec fn choice_of(answer: Seq<char>, lowered: Seq<char>, has_browser_url: bool) -> MenuChoice {
    if answer == "c"@ {
        MenuChoice::CopyCloneCommand
    } else if answer == "s"@ {
        MenuChoice::CopySshUrl
    } else if answer == "o"@ && has_browser_url {
        MenuChoice::OpenInBrowser
    } else if answer == "\u{1b}"@ || lowered == "q"@ {
        MenuChoice::Quit
    } else {
        MenuChoice::Fallback
    }
}

/// Decides `choice_of`.
pub fn choice_for(answer: &str, lowered: &str, has_browser_url: bool) -> (choice: MenuChoice)
    ensures
        choice == choice_of(answer@, lowered@, has_browser_url),
{
    if same_text(answer, "c") {
        MenuChoice::CopyCloneCommand
    } else if same_text(answer, "s") {
        MenuChoice::CopySshUrl
    } else if same_text(answer, "o") && has_browser_url {
        MenuChoice::OpenInBrowser
    } else if same_text(answer, "\u{1b}") || same_text(lowered, "q") {
        MenuChoice::Quit
    } else {
        MenuChoice::Fallback
    }
}

/// Reads an answer to the menu. Whitespace around it does not count, and
/// the case of `q` does not matter.
pub fn read_choice(input: &str, has_browser_url: bool) -> (choice: MenuChoice)
    ensures
        choice == choice_of(trim_of(input@), lowercase_of(trim_of(input@)), has_browser_url),
{
    let answer = trim(input);
    let lowered = to_lowercase(answer);
    choice_for(answer, lowered.as_str(), has_browser_url)
}

} // verus!
