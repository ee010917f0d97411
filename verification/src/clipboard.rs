//! What can be put on the clipboard, and the words that report it.

use crate::text::join_text;
use vstd::prelude::*;

verus! {

/// Something to put on the clipboard.
pub enum ClipboardContent {
    GitCloneCommand(String),
    SshUrl(String),
}

/// What a clipboard content is called in reports.
pub open spec fn content_label(content: ClipboardContent) -> Seq<char> {
    match content {
        ClipboardContent::GitCloneCommand(_) => "git clone command"@,
        ClipboardContent::SshUrl(_) => "SSH URL"@,
    }
}

/// The text of a clipboard content.
pub open spec fn content_text(content: ClipboardContent) -> Seq<char> {
    match content {
        ClipboardContent::GitCloneCommand(text) => text@,
        ClipboardContent::SshUrl(text) => text@,
    }
}

/// The report of a copy that went well.
pub open spec fn copied_text(label: Seq<char>, text: Seq<char>) -> Seq<char> {
    "Copied "@ + label + " to clipboard: "@ + text
}

impl ClipboardContent {
    /// The text to copy and what it is called.
    pub fn into_parts(self) -> (parts: (String, &'static str))
        ensures
            parts.0@ == content_text(self),
            parts.1@ == content_label(self),
    {
        match self {
            ClipboardContent::GitCloneCommand(text) => (text, "git clone command"),
            ClipboardContent::SshUrl(text) => (text, "SSH URL"),
        }
    }
}

/// The report of a copy that went well.
pub fn copied_report(label: &str, text: &str) -> (report: String)
    ensures
        report@ == copied_text(label@, text@),
{
    let a = join_text("Copied ", label);
    let b = join_text(a.as_str(), " to clipboard: ");
    join_text(b.as_str(), text)
}

} // verus!
