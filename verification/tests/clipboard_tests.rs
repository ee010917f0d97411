use repo_url_picker::cli::AppArgs;
use repo_url_picker::clipboard::{copied_report, ClipboardContent};
use repo_url_picker::menu::{choice_for, read_choice, MenuChoice, MenuOption};
use repo_url_picker::text::same_text;

#[test]
fn test_clipboard_content_git_clone() {
    let content = ClipboardContent::GitCloneCommand("git clone test-repo".to_string());
    let (text, desc) = match content {
        ClipboardContent::GitCloneCommand(cmd) => (cmd, "git clone command"),
        _ => panic!("Wrong enum variant"),
    };

    assert_eq!(text, "git clone test-repo");
    assert_eq!(desc, "git clone command");
}

#[test]
fn test_clipboard_content_ssh_url() {
    let content = ClipboardContent::SshUrl("git@github.com:user/repo.git".to_string());
    let (text, desc) = match content {
        ClipboardContent::SshUrl(url) => (url, "SSH URL"),
        _ => panic!("Wrong enum variant"),
    };

    assert_eq!(text, "git@github.com:user/repo.git");
    assert_eq!(desc, "SSH URL");
}

#[test]
fn clipboard_content_parts() {
    let (text, label) = ClipboardContent::GitCloneCommand("git clone x".to_string()).into_parts();
    assert_eq!(text, "git clone x");
    assert_eq!(label, "git clone command");
    let (text, label) = ClipboardContent::SshUrl("git@h:u/r.git".to_string()).into_parts();
    assert_eq!(text, "git@h:u/r.git");
    assert_eq!(label, "SSH URL");
    assert_eq!(copied_report("SSH URL", "git@h:u/r.git"), "Copied SSH URL to clipboard: git@h:u/r.git");
}

#[test]
fn menu_choices() {
    assert_eq!(read_choice("c\n", true), MenuChoice::CopyCloneCommand);
    assert_eq!(read_choice(" s ", false), MenuChoice::CopySshUrl);
    assert_eq!(read_choice("o", true), MenuChoice::OpenInBrowser);
    assert_eq!(read_choice("o", false), MenuChoice::Fallback);
    assert_eq!(read_choice("q", true), MenuChoice::Quit);
    assert_eq!(read_choice("Q\n", true), MenuChoice::Quit);
    assert_eq!(read_choice("\u{1b}", true), MenuChoice::Quit);
    assert_eq!(read_choice("", true), MenuChoice::Fallback);
    assert_eq!(read_choice("C", true), MenuChoice::Fallback);
    assert_eq!(read_choice("cs", true), MenuChoice::Fallback);
    assert_eq!(choice_for("Q", "q", true), MenuChoice::Quit);
    assert_eq!(choice_for("Q", "Q", true), MenuChoice::Fallback);
    assert_eq!(choice_for("c", "c", false), MenuChoice::CopyCloneCommand);
    assert_eq!(choice_for("o", "o", false), MenuChoice::Fallback);
    assert!(same_text("a", "a"));
    assert!(!same_text("a", "b"));
    let option = MenuOption { key: 'c', description: "Copy".to_string(), value: "x".to_string() };
    assert_eq!(option.key, 'c');
}

#[test]
fn options_need_a_token_or_samples() {
    assert!(AppArgs::from_flags(false, None, None, false).is_none());
    assert!(AppArgs::from_flags(false, None, None, true).is_none());
    let args = AppArgs::from_flags(true, Some("t".to_string()), None, true).unwrap();
    assert!(args.use_dummy);
    assert!(args.force_download);
    assert!(args.github_token.is_none());
    assert!(args.gitlab_token.is_none());
    let args = AppArgs::from_flags(false, Some("gh".to_string()), None, false).unwrap();
    assert!(!args.use_dummy);
    assert_eq!(args.github_token, Some("gh".to_string()));
    assert_eq!(args.gitlab_token, None);
    let args = AppArgs::from_flags(false, None, Some("gl".to_string()), false).unwrap();
    assert_eq!(args.gitlab_token, Some("gl".to_string()));
}
