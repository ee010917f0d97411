use repo_url_picker::formatter::{
    assemble_line, category_emoji_for, char_is_mark, format_repo_name, format_repository, get_category_emoji,
    repo_name_of_line,
};

#[test]
fn test_format_repo_name() {
    assert_eq!(format_repo_name("normal-repo", false, false), "normal-repo");
    assert_eq!(format_repo_name("forked-repo", true, false), "forked-repo 🍴");
    assert_eq!(format_repo_name("private-repo", false, true), "private-repo 🔒");
    assert_eq!(format_repo_name("private-fork", true, true), "private-fork 🍴 🔒");
}

#[test]
fn test_get_category_emoji() {
    assert_eq!(get_category_emoji("web-project", "A frontend project"), "🌐");
    assert_eq!(get_category_emoji("react-app", "UI components"), "🌐");

    assert_eq!(get_category_emoji("api-server", "REST API"), "🖥️");
    assert_eq!(get_category_emoji("database-tool", "SQL utility"), "🖥️");

    assert_eq!(get_category_emoji("ios-app", "Swift application"), "📱");
    assert_eq!(get_category_emoji("android-client", "Mobile app"), "📱");

    assert_eq!(get_category_emoji("data-analysis", "ML project"), "📊");
    assert_eq!(get_category_emoji("tensorflow-model", "AI experiment"), "📊");

    assert_eq!(get_category_emoji("cli-tool", "Command line utility"), "🔧");
    assert_eq!(get_category_emoji("script-collection", "Useful scripts"), "🔧");

    assert_eq!(get_category_emoji("docs", "Project documentation"), "📚");
    assert_eq!(get_category_emoji("tutorial", "Learning materials"), "📚");

    assert_eq!(get_category_emoji("game-engine", "2D game framework"), "🎮");
    assert_eq!(get_category_emoji("unity-project", "3D game"), "🎮");

    assert_eq!(get_category_emoji("test-suite", "QA tools"), "🧪");
    assert_eq!(get_category_emoji("spec-runner", "Testing framework"), "🧪");

    assert_eq!(get_category_emoji("random-project", "Miscellaneous code"), "");
}

#[test]
fn test_format_repository() {
    assert_eq!(
        format_repository("web-app", "Frontend application", false, false),
        "web-app (Frontend application) 🌐"
    );
    assert_eq!(
        format_repository("forked-api", "Backend service", true, false),
        "forked-api 🍴 (Backend service) 🖥️"
    );
    assert_eq!(
        format_repository("mobile-app", "iOS client", false, true),
        "mobile-app 🔒 (iOS client) 📱"
    );
    assert_eq!(
        format_repository("game-demo", "Unity project", true, true),
        "game-demo 🍴 🔒 (Unity project) 🎮"
    );
    assert_eq!(format_repository("test-framework", "", false, false), "test-framework 🧪");
    assert_eq!(format_repository("misc-code", "", false, false), "misc-code");
}

#[test]
fn category_is_taken_from_lowercased_text() {
    assert_eq!(get_category_emoji("WEB", ""), "🌐");
    assert_eq!(category_emoji_for("WEB"), "");
    assert_eq!(category_emoji_for("web"), "🌐");
    assert_eq!(category_emoji_for("unity game with tests"), "🧪");
    assert_eq!(category_emoji_for(""), "");
}

#[test]
fn description_without_category_keeps_trailing_space() {
    assert_eq!(format_repository("misc", "Other", false, false), "misc (Other) ");
}

#[test]
fn name_of_line_stops_at_the_first_mark() {
    assert_eq!(repo_name_of_line("web-app (Frontend application) 🌐"), "web-app");
    assert_eq!(repo_name_of_line("misc-code"), "misc-code");
    assert_eq!(repo_name_of_line("forked-api 🍴 (Backend service) 🖥️"), "forked-api");
    assert_eq!(repo_name_of_line("private-fork 🍴 🔒"), "private-fork");
    assert_eq!(repo_name_of_line("private-repo 🔒 (words) "), "private-repo");
    assert_eq!(repo_name_of_line("test-framework 🧪"), "test-framework");
    assert_eq!(repo_name_of_line("my repo (d)"), "my repo");
    assert_eq!(repo_name_of_line("My Project 🔒"), "My Project");
    assert_eq!(repo_name_of_line("My Project"), "My Project");
    assert_eq!(repo_name_of_line("a (b) (c)"), "a");
    assert_eq!(repo_name_of_line(" ("), "");
    assert_eq!(repo_name_of_line("a("), "a(");
    assert_eq!(repo_name_of_line("a "), "a ");
    assert_eq!(repo_name_of_line("a 🍴"), "a");
    assert_eq!(repo_name_of_line("a🍴"), "a🍴");
    assert_eq!(repo_name_of_line(""), "");
}

#[test]
fn every_mark_ends_the_name() {
    for mark in ["(", "🍴", "🔒", "🌐", "🖥️", "📱", "📊", "🧪", "🔧", "📚", "🎮"] {
        let line = format!("two words {}", mark);
        assert_eq!(repo_name_of_line(&line), "two words");
        for c in mark.chars().take(1) {
            assert!(char_is_mark(c));
        }
    }
    assert!(!char_is_mark(' '));
    assert!(!char_is_mark(')'));
    assert!(!char_is_mark('a'));
    assert!(!char_is_mark('\u{fe0f}'));
}

#[test]
fn name_is_read_back_from_every_kind_of_line() {
    let names = ["forked-api", "misc", "web(1)", "é", "My Project", "a b c", "trailing ", " x", ""];
    let descriptions = ["", "Backend service", "plain words", "(odd) 🍴 words"];
    for description in descriptions {
        for is_fork in [false, true] {
            for is_private in [false, true] {
                for name in names {
                    let line = format_repository(name, description, is_fork, is_private);
                    assert_eq!(repo_name_of_line(&line), name);
                }
            }
        }
    }
}

#[test]
fn lines_are_assembled_from_their_parts() {
    assert_eq!(assemble_line("name 🍴", "words", "🌐"), "name 🍴 (words) 🌐");
    assert_eq!(assemble_line("name", "words", ""), "name (words) ");
    assert_eq!(assemble_line("name", "", "🌐"), "name 🌐");
    assert_eq!(assemble_line("name", "", ""), "name");
    assert_eq!(assemble_line("", "", ""), "");
}
