use repo_url_picker::filter::{
    clone_all, filter_by_keys, filter_human, matches_terms, split_terms_of, term_is_exclusion,
};
use repo_url_picker::text::{char_is_whitespace, join_text, decimal, digit, trim};

fn strings(items: &[&str]) -> Vec<String> {
    items.iter().map(|s| s.to_string()).collect()
}

#[test]
fn test_empty_list() {
    let items: Vec<String> = vec![];
    let result = filter_human(&items, "query", |s| s.clone());
    assert_eq!(result.len(), 0);
}

#[test]
fn test_empty_query() {
    let items = vec!["apple", "banana", "cherry"];
    let result = filter_human(&items, "", |s| s.to_string());
    assert_eq!(result, items);
}

#[test]
fn test_simple_filter() {
    let items = vec!["apple", "banana", "cherry"];
    let result = filter_human(&items, "a", |s| s.to_string());
    assert_eq!(result, vec!["apple", "banana"]);
}

#[test]
fn test_multiple_terms() {
    let items = vec!["apple pie", "banana split", "cherry pie"];
    let result = filter_human(&items, "pie a", |s| s.to_string());
    assert_eq!(result, vec!["apple pie"]);
}

#[test]
fn test_exclusion() {
    let items = vec!["apple pie", "banana split", "cherry pie"];
    let result = filter_human(&items, "pie -cherry", |s| s.to_string());
    assert_eq!(result, vec!["apple pie"]);
}

#[test]
fn test_case_insensitive() {
    let items = vec!["Apple", "Banana", "Cherry"];
    let result = filter_human(&items, "apple", |s| s.to_string());
    assert_eq!(result, vec!["Apple"]);
}

#[test]
fn test_medical_medium_exclusion() {
    let items = vec![
        "medicalmedium-instagram (git@github.com:Dima-369/medicalmedium-instagram.git)",
        "medical-medium-text-files (git@github.com:Dima-369/medical-medium-text-files.git)",
        "medical-medium-demon-podcast-notes (git@github.com:Dima-369/medical-medium-demon-podcast-notes.git)",
    ];

    let result = filter_human(&items, "medical -demon", |s| s.to_string());
    assert_eq!(
        result,
        vec![
            "medicalmedium-instagram (git@github.com:Dima-369/medicalmedium-instagram.git)",
            "medical-medium-text-files (git@github.com:Dima-369/medical-medium-text-files.git)"
        ]
    );
}

#[test]
fn blank_query_keeps_everything_in_order() {
    let items = vec!["b", "a", "c"];
    assert_eq!(filter_human(&items, "   ", |s| s.to_string()), items);
    assert_eq!(filter_human(&items, "\t\n ", |s| s.to_string()), items);
    assert_eq!(filter_human(&items, "\u{3000}\u{a0}", |s| s.to_string()), items);
}

#[test]
fn exclusion_wins_over_inclusion() {
    let items = vec!["medical-medium-demon-podcast-notes", "medicalmedium-instagram"];
    let result = filter_human(&items, "medical -demon", |s| s.to_string());
    assert_eq!(result, vec!["medicalmedium-instagram"]);
}

#[test]
fn survivors_keep_their_order() {
    let items = vec!["zeta one", "alpha", "beta one", "one", "gamma"];
    let result = filter_human(&items, "one", |s| s.to_string());
    assert_eq!(result, vec!["zeta one", "beta one", "one"]);
}

#[test]
fn bare_minus_is_an_ordinary_term() {
    let items = vec!["a-b", "ab", "-"];
    let result = filter_human(&items, "-", |s| s.to_string());
    assert_eq!(result, vec!["a-b", "-"]);
    assert!(!term_is_exclusion("-"));
    assert!(term_is_exclusion("-a"));
    assert!(term_is_exclusion("--"));
    assert!(!term_is_exclusion("a-"));
    assert!(!term_is_exclusion(""));
}

#[test]
fn one_letter_exclusion_excludes() {
    let items = vec!["ab", "cd"];
    let result = filter_human(&items, "-a", |s| s.to_string());
    assert_eq!(result, vec!["cd"]);
}

#[test]
fn query_is_trimmed_and_lowercased() {
    let items = vec!["Apple Pie", "banana"];
    let result = filter_human(&items, "  PIE   APPLE ", |s| s.to_string());
    assert_eq!(result, vec!["Apple Pie"]);
}

#[test]
fn tab_inside_query_does_not_split() {
    let items = vec!["a\tb", "a b"];
    let result = filter_human(&items, "a\tb", |s| s.to_string());
    assert_eq!(result, vec!["a\tb"]);
}

#[test]
fn lowercasing_changes_the_key() {
    let items = vec!["ÀPPLE", "banana"];
    let result = filter_human(&items, "àpp", |s| s.to_string());
    assert_eq!(result, vec!["ÀPPLE"]);
}

#[test]
fn mapper_chooses_the_text() {
    let items = vec![(1, "apple"), (2, "banana"), (3, "grape")];
    let result = filter_human(&items, "ap", |p| p.1.to_string());
    assert_eq!(result, vec![(1, "apple"), (3, "grape")]);
}

#[test]
fn split_terms_drops_empty_pieces() {
    assert_eq!(split_terms_of("pie a"), strings(&["pie", "a"]));
    assert_eq!(split_terms_of("  pie   -cherry "), strings(&["pie", "-cherry"]));
    assert_eq!(split_terms_of(""), Vec::<String>::new());
    assert_eq!(split_terms_of("   "), Vec::<String>::new());
    assert_eq!(split_terms_of("one"), strings(&["one"]));
    assert_eq!(split_terms_of("a\tb c"), strings(&["a\tb", "c"]));
}

#[test]
fn matches_terms_on_given_keys() {
    assert!(matches_terms("apple pie", &strings(&["pie", "a"])));
    assert!(!matches_terms("banana split", &strings(&["pie", "a"])));
    assert!(!matches_terms("cherry pie", &strings(&["pie", "-cherry"])));
    assert!(matches_terms("apple pie", &strings(&["pie", "-cherry"])));
    assert!(matches_terms("anything", &strings(&[])));
    assert!(matches_terms("a-b", &strings(&["-"])));
    assert!(!matches_terms("ab", &strings(&["-"])));
}

#[test]
fn filter_by_keys_on_given_keys() {
    let items = vec![10, 20, 30];
    let keys = strings(&["apple pie", "banana split", "cherry pie"]);
    assert_eq!(filter_by_keys(&items, &keys, &strings(&["pie"])), vec![10, 30]);
    assert_eq!(filter_by_keys(&items, &keys, &strings(&["pie", "-cherry"])), vec![10]);
    assert_eq!(filter_by_keys(&items, &keys, &strings(&[])), vec![10, 20, 30]);
    assert_eq!(filter_by_keys(&items, &keys, &strings(&["zebra"])), Vec::<i32>::new());
}

#[test]
fn clone_all_copies_in_order() {
    let items = vec!["x".to_string(), "y".to_string()];
    assert_eq!(clone_all(&items), items);
}

#[test]
fn trim_drops_unicode_whitespace() {
    assert_eq!(trim("  a b  "), "a b");
    assert_eq!(trim("\t\r\nx\u{2003}"), "x");
    assert_eq!(trim(""), "");
    assert_eq!(trim(" \u{85} "), "");
    assert_eq!(trim("é "), "é");
    assert_eq!(trim("\u{200b}x"), "\u{200b}x");
}

#[test]
fn whitespace_is_what_std_says() {
    let mut c: u32 = 0;
    while c < 0x3100 {
        if let Some(ch) = char::from_u32(c) {
            assert_eq!(char_is_whitespace(ch), ch.is_whitespace());
        }
        c += 1;
    }
}

#[test]
fn decimal_writes_numbers() {
    assert_eq!(decimal(0), "0");
    assert_eq!(decimal(7), "7");
    assert_eq!(decimal(10), "10");
    assert_eq!(decimal(1801), "1801");
    assert_eq!(decimal(usize::MAX), usize::MAX.to_string());
    assert_eq!(digit(3), '3');
    assert_eq!(digit(9), '9');
}

#[test]
fn join_text_joins() {
    assert_eq!(join_text("ab", "cd"), "abcd");
    assert_eq!(join_text("", ""), "");
}
