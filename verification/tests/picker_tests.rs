use repo_url_picker::fuzzy_finder::{
    clip_line, clip_query, rest_of_footer, rows_for_list, FuzzyFinder, Key, Overlay,
    PickerAction,
};

fn lines(n: usize) -> Vec<String> {
    (0..n).map(|i| format!("item-{:02}", i)).collect()
}

fn typed(finder: &mut FuzzyFinder, text: &str) {
    for c in text.chars() {
        finder.type_char(c);
    }
}

#[test]
fn new_picker_shows_everything() {
    let finder = FuzzyFinder::new(lines(3));
    assert_eq!(finder.items(), &lines(3));
    assert_eq!(finder.filtered_items(), &lines(3));
    assert_eq!(finder.query(), "");
    assert_eq!(finder.cursor_pos(), 0);
    assert_eq!(finder.selected_index(), 0);
    assert_eq!(finder.scroll_offset(), 0);
    assert_eq!(finder.max_display(), 10);
    assert!(finder.status_message().is_none());
    assert!(finder.error_message().is_none());
}

#[test]
fn typing_narrows_the_list() {
    let mut finder = FuzzyFinder::new(vec![
        "apple pie".to_string(),
        "banana split".to_string(),
        "cherry pie".to_string(),
    ]);
    typed(&mut finder, "pie");
    assert_eq!(finder.query(), "pie");
    assert_eq!(finder.cursor_pos(), 3);
    assert_eq!(finder.filtered_items(), &vec!["apple pie".to_string(), "cherry pie".to_string()]);
    typed(&mut finder, " -cherry");
    assert_eq!(finder.filtered_items(), &vec!["apple pie".to_string()]);
    assert_eq!(finder.cursor_pos(), 11);
}

#[test]
fn backspace_widens_the_list_again() {
    let mut finder = FuzzyFinder::new(vec!["ab".to_string(), "ac".to_string()]);
    typed(&mut finder, "ab");
    assert_eq!(finder.filtered_items().len(), 1);
    finder.backspace();
    assert_eq!(finder.query(), "a");
    assert_eq!(finder.cursor_pos(), 1);
    assert_eq!(finder.filtered_items().len(), 2);
    finder.backspace();
    assert_eq!(finder.query(), "");
    assert_eq!(finder.cursor_pos(), 0);
    finder.backspace();
    assert_eq!(finder.query(), "");
    assert_eq!(finder.cursor_pos(), 0);
    assert_eq!(finder.filtered_items().len(), 2);
}

#[test]
fn backspace_removes_a_whole_character() {
    let mut finder = FuzzyFinder::new(vec!["é".to_string()]);
    typed(&mut finder, "aé");
    assert_eq!(finder.cursor_pos(), 2);
    finder.backspace();
    assert_eq!(finder.query(), "a");
}

#[test]
fn selection_is_clamped_when_the_list_shrinks() {
    let mut items = lines(5);
    items[0] = "keep-0".to_string();
    items[1] = "keep-1".to_string();
    let mut finder = FuzzyFinder::new(items);
    for _ in 0..4 {
        finder.move_cursor_down();
    }
    assert_eq!(finder.selected_index(), 4);
    typed(&mut finder, "keep");
    assert_eq!(finder.filtered_items().len(), 2);
    assert_eq!(finder.selected_index(), 1);
    typed(&mut finder, "zzz");
    assert_eq!(finder.filtered_items().len(), 0);
    assert_eq!(finder.selected_index(), 0);
    assert_eq!(finder.scroll_offset(), 0);
    let frame = finder.render_frame(80, 24);
    assert!(frame.lines.is_empty());
}

#[test]
fn selection_stops_at_both_ends() {
    let mut finder = FuzzyFinder::new(lines(3));
    finder.move_cursor_up();
    assert_eq!(finder.selected_index(), 0);
    finder.move_cursor_down();
    finder.move_cursor_down();
    assert_eq!(finder.selected_index(), 2);
    finder.move_cursor_down();
    assert_eq!(finder.selected_index(), 2);
    finder.move_cursor_up();
    assert_eq!(finder.selected_index(), 1);
}

#[test]
fn moves_on_an_empty_list_do_nothing() {
    let mut finder = FuzzyFinder::new(Vec::new());
    finder.move_cursor_down();
    finder.move_cursor_up();
    assert_eq!(finder.selected_index(), 0);
    assert_eq!(finder.scroll_offset(), 0);
    assert!(matches!(finder.handle_key(Key::Char('\n')), PickerAction::Continue));
}

#[test]
fn scroll_follows_the_selection() {
    let mut finder = FuzzyFinder::new(lines(15));
    for _ in 0..9 {
        finder.move_cursor_down();
    }
    assert_eq!(finder.selected_index(), 9);
    assert_eq!(finder.scroll_offset(), 0);
    finder.move_cursor_down();
    assert_eq!(finder.selected_index(), 10);
    assert_eq!(finder.scroll_offset(), 1);
    for _ in 0..4 {
        finder.move_cursor_down();
    }
    assert_eq!(finder.selected_index(), 14);
    assert_eq!(finder.scroll_offset(), 5);
    for _ in 0..9 {
        finder.move_cursor_up();
    }
    assert_eq!(finder.selected_index(), 5);
    assert_eq!(finder.scroll_offset(), 5);
    finder.move_cursor_up();
    assert_eq!(finder.selected_index(), 4);
    assert_eq!(finder.scroll_offset(), 4);
}

#[test]
fn scroll_is_pulled_back_when_the_list_shrinks() {
    let mut items = lines(20);
    for item in items.iter_mut().take(12) {
        item.push_str(" keep");
    }
    let mut finder = FuzzyFinder::new(items);
    for _ in 0..15 {
        finder.move_cursor_down();
    }
    assert_eq!(finder.selected_index(), 15);
    assert_eq!(finder.scroll_offset(), 6);
    typed(&mut finder, "keep");
    assert_eq!(finder.filtered_items().len(), 12);
    assert_eq!(finder.selected_index(), 11);
    assert_eq!(finder.scroll_offset(), 2);
}

#[test]
fn viewport_can_be_resized() {
    let mut finder = FuzzyFinder::new(lines(30));
    for _ in 0..20 {
        finder.move_cursor_down();
    }
    assert_eq!(finder.scroll_offset(), 11);
    finder.set_viewport(5);
    assert_eq!(finder.max_display(), 5);
    assert_eq!(finder.selected_index(), 20);
    assert_eq!(finder.scroll_offset(), 16);
    finder.set_viewport(0);
    assert_eq!(finder.max_display(), 1);
    assert_eq!(finder.scroll_offset(), 20);
    finder.set_viewport(100);
    assert_eq!(finder.scroll_offset(), 0);
}

#[test]
fn enter_hands_out_the_selected_line() {
    let mut finder = FuzzyFinder::new(lines(3));
    finder.handle_key(Key::Down);
    match finder.handle_key(Key::Char('\n')) {
        PickerAction::Selected(line) => assert_eq!(line, "item-01"),
        other => panic!("unexpected action {:?}", other),
    }
    match finder.handle_key(Key::Char('\r')) {
        PickerAction::Selected(line) => assert_eq!(line, "item-01"),
        other => panic!("unexpected action {:?}", other),
    }
    assert_eq!(finder.query(), "");
}

#[test]
fn enter_on_an_empty_list_goes_on() {
    let mut finder = FuzzyFinder::new(lines(3));
    typed(&mut finder, "nothing");
    assert!(matches!(finder.handle_key(Key::Char('\n')), PickerAction::Continue));
    assert_eq!(finder.query(), "nothing");
}

#[test]
fn cancel_keys_leave() {
    let mut finder = FuzzyFinder::new(lines(3));
    assert!(matches!(finder.handle_key(Key::Esc), PickerAction::Cancelled));
    assert!(matches!(finder.handle_key(Key::Ctrl('c')), PickerAction::Cancelled));
    assert!(matches!(finder.handle_key(Key::Ctrl('x')), PickerAction::Continue));
    assert!(matches!(finder.handle_key(Key::Other), PickerAction::Continue));
    assert_eq!(finder.query(), "");
    assert_eq!(finder.selected_index(), 0);
}

#[test]
fn keys_edit_and_move() {
    let mut finder = FuzzyFinder::new(lines(12));
    assert!(matches!(finder.handle_key(Key::Char('1')), PickerAction::Continue));
    assert_eq!(finder.query(), "1");
    assert_eq!(finder.filtered_items().len(), 3);
    assert!(matches!(finder.handle_key(Key::Down), PickerAction::Continue));
    assert_eq!(finder.selected_index(), 1);
    assert!(matches!(finder.handle_key(Key::Up), PickerAction::Continue));
    assert_eq!(finder.selected_index(), 0);
    assert!(matches!(finder.handle_key(Key::Backspace), PickerAction::Continue));
    assert_eq!(finder.query(), "");
    assert_eq!(finder.filtered_items().len(), 12);
}

#[test]
fn new_corpus_keeps_the_query() {
    let mut finder = FuzzyFinder::new(vec!["alpha".to_string(), "beta".to_string()]);
    typed(&mut finder, "et");
    assert_eq!(finder.filtered_items(), &vec!["beta".to_string()]);
    finder.update_items(vec!["gamma".to_string(), "zeta".to_string(), "meta".to_string()]);
    assert_eq!(finder.query(), "et");
    assert_eq!(finder.cursor_pos(), 2);
    assert_eq!(finder.items().len(), 3);
    assert_eq!(finder.filtered_items(), &vec!["zeta".to_string(), "meta".to_string()]);
}

#[test]
fn update_filter_changes_nothing_on_a_settled_picker() {
    let mut finder = FuzzyFinder::new(lines(4));
    typed(&mut finder, "item");
    finder.move_cursor_down();
    finder.update_filter();
    assert_eq!(finder.selected_index(), 1);
    assert_eq!(finder.filtered_items().len(), 4);
    assert_eq!(finder.query(), "item");
}

#[test]
fn messages_are_set_and_cleared() {
    let mut finder = FuzzyFinder::new(lines(1));
    finder.set_status_message(Some("working".to_string()));
    assert_eq!(finder.status_message(), &Some("working".to_string()));
    finder.set_error_message(Some("broken".to_string()));
    assert_eq!(finder.error_message(), &Some("broken".to_string()));
    assert_eq!(finder.status_message(), &Some("working".to_string()));
    finder.set_error_message(None);
    assert!(finder.error_message().is_none());
    finder.set_status_message(None);
    assert!(finder.status_message().is_none());
}

#[test]
fn lines_are_clipped_with_an_ellipsis() {
    assert_eq!(clip_line("abcdef", 6), "abcdef");
    assert_eq!(clip_line("abcdefg", 6), "abcde…");
    assert_eq!(clip_line("ab", 1), "…");
    assert_eq!(clip_line("ab", 0), "…");
    assert_eq!(clip_line("", 0), "");
    assert_eq!(clip_line("🍴🔒🌐", 2), "🍴…");
    assert_eq!(clip_query("abcdef", 6), "abcdef");
    assert_eq!(clip_query("abcdefg", 6), "…cdefg");
    assert_eq!(clip_query("ab", 1), "…");
    assert_eq!(clip_query("ab", 0), "…");
    assert_eq!(clip_query("", 0), "");
}

#[test]
fn frame_shows_the_window() {
    let mut items = lines(12);
    items[1] = "a-very-long-line-that-does-not-fit".to_string();
    let mut finder = FuzzyFinder::new(items);
    finder.set_viewport(5);
    finder.move_cursor_down();
    let frame = finder.render_frame(20, 8);
    assert_eq!(frame.lines.len(), 5);
    assert_eq!(frame.lines[0].text, "item-00");
    assert!(!frame.lines[0].selected);
    assert_eq!(frame.lines[1].text, "a-very-long-…");
    assert!(frame.lines[1].selected);
    assert_eq!(frame.lines[4].text, "item-04");
    assert_eq!(frame.blank_lines, 0);
    assert_eq!(frame.count_text, "12/12");
    assert_eq!(frame.rule_width, 14);
    assert!(frame.overlay.is_none());
    assert_eq!(frame.prompt, "");
    assert_eq!(frame.cursor_col, 3);
}

#[test]
fn frame_pads_a_short_list_and_scrolls() {
    let mut finder = FuzzyFinder::new(lines(12));
    typed(&mut finder, "item-1");
    let frame = finder.render_frame(80, 24);
    assert_eq!(frame.lines.len(), 2);
    assert_eq!(frame.blank_lines, 19);
    assert_eq!(frame.count_text, "2/12");
    assert_eq!(frame.rule_width, 75);
    assert_eq!(frame.prompt, "item-1");
    assert_eq!(frame.cursor_col, 9);

    let mut finder = FuzzyFinder::new(lines(12));
    finder.set_viewport(3);
    for _ in 0..6 {
        finder.move_cursor_down();
    }
    let frame = finder.render_frame(80, 6);
    assert_eq!(frame.lines.len(), 3);
    assert_eq!(frame.lines[0].text, "item-04");
    assert_eq!(frame.lines[2].text, "item-06");
    assert!(frame.lines[2].selected);
    assert_eq!(frame.blank_lines, 0);
}

#[test]
fn frame_survives_a_tiny_terminal() {
    let mut finder = FuzzyFinder::new(lines(3));
    typed(&mut finder, "item");
    let frame = finder.render_frame(0, 0);
    assert!(frame.lines.is_empty());
    assert_eq!(frame.blank_lines, 0);
    assert_eq!(frame.rule_width, 0);
    assert_eq!(frame.prompt, "…");
    assert_eq!(frame.cursor_col, 0);
    let frame = finder.render_frame(5, 4);
    assert_eq!(frame.lines.len(), 1);
    assert_eq!(frame.lines[0].text, "…");
    assert_eq!(frame.count_text, "3/3");
    assert_eq!(frame.rule_width, 1);
    assert_eq!(frame.prompt, "…em");
    assert_eq!(frame.cursor_col, 5);
}

#[test]
fn error_overlay_goes_before_status() {
    let mut finder = FuzzyFinder::new(lines(1));
    finder.set_status_message(Some("working".to_string()));
    match finder.render_frame(80, 24).overlay {
        Some(Overlay::Status(text)) => assert_eq!(text, "working"),
        _ => panic!("status overlay expected"),
    }
    assert_eq!(finder.render_frame(80, 24).rule_width, 68);
    finder.set_error_message(Some("broken".to_string()));
    match finder.render_frame(80, 24).overlay {
        Some(Overlay::Error(text)) => assert_eq!(text, "broken"),
        _ => panic!("error overlay expected"),
    }
    assert_eq!(finder.render_frame(80, 24).rule_width, 69);
}

#[test]
fn overlay_is_cut_to_the_footer() {
    let mut finder = FuzzyFinder::new(lines(1));
    finder.set_status_message(Some("working".to_string()));
    let frame = finder.render_frame(10, 24);
    match frame.overlay {
        Some(Overlay::Status(text)) => assert_eq!(text, "worki…"),
        _ => panic!("status overlay expected"),
    }
    assert_eq!(frame.rule_width, 0);
    let frame = finder.render_frame(13, 24);
    match frame.overlay {
        Some(Overlay::Status(text)) => assert_eq!(text, "working"),
        _ => panic!("status overlay expected"),
    }
    assert_eq!(frame.rule_width, 1);
}

#[test]
fn three_rows_are_kept_for_footer_and_prompt() {
    assert_eq!(rows_for_list(24), 21);
    assert_eq!(rows_for_list(4), 1);
    assert_eq!(rows_for_list(3), 0);
    assert_eq!(rows_for_list(0), 0);
    assert_eq!(rows_for_list(u16::MAX), 65532);
    assert_eq!(rest_of_footer(10, "abc"), 6);
    assert_eq!(rest_of_footer(4, "abc"), 0);
    assert_eq!(rest_of_footer(5, "abc"), 1);
    assert_eq!(rest_of_footer(0, ""), 0);
}
