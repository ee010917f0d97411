//! The interactive picker as a state machine: a query buffer, the filtered
//! list, the selection and the scroll window. Keys and background updates
//! are steps of the machine; reading keys and drawing are left to the caller.

use crate::filter::{
    all_indices, clone_all, filter_human, is_selection, projections_of, query_keeps, texts,
};
use crate::repository::{display_lines, display_texts, MessageView, RepoUpdateMessage};
use crate::text::{join_text, decimal, decimal_of, is_blank, push_char, trim_of, trim_start};
use vstd::prelude::*;
use vstd::string::*;

verus! {

/// A key as the picker sees it.
#[derive(Clone, Copy, Debug, PartialEq, Eq)]
pub enum Key {
    /// A character key; newline and carriage return stand for Enter.
    Char(char),
    Backspace,
    Up,
    Down,
    /// A character typed with the control key held.
    Ctrl(char),
    Esc,
    /// Any other key.
    Other,
}

/// What the caller's loop does after a key.
#[derive(Debug)]
pub enum PickerAction {
    /// Draw again and read the next key.
    Continue,
    /// The user chose this line.
    Selected(String),
    /// The user left without choosing.
    Cancelled,
}

/// The picker's state as plain values.
pub struct PickerState {
    /// The corpus: every line that can be chosen.
    pub items: Seq<Seq<char>>,
    /// The lines that the query keeps.
    pub filtered: Seq<Seq<char>>,
    pub query: Seq<char>,
    pub cursor_pos: nat,
    pub selected_index: nat,
    /// The number of rows that the list is shown in.
    pub max_display: nat,
    pub scroll_offset: nat,
    pub status_message: Option<Seq<char>>,
    pub error_message: Option<Seq<char>>,
}

/// The picker.
pub struct FuzzyFinder {
    items: Vec<String>,
    filtered_items: Vec<String>,
    query: String,
    cursor_pos: usize,
    selected_index: usize,
    max_display: usize,
    scroll_offset: usize,
    status_message: Option<String>,
    error_message: Option<String>,
}

/// The view of an optional string.
pub open spec fn text_of(message: Option<String>) -> Option<Seq<char>> {
    match message {
        Some(text) => Some(text@),
        None => None,
    }
}

/// The items at the given indices, in that order.
pub open spec fn pick(items: Seq<Seq<char>>, indices: Seq<int>) -> Seq<Seq<char>> {
    Seq::new(indices.len(), |j: int| items[indices[j]])
}

/// The lines of `items` that `query` keeps, in order.
pub open spec fn filtered_lines(items: Seq<Seq<char>>, query: Seq<char>) -> Seq<Seq<char>> {
    pick(items, query_keeps(items, query))
}

/// A selection pulled back into a list of `len` lines: the last line where
/// it lay behind the end, the first where the list is empty.
pub open spec fn clamped_selection(selected: nat, len: nat) -> nat {
    if selected >= len {
        if len == 0 {
            0
        } else {
            (len - 1) as nat
        }
    } else {
        selected
    }
}

/// The largest scroll offset for `len` lines in `rows` rows.
pub open spec fn scroll_cap(len: nat, rows: nat) -> nat {
    if len > rows {
        (len - rows) as nat
    } else {
        0
    }
}

/// A scroll offset moved as little as it takes to stay under the cap and to
/// show the selected line.
pub open spec fn settled_scroll(scroll: nat, selected: nat, len: nat, rows: nat) -> nat {
    let capped = if scroll > scroll_cap(len, rows) {
        scroll_cap(len, rows)
    } else {
        scroll
    };
    if selected < capped {
        selected
    } else if selected - capped >= rows {
        (selected - rows + 1) as nat
    } else {
        capped
    }
}

/// What holds of the picker between any two steps.
pub open spec fn state_ok(s: PickerState) -> bool {
    &&& s.filtered == filtered_lines(s.items, s.query)
    &&& s.cursor_pos == s.query.len()
    &&& s.max_display >= 1
    &&& s.selected_index == clamped_selection(s.selected_index, s.filtered.len())
    &&& s.scroll_offset <= s.selected_index < s.scroll_offset + s.max_display
    &&& s.scroll_offset <= scroll_cap(s.filtered.len(), s.max_display)
}

/// The state with the filtered list computed anew from corpus and query,
/// and selection and scroll offset pulled back into it.
pub open spec fn refiltered(s: PickerState) -> PickerState {
    let filtered = filtered_lines(s.items, s.query);
    let selected = clamped_selection(s.selected_index, filtered.len());
    PickerState {
        filtered,
        selected_index: selected,
        scroll_offset: settled_scroll(s.scroll_offset, selected, filtered.len(), s.max_display),
        ..s
    }
}

/// After a character was typed: it stands at the end of the query.
pub open spec fn typed(s: PickerState, c: char) -> PickerState {
    refiltered(PickerState { query: s.query.push(c), cursor_pos: s.cursor_pos + 1, ..s })
}

/// After Backspace: the last character of the query is gone; an empty query
/// stays as it is.
pub open spec fn erased(s: PickerState) -> PickerState {
    if s.query.len() > 0 && s.cursor_pos > 0 {
        refiltered(
            PickerState {
                query: s.query.drop_last(),
                cursor_pos: (s.cursor_pos - 1) as nat,
                ..s
            },
        )
    } else {
        s
    }
}

/// After Up: the selection is one line higher, unless it is the first.
pub open spec fn moved_up(s: PickerState) -> PickerState {
    if s.filtered.len() > 0 && s.selected_index > 0 {
        let selected = (s.selected_index - 1) as nat;
        PickerState {
            selected_index: selected,
            scroll_offset: if selected < s.scroll_offset {
                selected
            } else {
                s.scroll_offset
            },
            ..s
        }
    } else {
        s
    }
}

/// After Down: the selection is one line lower, unless it is the last.
pub open spec fn moved_down(s: PickerState) -> PickerState {
    if s.filtered.len() > 0 && s.selected_index + 1 < s.filtered.len() {
        let selected = s.selected_index + 1;
        PickerState {
            selected_index: selected,
            scroll_offset: if selected - s.scroll_offset >= s.max_display {
                (selected - s.max_display + 1) as nat
            } else {
                s.scroll_offset
            },
            ..s
        }
    } else {
        s
    }
}

/// After the corpus was replaced: the query stays, the filtered list is
/// computed from the new corpus.
pub open spec fn with_items(s: PickerState, items: Seq<Seq<char>>) -> PickerState {
    refiltered(PickerState { items, ..s })
}

/// After the list was given `rows` rows; no rows count as one.
pub open spec fn with_viewport(s: PickerState, rows: nat) -> PickerState {
    let rows = if rows == 0 {
        1
    } else {
        rows
    };
    PickerState {
        max_display: rows,
        scroll_offset: settled_scroll(s.scroll_offset, s.selected_index, s.filtered.len(), rows),
        ..s
    }
}

/// The key submits the selection.
pub open spec fn is_submit(key: Key) -> bool {
    key == Key::Char('\n') || key == Key::Char('\r')
}

/// The key leaves the picker.
pub open spec fn is_cancel(key: Key) -> bool {
    key == Key::Ctrl('c') || key == Key::Esc
}

/// The state after a key.
pub open spec fn key_step(s: PickerState, key: Key) -> PickerState {
    match key {
        Key::Char(c) => if is_submit(key) {
            s
        } else {
            typed(s, c)
        },
        Key::Backspace => erased(s),
        Key::Up => moved_up(s),
        Key::Down => moved_down(s),
        _ => s,
    }
}

/// Whether `action` is what a key asks of the caller in state `s`: the
/// selected line on Enter where there is one, leaving on Ctrl-C and Esc,
/// going on otherwise.
pub open spec fn action_fits(action: PickerAction, s: PickerState, key: Key) -> bool {
    match action {
        PickerAction::Selected(line) => is_submit(key) && s.filtered.len() > 0 && line@
            == s.filtered[s.selected_index as int],
        PickerAction::Cancelled => is_cancel(key),
        PickerAction::Continue => !is_cancel(key) && !(is_submit(key) && s.filtered.len() > 0),
    }
}

/// The state after a message from the refresh cycle. New repositories
/// replace the corpus and leave the query alone; a status or an error sets
/// its own text and leaves the other; completion clears the status, and an
/// error stays until it is cleared by hand.
pub open spec fn message_step(s: PickerState, message: MessageView) -> PickerState {
    match message {
        MessageView::NewRepos { repos, .. } => with_items(s, display_texts(repos)),
        MessageView::Status(text) => PickerState { status_message: Some(text), ..s },
        MessageView::Error(text) => PickerState { error_message: Some(text), ..s },
        MessageView::LoadingComplete => PickerState { status_message: None, ..s },
    }
}

/// The text that is laid over the footer.
pub enum Overlay {
    Status(String),
    Error(String),
}

/// One line of the list as it is drawn.
pub struct FrameLine {
    pub text: String,
    /// This is the selected line.
    pub selected: bool,
}

/// Everything that one redraw shows, top to bottom: the lines in view, the
/// blank rows under them, the footer with the count, a rule and the
/// overlay, and the prompt with the query and the cursor's column.
pub struct Frame {
    pub lines: Vec<FrameLine>,
    pub blank_lines: usize,
    pub count_text: String,
    pub rule_width: usize,
    pub overlay: Option<Overlay>,
    pub prompt: String,
    pub cursor_col: usize,
}

/// The ellipsis that marks a cut.
pub open spec fn ellipsis() -> char {
    '\u{2026}'
}

/// The rows that are left for the list in a terminal of `height` rows:
/// three are kept for footer, prompt and separator.
pub open spec fn list_rows(height: nat) -> nat {
    if height > 3 {
        (height - 3) as nat
    } else {
        0
    }
}

/// The columns that are left for a line's text in a terminal of `width`
/// columns: two for the marker in front and five to spare.
pub open spec fn line_width(width: nat) -> nat {
    if width > 7 {
        (width - 7) as nat
    } else {
        0
    }
}

/// The columns that are left for the query behind the prompt.
pub open spec fn prompt_width(width: nat) -> nat {
    if width > 2 {
        (width - 2) as nat
    } else {
        0
    }
}

/// A line cut to `avail` characters: a line that is longer keeps its
/// first `avail - 1` characters and ends in an ellipsis.
pub open spec fn clipped(text: Seq<char>, avail: nat) -> Seq<char> {
    if text.len() > avail {
        text.take(
            if avail >= 1 {
                avail - 1
            } else {
                0
            },
        ).push(ellipsis())
    } else {
        text
    }
}

/// A query cut to `avail` characters: a query that is longer starts with
/// an ellipsis and keeps its last `avail - 1` characters.
pub open spec fn clipped_query(query: Seq<char>, avail: nat) -> Seq<char> {
    if query.len() > avail {
        seq![ellipsis()] + query.skip(
            if avail >= 1 {
                query.len() - (avail - 1)
            } else {
                query.len() as int
            },
        )
    } else {
        query
    }
}

/// The index behind the last line in view.
pub open spec fn window_end(s: PickerState, height: nat) -> nat {
    if s.filtered.len() - s.scroll_offset < list_rows(height) {
        s.filtered.len()
    } else {
        s.scroll_offset + list_rows(height)
    }
}

/// The count in the footer: lines kept, a slash, lines in all.
pub open spec fn count_text(s: PickerState) -> Seq<char> {
    decimal_of(s.filtered.len()) + "/"@ + decimal_of(s.items.len())
}

/// The columns that are left in the footer behind the count and a space.
pub open spec fn footer_room(s: PickerState, width: nat) -> nat {
    if width > count_text(s).len() + 1 {
        (width - count_text(s).len() - 1) as nat
    } else {
        0
    }
}

/// The overlay as plain values: whether it is an error, and its text.
pub open spec fn overlay_view(overlay: Option<Overlay>) -> Option<(bool, Seq<char>)> {
    match overlay {
        Some(Overlay::Error(text)) => Some((true, text@)),
        Some(Overlay::Status(text)) => Some((false, text@)),
        None => None,
    }
}

/// The overlay that a state shows in the footer: the error where there is
/// one, else the status, cut to the room that the footer has.
pub open spec fn overlay_of(s: PickerState, width: nat) -> Option<(bool, Seq<char>)> {
    match s.error_message {
        Some(text) => Some((true, clipped(text, footer_room(s, width)))),
        None => match s.status_message {
            Some(text) => Some((false, clipped(text, footer_room(s, width)))),
            None => None,
        },
    }
}

/// The width of the rule that fills the footer: what is left behind the
/// count, and behind the overlay and a space where there is an overlay.
pub open spec fn rule_width(s: PickerState, width: nat) -> nat {
    match overlay_of(s, width) {
        None => footer_room(s, width),
        Some((_, text)) => if footer_room(s, width) > text.len() + 1 {
            (footer_room(s, width) - text.len() - 1) as nat
        } else {
            0
        },
    }
}

/// The column of the cursor: behind the query, or the last column where
/// the query is cut.
pub open spec fn cursor_col(s: PickerState, width: nat) -> nat {
    if s.query.len() > prompt_width(width) {
        width
    } else {
        s.cursor_pos + 3
    }
}

/// Whether `frame` is what state `s` shows in a terminal of the given size.
pub open spec fn is_frame_of(frame: Frame, s: PickerState, width: nat, height: nat) -> bool {
    &&& frame.lines@.len() == window_end(s, height) - s.scroll_offset
    &&& forall|k: int|
        0 <= k < frame.lines@.len() ==> {
            &&& (#[trigger] frame.lines@[k]).text@ == clipped(
                s.filtered[s.scroll_offset + k],
                line_width(width),
            )
            &&& frame.lines@[k].selected == (s.scroll_offset + k == s.selected_index)
        }
    &&& frame.blank_lines == list_rows(height) - frame.lines@.len()
    &&& frame.count_text@ == count_text(s)
    &&& frame.rule_width == rule_width(s, width)
    &&& overlay_view(frame.overlay) == overlay_of(s, width)
    &&& frame.prompt@ == clipped_query(s.query, prompt_width(width))
    &&& frame.cursor_col == cursor_col(s, width)
}

/// The rows that are left for the list in a terminal of `height` rows.
pub fn rows_for_list(height: u16) -> (rows: usize)
    ensures
        rows == list_rows(height as nat),
{
    if height > 3 {
        (height - 3) as usize
    } else {
        0
    }
}

/// Cuts a line to `avail` characters.
pub fn clip_line(text: &str, avail: usize) -> (out: String)
    ensures
        out@ == clipped(text@, avail as nat),
{
    let n: usize = text.unicode_len();
    if n > avail {
        let keep: usize = if avail >= 1 {
            avail - 1
        } else {
            0
        };
        let mut out = String::from_str(text.substring_char(0, keep));
        push_char(&mut out, '\u{2026}');
        assert(out@ =~= clipped(text@, avail as nat));
        out
    } else {
        String::from_str(text)
    }
}

/// The width that is left of `footer` columns behind `text` and a space.
pub fn rest_of_footer(footer: usize, text: &str) -> (rest: usize)
    ensures
        rest == (if footer > text@.len() + 1 {
            footer - text@.len() - 1
        } else {
            0
        }),
{
    let used: usize = text.unicode_len();
    if used < footer && footer - used > 1 {
        footer - used - 1
    } else {
        0
    }
}

/// Cuts a query to `avail` characters, keeping its end.
pub fn clip_query(query: &str, avail: usize) -> (out: String)
    ensures
        out@ == clipped_query(query@, avail as nat),
{
    let n: usize = query.unicode_len();
    if n > avail {
        let from: usize = if avail >= 1 {
            n - (avail - 1)
        } else {
            n
        };
        let mut out = String::new();
        push_char(&mut out, '\u{2026}');
        out.append(query.substring_char(from, n));
        assert(out@ =~= clipped_query(query@, avail as nat));
        out
    } else {
        String::from_str(query)
    }
}

/// The empty query is blank.
pub proof fn lemma_empty_is_blank()
    ensures
        is_blank(Seq::<char>::empty()),
{
    let s = Seq::<char>::empty();
    assert(trim_start(s) == 0);
    assert(trim_of(s).len() == 0);
}

/// A blank query keeps every line.
pub proof fn lemma_blank_keeps_all(items: Seq<Seq<char>>, query: Seq<char>)
    requires
        is_blank(query),
    ensures
        filtered_lines(items, query) == items,
{
    assert(filtered_lines(items, query) =~= items);
}

/// Computing the filtered list anew restores what holds between steps,
/// whatever selection and scroll offset were before.
pub proof fn lemma_refiltered_ok(s: PickerState)
    requires
        s.cursor_pos == s.query.len(),
        s.max_display >= 1,
    ensures
        state_ok(refiltered(s)),
{
}

/// In a state that is in order, computing the filtered list anew changes
/// nothing.
pub proof fn lemma_refiltered_is_stable(s: PickerState)
    requires
        state_ok(s),
    ensures
        refiltered(s) == s,
{
}

/// Every step keeps the picker in order: a key, a new corpus, a new
/// number of rows, a message.
pub proof fn lemma_steps_keep_order(
    s: PickerState,
    key: Key,
    items: Seq<Seq<char>>,
    rows: nat,
    message: MessageView,
)
    requires
        state_ok(s),
    ensures
        state_ok(key_step(s, key)),
        state_ok(with_items(s, items)),
        state_ok(with_viewport(s, rows)),
        state_ok(message_step(s, message)),
{
}

/// The state after the first `n` of some messages, taken in order.
pub open spec fn messages_step(s: PickerState, messages: Seq<MessageView>, n: nat) -> PickerState
    decreases n,
{
    if n == 0 {
        s
    } else {
        message_step(messages_step(s, messages, (n - 1) as nat), messages[n - 1])
    }
}

/// Selection clamping: once the filtered list is computed anew, the
/// selection lies inside it, at its last line where it lay behind the end
/// and at zero where the list is empty, and the selected line is in view.
pub proof fn lemma_selection_is_clamped(s: PickerState)
    requires
        s.max_display >= 1,
    ensures
        refiltered(s).filtered.len() == 0 ==> refiltered(s).selected_index == 0,
        refiltered(s).filtered.len() > 0 ==> refiltered(s).selected_index < refiltered(
            s,
        ).filtered.len(),
        s.selected_index >= refiltered(s).filtered.len() > 0 ==> refiltered(s).selected_index
            == refiltered(s).filtered.len() - 1,
        s.selected_index < refiltered(s).filtered.len() ==> refiltered(s).selected_index
            == s.selected_index,
        refiltered(s).scroll_offset <= refiltered(s).selected_index < refiltered(s).scroll_offset
            + s.max_display,
{
}

/// A live update keeps the query: with a new corpus the query and the cursor
/// are what they were, and the filtered list is what the same query keeps of
/// the new corpus.
pub proof fn lemma_live_update_keeps_query(s: PickerState, items: Seq<Seq<char>>)
    ensures
        with_items(s, items).query == s.query,
        with_items(s, items).cursor_pos == s.cursor_pos,
        with_items(s, items).items == items,
        with_items(s, items).filtered == filtered_lines(items, s.query),
        with_items(s, items).status_message == s.status_message,
        with_items(s, items).error_message == s.error_message,
{
}

impl View for FuzzyFinder {
    type V = PickerState;

    closed spec fn view(&self) -> PickerState {
        PickerState {
            items: texts(self.items@),
            filtered: texts(self.filtered_items@),
            query: self.query@,
            cursor_pos: self.cursor_pos as nat,
            selected_index: self.selected_index as nat,
            max_display: self.max_display as nat,
            scroll_offset: self.scroll_offset as nat,
            status_message: text_of(self.status_message),
            error_message: text_of(self.error_message),
        }
    }
}

impl FuzzyFinder {
    /// The picker is in order.
    pub open spec fn wf(&self) -> bool {
        state_ok(self@)
    }

    /// A picker over `items` with an empty query: every line is shown, the
    /// first is selected, and the list has ten rows.
    pub fn new(items: Vec<String>) -> (finder: Self)
        ensures
            finder.wf(),
            finder@ == (PickerState {
                items: texts(items@),
                filtered: texts(items@),
                query: Seq::empty(),
                cursor_pos: 0,
                selected_index: 0,
                max_display: 10,
                scroll_offset: 0,
                status_message: None,
                error_message: None,
            }),
    {
        let filtered_items = clone_all(items.as_slice());
        proof {
            lemma_empty_is_blank();
            lemma_blank_keeps_all(texts(items@), Seq::empty());
            assert(texts(filtered_items@) =~= texts(items@));
        }
        let finder = Self {
            items,
            filtered_items,
            query: String::new(),
            cursor_pos: 0,
            selected_index: 0,
            max_display: 10,
            scroll_offset: 0,
            status_message: None,
            error_message: None,
        };
        finder
    }

    /// Pulls selection and scroll offset back into the filtered list.
    fn settle(&mut self)
        ensures
            final(self)@ == (PickerState {
                selected_index: clamped_selection(
                    old(self)@.selected_index,
                    old(self)@.filtered.len(),
                ),
                scroll_offset: settled_scroll(
                    old(self)@.scroll_offset,
                    clamped_selection(old(self)@.selected_index, old(self)@.filtered.len()),
                    old(self)@.filtered.len(),
                    old(self)@.max_display,
                ),
                ..old(self)@
            }),
    {
        let len: usize = self.filtered_items.len();
        if self.selected_index >= len {
            self.selected_index = if len == 0 {
                0
            } else {
                len - 1
            };
        }
        let cap: usize = if len > self.max_display {
            len - self.max_display
        } else {
            0
        };
        if self.scroll_offset > cap {
            self.scroll_offset = cap;
        }
        if self.selected_index < self.scroll_offset {
            self.scroll_offset = self.selected_index;
        } else if self.selected_index - self.scroll_offset >= self.max_display {
            self.scroll_offset = self.selected_index - self.max_display + 1;
        }
    }

    /// Computes the filtered list anew from corpus and query, and pulls
    /// selection and scroll offset back into it: a selection behind the end
    /// goes to the last line, or to zero where the list is empty, and the
    /// scroll offset moves as little as it takes to show the selected line.
    /// This is the step that follows every change of query or corpus, so it
    /// asks nothing of the filtered list, the selection or the scroll offset
    /// that it finds. It puts the picker in order wherever the cursor stands
    /// at the end of the query and the list has a row; on a picker that is
    /// in order already it changes nothing.
    pub fn update_filter(&mut self)
        ensures
            final(self)@ == refiltered(old(self)@),
            old(self)@.cursor_pos == old(self)@.query.len() && old(self)@.max_display >= 1
                ==> final(self).wf(),
            old(self).wf() ==> final(self)@ == old(self)@,
    {
        let mapper = |line: &String| -> (out: String)
            ensures
                out == *line,
            { line.clone() };
        let filtered = filter_human(self.items.as_slice(), self.query.as_str(), mapper);
        proof {
            let lines = self.items@;
            let query = self.query@;
            if is_blank(query) {
                assert(is_selection(lines, all_indices(lines.len()), filtered@));
                assert forall|j: int| 0 <= j < filtered@.len() implies filtered@[j]@
                    == lines[j]@ by {
                    assert(all_indices(lines.len())[j] == j);
                    assert(cloned(lines[j], filtered@[j]));
                }
                assert(texts(filtered@) =~= filtered_lines(texts(lines), query));
            } else {
                let outs = choose|outs: Seq<String>|
                    #[trigger] projections_of(mapper, lines, outs) && is_selection(
                        lines,
                        query_keeps(texts(outs), query),
                        filtered@,
                    );
                assert forall|i: int| 0 <= i < lines.len() implies outs[i] == lines[i] by {
                    assert(call_ensures(mapper, (&lines[i],), outs[i]));
                }
                assert(texts(outs) =~= texts(lines));
                let kept = query_keeps(texts(lines), query);
                assert forall|j: int| 0 <= j < filtered@.len() implies filtered@[j]@
                    == lines[kept[j]]@ by {
                    assert(cloned(lines[kept[j]], filtered@[j]));
                }
                assert(texts(filtered@) =~= filtered_lines(texts(lines), query));
            }
        }
        self.filtered_items = filtered;
        self.settle();
    }

    /// Types a character: it is appended to the query, and the list is
    /// filtered anew.
    pub fn type_char(&mut self, c: char)
        requires
            old(self).wf(),
        ensures
            final(self)@ == typed(old(self)@, c),
            final(self).wf(),
    {
        push_char(&mut self.query, c);
        self.cursor_pos = self.query.as_str().unicode_len();
        self.update_filter();
    }

    /// Removes the last character of the query, if there is one, and filters
    /// the list anew.
    pub fn backspace(&mut self)
        requires
            old(self).wf(),
        ensures
            final(self)@ == erased(old(self)@),
            final(self).wf(),
    {
        let n: usize = self.query.as_str().unicode_len();
        if n > 0 {
            let shorter = String::from_str(self.query.as_str().substring_char(0, n - 1));
            assert(shorter@ =~= self.query@.drop_last());
            self.query = shorter;
            self.cursor_pos = n - 1;
            self.update_filter();
        }
    }

    /// Moves the selection one line up; the first line is as far as it goes.
    pub fn move_cursor_up(&mut self)
        requires
            old(self).wf(),
        ensures
            final(self)@ == moved_up(old(self)@),
            final(self).wf(),
    {
        if self.filtered_items.len() > 0 && self.selected_index > 0 {
            self.selected_index = self.selected_index - 1;
            if self.selected_index < self.scroll_offset {
                self.scroll_offset = self.selected_index;
            }
        }
    }

    /// Moves the selection one line down; the last line is as far as it goes.
    pub fn move_cursor_down(&mut self)
        requires
            old(self).wf(),
        ensures
            final(self)@ == moved_down(old(self)@),
            final(self).wf(),
    {
        if self.filtered_items.len() > 0 && self.selected_index < self.filtered_items.len() - 1 {
            self.selected_index = self.selected_index + 1;
            if self.selected_index - self.scroll_offset >= self.max_display {
                self.scroll_offset = self.selected_index - self.max_display + 1;
            }
        }
    }

    /// Replaces the corpus. The query stays, and the list is filtered anew
    /// with it.
    pub fn update_items(&mut self, items: Vec<String>)
        requires
            old(self).wf(),
        ensures
            final(self)@ == with_items(old(self)@, texts(items@)),
            final(self).wf(),
    {
        self.items = items;
        self.update_filter();
    }

    /// Gives the list `rows` rows; no rows count as one. The scroll offset
    /// follows so that the selected line stays in view.
    pub fn set_viewport(&mut self, rows: usize)
        requires
            old(self).wf(),
        ensures
            final(self)@ == with_viewport(old(self)@, rows as nat),
            final(self).wf(),
    {
        self.max_display = if rows == 0 {
            1
        } else {
            rows
        };
        self.settle();
    }

    /// Sets or clears the status text.
    pub fn set_status_message(&mut self, message: Option<String>)
        ensures
            final(self)@ == (PickerState { status_message: text_of(message), ..old(self)@ }),
    {
        self.status_message = message;
    }

    /// Sets or clears the error text.
    pub fn set_error_message(&mut self, message: Option<String>)
        ensures
            final(self)@ == (PickerState { error_message: text_of(message), ..old(self)@ }),
    {
        self.error_message = message;
    }

    /// Takes one key. Enter hands out the selected line where the list has
    /// one; Ctrl-C and Esc leave; a character is typed; Backspace, Up and
    /// Down edit and move; every other key is passed over.
    pub fn handle_key(&mut self, key: Key) -> (action: PickerAction)
        requires
            old(self).wf(),
        ensures
            final(self)@ == key_step(old(self)@, key),
            action_fits(action, old(self)@, key),
            final(self).wf(),
    {
        match key {
            Key::Char(c) => {
                if c == '\n' || c == '\r' {
                    if self.filtered_items.len() > 0 {
                        let line = self.filtered_items[self.selected_index].clone();
                        return PickerAction::Selected(line);
                    }
                } else {
                    self.type_char(c);
                }
                PickerAction::Continue
            },
            Key::Backspace => {
                self.backspace();
                PickerAction::Continue
            },
            Key::Up => {
                self.move_cursor_up();
                PickerAction::Continue
            },
            Key::Down => {
                self.move_cursor_down();
                PickerAction::Continue
            },
            Key::Ctrl(c) => {
                if c == 'c' {
                    PickerAction::Cancelled
                } else {
                    PickerAction::Continue
                }
            },
            Key::Esc => PickerAction::Cancelled,
            Key::Other => PickerAction::Continue,
        }
    }

    /// Takes one message from the refresh cycle.
    pub fn apply_message(&mut self, message: RepoUpdateMessage)
        requires
            old(self).wf(),
        ensures
            final(self)@ == message_step(old(self)@, message@),
            final(self).wf(),
    {
        match message {
            RepoUpdateMessage::NewRepos { repos, github_username, gitlab_username } => {
                let lines = display_lines(&repos);
                self.update_items(lines);
            },
            RepoUpdateMessage::Status(text) => {
                self.set_status_message(Some(text));
            },
            RepoUpdateMessage::Error(text) => {
                self.set_error_message(Some(text));
            },
            RepoUpdateMessage::LoadingComplete => {
                self.set_status_message(None);
            },
        }
    }

    /// Takes every pending message, in the order in which they came.
    pub fn apply_messages(&mut self, messages: Vec<RepoUpdateMessage>)
        requires
            old(self).wf(),
        ensures
            final(self)@ == messages_step(
                old(self)@,
                crate::repository::message_views(messages@),
                messages@.len(),
            ),
            final(self).wf(),
    {
        let ghost views = crate::repository::message_views(messages@);
        let mut messages = messages;
        let mut pending: Vec<RepoUpdateMessage> = Vec::new();
        while messages.len() > 0
            invariant
                pending@.len() + messages@.len() == views.len(),
                forall|k: int| 0 <= k < messages@.len() ==> (#[trigger] messages@[k])@ == views[k],
                forall|k: int|
                    0 <= k < pending@.len() ==> (#[trigger] pending@[k])@ == views[views.len() - 1
                        - k],
            decreases messages.len(),
        {
            let message = messages.pop().unwrap();
            pending.push(message);
        }
        let ghost mut done: nat = 0;
        while pending.len() > 0
            invariant
                self.wf(),
                done + pending@.len() == views.len(),
                self@ == messages_step(old(self)@, views, done),
                forall|k: int|
                    0 <= k < pending@.len() ==> (#[trigger] pending@[k])@ == views[views.len() - 1
                        - k],
            decreases pending.len(),
        {
            let message = pending.pop().unwrap();
            assert(message@ == views[done as int]);
            self.apply_message(message);
            proof {
                done = done + 1;
            }
        }
    }

    /// Lays out one redraw for a terminal of `width` columns and `height`
    /// rows. A terminal that is too small for a part shows nothing of it.
    pub fn render_frame(&self, width: u16, height: u16) -> (frame: Frame)
        requires
            self.wf(),
        ensures
            is_frame_of(frame, self@, width as nat, height as nat),
    {
        let rows: usize = rows_for_list(height);
        let avail: usize = if width > 7 {
            (width - 7) as usize
        } else {
            0
        };
        let len: usize = self.filtered_items.len();
        let end: usize = if len - self.scroll_offset < rows {
            len
        } else {
            self.scroll_offset + rows
        };
        let mut lines: Vec<FrameLine> = Vec::new();
        let mut i: usize = self.scroll_offset;
        while i < end
            invariant
                self.scroll_offset <= i <= end <= self.filtered_items.len(),
                lines@.len() == i - self.scroll_offset,
                forall|k: int|
                    0 <= k < lines@.len() ==> {
                        &&& (#[trigger] lines@[k]).text@ == clipped(
                            self.filtered_items@[self.scroll_offset + k]@,
                            avail as nat,
                        )
                        &&& lines@[k].selected == (self.scroll_offset + k == self.selected_index)
                    },
            decreases end - i,
        {
            let text = clip_line(self.filtered_items[i].as_str(), avail);
            lines.push(FrameLine { text, selected: i == self.selected_index });
            i = i + 1;
        }
        let blank_lines: usize = rows - (end - self.scroll_offset);
        let shown = decimal(len);
        let slashed = join_text(shown.as_str(), "/");
        let count_text = join_text(slashed.as_str(), decimal(self.items.len()).as_str());
        let count_len: usize = count_text.as_str().unicode_len();
        let wide: usize = width as usize;
        let footer: usize = if count_len < wide && wide - count_len > 1 {
            wide - count_len - 1
        } else {
            0
        };
        let overlay = match &self.error_message {
            Some(text) => Some(Overlay::Error(clip_line(text.as_str(), footer))),
            None => match &self.status_message {
                Some(text) => Some(Overlay::Status(clip_line(text.as_str(), footer))),
                None => None,
            },
        };
        let rule_width: usize = match &overlay {
            None => footer,
            Some(Overlay::Error(text)) => rest_of_footer(footer, text.as_str()),
            Some(Overlay::Status(text)) => rest_of_footer(footer, text.as_str()),
        };
        let room: usize = if width > 2 {
            (width - 2) as usize
        } else {
            0
        };
        let prompt = clip_query(self.query.as_str(), room);
        let cursor_col: usize = if self.cursor_pos > room {
            wide
        } else {
            self.cursor_pos + 3
        };
        Frame { lines, blank_lines, count_text, rule_width, overlay, prompt, cursor_col }
    }

    /// The query as typed so far.
    pub fn query(&self) -> (query: &str)
        ensures
            query@ == self@.query,
    {
        self.query.as_str()
    }

    /// The cursor's place in the query.
    pub fn cursor_pos(&self) -> (pos: usize)
        ensures
            pos == self@.cursor_pos,
    {
        self.cursor_pos
    }

    /// The index of the selected line in the filtered list.
    pub fn selected_index(&self) -> (index: usize)
        ensures
            index == self@.selected_index,
    {
        self.selected_index
    }

    /// The index of the first line in view.
    pub fn scroll_offset(&self) -> (offset: usize)
        ensures
            offset == self@.scroll_offset,
    {
        self.scroll_offset
    }

    /// The number of rows that the list is shown in.
    pub fn max_display(&self) -> (rows: usize)
        ensures
            rows == self@.max_display,
    {
        self.max_display
    }

    /// The corpus.
    pub fn items(&self) -> (items: &Vec<String>)
        ensures
            texts(items@) == self@.items,
    {
        &self.items
    }

    /// The lines that the query keeps.
    pub fn filtered_items(&self) -> (lines: &Vec<String>)
        ensures
            texts(lines@) == self@.filtered,
    {
        &self.filtered_items
    }

    /// The status text, if one is set.
    pub fn status_message(&self) -> (message: &Option<String>)
        ensures
            text_of(*message) == self@.status_message,
    {
        &self.status_message
    }

    /// The error text, if one is set.
    pub fn error_message(&self) -> (message: &Option<String>)
        ensures
            text_of(*message) == self@.error_message,
    {
        &self.error_message
    }
}

} // verus!
