use typing_core::buffer::InputBuffer;
use typing_core::diff::Classification;
use typing_core::diff::classify;
use typing_core::nav::Handled;
use typing_core::nav::KeyEvent;
use typing_core::nav::Mode;
use typing_core::passage::Passage;
use typing_core::passage::PassageSet;
use typing_core::session::TypingSession;
use typing_core::style::Style;

fn chars(s: &str) -> Vec<char> {
    s.chars().collect()
}

fn passage(label: &str, text: &str, finished: bool) -> Passage {
    Passage::new(chars(label), chars(text), finished)
}

fn session(entries: Vec<Passage>) -> TypingSession {
    TypingSession::new(PassageSet::from_entries(entries), Style::default())
}

#[test]
fn initial_state_is_selecting_with_list_shown() {
    let s = session(vec![passage("a", "hi", false)]);
    assert_eq!(s.nav.mode, Mode::Selecting);
    assert_eq!(s.nav.current_index, 0);
    assert_eq!(s.nav.selection_cursor, 0);
    assert!(s.nav.list_visible);
    assert!(s.buffer.content.is_empty());
}

#[test]
fn scenario_one_passage_typing_and_overrun() {
    let mut s = session(vec![passage("a", "hi", false)]);
    assert_eq!(s.handle_key(KeyEvent::Enter), Handled::Consumed);
    assert_eq!(s.nav.mode, Mode::Typing);
    s.handle_key(KeyEvent::Character('h'));
    s.handle_key(KeyEvent::Character('x'));
    let m = s.render_model();
    assert_eq!(m.marks.len(), 2);
    assert_eq!(m.marks[0].class, Classification::Correct);
    assert_eq!(m.marks[0].display, 'h');
    assert_eq!(m.marks[1].class, Classification::Incorrect);
    assert_eq!(m.marks[1].display, 'i');
    assert_eq!(s.buffer.content.len(), 2);
    // The buffer is full: further keys are silently dropped, but consumed.
    assert_eq!(s.handle_key(KeyEvent::Character('z')), Handled::Consumed);
    assert_eq!(s.buffer.content.len(), 2);
}

#[test]
fn scenario_move_down_then_confirm() {
    let mut s = session(vec![passage("one", "aa", false), passage("two", "bb", false)]);
    assert_eq!(s.nav.selection_cursor, 0);
    s.handle_key(KeyEvent::Down);
    s.handle_key(KeyEvent::Enter);
    assert_eq!(s.nav.mode, Mode::Typing);
    assert_eq!(s.nav.current_index, 1);
    assert!(s.buffer.content.is_empty());
}

#[test]
fn scenario_underscore_only_for_mistyped_space_target() {
    // Target "a b": a correctly typed space stays a space; a mismatch at a
    // non-space target shows the target character, not an underscore.
    let marks = classify(&chars("a b"), &chars("a x"));
    assert_eq!(marks[0].class, Classification::Correct);
    assert_eq!(marks[1].class, Classification::Correct);
    assert_eq!(marks[1].display, ' ');
    assert_eq!(marks[2].class, Classification::Incorrect);
    assert_eq!(marks[2].display, 'b');
    // A mistyped space target is displayed as an underscore.
    let marks = classify(&chars("a b"), &chars("axb"));
    assert_eq!(marks[1].class, Classification::Incorrect);
    assert_eq!(marks[1].display, '_');
}

#[test]
fn scenario_finished_passages_are_unreachable() {
    let mut s = session(vec![
        passage("keep1", "aa", false),
        passage("done", "bb", true),
        passage("keep2", "cc", false),
    ]);
    assert_eq!(s.passages.len(), 2);
    let m = s.render_model();
    assert_eq!(m.entries.len(), 2);
    assert_eq!(m.entries[0].label, chars("keep1"));
    assert_eq!(m.entries[1].label, chars("keep2"));
    // Toggling the list and navigating cannot resurface it.
    s.handle_key(KeyEvent::ToggleList);
    s.handle_key(KeyEvent::ToggleList);
    s.handle_key(KeyEvent::Enter);
    s.handle_key(KeyEvent::Tab);
    assert_eq!(s.nav.current_index, 1);
    let m = s.render_model();
    assert_eq!(m.title, chars("keep2"));
    s.handle_key(KeyEvent::Tab);
    assert_eq!(s.nav.current_index, 1);
}

#[test]
fn classifier_yields_one_mark_per_target_position() {
    let marks = classify(&chars("hello"), &chars("he"));
    assert_eq!(marks.len(), 5);
    assert_eq!(marks[0].class, Classification::Correct);
    assert_eq!(marks[1].class, Classification::Correct);
    assert_eq!(marks[2].class, Classification::Pending);
    assert_eq!(marks[2].display, 'l');
    assert_eq!(marks[4].class, Classification::Pending);
    let marks = classify(&chars(""), &chars(""));
    assert_eq!(marks.len(), 0);
}

#[test]
fn render_model_is_idempotent() {
    let mut s = session(vec![passage("a", "hi", false), passage("b", "yo", false)]);
    s.handle_key(KeyEvent::Enter);
    s.handle_key(KeyEvent::Character('h'));
    let m1 = s.render_model();
    let m2 = s.render_model();
    assert_eq!(m1, m2);
    let c1 = s.render_cells();
    let c2 = s.render_cells();
    assert_eq!(c1, c2);
}

#[test]
fn buffer_never_exceeds_target_and_backspace_shrinks_by_one() {
    let mut s = session(vec![passage("a", "abc", false)]);
    s.handle_key(KeyEvent::Enter);
    for c in "abcdefgh".chars() {
        s.handle_key(KeyEvent::Character(c));
    }
    assert_eq!(s.buffer.content.len(), 3);
    s.handle_key(KeyEvent::Backspace);
    assert_eq!(s.buffer.content.len(), 2);
    s.handle_key(KeyEvent::Delete);
    assert_eq!(s.buffer.content.len(), 1);
    s.handle_key(KeyEvent::Backspace);
    s.handle_key(KeyEvent::Backspace);
    assert_eq!(s.buffer.content.len(), 0);
}

#[test]
fn cursor_saturates_at_both_ends() {
    let mut s = session(vec![
        passage("a", "aa", false),
        passage("b", "bb", false),
        passage("c", "cc", false),
    ]);
    for _ in 0..10 {
        s.handle_key(KeyEvent::Up);
        assert!(s.nav.selection_cursor <= 2);
    }
    assert_eq!(s.nav.selection_cursor, 0);
    for _ in 0..10 {
        s.handle_key(KeyEvent::Down);
        assert!(s.nav.selection_cursor <= 2);
    }
    assert_eq!(s.nav.selection_cursor, 2);
    s.handle_key(KeyEvent::Down);
    assert_eq!(s.nav.selection_cursor, 2);
}

#[test]
fn vim_style_keys_move_the_cursor_while_selecting() {
    let mut s = session(vec![passage("a", "aa", false), passage("b", "bb", false)]);
    assert_eq!(s.handle_key(KeyEvent::Character('j')), Handled::Consumed);
    assert_eq!(s.nav.selection_cursor, 1);
    assert_eq!(s.handle_key(KeyEvent::Character('k')), Handled::Consumed);
    assert_eq!(s.nav.selection_cursor, 0);
    // Any other character is not a selection key and propagates.
    assert_eq!(s.handle_key(KeyEvent::Character('x')), Handled::NotConsumed);
    assert_eq!(s.nav.selection_cursor, 0);
}

#[test]
fn escape_shows_list_and_confirm_hides_it() {
    let mut s = session(vec![passage("a", "aa", false)]);
    s.handle_key(KeyEvent::Enter);
    assert_eq!(s.nav.mode, Mode::Typing);
    assert!(!s.nav.list_visible);
    s.handle_key(KeyEvent::Escape);
    assert_eq!(s.nav.mode, Mode::Selecting);
    assert!(s.nav.list_visible);
    s.handle_key(KeyEvent::Enter);
    assert!(!s.nav.list_visible);
}

#[test]
fn passage_switch_clears_buffer_and_saturates() {
    let mut s = session(vec![passage("a", "aaaa", false), passage("b", "bbbb", false)]);
    s.handle_key(KeyEvent::Enter);
    s.handle_key(KeyEvent::Character('a'));
    s.handle_key(KeyEvent::Tab);
    assert_eq!(s.nav.current_index, 1);
    assert_eq!(s.nav.selection_cursor, 1);
    assert!(s.buffer.content.is_empty());
    s.handle_key(KeyEvent::Character('b'));
    // At the last passage a further switch is a no-op and keeps the input.
    s.handle_key(KeyEvent::Tab);
    assert_eq!(s.nav.current_index, 1);
    assert_eq!(s.buffer.content, chars("b"));
    s.handle_key(KeyEvent::BackTab);
    assert_eq!(s.nav.current_index, 0);
    assert_eq!(s.nav.selection_cursor, 0);
    assert!(s.buffer.content.is_empty());
    s.handle_key(KeyEvent::Character('a'));
    s.handle_key(KeyEvent::BackTab);
    assert_eq!(s.nav.current_index, 0);
    assert_eq!(s.buffer.content, chars("a"));
}

#[test]
fn unhandled_keys_propagate() {
    let mut s = session(vec![passage("a", "aa", false)]);
    assert_eq!(s.handle_key(KeyEvent::Tab), Handled::NotConsumed);
    assert_eq!(s.handle_key(KeyEvent::Escape), Handled::NotConsumed);
    assert_eq!(s.handle_key(KeyEvent::Other), Handled::NotConsumed);
    s.handle_key(KeyEvent::Enter);
    assert_eq!(s.handle_key(KeyEvent::Down), Handled::NotConsumed);
    assert_eq!(s.handle_key(KeyEvent::Up), Handled::NotConsumed);
    assert_eq!(s.handle_key(KeyEvent::Enter), Handled::NotConsumed);
    assert_eq!(s.handle_key(KeyEvent::Other), Handled::NotConsumed);
}

#[test]
fn empty_passage_set_absorbs_everything() {
    let mut s = session(vec![passage("done", "xx", true)]);
    assert_eq!(s.passages.len(), 0);
    assert_eq!(s.handle_key(KeyEvent::Down), Handled::Consumed);
    assert_eq!(s.handle_key(KeyEvent::Up), Handled::Consumed);
    assert_eq!(s.handle_key(KeyEvent::Enter), Handled::Consumed);
    // With nothing to type, confirming stays in selecting mode.
    assert_eq!(s.nav.mode, Mode::Selecting);
    assert_eq!(s.nav.selection_cursor, 0);
    let m = s.render_model();
    assert!(m.entries.is_empty());
    assert!(m.title.is_empty());
    assert!(m.marks.is_empty());
    assert!(s.render_cells().is_empty());
}

#[test]
fn selecting_mode_previews_the_cursor_passage() {
    let mut s = session(vec![passage("a", "aa", false), passage("b", "bb", false)]);
    s.handle_key(KeyEvent::Down);
    let m = s.render_model();
    assert_eq!(m.title, chars("b"));
    assert_eq!(m.marks.len(), 2);
    assert!(m.entries[1].selected);
    assert!(!m.entries[0].selected);
}

#[test]
fn toggle_list_flips_visibility_in_both_modes() {
    let mut s = session(vec![passage("a", "aa", false)]);
    assert!(s.nav.list_visible);
    assert_eq!(s.handle_key(KeyEvent::ToggleList), Handled::Consumed);
    assert!(!s.nav.list_visible);
    s.handle_key(KeyEvent::ToggleList);
    assert!(s.nav.list_visible);
    s.handle_key(KeyEvent::Enter);
    assert!(!s.nav.list_visible);
    s.handle_key(KeyEvent::ToggleList);
    assert!(s.nav.list_visible);
    assert_eq!(s.nav.mode, Mode::Typing);
}

#[test]
fn buffer_operations() {
    let mut b = InputBuffer::new();
    assert_eq!(b.len(), 0);
    b.append('a');
    b.append('b');
    assert_eq!(b.len(), 2);
    b.erase();
    assert_eq!(b.content, chars("a"));
    b.erase();
    b.erase();
    assert_eq!(b.len(), 0);
    b.append('z');
    b.clear();
    assert_eq!(b.len(), 0);
}
