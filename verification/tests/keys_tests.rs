use branch_picker::keys::{handle_key, selected_entry, KeyEvent, Outcome};
use branch_picker::state::{process_action, Action, State};

fn loaded_state(names: &[&str]) -> State {
    let mut state = State::default();
    let entries: Vec<String> = names.iter().map(|s| s.to_string()).collect();
    process_action(&mut state, Action::EntriesLoaded(entries));
    state
}

#[test]
fn escape_quits_and_leaves_the_state_alone() {
    let mut state = loaded_state(&["main"]);
    let out = handle_key(&mut state, KeyEvent::Escape);
    assert_eq!(out, Outcome::Quit);
    assert_eq!(state.entries, Some(vec!["main".to_string()]));
    assert_eq!(state.selected_idx, 0);
    assert_eq!(state.input, "");
}

#[test]
fn control_quit_characters_quit() {
    let mut state = State::default();
    let out_c = handle_key(&mut state, KeyEvent::Char { c: 'c', ctrl: true });
    assert_eq!(out_c, Outcome::Quit);
    let out_d = handle_key(&mut state, KeyEvent::Char { c: 'd', ctrl: true });
    assert_eq!(out_d, Outcome::Quit);
    assert_eq!(state.input, "");
}

#[test]
fn a_printable_character_is_appended_to_the_query() {
    let mut state = State::default();
    let out = handle_key(&mut state, KeyEvent::Char { c: 'f', ctrl: false });
    assert_eq!(out, Outcome::Continue);
    assert_eq!(state.input, "f");

    handle_key(&mut state, KeyEvent::Char { c: 'e', ctrl: false });
    assert_eq!(state.input, "fe");
}

#[test]
fn a_control_modified_ordinary_character_is_still_appended() {
    let mut state = State::default();
    let out = handle_key(&mut state, KeyEvent::Char { c: 'x', ctrl: true });
    assert_eq!(out, Outcome::Continue);
    assert_eq!(state.input, "x");
}

#[test]
fn backspace_removes_the_last_query_character() {
    let mut state = State::default();
    handle_key(&mut state, KeyEvent::Char { c: 'a', ctrl: false });
    handle_key(&mut state, KeyEvent::Char { c: 'b', ctrl: false });
    let out = handle_key(&mut state, KeyEvent::Backspace);
    assert_eq!(out, Outcome::Continue);
    assert_eq!(state.input, "a");
}

#[test]
fn backspace_on_an_empty_query_does_nothing() {
    let mut state = State::default();
    let out = handle_key(&mut state, KeyEvent::Backspace);
    assert_eq!(out, Outcome::Continue);
    assert_eq!(state.input, "");
}

#[test]
fn the_arrow_keys_move_the_selection_clamped() {
    let mut state = loaded_state(&["a", "b"]);
    handle_key(&mut state, KeyEvent::Up);
    assert_eq!(state.selected_idx, 1);
    handle_key(&mut state, KeyEvent::Up);
    assert_eq!(state.selected_idx, 1);
    handle_key(&mut state, KeyEvent::Down);
    assert_eq!(state.selected_idx, 0);
    handle_key(&mut state, KeyEvent::Down);
    assert_eq!(state.selected_idx, 0);
}

#[test]
fn enter_commits_the_selected_entry() {
    let mut state = loaded_state(&["main", "feat/x"]);
    handle_key(&mut state, KeyEvent::Up);
    let out = handle_key(&mut state, KeyEvent::Enter);
    assert_eq!(out, Outcome::Commit(Some("feat/x".to_string())));
    assert_eq!(state.selected_idx, 1);
}

#[test]
fn enter_with_nothing_loaded_commits_nothing() {
    let mut state = State::default();
    let out = handle_key(&mut state, KeyEvent::Enter);
    assert_eq!(out, Outcome::Commit(None));

    let mut empty = loaded_state(&[]);
    let out_empty = handle_key(&mut empty, KeyEvent::Enter);
    assert_eq!(out_empty, Outcome::Commit(None));
}

#[test]
fn other_keys_do_nothing() {
    let mut state = loaded_state(&["main"]);
    let out = handle_key(&mut state, KeyEvent::Other);
    assert_eq!(out, Outcome::Continue);
    assert_eq!(state.input, "");
    assert_eq!(state.selected_idx, 0);
    assert_eq!(state.entries, Some(vec!["main".to_string()]));
}

#[test]
fn the_selected_entry_follows_the_selection() {
    let mut state = loaded_state(&["main", "feat/x"]);
    assert_eq!(selected_entry(&state), Some("main".to_string()));
    handle_key(&mut state, KeyEvent::Up);
    assert_eq!(selected_entry(&state), Some("feat/x".to_string()));
    assert_eq!(selected_entry(&State::default()), None);
}
