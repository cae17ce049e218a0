//! Translation of keyboard events into state transitions.
//!
//! The driving loop blocks for one terminal event at a time, converts it to a
//! `KeyEvent`, and hands it to `handle_key`, the loop's whole decision logic:
//! quit keys end the session, printable characters edit the query, the arrow
//! keys move the selection through the reducer, and the commit key ends the
//! session with the selected entry. The loop itself, and the terminal it
//! reads, stay in the unverified driver around this crate.

use vstd::prelude::*;
use crate::state::{State, Action, spec_step, wf, process_action};

verus! {

/// One keyboard event as the driving loop sees it: the key pressed, and for
/// character keys whether the control modifier was held.
#[derive(Debug, PartialEq, Eq)]
pub enum KeyEvent {
    Escape,
    Char { c: char, ctrl: bool },
    Backspace,
    Up,
    Down,
    Enter,
    Other,
}

/// What the loop does after one event: keep running, quit with nothing, or
/// quit committing the selected entry (absent when nothing is selectable).
#[derive(Debug, PartialEq, Eq)]
pub enum Outcome {
    Continue,
    Quit,
    Commit(Option<String>),
}

/// The keys that end the session without a selection: escape, or a
/// control-modified quit character.
pub open spec fn is_quit(k: KeyEvent) -> bool {
    match k {
        KeyEvent::Escape => true,
        KeyEvent::Char { c, ctrl } => ctrl && (c == 'c' || c == 'd'),
        _ => false,
    }
}

/// The text of the entry the selection rests on, or nothing while no entry
/// is addressable.
pub open spec fn spec_selected_entry(s: State) -> Option<Seq<char>> {
    match s.entries {
        Some(es) => if s.selected_idx < es@.len() {
            Some(es@[s.selected_idx as int]@)
        } else {
            None
        },
        None => None,
    }
}

/// Relies on String::push: appends the given character to the end of the
/// string.
#[verifier::external_body]
fn push_char(s: &mut String, c: char)
    ensures
        final(s)@ == old(s)@.push(c),
{
    s.push(c);
}

/// Relies on String::pop: removes and returns the last character, or returns
/// None and leaves the string alone when it is empty.
#[verifier::external_body]
fn pop_char(s: &mut String) -> (r: Option<char>)
    ensures
        old(s)@.len() == 0 ==> final(s)@ == old(s)@ && r is None,
        old(s)@.len() > 0 ==> final(s)@ == old(s)@.drop_last() && r == Some(old(s)@.last()),
{
    s.pop()
}

/// Applies one keyboard event to the state and says how the loop goes on.
/// Quit keys and the commit key leave the state alone; a character edits the
/// query; the arrow keys move the selection by the transition table; every
/// other key does nothing. Total: no event fails, whatever the state.
pub fn handle_key(state: &mut State, key: KeyEvent) -> (out: Outcome)
    ensures
        out is Continue <==> !is_quit(key) && !(key is Enter),
        is_quit(key) ==> out is Quit && *final(state) == *old(state),
        match key {
            KeyEvent::Char { c, ctrl } => is_quit(key) || (final(state).input@ == old(state).input@.push(c)
                && final(state).entries == old(state).entries
                && final(state).selected_idx == old(state).selected_idx),
            KeyEvent::Backspace => final(state).input@ == (if old(state).input@.len() == 0 {
                old(state).input@
            } else {
                old(state).input@.drop_last()
            })
                && final(state).entries == old(state).entries
                && final(state).selected_idx == old(state).selected_idx,
            KeyEvent::Up => *final(state) == spec_step(
                *old(state),
                Action::SelectedIndexIncreased,
            ),
            KeyEvent::Down => *final(state) == spec_step(
                *old(state),
                Action::SelectedIndexDecreased,
            ),
            KeyEvent::Enter => *final(state) == *old(state) && (match out {
                Outcome::Commit(picked) => match picked {
                    Some(entry) => spec_selected_entry(*old(state)) == Some(entry@),
                    None => spec_selected_entry(*old(state)) is None,
                },
                _ => false,
            }),
            _ => *final(state) == *old(state),
        },
        wf(*old(state)) ==> wf(*final(state)),
{
    match key {
        KeyEvent::Escape => Outcome::Quit,
        KeyEvent::Char { c, ctrl } => {
            if ctrl && (c == 'c' || c == 'd') {
                Outcome::Quit
            } else {
                push_char(&mut state.input, c);
                Outcome::Continue
            }
        },
        KeyEvent::Backspace => {
            pop_char(&mut state.input);
            Outcome::Continue
        },
        KeyEvent::Up => {
            process_action(state, Action::SelectedIndexIncreased);
            Outcome::Continue
        },
        KeyEvent::Down => {
            process_action(state, Action::SelectedIndexDecreased);
            Outcome::Continue
        },
        KeyEvent::Enter => Outcome::Commit(selected_entry(state)),
        KeyEvent::Other => Outcome::Continue,
    }
}

/// The text of the selected entry, cloned out of the list; nothing while no
/// entry is addressable.
pub fn selected_entry(state: &State) -> (picked: Option<String>)
    ensures
        match picked {
            Some(entry) => spec_selected_entry(*state) == Some(entry@),
            None => spec_selected_entry(*state) is None,
        },
{
    match &state.entries {
        Some(entries) => {
            if state.selected_idx < entries.len() {
                Some(entries[state.selected_idx].clone())
            } else {
                None
            }
        },
        None => None,
    }
}

} // verus!
