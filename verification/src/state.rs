//! Application state and its single mutation entry point.
//!
//! `State` is the one mutable value of the picker; `process_action` is the
//! only function that mutates it. Every transition re-establishes the
//! selection invariant: the selected index always addresses an entry, or is
//! pinned at zero while there is nothing to address.

use vstd::prelude::*;

verus! {

/// The whole application state: the typed query, the loaded entries (absent
/// before the first load), and the index of the selected entry.
pub struct State {
    pub input: String,
    pub selected_idx: usize,
    pub entries: Option<Vec<String>>,
}

/// How many entries are currently loaded; zero while none are.
pub open spec fn entry_count(s: State) -> nat {
    match s.entries {
        Some(es) => es@.len(),
        None => 0,
    }
}

/// The largest index the selection may take: the last entry, or zero when
/// there is no entry at all.
pub open spec fn sel_bound(s: State) -> nat {
    if entry_count(s) == 0 {
        0
    } else {
        (entry_count(s) - 1) as nat
    }
}

/// Selection invariant: with no entries (none loaded, or an empty load) the
/// index is pinned at zero; otherwise it addresses one of the entries.
pub open spec fn wf(s: State) -> bool {
    s.selected_idx <= sel_bound(s)
}

impl State {
    /// The fresh state at process start: empty query, nothing loaded,
    /// selection at zero.
    pub fn default() -> (s: Self)
        ensures
            s.input@ === Seq::<char>::empty(),
            s.selected_idx == 0,
            s.entries is None,
            wf(s),
    {
        Self { input: String::new(), selected_idx: 0, entries: None }
    }
}

/// A named intent; each variant fully determines one state transition.
pub enum Action {
    EntriesLoaded(Vec<String>),
    SelectedIndexIncreased,
    SelectedIndexDecreased,
}

/// The selected index after moving toward the end of the list: one step
/// forward, clamped at the last entry, and zero whenever there is no entry.
pub open spec fn sel_increased(s: State) -> usize {
    match s.entries {
        Some(es) => if es@.len() == 0 {
            0usize
        } else if s.selected_idx < es@.len() - 1 {
            (s.selected_idx + 1) as usize
        } else {
            (es@.len() - 1) as usize
        },
        None => 0usize,
    }
}

/// The selected index after moving toward the start of the list: one step
/// back, clamped at zero, and zero whenever there is no entry.
pub open spec fn sel_decreased(s: State) -> usize {
    if s.entries is Some && s.selected_idx > 0 {
        (s.selected_idx - 1) as usize
    } else {
        0usize
    }
}

/// The transition table: the state an action turns `s` into.
pub open spec fn spec_step(s: State, a: Action) -> State {
    match a {
        Action::EntriesLoaded(es) => State { entries: Some(es), selected_idx: 0usize, ..s },
        Action::SelectedIndexIncreased => State { selected_idx: sel_increased(s), ..s },
        Action::SelectedIndexDecreased => State { selected_idx: sel_decreased(s), ..s },
    }
}

/// Mutates the state of the application to simulate the given action. This
/// function should be the only function to ever mutate the State struct.
/// It is total, follows the transition table exactly, and loading always
/// resets the selection to the first entry.
pub fn process_action(state: &mut State, action: Action)
    ensures
        *final(state) == spec_step(*old(state), action),
        wf(*old(state)) ==> wf(*final(state)),
{
    match action {
        Action::EntriesLoaded(entries) => entries_loaded(state, entries),
        Action::SelectedIndexDecreased => selected_index_decreased(state),
        Action::SelectedIndexIncreased => selected_index_increased(state),
    }
}

fn entries_loaded(state: &mut State, entries: Vec<String>)
    ensures
        *final(state) == (State {
            entries: Some(entries),
            selected_idx: 0usize,
            ..*old(state)
        }),
{
    state.entries = Some(entries);
    state.selected_idx = 0;
}

fn selected_index_decreased(state: &mut State)
    ensures
        *final(state) == (State { selected_idx: sel_decreased(*old(state)), ..*old(state) }),
{
    state.selected_idx = if state.entries.is_some() && state.selected_idx > 0 {
        state.selected_idx - 1
    } else {
        0
    };
}

fn selected_index_increased(state: &mut State)
    ensures
        *final(state) == (State { selected_idx: sel_increased(*old(state)), ..*old(state) }),
{
    state.selected_idx = match &state.entries {
        Some(entries) => {
            let n = entries.len();
            if n == 0 {
                0
            } else if state.selected_idx < n - 1 {
                state.selected_idx + 1
            } else {
                n - 1
            }
        },
        None => 0,
    };
}

/// The state after a whole sequence of actions, applied front to back.
pub open spec fn spec_steps(s: State, actions: Seq<Action>) -> State
    decreases actions.len(),
{
    if actions.len() == 0 {
        s
    } else {
        spec_steps(spec_step(s, actions[0]), actions.drop_first())
    }
}

/// An action that only moves the selection, leaving the entries alone.
pub open spec fn is_move(a: Action) -> bool {
    a is SelectedIndexIncreased || a is SelectedIndexDecreased
}

/// Law: selection stays in bounds. From a well-formed state, any sequence of
/// selection moves leaves the query and the entries untouched and keeps the
/// selected index between zero and the index of the last entry (zero when
/// there is no entry).
pub proof fn lemma_selection_bounds(s: State, actions: Seq<Action>)
    requires
        wf(s),
        forall|i: int| 0 <= i < actions.len() ==> is_move(#[trigger] actions[i]),
    ensures
        spec_steps(s, actions).input == s.input,
        spec_steps(s, actions).entries == s.entries,
        wf(spec_steps(s, actions)),
        spec_steps(s, actions).selected_idx <= sel_bound(s),
    decreases actions.len(),
{
    if actions.len() > 0 {
        let s1 = spec_step(s, actions[0]);
        assert(is_move(actions[0]));
        assert(forall|i: int|
            0 <= i < actions.drop_first().len() ==> is_move(#[trigger] actions.drop_first()[i]));
        lemma_selection_bounds(s1, actions.drop_first());
    }
}

/// Law: clamping at both ends. A move below the first entry leaves the
/// selection at zero; a move past the last entry leaves it at the last entry.
pub proof fn lemma_clamp_at_ends(s: State)
    ensures
        s.selected_idx == 0 ==> spec_step(s, Action::SelectedIndexDecreased).selected_idx == 0,
        entry_count(s) > 0 && s.selected_idx == entry_count(s) - 1 ==> spec_step(
            s,
            Action::SelectedIndexIncreased,
        ).selected_idx == entry_count(s) - 1,
{
}

/// Law: loading resets the selection. Whatever the prior index and prior
/// entries, a load replaces the entries and puts the selection at zero.
pub proof fn lemma_load_resets_selection(s: State, entries: Vec<String>)
    ensures
        spec_step(s, Action::EntriesLoaded(entries)).selected_idx == 0,
        spec_step(s, Action::EntriesLoaded(entries)).entries == Some(entries),
{
}

/// Law: safety with no entries. Before any load, any sequence of selection
/// moves keeps the selection at zero and loads nothing.
pub proof fn lemma_no_entries_safety(s: State, actions: Seq<Action>)
    requires
        s.entries is None,
        wf(s),
        forall|i: int| 0 <= i < actions.len() ==> is_move(#[trigger] actions[i]),
    ensures
        spec_steps(s, actions).selected_idx == 0,
        spec_steps(s, actions).entries is None,
    decreases actions.len(),
{
    if actions.len() > 0 {
        let s1 = spec_step(s, actions[0]);
        assert(is_move(actions[0]));
        assert(forall|i: int|
            0 <= i < actions.drop_first().len() ==> is_move(#[trigger] actions.drop_first()[i]));
        lemma_no_entries_safety(s1, actions.drop_first());
    }
}

} // verus!
