//! Pure projection of a state snapshot into visible text.
//!
//! Rendering a `State` has two parts: the list pane, one row per entry with a
//! two-character gutter marking the selected row, and the query pane, showing
//! the typed input verbatim. This module computes that text; painting it into
//! bordered regions on the terminal is the unverified driver's job. The
//! projection is a function of the state alone, so redrawing an unchanged
//! state yields an unchanged frame.

use vstd::prelude::*;
use vstd::string::StringExecFns;
use crate::state::State;

verus! {

/// The two-character gutter of row `idx`: a marker on the selected row,
/// blanks on every other.
pub open spec fn spec_gutter(idx: int, selected: int) -> Seq<char> {
    if idx == selected {
        "> "@
    } else {
        "  "@
    }
}

/// The visible rows of the list pane: gutter plus entry text, one row per
/// entry, in entry order; no rows before the first load.
pub open spec fn spec_rows(s: State) -> Seq<Seq<char>> {
    match s.entries {
        Some(es) => Seq::new(es@.len(), |i: int| spec_gutter(i, s.selected_idx as int) + es@[i]@),
        None => Seq::empty(),
    }
}

/// Computes the text of the list pane, one string per visible row. The
/// selected row is prefixed with "> ", every other row with "  ".
pub fn list_rows(state: &State) -> (rows: Vec<String>)
    ensures
        rows@.len() == spec_rows(*state).len(),
        forall|i: int| 0 <= i < rows@.len() ==> #[trigger] rows@[i]@ == spec_rows(*state)[i],
{
    let mut rows: Vec<String> = Vec::new();
    if let Some(entries) = &state.entries {
        let n: usize = entries.len();
        let mut i: usize = 0;
        while i < n
            invariant
                state.entries == Some(*entries),
                n == entries@.len(),
                i <= n,
                rows@.len() == i,
                forall|j: int| 0 <= j < i ==> #[trigger] rows@[j]@ == spec_rows(*state)[j],
            decreases n - i,
        {
            let gutter: &str = if i == state.selected_idx {
                "> "
            } else {
                "  "
            };
            let mut row: String = String::from_str(gutter);
            row.append(entries[i].as_str());
            rows.push(row);
            i = i + 1;
        }
    }
    rows
}

/// The text of the query pane: the typed input, verbatim.
pub fn query_line(state: &State) -> (line: &str)
    ensures
        line@ == state.input@,
{
    state.input.as_str()
}

/// Law: rendering is idempotent. The visible text is a function of the state
/// alone, so any two rendering results for the same state are the same frame.
pub proof fn lemma_render_idempotent(
    s: State,
    rows1: Seq<Seq<char>>,
    rows2: Seq<Seq<char>>,
    line1: Seq<char>,
    line2: Seq<char>,
)
    requires
        rows1 == spec_rows(s),
        rows2 == spec_rows(s),
        line1 == s.input@,
        line2 == s.input@,
    ensures
        rows1 == rows2,
        line1 == line2,
{
}

} // verus!
