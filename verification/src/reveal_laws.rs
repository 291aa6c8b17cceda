//! What holds of every reveal, whatever queue it plays.

use crate::compiler::{compiled, emitted, Style, LINE_BREAK};
use crate::text_box::{CharType, TextBox};
use crate::window::{Reveal, Slot, Window};
use vstd::prelude::*;

verus! {

/// The number of events of `events` that carry a character.
pub open spec fn visible_count(events: Seq<CharType>) -> nat {
    events.filter(|e: CharType| e is Char).len()
}

/// The number of line breaks in `events`.
pub open spec fn break_count(events: Seq<CharType>) -> nat {
    events.filter(|e: CharType| e is NewLine).len()
}

/// The number of lines below `active` that are still free.
pub open spec fn room(active: Slot) -> nat {
    (2 - active.index()) as nat
}

/// The number of line breaks of `events` that find the window full when
/// the reveal starts with `active` as its active line: all but the first
/// `room(active)` of them.
pub open spec fn full_break_count(active: Slot, events: Seq<CharType>) -> nat {
    if break_count(events) > room(active) {
        (break_count(events) - room(active)) as nat
    } else {
        0
    }
}

/// One call of the engine's step relates to the whole sequence of
/// snapshots as follows: if the call yields, its window is the first
/// snapshot and the rest are those of the state it leaves behind, and the
/// queue has become shorter; if it does not, there are no snapshots and
/// the queue is empty afterwards.
pub proof fn lemma_snapshots_by_advance(state: Reveal)
    ensures
        state.yields() ==> state.snapshots() == seq![state.advance().window]
            + state.advance().snapshots(),
        state.yields() ==> state.advance().pending.len() < state.pending.len(),
        !state.yields() ==> state.snapshots() == Seq::<Window>::empty(),
        !state.yields() ==> state.advance().pending.len() == 0,
    decreases state.pending.len(),
{
    if state.pending.len() > 0 && !state.shows(state.pending[0]) {
        lemma_snapshots_by_advance(state.consume());
    }
}

/// Once a call of the engine's step has yielded nothing, the queue is
/// empty and every later call yields nothing and changes nothing.
pub proof fn law_exhaustion_is_terminal(state: Reveal)
    requires
        !state.yields(),
    ensures
        !state.advance().yields(),
        state.advance().advance() == state.advance(),
{
    lemma_snapshots_by_advance(state);
}

/// A literal line break compiles to a line-break event first, and a
/// line-break event that finds a free line below moves the active line
/// down by one, leaves every line as it was, and shows nothing by itself.
pub proof fn law_line_break_with_room(state: Reveal)
    requires
        state.active != Slot::Bottom,
    ensures
        forall|filled: nat, budget: nat, style: Style| #[trigger]
            emitted(LINE_BREAK, filled, budget, style)[0] == CharType::NewLine,
        state.apply(CharType::NewLine).window == state.window,
        state.apply(CharType::NewLine).active.index() == state.active.index() + 1,
        state.apply(CharType::NewLine).pending == state.pending,
        !state.shows(CharType::NewLine),
        state.pending.len() > 0 && state.pending[0] == CharType::NewLine ==> {
            &&& state.advance() == state.consume().advance()
            &&& state.snapshots() == state.consume().snapshots()
        },
{
}

/// A line-break event that finds the window full gives up the old top
/// line: the middle line moves to the top, the bottom line to the middle,
/// and the bottom is cleared. The active line stays the bottom one, and
/// the shifted window is what the step shows.
pub proof fn law_line_break_when_full(state: Reveal)
    requires
        state.active == Slot::Bottom,
    ensures
        state.apply(CharType::NewLine).window.top == state.window.middle,
        state.apply(CharType::NewLine).window.middle == state.window.bottom,
        state.apply(CharType::NewLine).window.bottom == Seq::<char>::empty(),
        state.apply(CharType::NewLine).active == Slot::Bottom,
        state.apply(CharType::NewLine).pending == state.pending,
        state.shows(CharType::NewLine),
        state.pending.len() > 0 && state.pending[0] == CharType::NewLine ==> {
            &&& state.yields()
            &&& state.advance() == state.consume()
            &&& state.snapshots()[0] == state.window.shifted()
        },
{
}

/// The number of snapshots of a reveal is the number of its visible
/// events plus the number of its line breaks that find the window full.
/// Marks and line breaks that find room are not counted.
pub proof fn law_snapshot_count(state: Reveal)
    ensures
        state.snapshots().len() == visible_count(state.pending) + full_break_count(
            state.active,
            state.pending,
        ),
        state.snapshots().len() <= state.pending.len(),
        state.yields() <==> state.snapshots().len() > 0,
    decreases state.pending.len(),
{
    let visible = |e: CharType| e is Char;
    let breaks = |e: CharType| e is NewLine;
    if state.pending.len() == 0 {
        assert(state.pending.filter(visible).len() == 0);
        assert(state.pending.filter(breaks).len() == 0);
    } else {
        let head = state.pending[0];
        let rest = state.pending.drop_first();
        law_snapshot_count(state.consume());
        assert(state.pending == seq![head] + rest);
        rest.lemma_filter_prepend(head, visible);
        rest.lemma_filter_prepend(head, breaks);
    }
}

/// The number of characters that a window shows.
pub open spec fn glyph_count(window: Window) -> nat {
    window.top.len() + window.middle.len() + window.bottom.len()
}

/// A step that yields has made progress that can be seen: a character
/// has been added to the window, or the window has been shifted, which
/// leaves its bottom line clear.
pub proof fn law_step_shows_progress(state: Reveal)
    requires
        state.yields(),
    ensures
        glyph_count(state.advance().window) > glyph_count(state.window)
            || state.advance().window.bottom == Seq::<char>::empty(),
        glyph_count(state.advance().window) >= glyph_count(state.window)
            || state.advance().active == Slot::Bottom,
    decreases state.pending.len(),
{
    if !state.shows(state.pending[0]) {
        law_step_shows_progress(state.consume());
    }
}

/// The active line only ever moves down, and the queue is only ever
/// consumed from the front.
pub proof fn law_step_only_moves_forward(state: Reveal)
    ensures
        state.advance().active.index() >= state.active.index(),
        state.advance().pending.len() <= state.pending.len(),
        state.advance().pending == state.pending.skip(
            state.pending.len() - state.advance().pending.len(),
        ),
    decreases state.pending.len(),
{
    if state.pending.len() > 0 && !state.shows(state.pending[0]) {
        law_step_only_moves_forward(state.consume());
    }
}

/// Two boxes built from the same text with the same budget in the same
/// style show the same snapshots, element for element, and every step
/// leaves them in the same state again.
pub proof fn law_same_input_same_snapshots<const FIRST: usize, const SECOND: usize>(
    first: &TextBox<FIRST>,
    second: &TextBox<SECOND>,
    text: Seq<char>,
    budget: nat,
    style: Style,
)
    requires
        first@ == Reveal::start(compiled(text, budget, style)),
        second@ == Reveal::start(compiled(text, budget, style)),
    ensures
        first@.snapshots() == second@.snapshots(),
        first@.yields() == second@.yields(),
        first@.advance() == second@.advance(),
{
}

} // verus!
