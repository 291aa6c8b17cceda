//! What holds of the reveal of every text: of the queue that the
//! compiler makes, played into the window.

use crate::compiler::{
    compiled, emitted, filled_after, is_control, lemma_char_is_scalar, opening_glyphs, refilled,
    scanned, Style,
};
use crate::text_box::CharType;
use crate::window::{Reveal, Slot, Window};
use vstd::prelude::*;

verus! {

/// The events that show the characters of `chars`, one event each.
spec fn as_visible(chars: Seq<char>) -> Seq<CharType>
    decreases chars.len(),
{
    if chars.len() == 0 {
        seq![]
    } else {
        as_visible(chars.drop_last()).push(CharType::Char(chars.last()))
    }
}

/// The events of `as_visible` stand one for one for the characters.
proof fn lemma_as_visible(chars: Seq<char>)
    ensures
        as_visible(chars).len() == chars.len(),
        forall|i: int|
            0 <= i < chars.len() ==> #[trigger] as_visible(chars)[i] == CharType::Char(chars[i]),
    decreases chars.len(),
{
    if chars.len() > 0 {
        lemma_as_visible(chars.drop_last());
        lemma_char_is_scalar(chars.last());
    }
}

/// A text without control characters that fits the budget compiles to one
/// visible event per character.
proof fn lemma_short_text_scans_plainly(text: Seq<char>, budget: nat, style: Style)
    requires
        forall|i: int| 0 <= i < text.len() ==> !is_control(#[trigger] text[i], style),
        text.len() <= budget,
    ensures
        scanned(text, budget, style) == as_visible(text),
        filled_after(text, budget, style) == text.len(),
    decreases text.len(),
{
    if text.len() > 0 {
        lemma_short_text_scans_plainly(text.drop_last(), budget, style);
        lemma_char_is_scalar(text.last());
    }
}

/// Appending one character is extending by that character alone.
proof fn lemma_write_is_extend(window: Window, slot: Slot, c: char)
    ensures
        window.write(slot, c) == window.extend(slot, seq![c]),
{
    assert(window.top.push(c) =~= window.top + seq![c]);
    assert(window.middle.push(c) =~= window.middle + seq![c]);
    assert(window.bottom.push(c) =~= window.bottom + seq![c]);
}

/// Extending a line twice is extending it once by both runs.
proof fn lemma_extend_twice(window: Window, slot: Slot, first: Seq<char>, second: Seq<char>)
    ensures
        window.extend(slot, first).extend(slot, second) == window.extend(slot, first + second),
{
    assert((window.top + first) + second =~= window.top + (first + second));
    assert((window.middle + first) + second =~= window.middle + (first + second));
    assert((window.bottom + first) + second =~= window.bottom + (first + second));
}

/// A queue of visible events only is revealed one character per step,
/// all on the active line.
proof fn lemma_visible_run_reveals_by_character(state: Reveal, chars: Seq<char>)
    requires
        state.pending == as_visible(chars),
    ensures
        state.snapshots().len() == chars.len(),
        forall|k: int|
            0 <= k < chars.len() ==> #[trigger] state.snapshots()[k] == state.window.extend(
                state.active,
                chars.take(k + 1),
            ),
    decreases chars.len(),
{
    if chars.len() > 0 {
        let next = state.consume();
        let rest = chars.drop_first();
        lemma_as_visible(chars);
        lemma_as_visible(rest);
        assert(next.pending =~= as_visible(rest));
        lemma_visible_run_reveals_by_character(next, rest);
        assert forall|k: int| 0 <= k < chars.len() implies #[trigger] state.snapshots()[k]
            == state.window.extend(state.active, chars.take(k + 1)) by {
            if k == 0 {
                assert(chars.take(1) =~= seq![chars[0]]);
                assert(state.window.extend(state.active, seq![chars[0]]) =~= state.window.write(
                    state.active,
                    chars[0],
                )) by {
                    lemma_write_is_extend(state.window, state.active, chars[0]);
                }
            } else {
                assert(seq![chars[0]] + rest.take(k) =~= chars.take(k + 1));
                lemma_write_is_extend(state.window, state.active, chars[0]);
                lemma_extend_twice(state.window, state.active, seq![chars[0]], rest.take(k));
            }
        }
    }
}

/// A text that holds no control character and is no longer than the
/// budget is revealed in one step per character, each step appending one
/// character to the top line while the other lines stay empty. In the
/// marked style the speaker mark comes first, in a step of its own.
pub proof fn law_short_text_fills_top_line(text: Seq<char>, budget: nat, style: Style)
    requires
        forall|i: int| 0 <= i < text.len() ==> !is_control(#[trigger] text[i], style),
        text.len() <= budget,
    ensures
        ({
            let shown = Reveal::start(compiled(text, budget, style)).snapshots();
            let line = opening_glyphs(style) + text;
            &&& shown.len() == line.len()
            &&& forall|k: int|
                0 <= k < line.len() ==> #[trigger] shown[k] == (Window {
                    top: line.take(k + 1),
                    middle: seq![],
                    bottom: seq![],
                })
        }),
{
    let line = opening_glyphs(style) + text;
    let state = Reveal::start(compiled(text, budget, style));
    lemma_short_text_scans_plainly(text, budget, style);
    lemma_as_visible(text);
    lemma_as_visible(line);
    assert(state.pending =~= as_visible(line));
    lemma_visible_run_reveals_by_character(state, line);
}

/// The most characters that a line can hold: the budget of ordinary
/// characters and, in the marked style, the mark that opens the line.
pub open spec fn line_capacity(budget: nat, style: Style) -> nat {
    opening_glyphs(style).len() + budget
}

/// Whether every line below the active one is still empty.
spec fn settled(state: Reveal) -> bool {
    &&& state.active == Slot::Top ==> state.window.middle.len() == 0 && state.window.bottom.len()
        == 0
    &&& state.active == Slot::Middle ==> state.window.bottom.len() == 0
}

/// What is shown after a run of events does not depend on the queue.
proof fn lemma_play_ignores_queue(first: Reveal, second: Reveal, events: Seq<CharType>)
    requires
        first.window == second.window,
        first.active == second.active,
    ensures
        first.play(events).window == second.play(events).window,
        first.play(events).active == second.play(events).active,
    decreases events.len(),
{
    if events.len() > 0 {
        lemma_play_ignores_queue(
            first.apply(events[0]),
            second.apply(events[0]),
            events.drop_first(),
        );
    }
}

/// Playing two runs of events one after the other is playing them as one
/// run.
proof fn lemma_play_concat(state: Reveal, first: Seq<CharType>, second: Seq<CharType>)
    ensures
        state.play(first + second) == state.play(first).play(second),
    decreases first.len(),
{
    if first.len() > 0 {
        assert((first + second).drop_first() == first.drop_first() + second);
        lemma_play_concat(state.apply(first[0]), first.drop_first(), second);
    }
}

/// Playing one more event after a run is applying it to what the run
/// left.
proof fn lemma_play_push(state: Reveal, events: Seq<CharType>, event: CharType)
    ensures
        state.play(events.push(event)) == state.play(events).apply(event),
        state.play(Seq::<CharType>::empty()) == state,
{
    let last = seq![event];
    assert(events.push(event) == events + last);
    lemma_play_concat(state, events, last);
    let reached = state.play(events);
    assert(reached.play(last) == reached.apply(event).play(last.drop_first()));
}

/// Playing a beginning that is one event longer.
proof fn lemma_play_take(state: Reveal, events: Seq<CharType>, m: int)
    requires
        0 <= m < events.len(),
    ensures
        state.play(events.take(m + 1)) == state.play(events.take(m)).apply(events[m]),
{
    assert(events.take(m + 1) == events.take(m).push(events[m]));
    lemma_play_push(state, events.take(m), events[m]);
}

/// Every snapshot is the window after some beginning of the queue has
/// been played. The beginning's length is handed back.
proof fn lemma_snapshot_is_played(state: Reveal, k: int) -> (j: int)
    requires
        0 <= k < state.snapshots().len(),
    ensures
        1 <= j <= state.pending.len(),
        state.snapshots()[k] == state.play(state.pending.take(j)).window,
    decreases state.pending.len(),
{
    let head = state.pending[0];
    let next = state.consume();
    if state.shows(head) && k == 0 {
        1
    } else {
        let deeper = if state.shows(head) {
            k - 1
        } else {
            k
        };
        let i = lemma_snapshot_is_played(next, deeper);
        assert(state.pending.take(i + 1).drop_first() == next.pending.take(i));
        lemma_play_ignores_queue(next, state.apply(head), next.pending.take(i));
        i + 1
    }
}

/// Playing the events of one more character from a state whose lines fit
/// keeps them fitting after every single event, and leaves the active
/// line holding its mark and the ordinary characters counted so far.
proof fn lemma_one_character_fits(state: Reveal, c: char, filled: nat, budget: nat, style: Style)
    requires
        budget >= 1,
        filled <= budget,
        settled(state),
        state.window.fits(line_capacity(budget, style)),
        state.window.line(state.active).len() == opening_glyphs(style).len() + filled,
    ensures
        ({
            let events = emitted(c, filled, budget, style);
            let after = state.play(events);
            &&& settled(after)
            &&& after.window.line(after.active).len() == opening_glyphs(style).len()
                + refilled(c, filled, budget, style)
            &&& forall|m: int|
                0 <= m <= events.len() ==> #[trigger] state.play(events.take(m)).window.fits(
                    line_capacity(budget, style),
                )
        }),
{
    let events = emitted(c, filled, budget, style);
    assert(events.take(events.len() as int) == events);
    if events.len() >= 1 {
        lemma_play_take(state, events, 0);
    }
    if events.len() >= 2 {
        lemma_play_take(state, events, 1);
    }
    if events.len() >= 3 {
        lemma_play_take(state, events, 2);
    }
}

/// After any beginning of the queue of a text has been played, no line
/// holds more than its capacity.
proof fn lemma_scan_fits(text: Seq<char>, budget: nat, style: Style)
    requires
        budget >= 1,
    ensures
        ({
            let events = compiled(text, budget, style);
            let start = Reveal::start(events);
            let after = start.play(events);
            &&& settled(after)
            &&& after.window.line(after.active).len() == opening_glyphs(style).len() + filled_after(
                text,
                budget,
                style,
            )
            &&& forall|j: int|
                0 <= j <= events.len() ==> #[trigger] start.play(events.take(j)).window.fits(
                    line_capacity(budget, style),
                )
        }),
    decreases text.len(),
{
    let events = compiled(text, budget, style);
    let start = Reveal::start(events);
    let bound = line_capacity(budget, style);
    if text.len() == 0 {
        assert(events.take(events.len() as int) == events);
        if events.len() == 1 {
            lemma_play_take(start, events, 0);
        }
    } else {
        let seen = text.drop_last();
        let c = text.last();
        lemma_scan_fits(seen, budget, style);
        let before = compiled(seen, budget, style);
        let filled = filled_after(seen, budget, style);
        let added = emitted(c, filled, budget, style);
        assert(events =~= before + added);
        let old_start = Reveal::start(before);
        let reached = start.play(before);
        lemma_play_ignores_queue(old_start, start, before);
        assert(before.take(before.len() as int) == before);
        lemma_one_character_fits(reached, c, filled, budget, style);
        lemma_play_concat(start, before, added);
        assert forall|j: int| 0 <= j <= events.len() implies #[trigger] start.play(
            events.take(j),
        ).window.fits(bound) by {
            if j <= before.len() {
                assert(events.take(j) =~= before.take(j));
                lemma_play_ignores_queue(old_start, start, before.take(j));
            } else {
                let m = j - before.len();
                assert(events.take(j) =~= before + added.take(m));
                lemma_play_concat(start, before, added.take(m));
                assert(reached.play(added.take(m)).window.fits(bound));
            }
        }
    }
}

/// No line of any snapshot of a text holds more than the budget of
/// ordinary characters, beside the one mark that opens a line in the
/// marked style.
pub proof fn law_lines_fit_budget(text: Seq<char>, budget: nat, style: Style, k: int)
    requires
        budget >= 1,
        0 <= k < Reveal::start(compiled(text, budget, style)).snapshots().len(),
    ensures
        Reveal::start(compiled(text, budget, style)).snapshots()[k].fits(
            line_capacity(budget, style),
        ),
{
    let events = compiled(text, budget, style);
    let start = Reveal::start(events);
    let j = lemma_snapshot_is_played(start, k);
    lemma_scan_fits(text, budget, style);
}

} // verus!
