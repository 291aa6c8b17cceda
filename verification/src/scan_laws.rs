//! What holds of every compiled queue.

use crate::compiler::{
    compiled, emitted, filled_after, is_control, lemma_char_is_scalar, lemma_scan_step, opening,
    opening_glyphs, wrap, Style, LINE_BREAK, SPEAKER_MARK,
};
use crate::text_box::CharType;
use vstd::prelude::*;

verus! {

/// The number of ordinary characters at the end of `text`: those that
/// follow its last control character.
pub open spec fn run_length(text: Seq<char>, style: Style) -> nat
    decreases text.len(),
{
    if text.len() == 0 || is_control(text.last(), style) {
        0
    } else {
        run_length(text.drop_last(), style) + 1
    }
}

/// Counting up to the budget and starting again at one is counting
/// modulo the budget.
proof fn lemma_count_modulo(run: int, budget: int)
    requires
        run >= 1,
        budget >= 1,
    ensures
        (run - 1) % budget + 1 < budget ==> run % budget == (run - 1) % budget + 1,
        (run - 1) % budget + 1 == budget ==> run % budget == 0,
        0 <= (run - 1) % budget < budget,
{
    let q = (run - 1) / budget;
    let m = (run - 1) % budget;
    assert(run - 1 == q * budget + m && 0 <= m < budget) by (nonlinear_arith)
        requires
            budget >= 1,
            q == (run - 1) / budget,
            m == (run - 1) % budget,
    ;
    if m + 1 < budget {
        assert(run % budget == m + 1) by (nonlinear_arith)
            requires
                run == q * budget + (m + 1),
                0 <= m + 1 < budget,
        ;
    } else {
        assert((q + 1) * budget == q * budget + budget) by (nonlinear_arith);
        assert(run % budget == 0) by (nonlinear_arith)
            requires
                run == (q + 1) * budget,
                budget >= 1,
        ;
    }
}

/// The fill count is the length of the current run of ordinary
/// characters, counted modulo the budget: one after the first character
/// of the run, the budget after every budget-th one, and one again after
/// the next.
pub proof fn law_fill_count_by_run_length(text: Seq<char>, budget: nat, style: Style)
    requires
        budget >= 1,
    ensures
        filled_after(text, budget, style) == if run_length(text, style) == 0 {
            0
        } else {
            ((run_length(text, style) - 1) % (budget as int) + 1) as nat
        },
    decreases text.len(),
{
    if text.len() > 0 {
        let seen = text.drop_last();
        law_fill_count_by_run_length(seen, budget, style);
        if !is_control(text.last(), style) {
            let before = run_length(seen, style) as int;
            if before >= 1 {
                lemma_count_modulo(before, budget as int);
            } else {
                assert(0int % (budget as int) == 0) by (nonlinear_arith)
                    requires
                        budget >= 1,
                ;
            }
        }
    }
}

/// An ordinary character is wrapped exactly when the run of ordinary
/// characters before it is a whole number of full lines and not empty.
pub proof fn law_wrap_after_every_full_line(seen: Seq<char>, c: char, budget: nat, style: Style)
    requires
        budget >= 1,
        !is_control(c, style),
    ensures
        filled_after(seen, budget, style) == budget <==> run_length(seen, style) > 0 && run_length(
            seen,
            style,
        ) % budget == 0,
        filled_after(seen, budget, style) <= budget,
{
    law_fill_count_by_run_length(seen, budget, style);
    let run = run_length(seen, style) as int;
    if run > 0 {
        lemma_count_modulo(run, budget as int);
    }
}

/// When the text scanned so far has filled the current line, the next
/// ordinary character is not split off or dropped: the queue grows by a
/// line break, the continuation mark of the style, and then that
/// character, which is the first of its new line.
pub proof fn law_full_line_wraps(seen: Seq<char>, c: char, budget: nat, style: Style)
    requires
        budget >= 1,
        !is_control(c, style),
        filled_after(seen, budget, style) == budget,
    ensures
        compiled(seen.push(c), budget, style) == compiled(seen, budget, style) + wrap(style).push(
            CharType::Char(c),
        ),
        wrap(style)[0] == CharType::NewLine,
        style == Style::Marked ==> wrap(style) == seq![CharType::NewLine, CharType::LineHeadSpace],
        filled_after(seen.push(c), budget, style) == 1,
{
    lemma_scan_step(seen, c, budget, style);
}

/// While the current line has room, the next ordinary character is
/// appended to the queue as it is.
pub proof fn law_fitting_character_is_appended(seen: Seq<char>, c: char, budget: nat, style: Style)
    requires
        !is_control(c, style),
        filled_after(seen, budget, style) < budget,
    ensures
        compiled(seen.push(c), budget, style) == compiled(seen, budget, style).push(
            CharType::Char(c),
        ),
        filled_after(seen.push(c), budget, style) == filled_after(seen, budget, style) + 1,
{
    lemma_scan_step(seen, c, budget, style);
}

/// No control character is ever shown: every character that the queue
/// carries is ordinary in the style of the queue.
pub proof fn law_control_characters_are_never_shown(
    text: Seq<char>,
    budget: nat,
    style: Style,
    i: int,
)
    requires
        0 <= i < compiled(text, budget, style).len(),
    ensures
        compiled(text, budget, style)[i] matches CharType::Char(c) ==> !is_control(c, style),
    decreases text.len(),
{
    let head = opening(style);
    if i >= head.len() && text.len() > 0 {
        let seen = text.drop_last();
        lemma_char_is_scalar(text.last());
        if i < compiled(seen, budget, style).len() {
            law_control_characters_are_never_shown(seen, budget, style, i);
        }
    }
}

/// A continuation mark never stands alone: the event before it is a line
/// break, so that the line it is played into is the one it opens.
pub proof fn law_marks_follow_line_breaks(text: Seq<char>, budget: nat, style: Style, i: int)
    requires
        0 <= i < compiled(text, budget, style).len(),
        compiled(text, budget, style)[i] == CharType::LineHeadSpace,
    ensures
        i > 0,
        compiled(text, budget, style)[i - 1] == CharType::NewLine,
    decreases text.len(),
{
    if text.len() > 0 {
        let seen = text.drop_last();
        lemma_char_is_scalar(text.last());
        if i < compiled(seen, budget, style).len() {
            law_marks_follow_line_breaks(seen, budget, style, i);
        }
    }
}

/// In the marked style no line is begun bare: the event after a line
/// break is the speaker mark or the continuation mark.
pub proof fn law_marked_lines_open_with_a_mark(text: Seq<char>, budget: nat, i: int)
    requires
        0 <= i < compiled(text, budget, Style::Marked).len(),
        compiled(text, budget, Style::Marked)[i] == CharType::NewLine,
    ensures
        i + 1 < compiled(text, budget, Style::Marked).len(),
        compiled(text, budget, Style::Marked)[i + 1] == CharType::Char(SPEAKER_MARK) || compiled(
            text,
            budget,
            Style::Marked,
        )[i + 1] == CharType::LineHeadSpace,
    decreases text.len(),
{
    if text.len() > 0 {
        let seen = text.drop_last();
        lemma_char_is_scalar(text.last());
        if i < compiled(seen, budget, Style::Marked).len() {
            law_marked_lines_open_with_a_mark(seen, budget, i);
        }
    }
}

/// The character that `event` carries, if it is a visible one.
pub open spec fn carried_by(event: CharType) -> Seq<char> {
    match event {
        CharType::Char(c) => seq![c],
        _ => seq![],
    }
}

/// The characters that the visible events of `events` carry, in order.
pub open spec fn carried(events: Seq<CharType>) -> Seq<char>
    decreases events.len(),
{
    if events.len() == 0 {
        seq![]
    } else {
        carried(events.drop_last()) + carried_by(events.last())
    }
}

/// The characters that a text puts on display, whatever the budget: the
/// glyphs that open the text, then every ordinary character as it is,
/// and for every line break the glyphs that open a line.
pub open spec fn displayed(text: Seq<char>, style: Style) -> Seq<char>
    decreases text.len(),
{
    if text.len() == 0 {
        opening_glyphs(style)
    } else if text.last() == LINE_BREAK {
        displayed(text.drop_last(), style) + opening_glyphs(style)
    } else if is_control(text.last(), style) {
        displayed(text.drop_last(), style)
    } else {
        displayed(text.drop_last(), style).push(text.last())
    }
}

/// The characters carried by two runs of events are those of the first
/// run, then those of the second.
proof fn lemma_carried_concat(first: Seq<CharType>, second: Seq<CharType>)
    ensures
        carried(first + second) == carried(first) + carried(second),
    decreases second.len(),
{
    if second.len() > 0 {
        assert((first + second).drop_last() == first + second.drop_last());
        lemma_carried_concat(first, second.drop_last());
    }
}

/// The characters carried by a run of up to three events, event by
/// event.
proof fn lemma_carried_few(events: Seq<CharType>)
    requires
        events.len() <= 3,
    ensures
        events.len() == 0 ==> carried(events) == Seq::<char>::empty(),
        events.len() == 1 ==> carried(events) == carried_by(events[0]),
        events.len() == 2 ==> carried(events) == carried_by(events[0]) + carried_by(events[1]),
        events.len() == 3 ==> carried(events) == carried_by(events[0]) + carried_by(events[1])
            + carried_by(events[2]),
{
    reveal_with_fuel(carried, 4);
}

/// Wrapping neither drops nor repeats nor reorders anything: the
/// characters that the queue of a text carries are those that the text
/// puts on display, whatever the budget.
pub proof fn law_wrapping_keeps_the_text(text: Seq<char>, budget: nat, style: Style)
    ensures
        carried(compiled(text, budget, style)) == displayed(text, style),
    decreases text.len(),
{
    if text.len() == 0 {
        lemma_carried_few(opening(style));
    } else {
        let seen = text.drop_last();
        lemma_char_is_scalar(text.last());
        law_wrapping_keeps_the_text(seen, budget, style);
        let added = emitted(text.last(), filled_after(seen, budget, style), budget, style);
        assert(compiled(text, budget, style) == compiled(seen, budget, style) + added);
        lemma_carried_concat(compiled(seen, budget, style), added);
        lemma_carried_few(added);
    }
}

/// The compiler never looks ahead: the queue of a text begins with the
/// queue of each of the text's beginnings.
pub proof fn law_compilation_never_looks_ahead(text: Seq<char>, n: int, budget: nat, style: Style)
    requires
        0 <= n <= text.len(),
    ensures
        compiled(text.take(n), budget, style).is_prefix_of(compiled(text, budget, style)),
    decreases text.len() - n,
{
    if n < text.len() {
        let seen = text.take(n);
        let c = text[n];
        assert(text.take(n + 1) == seen.push(c));
        lemma_scan_step(seen, c, budget, style);
        law_compilation_never_looks_ahead(text, n + 1, budget, style);
    } else {
        assert(text.take(n) == text);
    }
}

} // verus!
