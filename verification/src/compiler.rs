//! Compilation of raw text into the queue of reveal events.
//!
//! The compiler scans the text once, left to right, and keeps a single
//! number: how many ordinary characters the current line already holds.

use crate::text_box::{CharType, ConfigError};
use std::collections::VecDeque;
use vstd::prelude::*;

verus! {

/// The glyph that opens an utterance and every line begun by a literal
/// line break: a black diamond.
pub const SPEAKER_MARK: char = '\u{25C6}';

/// The glyph that opens a line begun by a wrap.
pub const CONTINUATION_MARK: char = ' ';

/// The input character that ends a line.
pub const LINE_BREAK: char = '\n';

/// The input character that forces a wrap without using up the budget.
pub const FORCED_BREAK: char = '|';

/// Which markers the compiler writes.
#[derive(Debug, Clone, Copy, PartialEq, Eq, Structural)]
pub enum Style {
    /// No markers: the window shows the input's own characters only, and
    /// the forced-break character is an ordinary character.
    Plain,
    /// Speaker marks, continuation marks and forced breaks.
    Marked,
}

impl Style {
    /// Whether this style writes markers.
    pub fn is_marked(self) -> (marked: bool)
        ensures
            marked == (self == Style::Marked),
    {
        match self {
            Style::Plain => false,
            Style::Marked => true,
        }
    }
}

/// Whether `c` is consumed as a control character instead of being shown.
pub open spec fn is_control(c: char, style: Style) -> bool {
    c == LINE_BREAK || (style == Style::Marked && c == FORCED_BREAK)
}

/// The events that open the whole text: one visible event for each of
/// the opening glyphs.
pub open spec fn opening(style: Style) -> Seq<CharType> {
    match style {
        Style::Plain => seq![],
        Style::Marked => seq![CharType::Char(SPEAKER_MARK)],
    }
}

/// The glyphs that a style puts before the first character of a text.
pub open spec fn opening_glyphs(style: Style) -> Seq<char> {
    match style {
        Style::Plain => seq![],
        Style::Marked => seq![SPEAKER_MARK],
    }
}

/// The events that a wrap puts before the character that did not fit.
pub open spec fn wrap(style: Style) -> Seq<CharType> {
    match style {
        Style::Plain => seq![CharType::NewLine],
        Style::Marked => seq![CharType::NewLine, CharType::LineHeadSpace],
    }
}

/// The events emitted for the single character `c` when the current line
/// already holds `filled` ordinary characters.
pub open spec fn emitted(c: char, filled: nat, budget: nat, style: Style) -> Seq<CharType> {
    if c == LINE_BREAK {
        match style {
            Style::Plain => seq![CharType::NewLine],
            Style::Marked => seq![CharType::NewLine, CharType::Char(SPEAKER_MARK)],
        }
    } else if c == FORCED_BREAK && style == Style::Marked {
        seq![CharType::NewLine, CharType::LineHeadSpace]
    } else if filled < budget {
        seq![CharType::Char(c)]
    } else {
        wrap(style).push(CharType::Char(c))
    }
}

/// The number of ordinary characters on the current line once `c` has
/// been scanned.
pub open spec fn refilled(c: char, filled: nat, budget: nat, style: Style) -> nat {
    if is_control(c, style) {
        0
    } else if filled < budget {
        filled + 1
    } else {
        1
    }
}

/// The number of ordinary characters on the current line once all of
/// `text` has been scanned.
pub open spec fn filled_after(text: Seq<char>, budget: nat, style: Style) -> nat
    decreases text.len(),
{
    if text.len() == 0 {
        0
    } else {
        refilled(text.last(), filled_after(text.drop_last(), budget, style), budget, style)
    }
}

/// The events emitted for the characters of `text`, in order.
pub open spec fn scanned(text: Seq<char>, budget: nat, style: Style) -> Seq<CharType>
    decreases text.len(),
{
    if text.len() == 0 {
        seq![]
    } else {
        scanned(text.drop_last(), budget, style) + emitted(
            text.last(),
            filled_after(text.drop_last(), budget, style),
            budget,
            style,
        )
    }
}

/// The whole event queue of `text`.
pub open spec fn compiled(text: Seq<char>, budget: nat, style: Style) -> Seq<CharType> {
    opening(style) + scanned(text, budget, style)
}

/// Every character is a Unicode scalar value. Verus knows this of a
/// character that it is handed, but not of one that it finds in a
/// sequence; a proof calls this lemma on such a character.
pub proof fn lemma_char_is_scalar(c: char)
    ensures
        0 <= (c as int) <= 0xD7FF || 0xE000 <= (c as int) <= 0x10FFFF,
{
}

/// Scanning one more character appends that character's events and
/// updates the fill count.
pub proof fn lemma_scan_step(seen: Seq<char>, c: char, budget: nat, style: Style)
    ensures
        scanned(seen.push(c), budget, style) == scanned(seen, budget, style) + emitted(
            c,
            filled_after(seen, budget, style),
            budget,
            style,
        ),
        filled_after(seen.push(c), budget, style) == refilled(
            c,
            filled_after(seen, budget, style),
            budget,
            style,
        ),
{
    assert(seen.push(c).drop_last() == seen);
}

/// Appends the events of the single character `c` to `queue` and returns
/// the new fill count of the current line.
fn emit(
    queue: &mut VecDeque<CharType>,
    c: char,
    filled: usize,
    budget: usize,
    style: Style,
) -> (refill: usize)
    requires
        filled <= budget,
        budget >= 1,
    ensures
        final(queue)@ == old(queue)@ + emitted(c, filled as nat, budget as nat, style),
        refill == refilled(c, filled as nat, budget as nat, style),
        refill <= budget,
{
    if c == LINE_BREAK {
        queue.push_back(CharType::NewLine);
        if style.is_marked() {
            queue.push_back(CharType::Char(SPEAKER_MARK));
        }
        0
    } else if c == FORCED_BREAK && style.is_marked() {
        queue.push_back(CharType::NewLine);
        queue.push_back(CharType::LineHeadSpace);
        0
    } else if filled < budget {
        queue.push_back(CharType::Char(c));
        filled + 1
    } else {
        queue.push_back(CharType::NewLine);
        if style.is_marked() {
            queue.push_back(CharType::LineHeadSpace);
        }
        queue.push_back(CharType::Char(c));
        1
    }
}

/// Compiles `text` into its event queue in one left-to-right scan. A
/// budget of zero is refused: no character would ever fit on a line.
pub fn compile(text: &str, budget: usize, style: Style) -> (made: Result<
    VecDeque<CharType>,
    ConfigError,
>)
    ensures
        budget == 0 <==> made is Err,
        made matches Err(error) ==> error == ConfigError::ZeroBudget,
        made matches Ok(queue) ==> queue@ == compiled(text@, budget as nat, style),
{
    if budget == 0 {
        return Err(ConfigError::ZeroBudget);
    }
    let mut queue: VecDeque<CharType> = VecDeque::new();
    if style.is_marked() {
        queue.push_back(CharType::Char(SPEAKER_MARK));
    }
    let mut filled: usize = 0;
    for c in it: text.chars()
        invariant
            budget >= 1,
            it.seq() == text@,
            filled <= budget,
            filled == filled_after(text@.take(it.index()), budget as nat, style),
            queue@ == opening(style) + scanned(text@.take(it.index()), budget as nat, style),
    {
        proof {
            lemma_scan_step(text@.take(it.index()), c, budget as nat, style);
            assert(text@.take(it.index() + 1) == text@.take(it.index()).push(c));
        }
        filled = emit(&mut queue, c, filled, budget, style);
    }
    assert(text@.take(text@.len() as int) == text@);
    Ok(queue)
}

} // verus!





