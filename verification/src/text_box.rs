//! The reveal events and the engine that plays them into the window.

use crate::compiler::{compile, compiled, Style, CONTINUATION_MARK};
use crate::reveal_laws::lemma_snapshots_by_advance;
use crate::window::{Reveal, Slot, Window};
use std::collections::VecDeque;
use vstd::prelude::*;
use vstd::string::StringExecFns;

verus! {

/// One compiled reveal event.
#[derive(Debug, Clone, Copy, PartialEq, Eq, Structural)]
pub enum CharType {
    /// A visible character, to be appended to the active line.
    Char(char),
    /// A line break: the active line moves down, or the window shifts.
    NewLine,
    /// The continuation mark that opens a wrapped line.
    LineHeadSpace,
}

/// Why a text box could not be built.
#[derive(Debug, Clone, Copy, PartialEq, Eq, Structural)]
pub enum ConfigError {
    /// The line budget is zero, so no character would ever fit on a line.
    ZeroBudget,
}

impl ConfigError {
    /// The error in words.
    pub fn message(&self) -> (message: String)
        ensures
            message@ == "The line budget must be at least one character"@,
    {
        match self {
            ConfigError::ZeroBudget => String::from_str(
                "The line budget must be at least one character",
            ),
        }
    }
}

/// The window that three line buffers show.
pub open spec fn window_of(lines: [String; 3]) -> Window {
    Window { top: lines[0]@, middle: lines[1]@, bottom: lines[2]@ }
}

/// The windows that a run of collected line buffers shows.
pub open spec fn windows_of(frames: Seq<[String; 3]>) -> Seq<Window> {
    frames.map_values(|lines: [String; 3]| window_of(lines))
}

/// A dialogue box of three lines that reveals its text one step at a
/// time. `TEXT_LENGTH_LIMIT` is the number of ordinary characters that
/// fit on one line.
#[derive(Debug)]
pub struct TextBox<const TEXT_LENGTH_LIMIT: usize> {
    lines: [String; 3],
    remains: VecDeque<CharType>,
    active: Slot,
}

impl<const TEXT_LENGTH_LIMIT: usize> View for TextBox<TEXT_LENGTH_LIMIT> {
    type V = Reveal;

    closed spec fn view(&self) -> Reveal {
        Reveal { window: window_of(self.lines), active: self.active, pending: self.remains@ }
    }
}

impl<const TEXT_LENGTH_LIMIT: usize> Default for TextBox<TEXT_LENGTH_LIMIT> {
    /// The box that has nothing to reveal.
    fn default() -> (text_box: Self)
        ensures
            text_box@ == Reveal::start(Seq::<CharType>::empty()),
    {
        TextBox {
            lines: [String::new(), String::new(), String::new()],
            remains: VecDeque::new(),
            active: Slot::Top,
        }
    }
}

impl<const TEXT_LENGTH_LIMIT: usize> TextBox<TEXT_LENGTH_LIMIT> {
    /// Builds the box for `text` with speaker marks, continuation marks
    /// and forced breaks. A zero budget is refused.
    pub fn new(text: String) -> (made: Result<Self, ConfigError>)
        ensures
            TEXT_LENGTH_LIMIT == 0 <==> made is Err,
            made matches Err(e) ==> e == ConfigError::ZeroBudget,
            made matches Ok(text_box) ==> text_box@ == Reveal::start(
                compiled(text@, TEXT_LENGTH_LIMIT as nat, Style::Marked),
            ),
    {
        Self::with_style(text, Style::Marked)
    }

    /// Builds the box for `text` in the given style. A zero budget is
    /// refused.
    pub fn with_style(text: String, style: Style) -> (made: Result<Self, ConfigError>)
        ensures
            TEXT_LENGTH_LIMIT == 0 <==> made is Err,
            made matches Err(e) ==> e == ConfigError::ZeroBudget,
            made matches Ok(text_box) ==> text_box@ == Reveal::start(
                compiled(text@, TEXT_LENGTH_LIMIT as nat, style),
            ),
    {
        match compile(text.as_str(), TEXT_LENGTH_LIMIT, style) {
            Ok(remains) => Ok(
                TextBox {
                    lines: [String::new(), String::new(), String::new()],
                    remains,
                    active: Slot::Top,
                },
            ),
            Err(error) => Err(error),
        }
    }

    /// Plays events until one of them shows, and hands out the window as
    /// it then stands. Every character shows, and so does every line
    /// break that finds the window full, also where the shifted window
    /// looks like the one before; marks and line breaks that find room
    /// are played on the way and show nothing by themselves. `None` if
    /// the queue runs out before an event shows; the queue is then
    /// empty, and every later call gives `None` again.
    pub fn next(&mut self) -> (snapshot: Option<&[String; 3]>)
        ensures
            final(self)@ == old(self)@.advance(),
            snapshot is Some <==> old(self)@.yields(),
            snapshot matches Some(lines) ==> window_of(*lines) == final(self)@.window,
            snapshot is Some ==> final(self)@.pending.len() < old(self)@.pending.len(),
            snapshot is None ==> final(self)@.pending.len() == 0 && !final(self)@.yields(),
    {
        proof {
            lemma_snapshots_by_advance(self@);
        }
        if self.step() {
            Some(&self.lines)
        } else {
            None
        }
    }

    /// Plays the rest of the reveal and collects every snapshot, in order.
    pub fn into_snapshots(self) -> (frames: Vec<[String; 3]>)
        ensures
            windows_of(frames@) == self@.snapshots(),
    {
        let mut text_box = self;
        let mut frames: Vec<[String; 3]> = Vec::new();
        loop
            invariant
                windows_of(frames@) + text_box@.snapshots() == self@.snapshots(),
            ensures
                windows_of(frames@) == self@.snapshots(),
            decreases text_box@.pending.len(),
        {
            proof {
                lemma_snapshots_by_advance(text_box@);
            }
            match text_box.next() {
                None => {
                    break ;
                },
                Some(lines) => {
                    frames.push([lines[0].clone(), lines[1].clone(), lines[2].clone()]);
                },
            }
        }
        frames
    }

    /// Plays events until one of them shows or the queue has run out, and
    /// says which.
    fn step(&mut self) -> (shown: bool)
        ensures
            final(self)@ == old(self)@.advance(),
            shown == old(self)@.yields(),
    {
        let ghost entry = self@;
        loop
            invariant
                entry == old(self)@,
                self@.advance() == entry.advance(),
                self@.yields() == entry.yields(),
            decreases self@.pending.len(),
        {
            match self.remains.pop_front() {
                None => {
                    return false;
                },
                Some(CharType::Char(c)) => {
                    self.write(c);
                    return true;
                },
                Some(CharType::LineHeadSpace) => {
                    self.write_continuation();
                },
                Some(CharType::NewLine) => {
                    match self.active {
                        Slot::Bottom => {
                            self.shift();
                            return true;
                        },
                        _ => {
                            self.active = self.active.descend();
                        },
                    }
                },
            }
        }
    }

    /// Appends `c` to the active line.
    fn write(&mut self, c: char)
        ensures
            final(self)@ == (Reveal {
                window: old(self)@.window.write(old(self)@.active, c),
                ..old(self)@
            }),
    {
        match self.active {
            Slot::Top => self.lines_head_mut().push(c),
            Slot::Middle => self.lines_middle_mut().push(c),
            Slot::Bottom => self.lines_last_mut().push(c),
        }
    }

    /// Appends the continuation mark to the active line.
    fn write_continuation(&mut self)
        ensures
            final(self)@ == old(self)@.apply(CharType::LineHeadSpace),
    {
        self.write(CONTINUATION_MARK);
    }

    /// The top line, to be written.
    fn lines_head_mut(&mut self) -> (line: &mut String)
        ensures
            *line == old(self).lines[0],
            final(self).lines@ == old(self).lines@.update(0, *final(line)),
            final(self).remains == old(self).remains,
            final(self).active == old(self).active,
    {
        &mut self.lines[0]
    }

    /// The middle line, to be written.
    fn lines_middle_mut(&mut self) -> (line: &mut String)
        ensures
            *line == old(self).lines[1],
            final(self).lines@ == old(self).lines@.update(1, *final(line)),
            final(self).remains == old(self).remains,
            final(self).active == old(self).active,
    {
        &mut self.lines[1]
    }

    /// The bottom line, to be written.
    fn lines_last_mut(&mut self) -> (line: &mut String)
        ensures
            *line == old(self).lines[2],
            final(self).lines@ == old(self).lines@.update(2, *final(line)),
            final(self).remains == old(self).remains,
            final(self).active == old(self).active,
    {
        &mut self.lines[2]
    }

    /// Gives up the top line: the middle line moves to the top, the
    /// bottom line to the middle, and the bottom is cleared.
    fn shift(&mut self)
        ensures
            final(self)@ == (Reveal { window: old(self)@.window.shifted(), ..old(self)@ }),
    {
        self.lines[0] = self.lines[1].clone();
        self.lines[1] = self.lines[2].clone();
        self.lines[2] = String::new();
    }
}

} // verus!
