//! The mathematical model of the reveal: a window of three lines, the
//! slot that is being written, and the events still to be played.

use crate::compiler::CONTINUATION_MARK;
use crate::text_box::CharType;
use vstd::prelude::*;

verus! {

/// One of the three lines of the window.
#[derive(Debug, Clone, Copy, PartialEq, Eq, Structural)]
pub enum Slot {
    Top,
    Middle,
    Bottom,
}

impl Slot {
    /// The position of the slot, counted from the top.
    pub open spec fn index(self) -> nat {
        match self {
            Slot::Top => 0,
            Slot::Middle => 1,
            Slot::Bottom => 2,
        }
    }

    /// The slot one line further down; the bottom slot stays where it is.
    pub open spec fn below(self) -> Slot {
        match self {
            Slot::Top => Slot::Middle,
            Slot::Middle => Slot::Bottom,
            Slot::Bottom => Slot::Bottom,
        }
    }

    /// Moves one line down, stopping at the bottom.
    pub fn descend(self) -> (next: Slot)
        ensures
            next == self.below(),
    {
        match self {
            Slot::Top => Slot::Middle,
            Slot::Middle => Slot::Bottom,
            Slot::Bottom => Slot::Bottom,
        }
    }
}

/// The three visible lines at one moment of the reveal.
pub struct Window {
    pub top: Seq<char>,
    pub middle: Seq<char>,
    pub bottom: Seq<char>,
}

impl Window {
    /// The window with nothing in it.
    pub open spec fn blank() -> Window {
        Window { top: seq![], middle: seq![], bottom: seq![] }
    }

    /// The line held by `slot`.
    pub open spec fn line(self, slot: Slot) -> Seq<char> {
        match slot {
            Slot::Top => self.top,
            Slot::Middle => self.middle,
            Slot::Bottom => self.bottom,
        }
    }

    /// The window after `c` has been appended to the line held by `slot`.
    pub open spec fn write(self, slot: Slot, c: char) -> Window {
        match slot {
            Slot::Top => Window { top: self.top.push(c), ..self },
            Slot::Middle => Window { middle: self.middle.push(c), ..self },
            Slot::Bottom => Window { bottom: self.bottom.push(c), ..self },
        }
    }

    /// The window after all of `chars` have been appended, in order, to
    /// the line held by `slot`.
    pub open spec fn extend(self, slot: Slot, chars: Seq<char>) -> Window {
        match slot {
            Slot::Top => Window { top: self.top + chars, ..self },
            Slot::Middle => Window { middle: self.middle + chars, ..self },
            Slot::Bottom => Window { bottom: self.bottom + chars, ..self },
        }
    }

    /// Whether no line holds more than `bound` characters.
    pub open spec fn fits(self, bound: nat) -> bool {
        self.top.len() <= bound && self.middle.len() <= bound && self.bottom.len() <= bound
    }

    /// The window after the oldest line has been given up: the middle line
    /// moves to the top, the bottom line to the middle, and the bottom is
    /// cleared.
    pub open spec fn shifted(self) -> Window {
        Window { top: self.middle, middle: self.bottom, bottom: seq![] }
    }
}

/// The state of a reveal.
pub struct Reveal {
    /// What is visible.
    pub window: Window,
    /// The line that receives characters.
    pub active: Slot,
    /// The events that have not been played yet, next one first.
    pub pending: Seq<CharType>,
}

impl Reveal {
    /// The state before any event of `events` has been played.
    pub open spec fn start(events: Seq<CharType>) -> Reveal {
        Reveal { window: Window::blank(), active: Slot::Top, pending: events }
    }

    /// Whether playing `event` in this state changes what a caller is
    /// shown: every character does, and so does a line break that finds
    /// the window full.
    pub open spec fn shows(self, event: CharType) -> bool {
        match event {
            CharType::Char(_) => true,
            CharType::NewLine => self.active == Slot::Bottom,
            CharType::LineHeadSpace => false,
        }
    }

    /// The state after `event` has been played; the queue is left alone.
    pub open spec fn apply(self, event: CharType) -> Reveal {
        match event {
            CharType::Char(c) => Reveal { window: self.window.write(self.active, c), ..self },
            CharType::LineHeadSpace => Reveal {
                window: self.window.write(self.active, CONTINUATION_MARK),
                ..self
            },
            CharType::NewLine => if self.active == Slot::Bottom {
                Reveal { window: self.window.shifted(), ..self }
            } else {
                Reveal { active: self.active.below(), ..self }
            },
        }
    }

    /// The state after the first pending event has been taken off the
    /// queue and played.
    pub open spec fn consume(self) -> Reveal
        recommends
            self.pending.len() > 0,
    {
        Reveal { pending: self.pending.drop_first(), ..self.apply(self.pending[0]) }
    }

    /// The state after all of `events` have been played in order; the
    /// queue is left alone.
    pub open spec fn play(self, events: Seq<CharType>) -> Reveal
        decreases events.len(),
    {
        if events.len() == 0 {
            self
        } else {
            self.apply(events[0]).play(events.drop_first())
        }
    }

    /// Whether one call of the engine's step has something to show: some
    /// pending event, reached through events that show nothing, does.
    pub open spec fn yields(self) -> bool
        decreases self.pending.len(),
    {
        self.pending.len() > 0 && (self.shows(self.pending[0]) || self.consume().yields())
    }

    /// The state after one call of the engine's step: events are consumed
    /// up to and including the first one that shows, or to the end of the
    /// queue if none does.
    pub open spec fn advance(self) -> Reveal
        decreases self.pending.len(),
    {
        if self.pending.len() == 0 {
            self
        } else if self.shows(self.pending[0]) {
            self.consume()
        } else {
            self.consume().advance()
        }
    }

    /// Every window that the rest of the reveal shows, in order: the
    /// window after each event that shows.
    pub open spec fn snapshots(self) -> Seq<Window>
        decreases self.pending.len(),
    {
        if self.pending.len() == 0 {
            seq![]
        } else if self.shows(self.pending[0]) {
            seq![self.consume().window] + self.consume().snapshots()
        } else {
            self.consume().snapshots()
        }
    }
}

} // verus!
