//! The message box as a state machine over plain mathematical values.
//!
//! [`SequencerState`] is what a message box is to its contracts, and
//! [`SequencerState::step`] is the whole of its behaviour in one frame. The
//! executable code in `message_box` is proved to follow it; the laws in
//! `playback` are proved about it.

use vstd::prelude::*;
use crate::fixed::{clamp, magnitude};
use crate::graphics::{Color, DrawOp, FontId, Point};
use crate::text::{MessageView, PageView};

verus! {

/// Accumulator units that stand for one revealed character.
pub const CHARACTER: i64 = 1000;

/// Accumulator units gained per millisecond while a line is revealed:
/// thirty characters a second.
pub const REVEAL_RATE: u16 = 30;

/// Distance between the tops of two lines of a page, in pixels.
pub const LINE_HEIGHT: i64 = 16;

/// How far below the top of its line the idle marker rests, in pixels.
pub const BUTTON_OFFSET: i64 = 2;

/// Millionths of a pixel that the idle marker moves per millisecond:
/// seven and a half pixels a second.
pub const BUTTON_SPEED: u16 = 7500;

/// The marker turns round once it is farther than this from its rest
/// position, in millionths of a pixel.
pub const BUTTON_BOUND: i64 = 3_000_000;

/// The idle marker that bobs behind a page while it waits for the reader.
#[derive(Debug, Clone, Copy, PartialEq, Eq, Structural)]
pub struct Button {
    /// Displacement from the rest position, in millionths of a pixel.
    pub position: i64,
    /// Whether the marker is moving towards larger displacements.
    pub direction: bool,
}

impl Button {
    /// The marker at rest, about to move up.
    pub open spec fn rest() -> Button {
        Button { position: 0, direction: false }
    }

    /// The marker after `delta` milliseconds: it moves on in its direction
    /// and turns round where that takes it beyond the bound.
    pub open spec fn bounce(self, delta: int) -> Button {
        let travel = clamp(delta * BUTTON_SPEED);
        let position = if self.direction {
            clamp(self.position + travel)
        } else {
            clamp(self.position - travel)
        };
        Button {
            position: position as i64,
            direction: if magnitude(position) > BUTTON_BOUND {
                !self.direction
            } else {
                self.direction
            },
        }
    }
}

/// Whole characters in `accumulator` thousandths; none in a negative count.
pub open spec fn whole_characters(accumulator: int) -> nat {
    if accumulator <= 0 {
        0
    } else {
        (accumulator / (CHARACTER as int)) as nat
    }
}

/// Everything that decides what a message box does and shows.
pub struct SequencerState {
    /// Whether the box takes part in updates and drawing.
    pub alive: bool,
    /// Where the first line of a page starts.
    pub origin: Point,
    pub font: FontId,
    pub message: MessageView,
    pub button: Button,
    /// Index of the page that is shown.
    pub page: nat,
    /// Index of the line that is being revealed; the lines above it are shown.
    pub line: nat,
    /// While a line is revealed: thousandths of a character shown so far.
    /// While the page waits: milliseconds waited.
    pub accumulator: i64,
    /// Whether all lines of the page are shown and the box holds the page.
    pub waiting: bool,
    /// Whether the last page has been dismissed.
    pub finished: bool,
}

impl SequencerState {
    /// A box that has just been made: not alive, no message, at the start.
    pub open spec fn fresh(origin: Point, font: FontId) -> SequencerState {
        SequencerState {
            alive: false,
            origin,
            font,
            message: MessageView { pages: Seq::empty(), color: Color { r: 0, g: 0, b: 0, a: 0 } },
            button: Button::rest(),
            page: 0,
            line: 0,
            accumulator: 0,
            waiting: false,
            finished: false,
        }
    }

    /// The same box with its cursors and its idle marker back at the start.
    /// Whether it is alive and whether it has finished stay as they are.
    pub open spec fn rewound(self) -> SequencerState {
        SequencerState {
            button: Button::rest(),
            page: 0,
            line: 0,
            accumulator: 0,
            waiting: false,
            ..self
        }
    }

    /// The box brought to life at the start of its message, with nothing
    /// dismissed yet.
    pub open spec fn spawned(self) -> SequencerState {
        SequencerState { alive: true, finished: false, ..self.rewound() }
    }

    /// The box put away: not alive, at the start, its pages dropped.
    pub open spec fn despawned(self) -> SequencerState {
        SequencerState {
            alive: false,
            finished: false,
            message: MessageView { pages: Seq::empty(), color: self.message.color },
            ..self.rewound()
        }
    }

    /// The box with other pages, its progress untouched.
    pub open spec fn with_pages(self, pages: Seq<PageView>) -> SequencerState {
        SequencerState { message: MessageView { pages, color: self.message.color }, ..self }
    }

    /// The box with another text colour.
    pub open spec fn with_color(self, color: Color) -> SequencerState {
        SequencerState { message: MessageView { pages: self.message.pages, color }, ..self }
    }

    pub open spec fn is_empty(self) -> bool {
        self.message.pages.len() == 0
    }

    /// Nothing is left to show: the last page was dismissed, or there is
    /// no page at all.
    pub open spec fn is_finished(self) -> bool {
        self.finished || self.is_empty()
    }

    /// The page under the cursor, if the cursor has not run off the end.
    pub open spec fn current_page(self) -> Option<PageView> {
        if self.page < self.message.pages.len() {
            Some(self.message.pages[self.page as int])
        } else {
            None
        }
    }

    /// Number of characters of the line under the cursor; zero where `page`
    /// has no such line.
    pub open spec fn line_length(self, page: PageView) -> nat {
        if self.line < page.lines.len() {
            page.lines[self.line as int].len()
        } else {
            0
        }
    }

    /// Whole characters that the accumulator stands for.
    pub open spec fn revealed(self) -> nat {
        whole_characters(self.accumulator as int)
    }

    /// Leaves the waiting state: on to the next page, or, behind the last
    /// page, finished.
    pub open spec fn finish_waiting(self) -> SequencerState {
        if self.page + 1 < self.message.pages.len() {
            SequencerState {
                waiting: false,
                page: self.page + 1,
                line: 0,
                accumulator: 0,
                ..self
            }
        } else {
            SequencerState { waiting: false, finished: true, ..self }
        }
    }

    /// One frame of `delta` milliseconds while a line of `page` is revealed.
    pub open spec fn reveal_line(self, page: PageView, delta: int) -> SequencerState {
        if self.revealed() < self.line_length(page) {
            SequencerState {
                accumulator: clamp(self.accumulator + clamp(delta * REVEAL_RATE)) as i64,
                ..self
            }
        } else if self.line + 1 < page.lines.len() {
            SequencerState { accumulator: 0, line: self.line + 1, ..self }
        } else {
            SequencerState { accumulator: 0, waiting: true, ..self }
        }
    }

    /// One frame of `delta` milliseconds while `page` is held. A page with a
    /// delay leaves once the time waited is as far from zero as the delay; a
    /// page without one leaves when the reader confirms, and the idle marker
    /// moves on while the reader does not.
    pub open spec fn hold_page(self, page: PageView, confirm: bool, delta: int) -> SequencerState {
        match page.wait {
            Some(delay) => {
                let waited = SequencerState {
                    accumulator: clamp(self.accumulator + delta) as i64,
                    ..self
                };
                if magnitude(waited.accumulator as int) >= magnitude(delay as int) {
                    waited.finish_waiting()
                } else {
                    waited
                }
            },
            None => if confirm {
                self.finish_waiting()
            } else {
                SequencerState { button: self.button.bounce(delta), ..self }
            },
        }
    }

    /// One frame: `delta` milliseconds have passed and `confirm` tells
    /// whether the reader confirmed in it.
    pub open spec fn step(self, confirm: bool, delta: int) -> SequencerState {
        if !self.alive {
            self
        } else {
            match self.current_page() {
                None => SequencerState { finished: true, ..self },
                Some(page) => if self.waiting {
                    self.hold_page(page, confirm, delta)
                } else {
                    self.reveal_line(page, delta)
                },
            }
        }
    }

    /// Where row `row` of a page starts, `below` pixels under its top.
    pub open spec fn row_start(self, row: int, below: int) -> Point {
        Point { x: self.origin.x, y: clamp(self.origin.y + LINE_HEIGHT * row + below) as i64 }
    }

    /// The command that writes `text` into row `row`.
    pub open spec fn row_text(self, text: Seq<char>, row: int) -> DrawOp {
        DrawOp::Text {
            font: self.font,
            text,
            at: self.row_start(row, 0),
            color: self.message.color,
        }
    }

    /// Whether the line under the cursor is shown only in part.
    pub open spec fn partial(self, page: PageView) -> bool {
        self.line_length(page) > self.revealed() && !self.waiting
    }

    /// What the box shows: the line under the cursor as far as it is
    /// revealed, then the lines above it in full, top to bottom, then the idle
    /// marker if this is the whole of a page that waits for the reader.
    /// Nothing if the box is not alive or has no such page or line.
    pub open spec fn drawn(self) -> Seq<DrawOp> {
        if !self.alive {
            Seq::empty()
        } else {
            match self.current_page() {
                None => Seq::empty(),
                Some(page) => if self.line < page.lines.len() {
                    let line = page.lines[self.line as int];
                    let shown = if self.partial(page) {
                        line.take(self.revealed() as int)
                    } else {
                        line
                    };
                    let marked = !self.partial(page) && self.line + 1 >= page.lines.len()
                        && page.wait is None;
                    seq![self.row_text(shown, self.line as int)] + Seq::new(
                        self.line,
                        |row: int| self.row_text(page.lines[row], row),
                    ) + if marked {
                        seq![
                            DrawOp::Button {
                                font: self.font,
                                text: line,
                                at: self.row_start(self.line as int, BUTTON_OFFSET as int),
                                lift: self.button.position as int,
                            },
                        ]
                    } else {
                        Seq::empty()
                    }
                } else {
                    Seq::empty()
                },
            }
        }
    }

    /// What holds of a box from the moment it is made, spawned or put away,
    /// as long as pages are not taken from under its cursor and a finished
    /// box is not sent back to the start of a longer message:
    /// a box that has not finished is on a page of its message (on the first,
    /// if there is none); the line cursor is on a line of that page (on the
    /// first, if there is none); a box that waits is on the last line of its
    /// page; a finished box is on the last page or beyond it; and a box that
    /// is still to get its first page is at the start of it.
    pub open spec fn consistent(self) -> bool {
        &&& !self.finished ==> self.page < self.message.pages.len() || self.page == 0
        &&& !self.finished && self.current_page() is None ==> self.line == 0 && !self.waiting
        &&& self.current_page() matches Some(page) ==> self.line < page.lines.len() || self.line
            == 0
        &&& self.current_page() matches Some(page) ==> (self.waiting ==> self.line + 1
            >= page.lines.len())
        &&& self.finished ==> self.page + 1 >= self.message.pages.len()
    }
}

} // verus!
