//! The message box itself.

use vstd::prelude::*;
use vstd::string::StrSliceExecFns;
use crate::fixed::{clamp_wide, exceeds, reaches, saturating_difference, saturating_scale,
    saturating_sum};
use crate::graphics::{ops_of, Color, DrawCommand, FontId, Point};
use crate::gui::sequencer::{whole_characters, Button, SequencerState, BUTTON_BOUND,
    BUTTON_OFFSET, BUTTON_SPEED, CHARACTER, LINE_HEIGHT, REVEAL_RATE};
use crate::input::{pressed, was_pressed, Context, Control};
use crate::text::{pages_of, Message, MessageError, MessagePage};

verus! {

impl Button {
    /// The marker at rest.
    pub fn new() -> (button: Button)
        ensures
            button == Button::rest(),
    {
        Button { position: 0, direction: false }
    }

    /// Moves the marker on by `delta` milliseconds.
    pub fn advance(&mut self, delta: i64)
        ensures
            *final(self) == old(self).bounce(delta as int),
    {
        let travel = saturating_scale(delta, BUTTON_SPEED);
        if self.direction {
            self.position = saturating_sum(self.position, travel);
        } else {
            self.position = saturating_difference(self.position, travel);
        }
        if exceeds(self.position, BUTTON_BOUND) {
            self.direction = !self.direction;
        }
    }
}

/// Whole characters that `accumulator` thousandths stand for.
fn revealed_characters(accumulator: i64) -> (count: u64)
    ensures
        count == whole_characters(accumulator as int),
{
    if accumulator <= 0 {
        0
    } else {
        (accumulator / CHARACTER) as u64
    }
}

/// Shows the pages of a message one after the other, each line revealed
/// from left to right.
#[derive(Debug, Clone, PartialEq, Eq)]
pub struct MessageBox {
    alive: bool,
    origin: Point,
    font: FontId,
    message: Message,
    button: Button,
    page: usize,
    line: usize,
    accumulator: i64,
    waiting: bool,
    finished: bool,
}

impl View for MessageBox {
    type V = SequencerState;

    closed spec fn view(&self) -> SequencerState {
        SequencerState {
            alive: self.alive,
            origin: self.origin,
            font: self.font,
            message: self.message@,
            button: self.button,
            page: self.page as nat,
            line: self.line as nat,
            accumulator: self.accumulator,
            waiting: self.waiting,
            finished: self.finished,
        }
    }
}

impl MessageBox {
    /// A box that writes with `font` from `origin` downwards. It is not alive
    /// and holds no pages.
    pub fn new(origin: Point, font: FontId) -> (created: MessageBox)
        ensures
            created@ == SequencerState::fresh(origin, font),
            created@.consistent(),
    {
        let created = MessageBox {
            alive: false,
            origin,
            font,
            message: Message::default(),
            button: Button::new(),
            page: 0,
            line: 0,
            accumulator: 0,
            waiting: false,
            finished: false,
        };
        assert(created@.message.pages =~= Seq::empty());
        created
    }

    /// Replaces the pages. Progress is left as it is.
    pub fn set(&mut self, pages: Vec<MessagePage>)
        ensures
            final(self)@ == old(self)@.with_pages(pages_of(pages@)),
    {
        self.message.pages = pages;
    }

    /// Appends a page.
    pub fn push(&mut self, page: MessagePage)
        ensures
            final(self)@ == old(self)@.with_pages(old(self)@.message.pages.push(page@)),
            old(self)@.consistent() && !old(self)@.finished ==> final(self)@.consistent(),
    {
        self.message.pages.push(page);
        assert(pages_of(self.message.pages@) =~= pages_of(old(self).message.pages@).push(page@));
    }

    /// Takes out the page at `index`. Where the message has no such page it
    /// is left as it is and the call fails.
    pub fn remove(&mut self, index: usize) -> (result: Result<(), MessageError>)
        ensures
            result is Ok <==> index < old(self)@.message.pages.len(),
            result is Ok ==> final(self)@ == old(self)@.with_pages(
                old(self)@.message.pages.remove(index as int),
            ),
            result is Err ==> result == Err::<(), MessageError>(MessageError::IndexOutOfRange)
                && final(self)@ == old(self)@,
    {
        if index < self.message.pages.len() {
            self.message.pages.remove(index);
            assert(pages_of(self.message.pages@) =~= pages_of(old(self).message.pages@).remove(
                index as int,
            ));
            Ok(())
        } else {
            Err(MessageError::IndexOutOfRange)
        }
    }

    /// Drops all pages.
    pub fn clear(&mut self)
        ensures
            final(self)@ == old(self)@.with_pages(Seq::empty()),
    {
        self.message.pages.clear();
        assert(pages_of(self.message.pages@) =~= Seq::empty());
    }

    /// Sets the colour of the text.
    pub fn color(&mut self, color: Color)
        ensures
            final(self)@ == old(self)@.with_color(color),
    {
        self.message.color = color;
    }

    /// The message as it is held.
    pub fn message(&self) -> (message: &Message)
        ensures
            message@ == self@.message,
    {
        &self.message
    }

    /// The font that the box writes with.
    pub fn font(&self) -> (font: FontId)
        ensures
            font == self@.font,
    {
        self.font
    }

    pub fn is_empty(&self) -> (r: bool)
        ensures
            r == self@.is_empty(),
    {
        self.pages() == 0
    }

    /// Index of the page that is shown.
    pub fn page(&self) -> (index: usize)
        ensures
            index == self@.page,
    {
        self.page
    }

    /// Number of pages of the message.
    pub fn pages(&self) -> (count: usize)
        ensures
            count == self@.message.pages.len(),
    {
        self.message.pages.len()
    }

    /// Whether the page is shown in full and the box holds it.
    pub fn waiting(&self) -> (r: bool)
        ensures
            r == self@.waiting,
    {
        self.waiting
    }

    fn reset_page(&mut self)
        ensures
            final(self)@ == (SequencerState { line: 0, accumulator: 0, ..old(self)@ }),
    {
        self.line = 0;
        self.accumulator = 0;
    }

    /// Lets one frame pass: `delta` milliseconds in which the devices
    /// reported `ctx`. The reader confirms with [`Control::A`].
    pub fn update(&mut self, ctx: &Context, delta: i64)
        ensures
            final(self)@ == old(self)@.step(was_pressed(*ctx, Control::A), delta as int),
            old(self)@.consistent() ==> final(self)@.consistent(),
    {
        if !self.alive {
            return ;
        }
        if self.page >= self.message.pages.len() {
            self.finished = true;
            return ;
        }
        let page = &self.message.pages[self.page];
        let lines = page.lines.len();
        let wait = page.wait;
        if !self.waiting {
            let length: usize = if self.line < lines {
                page.lines[self.line].as_str().unicode_len()
            } else {
                0
            };
            if revealed_characters(self.accumulator) < length as u64 {
                self.accumulator = saturating_sum(
                    self.accumulator,
                    saturating_scale(delta, REVEAL_RATE),
                );
            } else {
                self.accumulator = 0;
                if lines > 0 && self.line < lines - 1 {
                    self.line += 1;
                } else {
                    self.waiting = true;
                }
            }
        } else {
            match wait {
                Some(delay) => {
                    self.accumulator = saturating_sum(self.accumulator, delta);
                    if reaches(self.accumulator, delay) {
                        self.finish_waiting();
                    }
                },
                None => {
                    if pressed(ctx, Control::A) {
                        self.finish_waiting();
                    } else {
                        self.button.advance(delta);
                    }
                },
            }
        }
    }

    fn finish_waiting(&mut self)
        ensures
            final(self)@ == old(self)@.finish_waiting(),
    {
        self.waiting = false;
        if self.page < self.pages() && self.page + 1 < self.pages() {
            self.page += 1;
            self.reset_page();
        } else {
            self.finished = true;
        }
    }

    /// Where row `row` starts, `below` pixels under its top.
    fn row_start(&self, row: usize, below: i64) -> (at: Point)
        ensures
            at == self@.row_start(row as int, below as int),
    {
        Point {
            x: self.origin.x,
            y: clamp_wide(self.origin.y as i128 + LINE_HEIGHT as i128 * row as i128 + below as i128),
        }
    }

    /// What to draw for the box as it stands, in order.
    pub fn draw<'a>(&'a self) -> (commands: Vec<DrawCommand<'a>>)
        ensures
            ops_of(commands@) == self@.drawn(),
    {
        let mut commands: Vec<DrawCommand<'a>> = Vec::new();
        assert(ops_of(commands@) =~= Seq::empty());
        if !self.alive || self.page >= self.message.pages.len() {
            return commands;
        }
        let page = &self.message.pages[self.page];
        let lines = page.lines.len();
        if self.line >= lines {
            return commands;
        }
        let line = page.lines[self.line].as_str();
        let length = line.unicode_len();
        let revealed = revealed_characters(self.accumulator);
        let partial = length as u64 > revealed && !self.waiting;
        let shown = if partial {
            line.substring_char(0, revealed as usize)
        } else {
            line
        };
        commands.push(
            DrawCommand::Text {
                font: self.font,
                text: shown,
                at: self.row_start(self.line, 0),
                color: self.message.color,
            },
        );
        let ghost first = self@.row_text(shown@, self.line as int);
        assert(ops_of(commands@) =~= seq![first]);
        let mut row: usize = 0;
        while row < self.line
            invariant
                row <= self.line < lines,
                lines == page.lines@.len(),
                self.page < self@.message.pages.len(),
                page@ == self@.message.pages[self.page as int],
                ops_of(commands@) =~= seq![first] + Seq::new(
                    row as nat,
                    |r: int| self@.row_text(page@.lines[r], r),
                ),
            decreases self.line - row,
        {
            let ghost before = ops_of(commands@);
            let above = DrawCommand::Text {
                font: self.font,
                text: page.lines[row].as_str(),
                at: self.row_start(row, 0),
                color: self.message.color,
            };
            commands.push(above);
            assert(ops_of(commands@) =~= before.push(above@));
            row += 1;
        }
        if !partial && self.line + 1 >= lines && page.wait.is_none() {
            let ghost before = ops_of(commands@);
            let marker = DrawCommand::Button {
                font: self.font,
                text: line,
                at: self.row_start(self.line, BUTTON_OFFSET),
                lift: self.button.position,
            };
            commands.push(marker);
            assert(ops_of(commands@) =~= before.push(marker@));
        }
        assert(ops_of(commands@) =~= self@.drawn());
        commands
    }

    /// Puts the cursors and the idle marker back at the start of the
    /// message. Whether the box is alive and whether it has finished do not
    /// change.
    pub fn reset(&mut self)
        ensures
            final(self)@ == old(self)@.rewound(),
            !old(self)@.finished ==> final(self)@.consistent(),
    {
        self.page = 0;
        self.reset_page();
        self.waiting = false;
        self.button = Button::new();
    }

    /// Whether nothing is left to show.
    pub fn finished(&self) -> (r: bool)
        ensures
            r == self@.is_finished(),
    {
        self.finished || self.is_empty()
    }

    /// Brings the box to life at the start of its message.
    pub fn spawn(&mut self)
        ensures
            final(self)@ == old(self)@.spawned(),
            final(self)@.consistent(),
            old(self)@.is_empty() ==> final(self)@.is_finished(),
    {
        self.alive = true;
        self.finished = false;
        self.reset();
    }

    /// Puts the box away and drops its pages.
    pub fn despawn(&mut self)
        ensures
            final(self)@ == old(self)@.despawned(),
            final(self)@.consistent(),
    {
        self.alive = false;
        self.finished = false;
        self.reset();
        self.clear();
    }

    pub fn alive(&self) -> (r: bool)
        ensures
            r == self@.alive,
    {
        self.alive
    }
}

impl Default for MessageBox {
    /// A box at the top left corner that writes with the first font.
    fn default() -> (created: MessageBox)
        ensures
            created@ == SequencerState::fresh(Point { x: 0, y: 0 }, 0),
    {
        MessageBox::new(Point::default(), 0)
    }
}

} // verus!
