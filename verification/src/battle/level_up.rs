//! Teaching new moves after a level was gained.
//!
//! For each move on offer the panel first announces it in the message box
//! and then lets the player pick the slot it goes to, or decline.

use vstd::prelude::*;
use vstd::string::StringExecFns;
use crate::battle::moves::{labels, move_cursor_after, shows, KnownMove, MoveLabel, MovePanel};
use crate::graphics::{ops_of, Color, DrawCommand, DrawOp};
use crate::gui::message_box::MessageBox;
use crate::gui::sequencer::SequencerState;
use crate::input::{pressed, was_pressed, Context, Control};
use crate::text::{MessagePage, PageView};

verus! {

/// A move that the fighter may learn. `id` is handed back to the caller
/// when the move is taken; the panel itself reads only the name.
#[derive(Debug, Clone, PartialEq, Eq)]
pub struct MoveOffer<M> {
    pub id: M,
    pub name: String,
}

/// What the panel is doing.
#[derive(Debug, Clone, Copy, PartialEq, Eq, Structural)]
pub enum LevelUpState {
    /// Nothing.
    NotAlive,
    /// The message box announces the next move.
    Text,
    /// The player picks a slot.
    Moves,
}

/// Offers moves one after the other.
#[derive(Debug, Clone, PartialEq, Eq)]
pub struct LevelUpMovePanel<M> {
    pub state: LevelUpState,
    pub move_panel: MovePanel,
    /// The moves still on offer, the next one first.
    pub moves: Vec<MoveOffer<M>>,
}

/// The page that announces that `pokemon` may learn `name`.
pub open spec fn announcement(pokemon: Seq<char>, name: Seq<char>) -> PageView {
    PageView { lines: seq![pokemon + " is trying to"@, "learn "@ + name], wait: None }
}

/// The message box after a frame of the announcement: it lives the frame,
/// and is put away once nothing is left to show.
pub open spec fn announced(text: SequencerState, ctx: Context, delta: int) -> SequencerState {
    let next = text.step(was_pressed(ctx, Control::A), delta);
    if next.is_finished() {
        next.despawned()
    } else {
        next
    }
}

/// The message box as the panel starts it for the next move on offer.
pub open spec fn started(text: SequencerState, pokemon: Seq<char>, name: Seq<char>)
    -> SequencerState {
    text.spawned().with_pages(text.message.pages.push(announcement(pokemon, name)))
}

impl<M> LevelUpMovePanel<M> {
    /// A panel that does nothing yet.
    pub fn new() -> (panel: LevelUpMovePanel<M>)
        ensures
            panel.state == LevelUpState::NotAlive,
            panel.moves@.len() == 0,
            panel.move_panel.cursor == 0,
            forall|slot: int| 0 <= slot < 4 ==> panel.move_panel.names@[slot] is None,
    {
        LevelUpMovePanel {
            state: LevelUpState::NotAlive,
            move_panel: MovePanel::new(),
            moves: Vec::new(),
        }
    }

    /// Starts to offer `moves` to a fighter that knows `known`, and puts the
    /// message box away so that the first announcement finds it free.
    pub fn spawn(
        &mut self,
        known: &Vec<KnownMove>,
        text: &mut MessageBox,
        moves: Vec<MoveOffer<M>>,
    )
        ensures
            final(self).state == LevelUpState::Text,
            final(self).moves == moves,
            final(self).move_panel.cursor == old(self).move_panel.cursor,
            forall|slot: int|
                0 <= slot < 4 && slot < known@.len() ==> labels(
                    #[trigger] final(self).move_panel.names@[slot],
                    known@[slot],
                ),
            forall|slot: int|
                0 <= slot < 4 && slot >= known@.len() ==> (#[trigger] final(
                    self
                ).move_panel.names@[slot]) == old(self).move_panel.names@[slot],
            final(text)@ == old(text)@.despawned(),
    {
        self.state = LevelUpState::Text;
        self.moves = moves;
        self.move_panel.update_names(known);
        text.despawn();
    }

    /// One frame of the announcement.
    fn announce(&mut self, ctx: &Context, text: &mut MessageBox, delta: i64)
        ensures
            final(text)@ == announced(old(text)@, *ctx, delta as int),
            final(self).state == if old(text)@.step(
                was_pressed(*ctx, Control::A),
                delta as int,
            ).is_finished() {
                LevelUpState::Moves
            } else {
                old(self).state
            },
            final(self).moves == old(self).moves,
            final(self).move_panel == old(self).move_panel,
    {
        text.update(ctx, delta);
        if text.finished() {
            self.state = LevelUpState::Moves;
            text.despawn();
        }
    }

    /// A frame in which the panel announces: `text` becomes `shown` and the
    /// panel `self` becomes `after`. A message box that is alive lives the
    /// frame, and once it has nothing left to show it is put away and the
    /// player is asked. A message box that is not alive is started with the
    /// announcement of the next move and lives the frame; if no move is left,
    /// the panel is done.
    pub open spec fn announces(
        self,
        after: Self,
        text: SequencerState,
        shown: SequencerState,
        ctx: Context,
        delta: int,
        pokemon: Seq<char>,
    ) -> bool {
        let confirm = was_pressed(ctx, Control::A);
        &&& after.moves == self.moves
        &&& after.move_panel == self.move_panel
        &&& if text.alive {
            &&& shown == announced(text, ctx, delta)
            &&& after.state == if text.step(confirm, delta).is_finished() {
                LevelUpState::Moves
            } else {
                LevelUpState::Text
            }
        } else if self.moves@.len() == 0 {
            &&& shown == text
            &&& after.state == LevelUpState::NotAlive
        } else {
            let begun = started(text, pokemon, self.moves@[0].name@);
            &&& shown == announced(begun, ctx, delta)
            &&& after.state == if begun.step(confirm, delta).is_finished() {
                LevelUpState::Moves
            } else {
                LevelUpState::Text
            }
        }
    }

    /// A frame in which the player is asked: the panel `self` becomes
    /// `after` and `taken` is returned. The cursor follows the directions.
    /// A or B ends the question, and the move on offer leaves the list; with
    /// A it goes into the slot under the cursor, if that is one of the four,
    /// and is returned with the cursor; with B alone it is dropped.
    pub open spec fn asks(self, after: Self, ctx: Context, taken: Option<(usize, M)>) -> bool {
        let a = was_pressed(ctx, Control::A);
        let b = was_pressed(ctx, Control::B);
        let cursor = move_cursor_after(self.move_panel.cursor, ctx);
        &&& after.move_panel.cursor == cursor
        &&& if !a && !b {
            &&& after.state == LevelUpState::Moves
            &&& after.moves == self.moves
            &&& after.move_panel.names == self.move_panel.names
            &&& taken is None
        } else {
            &&& after.state == LevelUpState::Text
            &&& after.moves@ == if self.moves@.len() > 0 {
                self.moves@.skip(1)
            } else {
                self.moves@
            }
            &&& if a && self.moves@.len() > 0 {
                &&& taken == Some((cursor, self.moves@[0].id))
                &&& forall|slot: int|
                    0 <= slot < 4 && slot != cursor ==> #[trigger] after.move_panel.names@[slot]
                        == self.move_panel.names@[slot]
                &&& cursor < 4 ==> shows(
                    after.move_panel.names@[cursor as int],
                    self.moves@[0].name@,
                    Color { r: 0, g: 0, b: 0, a: 255 },
                )
            } else {
                &&& taken is None
                &&& after.move_panel.names == self.move_panel.names
            }
        }
    }

    /// Lets one frame pass for a fighter called `pokemon`, and returns the
    /// slot and the move if the player took one in it. A panel that is not
    /// at work does nothing.
    pub fn update(
        &mut self,
        ctx: &Context,
        text: &mut MessageBox,
        delta: i64,
        pokemon: &str,
    ) -> (taken: Option<(usize, M)>)
        ensures
            match old(self).state {
                LevelUpState::NotAlive => {
                    &&& taken is None
                    &&& *final(self) == *old(self)
                    &&& final(text)@ == old(text)@
                },
                LevelUpState::Text => {
                    &&& taken is None
                    &&& old(self).announces(
                        *final(self),
                        old(text)@,
                        final(text)@,
                        *ctx,
                        delta as int,
                        pokemon@,
                    )
                },
                LevelUpState::Moves => {
                    &&& final(text)@ == old(text)@
                    &&& old(self).asks(*final(self), *ctx, taken)
                },
            },
    {
        match self.state {
            LevelUpState::Text => {
                if !text.alive() {
                    if self.moves.len() == 0 {
                        self.state = LevelUpState::NotAlive;
                        return None;
                    }
                    text.spawn();
                    let first = String::from_str(pokemon).concat(" is trying to");
                    let second = String::from_str("learn ").concat(self.moves[0].name.as_str());
                    let mut lines: Vec<String> = Vec::new();
                    lines.push(first);
                    lines.push(second);
                    let page = MessagePage { lines, wait: None };
                    assert(page@.lines =~= announcement(pokemon@, self.moves@[0].name@).lines);
                    text.push(page);
                }
                self.announce(ctx, text, delta);
                None
            },
            LevelUpState::Moves => {
                self.move_panel.input(ctx);
                let a = pressed(ctx, Control::A);
                if pressed(ctx, Control::B) || a {
                    self.state = LevelUpState::Text;
                    if self.moves.len() > 0 {
                        let offer = self.moves.remove(0);
                        assert(self.moves@ =~= old(self).moves@.skip(1));
                        if a {
                            let cursor = self.move_panel.cursor;
                            if cursor < 4 {
                                self.move_panel.names[cursor] = Some(
                                    MoveLabel { name: offer.name, color: Color::black() },
                                );
                            }
                            return Some((cursor, offer.id));
                        }
                    }
                }
                None
            },
            LevelUpState::NotAlive => None,
        }
    }

    /// What to draw: the menu of moves while the player is asked, nothing
    /// otherwise.
    pub fn draw<'a>(&'a self) -> (commands: Vec<DrawCommand<'a>>)
        ensures
            ops_of(commands@) == (if self.state == LevelUpState::Moves {
                self.move_panel.drawn()
            } else {
                Seq::<DrawOp>::empty()
            }),
    {
        match self.state {
            LevelUpState::Moves => self.move_panel.draw(),
            LevelUpState::Text | LevelUpState::NotAlive => {
                let commands: Vec<DrawCommand<'a>> = Vec::new();
                assert(ops_of(commands@) =~= Seq::<DrawOp>::empty());
                commands
            },
        }
    }

    /// Whether the panel is at work.
    pub fn alive(&self) -> (r: bool)
        ensures
            r == (self.state != LevelUpState::NotAlive),
    {
        !matches!(self.state, LevelUpState::NotAlive)
    }
}

} // verus!
