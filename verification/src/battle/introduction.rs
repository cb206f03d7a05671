//! The introduction of a battle: the opponents are announced, the player's
//! trainer slides out, and the fighters and their status boxes come in.

use vstd::prelude::*;
use vstd::string::StringExecFns;
use crate::fixed::{clamp, saturating_difference, saturating_scale, saturating_sum};
use crate::graphics::{Color, DrawCommand, DrawOp, FinePoint, Rectangle, TextureId};
use crate::gui::message_box::MessageBox;
use crate::gui::sequencer::SequencerState;
use crate::input::{was_pressed, Context, Control};
use crate::text::{MessagePage, PageView};

verus! {

/// The trainer slides by this many thousandths of a pixel per millisecond.
pub const SLIDE_SPEED: u16 = 180;

/// The status boxes come in by this many thousandths of a pixel per
/// millisecond.
pub const STATUS_SPEED: u16 = 240;

/// The trainer raises the arm once slid this far, in thousandths of a pixel.
pub const PLAYER_T1: i64 = 42_000;

/// The trainer throws, and the player's fighters appear.
pub const PLAYER_T2: i64 = 60_000;

/// The trainer has thrown.
pub const PLAYER_T3: i64 = 78_000;

/// The trainer is off the screen.
pub const PLAYER_DESPAWN: i64 = 104_000;

/// How long the page that sends the fighters out stays, in milliseconds.
pub const GO_WAIT: i64 = 500;

/// What the scene reads of the first fighter of a side.
#[derive(Debug, Clone, Copy, PartialEq, Eq, Structural)]
pub struct FighterState {
    /// Whether the fighter is in the middle of its entrance.
    pub spawning: bool,
    /// Whether its status box is shown.
    pub status_alive: bool,
}

/// What the scene asks of the screen for this frame.
#[derive(Debug, Clone, Copy, PartialEq, Eq, Structural)]
pub struct IntroductionActions {
    /// Show the status boxes of the opponents.
    pub spawn_opponent_status: bool,
    /// Carry on with the entrance of the player's fighters.
    pub update_player_spawners: bool,
    /// Start the entrance of the player's fighters and show their status
    /// boxes.
    pub spawn_player: bool,
}

/// The scripted scene.
#[derive(Debug, Clone, Copy, PartialEq, Eq)]
pub struct BasicBattleIntroduction {
    /// The image with the frames of the trainer, one below the other.
    pub player: TextureId,
    /// How far the trainer has slid, in thousandths of a pixel.
    pub counter: i64,
    /// Where the status boxes start from: the opponents' this far to the
    /// left, the player's this far to the right, in thousandths of a pixel.
    pub start: i64,
    /// How far the status boxes of the opponents and of the player still
    /// are from their places.
    pub offsets: (i64, i64),
}

/// What goes between name `index` of `len` and the name before it.
pub open spec fn separator(index: int, len: int) -> Seq<char> {
    if index != 0 && index == len - 2 {
        ", "@
    } else if index != 0 && index == len - 1 {
        " and "@
    } else {
        Seq::empty()
    }
}

/// The first `count` of `names` in one string.
pub open spec fn joined(names: Seq<Seq<char>>, count: int) -> Seq<char>
    decreases count,
{
    if count <= 0 {
        Seq::empty()
    } else {
        joined(names, count - 1) + separator(count - 1, names.len() as int) + names[count - 1]
    }
}

/// The names of a list, each by its characters.
pub open spec fn names_of(names: Seq<String>) -> Seq<Seq<char>> {
    names.map_values(|name: String| name@)
}

/// The page that announces the opponents.
pub open spec fn appeared_page(opponents: Seq<Seq<char>>) -> PageView {
    PageView {
        lines: seq!["Wild "@ + joined(opponents, opponents.len() as int) + " appeared!"@],
        wait: None,
    }
}

/// The page that sends the player's fighters out.
pub open spec fn go_page(fighters: Seq<Seq<char>>) -> PageView {
    PageView {
        lines: seq!["Go! "@ + joined(fighters, fighters.len() as int) + "!"@],
        wait: Some(GO_WAIT),
    }
}

/// An offset on its way to zero from the left after `delta` milliseconds.
pub open spec fn risen(offset: i64, delta: int) -> i64 {
    if offset != 0 {
        let moved = clamp(offset + clamp(delta * STATUS_SPEED));
        if moved > 0 {
            0
        } else {
            moved as i64
        }
    } else {
        0
    }
}

/// An offset on its way to zero from the right after `delta` milliseconds.
pub open spec fn fallen(offset: i64, delta: int) -> i64 {
    if offset != 0 {
        let moved = clamp(offset - clamp(delta * STATUS_SPEED));
        if moved < 0 {
            0
        } else {
            moved as i64
        }
    } else {
        0
    }
}

/// The row of the trainer's image that shows while the trainer has slid
/// by `counter`.
pub open spec fn player_frame(counter: i64) -> int {
    if counter >= PLAYER_T3 {
        256
    } else if counter >= PLAYER_T2 {
        192
    } else if counter >= PLAYER_T1 {
        128
    } else if counter > 0 {
        64
    } else {
        0
    }
}

/// Joins the names of the fighters of one side: "A", "A and B",
/// "A, B and C". Only the last two names of a longer list are set apart.
pub fn concatenate(names: &Vec<String>) -> (string: String)
    ensures
        string@ == joined(names_of(names@), names@.len() as int),
{
    let mut string = String::new();
    let len = names.len();
    let mut index: usize = 0;
    while index < len
        invariant
            index <= len,
            len == names@.len(),
            string@ == joined(names_of(names@), index as int),
        decreases len - index,
    {
        let ghost before = string@;
        if index != 0 {
            if index == len - 2 {
                string.append(", ");
            } else if index == len - 1 {
                string.append(" and ");
            }
        }
        assert(string@ =~= before + separator(index as int, len as int));
        string.append(names[index].as_str());
        assert(names_of(names@)[index as int] == names@[index as int]@);
        index += 1;
    }
    string
}

impl BasicBattleIntroduction {
    /// The scene after one frame in which `before` became the message box,
    /// the first opponent was `opponent` and the player's first fighter was
    /// `fighter` (`None` where a side has none).
    ///
    /// The trainer slides while the message box is on its last page and the
    /// trainer is still on the screen. The status boxes of the opponents move
    /// in once they are shown, or if there is no opponent; those of the
    /// player once they are shown and no fighter is in its entrance, or if
    /// the player has no fighter.
    pub open spec fn stepped(
        self,
        delta: int,
        text: SequencerState,
        opponent: Option<FighterState>,
        fighter: Option<FighterState>,
    ) -> BasicBattleIntroduction {
        let counter = if text.page + 1 == text.message.pages.len() && self.counter
            < PLAYER_DESPAWN {
            clamp(self.counter + clamp(delta * SLIDE_SPEED)) as i64
        } else {
            self.counter
        };
        let first = match opponent {
            Some(state) if !state.status_alive => self.offsets.0,
            _ => risen(self.offsets.0, delta),
        };
        let second = match fighter {
            Some(state) if state.spawning || !state.status_alive => self.offsets.1,
            _ => fallen(self.offsets.1, delta),
        };
        BasicBattleIntroduction { counter, offsets: (first, second), ..self }
    }

    /// What the scene asks for in a frame that leaves it as `self` and
    /// the message box as `text`: the opponents' status boxes once the
    /// message box waits on one of its last two pages; for the player's
    /// fighters, to carry on with their entrance while it runs, and to start
    /// it once the trainer throws.
    pub open spec fn actions(
        self,
        text: SequencerState,
        opponent: Option<FighterState>,
        fighter: Option<FighterState>,
    ) -> IntroductionActions {
        IntroductionActions {
            spawn_opponent_status: opponent matches Some(state) && !state.status_alive
                && text.waiting && text.page + 2 >= text.message.pages.len(),
            update_player_spawners: fighter matches Some(state) && state.spawning,
            spawn_player: fighter matches Some(state) && !state.spawning && !state.status_alive
                && self.counter >= PLAYER_T2,
        }
    }

    /// The message box after the frame: it lives the frame unless it has
    /// nothing left to show.
    pub open spec fn narrated(text: SequencerState, ctx: Context, delta: int) -> SequencerState {
        if text.is_finished() {
            text
        } else {
            text.step(was_pressed(ctx, Control::A), delta)
        }
    }

    /// The command that draws the trainer.
    pub open spec fn player_op(self) -> DrawOp {
        DrawOp::Texture {
            texture: self.player,
            corner: FinePoint { x: clamp(41_000 - self.counter) as i64, y: 49_000 },
            source: Some(
                Rectangle { x: 0, y: player_frame(self.counter) as i64, width: 64, height: 64 },
            ),
            color: Color { r: 255, g: 255, b: 255, a: 255 },
        }
    }

    /// The scene before its first frame. The status boxes start `start`
    /// thousandths of a pixel from their places.
    pub fn new(player: TextureId, start: i64) -> (scene: BasicBattleIntroduction)
        ensures
            scene == (BasicBattleIntroduction {
                player,
                counter: 0,
                start,
                offsets: (clamp(-start) as i64, start),
            }),
    {
        BasicBattleIntroduction {
            player,
            counter: 0,
            start,
            offsets: (saturating_difference(0, start), start),
        }
    }

    /// Appends the page that sends `fighters` out.
    pub fn common_setup(&self, text: &mut MessageBox, fighters: &Vec<String>)
        ensures
            final(text)@ == old(text)@.with_pages(
                old(text)@.message.pages.push(go_page(names_of(fighters@))),
            ),
    {
        let line = String::from_str("Go! ").concat(concatenate(fighters).as_str()).concat("!");
        let mut lines: Vec<String> = Vec::new();
        lines.push(line);
        let page = MessagePage { lines, wait: Some(GO_WAIT) };
        assert(page@.lines =~= go_page(names_of(fighters@)).lines);
        text.push(page);
    }

    /// Gives the message box the two pages of the scene: the opponents are
    /// announced, then the player's fighters are sent out.
    pub fn spawn(&self, fighters: &Vec<String>, opponents: &Vec<String>, text: &mut MessageBox)
        ensures
            final(text)@ == old(text)@.with_pages(
                seq![appeared_page(names_of(opponents@)), go_page(names_of(fighters@))],
            ),
    {
        text.clear();
        let line = String::from_str("Wild ").concat(concatenate(opponents).as_str()).concat(
            " appeared!",
        );
        let mut lines: Vec<String> = Vec::new();
        lines.push(line);
        let page = MessagePage { lines, wait: None };
        assert(page@.lines =~= appeared_page(names_of(opponents@)).lines);
        text.push(page);
        self.common_setup(text, fighters);
        assert(final(text)@.message.pages =~= seq![
            appeared_page(names_of(opponents@)),
            go_page(names_of(fighters@)),
        ]);
    }

    fn offsets0(&mut self, delta: i64)
        ensures
            *final(self) == (BasicBattleIntroduction {
                offsets: (risen(old(self).offsets.0, delta as int), old(self).offsets.1),
                ..*old(self)
            }),
    {
        if self.offsets.0 != 0 {
            self.offsets.0 = saturating_sum(self.offsets.0, saturating_scale(delta, STATUS_SPEED));
            if self.offsets.0 > 0 {
                self.offsets.0 = 0;
            }
        }
    }

    fn offsets1(&mut self, delta: i64)
        ensures
            *final(self) == (BasicBattleIntroduction {
                offsets: (old(self).offsets.0, fallen(old(self).offsets.1, delta as int)),
                ..*old(self)
            }),
    {
        if self.offsets.1 != 0 {
            self.offsets.1 = saturating_difference(
                self.offsets.1,
                saturating_scale(delta, STATUS_SPEED),
            );
            if self.offsets.1 < 0 {
                self.offsets.1 = 0;
            }
        }
    }

    /// Lets one frame of `delta` milliseconds pass and tells what the screen
    /// is to do for its fighters. `opponent` and `fighter` are the first
    /// fighter of each side as the frame finds them.
    pub fn update(
        &mut self,
        ctx: &Context,
        delta: i64,
        fighter: Option<FighterState>,
        opponent: Option<FighterState>,
        text: &mut MessageBox,
    ) -> (actions: IntroductionActions)
        ensures
            final(text)@ == Self::narrated(old(text)@, *ctx, delta as int),
            *final(self) == old(self).stepped(delta as int, final(text)@, opponent, fighter),
            actions == final(self).actions(final(text)@, opponent, fighter),
    {
        if !text.finished() {
            text.update(ctx, delta);
        }
        let pages = text.pages();
        let page = text.page();
        if page < pages && page + 1 == pages && self.counter < PLAYER_DESPAWN {
            self.counter = saturating_sum(self.counter, saturating_scale(delta, SLIDE_SPEED));
        }
        let mut actions = IntroductionActions {
            spawn_opponent_status: false,
            update_player_spawners: false,
            spawn_player: false,
        };
        match opponent {
            Some(state) => {
                if state.status_alive {
                    self.offsets0(delta);
                } else if text.waiting() && (page >= pages || pages - page <= 2) {
                    actions.spawn_opponent_status = true;
                }
            },
            None => {
                self.offsets0(delta);
            },
        }
        match fighter {
            Some(state) => {
                if state.spawning {
                    actions.update_player_spawners = true;
                } else if state.status_alive {
                    self.offsets1(delta);
                } else if self.counter >= PLAYER_T2 {
                    actions.spawn_player = true;
                }
            },
            None => {
                self.offsets1(delta);
            },
        }
        actions
    }

    /// The command that draws the trainer while the trainer is on the
    /// screen. Once it returns `None` the player's fighters are drawn in the
    /// trainer's place.
    pub fn draw_player(&self) -> (command: Option<DrawCommand<'static>>)
        ensures
            self.counter < PLAYER_DESPAWN ==> (command matches Some(c) && c@ == self.player_op()),
            self.counter >= PLAYER_DESPAWN ==> command is None,
    {
        if self.counter < PLAYER_DESPAWN {
            let frame: i64 = if self.counter >= PLAYER_T3 {
                256
            } else if self.counter >= PLAYER_T2 {
                192
            } else if self.counter >= PLAYER_T1 {
                128
            } else if self.counter > 0 {
                64
            } else {
                0
            };
            Some(
                DrawCommand::Texture {
                    texture: self.player,
                    corner: FinePoint { x: saturating_difference(41_000, self.counter), y: 49_000 },
                    source: Some(Rectangle { x: 0, y: frame, width: 64, height: 64 }),
                    color: Color::white(),
                },
            )
        } else {
            None
        }
    }

    /// How far the status boxes of the opponents are drawn from their
    /// places, in thousandths of a pixel.
    pub fn draw_opponent(&self) -> (offset: i64)
        ensures
            offset == self.offsets.0,
    {
        self.offsets.0
    }

    /// Puts the scene back to where a new one starts.
    pub fn reset(&mut self)
        ensures
            *final(self) == (BasicBattleIntroduction {
                counter: 0,
                offsets: (clamp(-old(self).start) as i64, old(self).start),
                ..*old(self)
            }),
    {
        self.counter = 0;
        self.offsets = (saturating_difference(0, self.start), self.start);
    }

    /// Whether the scene is over: the trainer is off the screen and the
    /// player's status boxes are in place.
    pub fn finished(&self) -> (r: bool)
        ensures
            r == (self.counter >= PLAYER_DESPAWN && self.offsets.1 == 0),
    {
        self.counter >= PLAYER_DESPAWN && self.offsets.1 == 0
    }
}

} // verus!
