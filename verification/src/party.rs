//! The small menu that opens on a member of the party.

use vstd::prelude::*;
use crate::fixed::{clamp, clamp_wide};
use crate::graphics::{ops_of, Color, DrawCommand, DrawOp, FinePoint, Point, TextureId};
use crate::input::{pressed, was_pressed, Context, Control};

verus! {

/// What the player asked for.
#[derive(Debug, Clone, Copy, PartialEq, Eq, Structural)]
pub enum PartySelectAction {
    Select,
    Summary,
}

/// A column of entries with a cursor. Which entries it has depends on
/// where it was opened: in the world or in a battle.
#[derive(Debug, Clone, Copy, PartialEq, Eq, Structural)]
pub struct PartySelectMenu {
    pub alive: bool,
    /// The image behind the entries.
    pub background: TextureId,
    pub cursor: usize,
    /// Whether the menu was opened in the world; `None` while it has not
    /// been opened at all.
    pub is_world: Option<bool>,
}

/// Number of entries of the menu.
pub open spec fn entries(is_world: bool) -> int {
    if is_world {
        4
    } else {
        3
    }
}

/// The text of entry `index`; empty behind the last entry.
pub open spec fn entry_text(is_world: bool, index: int) -> Seq<char> {
    if is_world {
        if index == 0 {
            "Summary"@
        } else if index == 1 {
            "Switch"@
        } else if index == 2 {
            "Item"@
        } else if index == 3 {
            "Cancel"@
        } else {
            ""@
        }
    } else {
        if index == 0 {
            "Shift"@
        } else if index == 1 {
            "Summary"@
        } else if index == 2 {
            "Cancel"@
        } else {
            ""@
        }
    }
}

/// Where the cursor goes from `cursor`: down while it is on an entry, else
/// up while it is not on the first. Down wins where both are pressed.
pub open spec fn select_cursor_after(cursor: usize, is_world: bool, ctx: Context) -> usize {
    if was_pressed(ctx, Control::Down) && cursor < entries(is_world) {
        (cursor + 1) as usize
    } else if was_pressed(ctx, Control::Up) && cursor > 0 {
        (cursor - 1) as usize
    } else {
        cursor
    }
}

/// What confirming the entry under `cursor` asks for.
pub open spec fn chosen(is_world: bool, cursor: usize) -> Option<PartySelectAction> {
    if is_world {
        if cursor == 0 {
            Some(PartySelectAction::Summary)
        } else if cursor == 1 {
            Some(PartySelectAction::Select)
        } else {
            None
        }
    } else {
        if cursor == 0 {
            Some(PartySelectAction::Select)
        } else if cursor == 1 {
            Some(PartySelectAction::Summary)
        } else {
            None
        }
    }
}

/// Whether the entry under `cursor` is the one that closes the menu.
pub open spec fn cancels(is_world: bool, cursor: usize) -> bool {
    cursor == entries(is_world) - 1
}

/// The command that writes entry `index`.
pub open spec fn entry_op(is_world: bool, index: int) -> DrawOp {
    DrawOp::Text {
        font: 1,
        text: entry_text(is_world, index),
        at: Point { x: 161, y: (93 + 16 * index) as i64 },
        color: Color { r: 0, g: 0, b: 0, a: 255 },
    }
}

fn entry_label(is_world: bool, index: usize) -> (label: &'static str)
    ensures
        label@ == entry_text(is_world, index as int),
{
    if is_world {
        if index == 0 {
            "Summary"
        } else if index == 1 {
            "Switch"
        } else if index == 2 {
            "Item"
        } else if index == 3 {
            "Cancel"
        } else {
            ""
        }
    } else {
        if index == 0 {
            "Shift"
        } else if index == 1 {
            "Summary"
        } else if index == 2 {
            "Cancel"
        } else {
            ""
        }
    }
}

impl PartySelectMenu {
    /// What the menu shows once it is open and alive: its background, the
    /// cursor in the row it is on, and the entries top to bottom. Nothing
    /// otherwise.
    pub open spec fn drawn(self) -> Seq<DrawOp> {
        match self.is_world {
            Some(is_world) if self.alive => seq![
                DrawOp::Texture {
                    texture: self.background,
                    corner: FinePoint { x: 146_000, y: 83_000 },
                    source: None,
                    color: Color { r: 255, g: 255, b: 255, a: 255 },
                },
                DrawOp::Cursor { at: Point { x: 154, y: clamp(94 + 16 * self.cursor) as i64 } },
            ] + Seq::new(entries(is_world) as nat, |index: int| entry_op(is_world, index)),
            _ => Seq::empty(),
        }
    }

    /// A menu that has not been opened.
    pub fn new(background: TextureId) -> (menu: PartySelectMenu)
        ensures
            menu == (PartySelectMenu { alive: false, background, cursor: 0, is_world: None }),
    {
        PartySelectMenu { alive: false, background, cursor: 0, is_world: None }
    }

    /// Reads one frame of input. A menu that has not been opened ignores
    /// it. Otherwise the cursor moves first; B closes the menu; A asks for
    /// what the entry under the cursor stands for, and closes the menu where
    /// that is the last entry.
    pub fn input(&mut self, ctx: &Context) -> (action: Option<PartySelectAction>)
        ensures
            final(self).background == old(self).background,
            final(self).is_world == old(self).is_world,
            old(self).is_world is None ==> action is None && *final(self) == *old(self),
            old(self).is_world matches Some(is_world) ==> {
                let cursor = select_cursor_after(old(self).cursor, is_world, *ctx);
                let a = was_pressed(*ctx, Control::A);
                &&& final(self).cursor == cursor
                &&& action == if a {
                    chosen(is_world, cursor)
                } else {
                    None
                }
                &&& final(self).alive == (old(self).alive && !was_pressed(*ctx, Control::B) && !(a
                    && cancels(is_world, cursor)))
            },
    {
        match self.is_world {
            Some(is_world) => {
                let cursor = self.cursor;
                let last: usize = if is_world {
                    3
                } else {
                    2
                };
                if pressed(ctx, Control::Up) && cursor > 0 {
                    self.cursor = cursor - 1;
                }
                if pressed(ctx, Control::Down) && cursor <= last {
                    self.cursor = cursor + 1;
                }
                if pressed(ctx, Control::B) {
                    self.alive = false;
                }
                if pressed(ctx, Control::A) {
                    let cursor = self.cursor;
                    if cursor == last {
                        self.alive = false;
                        None
                    } else if cursor == 0 {
                        if is_world {
                            Some(PartySelectAction::Summary)
                        } else {
                            Some(PartySelectAction::Select)
                        }
                    } else if cursor == 1 {
                        if is_world {
                            Some(PartySelectAction::Select)
                        } else {
                            Some(PartySelectAction::Summary)
                        }
                    } else {
                        None
                    }
                } else {
                    None
                }
            },
            None => None,
        }
    }

    /// What to draw for the menu, in order.
    pub fn draw(&self) -> (commands: Vec<DrawCommand<'static>>)
        ensures
            ops_of(commands@) == self.drawn(),
    {
        let mut commands: Vec<DrawCommand<'static>> = Vec::new();
        assert(ops_of(commands@) =~= Seq::<DrawOp>::empty());
        if !self.alive {
            return commands;
        }
        match self.is_world {
            Some(is_world) => {
                let background = DrawCommand::Texture {
                    texture: self.background,
                    corner: FinePoint { x: 146_000, y: 83_000 },
                    source: None,
                    color: Color::white(),
                };
                commands.push(background);
                let cursor = DrawCommand::Cursor {
                    at: Point::new(154, clamp_wide(94 + 16 * (self.cursor as i128))),
                };
                commands.push(cursor);
                let ghost head = ops_of(commands@);
                assert(head =~= seq![background@, cursor@]);
                let count: usize = if is_world {
                    4
                } else {
                    3
                };
                let mut index: usize = 0;
                while index < count
                    invariant
                        index <= count <= 4,
                        count == entries(is_world),
                        ops_of(commands@) =~= head + Seq::new(
                            index as nat,
                            |i: int| entry_op(is_world, i),
                        ),
                    decreases count - index,
                {
                    let ghost before = ops_of(commands@);
                    let entry = DrawCommand::Text {
                        font: 1,
                        text: entry_label(is_world, index),
                        at: Point::new(161, 93 + 16 * (index as i64)),
                        color: Color::black(),
                    };
                    commands.push(entry);
                    assert(ops_of(commands@) =~= before.push(entry@));
                    index += 1;
                }
                commands
            },
            None => commands,
        }
    }

    /// Opens a closed menu and closes an open one; either way the cursor
    /// goes back to the first entry.
    pub fn toggle(&mut self)
        ensures
            *final(self) == (PartySelectMenu { alive: !old(self).alive, cursor: 0, ..*old(self) }),
    {
        self.alive = !self.alive;
        self.reset();
    }

    /// Puts the cursor on the first entry.
    pub fn reset(&mut self)
        ensures
            *final(self) == (PartySelectMenu { cursor: 0, ..*old(self) }),
    {
        self.cursor = 0;
    }
}

} // verus!
