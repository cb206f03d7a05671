//! The menu of a fighter's moves.

use vstd::prelude::*;
use crate::battle::options::{column_offset, column_shift, row_offset, row_shift};
use crate::graphics::{ops_of, Color, DrawCommand, DrawOp, Point};
use crate::input::{pressed, was_pressed, Context, Control};

verus! {

/// A move as its owner knows it.
#[derive(Debug, Clone, PartialEq, Eq)]
pub struct KnownMove {
    pub name: String,
    /// Uses that are left.
    pub pp: u8,
}

/// An entry of the menu.
#[derive(Debug, Clone, PartialEq, Eq)]
pub struct MoveLabel {
    pub name: String,
    pub color: Color,
}

/// Up to four moves in a two by two grid.
#[derive(Debug, Clone, PartialEq, Eq)]
pub struct MovePanel {
    /// The entry under the cursor, counted over the entries that are shown.
    pub cursor: usize,
    pub names: [Option<MoveLabel>; 4],
}

/// The colour of a move's name: red once no use is left, black before.
pub open spec fn label_color(pp: u8) -> Color {
    if pp == 0 {
        Color { r: 230, g: 41, b: 55, a: 255 }
    } else {
        Color { r: 0, g: 0, b: 0, a: 255 }
    }
}

/// Whether `label` is an entry that reads `name` in `color`.
pub open spec fn shows(label: Option<MoveLabel>, name: Seq<char>, color: Color) -> bool {
    label matches Some(l) && l.name@ == name && l.color == color
}

/// Whether `label` is what the menu shows for `known`.
pub open spec fn labels(label: Option<MoveLabel>, known: KnownMove) -> bool {
    shows(label, known.name@, label_color(known.pp))
}

/// Where a direction takes the cursor from `cursor`, and whether it moved.
/// Only the first of up, down, left, right that is pressed counts, also
/// where the cursor cannot follow it.
pub open spec fn directed(cursor: usize, ctx: Context) -> (usize, bool) {
    if was_pressed(ctx, Control::Up) {
        if cursor >= 2 {
            ((cursor - 2) as usize, true)
        } else {
            (cursor, false)
        }
    } else if was_pressed(ctx, Control::Down) {
        if cursor <= 2 {
            ((cursor + 2) as usize, true)
        } else {
            (cursor, false)
        }
    } else if was_pressed(ctx, Control::Left) {
        if cursor > 0 {
            ((cursor - 1) as usize, true)
        } else {
            (cursor, false)
        }
    } else if was_pressed(ctx, Control::Right) {
        if cursor < 3 {
            ((cursor + 1) as usize, true)
        } else {
            (cursor, false)
        }
    } else {
        (cursor, false)
    }
}

/// The cursor after the input of `ctx`: where the direction takes it, but
/// never beyond the fourth entry once it has moved.
pub open spec fn move_cursor_after(cursor: usize, ctx: Context) -> usize {
    let (target, moved) = directed(cursor, ctx);
    if moved && target >= 4 {
        3
    } else {
        target
    }
}

/// The entries that are filled, in the order of their slots.
pub open spec fn present(names: Seq<Option<MoveLabel>>) -> Seq<MoveLabel>
    decreases names.len(),
{
    if names.len() == 0 {
        Seq::empty()
    } else {
        match names.last() {
            Some(label) => present(names.drop_last()).push(label),
            None => present(names.drop_last()),
        }
    }
}

/// What is drawn for the entry shown in grid cell `index`: its name, and
/// the cursor before it if the cursor is on it.
pub open spec fn entry_ops(label: MoveLabel, index: int, cursor: int) -> Seq<DrawOp> {
    let x = column_shift(index, 72);
    let y = row_shift(index, 17);
    let name = DrawOp::Text {
        font: 0,
        text: label.name@,
        at: Point { x: (16 + x) as i64, y: (121 + y) as i64 },
        color: label.color,
    };
    if index == cursor {
        seq![name, DrawOp::Cursor { at: Point { x: (10 + x) as i64, y: (123 + y) as i64 } }]
    } else {
        seq![name]
    }
}

/// What is drawn for `entries`, the first in the first cell.
pub open spec fn entries_ops(entries: Seq<MoveLabel>, cursor: int) -> Seq<DrawOp>
    decreases entries.len(),
{
    if entries.len() == 0 {
        Seq::empty()
    } else {
        entries_ops(entries.drop_last(), cursor) + entry_ops(
            entries.last(),
            entries.len() - 1,
            cursor,
        )
    }
}

impl MovePanel {
    /// What the menu shows: its box, then the filled entries cell by cell.
    pub open spec fn drawn(self) -> Seq<DrawOp> {
        seq![DrawOp::Panel { at: Point { x: 0, y: 113 }, width: 160, height: 47 }] + entries_ops(
            present(self.names@),
            self.cursor as int,
        )
    }

    /// An empty menu with the cursor on the first entry.
    pub fn new() -> (panel: MovePanel)
        ensures
            panel.cursor == 0,
            forall|slot: int| 0 <= slot < 4 ==> panel.names@[slot] is None,
    {
        MovePanel { cursor: 0, names: [None, None, None, None] }
    }

    /// Fills the slots from `moves`, first move first. Slots for which
    /// there is no move keep what they held; moves behind the fourth have no
    /// slot and are left out.
    pub fn update_names(&mut self, moves: &Vec<KnownMove>)
        ensures
            final(self).cursor == old(self).cursor,
            forall|slot: int|
                0 <= slot < 4 && slot < moves@.len() ==> labels(
                    #[trigger] final(self).names@[slot],
                    moves@[slot],
                ),
            forall|slot: int|
                0 <= slot < 4 && slot >= moves@.len() ==> #[trigger] final(self).names@[slot]
                    == old(self).names@[slot],
    {
        let mut index: usize = 0;
        while index < 4 && index < moves.len()
            invariant
                index <= 4,
                index <= moves@.len(),
                self.cursor == old(self).cursor,
                forall|slot: int|
                    0 <= slot < index ==> labels(#[trigger] self.names@[slot], moves@[slot]),
                forall|slot: int|
                    index <= slot < 4 ==> #[trigger] self.names@[slot] == old(self).names@[slot],
            decreases 4 - index,
        {
            let known = &moves[index];
            let color = if known.pp == 0 {
                Color::red()
            } else {
                Color::black()
            };
            self.names[index] = Some(MoveLabel { name: known.name.clone(), color });
            index += 1;
        }
    }

    /// Moves the cursor as the direction pressed in this frame says, and
    /// tells whether it moved.
    pub fn input(&mut self, ctx: &Context) -> (moved: bool)
        ensures
            moved == directed(old(self).cursor, *ctx).1,
            final(self).cursor == move_cursor_after(old(self).cursor, *ctx),
            final(self).names == old(self).names,
    {
        let moved = if pressed(ctx, Control::Up) {
            if self.cursor >= 2 {
                self.cursor -= 2;
                true
            } else {
                false
            }
        } else if pressed(ctx, Control::Down) {
            if self.cursor <= 2 {
                self.cursor += 2;
                true
            } else {
                false
            }
        } else if pressed(ctx, Control::Left) {
            if self.cursor > 0 {
                self.cursor -= 1;
                true
            } else {
                false
            }
        } else if pressed(ctx, Control::Right) {
            if self.cursor < 3 {
                self.cursor += 1;
                true
            } else {
                false
            }
        } else {
            false
        };
        if moved {
            if self.cursor >= 4 {
                self.cursor = 3;
            }
            true
        } else {
            false
        }
    }

    /// What to draw for the menu, in order.
    pub fn draw<'a>(&'a self) -> (commands: Vec<DrawCommand<'a>>)
        ensures
            ops_of(commands@) == self.drawn(),
    {
        let mut commands: Vec<DrawCommand<'a>> = Vec::new();
        commands.push(DrawCommand::Panel { at: Point::new(0, 113), width: 160, height: 47 });
        let ghost frame = ops_of(commands@);
        assert(frame =~= seq![
            DrawOp::Panel { at: Point { x: 0, y: 113 }, width: 160, height: 47 },
        ]);
        let mut slot: usize = 0;
        let mut index: usize = 0;
        assert(self.names@.take(0) =~= Seq::empty());
        while slot < 4
            invariant
                slot <= 4,
                index <= slot,
                index == present(self.names@.take(slot as int)).len(),
                ops_of(commands@) =~= frame + entries_ops(
                    present(self.names@.take(slot as int)),
                    self.cursor as int,
                ),
            decreases 4 - slot,
        {
            let ghost before = ops_of(commands@);
            let ghost filled = present(self.names@.take(slot as int));
            assert(self.names@.take(slot + 1).drop_last() =~= self.names@.take(slot as int));
            assert(self.names@.take(slot + 1).last() == self.names@[slot as int]);
            match &self.names[slot] {
                Some(label) => {
                    assert(present(self.names@.take(slot + 1)) == filled.push(*label));
                    assert(filled.push(*label).drop_last() =~= filled);
                    let x = column_offset(index, 72);
                    let y = row_offset(index, 17);
                    let name = DrawCommand::Text {
                        font: 0,
                        text: label.name.as_str(),
                        at: Point::new(16 + x, 121 + y),
                        color: label.color,
                    };
                    commands.push(name);
                    assert(ops_of(commands@) =~= before.push(name@));
                    if index == self.cursor {
                        let cursor = DrawCommand::Cursor { at: Point::new(10 + x, 123 + y) };
                        commands.push(cursor);
                        assert(ops_of(commands@) =~= before.push(name@).push(cursor@));
                    }
                    assert(ops_of(commands@) =~= before + entry_ops(
                        *label,
                        index as int,
                        self.cursor as int,
                    ));
                    index += 1;
                },
                None => {
                    assert(present(self.names@.take(slot + 1)) == filled);
                },
            }
            slot += 1;
        }
        assert(self.names@.take(4) =~= self.names@);
        commands
    }
}

} // verus!
