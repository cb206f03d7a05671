//! The menu that asks what the fighter should do.

use vstd::prelude::*;
use vstd::string::StringExecFns;
use crate::graphics::{ops_of, Color, DrawCommand, DrawOp, Point};
use crate::input::{pressed, was_pressed, Context, Control};

verus! {

/// The four choices of a turn in a two by two grid, and the question above
/// them.
#[derive(Debug, Clone, PartialEq, Eq)]
pub struct BattleOptions {
    /// Second line of the question: the fighter's name and " do?".
    pub pokemon_do: String,
    /// The choice under the cursor: row by row, two to a row.
    pub cursor: usize,
}

/// The label of choice `index`; empty for an index beyond the four.
pub open spec fn button_text(index: int) -> Seq<char> {
    if index == 0 {
        "FIGHT"@
    } else if index == 1 {
        "BAG"@
    } else if index == 2 {
        "POKEMON"@
    } else if index == 3 {
        "RUN"@
    } else {
        ""@
    }
}

/// Where the cursor goes from `cursor` on the input of `ctx`. Of several
/// directions pressed at once the first of up, down, left, right that can
/// move the cursor does.
pub open spec fn option_cursor_after(cursor: usize, ctx: Context) -> usize {
    if was_pressed(ctx, Control::Up) && cursor >= 2 {
        (cursor - 2) as usize
    } else if was_pressed(ctx, Control::Down) && cursor <= 2 {
        (cursor + 2) as usize
    } else if was_pressed(ctx, Control::Left) && cursor > 0 {
        (cursor - 1) as usize
    } else if was_pressed(ctx, Control::Right) && cursor < 3 {
        (cursor + 1) as usize
    } else {
        cursor
    }
}

/// Horizontal shift of grid cell `index`: the right column lies `step` to
/// the right.
pub open spec fn column_shift(index: int, step: int) -> int {
    if index % 2 == 0 {
        0
    } else {
        step
    }
}

/// Vertical shift of grid cell `index`: everything behind the first row
/// lies `step` lower.
pub open spec fn row_shift(index: int, step: int) -> int {
    if index / 2 == 0 {
        0
    } else {
        step
    }
}

/// The command that writes the label of choice `index`.
pub open spec fn button_op(index: int) -> DrawOp {
    DrawOp::Text {
        font: 0,
        text: button_text(index),
        at: Point {
            x: (138 + column_shift(index, 56)) as i64,
            y: (123 + row_shift(index, 16)) as i64,
        },
        color: Color { r: 0, g: 0, b: 0, a: 255 },
    }
}

fn button_label(index: usize) -> (label: &'static str)
    ensures
        label@ == button_text(index as int),
{
    if index == 0 {
        "FIGHT"
    } else if index == 1 {
        "BAG"
    } else if index == 2 {
        "POKEMON"
    } else if index == 3 {
        "RUN"
    } else {
        ""
    }
}

pub(crate) fn column_offset(index: usize, step: i64) -> (shift: i64)
    ensures
        shift == column_shift(index as int, step as int),
{
    if index % 2 == 0 {
        0
    } else {
        step
    }
}

pub(crate) fn row_offset(index: usize, step: i64) -> (shift: i64)
    ensures
        shift == row_shift(index as int, step as int),
{
    if index / 2 == 0 {
        0
    } else {
        step
    }
}

impl BattleOptions {
    /// What the menu shows: its box, the question in two lines, the four
    /// labels, and the cursor beside the choice it is on.
    pub open spec fn drawn(self) -> Seq<DrawOp> {
        seq![
            DrawOp::Panel { at: Point { x: 120, y: 113 }, width: 120, height: 47 },
            DrawOp::Text {
                font: 1,
                text: "What will"@,
                at: Point { x: 11, y: 123 },
                color: Color { r: 255, g: 255, b: 255, a: 255 },
            },
            DrawOp::Text {
                font: 1,
                text: self.pokemon_do@,
                at: Point { x: 11, y: 139 },
                color: Color { r: 255, g: 255, b: 255, a: 255 },
            },
            button_op(0),
            button_op(1),
            button_op(2),
            button_op(3),
            DrawOp::Cursor {
                at: Point {
                    x: (131 + column_shift(self.cursor as int, 56)) as i64,
                    y: (126 + row_shift(self.cursor as int, 16)) as i64,
                },
            },
        ]
    }

    /// The menu with the cursor on the first choice and no name yet.
    pub fn new() -> (options: BattleOptions)
        ensures
            options.cursor == 0,
            options.pokemon_do@ == Seq::<char>::empty(),
    {
        BattleOptions { pokemon_do: String::new(), cursor: 0 }
    }

    /// Puts the name of the fighter whose turn it is into the question.
    pub fn setup(&mut self, name: &str)
        ensures
            final(self).pokemon_do@ == name@ + " do?"@,
            final(self).cursor == old(self).cursor,
    {
        self.pokemon_do = String::from_str(name).concat(" do?");
    }

    /// Moves the cursor as the directions pressed in this frame say.
    pub fn input(&mut self, ctx: &Context)
        ensures
            final(self).cursor == option_cursor_after(old(self).cursor, *ctx),
            final(self).pokemon_do == old(self).pokemon_do,
    {
        if pressed(ctx, Control::Up) && self.cursor >= 2 {
            self.cursor -= 2;
        } else if pressed(ctx, Control::Down) && self.cursor <= 2 {
            self.cursor += 2;
        } else if pressed(ctx, Control::Left) && self.cursor > 0 {
            self.cursor -= 1;
        } else if pressed(ctx, Control::Right) && self.cursor < 3 {
            self.cursor += 1;
        }
    }

    /// What to draw for the menu, in order.
    pub fn draw<'a>(&'a self) -> (commands: Vec<DrawCommand<'a>>)
        ensures
            ops_of(commands@) == self.drawn(),
    {
        let mut commands: Vec<DrawCommand<'a>> = Vec::new();
        commands.push(DrawCommand::Panel { at: Point::new(120, 113), width: 120, height: 47 });
        commands.push(
            DrawCommand::Text {
                font: 1,
                text: "What will",
                at: Point::new(11, 123),
                color: Color::white(),
            },
        );
        commands.push(
            DrawCommand::Text {
                font: 1,
                text: self.pokemon_do.as_str(),
                at: Point::new(11, 139),
                color: Color::white(),
            },
        );
        let mut index: usize = 0;
        while index < 4
            invariant
                index <= 4,
                commands@.len() == 3 + index,
                ops_of(commands@) =~= self.drawn().take(3 + index),
            decreases 4 - index,
        {
            let ghost before = ops_of(commands@);
            let label = DrawCommand::Text {
                font: 0,
                text: button_label(index),
                at: Point::new(138 + column_offset(index, 56), 123 + row_offset(index, 16)),
                color: Color::black(),
            };
            commands.push(label);
            assert(ops_of(commands@) =~= before.push(label@));
            index += 1;
        }
        let ghost before = ops_of(commands@);
        let cursor = DrawCommand::Cursor {
            at: Point::new(
                131 + column_offset(self.cursor, 56),
                126 + row_offset(self.cursor, 16),
            ),
        };
        commands.push(cursor);
        assert(ops_of(commands@) =~= before.push(cursor@));
        assert(ops_of(commands@) =~= self.drawn());
        commands
    }
}

} // verus!
