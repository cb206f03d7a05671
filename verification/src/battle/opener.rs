//! The opening of a battle against a wild opponent: a strip of grass that
//! scrolls by and sinks away while the screen opens.

use vstd::prelude::*;
use crate::fixed::{clamp, saturating_difference, saturating_scale, saturating_sum};
use crate::graphics::{ops_of, Color, DrawCommand, DrawOp, FinePoint, TextureId};

verus! {

/// Width of the grass image, in thousandths of a pixel.
pub const GRASS_WIDTH: i64 = 128_000;

/// Height of the grass image, in thousandths of a pixel.
pub const GRASS_HEIGHT: i64 = 47_000;

/// The grass scrolls left by this many thousandths of a pixel per
/// millisecond.
pub const GRASS_SCROLL: u16 = 360;

/// The grass sinks by this many thousandths of a pixel per millisecond.
pub const GRASS_SINK: u16 = 60;

/// The grass begins to sink once the screen is open this far, in
/// thousandths of a pixel.
pub const SINK_BELOW: i64 = 130_000;

/// The line on which the grass rests, in thousandths of a pixel.
pub const GRASS_BASE: i64 = 114_000;

/// The grass of the opening scene.
#[derive(Debug, Clone, Copy, PartialEq, Eq, Structural)]
pub struct WildBattleOpener {
    pub grass: TextureId,
    /// How far the strip is scrolled and how much of it still stands, in
    /// thousandths of a pixel.
    pub offset: FinePoint,
}

impl WildBattleOpener {
    /// Where the strip is after `delta` milliseconds in which the screen
    /// stood open by `opening` thousandths of a pixel. A strip that has sunk
    /// away stays as it is. Otherwise it scrolls on, jumps back by its width
    /// when it runs off to the left, and sinks if the screen is open far
    /// enough.
    pub open spec fn scrolled(self, delta: int, opening: int) -> FinePoint {
        if self.offset.y > 0 {
            let moved = clamp(self.offset.x - clamp(delta * GRASS_SCROLL));
            FinePoint {
                x: if moved < 0 {
                    clamp(moved + GRASS_WIDTH) as i64
                } else {
                    moved as i64
                },
                y: if opening <= SINK_BELOW {
                    clamp(self.offset.y - clamp(delta * GRASS_SINK)) as i64
                } else {
                    self.offset.y
                },
            }
        } else {
            self.offset
        }
    }

    /// The command that draws the grass image `shift` to the right of the
    /// strip's position.
    pub open spec fn grass_op(self, shift: int) -> DrawOp {
        DrawOp::Texture {
            texture: self.grass,
            corner: FinePoint {
                x: clamp(self.offset.x + shift) as i64,
                y: clamp(GRASS_BASE - self.offset.y) as i64,
            },
            source: None,
            color: Color { r: 255, g: 255, b: 255, a: 255 },
        }
    }

    /// What the strip shows: three copies of the image side by side while
    /// part of it stands, nothing once it has sunk away.
    pub open spec fn drawn(self) -> Seq<DrawOp> {
        if self.offset.y > 0 {
            seq![
                self.grass_op(-(GRASS_WIDTH as int)),
                self.grass_op(0),
                self.grass_op(GRASS_WIDTH as int),
            ]
        } else {
            Seq::empty()
        }
    }

    /// The strip at its full height, scrolled by one image.
    pub fn new(grass: TextureId) -> (opener: WildBattleOpener)
        ensures
            opener == (WildBattleOpener {
                grass,
                offset: FinePoint { x: GRASS_WIDTH, y: GRASS_HEIGHT },
            }),
    {
        WildBattleOpener { grass, offset: FinePoint { x: GRASS_WIDTH, y: GRASS_HEIGHT } }
    }

    /// Lets `delta` milliseconds pass in which the screen stood open by
    /// `opening` thousandths of a pixel.
    pub fn update(&mut self, delta: i64, opening: i64)
        ensures
            final(self).grass == old(self).grass,
            final(self).offset == old(self).scrolled(delta as int, opening as int),
    {
        if self.offset.y > 0 {
            self.offset.x = saturating_difference(
                self.offset.x,
                saturating_scale(delta, GRASS_SCROLL),
            );
            if self.offset.x < 0 {
                self.offset.x = saturating_sum(self.offset.x, GRASS_WIDTH);
            }
            if opening <= SINK_BELOW {
                self.offset.y = saturating_difference(
                    self.offset.y,
                    saturating_scale(delta, GRASS_SINK),
                );
            }
        }
    }

    fn grass_command(&self, shift: i64) -> (command: DrawCommand<'static>)
        ensures
            command@ == self.grass_op(shift as int),
    {
        DrawCommand::Texture {
            texture: self.grass,
            corner: FinePoint {
                x: saturating_sum(self.offset.x, shift),
                y: saturating_difference(GRASS_BASE, self.offset.y),
            },
            source: None,
            color: Color::white(),
        }
    }

    /// What to draw of the grass, below the panel of the battle screen.
    pub fn draw_below_panel(&self) -> (commands: Vec<DrawCommand<'static>>)
        ensures
            ops_of(commands@) == self.drawn(),
    {
        let mut commands: Vec<DrawCommand<'static>> = Vec::new();
        if self.offset.y > 0 {
            let left = self.grass_command(-GRASS_WIDTH);
            let middle = self.grass_command(0);
            let right = self.grass_command(GRASS_WIDTH);
            commands.push(left);
            commands.push(middle);
            commands.push(right);
            assert(ops_of(commands@) =~= seq![left@, middle@, right@]);
        } else {
            assert(ops_of(commands@) =~= Seq::<DrawOp>::empty());
        }
        commands
    }

    /// Puts the strip back to where a new one starts.
    pub fn reset(&mut self)
        ensures
            *final(self) == (WildBattleOpener {
                grass: old(self).grass,
                offset: FinePoint { x: GRASS_WIDTH, y: GRASS_HEIGHT },
            }),
    {
        self.offset = FinePoint { x: GRASS_WIDTH, y: GRASS_HEIGHT };
    }

    /// Whether the scene is over: the screen is open, which the caller
    /// tells, and the grass has sunk away.
    pub fn finished(&self, opened: bool) -> (r: bool)
        ensures
            r == (opened && self.offset.y <= 0),
    {
        opened && self.offset.y <= 0
    }
}

} // verus!
