//! Plain values that describe what a frame shows.
//!
//! Nothing here touches a screen. Drawing code in this crate returns a list
//! of [`DrawCommand`]s; whoever owns the window carries them out in order.

use vstd::prelude::*;

verus! {

/// Identifies one of the fonts that the renderer has loaded.
pub type FontId = u8;

/// A colour with eight bits for each of red, green, blue and alpha.
#[derive(Debug, Clone, Copy, PartialEq, Eq, Hash, Structural)]
pub struct Color {
    pub r: u8,
    pub g: u8,
    pub b: u8,
    pub a: u8,
}

impl Color {
    /// An opaque colour.
    pub fn rgb(r: u8, g: u8, b: u8) -> (c: Color)
        ensures
            c == (Color { r, g, b, a: 255 }),
    {
        Color { r, g, b, a: 255 }
    }

    pub fn white() -> (c: Color)
        ensures
            c == (Color { r: 255, g: 255, b: 255, a: 255 }),
    {
        Color { r: 255, g: 255, b: 255, a: 255 }
    }

    pub fn black() -> (c: Color)
        ensures
            c == (Color { r: 0, g: 0, b: 0, a: 255 }),
    {
        Color { r: 0, g: 0, b: 0, a: 255 }
    }

    pub fn gray() -> (c: Color)
        ensures
            c == (Color { r: 130, g: 130, b: 130, a: 255 }),
    {
        Color { r: 130, g: 130, b: 130, a: 255 }
    }

    pub fn red() -> (c: Color)
        ensures
            c == (Color { r: 230, g: 41, b: 55, a: 255 }),
    {
        Color { r: 230, g: 41, b: 55, a: 255 }
    }
}

impl Default for Color {
    /// Transparent black.
    fn default() -> (c: Color)
        ensures
            c == (Color { r: 0, g: 0, b: 0, a: 0 }),
    {
        Color { r: 0, g: 0, b: 0, a: 0 }
    }
}

/// Identifies one of the images that the renderer has loaded.
pub type TextureId = u32;

/// A position on the screen, in whole pixels.
#[derive(Debug, Clone, Copy, PartialEq, Eq, Hash, Structural)]
pub struct Point {
    pub x: i64,
    pub y: i64,
}

impl Point {
    pub fn new(x: i64, y: i64) -> (p: Point)
        ensures
            p == (Point { x, y }),
    {
        Point { x, y }
    }
}

impl Default for Point {
    fn default() -> (p: Point)
        ensures
            p == (Point { x: 0, y: 0 }),
    {
        Point { x: 0, y: 0 }
    }
}

/// A position on the screen in thousandths of a pixel, for what moves
/// smoothly.
#[derive(Debug, Clone, Copy, PartialEq, Eq, Hash, Structural)]
pub struct FinePoint {
    pub x: i64,
    pub y: i64,
}

/// A part of an image, in whole pixels from its top left corner.
#[derive(Debug, Clone, Copy, PartialEq, Eq, Hash, Structural)]
pub struct Rectangle {
    pub x: i64,
    pub y: i64,
    pub width: i64,
    pub height: i64,
}

/// One thing to draw. The text is borrowed from whatever produced the command.
#[derive(Debug, Clone, Copy, PartialEq, Eq)]
pub enum DrawCommand<'a> {
    /// A line of text whose left edge is at `at`.
    Text { font: FontId, text: &'a str, at: Point, color: Color },
    /// The marker shown behind a finished line of `text` while the reader is
    /// expected to confirm. `at` is where the line starts; `lift` displaces
    /// the marker vertically, in millionths of a pixel.
    Button { font: FontId, text: &'a str, at: Point, lift: i64 },
    /// The selection arrow of a menu.
    Cursor { at: Point },
    /// A framed background box.
    Panel { at: Point, width: i64, height: i64 },
    /// An image, or the part `source` of it, with its top left corner at
    /// `corner` and tinted with `color`.
    Texture { texture: TextureId, corner: FinePoint, source: Option<Rectangle>, color: Color },
}

/// What a [`DrawCommand`] says, with its text as a sequence of characters.
pub enum DrawOp {
    Text { font: FontId, text: Seq<char>, at: Point, color: Color },
    Button { font: FontId, text: Seq<char>, at: Point, lift: int },
    Cursor { at: Point },
    Panel { at: Point, width: int, height: int },
    Texture { texture: TextureId, corner: FinePoint, source: Option<Rectangle>, color: Color },
}

impl<'a> View for DrawCommand<'a> {
    type V = DrawOp;

    open spec fn view(&self) -> DrawOp {
        match *self {
            DrawCommand::Text { font, text, at, color } => DrawOp::Text {
                font,
                text: text@,
                at,
                color,
            },
            DrawCommand::Button { font, text, at, lift } => DrawOp::Button {
                font,
                text: text@,
                at,
                lift: lift as int,
            },
            DrawCommand::Cursor { at } => DrawOp::Cursor { at },
            DrawCommand::Panel { at, width, height } => DrawOp::Panel {
                at,
                width: width as int,
                height: height as int,
            },
            DrawCommand::Texture { texture, corner, source, color } => DrawOp::Texture {
                texture,
                corner,
                source,
                color,
            },
        }
    }
}

/// The meaning of a list of commands.
pub open spec fn ops_of(commands: Seq<DrawCommand>) -> Seq<DrawOp> {
    commands.map_values(|c: DrawCommand| c@)
}

} // verus!
