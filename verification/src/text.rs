//! Dialogue as data: a message is a list of pages, a page a list of lines.

use vstd::prelude::*;
use crate::graphics::Color;

verus! {

/// A screenful of lines that are shown together.
#[derive(Debug, Clone, PartialEq, Eq)]
pub struct MessagePage {
    /// The lines, top to bottom.
    pub lines: Vec<String>,
    /// How long the finished page stays before the next one follows, in
    /// milliseconds. Without it the page stays until the reader confirms.
    pub wait: Option<i64>,
}

/// A page as contracts see it.
pub struct PageView {
    pub lines: Seq<Seq<char>>,
    pub wait: Option<i64>,
}

impl View for MessagePage {
    type V = PageView;

    open spec fn view(&self) -> PageView {
        PageView { lines: self.lines@.map_values(|line: String| line@), wait: self.wait }
    }
}

impl Default for MessagePage {
    /// A page without lines that waits for the reader.
    fn default() -> (page: MessagePage)
        ensures
            page@.lines.len() == 0,
            page@.wait is None,
    {
        MessagePage { lines: Vec::new(), wait: None }
    }
}

/// Pages of dialogue and the colour they are written in.
#[derive(Debug, Clone, PartialEq, Eq)]
pub struct Message {
    pub pages: Vec<MessagePage>,
    pub color: Color,
}

/// A message as contracts see it.
pub struct MessageView {
    pub pages: Seq<PageView>,
    pub color: Color,
}

/// The pages of a list, each by its view.
pub open spec fn pages_of(pages: Seq<MessagePage>) -> Seq<PageView> {
    pages.map_values(|page: MessagePage| page@)
}

impl View for Message {
    type V = MessageView;

    open spec fn view(&self) -> MessageView {
        MessageView { pages: pages_of(self.pages@), color: self.color }
    }
}

impl Message {
    /// The colour of a message that names none.
    pub fn default_color() -> (c: Color)
        ensures
            c == (Color { r: 130, g: 130, b: 130, a: 255 }),
    {
        Color::gray()
    }
}

impl Default for Message {
    /// No pages, in the default colour of [`Color`].
    fn default() -> (message: Message)
        ensures
            message@.pages.len() == 0,
            message@.color == (Color { r: 0, g: 0, b: 0, a: 0 }),
    {
        Message { pages: Vec::new(), color: Color::default() }
    }
}

/// Why a change to a message was refused.
#[derive(Debug, Clone, Copy, PartialEq, Eq, Structural)]
pub enum MessageError {
    /// The message has no page at the index.
    IndexOutOfRange,
}

} // verus!
