//! The message box: dialogue revealed character by character, page by page.

pub mod message_box;
pub mod playback;
pub mod sequencer;
