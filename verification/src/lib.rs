//! Presentation logic of a turn-based battle screen: the message box that
//! reveals dialogue page by page, the input snapshot it reads, and the
//! panels and transitions built around it.

pub mod fixed;
pub mod graphics;
pub mod input;
pub mod text;
pub mod gui;
pub mod battle;
pub mod party;
pub mod fs;
pub mod texture;
