//! The battle screen: where its parts sit, its menus, and the scripted
//! scenes that open a battle.

pub mod introduction;
pub mod level_up;
pub mod moves;
pub mod opener;
pub mod options;
pub mod position;
