//! What the screen shows, computed from the state.

pub mod admin_rows;
pub mod chat_rows;
pub mod colors;
pub mod mentions;
pub mod share_targets;
pub mod theme;
pub mod utils;
pub mod viewmodel;
