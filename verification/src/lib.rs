//! Desktop messenger core.

pub mod clock;
pub mod delta;
pub mod hex;
pub mod laws;
pub mod paths;
pub mod primitives;
pub mod state;
pub mod strmap;
pub mod text;
pub mod tray;
pub mod ui;
pub mod update_check;
pub mod versions;
