//! What the client promises to the person in front of it, said of the state
//! before and after a message and of what is asked of the outside world.

pub mod answers;
pub mod asked;
pub mod calling;
pub mod friends;
pub mod hosting;
pub mod keeping;
pub mod mentioning;
pub mod moving;
pub mod naming;
pub mod opening;
pub mod permissions;
pub mod reading;
pub mod reckoning;
pub mod running;
pub mod saying;
pub mod sending;
pub mod settings;
pub mod showing;
pub mod signing_in;
pub mod talking;
