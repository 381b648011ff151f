//! The client's state and everything that changes it.

pub mod admin;
pub mod app;
pub mod auth;
pub mod bots;
pub mod calls;
pub mod channels;
pub mod compose;
pub mod effect;
pub mod feed;
pub mod group_keys;
pub mod history;
pub mod incoming;
pub mod invites;
pub mod jobs;
pub mod keyed;
pub mod laws;
pub mod lifecycle;
pub mod message;
pub mod palette;
pub mod peers;
pub mod prefs;
pub mod profile;
pub mod replies;
pub mod roles;
pub mod rooms;
pub mod servers;
pub mod settings_store;
pub mod social;
pub mod trust;
pub mod types;
pub mod update;
pub mod voice;
pub mod window;
