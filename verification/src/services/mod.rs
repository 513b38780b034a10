//! The services that find work and carry it out.

pub mod bookmark_sync;
pub mod dm_bot;
pub mod dm_poll;
pub mod processor;
