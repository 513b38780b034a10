//! Synchronisation core for saving social-network posts to a read-it-later
//! service: command parsing, thread classification, payload formatting and the
//! bookkeeping of pending sign-ins.

pub mod bindings;
pub mod bluesky;
pub mod config;
pub mod content;
pub mod db;
pub mod error;
pub mod http;
pub mod readwise;
pub mod services;
pub mod text;
pub mod time;
pub mod web;
