//! What is sent to the read-it-later service.

pub mod client;

pub use client::{Document, Highlight, HttpReadwiseClient, SaveResponse};
