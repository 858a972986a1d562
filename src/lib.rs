//! Polls a feed listing, reports each entry once, and classifies fetch failures.

pub mod text;
pub mod timestamp;
pub mod entry;
pub mod fetch;
pub mod poll;
pub mod config;
