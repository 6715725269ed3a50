//! Verified core of a likes service: request validation, cache keys,
//! pagination cursors, query text and response assembly.

pub mod error;
pub mod text;
pub mod ids;
pub mod cursor;
pub mod cache;
pub mod config;
pub mod likes;
pub mod pages;
pub mod laws;

