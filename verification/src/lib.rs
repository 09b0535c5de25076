//! A personal read-it-later article archive.
//!
//! Saved web pages are kept in a local SQLite-backed store as sanitized HTML
//! and later compiled into an RSS feed or handed to an external document
//! compiler to produce an ebook.

pub mod args;
pub mod ebook;
pub mod error;
pub mod feed;
pub mod sanitize;
pub mod store;
mod strutil;
pub mod timestamp;
pub mod title;
