//! A paragraph-level search library for book corpora.
//!
//! Books are ingested chapter by chapter: every retained line of a chapter's
//! rendered text becomes one indexed document carrying the book title, the
//! normalized chapter title and the paragraph text. Queries are sanitized,
//! parsed against the paragraph field and answered with ranked snippets.

pub mod book;
pub mod content;
pub mod engine;
pub mod index;
pub mod sanitize;
pub mod text;
pub mod title;
