//! Discovery of blog content driven by a TOML configuration file.
//!
//! The library loads a configuration text, extracts the `hexo.path` entry,
//! derives the post and draft source directories under it, filters directory
//! listings down to regular files, classifies each file as a post or a draft,
//! and renders the report lines.  All file and terminal I/O stays with the
//! caller, which hands plain values in and out.

pub mod article;
pub mod config;
pub mod listing;
pub mod pipeline;
pub mod report;
