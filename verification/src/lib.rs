//! Embeds the files of a directory tree into generated Rust source text.
//!
//! The library collects files handed to it as plain (name, bytes) records,
//! base64-encodes each one (image files get a data-URI form), and renders a
//! fixed code template: a struct holding a string-to-string lookup table and
//! a constructor that inserts one (name, encoded content) pair per file.

pub mod codec;
pub mod entry;
pub mod pipeline;
pub mod render;
pub mod version;
