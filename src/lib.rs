//! File discovery filters: glob patterns with negation, extension
//! allow-lists, and the text block each discovered file contributes.

pub mod path_text;
pub mod pattern;
pub mod filter;
pub mod block;
pub mod config;

pub use block::{file_block, FileInfo};
pub use config::{Args, ModelKind};
pub use filter::{fts_match, globs_match, parse_globs, FindOpts};
pub use path_text::{file_extension, file_name};
pub use pattern::{Glob, ParseError};
