//! Build-provenance metadata helpers: commit-hash validation, porcelain
//! status classification with glob-based ignore patterns, and the resulting
//! dirty/clean verdict folded into the reported hash.

pub mod command;
pub mod errors;
pub mod globs;
pub mod hash;
pub mod laws;
pub mod status;
pub mod text;

pub use command::{extract_stdout, format_command_line, rev_parse_args, status_args};
pub use errors::MetadataError;
pub use globs::{IgnorePattern, parse_patterns, path_ignored_by};
pub use hash::{apply_dirty_marker, git_hash_from_reports, parse_commit_hash, resolve_hash};
pub use status::{classify_report, split_report};
