//! Loading pipeline for commit-pattern configuration documents: resolving the
//! path of the document to use, falling back to a built-in default when no
//! custom document is readable, and validating the document against the
//! commit-pattern schema.

pub mod error;
pub mod json;
pub mod load;
pub mod pattern;
pub mod resolve;

pub use error::ConfigError;
pub use json::Json;
pub use load::{default_pattern_text, pattern_from_content, DEFAULT_PATTERN_TEXT};
pub use pattern::{CommitPattern, Config, Messages, Type};
pub use resolve::{get_config_path, select_custom_config_path};
