//! Choosing the document text to parse — the custom file's content, or the
//! embedded default on any read failure — and loading it as a commit pattern.

use vstd::prelude::*;

verus! {

use crate::error::ConfigError;
use crate::json::{json_of, parse_json};
use crate::pattern::{parse_pattern, pattern_of, CommitPattern, PatternV};
use vstd::string::StringExecFns;

/// The embedded default commit-pattern document, bundled at build time. It is
/// the document used whenever no custom document is readable, and the
/// template a project copies to make its own customizable version.
pub const DEFAULT_PATTERN_TEXT: &'static str = r#"{
  "config": {
    "subject_separator": ":",
    "scope_prefix": "(",
    "scope_suffix": ")"
  },
  "commit_types": [
    { "name": "feat", "description": "a new feature" },
    { "name": "fix", "description": "a bug fix" },
    { "name": "docs", "description": "documentation only changes" },
    { "name": "style", "description": "changes that do not affect the meaning of the code" },
    { "name": "refactor", "description": "a code change that neither fixes a bug nor adds a feature" },
    { "name": "perf", "description": "a code change that improves performance" },
    { "name": "test", "description": "adding missing tests or correcting existing tests" },
    { "name": "chore", "description": "other changes that don't modify src or test files" }
  ],
  "commit_scopes": [
    { "name": "none", "description": "no specific scope" },
    { "name": "custom", "description": "enter a custom scope" }
  ],
  "msg": {
    "commit_type": "Select a type of the commit",
    "commit_scope": "Select a scope of the commit",
    "commit_description": "Enter a short description of the commit",
    "commit_body": "Enter a detailed body of the commit",
    "commit_footer": "Enter a footer of the commit"
  }
}"#;

/// The characters of the embedded default document.
pub open spec fn default_text() -> Seq<char> {
    DEFAULT_PATTERN_TEXT@
}

/// The embedded default document, as an owned string.
pub fn default_pattern_text() -> (r: String)
    ensures
        r@ == default_text(),
{
    String::from_str(DEFAULT_PATTERN_TEXT)
}

/// The text that the loader parses, given the outcome of the read of the
/// resolved path: the file's content where the read succeeded, and the
/// embedded default document on any failure.
pub open spec fn chosen_text(read: Option<Seq<char>>) -> Seq<char> {
    match read {
        Some(s) => s,
        None => default_text(),
    }
}

/// The commit pattern that the given document text loads as: `None` where
/// the text is not valid JSON or violates the schema.
pub open spec fn loaded_pattern(text: Seq<char>) -> Option<PatternV> {
    match json_of(text) {
        Some(j) => pattern_of(j),
        None => None,
    }
}

/// The characters of a read outcome.
pub open spec fn read_view(read: Option<String>) -> Option<Seq<char>> {
    match read {
        Some(s) => Some(s@),
        None => None,
    }
}

/// Produces the commit pattern from the outcome of reading the resolved path.
///
/// `read` is `Some` with the file's full text where the read succeeded, and
/// `None` where the read failed for any reason; that failure is absorbed here
/// by substituting the embedded default document, with no differentiation
/// between failure causes. A parse or schema violation of the chosen document
/// — custom or default alike — is fatal.
pub fn pattern_from_content(read: Option<String>) -> (r: Result<CommitPattern, ConfigError>)
    ensures
        match r {
            Ok(p) => loaded_pattern(chosen_text(read_view(read))) == Some(p@),
            Err(e) => loaded_pattern(chosen_text(read_view(read))) is None && e
                == ConfigError::Parse,
        },
{
    let text = match read {
        Some(s) => s,
        None => default_pattern_text(),
    };
    match parse_json(&text) {
        Some(j) => match parse_pattern(&j) {
            Some(p) => Ok(p),
            None => Err(ConfigError::Parse),
        },
        None => Err(ConfigError::Parse),
    }
}

/// Loading is deterministic: two runs of the pipeline over the same read
/// outcome load the same commit pattern, so loading twice in succession with
/// an identical environment and identical arguments yields patterns that are
/// field-for-field equal.
pub proof fn lemma_load_idempotent(a: Option<Seq<char>>, b: Option<Seq<char>>)
    requires
        a == b,
    ensures
        loaded_pattern(chosen_text(a)) == loaded_pattern(chosen_text(b)),
{
}

} // verus!
