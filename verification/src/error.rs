//! The error type of the loading pipeline.

use vstd::prelude::*;

verus! {

use vstd::string::StringExecFns;

/// A failure of the loading pipeline that is reported to the caller.
///
/// Failures that stem from something the caller explicitly specified (an
/// explicit path, the health of the host environment) are fatal and carried
/// here; a failed read of an implicitly resolved path is not an error at all
/// and never reaches this type.
#[derive(Debug, Clone, PartialEq, Eq)]
pub enum ConfigError {
    /// An explicitly supplied configuration path does not exist on disk.
    /// Carries the offending path.
    NotFound(String),
    /// The platform reports no user configuration directory.
    NoConfigDir,
    /// The current working directory cannot be determined.
    NoCurrentDir,
    /// The chosen document is not a valid commit pattern.
    Parse,
}

impl ConfigError {
    /// The user-visible message of this error.
    pub open spec fn message_spec(&self) -> Seq<char> {
        match self {
            ConfigError::NotFound(p) => "Config file does not exist: "@ + p@,
            ConfigError::NoConfigDir => "Could not find config directory"@,
            ConfigError::NoCurrentDir => "Could not find current directory"@,
            ConfigError::Parse => "Failed to parse commit pattern from file"@,
        }
    }

    /// Renders the user-visible message of this error.
    pub fn message(&self) -> (r: String)
        ensures
            r@ == self.message_spec(),
    {
        match self {
            ConfigError::NotFound(p) => String::from_str("Config file does not exist: ").concat(
                p.as_str(),
            ),
            ConfigError::NoConfigDir => String::from_str("Could not find config directory"),
            ConfigError::NoCurrentDir => String::from_str("Could not find current directory"),
            ConfigError::Parse => String::from_str("Failed to parse commit pattern from file"),
        }
    }
}

} // verus!
