//! Resolution of the configuration path to use: an explicit path wins, then a
//! project-local `commit.json`, then the user configuration directory.

use vstd::prelude::*;

verus! {

use crate::error::ConfigError;
use vstd::string::StringExecFns;

/// Relies on std::path::Path::exists: whether the path refers to an entity
/// that exists on disk at the moment of the call.
#[verifier::external_body]
fn path_exists(p: &String) -> bool {
    std::path::Path::new(p.as_str()).exists()
}

/// Relies on dirs::config_dir: the platform's user configuration directory,
/// where the platform reports one that is valid UTF-8.
#[verifier::external_body]
fn user_config_dir() -> Option<String> {
    dirs::config_dir().and_then(|d| d.into_os_string().into_string().ok())
}

/// Relies on std::path::absolute: the given relative path joined onto the
/// process's current working directory, where that directory can be
/// determined and the joined path is valid UTF-8.
#[verifier::external_body]
fn absolute_path(p: &String) -> Option<String> {
    match std::path::absolute(p.as_str()) {
        Ok(a) => a.into_os_string().into_string().ok(),
        Err(_) => None,
    }
}

/// Resolves an explicitly supplied path, `exists` being the outcome of the
/// disk query for it: the path is returned exactly as given when it exists,
/// and anything else is a fatal error naming the offending path.
pub fn resolve_explicit(path: String, exists: bool) -> (r: Result<String, ConfigError>)
    ensures
        exists ==> r == Ok::<String, ConfigError>(path),
        !exists ==> r == Err::<String, ConfigError>(ConfigError::NotFound(path)),
        !exists ==> (r matches Err(e) && e.message_spec() == "Config file does not exist: "@
            + path@),
{
    if exists {
        Ok(path)
    } else {
        Err(ConfigError::NotFound(path))
    }
}

/// Resolves the implicit path, `project_exists` being the outcome of the disk
/// query for the project-local candidate: that candidate when it exists, else
/// `commit/commit.json` under the user configuration directory — chosen
/// without any existence check — and a fatal error where the platform reports
/// no such directory.
pub fn resolve_implicit(
    project_file: String,
    project_exists: bool,
    config_dir: Option<String>,
) -> (r: Result<String, ConfigError>)
    ensures
        project_exists ==> r == Ok::<String, ConfigError>(project_file),
        !project_exists ==> match config_dir {
            Some(d) => (r matches Ok(p) && p@ == d@ + "/commit/commit.json"@),
            None => r == Err::<String, ConfigError>(ConfigError::NoConfigDir),
        },
{
    if project_exists {
        Ok(project_file)
    } else {
        match config_dir {
            Some(d) => Ok(d.concat("/commit/commit.json")),
            None => Err(ConfigError::NoConfigDir),
        }
    }
}

/// Computes the configuration path used when none is supplied explicitly:
/// `commit.json` in the current working directory when that file exists,
/// otherwise `commit/commit.json` under the user configuration directory,
/// whether or not that file exists.
pub fn get_config_path() -> (r: Result<String, ConfigError>)
    ensures
        r matches Err(e) ==> e == ConfigError::NoCurrentDir || e == ConfigError::NoConfigDir,
{
    match absolute_path(&String::from_str("commit.json")) {
        Some(project_file) => {
            let project_exists = path_exists(&project_file);
            let config_dir = user_config_dir();
            resolve_implicit(project_file, project_exists, config_dir)
        },
        None => Err(ConfigError::NoCurrentDir),
    }
}

/// Resolves the single configuration path to use, given an optional explicit
/// path. Precedence is strict and total: explicit over project-local over
/// user-global. Only an explicit path is existence-checked here; an implicit
/// candidate that turns out to be unreadable is left for the loading step to
/// absorb.
pub fn select_custom_config_path(config: Option<String>) -> (r: Result<String, ConfigError>)
    ensures
        match config {
            Some(p) => (r == Ok::<String, ConfigError>(p) || r == Err::<String, ConfigError>(
                ConfigError::NotFound(p),
            )),
            None => (r matches Err(e) ==> e == ConfigError::NoCurrentDir
                || e == ConfigError::NoConfigDir),
        },
        match config {
            Some(p) => (r matches Err(e) ==> e.message_spec() == "Config file does not exist: "@
                + p@),
            None => true,
        },
{
    match config {
        Some(config_path) => {
            let exists = path_exists(&config_path);
            resolve_explicit(config_path, exists)
        },
        None => get_config_path(),
    }
}

} // verus!
