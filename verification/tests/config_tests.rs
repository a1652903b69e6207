//! Tests of path resolution and of loading the default document.

use assert_fs::prelude::{FileTouch, PathChild};
use commit_pattern::{get_config_path, pattern_from_content, select_custom_config_path};

#[test]
fn select_custom_config_path_test() {
    let temp_dir = assert_fs::TempDir::new().unwrap();
    let config_file = temp_dir.child("config.json");
    config_file.touch().unwrap();

    let config_path = Some(config_file.path().to_str().unwrap().to_string());
    let selected_config_path = select_custom_config_path(config_path.clone()).unwrap();

    assert_eq!(config_path.unwrap(), selected_config_path);

    let config_path_default = dirs::config_dir().unwrap().join("commit/commit.json");
    let selected_config_path = select_custom_config_path(None).unwrap();

    assert_eq!(selected_config_path.as_str(), config_path_default.to_str().unwrap());

    let selected_config_path = select_custom_config_path(Some(String::new()));
    match selected_config_path {
        Err(err) => assert_eq!(err.message(), "Config file does not exist: "),
        _ => assert!(false),
    }
}

#[test]
fn get_config_path_test() {
    let config_file = dirs::config_dir().unwrap().join("commit/commit.json");
    let config_path = get_config_path();
    assert_eq!(config_file.to_str().unwrap(), config_path.unwrap().as_str());
}

#[test]
fn get_pattern_test() {
    let pattern = pattern_from_content(None).unwrap();
    assert_eq!(pattern.config.type_prefix, None);
    assert_eq!(pattern.config.type_suffix, None);
    assert_eq!(pattern.config.subject_separator, ":");
    assert_eq!(pattern.config.scope_prefix, "(");
    assert_eq!(pattern.config.scope_suffix, ")");
}

#[test]
fn explicit_missing_path_fails_with_path_in_message() {
    let r = select_custom_config_path(Some("/no/such/dir/commit.json".to_string()));
    match r {
        Err(err) => {
            assert_eq!(err.message(), "Config file does not exist: /no/such/dir/commit.json")
        }
        Ok(_) => assert!(false),
    }
}

#[test]
fn explicit_existing_path_returned_unchanged() {
    let temp_dir = assert_fs::TempDir::new().unwrap();
    let config_file = temp_dir.child("anywhere.json");
    config_file.touch().unwrap();
    let path = config_file.path().to_str().unwrap().to_string();
    let r = select_custom_config_path(Some(path.clone()));
    assert_eq!(r.unwrap(), path);
}

#[test]
fn implicit_resolution_without_config_dir_fails() {
    let r = commit_pattern::resolve::resolve_implicit("commit.json".to_string(), false, None);
    match r {
        Err(err) => assert_eq!(err.message(), "Could not find config directory"),
        Ok(_) => assert!(false),
    }
}

#[test]
fn implicit_resolution_prefers_existing_project_file() {
    let r = commit_pattern::resolve::resolve_implicit(
        "/work/commit.json".to_string(),
        true,
        Some("/home/someone/.config".to_string()),
    );
    assert_eq!(r.unwrap(), "/work/commit.json");
}

#[test]
fn implicit_resolution_joins_user_config_dir() {
    let r = commit_pattern::resolve::resolve_implicit(
        "/work/commit.json".to_string(),
        false,
        Some("/home/someone/.config".to_string()),
    );
    assert_eq!(r.unwrap(), "/home/someone/.config/commit/commit.json");
}
