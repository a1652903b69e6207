//! Tests of document loading: the fallback to the embedded default, schema
//! validation, rendering, and determinism.

use commit_pattern::{pattern_from_content, Type, DEFAULT_PATTERN_TEXT};

const CUSTOM_DOC: &str = r#"{
  "config": {
    "type_prefix": "[",
    "type_suffix": "]",
    "subject_separator": " - ",
    "scope_prefix": "<",
    "scope_suffix": ">",
    "pre_commit": "make check"
  },
  "commit_types": [
    { "name": "feat", "description": "a new feature" },
    { "name": "fix", "description": "a bug fix" }
  ],
  "commit_scopes": [],
  "msg": {
    "commit_type": "type?",
    "commit_scope": "scope?",
    "commit_description": "description?",
    "commit_body": "body?",
    "commit_footer": "footer?"
  }
}"#;

#[test]
fn default_document_always_parses() {
    assert!(pattern_from_content(None).is_ok());
    assert!(pattern_from_content(Some(DEFAULT_PATTERN_TEXT.to_string())).is_ok());
}

#[test]
fn default_document_contents() {
    let pattern = pattern_from_content(None).unwrap();
    assert_eq!(pattern.config.pre_commit, None);
    assert!(!pattern.commit_types.is_empty());
    assert_eq!(pattern.commit_types[0].name, "feat");
    assert_eq!(pattern.commit_types[0].description, "a new feature");
    assert!(!pattern.commit_scopes.is_empty());
    assert_eq!(pattern.msg.commit_type, "Select a type of the commit");
}

#[test]
fn custom_document_is_parsed_not_echoed() {
    let pattern = pattern_from_content(Some(CUSTOM_DOC.to_string())).unwrap();
    assert_eq!(pattern.config.type_prefix.as_deref(), Some("["));
    assert_eq!(pattern.config.type_suffix.as_deref(), Some("]"));
    assert_eq!(pattern.config.subject_separator, " - ");
    assert_eq!(pattern.config.scope_prefix, "<");
    assert_eq!(pattern.config.scope_suffix, ">");
    assert_eq!(pattern.config.pre_commit.as_deref(), Some("make check"));
    assert_eq!(pattern.commit_types.len(), 2);
    assert_eq!(pattern.commit_types[1].name, "fix");
    assert_eq!(pattern.commit_types[1].description, "a bug fix");
    assert_eq!(pattern.commit_scopes.len(), 0);
    assert_eq!(pattern.msg.commit_footer, "footer?");
}

#[test]
fn invalid_json_fails_with_parse_message() {
    let r = pattern_from_content(Some("{ this is not json".to_string()));
    match r {
        Err(err) => {
            assert!(err.message().contains("Failed to parse commit pattern from file"));
            assert_eq!(err.message(), "Failed to parse commit pattern from file");
        }
        Ok(_) => assert!(false),
    }
}

#[test]
fn missing_required_field_fails() {
    let doc = r#"{
      "config": { "scope_prefix": "(", "scope_suffix": ")" },
      "commit_types": [],
      "commit_scopes": [],
      "msg": {
        "commit_type": "a", "commit_scope": "b", "commit_description": "c",
        "commit_body": "d", "commit_footer": "e"
      }
    }"#;
    let r = pattern_from_content(Some(doc.to_string()));
    match r {
        Err(err) => assert_eq!(err.message(), "Failed to parse commit pattern from file"),
        Ok(_) => assert!(false),
    }
}

#[test]
fn wrong_field_type_fails() {
    let doc = r#"{
      "config": {
        "subject_separator": ":", "scope_prefix": "(", "scope_suffix": ")"
      },
      "commit_types": { "name": "feat", "description": "a new feature" },
      "commit_scopes": [],
      "msg": {
        "commit_type": "a", "commit_scope": "b", "commit_description": "c",
        "commit_body": "d", "commit_footer": "e"
      }
    }"#;
    assert!(pattern_from_content(Some(doc.to_string())).is_err());
}

#[test]
fn non_object_document_fails() {
    assert!(pattern_from_content(Some("[1, 2, 3]".to_string())).is_err());
    assert!(pattern_from_content(Some("\"just a string\"".to_string())).is_err());
}

#[test]
fn wrong_typed_optional_field_fails() {
    let doc = r#"{
      "config": {
        "type_prefix": 7,
        "subject_separator": ":", "scope_prefix": "(", "scope_suffix": ")"
      },
      "commit_types": [],
      "commit_scopes": [],
      "msg": {
        "commit_type": "a", "commit_scope": "b", "commit_description": "c",
        "commit_body": "d", "commit_footer": "e"
      }
    }"#;
    assert!(pattern_from_content(Some(doc.to_string())).is_err());
}

#[test]
fn null_optional_field_reads_as_absent() {
    let doc = r#"{
      "config": {
        "type_prefix": null,
        "subject_separator": ":", "scope_prefix": "(", "scope_suffix": ")"
      },
      "commit_types": [],
      "commit_scopes": [],
      "msg": {
        "commit_type": "a", "commit_scope": "b", "commit_description": "c",
        "commit_body": "d", "commit_footer": "e"
      }
    }"#;
    let pattern = pattern_from_content(Some(doc.to_string())).unwrap();
    assert_eq!(pattern.config.type_prefix, None);
    assert_eq!(pattern.commit_types.len(), 0);
}

#[test]
fn unknown_members_are_ignored() {
    let doc = r#"{
      "something_else": true,
      "config": {
        "subject_separator": ":", "scope_prefix": "(", "scope_suffix": ")",
        "extra": [1, 2]
      },
      "commit_types": [],
      "commit_scopes": [],
      "msg": {
        "commit_type": "a", "commit_scope": "b", "commit_description": "c",
        "commit_body": "d", "commit_footer": "e"
      }
    }"#;
    assert!(pattern_from_content(Some(doc.to_string())).is_ok());
}

#[test]
fn type_renders_as_name_dash_description() {
    let t = Type { name: "feat".to_string(), description: "a new feature".to_string() };
    assert_eq!(t.display(), "feat - a new feature");
}

#[test]
fn loading_twice_yields_equal_patterns() {
    let a = pattern_from_content(None).unwrap();
    let b = pattern_from_content(None).unwrap();
    assert_eq!(a.config, b.config);
    assert_eq!(a.commit_types, b.commit_types);
    assert_eq!(a.commit_scopes, b.commit_scopes);
    assert_eq!(a.msg, b.msg);

    let c = pattern_from_content(Some(DEFAULT_PATTERN_TEXT.to_string())).unwrap();
    let d = pattern_from_content(Some(DEFAULT_PATTERN_TEXT.to_string())).unwrap();
    assert_eq!(c, d);
}
