//! The commit-pattern data model and its schema validation: reading a parsed
//! JSON document into a `CommitPattern`, with presence and type checks only.

use vstd::prelude::*;

verus! {

use crate::json::{arr_of, get_opt_str, get_req_str, lookup, obj_get, opt_str, req_str, Json};
use vstd::string::StringExecFns;

/// Prefixes, suffixes and separators used when assembling a commit message.
#[derive(Debug, Clone, PartialEq, Eq)]
pub struct Config {
    pub type_prefix: Option<String>,
    pub type_suffix: Option<String>,
    pub subject_separator: String,
    pub scope_prefix: String,
    pub scope_suffix: String,
    /// An optional command that the pre-commit checker runs against the
    /// composed message; absent when no check is configured. The schema for
    /// this field is deliberately structural only: any string is accepted,
    /// and its meaning belongs to the pre-commit collaborator.
    pub pre_commit: Option<String>,
}

/// One selectable commit type or commit scope: a name and its description.
#[derive(Debug, Clone, PartialEq, Eq)]
pub struct Type {
    pub name: String,
    pub description: String,
}

/// The prompt labels shown for each step of message composition.
#[derive(Debug, Clone, PartialEq, Eq)]
pub struct Messages {
    pub commit_type: String,
    pub commit_scope: String,
    pub commit_description: String,
    pub commit_body: String,
    pub commit_footer: String,
}

/// The resolved commit-pattern configuration: the single structure that the
/// message builder and the pre-commit checker consume.
#[derive(Debug, Clone, PartialEq, Eq)]
pub struct CommitPattern {
    pub config: Config,
    pub commit_types: Vec<Type>,
    pub commit_scopes: Vec<Type>,
    pub msg: Messages,
}

/// The mathematical value of a `Config`.
pub struct ConfigV {
    pub type_prefix: Option<Seq<char>>,
    pub type_suffix: Option<Seq<char>>,
    pub subject_separator: Seq<char>,
    pub scope_prefix: Seq<char>,
    pub scope_suffix: Seq<char>,
    pub pre_commit: Option<Seq<char>>,
}

/// The mathematical value of a `Type`.
pub struct TypeV {
    pub name: Seq<char>,
    pub description: Seq<char>,
}

/// The mathematical value of a `Messages`.
pub struct MessagesV {
    pub commit_type: Seq<char>,
    pub commit_scope: Seq<char>,
    pub commit_description: Seq<char>,
    pub commit_body: Seq<char>,
    pub commit_footer: Seq<char>,
}

/// The mathematical value of a `CommitPattern`.
pub struct PatternV {
    pub config: ConfigV,
    pub commit_types: Seq<TypeV>,
    pub commit_scopes: Seq<TypeV>,
    pub msg: MessagesV,
}

/// The content of an optional string, character for character.
pub open spec fn opt_view(o: Option<String>) -> Option<Seq<char>> {
    match o {
        Some(s) => Some(s@),
        None => None,
    }
}

/// The mathematical values of a sequence of `Type` entries.
pub open spec fn types_view(v: Seq<Type>) -> Seq<TypeV> {
    v.map_values(|t: Type| t@)
}

impl View for Config {
    type V = ConfigV;

    open spec fn view(&self) -> ConfigV {
        ConfigV {
            type_prefix: opt_view(self.type_prefix),
            type_suffix: opt_view(self.type_suffix),
            subject_separator: self.subject_separator@,
            scope_prefix: self.scope_prefix@,
            scope_suffix: self.scope_suffix@,
            pre_commit: opt_view(self.pre_commit),
        }
    }
}

impl View for Type {
    type V = TypeV;

    open spec fn view(&self) -> TypeV {
        TypeV { name: self.name@, description: self.description@ }
    }
}

impl View for Messages {
    type V = MessagesV;

    open spec fn view(&self) -> MessagesV {
        MessagesV {
            commit_type: self.commit_type@,
            commit_scope: self.commit_scope@,
            commit_description: self.commit_description@,
            commit_body: self.commit_body@,
            commit_footer: self.commit_footer@,
        }
    }
}

impl View for CommitPattern {
    type V = PatternV;

    open spec fn view(&self) -> PatternV {
        PatternV {
            config: self.config@,
            commit_types: types_view(self.commit_types@),
            commit_scopes: types_view(self.commit_scopes@),
            msg: self.msg@,
        }
    }
}

impl Type {
    /// Renders this entry for display: `"<name> - <description>"`.
    pub fn display(&self) -> (r: String)
        ensures
            r@ == self.name@ + " - "@ + self.description@,
    {
        let mut s = self.name.clone();
        s.append(" - ");
        s.append(self.description.as_str());
        s
    }
}

/// The `config` section that a JSON value reads as, or `None` where the value
/// violates the schema.
pub open spec fn config_of(j: Json) -> Option<ConfigV> {
    match j {
        Json::Obj(fields) => config_of_fields(fields@),
        _ => None,
    }
}

/// The `config` section read from the members of a JSON object.
pub open spec fn config_of_fields(f: Seq<(String, Json)>) -> Option<ConfigV> {
    if req_str(f, "subject_separator"@) is Some && req_str(f, "scope_prefix"@) is Some
        && req_str(f, "scope_suffix"@) is Some && opt_str(f, "type_prefix"@) is Some && opt_str(
        f,
        "type_suffix"@,
    ) is Some && opt_str(f, "pre_commit"@) is Some {
        Some(
            ConfigV {
                type_prefix: opt_str(f, "type_prefix"@).unwrap(),
                type_suffix: opt_str(f, "type_suffix"@).unwrap(),
                subject_separator: req_str(f, "subject_separator"@).unwrap(),
                scope_prefix: req_str(f, "scope_prefix"@).unwrap(),
                scope_suffix: req_str(f, "scope_suffix"@).unwrap(),
                pre_commit: opt_str(f, "pre_commit"@).unwrap(),
            },
        )
    } else {
        None
    }
}

/// The commit type or scope entry that a JSON value reads as.
pub open spec fn type_of(j: Json) -> Option<TypeV> {
    match j {
        Json::Obj(fields) => type_of_fields(fields@),
        _ => None,
    }
}

/// The commit type or scope entry read from the members of a JSON object.
pub open spec fn type_of_fields(f: Seq<(String, Json)>) -> Option<TypeV> {
    if req_str(f, "name"@) is Some && req_str(f, "description"@) is Some {
        Some(
            TypeV {
                name: req_str(f, "name"@).unwrap(),
                description: req_str(f, "description"@).unwrap(),
            },
        )
    } else {
        None
    }
}

/// Every element read as a commit type or scope entry, or `None` where any
/// element is not one. An empty sequence reads as an empty vocabulary: the
/// schema does not require the vocabularies to be non-empty.
pub open spec fn types_of(arr: Seq<Json>) -> Option<Seq<TypeV>> {
    if forall|i: int| 0 <= i < arr.len() ==> #[trigger] type_of(arr[i]) is Some {
        Some(Seq::new(arr.len(), |i: int| type_of(arr[i]).unwrap()))
    } else {
        None
    }
}

/// The `msg` section that a JSON value reads as.
pub open spec fn messages_of(j: Json) -> Option<MessagesV> {
    match j {
        Json::Obj(fields) => messages_of_fields(fields@),
        _ => None,
    }
}

/// The `msg` section read from the members of a JSON object.
pub open spec fn messages_of_fields(f: Seq<(String, Json)>) -> Option<MessagesV> {
    if req_str(f, "commit_type"@) is Some && req_str(f, "commit_scope"@) is Some && req_str(
        f,
        "commit_description"@,
    ) is Some && req_str(f, "commit_body"@) is Some && req_str(f, "commit_footer"@) is Some {
        Some(
            MessagesV {
                commit_type: req_str(f, "commit_type"@).unwrap(),
                commit_scope: req_str(f, "commit_scope"@).unwrap(),
                commit_description: req_str(f, "commit_description"@).unwrap(),
                commit_body: req_str(f, "commit_body"@).unwrap(),
                commit_footer: req_str(f, "commit_footer"@).unwrap(),
            },
        )
    } else {
        None
    }
}

/// The commit pattern that a JSON document reads as, or `None` where the
/// document violates the schema.
pub open spec fn pattern_of(j: Json) -> Option<PatternV> {
    match j {
        Json::Obj(fields) => pattern_of_fields(fields@),
        _ => None,
    }
}

/// The commit pattern read from the members of the root JSON object.
pub open spec fn pattern_of_fields(f: Seq<(String, Json)>) -> Option<PatternV> {
    let config = match lookup(f, "config"@) {
        Some(j) => config_of(j),
        None => None,
    };
    let commit_types = match lookup(f, "commit_types"@) {
        Some(j) => match arr_of(j) {
            Some(a) => types_of(a),
            None => None,
        },
        None => None,
    };
    let commit_scopes = match lookup(f, "commit_scopes"@) {
        Some(j) => match arr_of(j) {
            Some(a) => types_of(a),
            None => None,
        },
        None => None,
    };
    let msg = match lookup(f, "msg"@) {
        Some(j) => messages_of(j),
        None => None,
    };
    if config is Some && commit_types is Some && commit_scopes is Some && msg is Some {
        Some(
            PatternV {
                config: config.unwrap(),
                commit_types: commit_types.unwrap(),
                commit_scopes: commit_scopes.unwrap(),
                msg: msg.unwrap(),
            },
        )
    } else {
        None
    }
}

/// Validates a JSON value as the `config` section.
pub fn parse_config(j: &Json) -> (r: Option<Config>)
    ensures
        match r {
            Some(c) => config_of(*j) == Some(c@),
            None => config_of(*j) is None,
        },
{
    match j {
        Json::Obj(fields) => {
            let subject_separator = match get_req_str(
                fields,
                &String::from_str("subject_separator"),
            ) {
                Some(s) => s,
                None => { return None; },
            };
            let scope_prefix = match get_req_str(fields, &String::from_str("scope_prefix")) {
                Some(s) => s,
                None => { return None; },
            };
            let scope_suffix = match get_req_str(fields, &String::from_str("scope_suffix")) {
                Some(s) => s,
                None => { return None; },
            };
            let type_prefix = match get_opt_str(fields, &String::from_str("type_prefix")) {
                Some(o) => o,
                None => { return None; },
            };
            let type_suffix = match get_opt_str(fields, &String::from_str("type_suffix")) {
                Some(o) => o,
                None => { return None; },
            };
            let pre_commit = match get_opt_str(fields, &String::from_str("pre_commit")) {
                Some(o) => o,
                None => { return None; },
            };
            Some(
                Config {
                    type_prefix,
                    type_suffix,
                    subject_separator,
                    scope_prefix,
                    scope_suffix,
                    pre_commit,
                },
            )
        },
        _ => None,
    }
}

/// Validates a JSON value as one commit type or scope entry.
pub fn parse_type(j: &Json) -> (r: Option<Type>)
    ensures
        match r {
            Some(t) => type_of(*j) == Some(t@),
            None => type_of(*j) is None,
        },
{
    match j {
        Json::Obj(fields) => {
            let name = match get_req_str(fields, &String::from_str("name")) {
                Some(s) => s,
                None => { return None; },
            };
            let description = match get_req_str(fields, &String::from_str("description")) {
                Some(s) => s,
                None => { return None; },
            };
            Some(Type { name, description })
        },
        _ => None,
    }
}

/// Validates every element of a JSON array as a commit type or scope entry.
pub fn parse_types(arr: &Vec<Json>) -> (r: Option<Vec<Type>>)
    ensures
        match r {
            Some(v) => types_of(arr@) == Some(types_view(v@)),
            None => types_of(arr@) is None,
        },
{
    let mut out: Vec<Type> = Vec::new();
    let mut i: usize = 0;
    while i < arr.len()
        invariant
            i <= arr@.len(),
            out@.len() == i,
            forall|k: int| 0 <= k < i ==> #[trigger] type_of(arr@[k]) is Some,
            forall|k: int| 0 <= k < i ==> (#[trigger] out@[k])@ == type_of(arr@[k]).unwrap(),
        decreases arr@.len() - i,
    {
        match parse_type(&arr[i]) {
            Some(t) => {
                out.push(t);
            },
            None => {
                return None;
            },
        }
        i = i + 1;
    }
    assert(types_of(arr@) == Some(types_view(out@))) by {
        assert(types_view(out@) =~= Seq::new(arr@.len(), |k: int| type_of(arr@[k]).unwrap()));
    }
    Some(out)
}

/// Validates a JSON value as the `msg` section.
pub fn parse_messages(j: &Json) -> (r: Option<Messages>)
    ensures
        match r {
            Some(m) => messages_of(*j) == Some(m@),
            None => messages_of(*j) is None,
        },
{
    match j {
        Json::Obj(fields) => {
            let commit_type = match get_req_str(fields, &String::from_str("commit_type")) {
                Some(s) => s,
                None => { return None; },
            };
            let commit_scope = match get_req_str(fields, &String::from_str("commit_scope")) {
                Some(s) => s,
                None => { return None; },
            };
            let commit_description = match get_req_str(
                fields,
                &String::from_str("commit_description"),
            ) {
                Some(s) => s,
                None => { return None; },
            };
            let commit_body = match get_req_str(fields, &String::from_str("commit_body")) {
                Some(s) => s,
                None => { return None; },
            };
            let commit_footer = match get_req_str(fields, &String::from_str("commit_footer")) {
                Some(s) => s,
                None => { return None; },
            };
            Some(
                Messages {
                    commit_type,
                    commit_scope,
                    commit_description,
                    commit_body,
                    commit_footer,
                },
            )
        },
        _ => None,
    }
}

/// Validates a JSON document as a whole commit pattern.
pub fn parse_pattern(j: &Json) -> (r: Option<CommitPattern>)
    ensures
        match r {
            Some(p) => pattern_of(*j) == Some(p@),
            None => pattern_of(*j) is None,
        },
{
    match j {
        Json::Obj(fields) => {
            let config = match obj_get(fields, &String::from_str("config")) {
                Some(cj) => match parse_config(cj) {
                    Some(c) => c,
                    None => { return None; },
                },
                None => { return None; },
            };
            let commit_types = match obj_get(fields, &String::from_str("commit_types")) {
                Some(tj) => match tj {
                    Json::Arr(a) => match parse_types(a) {
                        Some(v) => v,
                        None => { return None; },
                    },
                    _ => { return None; },
                },
                None => { return None; },
            };
            let commit_scopes = match obj_get(fields, &String::from_str("commit_scopes")) {
                Some(sj) => match sj {
                    Json::Arr(a) => match parse_types(a) {
                        Some(v) => v,
                        None => { return None; },
                    },
                    _ => { return None; },
                },
                None => { return None; },
            };
            let msg = match obj_get(fields, &String::from_str("msg")) {
                Some(mj) => match parse_messages(mj) {
                    Some(m) => m,
                    None => { return None; },
                },
                None => { return None; },
            };
            Some(CommitPattern { config, commit_types, commit_scopes, msg })
        },
        _ => None,
    }
}

} // verus!
