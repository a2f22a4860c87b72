//! JSON documents, read with `serde_json`. A parsed document is carried
//! around as it comes from there; what it holds is spoken of through the
//! names below.

use serde_json::{Error, Value};
use vstd::prelude::*;

verus! {

#[verifier::external_type_specification]
#[verifier::external_body]
pub struct ExValue(serde_json::Value);

#[verifier::external_type_specification]
#[verifier::external_body]
pub struct ExError(serde_json::Error);

/// What `serde_json::from_str` makes of `text`: the document, or the error
/// for a text that is no JSON document.
pub uninterp spec fn parsed(text: Seq<char>) -> Result<Value, Error>;

/// The members of a document that is an object, by their keys. Any other
/// document has none.
pub uninterp spec fn members(value: Value) -> Map<Seq<char>, Value>;

/// The text of a document that is a string.
pub uninterp spec fn text_of(value: Value) -> Option<Seq<char>>;

/// Whether a document is an object.
pub uninterp spec fn is_object(value: Value) -> bool;

/// What a parse error says when it is shown.
pub uninterp spec fn message_of(error: Error) -> Seq<char>;

/// `serde_json::from_str`, for a whole document.
#[verifier::external_body]
pub(crate) fn parse(text: &str) -> (r: Result<Value, Error>)
    ensures
        r == parsed(text@),
{
    serde_json::from_str::<Value>(text)
}

/// `Value::get` with a key: the member of that name, where the document is
/// an object and has one.
#[verifier::external_body]
pub(crate) fn member<'a>(value: &'a Value, key: &str) -> (r: Option<&'a Value>)
    ensures
        match r {
            Some(found) => members(*value).contains_key(key@) && members(*value)[key@] == *found,
            None => !members(*value).contains_key(key@),
        },
{
    value.get(key)
}

/// `Value::as_str`: the text, where the document is a string.
#[verifier::external_body]
pub(crate) fn as_text<'a>(value: &'a Value) -> (r: Option<&'a str>)
    ensures
        match r {
            Some(text) => text_of(*value) == Some(text@),
            None => text_of(*value) is None,
        },
{
    value.as_str()
}

/// `Value::is_object`.
#[verifier::external_body]
pub(crate) fn value_is_object(value: &Value) -> (r: bool)
    ensures
        r == is_object(*value),
{
    value.is_object()
}

/// The `Display` of `serde_json::Error`, through `to_string`.
#[verifier::external_body]
pub(crate) fn error_message(error: &Error) -> (text: String)
    ensures
        text@ == message_of(*error),
{
    error.to_string()
}

/// The text of the member `key` of `value`, where it has such a member and
/// the member is a string.
pub open spec fn member_text(value: Value, key: Seq<char>) -> Option<Seq<char>> {
    if members(value).contains_key(key) {
        text_of(members(value)[key])
    } else {
        None
    }
}

/// What `check_config` says of a text that is a JSON document but no
/// object.
pub open spec fn not_an_object() -> Seq<char> {
    "Config must be a JSON object."@
}

/// What `check_config` says of a configuration `content`: it is accepted
/// where it is a JSON document and an object.
pub open spec fn config_verdict(document: Result<Value, Error>) -> Result<(), Seq<char>> {
    match document {
        Err(error) => Err("Invalid JSON: "@ + message_of(error)),
        Ok(value) => if is_object(value) {
            Ok(())
        } else {
            Err(not_an_object())
        },
    }
}

/// Whether a parsed configuration may be saved.
pub fn judge_config(document: &Result<Value, Error>) -> (r: Result<(), String>)
    ensures
        match config_verdict(*document) {
            Ok(_) => r is Ok,
            Err(reason) => r is Err && r->Err_0@ == reason,
        },
{
    match document {
        Err(error) => {
            let reason = error_message(error);
            Err(crate::text::join_text("Invalid JSON: ", reason.as_str()))
        },
        Ok(value) => {
            if value_is_object(value) {
                Ok(())
            } else {
                Err("Config must be a JSON object.".to_owned())
            }
        },
    }
}

/// Whether `content` may be saved as the configuration: it must be a JSON
/// document, and an object.
pub fn check_config(content: &str) -> (r: Result<(), String>)
    ensures
        match config_verdict(parsed(content@)) {
            Ok(_) => r is Ok,
            Err(reason) => r is Err && r->Err_0@ == reason,
        },
{
    let document = parse(content);
    judge_config(&document)
}

/// The workspace that a configuration names: the string at `agents`,
/// `defaults`, `workspace`, where the document has one.
pub open spec fn configured_workspace(document: Result<Value, Error>) -> Option<Seq<char>> {
    match document {
        Err(_) => None,
        Ok(value) => {
            let agents = members(value);
            if agents.contains_key("agents"@) {
                let defaults = members(agents["agents"@]);
                if defaults.contains_key("defaults"@) {
                    member_text(defaults["defaults"@], "workspace"@)
                } else {
                    None
                }
            } else {
                None
            }
        },
    }
}

/// The workspace that a parsed configuration names.
pub fn workspace_in(document: &Result<Value, Error>) -> (workspace: Option<String>)
    ensures
        match workspace {
            Some(dir) => configured_workspace(*document) == Some(dir@),
            None => configured_workspace(*document) is None,
        },
{
    match document {
        Err(_) => None,
        Ok(value) => {
            let agents = match member(value, "agents") {
                Some(v) => v,
                None => {
                    return None;
                },
            };
            let defaults = match member(agents, "defaults") {
                Some(v) => v,
                None => {
                    return None;
                },
            };
            let workspace = match member(defaults, "workspace") {
                Some(v) => v,
                None => {
                    return None;
                },
            };
            match as_text(workspace) {
                Some(text) => Some(text.to_owned()),
                None => None,
            }
        },
    }
}

/// Whether `job` is the scheduled job of the identifier `job_id`: its
/// member `id` is that very string.
pub fn names_job(job: &Value, job_id: &str) -> (r: bool)
    ensures
        r == (member_text(*job, "id"@) == Some(job_id@)),
{
    match member(job, "id") {
        Some(id) => match as_text(id) {
            Some(text) => crate::text::same_text(text, job_id),
            None => false,
        },
        None => false,
    }
}

} // verus!
