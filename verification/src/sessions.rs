//! Recorded sessions: files of one JSON document per line. Which lines
//! show a message, which page of the messages is asked for, and what is
//! left of a file once lines are deleted. Reading and writing the files is
//! the caller's part.

use crate::command::Platform;
use crate::json::{as_text, member, member_text, members, parse, parsed, text_of};
use crate::text::texts;
use crate::text::{
    join_text, contains_text, decimal, decimal_text, join_lines, joined_lines, lines_of, lowercase,
    occurs_in, text_lines, text_view, to_chars, to_lowercase, trim, trimmed,
};
use serde_json::{Error, Value};
use vstd::prelude::*;

verus! {

/// `lines` without those whose index is one of `indices`.
pub open spec fn without_lines(lines: Seq<Seq<char>>, indices: Seq<usize>) -> Seq<Seq<char>>
    decreases lines.len(),
{
    if lines.len() == 0 {
        Seq::empty()
    } else if indices.contains((lines.len() - 1) as usize) {
        without_lines(lines.drop_last(), indices)
    } else {
        without_lines(lines.drop_last(), indices).push(lines.last())
    }
}

/// The character that separates the parts of a path.
pub open spec fn main_separator(platform: Platform) -> char {
    match platform {
        Platform::Unix => '/',
        Platform::Windows => '\\',
    }
}

/// What is said of a name that may not name a session file.
pub open spec fn invalid_session_name() -> Seq<char> {
    "invalid session name"@
}

/// What is said of a line that a file does not have.
pub open spec fn line_out_of_range() -> Seq<char> {
    "line out of range"@
}

fn holds(indices: &Vec<usize>, index: usize) -> (r: bool)
    ensures
        r == indices@.contains(index),
{
    let mut i: usize = 0;
    while i < indices.len()
        invariant
            i <= indices@.len(),
            forall|j: int| 0 <= j < i ==> indices@[j] != index,
        decreases indices@.len() - i,
    {
        if indices[i] == index {
            return true;
        }
        i += 1;
    }
    false
}

/// Whether `name` may name a session file: it may not hold the character
/// that separates the parts of a path.
pub fn validate_session_name(name: &str, platform: Platform) -> (r: Result<(), String>)
    ensures
        r is Ok <==> !name@.contains(main_separator(platform)),
        r matches Err(e) ==> e@ == invalid_session_name(),
{
    let separator = match platform {
        Platform::Unix => '/',
        Platform::Windows => '\\',
    };
    let chars = to_chars(name);
    let mut i: usize = 0;
    while i < chars.len()
        invariant
            i <= chars@.len(),
            chars@ == name@,
            separator == main_separator(platform),
            forall|j: int| 0 <= j < i ==> chars@[j] != separator,
        decreases chars@.len() - i,
    {
        if chars[i] == separator {
            return Err("invalid session name".to_owned());
        }
        i += 1;
    }
    Ok(())
}

/// The text of a session file without its line `line`, counted from 0.
/// A line that the file does not have is an error.
pub fn delete_session_line(data: &str, line: usize) -> (r: Result<String, String>)
    ensures
        match r {
            Ok(rest) => line < text_lines(data@).len() && rest@ == joined_lines(
                text_lines(data@).remove(line as int),
            ),
            Err(e) => line >= text_lines(data@).len() && e@ == line_out_of_range(),
        },
{
    let mut lines = lines_of(data);
    if line >= lines.len() {
        return Err("line out of range".to_owned());
    }
    let ghost before = lines@;
    lines.remove(line);
    assert(texts(lines@) =~= texts(before).remove(line as int));
    Ok(join_lines(&lines))
}

/// The text of a session file without the lines whose index, counted from
/// 0, is one of `indices`. An index that the file does not have is of no
/// account, and so is one given twice.
pub fn delete_session_lines(data: &str, indices: &Vec<usize>) -> (rest: String)
    ensures
        rest@ == joined_lines(without_lines(text_lines(data@), indices@)),
{
    let lines = lines_of(data);
    let mut kept: Vec<String> = Vec::new();
    let mut i: usize = 0;
    while i < lines.len()
        invariant
            i <= lines@.len(),
            texts(kept@) == without_lines(texts(lines@).take(i as int), indices@),
        decreases lines@.len() - i,
    {
        let ghost after = texts(lines@).take(i + 1);
        assert(after.drop_last() =~= texts(lines@).take(i as int));
        if !holds(indices, i) {
            kept.push(lines[i].clone());
        }
        i += 1;
    }
    assert(texts(lines@).take(i as int) =~= texts(lines@));
    join_lines(&kept)
}

/// One message of a recorded session.
#[derive(Debug, PartialEq, Eq)]
pub struct SessionMessagePayload {
    pub id: String,
    pub role: String,
    pub content: String,
    pub created_at: String,
    /// The index of the line that holds the message, counted from 0.
    pub line: usize,
}

/// What a `SessionMessagePayload` says.
pub struct SessionMessage {
    pub id: Seq<char>,
    pub role: Seq<char>,
    pub content: Seq<char>,
    pub created_at: Seq<char>,
    pub line: nat,
}

impl View for SessionMessagePayload {
    type V = SessionMessage;

    open spec fn view(&self) -> SessionMessage {
        SessionMessage {
            id: self.id@,
            role: self.role@,
            content: self.content@,
            created_at: self.created_at@,
            line: self.line as nat,
        }
    }
}

/// What each of `rows` says, in the same order.
pub open spec fn session_messages(rows: Seq<SessionMessagePayload>) -> Seq<SessionMessage> {
    rows.map_values(|m: SessionMessagePayload| m@)
}

/// The content of a message: the string at `content`, or nothing.
pub open spec fn content_of(value: Value) -> Seq<char> {
    match member_text(value, "content"@) {
        Some(text) => text,
        None => Seq::empty(),
    }
}

/// The role of a message: the string at `role`, or `system`.
pub open spec fn role_of(value: Value) -> Seq<char> {
    match member_text(value, "role"@) {
        Some(text) => text,
        None => "system"@,
    }
}

/// When a message was written: the first of the members `timestamp`,
/// `created_at` and `updated_at` that the document has, where it is a
/// string, else `unknown`.
pub open spec fn stamp_of(value: Value) -> Seq<char> {
    let all = members(value);
    let stamp = if all.contains_key("timestamp"@) {
        text_of(all["timestamp"@])
    } else if all.contains_key("created_at"@) {
        text_of(all["created_at"@])
    } else if all.contains_key("updated_at"@) {
        text_of(all["updated_at"@])
    } else {
        None
    };
    match stamp {
        Some(text) => text,
        None => "unknown"@,
    }
}

/// Whether a message of `content` is asked for: any is where there is no
/// query, else those in whose content, in lower case, the query stands.
pub open spec fn is_wanted(content: Seq<char>, lowered_query: Option<Seq<char>>) -> bool {
    match lowered_query {
        Some(query) => occurs_in(query, lowercase(content)),
        None => true,
    }
}

/// The message that the document on line `index` shows, if it shows one
/// that is asked for. A line that is no JSON document shows none, nor does
/// a document with a member `_type`, nor one without content.
pub open spec fn message_in(
    document: Result<Value, Error>,
    index: nat,
    lowered_query: Option<Seq<char>>,
) -> Option<SessionMessage> {
    match document {
        Err(_) => None,
        Ok(value) => if members(value).contains_key("_type"@) {
            None
        } else if content_of(value).len() == 0 {
            None
        } else if !is_wanted(content_of(value), lowered_query) {
            None
        } else {
            Some(
                SessionMessage {
                    id: stamp_of(value) + "-"@ + decimal(index),
                    role: role_of(value),
                    content: content_of(value),
                    created_at: stamp_of(value),
                    line: index,
                },
            )
        },
    }
}

/// The message that line `index` of a session file shows. A blank line
/// shows none.
pub open spec fn message_on(line: Seq<char>, index: nat, lowered_query: Option<Seq<char>>) -> Option<
    SessionMessage,
> {
    if trim(line).len() == 0 {
        None
    } else {
        message_in(parsed(trim(line)), index, lowered_query)
    }
}

/// The messages that `lines` show, in order.
pub open spec fn messages_on(lines: Seq<Seq<char>>, lowered_query: Option<Seq<char>>) -> Seq<
    SessionMessage,
>
    decreases lines.len(),
{
    if lines.len() == 0 {
        Seq::empty()
    } else {
        let before = messages_on(lines.drop_last(), lowered_query);
        match message_on(lines.last(), (lines.len() - 1) as nat, lowered_query) {
            Some(message) => before.push(message),
            None => before,
        }
    }
}

/// The page of `rows` that leaves out the newest `offset` rows and holds
/// up to `limit` of those before them, in their order.
pub open spec fn page<T>(rows: Seq<T>, limit: nat, offset: nat) -> Seq<T> {
    if offset >= rows.len() {
        Seq::empty()
    } else {
        let end = rows.len() - offset;
        let start = if end >= limit {
            end - limit
        } else {
            0
        };
        rows.subrange(start, end)
    }
}

/// The query in lower case, where there is one.
pub open spec fn lowered(query: Option<&str>) -> Option<Seq<char>> {
    match query {
        Some(q) => Some(lowercase(q@)),
        None => None,
    }
}

/// The message that the document on line `index` shows, where
/// `lowered_query` is the query in lower case.
pub fn message_in_document(
    document: &Result<Value, Error>,
    index: usize,
    lowered_query: Option<&str>,
) -> (message: Option<SessionMessagePayload>)
    ensures
        match message {
            Some(m) => message_in(*document, index as nat, text_view(lowered_query)) == Some(m@),
            None => message_in(*document, index as nat, text_view(lowered_query)) is None,
        },
{
    let value = match document {
        Ok(value) => value,
        Err(_) => {
            return None;
        },
    };
    if member(value, "_type").is_some() {
        return None;
    }
    let content = match member(value, "content") {
        Some(found) => match as_text(found) {
            Some(text) => text.to_owned(),
            None => String::new(),
        },
        None => String::new(),
    };
    if content.as_str().unicode_len() == 0 {
        return None;
    }
    if let Some(query) = lowered_query {
        let lower = to_lowercase(content.as_str());
        if !contains_text(lower.as_str(), query) {
            return None;
        }
    }
    let role = match member(value, "role") {
        Some(found) => match as_text(found) {
            Some(text) => text.to_owned(),
            None => "system".to_owned(),
        },
        None => "system".to_owned(),
    };
    let stamp = match member(value, "timestamp") {
        Some(found) => as_text(found),
        None => match member(value, "created_at") {
            Some(found) => as_text(found),
            None => match member(value, "updated_at") {
                Some(found) => as_text(found),
                None => None,
            },
        },
    };
    let created_at = match stamp {
        Some(text) => text.to_owned(),
        None => "unknown".to_owned(),
    };
    let number = decimal_text(index as u64);
    let head = join_text(created_at.as_str(), "-");
    let id = join_text(head.as_str(), number.as_str());
    Some(SessionMessagePayload { id, role, content, created_at, line: index })
}

/// The page of the messages of a session file that is asked for: of the
/// messages that the lines of `data` show and that match `query`, the
/// newest `offset` are left out, and up to `limit` of those before them are
/// handed out, oldest first.
pub fn read_session_file(data: &str, limit: usize, offset: usize, query: Option<&str>) -> (rows:
    Vec<SessionMessagePayload>)
    ensures
        session_messages(rows@) == page(
            messages_on(text_lines(data@), lowered(query)),
            limit as nat,
            offset as nat,
        ),
{
    let lower = match query {
        Some(q) => Some(to_lowercase(q)),
        None => None,
    };
    let lines = lines_of(data);
    let ghost wanted = lowered(query);
    let mut rows: Vec<SessionMessagePayload> = Vec::new();
    let mut i: usize = 0;
    while i < lines.len()
        invariant
            i <= lines@.len(),
            wanted == lowered(query),
            match lower {
                Some(l) => wanted == Some(l@),
                None => wanted is None,
            },
            session_messages(rows@) == messages_on(texts(lines@).take(i as int), wanted),
        decreases lines@.len() - i,
    {
        let ghost after = texts(lines@).take(i + 1);
        assert(after.drop_last() =~= texts(lines@).take(i as int));
        let text = trimmed(lines[i].as_str());
        if text.as_str().unicode_len() > 0 {
            let document = parse(text.as_str());
            let lowered_query = match &lower {
                Some(l) => Some(l.as_str()),
                None => None,
            };
            if let Some(message) = message_in_document(&document, i, lowered_query) {
                rows.push(message);
            }
        }
        i += 1;
    }
    assert(texts(lines@).take(i as int) =~= texts(lines@));
    let total = rows.len();
    if offset >= total {
        let none: Vec<SessionMessagePayload> = Vec::new();
        return none;
    }
    let end = total - offset;
    let start = if end >= limit {
        end - limit
    } else {
        0
    };
    rows.truncate(end);
    rows.split_off(start)
}

/// At least one message is asked for, whatever the caller says.
pub open spec fn at_least_one(limit: nat) -> nat {
    if limit >= 1 {
        limit
    } else {
        1
    }
}

/// A page of the history of the chat.
pub fn read_session_history(data: &str, limit: usize, offset: usize) -> (rows: Vec<
    SessionMessagePayload,
>)
    ensures
        session_messages(rows@) == page(
            messages_on(text_lines(data@), None),
            at_least_one(limit as nat),
            offset as nat,
        ),
{
    let limit = if limit >= 1 {
        limit
    } else {
        1
    };
    read_session_file(data, limit, offset, None)
}

/// A page of the messages of a session that match `query`.
pub fn read_session_messages(data: &str, limit: usize, offset: usize, query: Option<&str>) -> (rows:
    Vec<SessionMessagePayload>)
    ensures
        session_messages(rows@) == page(
            messages_on(text_lines(data@), lowered(query)),
            at_least_one(limit as nat),
            offset as nat,
        ),
{
    let limit = if limit >= 1 {
        limit
    } else {
        1
    };
    read_session_file(data, limit, offset, query)
}

/// A page never holds more than `limit` rows, and what it holds stands in
/// `rows` in the same order, right before the newest `offset` rows.
pub proof fn lemma_page_is_a_window<T>(rows: Seq<T>, limit: nat, offset: nat)
    ensures
        page(rows, limit, offset).len() <= limit,
        page(rows, limit, offset).len() <= rows.len(),
        offset < rows.len() ==> page(rows, limit, offset) + rows.skip(rows.len() - offset)
            == rows.skip(rows.len() - offset - page(rows, limit, offset).len()),
{
}

/// The name of the file that holds the history of the chat.
pub open spec fn chat_history_name() -> Seq<char> {
    "cli_direct.jsonl"@
}

/// Whether a file of this name is listed as a recorded session: its
/// extension is `jsonl`, and it is not the history of the chat.
pub open spec fn is_listed_session(name: Seq<char>) -> bool {
    &&& name != chat_history_name()
    &&& name.len() > 6
    &&& name.skip(name.len() - 6) == ".jsonl"@
}

/// Whether a file of this name is listed as a recorded session.
pub fn is_session_file(name: &str) -> (r: bool)
    ensures
        r == is_listed_session(name@),
{
    if crate::text::same_text(name, "cli_direct.jsonl") {
        return false;
    }
    let chars = to_chars(name);
    if chars.len() <= 6 {
        return false;
    }
    let ending = crate::text::text_of(&chars, chars.len() - 6, chars.len());
    crate::text::same_text(ending.as_str(), ".jsonl")
}

} // verus!
