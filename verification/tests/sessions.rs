use nanobot_desktop::command::Platform;
use nanobot_desktop::sessions::{
    delete_session_line, delete_session_lines, is_session_file, message_in_document,
    read_session_file, read_session_history, read_session_messages, validate_session_name,
    SessionMessagePayload,
};
use serde_json::Value;

fn message(id: &str, role: &str, content: &str, created_at: &str, line: usize) -> SessionMessagePayload {
    SessionMessagePayload {
        id: id.to_string(),
        role: role.to_string(),
        content: content.to_string(),
        created_at: created_at.to_string(),
        line,
    }
}

const SESSION: &str = "{\"_type\": \"metadata\", \"content\": \"not a message\"}\n\
     {\"role\": \"user\", \"content\": \"Hello there\", \"timestamp\": \"2025-01-01T10:00:00\"}\n\
     \n\
     not json at all\n\
     {\"role\": \"assistant\", \"content\": \"General Kenobi\", \"created_at\": \"2025-01-01T10:00:01\"}\r\n\
     {\"role\": \"tool\", \"content\": \"\"}\n\
     {\"content\": \"no role, no time\"}\n\
     {\"role\": 5, \"content\": \"odd HELLO\", \"timestamp\": 12, \"created_at\": \"never read\"}\n\
     \x20 {\"role\": \"user\", \"content\": \"indented\", \"updated_at\": \"2025-01-02\"}  ";

fn copy(m: &SessionMessagePayload) -> SessionMessagePayload {
    message(&m.id, &m.role, &m.content, &m.created_at, m.line)
}

fn copies(rows: &[SessionMessagePayload]) -> Vec<SessionMessagePayload> {
    rows.iter().map(copy).collect()
}

fn all_messages() -> Vec<SessionMessagePayload> {
    vec![
        message("2025-01-01T10:00:00-1", "user", "Hello there", "2025-01-01T10:00:00", 1),
        message("2025-01-01T10:00:01-4", "assistant", "General Kenobi", "2025-01-01T10:00:01", 4),
        message("unknown-6", "system", "no role, no time", "unknown", 6),
        message("unknown-7", "system", "odd HELLO", "unknown", 7),
        message("2025-01-02-8", "user", "indented", "2025-01-02", 8),
    ]
}

#[test]
fn the_lines_of_a_session_show_its_messages() {
    assert_eq!(read_session_file(SESSION, 100, 0, None), all_messages());
}

#[test]
fn a_page_holds_the_newest_messages_oldest_first() {
    let all = all_messages();
    assert_eq!(read_session_file(SESSION, 2, 0, None), copies(&all[3..5]));
    assert_eq!(read_session_file(SESSION, 2, 1, None), copies(&all[2..4]));
    assert_eq!(read_session_file(SESSION, 2, 4, None), copies(&all[0..1]));
    assert_eq!(read_session_file(SESSION, 5, 0, None), all);
    assert_eq!(read_session_file(SESSION, 1, 4, None), copies(&all[0..1]));
}

#[test]
fn a_page_beyond_the_messages_is_empty() {
    assert_eq!(read_session_file(SESSION, 10, 5, None), Vec::new());
    assert_eq!(read_session_file(SESSION, 10, 500, None), Vec::new());
    assert_eq!(read_session_file(SESSION, 0, 0, None), Vec::new());
    assert_eq!(read_session_file("", 10, 0, None), Vec::new());
}

#[test]
fn a_query_is_matched_without_regard_to_case() {
    let all = all_messages();
    assert_eq!(
        read_session_file(SESSION, 100, 0, Some("hello")),
        vec![copy(&all[0]), copy(&all[3])]
    );
    assert_eq!(
        read_session_file(SESSION, 100, 0, Some("KENOBI")),
        vec![copy(&all[1])]
    );
    assert_eq!(read_session_file(SESSION, 100, 0, Some("nothing like it")), Vec::new());
    assert_eq!(read_session_file(SESSION, 100, 0, Some("")), all);
    assert_eq!(
        read_session_file(SESSION, 1, 1, Some("hello")),
        vec![copy(&all[0])]
    );
}

#[test]
fn at_least_one_message_is_asked_for() {
    let all = all_messages();
    assert_eq!(read_session_history(SESSION, 0, 0), vec![copy(&all[4])]);
    assert_eq!(read_session_history(SESSION, 0, 2), vec![copy(&all[2])]);
    assert_eq!(read_session_history(SESSION, 3, 0), copies(&all[2..5]));
    assert_eq!(
        read_session_messages(SESSION, 0, 0, Some("hello")),
        vec![copy(&all[3])]
    );
    assert_eq!(read_session_messages(SESSION, 9, 0, None), all);
}

#[test]
fn a_document_shows_a_message_or_none() {
    let parse = |text: &str| serde_json::from_str::<Value>(text);
    assert_eq!(
        message_in_document(&parse("{\"content\": \"c\", \"role\": \"r\", \"updated_at\": \"u\"}"), 12, None),
        Some(message("u-12", "r", "c", "u", 12))
    );
    assert_eq!(
        message_in_document(
            &parse("{\"content\": \"c\", \"timestamp\": \"t\", \"created_at\": \"c\", \"updated_at\": \"u\"}"),
            0,
            None
        ),
        Some(message("t-0", "system", "c", "t", 0))
    );
    assert_eq!(
        message_in_document(&parse("{\"content\": \"c\", \"timestamp\": null, \"created_at\": \"c\"}"), 3, None),
        Some(message("unknown-3", "system", "c", "unknown", 3))
    );
    assert_eq!(message_in_document(&parse("{\"content\": \"c\", \"_type\": null}"), 0, None), None);
    assert_eq!(message_in_document(&parse("{\"content\": 7}"), 0, None), None);
    assert_eq!(message_in_document(&parse("{\"role\": \"user\"}"), 0, None), None);
    assert_eq!(message_in_document(&parse("[\"content\"]"), 0, None), None);
    assert_eq!(message_in_document(&parse("{"), 0, None), None);
    assert_eq!(
        message_in_document(&parse("{\"content\": \"Mixed CASE\"}"), 1, Some("mixed case")),
        Some(message("unknown-1", "system", "Mixed CASE", "unknown", 1))
    );
    assert_eq!(message_in_document(&parse("{\"content\": \"Mixed CASE\"}"), 1, Some("CASE")), None);
}

#[test]
fn a_session_name_may_not_hold_a_separator() {
    assert_eq!(validate_session_name("chat.jsonl", Platform::Unix), Ok(()));
    assert_eq!(validate_session_name("a\\b.jsonl", Platform::Unix), Ok(()));
    assert_eq!(validate_session_name("a/b.jsonl", Platform::Windows), Ok(()));
    assert_eq!(validate_session_name("", Platform::Unix), Ok(()));
    assert_eq!(
        validate_session_name("../secret", Platform::Unix),
        Err("invalid session name".to_string())
    );
    assert_eq!(
        validate_session_name("dir\\file", Platform::Windows),
        Err("invalid session name".to_string())
    );
}

#[test]
fn one_line_is_deleted_by_its_index() {
    assert_eq!(delete_session_line("a\nb\nc\n", 1), Ok("a\nc".to_string()));
    assert_eq!(delete_session_line("a\nb\nc", 0), Ok("b\nc".to_string()));
    assert_eq!(delete_session_line("a\r\nb\r\nc", 2), Ok("a\nb".to_string()));
    assert_eq!(delete_session_line("only", 0), Ok(String::new()));
    assert_eq!(delete_session_line("a\n\nb", 1), Ok("a\nb".to_string()));
}

#[test]
fn a_line_that_is_not_there_cannot_be_deleted() {
    assert_eq!(delete_session_line("a\nb\n", 2), Err("line out of range".to_string()));
    assert_eq!(delete_session_line("", 0), Err("line out of range".to_string()));
}

#[test]
fn several_lines_are_deleted_at_once() {
    let data = "l0\nl1\nl2\nl3\nl4\n";
    assert_eq!(delete_session_lines(data, &vec![1, 3]), "l0\nl2\nl4");
    assert_eq!(delete_session_lines(data, &vec![3, 1, 3, 1]), "l0\nl2\nl4");
    assert_eq!(delete_session_lines(data, &vec![4, 0, 99]), "l1\nl2\nl3");
    assert_eq!(delete_session_lines(data, &vec![]), "l0\nl1\nl2\nl3\nl4");
    assert_eq!(delete_session_lines(data, &vec![0, 1, 2, 3, 4]), "");
    assert_eq!(delete_session_lines("", &vec![0]), "");
}

#[test]
fn session_files_end_in_jsonl() {
    assert!(is_session_file("telegram_42.jsonl"));
    assert!(is_session_file("a.jsonl"));
    assert!(is_session_file("..jsonl"));
    assert!(is_session_file("x.y.jsonl"));
    assert!(!is_session_file("cli_direct.jsonl"));
    assert!(!is_session_file(".jsonl"));
    assert!(!is_session_file("jsonl"));
    assert!(!is_session_file("a.json"));
    assert!(!is_session_file("a.JSONL"));
    assert!(!is_session_file("a.jsonl.bak"));
    assert!(!is_session_file(""));
}
