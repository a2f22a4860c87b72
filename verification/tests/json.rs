use nanobot_desktop::json::{check_config, judge_config, names_job, workspace_in};
use serde_json::Value;

fn parse(text: &str) -> Result<Value, serde_json::Error> {
    serde_json::from_str::<Value>(text)
}

#[test]
fn an_object_is_a_configuration() {
    assert_eq!(check_config("{}"), Ok(()));
    assert_eq!(check_config(" {\"agents\": {\"defaults\": {}}} "), Ok(()));
}

#[test]
fn other_documents_are_no_configuration() {
    for content in ["[]", "null", "1", "\"text\"", "true", "[{}]"] {
        assert_eq!(
            check_config(content),
            Err("Config must be a JSON object.".to_string()),
            "{content:?}"
        );
    }
}

#[test]
fn what_is_no_json_is_refused_with_the_parser_s_words() {
    for content in ["", "{", "{\"a\":}", "{} {}", "{'a': 1}", "nul"] {
        let expected = format!("Invalid JSON: {}", parse(content).unwrap_err());
        assert_eq!(check_config(content), Err(expected), "{content:?}");
    }
    assert_eq!(
        check_config("{"),
        Err("Invalid JSON: EOF while parsing an object at line 1 column 1".to_string())
    );
}

#[test]
fn the_verdict_follows_the_parsed_document() {
    assert_eq!(judge_config(&parse("{\"k\": [1, 2]}")), Ok(()));
    assert_eq!(judge_config(&parse("7")), Err("Config must be a JSON object.".to_string()));
    assert_eq!(
        judge_config(&parse("[1,")),
        Err("Invalid JSON: EOF while parsing a value at line 1 column 3".to_string())
    );
}

#[test]
fn the_workspace_is_read_from_the_defaults_of_the_agents() {
    let config = parse("{\"agents\": {\"defaults\": {\"workspace\": \"~/bot\", \"model\": \"m\"}}}");
    assert_eq!(workspace_in(&config), Some("~/bot".to_string()));
    let config = parse("{\"agents\": {\"defaults\": {\"workspace\": \"\"}}}");
    assert_eq!(workspace_in(&config), Some(String::new()));
}

#[test]
fn a_configuration_without_workspace_names_none() {
    for content in [
        "{}",
        "{\"agents\": {}}",
        "{\"agents\": {\"defaults\": {}}}",
        "{\"agents\": {\"defaults\": {\"workspace\": 5}}}",
        "{\"agents\": {\"defaults\": {\"workspace\": null}}}",
        "{\"agents\": {\"defaults\": {\"workspace\": [\"x\"]}}}",
        "{\"agents\": {\"defaults\": [\"workspace\"]}}",
        "{\"agents\": [{\"defaults\": {\"workspace\": \"x\"}}]}",
        "{\"defaults\": {\"workspace\": \"x\"}}",
        "{\"workspace\": \"x\"}",
        "[]",
        "\"agents\"",
        "not json",
        "",
    ] {
        assert_eq!(workspace_in(&parse(content)), None, "{content:?}");
    }
}

#[test]
fn a_job_is_named_by_its_identifier() {
    let job = parse("{\"id\": \"job-1\", \"name\": \"daily\"}").unwrap();
    assert!(names_job(&job, "job-1"));
    assert!(!names_job(&job, "job-2"));
    assert!(!names_job(&job, ""));
    assert!(!names_job(&parse("{\"id\": 1}").unwrap(), "1"));
    assert!(!names_job(&parse("{\"name\": \"job-1\"}").unwrap(), "job-1"));
    assert!(!names_job(&parse("[\"job-1\"]").unwrap(), "job-1"));
    assert!(!names_job(&parse("\"job-1\"").unwrap(), "job-1"));
}
