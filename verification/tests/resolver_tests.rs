use bar_supervisor::bootstrap::{select_source, ConfigSource};
use bar_supervisor::errors::ErrorKind;
use bar_supervisor::resolver::{
    classify_search, config_from_file, config_from_stdin, extract_blocks,
};

fn block_name(value: &toml::Value) -> &str {
    value.get("block").and_then(|v| v.as_str()).expect("block entry names its block")
}

#[test]
fn select_source_sentinel_is_stdin() {
    assert_eq!(select_source("-"), ConfigSource::Stdin);
}

#[test]
fn select_source_path_is_file() {
    assert_eq!(select_source("config.toml"), ConfigSource::File);
    assert_eq!(select_source(""), ConfigSource::File);
    assert_eq!(select_source("--"), ConfigSource::File);
}

#[test]
fn stdin_valid_two_blocks_in_order() {
    let text = "[[block]]\nblock = \"load\"\n\n[[block]]\nblock = \"uptime\"\n";
    let mut config = config_from_stdin(Ok(text.to_string())).expect("valid config must parse");
    let mut queue = extract_blocks(&mut config);
    assert!(config.get("block").is_none());
    let first = queue.next_definition().expect("first block");
    let second = queue.next_definition().expect("second block");
    assert_eq!(block_name(&first), "load");
    assert_eq!(block_name(&second), "uptime");
    assert!(queue.next_definition().is_none());
}

#[test]
fn stdin_valid_two_blocks_reversed_order_kept() {
    let text = "[[block]]\nblock = \"uptime\"\n\n[[block]]\nblock = \"load\"\n";
    let mut config = config_from_stdin(Ok(text.to_string())).expect("valid config must parse");
    let mut queue = extract_blocks(&mut config);
    let first = queue.next_definition().expect("first block");
    let second = queue.next_definition().expect("second block");
    assert_eq!(block_name(&first), "uptime");
    assert_eq!(block_name(&second), "load");
    assert!(queue.next_definition().is_none());
}

#[test]
fn settings_outside_blocks_stay_in_table() {
    let text = "invert_scrolling = true\n\n[[block]]\nblock = \"time\"\n";
    let mut config = config_from_stdin(Ok(text.to_string())).expect("valid config must parse");
    let mut queue = extract_blocks(&mut config);
    assert_eq!(config.get("invert_scrolling").and_then(|v| v.as_bool()), Some(true));
    assert_eq!(block_name(&queue.next_definition().expect("one block")), "time");
    assert!(queue.next_definition().is_none());
}

#[test]
fn empty_block_list_spawns_nothing() {
    let mut config = config_from_stdin(Ok("invert_scrolling = false\n".to_string()))
        .expect("valid config must parse");
    let mut queue = extract_blocks(&mut config);
    assert!(queue.next_definition().is_none());
}

#[test]
fn stdin_empty_input_is_config_error_without_message() {
    let err = config_from_stdin(Ok(String::new())).expect_err("empty stdin must fail");
    assert_eq!(err.kind, ErrorKind::Config);
    assert!(err.message.is_none());
    assert!(err.cause.is_none());
    assert!(err.block.is_none());
}

#[test]
fn stdin_read_failure_carries_fixed_message_and_cause() {
    let err = config_from_stdin(Err("broken pipe".to_string())).expect_err("read failure");
    assert_eq!(err.kind, ErrorKind::Config);
    assert_eq!(
        err.message.as_deref(),
        Some("Configuration file could not be read from stdin")
    );
    assert_eq!(err.cause.as_deref(), Some("broken pipe"));
    assert!(err.block.is_none());
}

#[test]
fn stdin_unparsable_text_is_config_error_with_parser_message() {
    let err = config_from_stdin(Ok("this ][ is not toml".to_string())).expect_err("bad toml");
    assert_eq!(err.kind, ErrorKind::Config);
    let message = err.message.expect("parse failure carries a message");
    assert!(message.starts_with("Failed to deserialize TOML: "));
    assert!(message.len() > "Failed to deserialize TOML: ".len());
    assert!(err.cause.is_none());
    assert!(err.block.is_none());
}

#[test]
fn classify_search_hands_found_path_through() {
    let ok = classify_search("id", Ok(Some("/etc/bar.toml".to_string())));
    assert_eq!(ok.unwrap(), "/etc/bar.toml");
}

#[test]
fn classify_search_missing_file_names_identifier() {
    let err = classify_search("surely_absent_configuration_zq", Ok(None)).expect_err("missing");
    assert_eq!(err.kind, ErrorKind::Config);
    assert_eq!(
        err.message.as_deref(),
        Some("Configuration file 'surely_absent_configuration_zq' not found")
    );
    assert!(err.cause.is_none());
    assert!(err.block.is_none());
}

#[test]
fn classify_search_reports_search_failure_text() {
    let err = classify_search("id", Err("Unable to stat file".to_string())).expect_err("failure");
    assert_eq!(err.kind, ErrorKind::Config);
    assert_eq!(err.message.as_deref(), Some("Unable to stat file"));
    assert!(err.cause.is_none());
}

#[test]
fn file_read_failure_reported_as_not_found_with_cause() {
    let err = config_from_file("myconf", "/tmp/myconf.toml", Err("io oops".to_string()))
        .expect_err("read failure");
    assert_eq!(err.kind, ErrorKind::Config);
    assert_eq!(
        err.message.as_deref(),
        Some("Configuration file 'myconf' not found")
    );
    assert_eq!(err.cause.as_deref(), Some("io oops"));
}

#[test]
fn file_parse_failure_names_path() {
    let err = config_from_file("myconf", "/tmp/myconf.toml", Ok("][".to_string()))
        .expect_err("bad toml");
    assert_eq!(err.kind, ErrorKind::Config);
    let message = err.message.expect("parse failure carries a message");
    assert!(message.starts_with("Failed to deserialize TOML file /tmp/myconf.toml: "));
}

#[test]
fn file_valid_text_parses() {
    let config = config_from_file(
        "myconf",
        "/tmp/myconf.toml",
        Ok(String::from("[[block]]\nblock = \"time\"\n")),
    );
    let mut config = config.expect("valid config must parse");
    let mut queue = extract_blocks(&mut config);
    assert_eq!(block_name(&queue.next_definition().expect("one block")), "time");
}
