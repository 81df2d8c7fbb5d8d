use kanban_tui::edit_format::{fix_trailing_commas, strip_jsonc_comments, EditFormat};

#[test]
fn test_edit_format_from_str_json() {
    assert_eq!(EditFormat::parse("json"), EditFormat::Json);
}

#[test]
fn test_edit_format_from_str_toml() {
    assert_eq!(EditFormat::parse("toml"), EditFormat::Toml);
}

#[test]
fn test_edit_format_from_str_unknown_defaults_json() {
    assert_eq!(EditFormat::parse("yaml"), EditFormat::Json);
    assert_eq!(EditFormat::parse(""), EditFormat::Json);
}

#[test]
fn test_edit_format_file_extension_json() {
    assert_eq!(EditFormat::Json.file_extension(), "jsonc");
}

#[test]
fn test_edit_format_file_extension_toml() {
    assert_eq!(EditFormat::Toml.file_extension(), "toml");
}

#[test]
fn test_comment_storage_fields_json() {
    let input =
        "{\n  \"default_card_prefix\": \"feat\",\n  \"storage_backend\": \"sqlite\",\n  \"storage_location\": \"/tmp/b.db\"\n}";
    let result = EditFormat::Json.comment_storage_fields(input);
    assert!(
        result
            .lines()
            .any(|l| l.starts_with("// ") && l.contains("\"storage_backend\"")),
        "storage_backend line should be commented out"
    );
    assert!(
        result
            .lines()
            .any(|l| l.starts_with("// ") && l.contains("\"storage_location\"")),
        "storage_location line should be commented out"
    );
    assert!(result.contains("\"default_card_prefix\""));
    assert!(
        !result
            .lines()
            .any(|l| l.starts_with("// ") && l.contains("\"default_card_prefix\"")),
        "default_card_prefix should not be commented out"
    );
}

#[test]
fn test_comment_storage_fields_toml() {
    let input =
        "default_card_prefix = \"feat\"\nstorage_backend = \"sqlite\"\nstorage_location = \"/tmp/b.db\"\n";
    let result = EditFormat::Toml.comment_storage_fields(input);
    assert!(
        result
            .lines()
            .any(|l| l.starts_with("# ") && l.contains("storage_backend")),
        "storage_backend line should be commented out"
    );
    assert!(
        result
            .lines()
            .any(|l| l.starts_with("# ") && l.contains("storage_location")),
        "storage_location line should be commented out"
    );
    assert!(
        !result
            .lines()
            .any(|l| l.starts_with("# ") && l.contains("default_card_prefix")),
        "default_card_prefix should not be commented out"
    );
}

#[test]
fn parse_is_case_insensitive() {
    assert_eq!(EditFormat::parse("TOML"), EditFormat::Toml);
    assert_eq!(EditFormat::parse("ToMl"), EditFormat::Toml);
    assert_eq!(EditFormat::parse("toml "), EditFormat::Json);
}

#[test]
fn strip_removes_line_and_block_comments_keeping_newlines() {
    let input = "{\n  \"a\": 1, // the a\n  /* block\n  comment */ \"b\": 2\n}";
    let out = strip_jsonc_comments(input);
    assert_eq!(out, "{\n  \"a\": 1, \n  \n \"b\": 2\n}");
    assert_eq!(out.matches('\n').count(), input.matches('\n').count());
}

#[test]
fn strip_ignores_comment_markers_inside_strings() {
    let input = "{\n  \"default_card_prefix\": \"feat//nope\",\n  \"x\": \"a\\\"/*b\"\n}";
    assert_eq!(strip_jsonc_comments(input), input);
}

#[test]
fn strip_leaves_text_without_slashes_alone() {
    let input = "{\"k\": [1, 2, 3]}";
    assert_eq!(strip_jsonc_comments(input), input);
}

#[test]
fn trailing_comma_before_closing_brace_is_removed() {
    let input = "{\n  \"a\": 1,\n  \"b\": 2,\n\n}";
    assert_eq!(fix_trailing_commas(input), "{\n  \"a\": 1,\n  \"b\": 2\n\n}");
    let arr = "[\n  1,\n  2, \n]\n";
    assert_eq!(fix_trailing_commas(arr), "[\n  1,\n  2 \n]");
}

#[test]
fn prepare_for_parse_cleans_commented_fields() {
    let input = "{\n  \"default_card_prefix\": \"feat\",\n  \"editing_format\": \"json\",\n//   \"storage_backend\": \"sqlite\",\n//   \"storage_location\": \"/tmp/b.db\"\n}";
    let cleaned = EditFormat::Json.prepare_for_parse(input);
    assert_eq!(
        cleaned,
        "{\n  \"default_card_prefix\": \"feat\",\n  \"editing_format\": \"json\"\n\n\n}"
    );
    assert_eq!(EditFormat::Toml.prepare_for_parse("a = 1 // x"), "a = 1 // x");
}

#[test]
fn format_names() {
    assert_eq!(EditFormat::Json.name(), "json");
    assert_eq!(EditFormat::Toml.name(), "toml");
}

fn parse_json(input: &str) -> serde_json::Value {
    let prepared = EditFormat::Json.prepare_for_parse(input);
    serde_json::from_str(&prepared).unwrap()
}

#[test]
fn test_json_deserialize_strips_line_comments() {
    let input = "{\n  \"default_card_prefix\": \"feat\",\n//   \"storage_backend\": \"sqlite\",\n  \"editing_format\": \"json\"\n}";
    let v = parse_json(input);
    assert_eq!(v["default_card_prefix"].as_str(), Some("feat"));
    assert!(v.get("storage_backend").is_none());
}

#[test]
fn test_json_deserialize_strips_inline_comments() {
    let input = "{\n  \"default_card_prefix\": \"feat\", // the prefix\n  \"editing_format\": \"json\"\n}";
    let v = parse_json(input);
    assert_eq!(v["default_card_prefix"].as_str(), Some("feat"));
    assert_eq!(v["editing_format"].as_str(), Some("json"));
}

#[test]
fn test_json_deserialize_ignores_comment_markers_inside_strings() {
    let input = "{\n  \"default_card_prefix\": \"feat//nope\",\n  \"editing_format\": \"json\"\n}";
    let v = parse_json(input);
    assert_eq!(v["default_card_prefix"].as_str(), Some("feat//nope"));
}

#[test]
fn test_json_deserialize_fixes_trailing_comma_when_last_fields_commented() {
    let input = "{\n  \"default_card_prefix\": \"feat\",\n  \"editing_format\": \"json\",\n//   \"storage_backend\": \"sqlite\",\n//   \"storage_location\": \"/tmp/b.db\"\n}";
    let v = parse_json(input);
    assert_eq!(v["default_card_prefix"].as_str(), Some("feat"));
    assert!(v.get("storage_backend").is_none());
    assert!(v.get("storage_location").is_none());
}

#[test]
fn toml_text_is_parsed_as_written() {
    let input = "default_card_prefix = \"feat\" # a comment\n";
    assert_eq!(EditFormat::Toml.prepare_for_parse(input), input);
    let v: toml::Value = toml::from_str(&EditFormat::Toml.prepare_for_parse(input)).unwrap();
    assert_eq!(v["default_card_prefix"].as_str(), Some("feat"));
}

#[test]
fn text_without_comments_is_left_unchanged() {
    let s = "{\n  \"url\": \"http://example.com/*x*/\",\n  \"ratio\": \"1/2\"\n}";
    assert_eq!(strip_jsonc_comments(s), s);
}
