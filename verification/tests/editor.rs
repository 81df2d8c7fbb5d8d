use kanban_tui::editor::{
    editor_command_from_words, editor_env_hint, editor_program, fallback_editor, parse_editor,
    resolve_editor_with,
};
use std::path::PathBuf;

#[test]
fn editor_env_hint_powershell() {
    assert_eq!(editor_env_hint(true), "$env:EDITOR");
}

#[test]
fn editor_env_hint_non_powershell() {
    assert_eq!(editor_env_hint(false), "$EDITOR");
}

#[test]
fn parse_editor_handles_single_word() {
    let (program, args) = parse_editor("vim");
    assert_eq!(program, "vim");
    assert!(args.is_empty());
}

#[test]
fn parse_editor_splits_program_and_args() {
    let (program, args) = parse_editor("vim -u NONE");
    assert_eq!(program, "vim");
    assert_eq!(args, vec!["-u", "NONE"]);
}

#[test]
fn parse_editor_handles_double_quoted_paths() {
    let (program, args) = parse_editor("\"C:/Program Files/VS Code/code.cmd\" --wait");
    assert_eq!(program, "C:/Program Files/VS Code/code.cmd");
    assert_eq!(args, vec!["--wait"]);
}

#[test]
fn parse_editor_handles_single_quoted_paths() {
    let (program, args) = parse_editor("\'C:/Program Files/VS Code/code.cmd\' --wait");
    assert_eq!(program, "C:/Program Files/VS Code/code.cmd");
    assert_eq!(args, vec!["--wait"]);
}

#[test]
fn parse_editor_handles_malformed_single_word_command() {
    let (program, args) = parse_editor("'vim");
    assert_eq!(program, "'vim");
    assert!(args.is_empty())
}

#[test]
fn parse_editor_handles_malformed_multiword_command() {
    let (program, args) = parse_editor("'vim -u NONE");
    assert_eq!(program, "'vim -u NONE");
    assert!(args.is_empty())
}

#[test]
fn resolve_editor_with_falls_back_when_env_missing() {
    let (path, args) = resolve_editor_with(None, false);
    assert!(path.ends_with("vi"));
    assert!(args.is_empty());
}

#[test]
fn resolve_editor_with_handles_nonexistent_program() {
    let (path, args) = resolve_editor_with(Some("vi_and_emacs --flag"), false);
    assert_eq!(path, PathBuf::from("vi_and_emacs"));
    assert_eq!(args, vec!["--flag"]);
}

#[test]
fn fallback_editor_per_platform() {
    assert_eq!(fallback_editor(true), ("notepad".to_string(), vec![]));
    assert_eq!(fallback_editor(false), ("vi".to_string(), vec![]));
}

#[test]
fn editor_command_from_words_uses_first_word() {
    let words = Some(vec!["code".to_string(), "--wait".to_string()]);
    assert_eq!(
        editor_command_from_words("ignored", words),
        ("code".to_string(), vec!["--wait".to_string()])
    );
    assert_eq!(
        editor_command_from_words("  ", Some(vec![])),
        ("  ".to_string(), vec![])
    );
    assert_eq!(
        editor_command_from_words("'x", None),
        ("'x".to_string(), vec![])
    );
}

#[test]
fn blank_editor_command_is_kept_whole() {
    let (program, args) = parse_editor("   ");
    assert_eq!(program, "   ");
    assert!(args.is_empty());
}

#[test]
fn editor_program_reads_the_variable_or_falls_back() {
    assert_eq!(
        editor_program(Some("nano -w"), false),
        ("nano".to_string(), vec!["-w".to_string()])
    );
    assert_eq!(editor_program(None, true), ("notepad".to_string(), vec![]));
    assert_eq!(editor_program(None, false), ("vi".to_string(), vec![]));
}
