use alice::tools::requests::{
    create_dirs_failure, edited_report, glob_entry_failure, glob_pattern_failure, read_failure, spawn_failure,
    write_failure, written_report,
};
use alice::tools::args::{echo_handler, require_string_arg};
use alice::tools::edit_file::apply_edit;
use alice::tools::output::{format_bash_output, truncate_output};
use alice::tools::paths::{normalize_path, resolve_and_validate_path};
use alice::tools::read_file::select_lines;
use alice::tools::requests::{bash_request, edit_file_request, glob_pattern, read_file_request, report_error};

const ROOT: &str = "/home/user/project";

fn json(text: &str) -> serde_json::Value {
    serde_json::from_str(text).unwrap()
}

#[test]
fn test_path_escape_rejected() {
    let args = json(r#"{"file_path": "../../../Cargo.toml"}"#);
    let result = match read_file_request(&args, ROOT) {
        Ok(request) => request.path,
        Err(e) => report_error(&e),
    };
    assert!(result.starts_with("Error:"), "result: {result}");
}

#[test]
fn normalize_path_resolves_dots() {
    assert_eq!(normalize_path("/a/./b/../c//d/"), "/a/c/d");
    assert_eq!(normalize_path("./x/../../y"), "y");
    assert_eq!(normalize_path("/.."), "/");
    assert_eq!(normalize_path(""), "");
}

#[test]
fn resolve_keeps_paths_inside_the_root() {
    assert_eq!(resolve_and_validate_path(ROOT, "src/lib.rs"), Ok("/home/user/project/src/lib.rs".to_string()));
    assert_eq!(resolve_and_validate_path(ROOT, "a/../b"), Ok("/home/user/project/b".to_string()));
    assert_eq!(resolve_and_validate_path(ROOT, "/home/user/project/x"), Ok("/home/user/project/x".to_string()));
    assert_eq!(
        resolve_and_validate_path(ROOT, "/etc/passwd"),
        Err("path escapes project root: /etc/passwd".to_string())
    );
    assert_eq!(
        resolve_and_validate_path(ROOT, "../project2/x"),
        Err("path escapes project root: /home/user/project2/x".to_string())
    );
}

#[test]
fn required_arguments_are_reported() {
    let args = json(r#"{"command": 3}"#);
    assert_eq!(
        require_string_arg(&args, "command"),
        Err("missing or invalid required argument: command".to_string())
    );
    assert_eq!(require_string_arg(&json(r#"{"command": "ls"}"#), "command"), Ok("ls".to_string()));
    assert_eq!(echo_handler(json(r#"{"message": "hello"}"#)), "hello");
    assert_eq!(echo_handler(json(r#"{}"#)), "");
}

#[test]
fn read_lines_with_offset_and_limit() {
    let content = "line1\nline2\r\nline3\nline4\nline5\n";
    assert_eq!(select_lines(content, 2, Some(2)), "line2\nline3");
    assert_eq!(select_lines(content, 1, None), "line1\nline2\nline3\nline4\nline5");
    assert_eq!(select_lines(content, 0, Some(1)), "line1");
    assert_eq!(select_lines(content, 9, Some(3)), "");
    assert_eq!(select_lines("", 1, None), "");
}

#[test]
fn edits_replace_first_or_all() {
    assert_eq!(apply_edit("foo bar baz bar", "bar", "qux", false), Ok("foo qux baz bar".to_string()));
    assert_eq!(apply_edit("foo bar baz bar", "bar", "qux", true), Ok("foo qux baz qux".to_string()));
    assert_eq!(apply_edit("aaa", "aa", "b", true), Ok("ba".to_string()));
    assert_eq!(apply_edit("abc", "", "-", true), Ok("-a-b-c-".to_string()));
    assert_eq!(
        apply_edit("foo", "bar", "qux", false),
        Err("old_string was not found in the file".to_string())
    );
}

#[test]
fn edit_requests_check_their_arguments() {
    let same = json(r#"{"file_path": "a.txt", "old_string": "x", "new_string": "x"}"#);
    assert_eq!(
        edit_file_request(&same, ROOT).err(),
        Some("old_string and new_string must be different".to_string())
    );
    let missing = json(r#"{"file_path": "a.txt", "new_string": "x"}"#);
    assert_eq!(
        edit_file_request(&missing, ROOT).err(),
        Some("missing or invalid required argument: old_string".to_string())
    );
    let ok = json(r#"{"file_path": "a.txt", "old_string": "x", "new_string": "y", "replace_all": true}"#);
    let request = edit_file_request(&ok, ROOT).unwrap();
    assert_eq!(request.path, "/home/user/project/a.txt");
    assert!(request.replace_all);
}

#[test]
fn bash_requests_clamp_the_timeout() {
    assert_eq!(bash_request(&json(r#"{"command": "ls"}"#)).unwrap().timeout_ms, 60_000);
    assert_eq!(bash_request(&json(r#"{"command": "ls", "timeout": 900000}"#)).unwrap().timeout_ms, 600_000);
    assert_eq!(bash_request(&json(r#"{"command": "ls", "timeout": 5}"#)).unwrap().timeout_ms, 5);
}

#[test]
fn glob_patterns_are_joined_onto_the_base() {
    assert_eq!(
        glob_pattern(&json(r#"{"pattern": "src/*.rs"}"#), ROOT),
        Ok("/home/user/project/src/*.rs".to_string())
    );
    assert_eq!(
        glob_pattern(&json(r#"{"pattern": "*.txt", "path": "docs"}"#), ROOT),
        Ok("/home/user/project/docs/*.txt".to_string())
    );
}

#[test]
fn bash_report_and_truncation() {
    assert_eq!(format_bash_output(true, Some(0), "hello\n", ""), "[status: success] [exit: 0]\nhello");
    assert_eq!(
        format_bash_output(false, None, "out", "bad\n"),
        "[status: failure] [exit: -1]\nout\n[stderr]\nbad"
    );
    assert_eq!(truncate_output("abcdef".to_string(), 10), "abcdef");
    assert_eq!(truncate_output("abcdef".to_string(), 3), "abc\n... (truncated, 6 bytes total)");
}

#[test]
fn whole_read_gives_back_what_was_written() {
    assert_eq!(select_lines("Hello, tools!", 1, None), "Hello, tools!");
    assert_eq!(select_lines("a\n\nb", 1, None), "a\n\nb");
    // A final line break and carriage returns are what `str::lines` drops.
    assert_eq!(select_lines("a\r\nb\n", 1, None), "a\nb");
}

#[test]
fn normalizing_twice_changes_nothing() {
    for path in ["/a/./b/../c//d/", "./x/../../y", "/..", "", "a/b/./c", "../..", "/x/y/../../z"] {
        let once = normalize_path(path);
        assert_eq!(normalize_path(&once), once);
    }
}

#[test]
fn tool_reports_and_failures() {
    assert_eq!(edited_report("/p/a.txt"), "Edited /p/a.txt");
    assert_eq!(written_report("/p/b.txt"), "Wrote /p/b.txt");
    assert_eq!(read_failure("/p/a", "gone"), "failed to read /p/a: gone");
    assert_eq!(write_failure("/p/a", "denied"), "failed to write /p/a: denied");
    assert_eq!(create_dirs_failure("/p/a", "x"), "failed to create directories for /p/a: x");
    assert_eq!(spawn_failure("no shell"), "failed to spawn bash: no shell");
    assert_eq!(glob_pattern_failure("bad"), "invalid glob pattern: bad");
    assert_eq!(glob_entry_failure("io"), "error reading match: io");
}
