use alice::tools::defs::{bash_def, echo_def, edit_file_def, glob_def, read_file_def, write_file_def};

fn json(text: &str) -> serde_json::Value {
    serde_json::from_str(text).unwrap()
}

#[test]
fn echo_definition_matches_its_schema() {
    let def = echo_def();
    assert_eq!(def.name, "echo");
    assert_eq!(def.description, "Echo back the input");
    assert_eq!(
        def.input_schema,
        json(r#"{"type": "object", "properties": {"message": {"type": "string"}}, "required": ["message"]}"#)
    );
}

#[test]
fn bash_definition_requires_a_command() {
    let def = bash_def();
    assert_eq!(def.name, "Bash");
    assert_eq!(def.input_schema["required"], json(r#"["command"]"#));
    assert_eq!(def.input_schema["properties"]["timeout"]["type"], "number");
    assert_eq!(
        def.input_schema["properties"]["command"]["description"],
        "The shell command to execute"
    );
}

#[test]
fn file_tool_definitions_name_their_arguments() {
    let read = read_file_def();
    assert_eq!(read.name, "FileRead");
    assert_eq!(read.input_schema["required"], json(r#"["file_path"]"#));
    assert_eq!(read.input_schema["properties"]["offset"]["type"], "number");

    let edit = edit_file_def();
    assert_eq!(edit.name, "FileEdit");
    assert_eq!(edit.input_schema["required"], json(r#"["file_path", "old_string", "new_string"]"#));
    assert_eq!(edit.input_schema["properties"]["replace_all"]["type"], "boolean");

    let write = write_file_def();
    assert_eq!(write.name, "FileWrite");
    assert_eq!(write.input_schema["required"], json(r#"["file_path", "content"]"#));
    assert_eq!(write.input_schema["type"], "object");
}

#[test]
fn glob_definition_describes_the_pattern() {
    let def = glob_def();
    assert_eq!(def.name, "Glob");
    assert_eq!(
        def.input_schema["properties"]["pattern"]["description"],
        "Glob pattern (e.g. \"src/**/*.rs\")"
    );
    assert_eq!(def.input_schema["required"], json(r#"["pattern"]"#));
}
