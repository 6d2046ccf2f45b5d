//! The definitions the model is shown of the built-in tools: a name, a
//! description and a JSON schema of the arguments.
use vstd::prelude::*;
use crate::json::{
    entries_view, json_array_of, json_from_array, json_from_object, json_from_string,
    json_object_of, json_string_of,
};
use crate::types::ToolDef;

verus! {

/// The schema of one argument: `{"type": kind}`, with a `description`
/// member when there is one.
pub open spec fn property_schema(kind: Seq<char>, description: Option<Seq<char>>) -> serde_json::Value {
    match description {
        Some(d) => json_object_of(seq![
            ("type"@, json_string_of(kind)),
            ("description"@, json_string_of(d)),
        ]),
        None => json_object_of(seq![("type"@, json_string_of(kind))]),
    }
}

/// The schema of an argument object:
/// `{"type": "object", "properties": {..}, "required": [..]}`.
pub open spec fn object_schema(
    properties: Seq<(Seq<char>, serde_json::Value)>,
    required: Seq<Seq<char>>,
) -> serde_json::Value {
    json_object_of(seq![
        ("type"@, json_string_of("object"@)),
        ("properties"@, json_object_of(properties)),
        ("required"@, json_array_of(required.map_values(|k: Seq<char>| json_string_of(k)))),
    ])
}

/// A tool definition with this name, description and argument schema.
pub open spec fn is_def(def: ToolDef, name: Seq<char>, description: Seq<char>, schema: serde_json::Value) -> bool {
    &&& def.name@ == name
    &&& def.description@ == description
    &&& def.input_schema == schema
}

/// The JSON string of a literal.
fn string_value(text: &str) -> (r: serde_json::Value)
    ensures
        r == json_string_of(text@),
{
    json_from_string(String::from_str(text))
}

/// The schema of one argument.
fn property(kind: &str, description: Option<&str>) -> (r: serde_json::Value)
    ensures
        r == property_schema(kind@, match description { Some(d) => Some(d@), None => None }),
{
    let mut entries: Vec<(String, serde_json::Value)> = Vec::new();
    entries.push((String::from_str("type"), string_value(kind)));
    match description {
        Some(d) => {
            entries.push((String::from_str("description"), string_value(d)));
            assert(entries_view(entries@) =~= seq![
                ("type"@, json_string_of(kind@)),
                ("description"@, json_string_of(d@)),
            ]);
        },
        None => {
            assert(entries_view(entries@) =~= seq![("type"@, json_string_of(kind@))]);
        },
    }
    json_from_object(entries)
}

/// The schema of an argument object with these properties and required
/// argument names.
fn object(properties: Vec<(String, serde_json::Value)>, required: Vec<&str>) -> (r: serde_json::Value)
    ensures
        r == object_schema(entries_view(properties@), required@.map_values(|k: &str| k@)),
{
    let ghost props = entries_view(properties@);
    let mut names: Vec<serde_json::Value> = Vec::new();
    let mut i: usize = 0;
    while i < required.len()
        invariant
            i <= required.len(),
            names@ == required@.take(i as int).map_values(|k: &str| json_string_of(k@)),
        decreases required.len() - i,
    {
        names.push(string_value(required[i]));
        assert(required@.take(i + 1) =~= required@.take(i as int).push(required@[i as int]));
        i += 1;
    }
    assert(required@.take(required.len() as int) =~= required@);
    let ghost keys = required@.map_values(|k: &str| k@);
    assert(names@ =~= keys.map_values(|k: Seq<char>| json_string_of(k)));
    let mut entries: Vec<(String, serde_json::Value)> = Vec::new();
    entries.push((String::from_str("type"), string_value("object")));
    entries.push((String::from_str("properties"), json_from_object(properties)));
    entries.push((String::from_str("required"), json_from_array(names)));
    assert(entries_view(entries@) =~= seq![
        ("type"@, json_string_of("object"@)),
        ("properties"@, json_object_of(props)),
        ("required"@, json_array_of(keys.map_values(|k: Seq<char>| json_string_of(k)))),
    ]);
    json_from_object(entries)
}

/// The schema of the echo tool's arguments.
pub open spec fn echo_schema() -> serde_json::Value {
    object_schema(seq![("message"@, property_schema("string"@, None))], seq!["message"@])
}

/// The echo tool: it gives back its `message` argument.
pub fn echo_def() -> (r: ToolDef)
    ensures
        is_def(r, "echo"@, "Echo back the input"@, echo_schema()),
{
    let mut properties: Vec<(String, serde_json::Value)> = Vec::new();
    properties.push((String::from_str("message"), property("string", None)));
    let required: Vec<&str> = vec!["message"];
    assert(entries_view(properties@) =~= seq![("message"@, property_schema("string"@, None))]);
    assert(required@.map_values(|k: &str| k@) =~= seq!["message"@]);
    ToolDef {
        name: String::from_str("echo"),
        description: String::from_str("Echo back the input"),
        input_schema: object(properties, required),
    }
}

/// The schema of the Bash tool's arguments.
pub open spec fn bash_schema() -> serde_json::Value {
    object_schema(
        seq![
            ("command"@, property_schema("string"@, Some("The shell command to execute"@))),
            ("timeout"@, property_schema("number"@, Some("Optional timeout in milliseconds (max 600000)"@))),
        ],
        seq!["command"@],
    )
}

/// The shell tool: it runs a command in the project root.
pub fn bash_def() -> (r: ToolDef)
    ensures
        is_def(r, "Bash"@, "Execute a shell command in the project root. Use for running tests, listing files, git operations, etc."@, bash_schema()),
{
    let mut properties: Vec<(String, serde_json::Value)> = Vec::new();
    properties.push((String::from_str("command"), property("string", Some("The shell command to execute"))));
    properties.push((String::from_str("timeout"), property("number", Some("Optional timeout in milliseconds (max 600000)"))));
    let required: Vec<&str> = vec!["command"];
    assert(entries_view(properties@) =~= seq![
        ("command"@, property_schema("string"@, Some("The shell command to execute"@))),
        ("timeout"@, property_schema("number"@, Some("Optional timeout in milliseconds (max 600000)"@))),
    ]);
    assert(required@.map_values(|k: &str| k@) =~= seq!["command"@]);
    ToolDef {
        name: String::from_str("Bash"),
        description: String::from_str("Execute a shell command in the project root. Use for running tests, listing files, git operations, etc."),
        input_schema: object(properties, required),
    }
}

/// The schema of the FileRead tool's arguments.
pub open spec fn read_file_schema() -> serde_json::Value {
    object_schema(
        seq![
            ("file_path"@, property_schema("string"@, Some("Path to the file, relative to the project root"@))),
            ("offset"@, property_schema("number"@, Some("Optional 1-based line number to start reading from"@))),
            ("limit"@, property_schema("number"@, Some("Optional maximum number of lines to read"@))),
        ],
        seq!["file_path"@],
    )
}

/// The file reading tool: a window of a file's lines.
pub fn read_file_def() -> (r: ToolDef)
    ensures
        is_def(r, "FileRead"@, "Read the contents of a text file within the project."@, read_file_schema()),
{
    let mut properties: Vec<(String, serde_json::Value)> = Vec::new();
    properties.push((String::from_str("file_path"), property("string", Some("Path to the file, relative to the project root"))));
    properties.push((String::from_str("offset"), property("number", Some("Optional 1-based line number to start reading from"))));
    properties.push((String::from_str("limit"), property("number", Some("Optional maximum number of lines to read"))));
    let required: Vec<&str> = vec!["file_path"];
    assert(entries_view(properties@) =~= seq![
        ("file_path"@, property_schema("string"@, Some("Path to the file, relative to the project root"@))),
        ("offset"@, property_schema("number"@, Some("Optional 1-based line number to start reading from"@))),
        ("limit"@, property_schema("number"@, Some("Optional maximum number of lines to read"@))),
    ]);
    assert(required@.map_values(|k: &str| k@) =~= seq!["file_path"@]);
    ToolDef {
        name: String::from_str("FileRead"),
        description: String::from_str("Read the contents of a text file within the project."),
        input_schema: object(properties, required),
    }
}

/// The schema of the FileEdit tool's arguments.
pub open spec fn edit_file_schema() -> serde_json::Value {
    object_schema(
        seq![
            ("file_path"@, property_schema("string"@, Some("Path to the file, relative to the project root"@))),
            ("old_string"@, property_schema("string"@, Some("The exact text to replace"@))),
            ("new_string"@, property_schema("string"@, Some("The replacement text"@))),
            ("replace_all"@, property_schema("boolean"@, Some("Replace all occurrences instead of just the first"@))),
        ],
        seq!["file_path"@, "old_string"@, "new_string"@],
    )
}

/// The file editing tool: it replaces text in a file.
pub fn edit_file_def() -> (r: ToolDef)
    ensures
        is_def(r, "FileEdit"@, "Replace a string in a file within the project."@, edit_file_schema()),
{
    let mut properties: Vec<(String, serde_json::Value)> = Vec::new();
    properties.push((String::from_str("file_path"), property("string", Some("Path to the file, relative to the project root"))));
    properties.push((String::from_str("old_string"), property("string", Some("The exact text to replace"))));
    properties.push((String::from_str("new_string"), property("string", Some("The replacement text"))));
    properties.push((String::from_str("replace_all"), property("boolean", Some("Replace all occurrences instead of just the first"))));
    let required: Vec<&str> = vec!["file_path", "old_string", "new_string"];
    assert(entries_view(properties@) =~= seq![
        ("file_path"@, property_schema("string"@, Some("Path to the file, relative to the project root"@))),
        ("old_string"@, property_schema("string"@, Some("The exact text to replace"@))),
        ("new_string"@, property_schema("string"@, Some("The replacement text"@))),
        ("replace_all"@, property_schema("boolean"@, Some("Replace all occurrences instead of just the first"@))),
    ]);
    assert(required@.map_values(|k: &str| k@) =~= seq!["file_path"@, "old_string"@, "new_string"@]);
    ToolDef {
        name: String::from_str("FileEdit"),
        description: String::from_str("Replace a string in a file within the project."),
        input_schema: object(properties, required),
    }
}

/// The schema of the FileWrite tool's arguments.
pub open spec fn write_file_schema() -> serde_json::Value {
    object_schema(
        seq![
            ("file_path"@, property_schema("string"@, Some("Path to the file, relative to the project root"@))),
            ("content"@, property_schema("string"@, Some("Content to write"@))),
        ],
        seq!["file_path"@, "content"@],
    )
}

/// The file writing tool: it writes a whole file.
pub fn write_file_def() -> (r: ToolDef)
    ensures
        is_def(r, "FileWrite"@, "Write content to a file within the project, creating parent directories if needed."@, write_file_schema()),
{
    let mut properties: Vec<(String, serde_json::Value)> = Vec::new();
    properties.push((String::from_str("file_path"), property("string", Some("Path to the file, relative to the project root"))));
    properties.push((String::from_str("content"), property("string", Some("Content to write"))));
    let required: Vec<&str> = vec!["file_path", "content"];
    assert(entries_view(properties@) =~= seq![
        ("file_path"@, property_schema("string"@, Some("Path to the file, relative to the project root"@))),
        ("content"@, property_schema("string"@, Some("Content to write"@))),
    ]);
    assert(required@.map_values(|k: &str| k@) =~= seq!["file_path"@, "content"@]);
    ToolDef {
        name: String::from_str("FileWrite"),
        description: String::from_str("Write content to a file within the project, creating parent directories if needed."),
        input_schema: object(properties, required),
    }
}

/// The schema of the Glob tool's arguments.
pub open spec fn glob_schema() -> serde_json::Value {
    object_schema(
        seq![
            ("pattern"@, property_schema("string"@, Some("Glob pattern (e.g. \"src/**/*.rs\")"@))),
            ("path"@, property_schema("string"@, Some("Directory to search in, relative to the project root. Defaults to project root."@))),
        ],
        seq!["pattern"@],
    )
}

/// The file listing tool: the files that match a pattern.
pub fn glob_def() -> (r: ToolDef)
    ensures
        is_def(r, "Glob"@, "List files matching a glob pattern under a directory within the project."@, glob_schema()),
{
    let mut properties: Vec<(String, serde_json::Value)> = Vec::new();
    properties.push((String::from_str("pattern"), property("string", Some("Glob pattern (e.g. \"src/**/*.rs\")"))));
    properties.push((String::from_str("path"), property("string", Some("Directory to search in, relative to the project root. Defaults to project root."))));
    let required: Vec<&str> = vec!["pattern"];
    assert(entries_view(properties@) =~= seq![
        ("pattern"@, property_schema("string"@, Some("Glob pattern (e.g. \"src/**/*.rs\")"@))),
        ("path"@, property_schema("string"@, Some("Directory to search in, relative to the project root. Defaults to project root."@))),
    ]);
    assert(required@.map_values(|k: &str| k@) =~= seq!["pattern"@]);
    ToolDef {
        name: String::from_str("Glob"),
        description: String::from_str("List files matching a glob pattern under a directory within the project."),
        input_schema: object(properties, required),
    }
}

} // verus!
