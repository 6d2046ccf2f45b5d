//! Reading and checking the arguments of the built-in tools before they touch
//! the file system or spawn a process.
use vstd::prelude::*;
use crate::json::{json_get_bool, json_get_str, json_get_u64, json_bool_member, json_str_member, json_u64_member};
use crate::text::chars_of;
use crate::tools::args::require_string_arg;
use crate::tools::edit_file::check_edit_strings;
use crate::tools::paths::{joined, resolve_and_validate_path, resolved};

verus! {

/// The error for a missing or non-string required argument.
pub open spec fn missing_argument(key: Seq<char>) -> Seq<char> {
    "missing or invalid required argument: "@ + key
}

/// The message a tool returns for an error.
pub open spec fn error_report(error: Seq<char>) -> Seq<char> {
    "Error: "@ + error
}

/// The message a tool returns for an error: `Error: <error>`.
pub fn report_error(error: &str) -> (r: String)
    ensures
        r@ == error_report(error@),
{
    let mut out = String::from_str("Error: ");
    out.append(error);
    out
}

/// `prefix` followed by `detail`.
fn prefixed(prefix: &str, detail: &str) -> (r: String)
    ensures
        r@ == prefix@ + detail@,
{
    let mut out = String::from_str(prefix);
    out.append(detail);
    out
}

/// `prefix`, then `subject`, a colon and a space, then `detail`.
fn prefixed_with_detail(prefix: &str, subject: &str, detail: &str) -> (r: String)
    ensures
        r@ == prefix@ + subject@ + ": "@ + detail@,
{
    let mut out = String::from_str(prefix);
    out.append(subject);
    out.append(": ");
    out.append(detail);
    out
}

/// What the edit tool reports after editing the file at `path`.
pub fn edited_report(path: &str) -> (r: String)
    ensures
        r@ == "Edited "@ + path@,
{
    prefixed("Edited ", path)
}

/// What the write tool reports after writing the file at `path`.
pub fn written_report(path: &str) -> (r: String)
    ensures
        r@ == "Wrote "@ + path@,
{
    prefixed("Wrote ", path)
}

/// The error for a file at `path` that could not be read.
pub fn read_failure(path: &str, detail: &str) -> (r: String)
    ensures
        r@ == "failed to read "@ + path@ + ": "@ + detail@,
{
    prefixed_with_detail("failed to read ", path, detail)
}

/// The error for a file at `path` that could not be written.
pub fn write_failure(path: &str, detail: &str) -> (r: String)
    ensures
        r@ == "failed to write "@ + path@ + ": "@ + detail@,
{
    prefixed_with_detail("failed to write ", path, detail)
}

/// The error for the directories of `path` that could not be created.
pub fn create_dirs_failure(path: &str, detail: &str) -> (r: String)
    ensures
        r@ == "failed to create directories for "@ + path@ + ": "@ + detail@,
{
    prefixed_with_detail("failed to create directories for ", path, detail)
}

/// The error for a shell that could not be started.
pub fn spawn_failure(detail: &str) -> (r: String)
    ensures
        r@ == "failed to spawn bash: "@ + detail@,
{
    prefixed("failed to spawn bash: ", detail)
}

/// The error for a glob pattern that does not parse.
pub fn glob_pattern_failure(detail: &str) -> (r: String)
    ensures
        r@ == "invalid glob pattern: "@ + detail@,
{
    prefixed("invalid glob pattern: ", detail)
}

/// What a glob match that could not be read is listed as.
pub fn glob_entry_failure(detail: &str) -> (r: String)
    ensures
        r@ == "error reading match: "@ + detail@,
{
    prefixed("error reading match: ", detail)
}

/// A checked request of the read tool.
#[derive(Debug)]
pub struct ReadFileRequest {
    pub path: String,
    pub offset: u64,
    pub limit: Option<u64>,
}

/// A checked request of the edit tool.
#[derive(Debug)]
pub struct EditFileRequest {
    pub path: String,
    pub old_string: String,
    pub new_string: String,
    pub replace_all: bool,
}

/// A checked request of the write tool.
#[derive(Debug)]
pub struct WriteFileRequest {
    pub path: String,
    pub content: String,
}

/// A checked request of the shell tool.
#[derive(Debug)]
pub struct BashRequest {
    pub command: String,
    pub timeout_ms: u64,
}

/// The read tool's request: the required `file_path` resolved inside the
/// root, the 1-based line `offset` (1 by default) and the optional line
/// `limit`.
pub fn read_file_request(args: &serde_json::Value, root: &str) -> (r: Result<ReadFileRequest, String>)
    ensures
        match json_str_member(*args, "file_path"@) {
            None => r matches Err(e) && e@ == missing_argument("file_path"@),
            Some(file_path) => match resolved(root@, file_path) {
                Ok(full) => r matches Ok(q) && q.path@ == full && q.offset == match json_u64_member(
                    *args,
                    "offset"@,
                ) {
                    Some(o) => o,
                    None => 1,
                } && q.limit == json_u64_member(*args, "limit"@),
                Err(e) => r matches Err(m) && m@ == e,
            },
        },
{
    let file_path = match require_string_arg(args, "file_path") {
        Ok(p) => p,
        Err(e) => {
            return Err(e);
        },
    };
    let offset = match json_get_u64(args, "offset") {
        Some(o) => o,
        None => 1,
    };
    let limit = json_get_u64(args, "limit");
    match resolve_and_validate_path(root, file_path.as_str()) {
        Ok(path) => Ok(ReadFileRequest { path, offset, limit }),
        Err(e) => Err(e),
    }
}

/// The edit tool's request: the required `file_path`, `old_string` and
/// `new_string`, in that order, and `replace_all` (false by default); the old
/// and new text must differ, and the path is resolved inside the root.
pub fn edit_file_request(args: &serde_json::Value, root: &str) -> (r: Result<EditFileRequest, String>)
    ensures
        json_str_member(*args, "file_path"@) is None ==> (r matches Err(e) && e@ == missing_argument("file_path"@)),
        json_str_member(*args, "file_path"@) is Some && json_str_member(*args, "old_string"@) is None ==> (r matches Err(e) && e@ == missing_argument("old_string"@)),
        json_str_member(*args, "file_path"@) is Some && json_str_member(*args, "old_string"@) is Some
            && json_str_member(*args, "new_string"@) is None ==> (r matches Err(e) && e@ == missing_argument("new_string"@)),
        ({
            match (
                json_str_member(*args, "file_path"@),
                json_str_member(*args, "old_string"@),
                json_str_member(*args, "new_string"@),
            ) {
                (Some(file_path), Some(old_string), Some(new_string)) => if old_string == new_string {
                    r matches Err(e) && e@ == "old_string and new_string must be different"@
                } else {
                    match resolved(root@, file_path) {
                        Ok(full) => r matches Ok(q) && q.path@ == full && q.old_string@ == old_string
                            && q.new_string@ == new_string && q.replace_all == match json_bool_member(
                            *args,
                            "replace_all"@,
                        ) {
                            Some(b) => b,
                            None => false,
                        },
                        Err(e) => r matches Err(m) && m@ == e,
                    }
                },
                _ => true,
            }
        }),
{
    let file_path = match require_string_arg(args, "file_path") {
        Ok(p) => p,
        Err(e) => {
            return Err(e);
        },
    };
    let old_string = match require_string_arg(args, "old_string") {
        Ok(p) => p,
        Err(e) => {
            return Err(e);
        },
    };
    let new_string = match require_string_arg(args, "new_string") {
        Ok(p) => p,
        Err(e) => {
            return Err(e);
        },
    };
    let replace_all = match json_get_bool(args, "replace_all") {
        Some(b) => b,
        None => false,
    };
    match check_edit_strings(old_string.as_str(), new_string.as_str()) {
        Ok(()) => {},
        Err(e) => {
            return Err(e);
        },
    }
    match resolve_and_validate_path(root, file_path.as_str()) {
        Ok(path) => Ok(EditFileRequest { path, old_string, new_string, replace_all }),
        Err(e) => Err(e),
    }
}

/// The write tool's request: the required `file_path` and `content`, in that
/// order, with the path resolved inside the root.
pub fn write_file_request(args: &serde_json::Value, root: &str) -> (r: Result<WriteFileRequest, String>)
    ensures
        json_str_member(*args, "file_path"@) is None ==> (r matches Err(e) && e@ == missing_argument("file_path"@)),
        json_str_member(*args, "file_path"@) is Some && json_str_member(*args, "content"@) is None ==> (r matches Err(e) && e@ == missing_argument("content"@)),
        ({
            match (json_str_member(*args, "file_path"@), json_str_member(*args, "content"@)) {
                (Some(file_path), Some(content)) => match resolved(root@, file_path) {
                    Ok(full) => r matches Ok(q) && q.path@ == full && q.content@ == content,
                    Err(e) => r matches Err(m) && m@ == e,
                },
                _ => true,
            }
        }),
{
    let file_path = match require_string_arg(args, "file_path") {
        Ok(p) => p,
        Err(e) => {
            return Err(e);
        },
    };
    let content = match require_string_arg(args, "content") {
        Ok(p) => p,
        Err(e) => {
            return Err(e);
        },
    };
    match resolve_and_validate_path(root, file_path.as_str()) {
        Ok(path) => Ok(WriteFileRequest { path, content }),
        Err(e) => Err(e),
    }
}

/// The shell tool's request: the required `command` and the `timeout` in
/// milliseconds, at most 600000 and 60000 by default.
pub fn bash_request(args: &serde_json::Value) -> (r: Result<BashRequest, String>)
    ensures
        match json_str_member(*args, "command"@) {
            None => r matches Err(e) && e@ == missing_argument("command"@),
            Some(command) => r matches Ok(q) && q.command@ == command && q.timeout_ms == match json_u64_member(
                *args,
                "timeout"@,
            ) {
                Some(ms) => if ms < 600_000 {
                    ms
                } else {
                    600_000
                },
                None => 60_000,
            },
        },
{
    let command = match require_string_arg(args, "command") {
        Ok(c) => c,
        Err(e) => {
            return Err(e);
        },
    };
    let timeout_ms = match json_get_u64(args, "timeout") {
        Some(ms) => if ms < 600_000 {
            ms
        } else {
            600_000
        },
        None => 60_000,
    };
    Ok(BashRequest { command, timeout_ms })
}

/// `s` with every backslash turned into a slash.
pub open spec fn backslashes_to_slashes(s: Seq<char>) -> Seq<char> {
    s.map_values(|c: char| if c == '\\' { '/' } else { c })
}

/// The glob tool's pattern: the required `pattern` joined onto the
/// directory `path` (the project root `.` by default) resolved inside the
/// root, with backslashes turned into slashes.
pub fn glob_pattern(args: &serde_json::Value, root: &str) -> (r: Result<String, String>)
    ensures
        match json_str_member(*args, "pattern"@) {
            None => r matches Err(e) && e@ == missing_argument("pattern"@),
            Some(pattern) => {
                let base = match json_str_member(*args, "path"@) {
                    Some(p) => p,
                    None => "."@,
                };
                match resolved(root@, base) {
                    Ok(dir) => r matches Ok(p) && p@ == backslashes_to_slashes(joined(dir, pattern)),
                    Err(e) => r matches Err(m) && m@ == e,
                }
            },
        },
{
    let pattern = match require_string_arg(args, "pattern") {
        Ok(p) => p,
        Err(e) => {
            return Err(e);
        },
    };
    let base = match json_get_str(args, "path") {
        Some(p) => p,
        None => String::from_str("."),
    };
    let dir = match resolve_and_validate_path(root, base.as_str()) {
        Ok(d) => d,
        Err(e) => {
            return Err(e);
        },
    };
    let dir_chars = chars_of(dir.as_str());
    let pattern_chars = chars_of(pattern.as_str());
    let full = crate::tools::paths::join_paths(dir_chars.as_slice(), pattern_chars.as_slice());
    let mut out = String::new();
    let mut i: usize = 0;
    while i < full.len()
        invariant
            i <= full@.len(),
            out@ == backslashes_to_slashes(full@.take(i as int)),
        decreases full@.len() - i,
    {
        let c = if full[i] == '\\' {
            '/'
        } else {
            full[i]
        };
        crate::text::push_char(&mut out, c);
        assert(out@ =~= backslashes_to_slashes(full@.take(i + 1)));
        i += 1;
    }
    assert(full@.take(full@.len() as int) =~= full@);
    Ok(out)
}

} // verus!
