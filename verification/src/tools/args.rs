//! Reading tool arguments out of their JSON object.
use vstd::prelude::*;
use crate::json::{json_get_str, json_str_member};

verus! {

/// The string argument `key`, or the error
/// `missing or invalid required argument: <key>` when the arguments have no
/// string under that key.
pub fn require_string_arg(args: &serde_json::Value, key: &str) -> (r: Result<String, String>)
    ensures
        json_str_member(*args, key@) matches Some(s) ==> (r matches Ok(v) && v@ == s),
        json_str_member(*args, key@) is None ==> (r matches Err(e) && e@
            == "missing or invalid required argument: "@ + key@),
{
    match json_get_str(args, key) {
        Some(s) => Ok(s),
        None => {
            let mut message = String::from_str("missing or invalid required argument: ");
            message.append(key);
            Err(message)
        },
    }
}

/// The echo tool: the string argument `message`, or the empty string.
pub fn echo_handler(args: serde_json::Value) -> (r: String)
    ensures
        json_str_member(args, "message"@) matches Some(s) ==> r@ == s,
        json_str_member(args, "message"@) is None ==> r@.len() == 0,
{
    match json_get_str(&args, "message") {
        Some(s) => s,
        None => String::new(),
    }
}

} // verus!
