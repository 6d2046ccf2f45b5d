//! Formatting of tool output: decimal numbers, truncation to a byte budget,
//! and the report of a shell command.
use vstd::prelude::*;
use vstd::utf8::{decode_utf8, encode_utf8, encode_utf8_decode_utf8, is_char_boundary};
use vstd::string::StringSliceAdditionalSpecFns;
use crate::text::{has_prefix, push_char, trim, trim_range, chars_of};

verus! {

/// The decimal digit for `d`, which is below 10.
pub open spec fn decimal_digit(d: u64) -> char {
    seq!['0', '1', '2', '3', '4', '5', '6', '7', '8', '9'][d as int]
}

/// `n` in decimal, without leading zeros (`"0"` for zero).
pub open spec fn decimal(n: u64) -> Seq<char>
    decreases n,
{
    if n < 10 {
        seq![decimal_digit(n)]
    } else {
        decimal(n / 10).push(decimal_digit(n % 10))
    }
}

/// `n` in decimal, with a minus sign when it is negative.
pub open spec fn signed_decimal(n: i32) -> Seq<char> {
    if n < 0 {
        "-"@ + decimal((-(n as int)) as u64)
    } else {
        decimal(n as u64)
    }
}

fn decimal_char(d: u64) -> (c: char)
    requires
        d < 10,
    ensures
        c == decimal_digit(d),
{
    let table: [char; 10] = ['0', '1', '2', '3', '4', '5', '6', '7', '8', '9'];
    assert(table@ =~= seq!['0', '1', '2', '3', '4', '5', '6', '7', '8', '9']);
    table[d as usize]
}

/// Appends the decimal digits of `n` to `out`.
pub fn push_decimal(out: &mut String, n: u64)
    ensures
        final(out)@ == old(out)@ + decimal(n),
    decreases n,
{
    if n >= 10 {
        push_decimal(out, n / 10);
    }
    push_char(out, decimal_char(n % 10));
    proof {
        if n < 10 {
            assert(n % 10 == n);
        }
    }
    assert(final(out)@ =~= old(out)@ + decimal(n)) by {
        if n >= 10 {
            assert(decimal(n) == decimal(n / 10).push(decimal_digit(n % 10)));
        }
    }
}

/// Appends `n` in decimal, with a minus sign when negative.
pub fn push_signed_decimal(out: &mut String, n: i32)
    ensures
        final(out)@ == old(out)@ + signed_decimal(n),
{
    if n < 0 {
        push_char(out, '-');
        let magnitude: u64 = (0i64 - (n as i64)) as u64;
        push_decimal(out, magnitude);
        proof {
            reveal_strlit("-");
        }
        assert(final(out)@ =~= old(out)@ + signed_decimal(n));
    } else {
        push_decimal(out, n as u64);
    }
}

/// The UTF-8 encoding of `s`.
pub open spec fn utf8_bytes(s: Seq<char>) -> Seq<u8> {
    encode_utf8(s)
}

/// `output` cut to its first `max_len` bytes, followed by a note of the total
/// size, when it is longer than `max_len` bytes; otherwise `output` itself.
pub open spec fn truncated(output: Seq<char>, max_len: usize) -> Seq<char> {
    let bytes = utf8_bytes(output);
    if bytes.len() > max_len {
        decode_utf8(bytes.take(max_len as int)) + "\n... (truncated, "@ + decimal(bytes.len() as u64)
            + " bytes total)"@
    } else {
        output
    }
}

/// Whether `output` can be cut at byte `max_len`: it is no longer than that,
/// or that byte starts a character.
pub open spec fn can_truncate(output: Seq<char>, max_len: usize) -> bool {
    utf8_bytes(output).len() > max_len ==> is_char_boundary(utf8_bytes(output), max_len as int)
}

/// Cuts `output` to at most `max_len` bytes and notes its full size (see
/// `truncated`). The cut must fall on a character boundary.
pub fn truncate_output(output: String, max_len: usize) -> (r: String)
    requires
        can_truncate(output@, max_len),
        utf8_bytes(output@).len() <= usize::MAX,
    ensures
        r@ == truncated(output@, max_len),
{
    let text = output.as_str();
    let total = text.len();
    if total > max_len {
        let (head, _) = text.split_at(max_len);
        proof {
            encode_utf8_decode_utf8(head@);
            assert(text@ == output@);
            assert(head.spec_bytes() == encode_utf8(head@));
            assert(encode_utf8(head@) == utf8_bytes(output@).take(max_len as int));
            assert(head@ == decode_utf8(utf8_bytes(output@).take(max_len as int)));
            assert(total == utf8_bytes(output@).len());
        }
        let mut out = String::new();
        out.append(head);
        out.append("\n... (truncated, ");
        push_decimal(&mut out, total as u64);
        out.append(" bytes total)");
        assert(out@ =~= truncated(output@, max_len));
        out
    } else {
        output
    }
}

/// The report of a finished shell command: its status and exit code on the
/// first line, then its standard output and, when there is any, its standard
/// error after a `[stderr]` marker, trimmed.
pub open spec fn bash_report(success: bool, code: Option<i32>, stdout: Seq<char>, stderr: Seq<char>) -> Seq<char> {
    let combined = if stderr.len() == 0 {
        stdout
    } else {
        stdout + "\n[stderr]\n"@ + stderr
    };
    "[status: "@ + (if success {
        "success"@
    } else {
        "failure"@
    }) + "] [exit: "@ + signed_decimal(
        match code {
            Some(c) => c,
            None => -1i32,
        },
    ) + "]\n"@ + trim(combined)
}

/// The first line of a shell report gives the command's own exit code,
/// whether it succeeded or failed; `-1` stands only for a command that has
/// no exit code (one ended by a signal).
pub proof fn lemma_report_gives_exit_code(success: bool, code: Option<i32>, stdout: Seq<char>, stderr: Seq<char>)
    ensures
        code matches Some(c) ==> has_prefix(
            bash_report(success, code, stdout, stderr),
            "[status: "@ + (if success { "success"@ } else { "failure"@ }) + "] [exit: "@ + signed_decimal(c) + "]\n"@,
        ),
        code is None ==> has_prefix(
            bash_report(success, code, stdout, stderr),
            "[status: "@ + (if success { "success"@ } else { "failure"@ }) + "] [exit: -1]\n"@,
        ),
{
    let head = "[status: "@ + (if success { "success"@ } else { "failure"@ }) + "] [exit: "@;
    let exit = match code {
        Some(c) => c,
        None => -1i32,
    };
    let line = head + signed_decimal(exit) + "]\n"@;
    let combined = if stderr.len() == 0 {
        stdout
    } else {
        stdout + "\n[stderr]\n"@ + stderr
    };
    assert(bash_report(success, code, stdout, stderr) == line + trim(combined));
    assert((line + trim(combined)).take(line.len() as int) =~= line);
    if code is None {
        reveal_strlit("-");
        reveal_strlit("-1");
        reveal_strlit("] [exit: ");
        reveal_strlit("] [exit: -1]\n");
        reveal_strlit("]\n");
        assert(signed_decimal(-1i32) =~= "-1"@) by {
            assert(decimal(1u64) =~= seq!['1']);
        }
        assert(head + "-1"@ + "]\n"@ =~= "[status: "@ + (if success { "success"@ } else { "failure"@ }) + "] [exit: -1]\n"@);
    }
}

/// Formats the outcome of a shell command (see `bash_report`); `code` is
/// `None` when the process was ended by a signal.
pub fn format_bash_output(success: bool, code: Option<i32>, stdout: &str, stderr: &str) -> (r: String)
    ensures
        r@ == bash_report(success, code, stdout@, stderr@),
        code matches Some(c) ==> has_prefix(
            r@,
            "[status: "@ + (if success { "success"@ } else { "failure"@ }) + "] [exit: "@ + signed_decimal(c) + "]\n"@,
        ),
        code is None ==> has_prefix(
            r@,
            "[status: "@ + (if success { "success"@ } else { "failure"@ }) + "] [exit: -1]\n"@,
        ),
{
    let mut combined = String::new();
    combined.append(stdout);
    if !stderr.is_empty() {
        combined.append("\n[stderr]\n");
        combined.append(stderr);
    }
    let combined_chars = chars_of(combined.as_str());
    let trimmed = trim_range(combined_chars.as_slice(), 0, combined_chars.len());
    assert(combined_chars@.subrange(0, combined_chars@.len() as int) =~= combined_chars@);
    let mut out = String::from_str("[status: ");
    if success {
        out.append("success");
    } else {
        out.append("failure");
    }
    out.append("] [exit: ");
    let exit = match code {
        Some(c) => c,
        None => -1,
    };
    push_signed_decimal(&mut out, exit);
    out.append("]\n");
    let ghost head = out@;
    let mut i: usize = 0;
    while i < trimmed.len()
        invariant
            i <= trimmed@.len(),
            out@ == head + trimmed@.take(i as int),
        decreases trimmed@.len() - i,
    {
        push_char(&mut out, trimmed[i]);
        assert(out@ =~= head + trimmed@.take(i + 1));
        i += 1;
    }
    assert(out@ =~= bash_report(success, code, stdout@, stderr@));
    proof {
        lemma_report_gives_exit_code(success, code, stdout@, stderr@);
    }
    out
}

} // verus!
