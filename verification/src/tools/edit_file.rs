//! The text replacement the edit tool performs.
use vstd::prelude::*;
use crate::text::{chars_eq, chars_of, has_prefix, range_has_prefix, string_from_chars};

verus! {

/// `s` with every occurrence of `p` replaced by `n`, scanning from the left
/// without overlaps, as `str::replace` does (an empty `p` matches before
/// every character and at the end).
pub open spec fn replace_all(s: Seq<char>, p: Seq<char>, n: Seq<char>) -> Seq<char>
    decreases s.len(),
{
    if p.len() == 0 {
        if s.len() == 0 {
            n
        } else {
            n + seq![s[0]] + replace_all(s.drop_first(), p, n)
        }
    } else if has_prefix(s, p) {
        n + replace_all(s.skip(p.len() as int), p, n)
    } else if s.len() == 0 {
        s
    } else {
        seq![s[0]] + replace_all(s.drop_first(), p, n)
    }
}

/// `s` with the first occurrence of `p` replaced by `n`, as
/// `str::replacen(p, n, 1)` does.
pub open spec fn replace_first(s: Seq<char>, p: Seq<char>, n: Seq<char>) -> Seq<char>
    decreases s.len(),
{
    if has_prefix(s, p) {
        n + s.skip(p.len() as int)
    } else if s.len() == 0 {
        s
    } else {
        seq![s[0]] + replace_first(s.drop_first(), p, n)
    }
}

/// Appends `v` to `out`.
fn extend_chars(out: &mut Vec<char>, v: &[char])
    ensures
        final(out)@ == old(out)@ + v@,
{
    let ghost head = out@;
    let mut i: usize = 0;
    while i < v.len()
        invariant
            i <= v@.len(),
            out@ == head + v@.take(i as int),
        decreases v@.len() - i,
    {
        out.push(v[i]);
        assert(out@ =~= head + v@.take(i + 1));
        i += 1;
    }
    assert(v@.take(v@.len() as int) =~= v@);
}

/// `s` with every occurrence of `p` replaced by `n`.
pub fn replace_all_chars(s: &[char], p: &[char], n: &[char]) -> (r: Vec<char>)
    ensures
        r@ == replace_all(s@, p@, n@),
{
    let mut out: Vec<char> = Vec::new();
    let mut i: usize = 0;
    assert(s@.skip(0) =~= s@);
    while i < s.len()
        invariant
            i <= s@.len(),
            replace_all(s@, p@, n@) == out@ + replace_all(s@.skip(i as int), p@, n@),
        decreases s@.len() - i,
    {
        let ghost rest = s@.skip(i as int);
        assert(s@.subrange(i as int, s@.len() as int) =~= rest);
        if p.len() == 0 {
            extend_chars(&mut out, n);
            out.push(s[i]);
            assert(rest.drop_first() =~= s@.skip(i + 1));
            assert(out@ + replace_all(s@.skip(i + 1), p@, n@) =~= replace_all(s@, p@, n@));
            i += 1;
        } else if range_has_prefix(s, i, s.len(), p) {
            extend_chars(&mut out, n);
            assert(rest.skip(p@.len() as int) =~= s@.skip(i + p@.len()));
            i += p.len();
        } else {
            out.push(s[i]);
            assert(rest.drop_first() =~= s@.skip(i + 1));
            assert(out@ + replace_all(s@.skip(i + 1), p@, n@) =~= replace_all(s@, p@, n@));
            i += 1;
        }
    }
    if p.len() == 0 {
        extend_chars(&mut out, n);
    }
    assert(s@.skip(i as int) =~= Seq::<char>::empty());
    assert(out@ =~= replace_all(s@, p@, n@));
    out
}

/// `s` with the first occurrence of `p` replaced by `n`.
pub fn replace_first_chars(s: &[char], p: &[char], n: &[char]) -> (r: Vec<char>)
    ensures
        r@ == replace_first(s@, p@, n@),
{
    let mut out: Vec<char> = Vec::new();
    let mut i: usize = 0;
    assert(s@.skip(0) =~= s@);
    while i < s.len()
        invariant
            i <= s@.len(),
            replace_first(s@, p@, n@) == out@ + replace_first(s@.skip(i as int), p@, n@),
        decreases s@.len() - i,
    {
        let ghost rest = s@.skip(i as int);
        assert(s@.subrange(i as int, s@.len() as int) =~= rest);
        if range_has_prefix(s, i, s.len(), p) {
            extend_chars(&mut out, n);
            let mut k: usize = i + p.len();
            let ghost mid = out@;
            while k < s.len()
                invariant
                    i + p@.len() <= k <= s@.len(),
                    out@ == mid + s@.subrange(i + p@.len(), k as int),
                decreases s@.len() - k,
            {
                out.push(s[k]);
                assert(out@ =~= mid + s@.subrange(i + p@.len(), k + 1));
                k += 1;
            }
            assert(rest.skip(p@.len() as int) =~= s@.subrange(i + p@.len(), s@.len() as int));
            return out;
        }
        out.push(s[i]);
        assert(rest.drop_first() =~= s@.skip(i + 1));
        assert(out@ + replace_first(s@.skip(i + 1), p@, n@) =~= replace_first(s@, p@, n@));
        i += 1;
    }
    let ghost rest = s@.skip(i as int);
    assert(rest =~= Seq::<char>::empty());
    if p.len() == 0 {
        extend_chars(&mut out, n);
        assert(rest.take(0) =~= p@);
        assert(has_prefix(rest, p@));
        assert(rest.skip(0) =~= rest);
    }
    assert(out@ =~= replace_first(s@, p@, n@));
    out
}

/// What the edit tool makes of the file content: the first occurrence (or,
/// with `replace_all`, every occurrence) of `old_string` replaced by
/// `new_string`; an edit that changes nothing is refused.
pub open spec fn edited(
    content: Seq<char>,
    old_string: Seq<char>,
    new_string: Seq<char>,
    all: bool,
) -> Result<Seq<char>, Seq<char>> {
    let updated = if all {
        replace_all(content, old_string, new_string)
    } else {
        replace_first(content, old_string, new_string)
    };
    if updated == content {
        Err("old_string was not found in the file"@)
    } else {
        Ok(updated)
    }
}

/// Refuses an edit whose old and new text are the same.
pub fn check_edit_strings(old_string: &str, new_string: &str) -> (r: Result<(), String>)
    ensures
        old_string@ == new_string@ ==> (r matches Err(e) && e@
            == "old_string and new_string must be different"@),
        old_string@ != new_string@ ==> r is Ok,
{
    let a = chars_of(old_string);
    let b = chars_of(new_string);
    if chars_eq(a.as_slice(), b.as_slice()) {
        Err(String::from_str("old_string and new_string must be different"))
    } else {
        Ok(())
    }
}

/// Applies the edit to the file content (see `edited`).
pub fn apply_edit(content: &str, old_string: &str, new_string: &str, all: bool) -> (r: Result<String, String>)
    ensures
        r matches Ok(s) ==> edited(content@, old_string@, new_string@, all) == Ok::<Seq<char>, Seq<char>>(s@),
        r matches Err(e) ==> edited(content@, old_string@, new_string@, all) == Err::<Seq<char>, Seq<char>>(e@),
{
    let c = chars_of(content);
    let p = chars_of(old_string);
    let n = chars_of(new_string);
    let updated = if all {
        replace_all_chars(c.as_slice(), p.as_slice(), n.as_slice())
    } else {
        replace_first_chars(c.as_slice(), p.as_slice(), n.as_slice())
    };
    if chars_eq(updated.as_slice(), c.as_slice()) {
        Err(String::from_str("old_string was not found in the file"))
    } else {
        Ok(string_from_chars(updated.as_slice()))
    }
}

} // verus!
