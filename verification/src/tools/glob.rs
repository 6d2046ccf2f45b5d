//! Ordering and listing the paths the glob tool found.
use vstd::prelude::*;
use crate::text::{chars_of, join_range, join_with};

verus! {

broadcast use vstd::seq_lib::group_to_multiset_ensures;

/// Whether `a` comes strictly before `b` in the order of `String`'s `Ord`:
/// lexicographic by character, a proper prefix first. (UTF-8 keeps the order
/// of code points, so this is also the order of the bytes.)
pub open spec fn text_lt(a: Seq<char>, b: Seq<char>) -> bool
    decreases a.len(),
{
    if a.len() == 0 {
        b.len() > 0
    } else if b.len() == 0 {
        false
    } else if a[0] != b[0] {
        (a[0] as u32) < (b[0] as u32)
    } else {
        text_lt(a.drop_first(), b.drop_first())
    }
}

/// Whether `a` comes before `b` or equals it.
pub open spec fn text_le(a: Seq<char>, b: Seq<char>) -> bool {
    a == b || text_lt(a, b)
}

/// Whether `s` is in ascending order.
pub open spec fn sorted_texts(s: Seq<Seq<char>>) -> bool {
    forall|i: int, j: int| 0 <= i < j < s.len() ==> text_le(#[trigger] s[i], #[trigger] s[j])
}

/// The order is transitive.
pub proof fn lemma_text_lt_transitive(a: Seq<char>, b: Seq<char>, c: Seq<char>)
    requires
        text_lt(a, b),
        text_lt(b, c),
    ensures
        text_lt(a, c),
    decreases a.len(),
{
    if a.len() > 0 && b.len() > 0 && c.len() > 0 && a[0] == b[0] && b[0] == c[0] {
        lemma_text_lt_transitive(a.drop_first(), b.drop_first(), c.drop_first());
    }
}

/// Of two different texts, one comes before the other.
pub proof fn lemma_text_lt_total(a: Seq<char>, b: Seq<char>)
    requires
        a != b,
    ensures
        text_lt(a, b) || text_lt(b, a),
    decreases a.len(),
{
    if a.len() > 0 && b.len() > 0 {
        if a[0] == b[0] {
            if a.drop_first() == b.drop_first() {
                assert(a =~= seq![a[0]] + a.drop_first());
                assert(b =~= seq![b[0]] + b.drop_first());
            }
            lemma_text_lt_total(a.drop_first(), b.drop_first());
        } else {
            vstd::utf8::char_u32_cast(a[0], a[0] as u32);
            vstd::utf8::char_u32_cast(b[0], b[0] as u32);
            assert((a[0] as u32) != (b[0] as u32));
        }
    } else if a.len() == 0 && b.len() == 0 {
        assert(a =~= b);
    }
}

/// No text comes before itself.
pub proof fn lemma_text_lt_irreflexive(a: Seq<char>)
    ensures
        !text_lt(a, a),
    decreases a.len(),
{
    if a.len() > 0 {
        lemma_text_lt_irreflexive(a.drop_first());
    }
}

/// The order is that of code points at the first difference: where two
/// texts agree up to position `i` and `a` has the smaller code point there,
/// `a` comes first, and `b` does not come before it.
pub proof fn lemma_text_lt_first_difference(a: Seq<char>, b: Seq<char>, i: int)
    requires
        0 <= i < a.len(),
        i < b.len(),
        a.take(i) == b.take(i),
        (a[i] as u32) < (b[i] as u32),
    ensures
        text_lt(a, b),
        !text_lt(b, a),
    decreases i,
{
    if i > 0 {
        assert(a[0] == a.take(i)[0] && b[0] == b.take(i)[0]);
        assert(a.drop_first().take(i - 1) =~= a.take(i).drop_first());
        assert(b.drop_first().take(i - 1) =~= b.take(i).drop_first());
        lemma_text_lt_first_difference(a.drop_first(), b.drop_first(), i - 1);
    } else {
        vstd::utf8::char_u32_cast(a[0], a[0] as u32);
        vstd::utf8::char_u32_cast(b[0], b[0] as u32);
        assert(a[0] != b[0]);
    }
}

/// A proper prefix comes before the longer text, and not after it.
pub proof fn lemma_text_lt_prefix(a: Seq<char>, b: Seq<char>)
    requires
        a.len() < b.len(),
        b.take(a.len() as int) == a,
    ensures
        text_lt(a, b),
        !text_lt(b, a),
    decreases a.len(),
{
    if a.len() > 0 {
        assert(a[0] == b.take(a.len() as int)[0]);
        assert(b.drop_first().take(a.drop_first().len() as int) =~= a.drop_first());
        lemma_text_lt_prefix(a.drop_first(), b.drop_first());
    }
}

/// Whether `a` comes strictly before `b`.
fn chars_lt(a: &[char], b: &[char]) -> (r: bool)
    ensures
        r == text_lt(a@, b@),
{
    let mut i: usize = 0;
    assert(a@.skip(0) =~= a@);
    assert(b@.skip(0) =~= b@);
    while i < a.len() && i < b.len() && a[i] == b[i]
        invariant
            i <= a@.len(),
            i <= b@.len(),
            text_lt(a@, b@) == text_lt(a@.skip(i as int), b@.skip(i as int)),
        decreases a@.len() - i,
    {
        assert(a@.skip(i as int).drop_first() =~= a@.skip(i + 1));
        assert(b@.skip(i as int).drop_first() =~= b@.skip(i + 1));
        i += 1;
    }
    if i == a.len() {
        i < b.len()
    } else if i == b.len() {
        false
    } else {
        (a[i] as u32) < (b[i] as u32)
    }
}

/// A copy of a character vector.
fn copy_text(v: &Vec<char>) -> (r: Vec<char>)
    ensures
        r@ == v@,
{
    let r = v.clone();
    assert(r@ =~= v@);
    r
}

/// Inserting `x` at a position where everything before is not after `x` and
/// the next element is after `x` keeps a sorted sequence sorted.
proof fn lemma_insert_sorted(s: Seq<Seq<char>>, k: int, x: Seq<char>)
    requires
        sorted_texts(s),
        0 <= k <= s.len(),
        forall|p: int| 0 <= p < k ==> !text_lt(x, #[trigger] s[p]),
        k < s.len() ==> text_lt(x, s[k]),
    ensures
        sorted_texts(s.insert(k, x)),
{
    let t = s.insert(k, x);
    assert forall|p: int, q: int| 0 <= p < q < t.len() implies text_le(#[trigger] t[p], #[trigger] t[q]) by {
        if q < k {
            assert(t[p] == s[p] && t[q] == s[q]);
        } else if q == k {
            assert(t[p] == s[p] && t[q] == x);
            if s[p] != x {
                lemma_text_lt_total(s[p], x);
            }
        } else if p < k {
            assert(t[p] == s[p] && t[q] == s[q - 1]);
            if p < q - 1 {
                assert(text_le(s[p], s[q - 1]));
            }
        } else if p == k {
            assert(t[p] == x && t[q] == s[q - 1]);
            if k < q - 1 {
                assert(text_le(s[k], s[q - 1]));
                if text_lt(s[k], s[q - 1]) {
                    lemma_text_lt_transitive(x, s[k], s[q - 1]);
                }
            }
        } else {
            assert(t[p] == s[p - 1] && t[q] == s[q - 1]);
        }
    }
}

/// The texts in ascending order, with the same elements.
pub fn sort_texts(items: &Vec<Vec<char>>) -> (r: Vec<Vec<char>>)
    ensures
        sorted_texts(r@.map_values(|t: Vec<char>| t@)),
        r@.map_values(|t: Vec<char>| t@).to_multiset() == items@.map_values(|t: Vec<char>| t@).to_multiset(),
{
    let ghost all = items@.map_values(|t: Vec<char>| t@);
    let mut out: Vec<Vec<char>> = Vec::new();
    let mut i: usize = 0;
    while i < items.len()
        invariant
            i <= items@.len(),
            all == items@.map_values(|t: Vec<char>| t@),
            sorted_texts(out@.map_values(|t: Vec<char>| t@)),
            out@.map_values(|t: Vec<char>| t@).to_multiset() == all.take(i as int).to_multiset(),
        decreases items@.len() - i,
    {
        let x = copy_text(&items[i]);
        let ghost ov = out@.map_values(|t: Vec<char>| t@);
        let mut k: usize = 0;
        while k < out.len() && !chars_lt(x.as_slice(), out[k].as_slice())
            invariant
                k <= out@.len(),
                ov == out@.map_values(|t: Vec<char>| t@),
                forall|p: int| 0 <= p < k ==> !text_lt(x@, #[trigger] ov[p]),
            decreases out@.len() - k,
        {
            k += 1;
        }
        proof {
            lemma_insert_sorted(ov, k as int, x@);
        }
        let ghost xv = x@;
        out.insert(k, x);
        let ghost nv = out@.map_values(|t: Vec<char>| t@);
        assert(nv =~= ov.insert(k as int, xv));
        proof {
            assert(nv.remove(k as int) =~= ov);
            assert(nv.to_multiset().remove(xv) =~= ov.to_multiset());
            assert(nv.to_multiset().count(xv) > 0) by {
                assert(nv[k as int] == xv);
                assert(nv.contains(xv));
            }
            assert(nv.to_multiset() =~= ov.to_multiset().insert(xv));
            assert(all.take(i + 1) =~= all.take(i as int).push(xv));
        }
        i += 1;
    }
    assert(all.take(items@.len() as int) =~= all);
    out
}

/// The glob tool's listing: the matched paths in ascending order, one per
/// line.
pub fn format_glob_matches(matches: &Vec<String>) -> (r: String)
    ensures
        exists|sorted: Seq<Seq<char>>|
            sorted_texts(sorted) && sorted.to_multiset() == matches@.map_values(|m: String| m@).to_multiset()
                && r@ == join_with(sorted, "\n"@),
{
    let mut texts: Vec<Vec<char>> = Vec::new();
    let mut i: usize = 0;
    while i < matches.len()
        invariant
            i <= matches@.len(),
            texts@.len() == i,
            texts@.map_values(|t: Vec<char>| t@) == matches@.take(i as int).map_values(|m: String| m@),
        decreases matches@.len() - i,
    {
        let ghost before = texts@;
        texts.push(chars_of(matches[i].as_str()));
        assert forall|j: int| 0 <= j < i + 1 implies #[trigger] texts@[j]@ == matches@[j]@ by {
            if j < i {
                assert(texts@[j] == before[j]);
                assert(before.map_values(|t: Vec<char>| t@)[j] == matches@.take(i as int).map_values(|m: String| m@)[j]);
            }
        }
        assert(texts@.map_values(|t: Vec<char>| t@) =~= matches@.take(i + 1).map_values(|m: String| m@));
        i += 1;
    }
    assert(matches@.take(matches@.len() as int) =~= matches@);
    let sorted = sort_texts(&texts);
    let r = join_range(&sorted, 0, sorted.len(), "\n");
    assert(sorted@.map_values(|t: Vec<char>| t@).subrange(0, sorted@.len() as int) =~= sorted@.map_values(|t: Vec<char>| t@));
    r
}

} // verus!
