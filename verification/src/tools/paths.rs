//! Unix path handling for the file tools: normalizing a path and keeping it
//! inside the project root.
use vstd::prelude::*;
use crate::text::{
    chars_eq, chars_of, lemma_split_concat, lemma_split_on_nonempty, lemma_split_pieces_lack_sep,
    lemma_split_without_sep, push_char, split_on, text_result,
};

verus! {

/// The pieces of `s` between slashes, empty pieces included.
pub open spec fn split_on_slash(s: Seq<char>) -> Seq<Seq<char>>
    decreases s.len(),
{
    if s.len() == 0 {
        seq![Seq::empty()]
    } else {
        let earlier = split_on_slash(s.drop_last());
        if s.last() == '/' {
            earlier.push(Seq::empty())
        } else {
            earlier.update(earlier.len() - 1, earlier.last().push(s.last()))
        }
    }
}

/// Whether the path text `s` is absolute: it starts with a slash.
pub open spec fn is_absolute(s: Seq<char>) -> bool {
    s.len() > 0 && s[0] == '/'
}

/// The pieces of a path that are components: no empty pieces, and `.` only
/// as the very first piece.
pub open spec fn kept_pieces(pieces: Seq<Seq<char>>) -> Seq<Seq<char>>
    decreases pieces.len(),
{
    if pieces.len() == 0 {
        Seq::empty()
    } else {
        let earlier = kept_pieces(pieces.drop_last());
        let piece = pieces.last();
        if piece.len() > 0 && (piece != "."@ || pieces.len() == 1) {
            earlier.push(piece)
        } else {
            earlier
        }
    }
}

/// The components of the path text `s` after its root, as `Path::components`
/// reads them on Unix: `.` is one only at the start of a relative path, and
/// `..` stays as it is.
pub open spec fn path_components(s: Seq<char>) -> Seq<Seq<char>> {
    kept_pieces(split_on_slash(s))
}

/// The components left after resolving `.` and `..` lexically: `.` is
/// dropped and `..` removes the component before it, if there is one.
pub open spec fn resolve_dots(components: Seq<Seq<char>>) -> Seq<Seq<char>>
    decreases components.len(),
{
    if components.len() == 0 {
        Seq::empty()
    } else {
        let earlier = resolve_dots(components.drop_last());
        let c = components.last();
        if c == "."@ {
            earlier
        } else if c == ".."@ {
            if earlier.len() > 0 {
                earlier.drop_last()
            } else {
                earlier
            }
        } else {
            earlier.push(c)
        }
    }
}

/// The components joined with slashes.
pub open spec fn join_with_slash(parts: Seq<Seq<char>>) -> Seq<char>
    decreases parts.len(),
{
    if parts.len() == 0 {
        Seq::empty()
    } else if parts.len() == 1 {
        parts[0]
    } else {
        join_with_slash(parts.drop_last()) + "/"@ + parts.last()
    }
}

/// The text of `s` with `.` and `..` resolved lexically, as `normalize_path`
/// builds it.
pub open spec fn normalized(s: Seq<char>) -> Seq<char> {
    (if is_absolute(s) {
        "/"@
    } else {
        Seq::empty()
    }) + join_with_slash(resolve_dots(path_components(s)))
}

/// Whether the path `path` starts with the path `base`, component by
/// component, as `Path::starts_with` decides it.
pub open spec fn path_starts_with(path: Seq<char>, base: Seq<char>) -> bool {
    &&& is_absolute(path) == is_absolute(base)
    &&& path_components(base).len() <= path_components(path).len()
    &&& path_components(path).take(path_components(base).len() as int) == path_components(base)
}

/// `path` joined onto `root`, as `PathBuf::push` joins them: an absolute path
/// replaces the root; otherwise a slash separates them unless the root is
/// empty or already ends with one.
pub open spec fn joined(root: Seq<char>, path: Seq<char>) -> Seq<char> {
    if is_absolute(path) {
        path
    } else if root.len() > 0 && root.last() != '/' {
        root + "/"@ + path
    } else {
        root + path
    }
}

/// The path `path` names inside the project `root`, normalized, or the
/// error for a path that leaves the root.
pub open spec fn resolved(root: Seq<char>, path: Seq<char>) -> Result<Seq<char>, Seq<char>> {
    let full = normalized(joined(root, path));
    if path_starts_with(full, root) {
        Ok(full)
    } else {
        Err("path escapes project root: "@ + full)
    }
}

/// The pieces of `s` between slashes.
fn split_pieces(s: &[char]) -> (r: Vec<Vec<char>>)
    ensures
        r@.map_values(|p: Vec<char>| p@) == split_on_slash(s@),
{
    let mut pieces: Vec<Vec<char>> = Vec::new();
    let mut current: Vec<char> = Vec::new();
    let mut i: usize = 0;
    while i < s.len()
        invariant
            i <= s@.len(),
            split_on_slash(s@.take(i as int)) == pieces@.map_values(|p: Vec<char>| p@).push(current@),
        decreases s@.len() - i,
    {
        let ghost before = pieces@.map_values(|p: Vec<char>| p@);
        assert(s@.take(i + 1).drop_last() =~= s@.take(i as int));
        if s[i] == '/' {
            let done = current;
            current = Vec::new();
            pieces.push(done);
            assert(pieces@.map_values(|p: Vec<char>| p@) =~= before.push(done@));
        } else {
            current.push(s[i]);
            assert(before.push(current@) =~= split_on_slash(s@.take(i as int)).update(
                before.len() as int,
                split_on_slash(s@.take(i as int)).last().push(s@[i as int]),
            ));
        }
        i += 1;
    }
    assert(s@.take(s@.len() as int) =~= s@);
    let ghost before = pieces@.map_values(|p: Vec<char>| p@);
    pieces.push(current);
    assert(pieces@.map_values(|p: Vec<char>| p@) =~= before.push(current@));
    pieces
}

/// The components of the path text `s` after its root.
fn components_of(s: &[char]) -> (r: Vec<Vec<char>>)
    ensures
        r@.map_values(|p: Vec<char>| p@) == path_components(s@),
{
    let pieces = split_pieces(s);
    let ghost all = pieces@.map_values(|p: Vec<char>| p@);
    let dot = chars_of(".");
    proof {
        reveal_strlit(".");
    }
    let mut out: Vec<Vec<char>> = Vec::new();
    let mut i: usize = 0;
    while i < pieces.len()
        invariant
            i <= pieces@.len(),
            all == pieces@.map_values(|p: Vec<char>| p@),
            all == split_on_slash(s@),
            dot@ == "."@,
            out@.map_values(|p: Vec<char>| p@) == kept_pieces(all.take(i as int)),
        decreases pieces@.len() - i,
    {
        let ghost before = out@.map_values(|p: Vec<char>| p@);
        assert(all.take(i + 1).drop_last() =~= all.take(i as int));
        assert(all.take(i + 1).last() == pieces@[i as int]@);
        let keep = pieces[i].len() > 0 && (!chars_eq(pieces[i].as_slice(), dot.as_slice()) || i == 0);
        if keep {
            let piece = clone_chars(&pieces[i]);
            out.push(piece);
            assert(out@.map_values(|p: Vec<char>| p@) =~= before.push(pieces@[i as int]@));
        }
        i += 1;
    }
    assert(all.take(all.len() as int) =~= all);
    out
}

/// A copy of a character vector.
fn clone_chars(v: &Vec<char>) -> (r: Vec<char>)
    ensures
        r@ == v@,
{
    let r = v.clone();
    assert(r@ =~= v@);
    r
}

/// The components with `.` and `..` resolved lexically.
fn resolve_dot_components(components: &Vec<Vec<char>>) -> (r: Vec<Vec<char>>)
    ensures
        r@.map_values(|p: Vec<char>| p@) == resolve_dots(components@.map_values(|p: Vec<char>| p@)),
{
    let ghost all = components@.map_values(|p: Vec<char>| p@);
    let dot = chars_of(".");
    let dots = chars_of("..");
    proof {
        reveal_strlit(".");
        reveal_strlit("..");
    }
    let mut out: Vec<Vec<char>> = Vec::new();
    let mut i: usize = 0;
    while i < components.len()
        invariant
            i <= components@.len(),
            all == components@.map_values(|p: Vec<char>| p@),
            dot@ == "."@,
            dots@ == ".."@,
            out@.map_values(|p: Vec<char>| p@) == resolve_dots(all.take(i as int)),
        decreases components@.len() - i,
    {
        let ghost before = out@.map_values(|p: Vec<char>| p@);
        assert(all.take(i + 1).drop_last() =~= all.take(i as int));
        assert(all.take(i + 1).last() == components@[i as int]@);
        if chars_eq(components[i].as_slice(), dot.as_slice()) {
        } else if chars_eq(components[i].as_slice(), dots.as_slice()) {
            if out.len() > 0 {
                out.pop();
                assert(out@.map_values(|p: Vec<char>| p@) =~= before.drop_last());
            }
        } else {
            out.push(clone_chars(&components[i]));
            assert(out@.map_values(|p: Vec<char>| p@) =~= before.push(components@[i as int]@));
        }
        i += 1;
    }
    assert(all.take(all.len() as int) =~= all);
    out
}

/// The components joined with slashes.
fn join_components(parts: &Vec<Vec<char>>, out: &mut String)
    ensures
        final(out)@ == old(out)@ + join_with_slash(parts@.map_values(|p: Vec<char>| p@)),
{
    let ghost all = parts@.map_values(|p: Vec<char>| p@);
    let ghost start = out@;
    let mut i: usize = 0;
    while i < parts.len()
        invariant
            i <= parts@.len(),
            all == parts@.map_values(|p: Vec<char>| p@),
            out@ == start + join_with_slash(all.take(i as int)),
        decreases parts@.len() - i,
    {
        assert(all.take(i + 1).drop_last() =~= all.take(i as int));
        assert(all.take(i + 1).last() == parts@[i as int]@);
        if i > 0 {
            push_char(out, '/');
        }
        let ghost mid = out@;
        let mut k: usize = 0;
        while k < parts[i].len()
            invariant
                i < parts@.len(),
                k <= parts@[i as int]@.len(),
                out@ == mid + parts@[i as int]@.take(k as int),
            decreases parts@[i as int]@.len() - k,
        {
            push_char(out, parts[i][k]);
            assert(parts@[i as int]@.take(k + 1) =~= parts@[i as int]@.take(k as int).push(parts@[i as int]@[k as int]));
            k += 1;
        }
        assert(parts@[i as int]@.take(parts@[i as int]@.len() as int) =~= parts@[i as int]@);
        proof {
            reveal_strlit("/");
            if i == 0 {
                assert(all.take(1) =~= seq![all[0]]);
            }
        }
        assert(out@ =~= start + join_with_slash(all.take(i + 1)));
        i += 1;
    }
    assert(all.take(all.len() as int) =~= all);
}

/// The characters of `path` with `.` and `..` resolved lexically.
fn normalize_chars(path: &[char]) -> (r: String)
    ensures
        r@ == normalized(path@),
{
    let components = components_of(path);
    let parts = resolve_dot_components(&components);
    let mut out = String::new();
    if path.len() > 0 && path[0] == '/' {
        push_char(&mut out, '/');
        proof {
            reveal_strlit("/");
        }
    }
    join_components(&parts, &mut out);
    assert(out@ =~= normalized(path@));
    out
}

/// `path` with `.` and `..` resolved lexically: `.` components are dropped
/// and each `..` removes the component before it (a `..` at the root or at
/// the start of a relative path is dropped). Nothing is read from the file
/// system.
pub fn normalize_path(path: &str) -> (r: String)
    ensures
        r@ == normalized(path@),
{
    let chars = chars_of(path);
    normalize_chars(chars.as_slice())
}

/// Whether `path` starts with `base`, component by component.
fn starts_with_path(path: &[char], base: &[char]) -> (r: bool)
    ensures
        r == path_starts_with(path@, base@),
{
    let path_absolute = path.len() > 0 && path[0] == '/';
    let base_absolute = base.len() > 0 && base[0] == '/';
    if path_absolute != base_absolute {
        return false;
    }
    let p = components_of(path);
    let b = components_of(base);
    let ghost pv = p@.map_values(|x: Vec<char>| x@);
    let ghost bv = b@.map_values(|x: Vec<char>| x@);
    if b.len() > p.len() {
        return false;
    }
    let mut i: usize = 0;
    while i < b.len()
        invariant
            is_absolute(path@) == is_absolute(base@),
            b@.len() <= p@.len(),
            i <= b@.len(),
            pv == p@.map_values(|x: Vec<char>| x@),
            bv == b@.map_values(|x: Vec<char>| x@),
            pv == path_components(path@),
            bv == path_components(base@),
            forall|k: int| 0 <= k < i ==> pv[k] == bv[k],
        decreases b@.len() - i,
    {
        if !chars_eq(p[i].as_slice(), b[i].as_slice()) {
            assert(pv.take(bv.len() as int)[i as int] != bv[i as int]);
            return false;
        }
        i += 1;
    }
    assert(pv.take(bv.len() as int) =~= bv);
    true
}

/// `path` joined onto `root`.
pub(crate) fn join_paths(root: &[char], path: &[char]) -> (r: Vec<char>)
    ensures
        r@ == joined(root@, path@),
{
    let mut out: Vec<char> = Vec::new();
    if path.len() > 0 && path[0] == '/' {
        let mut i: usize = 0;
        while i < path.len()
            invariant
                i <= path@.len(),
                out@ == path@.take(i as int),
            decreases path@.len() - i,
        {
            out.push(path[i]);
            assert(out@ =~= path@.take(i + 1));
            i += 1;
        }
        assert(out@ =~= path@);
        return out;
    }
    let mut i: usize = 0;
    while i < root.len()
        invariant
            i <= root@.len(),
            out@ == root@.take(i as int),
        decreases root@.len() - i,
    {
        out.push(root[i]);
        assert(out@ =~= root@.take(i + 1));
        i += 1;
    }
    assert(out@ =~= root@);
    if root.len() > 0 && root[root.len() - 1] != '/' {
        out.push('/');
        proof {
            reveal_strlit("/");
        }
    }
    let ghost head = out@;
    let mut k: usize = 0;
    while k < path.len()
        invariant
            k <= path@.len(),
            out@ == head + path@.take(k as int),
        decreases path@.len() - k,
    {
        out.push(path[k]);
        assert(out@ =~= head + path@.take(k + 1));
        k += 1;
    }
    assert(out@ =~= joined(root@, path@));
    out
}

/// The path that `path_str` names inside the project `root`, normalized:
/// relative paths are taken from the root. A path that leaves the root is
/// refused with `path escapes project root: <normalized path>`.
pub fn resolve_and_validate_path(root: &str, path_str: &str) -> (r: Result<String, String>)
    ensures
        text_result(r) == resolved(root@, path_str@),
{
    let root_chars = chars_of(root);
    let path_chars = chars_of(path_str);
    let resolved = join_paths(root_chars.as_slice(), path_chars.as_slice());
    let normalized_text = normalize_chars(resolved.as_slice());
    let normalized_chars = chars_of(normalized_text.as_str());
    if !starts_with_path(normalized_chars.as_slice(), root_chars.as_slice()) {
        let mut message = String::from_str("path escapes project root: ");
        message.append(normalized_text.as_str());
        return Err(message);
    }
    Ok(normalized_text)
}


/// Splitting at slashes is `split_on` with `/`.
proof fn lemma_split_on_slash(s: Seq<char>)
    ensures
        split_on_slash(s) == split_on(s, '/'),
    decreases s.len(),
{
    if s.len() > 0 {
        lemma_split_on_slash(s.drop_last());
    }
}

/// A component as `normalize_path` leaves it: not empty, without a slash,
/// and neither `.` nor `..`.
pub open spec fn plain_component(c: Seq<char>) -> bool {
    &&& c.len() > 0
    &&& !c.contains('/')
    &&& c != "."@
    &&& c != ".."@
}

/// Keeping pieces from a run of plain components keeps them all.
proof fn lemma_kept_pieces_append(a: Seq<Seq<char>>, b: Seq<Seq<char>>)
    requires
        forall|i: int| 0 <= i < b.len() ==> plain_component(#[trigger] b[i]),
    ensures
        kept_pieces(a + b) == kept_pieces(a) + b,
    decreases b.len(),
{
    if b.len() == 0 {
        assert(a + b =~= a);
        assert(kept_pieces(a) + b =~= kept_pieces(a));
    } else {
        lemma_kept_pieces_append(a, b.drop_last());
        assert((a + b).drop_last() =~= a + b.drop_last());
        assert(plain_component(b[b.len() - 1]));
        assert(kept_pieces(a + b) =~= (kept_pieces(a) + b.drop_last()).push(b.last()));
        assert(kept_pieces(a) + b =~= (kept_pieces(a) + b.drop_last()).push(b.last()));
    }
}

/// The kept pieces of slash-free pieces are non-empty and slash-free.
proof fn lemma_kept_pieces_shape(pieces: Seq<Seq<char>>)
    requires
        forall|i: int| 0 <= i < pieces.len() ==> !(#[trigger] pieces[i]).contains('/'),
    ensures
        forall|j: int| 0 <= j < kept_pieces(pieces).len() ==> (#[trigger] kept_pieces(pieces)[j]).len() > 0
            && !kept_pieces(pieces)[j].contains('/'),
    decreases pieces.len(),
{
    if pieces.len() > 0 {
        assert(forall|i: int| 0 <= i < pieces.drop_last().len() ==> pieces.drop_last()[i] == pieces[i]);
        lemma_kept_pieces_shape(pieces.drop_last());
        assert(!pieces[pieces.len() - 1].contains('/'));
        let earlier = kept_pieces(pieces.drop_last());
        let kept = kept_pieces(pieces);
        assert forall|j: int| 0 <= j < kept.len() implies (#[trigger] kept[j]).len() > 0 && !kept[j].contains('/') by {
            if j < earlier.len() {
                assert(kept[j] == earlier[j]);
            }
        }
    }
}

/// Resolving dots in non-empty, slash-free components leaves plain
/// components.
proof fn lemma_resolve_dots_shape(components: Seq<Seq<char>>)
    requires
        forall|i: int| 0 <= i < components.len() ==> (#[trigger] components[i]).len() > 0
            && !components[i].contains('/'),
    ensures
        forall|j: int| 0 <= j < resolve_dots(components).len() ==> plain_component(
            #[trigger] resolve_dots(components)[j],
        ),
    decreases components.len(),
{
    if components.len() > 0 {
        assert(forall|i: int| 0 <= i < components.drop_last().len() ==> components.drop_last()[i] == components[i]);
        lemma_resolve_dots_shape(components.drop_last());
        let earlier = resolve_dots(components.drop_last());
        assert(components[components.len() - 1].len() > 0);
        if earlier.len() > 0 {
            assert(forall|j: int| 0 <= j < earlier.drop_last().len() ==> earlier.drop_last()[j] == earlier[j]);
        }
    }
}

/// Resolving dots changes nothing in plain components.
proof fn lemma_resolve_dots_plain(components: Seq<Seq<char>>)
    requires
        forall|i: int| 0 <= i < components.len() ==> plain_component(#[trigger] components[i]),
    ensures
        resolve_dots(components) == components,
    decreases components.len(),
{
    if components.len() > 0 {
        assert(forall|i: int| 0 <= i < components.drop_last().len() ==> components.drop_last()[i] == components[i]);
        lemma_resolve_dots_plain(components.drop_last());
        assert(plain_component(components[components.len() - 1]));
        assert(components.drop_last().push(components.last()) =~= components);
    } else {
        assert(components =~= Seq::<Seq<char>>::empty());
    }
}

/// Plain components joined with slashes split back into themselves, and the
/// text starts with the first component's first character.
proof fn lemma_split_join_slash(parts: Seq<Seq<char>>)
    requires
        parts.len() >= 1,
        forall|i: int| 0 <= i < parts.len() ==> plain_component(#[trigger] parts[i]),
    ensures
        split_on(join_with_slash(parts), '/') == parts,
        join_with_slash(parts).len() > 0,
        join_with_slash(parts)[0] == parts[0][0],
    decreases parts.len(),
{
    assert(plain_component(parts[parts.len() - 1]));
    if parts.len() == 1 {
        lemma_split_without_sep(parts[0], '/');
        assert(seq![parts[0]] =~= parts);
    } else {
        assert(forall|i: int| 0 <= i < parts.drop_last().len() ==> parts.drop_last()[i] == parts[i]);
        lemma_split_join_slash(parts.drop_last());
        reveal_strlit("/");
        assert("/"@ =~= seq!['/']);
        lemma_split_concat(join_with_slash(parts.drop_last()), parts.last(), '/');
        lemma_split_without_sep(parts.last(), '/');
        assert(parts.drop_last() + seq![parts.last()] =~= parts);
        assert(parts.drop_last()[0] == parts[0]);
    }
}

/// The components of a normalized path are its resolved components, and it
/// is absolute exactly when the path was.
proof fn lemma_normalized_components(s: Seq<char>)
    ensures
        path_components(normalized(s)) == resolve_dots(path_components(s)),
        is_absolute(normalized(s)) == is_absolute(s),
{
    let parts = resolve_dots(path_components(s));
    let pieces = split_on_slash(s);
    lemma_split_on_slash(s);
    lemma_split_pieces_lack_sep(s, '/');
    lemma_kept_pieces_shape(pieces);
    lemma_resolve_dots_shape(path_components(s));
    let n = normalized(s);
    lemma_split_on_slash(n);
    reveal_strlit("/");
    let empty_piece: Seq<Seq<char>> = seq![Seq::empty()];
    assert(kept_pieces(empty_piece) =~= Seq::<Seq<char>>::empty()) by {
        assert(empty_piece.drop_last() =~= Seq::<Seq<char>>::empty());
        assert(kept_pieces(Seq::<Seq<char>>::empty()) == Seq::<Seq<char>>::empty());
        assert(empty_piece.last().len() == 0);
    }
    if parts.len() == 0 {
        if is_absolute(s) {
            assert(n =~= Seq::<char>::empty() + seq!['/'] + Seq::<char>::empty());
            lemma_split_concat(Seq::empty(), Seq::empty(), '/');
            let two: Seq<Seq<char>> = seq![Seq::empty(), Seq::empty()];
            assert(split_on(n, '/') =~= two);
            assert(two.drop_last() =~= empty_piece);
        } else {
            assert(n =~= Seq::<char>::empty());
        }
    } else {
        lemma_split_join_slash(parts);
        let joined_parts = join_with_slash(parts);
        if is_absolute(s) {
            assert(n =~= Seq::<char>::empty() + seq!['/'] + joined_parts);
            lemma_split_concat(Seq::empty(), joined_parts, '/');
            assert(split_on(n, '/') =~= empty_piece + parts);
            lemma_kept_pieces_append(empty_piece, parts);
        } else {
            assert(n =~= joined_parts);
            assert(!parts[0].contains('/'));
            assert(parts[0].contains(parts[0][0]));
            lemma_kept_pieces_append(Seq::empty(), parts);
            assert(Seq::<Seq<char>>::empty() + parts =~= parts);
            assert(kept_pieces(Seq::<Seq<char>>::empty()) + parts =~= parts);
        }
    }
}

/// Resolving dots never adds components.
proof fn lemma_resolve_dots_len(components: Seq<Seq<char>>)
    ensures
        resolve_dots(components).len() <= components.len(),
    decreases components.len(),
{
    if components.len() > 0 {
        lemma_resolve_dots_len(components.drop_last());
    }
}

/// A normalized path keeps whether it is absolute, has no more components
/// than the path it came from, and every component it has is plain: not
/// empty, and neither `.` nor `..`.
pub proof fn lemma_normalized_shape(s: Seq<char>)
    ensures
        is_absolute(normalized(s)) == is_absolute(s),
        path_components(normalized(s)).len() <= path_components(s).len(),
        forall|i: int| 0 <= i < path_components(normalized(s)).len() ==> plain_component(
            #[trigger] path_components(normalized(s))[i],
        ),
{
    lemma_normalized_components(s);
    lemma_split_on_slash(s);
    lemma_split_pieces_lack_sep(s, '/');
    lemma_kept_pieces_shape(split_on_slash(s));
    lemma_resolve_dots_shape(path_components(s));
    lemma_resolve_dots_len(path_components(s));
}

/// Normalizing a normalized path changes nothing.
pub proof fn lemma_normalize_idempotent(s: Seq<char>)
    ensures
        normalized(normalized(s)) == normalized(s),
{
    lemma_normalized_components(s);
    let parts = resolve_dots(path_components(s));
    lemma_split_on_slash(s);
    lemma_split_pieces_lack_sep(s, '/');
    lemma_kept_pieces_shape(split_on_slash(s));
    lemma_resolve_dots_shape(path_components(s));
    lemma_resolve_dots_plain(parts);
}


/// A path the tools accept lies inside the project root, component by
/// component, and is already normalized: no `.` or `..` is left in it to
/// lead elsewhere.
pub proof fn lemma_accepted_path_inside_root(root: Seq<char>, path: Seq<char>)
    ensures
        resolved(root, path) matches Ok(full) ==> path_starts_with(full, root) && normalized(full) == full,
{
    lemma_normalize_idempotent(joined(root, path));
}

} // verus!
