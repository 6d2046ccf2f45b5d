//! Choosing the lines of a file that the read tool returns.
use vstd::prelude::*;
use crate::text::{
    chars_of, join_range, join_with, lemma_join_split, lemma_split_last_piece, lemma_split_on_nonempty,
    lemma_split_pieces_lack, split_chars, split_on,
};

verus! {

/// A line without the carriage return that ended it, if any.
pub open spec fn strip_cr(line: Seq<char>) -> Seq<char> {
    if line.len() > 0 && line.last() == '\r' {
        line.drop_last()
    } else {
        line
    }
}

/// The lines of `s`, as `str::lines` yields them: split at `\n`, each line
/// without a `\r` that ends it, and no empty line after a final `\n`.
pub open spec fn text_lines(s: Seq<char>) -> Seq<Seq<char>> {
    let pieces = split_on(s, '\n');
    let full = pieces.take(pieces.len() - 1).map_values(|l: Seq<char>| strip_cr(l));
    if pieces.last().len() == 0 {
        full
    } else {
        full.push(pieces.last())
    }
}

/// The position of the first line read: `offset` counts from 1, and is
/// clamped to the number of lines.
pub open spec fn window_start(line_count: nat, offset: u64) -> int {
    let wanted: int = if offset >= 1 {
        offset - 1
    } else {
        0
    };
    if wanted < line_count {
        wanted
    } else {
        line_count as int
    }
}

/// The position after the last line read: at most `limit` lines after the
/// start, and no further than the last line.
pub open spec fn window_end(line_count: nat, offset: u64, limit: Option<u64>) -> int {
    match limit {
        Some(l) => if window_start(line_count, offset) + l < line_count {
            window_start(line_count, offset) + l
        } else {
            line_count as int
        },
        None => line_count as int,
    }
}

/// The lines of `content` from line `offset` (counting from 1) on, at most
/// `limit` of them, joined with `\n`.
pub open spec fn selected_lines(content: Seq<char>, offset: u64, limit: Option<u64>) -> Seq<char> {
    let lines = text_lines(content);
    join_with(
        lines.subrange(
            window_start(lines.len(), offset),
            window_end(lines.len(), offset, limit),
        ),
        "\n"@,
    )
}

/// Reading a whole file from its first line gives its text back, for text
/// without carriage returns that does not end with a line break: `str::lines`
/// drops those, and nothing else.
pub proof fn lemma_whole_read_gives_back_content(content: Seq<char>)
    requires
        !content.contains('\r'),
        content.len() == 0 || content.last() != '\n',
    ensures
        selected_lines(content, 1, None) == content,
{
    let pieces = split_on(content, '\n');
    lemma_split_last_piece(content, '\n');
    lemma_split_pieces_lack(content, '\n', '\r');
    lemma_join_split(content, '\n');
    let lines = text_lines(content);
    if content.len() == 0 {
        assert(lines =~= Seq::<Seq<char>>::empty());
    } else {
        assert forall|i: int| 0 <= i < pieces.len() - 1 implies strip_cr(#[trigger] pieces[i]) == pieces[i] by {
            if pieces[i].len() > 0 {
                assert(!pieces[i].contains('\r'));
                assert(pieces[i].contains(pieces[i].last()));
            }
        }
        assert(lines =~= pieces);
    }
    assert(window_start(lines.len(), 1) == 0);
    assert(window_end(lines.len(), 1, None) == lines.len());
    assert(lines.subrange(0, lines.len() as int) =~= lines);
    assert(join_with(lines, "\n"@) == content) by {
        reveal_strlit("\n");
        assert("\n"@ =~= seq!['\n']);
    }
}

/// The window a limit chooses: from the start line, `limit` lines, or up to
/// the last line when fewer are left. So a limit that reaches the last line
/// or past it reads the same lines as no limit at all, and a limit never
/// reads more lines than it allows.
pub proof fn lemma_limit_window(content: Seq<char>, offset: u64, limit: u64)
    ensures
        ({
            let n = text_lines(content).len();
            let start = window_start(n, offset);
            let end = window_end(n, offset, Some(limit));
            &&& 0 <= start <= end <= n
            &&& window_end(n, offset, None) == n
            &&& end - start <= limit
            &&& (end == n || end - start == limit)
            &&& start + limit >= n ==> selected_lines(content, offset, Some(limit)) == selected_lines(
                content,
                offset,
                None,
            )
        }),
{
}

/// A copy of a character vector.
fn copy_chars(v: &Vec<char>) -> (r: Vec<char>)
    ensures
        r@ == v@,
{
    let r = v.clone();
    assert(r@ =~= v@);
    r
}

/// A line without the carriage return that ends it.
fn strip_cr_chars(piece: &Vec<char>) -> (r: Vec<char>)
    ensures
        r@ == strip_cr(piece@),
{
    let n = piece.len();
    let keep = if n > 0 && piece[n - 1] == '\r' {
        n - 1
    } else {
        n
    };
    let mut line: Vec<char> = Vec::new();
    let mut k: usize = 0;
    while k < keep
        invariant
            keep <= n == piece@.len(),
            k <= keep,
            line@ == piece@.take(k as int),
        decreases keep - k,
    {
        line.push(piece[k]);
        assert(line@ =~= piece@.take(k + 1));
        k += 1;
    }
    assert(line@ =~= strip_cr(piece@));
    line
}

/// The lines of `content` selected by `offset` and `limit` (see
/// `selected_lines`). The position after the window must fit in a `usize`.
pub fn select_lines(content: &str, offset: u64, limit: Option<u64>) -> (r: String)
    requires
        limit matches Some(l) ==> window_start(text_lines(content@).len(), offset) + l <= usize::MAX,
    ensures
        r@ == selected_lines(content@, offset, limit),
        limit matches Some(l) && window_start(text_lines(content@).len(), offset) + l >= text_lines(content@).len()
            ==> r@ == selected_lines(content@, offset, None),
{
    let chars = chars_of(content);
    let pieces = split_chars(chars.as_slice(), '\n');
    let ghost pv = pieces@.map_values(|p: Vec<char>| p@);
    proof {
        lemma_split_on_nonempty(content@, '\n');
    }
    let count = pieces.len();
    let mut lines: Vec<Vec<char>> = Vec::new();
    let mut i: usize = 0;
    while i + 1 < count
        invariant
            count == pieces@.len(),
            count >= 1,
            i + 1 <= count,
            pv == pieces@.map_values(|p: Vec<char>| p@),
            pv == split_on(content@, '\n'),
            lines@.len() == i,
            lines@.map_values(|p: Vec<char>| p@) == pv.take(i as int).map_values(|l: Seq<char>| strip_cr(l)),
        decreases count - i,
    {
        let line = strip_cr_chars(&pieces[i]);
        assert(pv[i as int] == pieces@[i as int]@);
        let ghost before = lines@;
        lines.push(line);
        assert forall|j: int| 0 <= j < i + 1 implies #[trigger] lines@[j]@ == strip_cr(pv[j]) by {
            if j < i {
                assert(lines@[j] == before[j]);
                assert(before.map_values(|p: Vec<char>| p@)[j] == pv.take(i as int).map_values(|l: Seq<char>| strip_cr(l))[j]);
            }
        }
        assert(lines@.map_values(|p: Vec<char>| p@) =~= pv.take(i + 1).map_values(|l: Seq<char>| strip_cr(l)));
        i += 1;
    }
    if pieces[count - 1].len() > 0 {
        let line = copy_chars(&pieces[count - 1]);
        let ghost before = lines@.map_values(|p: Vec<char>| p@);
        lines.push(line);
        assert(lines@.map_values(|p: Vec<char>| p@) =~= before.push(pv.last()));
    }
    let ghost lv = lines@.map_values(|p: Vec<char>| p@);
    assert(lv =~= text_lines(content@));
    let total = lines.len();
    let wanted: u64 = if offset >= 1 {
        offset - 1
    } else {
        0
    };
    let start: usize = if wanted < total as u64 {
        wanted as usize
    } else {
        total
    };
    let end: usize = match limit {
        Some(l) => {
            let l = l as usize;
            if start + l < total {
                start + l
            } else {
                total
            }
        },
        None => total,
    };
    join_range(&lines, start, end, "\n")
}

} // verus!
