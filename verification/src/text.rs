//! Text as sequences of characters: decimal numerals, splitting at a
//! separator, joining with a separator, and lines.

use vstd::prelude::*;

verus! {

/// `String::push` appends the given character to the end of the string.
pub assume_specification[ String::push ](s: &mut String, ch: char)
    ensures
        final(s)@ == old(s)@.push(ch),
;

/// `String::pop` removes the last character of the string and returns it;
/// on an empty string it returns `None` and leaves the string as it is.
pub assume_specification[ String::pop ](s: &mut String) -> (r: Option<char>)
    ensures
        old(s)@.len() == 0 ==> r is None && final(s)@ == old(s)@,
        old(s)@.len() > 0 ==> r == Some(old(s)@.last()) && final(s)@ == old(s)@.drop_last(),
;

/// The character that stands for the decimal digit `d`.
pub open spec fn digit(d: int) -> char
    recommends
        0 <= d < 10,
{
    if d == 0 {
        '0'
    } else if d == 1 {
        '1'
    } else if d == 2 {
        '2'
    } else if d == 3 {
        '3'
    } else if d == 4 {
        '4'
    } else if d == 5 {
        '5'
    } else if d == 6 {
        '6'
    } else if d == 7 {
        '7'
    } else if d == 8 {
        '8'
    } else {
        '9'
    }
}

/// The decimal numeral of `n`: no sign, no leading zero but for zero itself.
pub open spec fn decimal(n: nat) -> Seq<char>
    decreases n,
{
    if n < 10 {
        seq![digit(n as int)]
    } else {
        decimal(n / 10).push(digit((n % 10) as int))
    }
}

/// The pieces into which the separator cuts `s`: one more than the number of
/// separators in `s`, in order, none of them holding a separator.
pub open spec fn pieces(s: Seq<char>, sep: char) -> Seq<Seq<char>>
    decreases s.len(),
{
    if s.len() == 0 {
        seq![Seq::<char>::empty()]
    } else {
        let before = pieces(s.drop_last(), sep);
        if s.last() == sep {
            before.push(Seq::<char>::empty())
        } else {
            before.drop_last().push(before.last().push(s.last()))
        }
    }
}

/// The parts in order, with one separator between each two neighbours.
pub open spec fn joined(parts: Seq<Seq<char>>, sep: char) -> Seq<char>
    decreases parts.len(),
{
    if parts.len() == 0 {
        Seq::<char>::empty()
    } else if parts.len() == 1 {
        parts[0]
    } else {
        joined(parts.drop_last(), sep).push(sep) + parts.last()
    }
}

/// Whether no character of `s` is the separator.
pub open spec fn free_of(s: Seq<char>, sep: char) -> bool {
    forall|i: int| 0 <= i < s.len() ==> s[i] != sep
}

/// A line without the carriage return that ended it, if one did.
pub open spec fn without_return(line: Seq<char>) -> Seq<char> {
    if line.len() > 0 && line.last() == '\r' {
        line.drop_last()
    } else {
        line
    }
}

/// The lines of `s`. A line ends at a line feed, or at a carriage return
/// directly followed by one; neither belongs to the line. What follows the
/// last line feed is a line of its own unless it is empty, and keeps a
/// carriage return at its end.
pub open spec fn lines(s: Seq<char>) -> Seq<Seq<char>> {
    let cut = pieces(s, '\n');
    let ended = cut.drop_last().map_values(|line: Seq<char>| without_return(line));
    if cut.last().len() == 0 {
        ended
    } else {
        ended.push(cut.last())
    }
}

/// Cutting at a separator always yields at least one piece.
pub proof fn lemma_pieces_len(s: Seq<char>, sep: char)
    ensures
        pieces(s, sep).len() >= 1,
    decreases s.len(),
{
    if s.len() > 0 {
        lemma_pieces_len(s.drop_last(), sep);
    }
}

/// No piece holds the separator.
pub proof fn lemma_pieces_free_of_separator(s: Seq<char>, sep: char)
    ensures
        forall|i: int| 0 <= i < pieces(s, sep).len() ==> free_of(#[trigger] pieces(s, sep)[i], sep),
    decreases s.len(),
{
    if s.len() > 0 {
        lemma_pieces_len(s.drop_last(), sep);
        lemma_pieces_free_of_separator(s.drop_last(), sep);
    }
}

/// Joining the pieces with the separator that cut them gives the text back.
pub proof fn lemma_joined_pieces(s: Seq<char>, sep: char)
    ensures
        joined(pieces(s, sep), sep) == s,
    decreases s.len(),
{
    if s.len() > 0 {
        let before = pieces(s.drop_last(), sep);
        lemma_pieces_len(s.drop_last(), sep);
        lemma_joined_pieces(s.drop_last(), sep);
        if s.last() == sep {
            let now = before.push(Seq::<char>::empty());
            assert(now.drop_last() == before);
            assert(joined(now, sep) == joined(before, sep).push(sep) + Seq::<char>::empty());
            assert(joined(now, sep) == s.drop_last().push(sep));
            assert(s.drop_last().push(sep) == s);
        } else {
            let grown = before.last().push(s.last());
            let now = before.drop_last().push(grown);
            assert(now.drop_last() == before.drop_last());
            if before.len() == 1 {
                assert(joined(now, sep) == grown);
                assert(joined(before, sep) == before.last());
            } else {
                assert(joined(now, sep) == joined(before.drop_last(), sep).push(sep) + grown);
                assert(joined(before, sep) == joined(before.drop_last(), sep).push(sep)
                    + before.last());
                assert(joined(now, sep) == joined(before, sep).push(s.last()));
            }
            assert(s.drop_last().push(s.last()) == s);
        }
    }
}

/// Cutting a joined text gives the parts back, where there is at least one
/// part and none of them holds the separator.
pub proof fn lemma_pieces_joined(parts: Seq<Seq<char>>, sep: char)
    requires
        parts.len() >= 1,
        forall|i: int| 0 <= i < parts.len() ==> free_of(#[trigger] parts[i], sep),
    ensures
        pieces(joined(parts, sep), sep) == parts,
    decreases parts.len(),
{
    if parts.len() == 1 {
        lemma_pieces_of_free(parts[0], sep);
        assert(parts == seq![parts[0]]);
    } else {
        let front = parts.drop_last();
        assert forall|i: int| 0 <= i < front.len() implies free_of(#[trigger] front[i], sep) by {
            assert(front[i] == parts[i]);
        }
        lemma_pieces_joined(front, sep);
        lemma_pieces_append_free(joined(front, sep).push(sep), parts.last(), sep);
        assert(joined(front, sep).push(sep).drop_last() == joined(front, sep));
        assert(front.push(Seq::<char>::empty()).drop_last() == front);
        assert(front.push(Seq::<char>::empty() + parts.last()) == parts);
    }
}

/// A text without the separator is its own single piece.
proof fn lemma_pieces_of_free(s: Seq<char>, sep: char)
    requires
        free_of(s, sep),
    ensures
        pieces(s, sep) == seq![s],
    decreases s.len(),
{
    if s.len() == 0 {
        assert(s == Seq::<char>::empty());
    } else {
        lemma_pieces_of_free(s.drop_last(), sep);
        assert(s.drop_last().push(s.last()) == s);
        assert(seq![s.drop_last()].drop_last().push(s) == seq![s]);
    }
}

/// A tail without the separator only lengthens the last piece.
proof fn lemma_pieces_append_free(s: Seq<char>, tail: Seq<char>, sep: char)
    requires
        free_of(tail, sep),
    ensures
        pieces(s + tail, sep) == pieces(s, sep).drop_last().push(pieces(s, sep).last() + tail),
    decreases tail.len(),
{
    lemma_pieces_len(s, sep);
    let cut = pieces(s, sep);
    if tail.len() == 0 {
        assert(s + tail == s);
        assert(cut.last() + tail == cut.last());
        assert(cut.drop_last().push(cut.last()) == cut);
    } else {
        let shorter = tail.drop_last();
        lemma_pieces_append_free(s, shorter, sep);
        assert((s + tail).drop_last() == s + shorter);
        assert((s + tail).last() == tail.last());
        let before = cut.drop_last().push(cut.last() + shorter);
        assert(before.drop_last() == cut.drop_last());
        assert((cut.last() + shorter).push(tail.last()) == cut.last() + tail);
    }
}

/// The character of one decimal digit.
pub fn digit_char(d: u64) -> (c: char)
    requires
        d < 10,
    ensures
        c == digit(d as int),
{
    if d == 0 {
        '0'
    } else if d == 1 {
        '1'
    } else if d == 2 {
        '2'
    } else if d == 3 {
        '3'
    } else if d == 4 {
        '4'
    } else if d == 5 {
        '5'
    } else if d == 6 {
        '6'
    } else if d == 7 {
        '7'
    } else if d == 8 {
        '8'
    } else {
        '9'
    }
}

/// Writes `n` as a decimal numeral.
pub fn decimal_string(n: u64) -> (r: String)
    ensures
        r@ == decimal(n as nat),
    decreases n,
{
    if n < 10 {
        let mut out = String::new();
        out.push(digit_char(n));
        out
    } else {
        let mut out = decimal_string(n / 10);
        out.push(digit_char(n % 10));
        out
    }
}

/// Cuts `text` at every occurrence of `sep`.
pub fn split(text: &str, sep: char) -> (r: Vec<String>)
    ensures
        r.deep_view() == pieces(text@, sep),
{
    let mut done: Vec<String> = Vec::new();
    let mut current = String::new();
    for c in it: text.chars()
        invariant
            it.seq() == text@,
            pieces(text@.take(it.index()), sep) == done.deep_view().push(current@),
    {
        proof {
            let longer = text@.take(it.index() + 1);
            assert(longer.drop_last() == text@.take(it.index()));
            assert(longer.last() == c);
            assert(done.deep_view().push(current@).drop_last() == done.deep_view());
        }
        if c == sep {
            let ghost before = done.deep_view();
            done.push(current);
            current = String::new();
            assert(done.deep_view() == before.push(done@.last()@));
        } else {
            current.push(c);
        }
    }
    let ghost before = done.deep_view();
    done.push(current);
    proof {
        assert(done.deep_view() == before.push(done@.last()@));
        assert(text@.take(text@.len() as int) == text@);
    }
    done
}

/// Puts the parts together with `sep` between each two neighbours.
pub fn join(parts: &Vec<String>, sep: char) -> (r: String)
    ensures
        r@ == joined(parts.deep_view(), sep),
{
    let mut out = String::new();
    let mut i: usize = 0;
    while i < parts.len()
        invariant
            i <= parts.len(),
            out@ == joined(parts.deep_view().take(i as int), sep),
        decreases parts.len() - i,
    {
        proof {
            let longer = parts.deep_view().take(i + 1);
            assert(longer.drop_last() == parts.deep_view().take(i as int));
            assert(longer.last() == parts[i as int]@);
        }
        if i > 0 {
            out.push(sep);
        }
        out.append(parts[i].as_str());
        i = i + 1;
    }
    proof {
        assert(parts.deep_view().take(parts.len() as int) == parts.deep_view());
    }
    out
}

/// Cuts `text` into its lines.
pub fn split_lines(text: &str) -> (r: Vec<String>)
    ensures
        r.deep_view() == lines(text@),
{
    proof {
        lemma_pieces_len(text@, '\n');
    }
    let cut = split(text, '\n');
    let ended: usize = cut.len() - 1;
    let mut out: Vec<String> = Vec::new();
    let mut i: usize = 0;
    while i < ended
        invariant
            i <= ended,
            ended == cut.len() - 1,
            out.deep_view() == cut.deep_view().drop_last().map_values(
                |line: Seq<char>| without_return(line),
            ).take(i as int),
        decreases ended - i,
    {
        let ghost before = out.deep_view();
        let mut line = cut[i].clone();
        let end = line.pop();
        if end.is_some() && end != Some('\r') {
            line.push(end.unwrap());
        }
        assert(line@ == without_return(cut[i as int]@));
        out.push(line);
        assert(out.deep_view() == before.push(out@.last()@));
        i = i + 1;
    }
    if !cut[ended].as_str().is_empty() {
        let ghost before = out.deep_view();
        out.push(cut[ended].clone());
        assert(out.deep_view() == before.push(out@.last()@));
    }
    out
}

} // verus!
