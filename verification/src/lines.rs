//! Line boundaries in a byte stream.
//!
//! A stream is cut after every newline byte. What precedes the last cut is a
//! sequence of complete lines, each ending in its newline; what follows it is
//! the line still being read. The model is two functions of the bytes seen
//! so far, and the laws below say that they cut a stream in the one way that
//! loses nothing and that does not depend on how the bytes arrived.

use vstd::prelude::*;

verus! {

/// The byte that ends a line.
pub const NEWLINE: u8 = 0x0a;

/// The complete lines of `s`, in order, each with its newline.
pub open spec fn complete_lines(s: Seq<u8>) -> Seq<Seq<u8>>
    decreases s.len(),
{
    if s.len() == 0 {
        Seq::empty()
    } else if s.last() == NEWLINE {
        complete_lines(s.drop_last()).push(remainder(s.drop_last()).push(NEWLINE))
    } else {
        complete_lines(s.drop_last())
    }
}

/// What follows the last newline of `s`: the bytes of a line that has not
/// ended yet. Empty when `s` is empty or ends in a newline.
pub open spec fn remainder(s: Seq<u8>) -> Seq<u8>
    decreases s.len(),
{
    if s.len() == 0 {
        Seq::empty()
    } else if s.last() == NEWLINE {
        Seq::empty()
    } else {
        remainder(s.drop_last()).push(s.last())
    }
}

/// `s` holds no newline.
pub open spec fn has_no_newline(s: Seq<u8>) -> bool {
    forall|i: int| 0 <= i < s.len() ==> s[i] != NEWLINE
}

/// `l` is one complete line: its last byte is a newline and no other byte is.
pub open spec fn is_line(l: Seq<u8>) -> bool {
    &&& l.len() > 0
    &&& l.last() == NEWLINE
    &&& has_no_newline(l.drop_last())
}

/// Every member of `lines` is one complete line.
pub open spec fn all_lines(lines: Seq<Seq<u8>>) -> bool {
    forall|i: int| 0 <= i < lines.len() ==> is_line(#[trigger] lines[i])
}

/// The unfinished line holds no newline, and every complete line holds
/// exactly one, at its end.
pub proof fn lemma_split_shapes(s: Seq<u8>)
    ensures
        has_no_newline(remainder(s)),
        all_lines(complete_lines(s)),
    decreases s.len(),
{
    if s.len() > 0 {
        let front = s.drop_last();
        lemma_split_shapes(front);
        if s.last() == NEWLINE {
            let line = remainder(front).push(NEWLINE);
            assert(line.drop_last() =~= remainder(front));
            assert(is_line(line));
        }
    }
}

/// Nothing is lost and nothing is added: the complete lines, one after the
/// other, followed by the unfinished line, are the stream itself.
pub proof fn lemma_split_reassembles(s: Seq<u8>)
    ensures
        complete_lines(s).flatten() + remainder(s) == s,
    decreases s.len(),
{
    if s.len() == 0 {
        assert(complete_lines(s).flatten() + remainder(s) =~= s);
    } else {
        let front = s.drop_last();
        lemma_split_reassembles(front);
        assert(front.push(s.last()) =~= s);
        if s.last() == NEWLINE {
            let line = remainder(front).push(NEWLINE);
            complete_lines(front).lemma_flatten_push(line);
            assert(complete_lines(s).flatten() + remainder(s) =~= (complete_lines(front).flatten()
                + remainder(front)).push(NEWLINE));
        } else {
            assert(complete_lines(s).flatten() + remainder(s) =~= (complete_lines(front).flatten()
                + remainder(front)).push(s.last()));
        }
    }
}

/// A stretch of bytes without a newline completes no line and is its own
/// remainder.
pub proof fn lemma_split_without_newline(s: Seq<u8>)
    requires
        has_no_newline(s),
    ensures
        complete_lines(s) == Seq::<Seq<u8>>::empty(),
        remainder(s) == s,
    decreases s.len(),
{
    if s.len() > 0 {
        lemma_split_without_newline(s.drop_last());
        assert(s.drop_last().push(s.last()) =~= s);
    } else {
        assert(remainder(s) =~= s);
    }
}

/// The cut does not depend on how the stream arrives: splitting `a` and
/// then, with what `a` left unfinished put in front, splitting `b`, gives
/// the lines and the remainder of `a + b`.
pub proof fn lemma_split_in_chunks(a: Seq<u8>, b: Seq<u8>)
    ensures
        complete_lines(a + b) == complete_lines(a) + complete_lines(remainder(a) + b),
        remainder(a + b) == remainder(remainder(a) + b),
    decreases b.len(),
{
    let carried = remainder(a) + b;
    if b.len() == 0 {
        lemma_split_shapes(a);
        lemma_split_without_newline(remainder(a));
        assert(a + b =~= a);
        assert(carried =~= remainder(a));
        assert(complete_lines(a) + Seq::<Seq<u8>>::empty() =~= complete_lines(a));
    } else {
        let front = b.drop_last();
        lemma_split_in_chunks(a, front);
        assert((a + b).drop_last() =~= a + front);
        assert(carried.drop_last() =~= remainder(a) + front);
        assert((a + b).last() == b.last());
        assert(carried.last() == b.last());
        assert(complete_lines(a + b) =~= complete_lines(a) + complete_lines(carried));
    }
}

/// One complete line followed by bytes without a newline splits into that
/// line and those bytes.
pub proof fn lemma_split_one_line(line: Seq<u8>, rest: Seq<u8>)
    requires
        is_line(line),
        has_no_newline(rest),
    ensures
        complete_lines(line + rest) == seq![line],
        remainder(line + rest) == rest,
{
    let body = line.drop_last();
    lemma_split_without_newline(body);
    lemma_split_without_newline(rest);
    assert(body.push(NEWLINE) =~= line);
    assert(complete_lines(line) =~= seq![line]);
    assert(remainder(line) =~= Seq::<u8>::empty());
    lemma_split_in_chunks(line, rest);
    assert(remainder(line) + rest =~= rest);
    assert(seq![line] + Seq::<Seq<u8>>::empty() =~= seq![line]);
}

/// The cut is the only one: whenever a stream is some complete lines
/// followed by bytes without a newline, those are its complete lines and
/// its remainder.
pub proof fn lemma_split_is_unique(lines: Seq<Seq<u8>>, rest: Seq<u8>)
    requires
        all_lines(lines),
        has_no_newline(rest),
    ensures
        complete_lines(lines.flatten() + rest) == lines,
        remainder(lines.flatten() + rest) == rest,
    decreases lines.len(),
{
    if lines.len() == 0 {
        lemma_split_without_newline(rest);
        assert(lines.flatten() + rest =~= rest);
        assert(lines =~= Seq::<Seq<u8>>::empty());
    } else {
        let earlier = lines.drop_last();
        let line = lines.last();
        assert(all_lines(earlier));
        assert(is_line(line));
        lemma_split_is_unique(earlier, Seq::empty());
        assert(earlier.flatten() + Seq::<u8>::empty() =~= earlier.flatten());
        assert(earlier.push(line) =~= lines);
        earlier.lemma_flatten_push(line);
        assert(lines.flatten() + rest =~= earlier.flatten() + (line + rest));
        lemma_split_in_chunks(earlier.flatten(), line + rest);
        assert(remainder(earlier.flatten()) + (line + rest) =~= line + rest);
        lemma_split_one_line(line, rest);
        assert(earlier + seq![line] =~= lines);
    }
}

} // verus!
