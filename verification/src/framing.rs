//! Record framing: how an undifferentiated byte stream divides into
//! newline-terminated lines and an unterminated remainder.
//!
//! Everything here is mathematics over `Seq<u8>`; the session works against
//! these definitions, and the laws proved below are what makes its behaviour
//! independent of how the transport happens to cut the stream into chunks.

use vstd::prelude::*;

verus! {

/// The record delimiter: a line feed.
pub const NEWLINE: u8 = 0x0A;

/// Whether `b` is whitespace that may pad or separate records: space, tab,
/// line feed, form feed or carriage return.
pub open spec fn is_blank_byte(b: u8) -> bool {
    b == 0x20 || b == 0x09 || b == 0x0A || b == 0x0C || b == 0x0D
}

/// Whether `line` is empty or holds whitespace only.
pub open spec fn is_blank(line: Seq<u8>) -> bool {
    forall|i: int| 0 <= i < line.len() ==> is_blank_byte(#[trigger] line[i])
}

/// Whether `s` holds no delimiter.
pub open spec fn newline_free(s: Seq<u8>) -> bool {
    forall|i: int| 0 <= i < s.len() ==> #[trigger] s[i] != NEWLINE
}

/// Whether no line of `lines` holds a delimiter.
pub open spec fn all_newline_free(lines: Seq<Seq<u8>>) -> bool {
    forall|k: int| 0 <= k < lines.len() ==> newline_free(#[trigger] lines[k])
}

/// The bytes of `s` that follow its last delimiter: the start of a line that
/// has not been terminated yet. All of `s` when it holds no delimiter.
pub open spec fn pending(s: Seq<u8>) -> Seq<u8>
    decreases s.len(),
{
    if s.len() == 0 {
        Seq::empty()
    } else if s.last() == NEWLINE {
        Seq::empty()
    } else {
        pending(s.drop_last()).push(s.last())
    }
}

/// The lines of `s` that a delimiter has terminated, in stream order and
/// without their delimiters.
pub open spec fn complete_lines(s: Seq<u8>) -> Seq<Seq<u8>>
    decreases s.len(),
{
    if s.len() == 0 {
        Seq::empty()
    } else if s.last() == NEWLINE {
        complete_lines(s.drop_last()).push(pending(s.drop_last()))
    } else {
        complete_lines(s.drop_last())
    }
}

/// The stream that consists of `lines`, each followed by a delimiter.
pub open spec fn join(lines: Seq<Seq<u8>>) -> Seq<u8>
    decreases lines.len(),
{
    if lines.len() == 0 {
        Seq::empty()
    } else {
        join(lines.drop_last()) + lines.last().push(NEWLINE)
    }
}

/// The chunks of `chunks` laid end to end.
pub open spec fn concat(chunks: Seq<Seq<u8>>) -> Seq<u8>
    decreases chunks.len(),
{
    if chunks.len() == 0 {
        Seq::empty()
    } else {
        concat(chunks.drop_last()) + chunks.last()
    }
}

/// Whether `line` is empty or holds whitespace only.
pub fn is_blank_line(line: &[u8]) -> (blank: bool)
    ensures
        blank == is_blank(line@),
{
    let mut i: usize = 0;
    while i < line.len()
        invariant
            i <= line.len(),
            forall|k: int| 0 <= k < i ==> is_blank_byte(#[trigger] line@[k]),
        decreases line.len() - i,
    {
        let b = line[i];
        if !(b == 0x20 || b == 0x09 || b == 0x0A || b == 0x0C || b == 0x0D) {
            return false;
        }
        i += 1;
    }
    true
}

/// A stream without a delimiter has no complete line and is pending as a
/// whole.
pub proof fn lemma_no_delimiter(s: Seq<u8>)
    requires
        newline_free(s),
    ensures
        complete_lines(s) == Seq::<Seq<u8>>::empty(),
        pending(s) == s,
    decreases s.len(),
{
    if s.len() > 0 {
        assert(s.last() == s[s.len() - 1]);
        lemma_no_delimiter(s.drop_last());
        assert(s.drop_last().push(s.last()) =~= s);
    }
}

/// Framing loses nothing and invents nothing: the complete lines, each with
/// its delimiter put back, followed by the pending bytes are the stream
/// itself, and neither a line nor the pending bytes hold a delimiter.
pub proof fn lemma_frames_rebuild(s: Seq<u8>)
    ensures
        join(complete_lines(s)) + pending(s) == s,
        all_newline_free(complete_lines(s)),
        newline_free(pending(s)),
    decreases s.len(),
{
    if s.len() == 0 {
        assert(join(complete_lines(s)) + pending(s) =~= s);
    } else {
        let front = s.drop_last();
        lemma_frames_rebuild(front);
        if s.last() == NEWLINE {
            let lines = complete_lines(s);
            assert(lines.drop_last() =~= complete_lines(front));
            assert(lines.last() == pending(front));
            assert(join(lines) + pending(s) =~= (join(complete_lines(front)) + pending(front)).push(
                NEWLINE,
            ));
            assert(front.push(NEWLINE) =~= s);
        } else {
            assert(join(complete_lines(s)) + pending(s) =~= (join(complete_lines(front)) + pending(
                front,
            )).push(s.last()));
            assert(front.push(s.last()) =~= s);
        }
    }
}

/// Framing a stream after `b` has been appended to `a` gives the lines of
/// `a`, then the lines of what `a` left pending followed by `b`; what stays
/// pending is what that second framing leaves pending.
pub proof fn lemma_frames_append(a: Seq<u8>, b: Seq<u8>)
    ensures
        complete_lines(a + b) == complete_lines(a) + complete_lines(pending(a) + b),
        pending(a + b) == pending(pending(a) + b),
    decreases b.len(),
{
    if b.len() == 0 {
        lemma_frames_rebuild(a);
        lemma_no_delimiter(pending(a));
        assert(a + b =~= a);
        assert(pending(a) + b =~= pending(a));
        assert(complete_lines(a) + Seq::<Seq<u8>>::empty() =~= complete_lines(a));
    } else {
        let front = b.drop_last();
        lemma_frames_append(a, front);
        assert((a + b).drop_last() =~= a + front);
        assert((pending(a) + b).drop_last() =~= pending(a) + front);
        assert((a + b).last() == b.last());
        assert((pending(a) + b).last() == b.last());
        if b.last() == NEWLINE {
            assert(complete_lines(a + b) =~= complete_lines(a) + complete_lines(pending(a) + b));
        }
    }
}

/// Framing is the only way to read a stream as delimiter-free lines followed
/// by a delimiter-free remainder: a stream put together from such lines and
/// such a remainder frames back into exactly them.
pub proof fn lemma_frames_unique(lines: Seq<Seq<u8>>, tail: Seq<u8>)
    requires
        all_newline_free(lines),
        newline_free(tail),
    ensures
        complete_lines(join(lines) + tail) == lines,
        pending(join(lines) + tail) == tail,
{
    lemma_frames_append(join(lines), tail);
    lemma_joined_lines(lines);
    assert(Seq::<u8>::empty() + tail =~= tail);
    lemma_no_delimiter(tail);
    assert(lines + Seq::<Seq<u8>>::empty() =~= lines);
}

/// A stream of delimiter-free lines, each terminated, frames into those lines
/// and leaves nothing pending.
pub proof fn lemma_joined_lines(lines: Seq<Seq<u8>>)
    requires
        all_newline_free(lines),
    ensures
        complete_lines(join(lines)) == lines,
        pending(join(lines)) == Seq::<u8>::empty(),
    decreases lines.len(),
{
    if lines.len() > 0 {
        let front = lines.drop_last();
        let line = lines.last();
        assert(all_newline_free(front)) by {
            assert forall|k: int| 0 <= k < front.len() implies newline_free(#[trigger] front[k]) by {
                assert(front[k] == lines[k]);
            }
        }
        lemma_joined_lines(front);
        lemma_frames_append(join(front), line.push(NEWLINE));
        assert(Seq::<u8>::empty() + line.push(NEWLINE) =~= line.push(NEWLINE));
        lemma_terminated_line(line);
        assert(front + seq![line] =~= lines);
    }
}

/// A delimiter-free line followed by its delimiter frames into that one line.
pub proof fn lemma_terminated_line(line: Seq<u8>)
    requires
        newline_free(line),
    ensures
        complete_lines(line.push(NEWLINE)) == seq![line],
        pending(line.push(NEWLINE)) == Seq::<u8>::empty(),
{
    let s = line.push(NEWLINE);
    assert(s.drop_last() =~= line);
    lemma_no_delimiter(line);
    assert(Seq::<Seq<u8>>::empty().push(line) =~= seq![line]);
}

} // verus!
