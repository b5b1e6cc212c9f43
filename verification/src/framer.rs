//! Turns an arbitrarily chunked byte stream into complete lines.
//!
//! A line is a maximal run of bytes between terminator bytes. Chunk
//! boundaries carry no meaning: a chunk may split a line, or even a
//! multi-byte character, anywhere. The framer buffers the partial tail
//! after the last terminator and carries it into the next chunk.

use vstd::prelude::*;

verus! {

/// The line terminator byte (`\n`).
pub const TERMINATOR: u8 = 10;

/// The lines completed, and the tail left over, when `input` is consumed
/// byte by byte on top of a pending tail `tail`: every terminator closes
/// the line gathered so far (terminator dropped), every other byte joins
/// the pending tail.
pub open spec fn framed(tail: Seq<u8>, input: Seq<u8>) -> (Seq<Seq<u8>>, Seq<u8>)
    decreases input.len(),
{
    if input.len() == 0 {
        (Seq::<Seq<u8>>::empty(), tail)
    } else if input[0] == TERMINATOR {
        let rest = framed(Seq::<u8>::empty(), input.skip(1));
        (seq![tail] + rest.0, rest.1)
    } else {
        framed(tail.push(input[0]), input.skip(1))
    }
}

/// How many terminator bytes `input` holds.
pub open spec fn terminator_count(input: Seq<u8>) -> nat
    decreases input.len(),
{
    if input.len() == 0 {
        0
    } else if input[0] == TERMINATOR {
        1 + terminator_count(input.skip(1))
    } else {
        terminator_count(input.skip(1))
    }
}

/// `input` holds no terminator byte.
pub open spec fn terminator_free(input: Seq<u8>) -> bool {
    forall|i: int| 0 <= i < input.len() ==> input[i] != TERMINATOR
}

/// The byte sequences carried by a vector of byte vectors.
pub open spec fn byte_views(lines: Seq<Vec<u8>>) -> Seq<Seq<u8>> {
    lines.map_values(|line: Vec<u8>| line@)
}

/// Re-inserts a terminator after each line and appends the tail: the
/// inverse of framing.
pub open spec fn rejoin(lines: Seq<Seq<u8>>, tail: Seq<u8>) -> Seq<u8>
    decreases lines.len(),
{
    if lines.len() == 0 {
        tail
    } else {
        lines[0] + seq![TERMINATOR] + rejoin(lines.skip(1), tail)
    }
}

/// Framing distributes over concatenation of the input: the lines of
/// `a + b` are the lines of `a` followed by the lines of `b` framed on
/// top of the tail that `a` left behind.
pub proof fn lemma_framed_append(tail: Seq<u8>, a: Seq<u8>, b: Seq<u8>)
    ensures
        framed(tail, a + b).0 == framed(tail, a).0 + framed(framed(tail, a).1, b).0,
        framed(tail, a + b).1 == framed(framed(tail, a).1, b).1,
    decreases a.len(),
{
    if a.len() == 0 {
        assert(a + b =~= b);
        assert(framed(tail, a).0 + framed(tail, b).0 =~= framed(tail, b).0);
    } else if a[0] == TERMINATOR {
        lemma_framed_append(Seq::<u8>::empty(), a.skip(1), b);
        assert((a + b).skip(1) =~= a.skip(1) + b);
        assert(seq![tail] + (framed(Seq::<u8>::empty(), a.skip(1)).0
            + framed(framed(Seq::<u8>::empty(), a.skip(1)).1, b).0)
            =~= (seq![tail] + framed(Seq::<u8>::empty(), a.skip(1)).0)
                + framed(framed(Seq::<u8>::empty(), a.skip(1)).1, b).0);
    } else {
        lemma_framed_append(tail.push(a[0]), a.skip(1), b);
        assert((a + b).skip(1) =~= a.skip(1) + b);
        assert((a + b)[0] == a[0]);
    }
}

/// The framer emits exactly one line per terminator byte, however the
/// pending tail stood when the bytes arrived.
pub proof fn lemma_line_count(tail: Seq<u8>, input: Seq<u8>)
    ensures
        framed(tail, input).0.len() == terminator_count(input),
    decreases input.len(),
{
    if input.len() == 0 {
    } else if input[0] == TERMINATOR {
        lemma_line_count(Seq::<u8>::empty(), input.skip(1));
    } else {
        lemma_line_count(tail.push(input[0]), input.skip(1));
    }
}

/// Round trip: putting a terminator back after every emitted line and
/// appending the leftover tail reproduces the pending tail followed by
/// the input bytes, exactly.
pub proof fn lemma_round_trip(tail: Seq<u8>, input: Seq<u8>)
    ensures
        rejoin(framed(tail, input).0, framed(tail, input).1) == tail + input,
    decreases input.len(),
{
    if input.len() == 0 {
        assert(tail + input =~= tail);
    } else if input[0] == TERMINATOR {
        lemma_round_trip(Seq::<u8>::empty(), input.skip(1));
        let rest = framed(Seq::<u8>::empty(), input.skip(1));
        assert((seq![tail] + rest.0).skip(1) =~= rest.0);
        assert((seq![tail] + rest.0)[0] == tail);
        assert(Seq::<u8>::empty() + input.skip(1) =~= input.skip(1));
        assert(tail + seq![TERMINATOR] + input.skip(1) =~= tail + input);
    } else {
        lemma_round_trip(tail.push(input[0]), input.skip(1));
        assert(tail.push(input[0]) + input.skip(1) =~= tail + input);
    }
}

/// Every emitted line, and the leftover tail, is free of terminator
/// bytes, provided the pending tail was.
pub proof fn lemma_lines_terminator_free(tail: Seq<u8>, input: Seq<u8>)
    requires
        terminator_free(tail),
    ensures
        forall|j: int|
            0 <= j < framed(tail, input).0.len() ==> terminator_free(
                #[trigger] framed(tail, input).0[j],
            ),
        terminator_free(framed(tail, input).1),
    decreases input.len(),
{
    if input.len() == 0 {
    } else if input[0] == TERMINATOR {
        lemma_lines_terminator_free(Seq::<u8>::empty(), input.skip(1));
        let rest = framed(Seq::<u8>::empty(), input.skip(1));
        assert(forall|j: int|
            0 <= j < rest.0.len() ==> (seq![tail] + rest.0)[j + 1] == #[trigger] rest.0[j]);
    } else {
        assert(terminator_free(tail.push(input[0])));
        lemma_lines_terminator_free(tail.push(input[0]), input.skip(1));
    }
}

/// The lines completed, and the tail left over, after a whole sequence of
/// chunks has been fed in order.
pub open spec fn framed_chunks(tail: Seq<u8>, chunks: Seq<Seq<u8>>) -> (Seq<Seq<u8>>, Seq<u8>)
    decreases chunks.len(),
{
    if chunks.len() == 0 {
        (Seq::<Seq<u8>>::empty(), tail)
    } else {
        let first = framed(tail, chunks[0]);
        let rest = framed_chunks(first.1, chunks.skip(1));
        (first.0 + rest.0, rest.1)
    }
}

/// Chunk boundaries are irrelevant: feeding a stream of chunks one by one
/// — as one big chunk, byte by byte, or any split in between — yields
/// exactly the lines and tail of the concatenated bytes.
pub proof fn lemma_chunking_irrelevant(tail: Seq<u8>, chunks: Seq<Seq<u8>>)
    ensures
        framed_chunks(tail, chunks) == framed(tail, chunks.flatten()),
    decreases chunks.len(),
{
    if chunks.len() == 0 {
        assert(chunks.flatten() =~= Seq::<u8>::empty());
        assert(framed_chunks(tail, chunks).0 =~= framed(tail, chunks.flatten()).0);
    } else {
        let first = framed(tail, chunks[0]);
        lemma_chunking_irrelevant(first.1, chunks.skip(1));
        assert(chunks.drop_first() =~= chunks.skip(1));
        assert(chunks.flatten() =~= chunks[0] + chunks.skip(1).flatten());
        lemma_framed_append(tail, chunks[0], chunks.skip(1).flatten());
    }
}

/// However a byte stream is cut into chunks, the framer emits exactly
/// one line per terminator byte of the concatenated stream; the final
/// leftover line of `finish` — emitted only when the remainder after the
/// last terminator is non-empty — comes on top of these.
pub proof fn lemma_emitted_line_count(chunks: Seq<Seq<u8>>)
    ensures
        framed_chunks(Seq::<u8>::empty(), chunks).0.len() == terminator_count(chunks.flatten()),
{
    lemma_chunking_irrelevant(Seq::<u8>::empty(), chunks);
    lemma_line_count(Seq::<u8>::empty(), chunks.flatten());
}

/// Buffers the partial tail of a chunked byte stream and hands out each
/// line as soon as its terminator has arrived. Consuming is destructive:
/// a new source needs a new framer.
pub struct LineFramer {
    tail: Vec<u8>,
}

impl LineFramer {
    /// The bytes received after the last terminator, waiting for the rest
    /// of their line.
    pub closed spec fn pending(&self) -> Seq<u8> {
        self.tail@
    }

    pub fn new() -> (framer: LineFramer)
        ensures
            framer.pending() == Seq::<u8>::empty(),
    {
        LineFramer { tail: Vec::new() }
    }

    /// Feeds one chunk. Every line completed by these bytes is returned,
    /// in order, terminators stripped; the remainder joins the pending
    /// tail. An empty chunk is a no-op; a chunk with several terminators
    /// yields several lines; consecutive terminators yield empty lines.
    pub fn push_chunk(&mut self, chunk: &[u8]) -> (lines: Vec<Vec<u8>>)
        ensures
            byte_views(lines@) == framed(old(self).pending(), chunk@).0,
            final(self).pending() == framed(old(self).pending(), chunk@).1,
    {
        let ghost whole = framed(self.tail@, chunk@);
        let mut lines: Vec<Vec<u8>> = Vec::new();
        let mut i: usize = 0;
        proof {
            assert(chunk@.skip(0) =~= chunk@);
            assert(byte_views(lines@) + framed(self.tail@, chunk@).0 =~= framed(
                self.tail@,
                chunk@,
            ).0);
        }
        while i < chunk.len()
            invariant
                i <= chunk.len(),
                byte_views(lines@) + framed(self.tail@, chunk@.skip(i as int)).0 == whole.0,
                framed(self.tail@, chunk@.skip(i as int)).1 == whole.1,
            decreases chunk.len() - i,
        {
            proof {
                assert(chunk@.skip(i as int).skip(1) =~= chunk@.skip(i as int + 1));
                assert(chunk@.skip(i as int)[0] == chunk@[i as int]);
            }
            let byte = chunk[i];
            if byte == TERMINATOR {
                let mut line: Vec<u8> = Vec::new();
                core::mem::swap(&mut line, &mut self.tail);
                let ghost lines_before = byte_views(lines@);
                lines.push(line);
                proof {
                    assert(byte_views(lines@) =~= lines_before.push(line@));
                    assert(lines_before.push(line@) + framed(
                        Seq::<u8>::empty(),
                        chunk@.skip(i as int + 1),
                    ).0 =~= lines_before + (seq![line@] + framed(
                        Seq::<u8>::empty(),
                        chunk@.skip(i as int + 1),
                    ).0));
                }
            } else {
                self.tail.push(byte);
            }
            i = i + 1;
        }
        proof {
            assert(chunk@.skip(chunk@.len() as int) =~= Seq::<u8>::empty());
            assert(byte_views(lines@) + Seq::<Seq<u8>>::empty() =~= byte_views(lines@));
        }
        lines
    }

    /// Ends the stream: a non-empty pending tail is emitted once as the
    /// final, terminator-less line; an empty one yields nothing. The
    /// framer is left empty either way.
    pub fn finish(&mut self) -> (last: Option<Vec<u8>>)
        ensures
            final(self).pending() == Seq::<u8>::empty(),
            old(self).pending().len() == 0 ==> last is None,
            old(self).pending().len() > 0 ==> (last matches Some(line) && line@ == old(
                self,
            ).pending()),
    {
        if self.tail.len() == 0 {
            None
        } else {
            let mut line: Vec<u8> = Vec::new();
            core::mem::swap(&mut line, &mut self.tail);
            Some(line)
        }
    }
}

} // verus!
