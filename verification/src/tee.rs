//! The tee: the piped stream goes to the console unchanged, one line at a
//! time, and every line is read for telemetry on its way.
//!
//! The scanner is fed the stream in chunks of any size. It hands back the
//! lines that a chunk has completed, for the caller to write, and keeps
//! only the line that has not ended yet. What it hands back does not
//! depend on what the lines hold.

use crate::dispatch::RunPath;
use crate::extract::{
    holds_no_code, lemma_lines_without_codes, lemma_scan_lines_concat, no_findings, scan_line,
    scan_lines, Findings, FindingsModel,
};
use crate::lines::{
    complete_lines, has_no_newline, lemma_split_in_chunks, lemma_split_reassembles,
    lemma_split_shapes, lemma_split_without_newline, remainder, NEWLINE,
};
use vstd::prelude::*;

verus! {

/// The state of a tee between two chunks.
#[derive(Debug)]
pub struct TeeScanner {
    path: RunPath,
    pending: Vec<u8>,
    found: Findings,
}

/// A [`TeeScanner`] as plain values: the path whose stream it reads, the
/// bytes of the line that has not ended yet, and what was read out of the
/// lines before it.
pub struct TeeModel {
    pub path: RunPath,
    pub pending: Seq<u8>,
    pub found: FindingsModel,
}

/// A tee that has seen nothing.
pub open spec fn fresh(path: RunPath) -> TeeModel {
    TeeModel { path, pending: Seq::empty(), found: no_findings() }
}

/// The lines that go to the console when `chunk` arrives.
pub open spec fn lines_out(tee: TeeModel, chunk: Seq<u8>) -> Seq<Seq<u8>> {
    complete_lines(tee.pending + chunk)
}

/// The tee after `chunk` has arrived: the lines that the chunk completed
/// have been read, and the rest waits for its newline.
pub open spec fn fed(tee: TeeModel, chunk: Seq<u8>) -> TeeModel {
    TeeModel {
        path: tee.path,
        pending: remainder(tee.pending + chunk),
        found: scan_lines(tee.path, tee.found, lines_out(tee, chunk)),
    }
}

/// What is known at the end of the stream: a last line without a newline
/// is read like any other, and an empty one is not a line.
pub open spec fn found_at_end(tee: TeeModel) -> FindingsModel {
    if tee.pending.len() > 0 {
        scan_line(tee.path, tee.found, tee.pending)
    } else {
        tee.found
    }
}

/// The tee after each of `chunks` has arrived in turn.
pub open spec fn fed_all(tee: TeeModel, chunks: Seq<Seq<u8>>) -> TeeModel
    decreases chunks.len(),
{
    if chunks.len() == 0 {
        tee
    } else {
        fed(fed_all(tee, chunks.drop_last()), chunks.last())
    }
}

/// The lines that went to the console while `chunks` arrived in turn.
pub open spec fn written(tee: TeeModel, chunks: Seq<Seq<u8>>) -> Seq<Seq<u8>>
    decreases chunks.len(),
{
    if chunks.len() == 0 {
        Seq::empty()
    } else {
        written(tee, chunks.drop_last()) + lines_out(
            fed_all(tee, chunks.drop_last()),
            chunks.last(),
        )
    }
}

/// A tee never holds back more than one unfinished line.
pub open spec fn well_formed(tee: TeeModel) -> bool {
    has_no_newline(tee.pending)
}

/// A chunk leaves a well-formed tee well-formed.
pub proof fn lemma_fed_is_well_formed(tee: TeeModel, chunk: Seq<u8>)
    ensures
        well_formed(fed(tee, chunk)),
{
    lemma_split_shapes(tee.pending + chunk);
}

/// Two chunks in turn leave the tee as their concatenation does, and send
/// the same lines to the console.
pub proof fn lemma_feed_in_chunks(tee: TeeModel, a: Seq<u8>, b: Seq<u8>)
    ensures
        fed(fed(tee, a), b) == fed(tee, a + b),
        lines_out(tee, a) + lines_out(fed(tee, a), b) == lines_out(tee, a + b),
{
    let start = tee.pending + a;
    lemma_split_in_chunks(start, b);
    assert(start + b =~= tee.pending + (a + b));
    lemma_scan_lines_concat(tee.path, tee.found, lines_out(tee, a), lines_out(fed(tee, a), b));
}

/// However the stream is cut into chunks, the tee writes the lines of the
/// stream as a whole and ends as if the stream had arrived in one piece.
pub proof fn lemma_chunking_is_immaterial(tee: TeeModel, chunks: Seq<Seq<u8>>)
    requires
        well_formed(tee),
    ensures
        fed_all(tee, chunks) == fed(tee, chunks.flatten()),
        written(tee, chunks) == lines_out(tee, chunks.flatten()),
    decreases chunks.len(),
{
    if chunks.len() == 0 {
        lemma_split_without_newline(tee.pending);
        assert(tee.pending + chunks.flatten() =~= tee.pending);
    } else {
        let earlier = chunks.drop_last();
        lemma_chunking_is_immaterial(tee, earlier);
        lemma_feed_in_chunks(tee, earlier.flatten(), chunks.last());
        earlier.lemma_flatten_push(chunks.last());
        assert(earlier.push(chunks.last()) =~= chunks);
    }
}

/// The console gets the stream itself, cut after every newline: the lines
/// written while the chunks arrived are the complete lines of everything
/// that arrived, and put end to end, with the line still held back behind
/// them, they are everything that arrived, byte for byte. This holds on
/// every path and whatever the lines contain.
pub proof fn lemma_tee_loses_nothing(tee: TeeModel, chunks: Seq<Seq<u8>>)
    requires
        well_formed(tee),
    ensures
        written(tee, chunks) == complete_lines(tee.pending + chunks.flatten()),
        written(tee, chunks).flatten() + fed_all(tee, chunks).pending == tee.pending
            + chunks.flatten(),
{
    lemma_chunking_is_immaterial(tee, chunks);
    lemma_split_reassembles(tee.pending + chunks.flatten());
}

/// All that is read out of `stream` on `path`, from its first byte to its
/// end.
pub open spec fn found_in_stream(path: RunPath, stream: Seq<u8>) -> FindingsModel {
    found_at_end(fed(fresh(path), stream))
}

/// A stream in which no line holds a diagnostic code leaves, on the normal
/// path, no code behind.
pub proof fn lemma_stream_without_codes(stream: Seq<u8>)
    requires
        forall|k: int|
            0 <= k < complete_lines(stream).len() ==> holds_no_code(
                #[trigger] complete_lines(stream)[k],
            ),
        holds_no_code(remainder(stream)),
    ensures
        found_in_stream(RunPath::NormalRun, stream) == no_findings(),
{
    let tee = fresh(RunPath::NormalRun);
    assert(tee.pending + stream =~= stream);
    lemma_lines_without_codes(no_findings(), complete_lines(stream));
    lemma_lines_without_codes(no_findings(), seq![remainder(stream)]);
    assert(seq![remainder(stream)].drop_last() =~= Seq::<Seq<u8>>::empty());
}

impl View for TeeScanner {
    type V = TeeModel;

    closed spec fn view(&self) -> TeeModel {
        TeeModel { path: self.path, pending: self.pending@, found: self.found@ }
    }
}

impl TeeScanner {
    #[verifier::type_invariant]
    spec fn holds_one_unfinished_line(self) -> bool {
        has_no_newline(self.pending@)
    }

    /// A tee for the piped stream of `path`.
    pub fn new(path: RunPath) -> (tee: TeeScanner)
        ensures
            tee@ == fresh(path),
            well_formed(tee@),
    {
        TeeScanner { path, pending: Vec::new(), found: Findings::new() }
    }

    /// Takes the next chunk of the stream. The lines handed back are to be
    /// written to the console as they are, in order.
    pub fn feed(&mut self, chunk: &[u8]) -> (lines: Vec<Vec<u8>>)
        ensures
            lines.deep_view() == lines_out(old(self)@, chunk@),
            final(self)@ == fed(old(self)@, chunk@),
            well_formed(final(self)@),
    {
        proof {
            use_type_invariant(&*self);
            lemma_split_without_newline(self.pending@);
            assert(self.pending@ + chunk@.take(0) =~= self.pending@);
        }
        let path = self.path;
        let ghost held = self.pending@;
        let ghost known = self.found@;
        let mut pending: Vec<u8> = Vec::new();
        let mut found = Findings::new();
        core::mem::swap(&mut pending, &mut self.pending);
        core::mem::swap(&mut found, &mut self.found);
        let mut lines: Vec<Vec<u8>> = Vec::new();
        assert(lines.deep_view() =~= Seq::<Seq<u8>>::empty());
        let mut i: usize = 0;
        while i < chunk.len()
            invariant
                i <= chunk.len(),
                has_no_newline(pending@),
                pending@ == remainder(held + chunk@.take(i as int)),
                lines.deep_view() == complete_lines(held + chunk@.take(i as int)),
                found@ == scan_lines(path, known, complete_lines(held + chunk@.take(i as int))),
            decreases chunk.len() - i,
        {
            let byte = chunk[i];
            let ghost seen = held + chunk@.take(i as int);
            proof {
                assert(held + chunk@.take(i + 1) =~= seen.push(byte));
                assert(seen.push(byte).drop_last() =~= seen);
                lemma_split_shapes(seen.push(byte));
            }
            if byte == NEWLINE {
                let mut line: Vec<u8> = Vec::new();
                core::mem::swap(&mut line, &mut pending);
                line.push(byte);
                found.offer(path, line.as_slice());
                let ghost earlier = lines.deep_view();
                let ghost ended = line@;
                assert(line.deep_view() =~= ended);
                lines.push(line);
                assert(lines.deep_view() =~= earlier.push(ended));
                assert(complete_lines(seen.push(byte)).drop_last() =~= complete_lines(seen));
            } else {
                pending.push(byte);
            }
            i += 1;
        }
        assert(chunk@.take(chunk.len() as int) =~= chunk@);
        self.pending = pending;
        self.found = found;
        lines
    }

    /// Ends the stream. Hands back the bytes of a last line that had no
    /// newline, to be written like the lines before it, and all that was
    /// read out of the stream.
    pub fn finish(self) -> (end: (Vec<u8>, Findings))
        ensures
            end.0@ == self@.pending,
            end.1@ == found_at_end(self@),
    {
        let TeeScanner { path, pending, found } = self;
        let mut found = found;
        if pending.len() > 0 {
            found.offer(path, pending.as_slice());
        }
        (pending, found)
    }
}

} // verus!
