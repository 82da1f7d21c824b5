//! Draining two pipes at once, whichever is ready first.
//!
//! A process that writes to two pipes blocks as soon as one of them is full.
//! Reading one pipe to its end before the other would then never finish, so
//! both are set to non-blocking mode and polled together: whenever one is
//! ready, all that it holds is read, shown to its filter and kept, and a
//! pipe that reports its end leaves the set that is polled.

use vstd::prelude::*;
use crate::control::pipe::judged;
use crate::control::pipe::judgement;
use crate::control::pipe::kept;
use crate::control::pipe::seen;
use crate::control::pipe::Pipe;
use crate::error::Error;

verus! {

/// Whether a pipe stays open after a read that ended with `end`: a read ends
/// well at the end of the stream, and with the failure `WouldBlock` when
/// the pipe is empty for now. Any other failure is the pipe's.
pub open spec fn still_open(end: Result<(), Error>) -> Result<bool, Error> {
    match end {
        Ok(()) => Ok(false),
        Err(Error::WouldBlock) => Ok(true),
        Err(error) => Err(error),
    }
}

/// The bytes captured from a pipe after a read that added `chunk` and ended
/// with `end`, once the filter has given `verdict` on the chunk. A failed
/// read leaves them as they were, and a read that added nothing is not shown
/// to the filter.
pub open spec fn captured_after(
    captured: Seq<u8>,
    chunk: Seq<u8>,
    end: Result<(), Error>,
    verdict: Result<bool, Error>,
) -> Seq<u8> {
    if still_open(end).is_err() || chunk.len() == 0 {
        captured
    } else {
        judged(captured + chunk, captured.len() as int, verdict)
    }
}

/// What a read that added `chunk` and ended with `end` amounts to, once the
/// filter has given `verdict` on the chunk: the read's failure, else the
/// filter's, else whether the pipe stays open.
pub open spec fn read_result(chunk: Seq<u8>, end: Result<(), Error>, verdict: Result<bool, Error>)
    -> Result<bool, Error> {
    match still_open(end) {
        Err(error) => Err(error),
        Ok(open) => if chunk.len() == 0 {
            Ok(open)
        } else {
            match judgement(verdict) {
                Err(error) => Err(error),
                Ok(()) => Ok(open),
            }
        },
    }
}

/// The bytes that a pipe's filter has been shown after a read that added
/// `chunk` and ended with `end`, if it had been shown `shown` before: the
/// chunk is put before the filter unless the read failed or added nothing.
pub open spec fn shown_after(
    shown: Seq<u8>,
    filtered: bool,
    chunk: Seq<u8>,
    end: Result<(), Error>,
) -> Seq<u8> {
    if still_open(end).is_err() || chunk.len() == 0 {
        shown
    } else {
        seen(shown, filtered, chunk)
    }
}

/// Decides from the way a read ended whether its pipe stays open.
pub fn classify_end(end: Result<(), Error>) -> (open: Result<bool, Error>)
    ensures
        open == still_open(end),
{
    match end {
        Ok(()) => Ok(false),
        Err(Error::WouldBlock) => Ok(true),
        Err(error) => Err(error),
    }
}

/// A non-blocking pipe together with the bytes captured from it so far.
pub struct AsyncPipe {
    inner: Pipe,
    buffer: Vec<u8>,
}

impl AsyncPipe {
    /// The bytes captured so far.
    pub closed spec fn captured(&self) -> Seq<u8> {
        self.buffer@
    }

    /// The pipe that is read, with its filter.
    pub closed spec fn pipe(&self) -> Pipe {
        self.inner
    }

    /// Whether a filter judges what is read from this pipe.
    pub open spec fn filtered(&self) -> bool {
        self.pipe().filtered()
    }

    /// Starts capturing from `pipe` with nothing read yet.
    pub fn new(pipe: Pipe) -> (made: Self)
        ensures
            made.captured() == Seq::<u8>::empty(),
            made.pipe() == pipe,
    {
        AsyncPipe { inner: pipe, buffer: Vec::new() }
    }

    /// Takes in one read of everything the pipe held: `chunk` is what was
    /// read and `end` is how the read ended. Returns whether the pipe stays
    /// open.
    ///
    /// The filter decides freely, so the result is stated for each verdict
    /// it may give; without a filter the bytes are kept.
    pub fn next_result(&mut self, chunk: Vec<u8>, end: Result<(), Error>) -> (open: Result<
        bool,
        Error,
    >)
        ensures
            final(self).filtered() == old(self).filtered(),
            final(self).pipe().shown() == shown_after(
                old(self).pipe().shown(),
                old(self).filtered(),
                chunk@,
                end,
            ),
            exists|verdict: Result<bool, Error>|
                {
                    &&& final(self).captured() == captured_after(
                        old(self).captured(),
                        chunk@,
                        end,
                        verdict,
                    )
                    &&& open == read_result(chunk@, end, verdict)
                },
            !old(self).filtered() ==> {
                &&& final(self).captured() == captured_after(
                    old(self).captured(),
                    chunk@,
                    end,
                    Ok(true),
                )
                &&& open == still_open(end)
            },
    {
        let index = self.buffer.len();
        let mut chunk = chunk;
        let ghost added = chunk@;
        match classify_end(end) {
            Err(error) => {
                assert(captured_after(self.captured(), added, end, Ok(true)) == self.captured());
                assert(read_result(added, end, Ok(true)) == Err::<bool, Error>(error));
                Err(error)
            },
            Ok(open) => {
                if chunk.len() == 0 {
                    assert(captured_after(self.captured(), added, end, Ok(true))
                        == self.captured());
                    assert(read_result(added, end, Ok(true)) == Ok::<bool, Error>(open));
                    return Ok(open);
                }
                self.buffer.append(&mut chunk);
                let ghost grown = self.buffer@;
                assert(grown.skip(index as int) =~= added);
                let done = self.inner.run_filter(&mut self.buffer, index);
                proof {
                    let verdict = choose|verdict: Result<bool, Error>|
                        {
                            &&& self.buffer@ == judged(grown, index as int, verdict)
                            &&& done == judgement(verdict)
                        };
                    assert(self.captured() == captured_after(
                        old(self).captured(),
                        added,
                        end,
                        verdict,
                    ));
                    assert(match done {
                        Err(error) => Err::<bool, Error>(error),
                        Ok(()) => Ok(open),
                    } == read_result(added, end, verdict));
                }
                match done {
                    Err(error) => Err(error),
                    Ok(()) => Ok(open),
                }
            },
        }
    }

    /// Gives up the pipe and hands out what was captured.
    pub fn into_buffer(self) -> (buffer: Vec<u8>)
        ensures
            buffer@ == self.captured(),
    {
        self.buffer
    }
}

/// The state of a two-pipe read: what each pipe has yielded, and the window
/// of pipes that are still polled.
///
/// The pipes that were given are numbered from 0 in the order stdout,
/// stderr. The polled ones are those from `start` on, `length` of them, so
/// that the poll is always handed one unbroken run of descriptors.
pub struct ReaderState {
    /// The bytes captured from each pipe.
    pub captured: Seq<Seq<u8>>,
    /// Whether a filter judges what is read from each pipe.
    pub filtered: Seq<bool>,
    /// The position in the output of the first pipe: 1 if only stderr was
    /// given, else 0.
    pub offset: int,
    /// The first pipe that is still polled.
    pub start: int,
    /// How many pipes are still polled.
    pub length: int,
}

impl ReaderState {
    /// At most two pipes, and the polled window lies among them.
    pub open spec fn wf(self) -> bool {
        &&& self.captured.len() <= 2
        &&& self.filtered.len() == self.captured.len()
        &&& 0 <= self.offset
        &&& self.offset + self.captured.len() <= 2
        &&& 0 <= self.length <= self.captured.len()
        &&& 0 <= self.start
        &&& self.length > 0 ==> self.start + self.length <= self.captured.len()
    }

    /// Whether pipe `index` is still polled.
    pub open spec fn active(self, index: int) -> bool {
        self.start <= index < self.start + self.length
    }

    /// Whether every pipe has reached its end.
    pub open spec fn finished(self) -> bool {
        self.length == 0
    }

    /// The state once pipe `index` was found ready and read: the read added
    /// `chunk` and ended with `end`, and the filter gave `verdict` on the
    /// chunk. Only that pipe's bytes change. A pipe that reached its end
    /// leaves the window, which then starts at the other pipe.
    pub open spec fn after_ready(
        self,
        index: int,
        chunk: Seq<u8>,
        end: Result<(), Error>,
        verdict: Result<bool, Error>,
    ) -> Self {
        let captured = self.captured.update(
            index,
            captured_after(self.captured[index], chunk, end, verdict),
        );
        if read_result(chunk, end, verdict) == Ok::<bool, Error>(false) {
            ReaderState { captured, start: 1 - index, length: self.length - 1, ..self }
        } else {
            ReaderState { captured, ..self }
        }
    }

    /// The two buffers that the read hands out in the end, stdout's first:
    /// a pipe that was not given yields nothing.
    pub open spec fn output(self, position: int) -> Seq<u8> {
        if self.offset <= position < self.offset + self.captured.len() {
            self.captured[position - self.offset]
        } else {
            Seq::empty()
        }
    }
}

/// What a read of a ready pipe reports to the loop that polls: the failure
/// of the read or of the filter, if there was one.
pub open spec fn ready_result(chunk: Seq<u8>, end: Result<(), Error>, verdict: Result<bool, Error>)
    -> Result<(), Error> {
    match read_result(chunk, end, verdict) {
        Ok(_) => Ok(()),
        Err(error) => Err(error),
    }
}

/// Whether a poll that ended with `outcome` found pipes to read: an
/// interrupted poll is repeated, any other failure ends the read.
pub open spec fn poll_found(outcome: Result<(), Error>) -> Result<bool, Error> {
    match outcome {
        Ok(()) => Ok(true),
        Err(Error::Interrupted) => Ok(false),
        Err(error) => Err(error),
    }
}

/// Decides what follows a poll that ended with `outcome`: `Ok(true)` to read
/// the pipes it found ready, `Ok(false)` to poll again.
pub fn check_poll(outcome: Result<(), Error>) -> (found: Result<bool, Error>)
    ensures
        found == poll_found(outcome),
{
    match outcome {
        Ok(()) => Ok(true),
        Err(Error::Interrupted) => Ok(false),
        Err(error) => Err(error),
    }
}

/// Two pipes that are drained together.
pub struct Reader {
    pipes: Vec<AsyncPipe>,
    offset: usize,
    start: usize,
    length: u8,
}

impl View for Reader {
    type V = ReaderState;

    closed spec fn view(&self) -> ReaderState {
        ReaderState {
            captured: Seq::new(self.pipes@.len(), |i: int| self.pipes@[i].captured()),
            filtered: Seq::new(self.pipes@.len(), |i: int| self.pipes@[i].filtered()),
            offset: self.offset as int,
            start: self.start as int,
            length: self.length as int,
        }
    }
}

/// Starts draining the pipes that are given, with nothing read yet and all
/// of them polled.
pub fn read2(stdout: Option<Pipe>, stderr: Option<Pipe>) -> (reader: Reader)
    ensures
        reader@.wf(),
        reader@.captured.len() == (if stdout.is_some() { 1int } else { 0 })
            + (if stderr.is_some() { 1int } else { 0 }),
        forall|i: int| 0 <= i < reader@.captured.len() ==> reader@.captured[i] == Seq::<u8>::empty(),
        reader.pipes() == (match (stdout, stderr) {
            (Some(first), Some(second)) => seq![first, second],
            (Some(only), None) | (None, Some(only)) => seq![only],
            (None, None) => Seq::<Pipe>::empty(),
        }),
        forall|i: int|
            0 <= i < reader@.captured.len() ==> reader@.filtered[i] == reader.pipes()[i].filtered(),
        reader@.offset == (if stdout.is_none() && stderr.is_some() { 1int } else { 0 }),
        reader@.start == 0,
        reader@.length == reader@.captured.len(),
{
    let mut pipes: Vec<AsyncPipe> = Vec::new();
    let mut offset: usize = 0;
    match stdout {
        Some(pipe) => {
            pipes.push(AsyncPipe::new(pipe));
        },
        None => {
            if stderr.is_some() {
                offset = 1;
            }
        },
    }
    match stderr {
        Some(pipe) => {
            pipes.push(AsyncPipe::new(pipe));
        },
        None => {},
    }
    let length: u8 = if pipes.len() == 2 { 2 } else if pipes.len() == 1 { 1 } else { 0 };
    Reader { pipes, offset, start: 0, length }
}

impl Reader {
    #[verifier::type_invariant]
    closed spec fn in_order(&self) -> bool {
        self@.wf()
    }

    /// The pipes that are drained, each with its filter, in the order
    /// stdout, stderr.
    pub closed spec fn pipes(&self) -> Seq<Pipe> {
        Seq::new(self.pipes@.len(), |i: int| self.pipes@[i].pipe())
    }

    /// The state tells of each pipe whether it has a filter.
    pub proof fn lemma_filtered(&self)
        ensures
            self@.filtered.len() == self.pipes().len(),
            self@.captured.len() == self.pipes().len(),
            forall|i: int|
                0 <= i < self.pipes().len() ==> self@.filtered[i] == self.pipes()[i].filtered(),
    {
    }

    /// The first pipe to poll and the number of pipes to poll.
    /// The window always lies among the pipes that were given.
    pub fn wait_set(&self) -> (window: (usize, u8))
        ensures
            window.0 == self@.start,
            window.1 == self@.length,
            self@.wf(),
    {
        proof {
            use_type_invariant(self);
        }
        (self.start, self.length)
    }

    /// Whether every pipe has reached its end, so that nothing is left to
    /// poll.
    pub fn is_finished(&self) -> (finished: bool)
        ensures
            finished == self@.finished(),
    {
        self.length == 0
    }

    /// Whether pipe `index` is still polled.
    pub fn is_active(&self, index: usize) -> (active: bool)
        ensures
            active == self@.active(index as int),
    {
        proof {
            use_type_invariant(self);
        }
        self.start <= index && index - self.start < self.length as usize
    }

    /// Takes in one read of pipe `index`, which a poll found ready: `chunk`
    /// is everything the pipe held and `end` is how the read ended.
    ///
    /// The filter decides freely, so the result is stated for each verdict
    /// it may give.
    pub fn ready(&mut self, index: usize, chunk: Vec<u8>, end: Result<(), Error>) -> (done: Result<
        (),
        Error,
    >)
        requires
            old(self)@.active(index as int),
        ensures
            final(self)@.wf(),
            exists|verdict: Result<bool, Error>|
                {
                    &&& final(self)@ == old(self)@.after_ready(index as int, chunk@, end, verdict)
                    &&& done == ready_result(chunk@, end, verdict)
                },
            !old(self)@.filtered[index as int] ==> {
                &&& final(self)@ == old(self)@.after_ready(index as int, chunk@, end, Ok(true))
                &&& done == ready_result(chunk@, end, Ok(true))
            },
            final(self).pipes().len() == old(self).pipes().len(),
            final(self).pipes()[index as int].shown() == shown_after(
                old(self).pipes()[index as int].shown(),
                old(self)@.filtered[index as int],
                chunk@,
                end,
            ),
            forall|other: int|
                0 <= other < old(self).pipes().len() && other != index ==> final(self).pipes()[other]
                    == old(self).pipes()[other],
    {
        proof {
            use_type_invariant(&*self);
        }
        let ghost before = self@;
        let ghost added = chunk@;
        let open = self.pipes[index].next_result(chunk, end);
        let ghost verdict = choose|verdict: Result<bool, Error>|
            {
                &&& self.pipes@[index as int].captured() == captured_after(
                    before.captured[index as int],
                    added,
                    end,
                    verdict,
                )
                &&& open == read_result(added, end, verdict)
            };
        assert(self@.captured =~= before.captured.update(
            index as int,
            captured_after(before.captured[index as int], added, end, verdict),
        ));
        assert(self@.filtered =~= before.filtered);
        let done = match open {
            Err(error) => Err(error),
            Ok(true) => Ok(()),
            Ok(false) => {
                assert(index ^ 1 == 1 - index) by (bit_vector)
                    requires
                        index == 0 || index == 1,
                ;
                self.length = self.length - 1;
                self.start = index ^ 1;
                Ok(())
            },
        };
        assert(self@ == before.after_ready(index as int, added, end, verdict));
        assert(done == ready_result(added, end, verdict));
        done
    }

    /// Ends the read and hands out what each pipe yielded, stdout's bytes
    /// first.
    pub fn finish(self) -> (buffers: (Vec<u8>, Vec<u8>))
        ensures
            buffers.0@ == self@.output(0),
            buffers.1@ == self@.output(1),
    {
        proof {
            use_type_invariant(&self);
        }
        let mut pipes = self.pipes;
        let second = pipes.pop();
        let first = pipes.pop();
        match (first, second) {
            (Some(stdout), Some(stderr)) => (stdout.into_buffer(), stderr.into_buffer()),
            (None, Some(only)) => {
                if self.offset == 0 {
                    (only.into_buffer(), Vec::new())
                } else {
                    (Vec::new(), only.into_buffer())
                }
            },
            _ => (Vec::new(), Vec::new()),
        }
    }
}

/// The bytes captured from a pipe after the reads that added `chunks`, one
/// after the other, each of which left the pipe open and was judged by the
/// filter as `accepted` says.
pub open spec fn captured_through(chunks: Seq<Seq<u8>>, accepted: Seq<bool>) -> Seq<u8>
    recommends
        chunks.len() == accepted.len(),
    decreases chunks.len(),
{
    if chunks.len() == 0 {
        Seq::empty()
    } else {
        captured_after(
            captured_through(chunks.drop_last(), accepted.drop_last()),
            chunks.last(),
            Err(Error::WouldBlock),
            Ok(accepted.last()),
        )
    }
}

/// What is captured from a pipe is what was read from it without the chunks
/// that its filter rejected: nothing else is missing, nothing is added and
/// the order is kept.
pub proof fn lemma_capture_drops_rejected(chunks: Seq<Seq<u8>>, accepted: Seq<bool>)
    requires
        chunks.len() == accepted.len(),
    ensures
        captured_through(chunks, accepted) == kept(chunks, accepted),
    decreases chunks.len(),
{
    if chunks.len() > 0 {
        lemma_capture_drops_rejected(chunks.drop_last(), accepted.drop_last());
        let before = kept(chunks.drop_last(), accepted.drop_last());
        assert((before + chunks.last()).take(before.len() as int) =~= before);
        assert(before + Seq::<u8>::empty() =~= before);
    }
}

/// A filter that accepts everything loses nothing: what is captured is all
/// that was read, in order.
pub proof fn lemma_capture_complete(chunks: Seq<Seq<u8>>, accepted: Seq<bool>)
    requires
        chunks.len() == accepted.len(),
        forall|i: int| 0 <= i < accepted.len() ==> accepted[i],
    ensures
        captured_through(chunks, accepted) == chunks.flatten(),
    decreases chunks.len(),
{
    lemma_capture_drops_rejected(chunks, accepted);
    lemma_kept_all(chunks, accepted);
}

proof fn lemma_kept_all(chunks: Seq<Seq<u8>>, accepted: Seq<bool>)
    requires
        chunks.len() == accepted.len(),
        forall|i: int| 0 <= i < accepted.len() ==> accepted[i],
    ensures
        kept(chunks, accepted) == chunks.flatten(),
    decreases chunks.len(),
{
    if chunks.len() == 0 {
        assert(chunks.flatten() =~= Seq::<u8>::empty());
    } else {
        lemma_kept_all(chunks.drop_last(), accepted.drop_last());
        assert(chunks =~= chunks.drop_last().push(chunks.last()));
        chunks.drop_last().lemma_flatten_push(chunks.last());
    }
}

/// The two pipes do not depend on each other: whichever of them is read
/// first, each ends up with the same bytes, and the same pipes stay polled.
/// A read of one pipe never takes the other out of the polled window.
pub proof fn lemma_pipes_independent(
    state: ReaderState,
    chunk0: Seq<u8>,
    end0: Result<(), Error>,
    verdict0: Result<bool, Error>,
    chunk1: Seq<u8>,
    end1: Result<(), Error>,
    verdict1: Result<bool, Error>,
)
    requires
        state.wf(),
        state.active(0),
        state.active(1),
    ensures
        state.after_ready(0, chunk0, end0, verdict0).active(1),
        state.after_ready(1, chunk1, end1, verdict1).active(0),
        ({
            let one = state.after_ready(0, chunk0, end0, verdict0).after_ready(
                1,
                chunk1,
                end1,
                verdict1,
            );
            let other = state.after_ready(1, chunk1, end1, verdict1).after_ready(
                0,
                chunk0,
                end0,
                verdict0,
            );
            &&& one.captured == other.captured
            &&& one.length == other.length
            &&& one.length > 0 ==> one.start == other.start
            &&& one.wf()
        }),
{
    let one = state.after_ready(0, chunk0, end0, verdict0).after_ready(1, chunk1, end1, verdict1);
    let other = state.after_ready(1, chunk1, end1, verdict1).after_ready(
        0,
        chunk0,
        end0,
        verdict0,
    );
    assert(one.captured =~= other.captured);
}

/// Reading a polled pipe keeps the state in order, takes no pipe but this
/// one out of the polled window, and takes this one out exactly when it
/// reached its end without a failure.
pub proof fn lemma_window_shrinks(
    state: ReaderState,
    index: int,
    chunk: Seq<u8>,
    end: Result<(), Error>,
    verdict: Result<bool, Error>,
)
    requires
        state.wf(),
        state.active(index),
    ensures
        ({
            let next = state.after_ready(index, chunk, end, verdict);
            &&& next.wf()
            &&& next.captured.len() == state.captured.len()
            &&& forall|other: int|
                0 <= other < state.captured.len() && other != index ==> next.active(other)
                    == state.active(other) && next.captured[other] == state.captured[other]
            &&& next.active(index) == (read_result(chunk, end, verdict) != Ok::<bool, Error>(
                false,
            ))
        }),
{
}

/// The bytes that a pipe's filter has been shown after the reads that
/// added `chunks`, one after the other, each of which left the pipe open.
pub open spec fn shown_through(shown: Seq<u8>, filtered: bool, chunks: Seq<Seq<u8>>) -> Seq<u8>
    decreases chunks.len(),
{
    if chunks.len() == 0 {
        shown
    } else {
        shown_after(
            shown_through(shown, filtered, chunks.drop_last()),
            filtered,
            chunks.last(),
            Err(Error::WouldBlock),
        )
    }
}

/// A filter observes every byte that is read from its pipe, once and in
/// the order read, whatever it says of the chunks: a chunk that it rejects
/// was shown to it all the same, and so is what comes after.
pub proof fn lemma_filter_sees_every_byte(shown: Seq<u8>, chunks: Seq<Seq<u8>>)
    ensures
        shown_through(shown, true, chunks) == shown + chunks.flatten(),
        shown_through(shown, false, chunks) == shown,
    decreases chunks.len(),
{
    if chunks.len() == 0 {
        assert(chunks.flatten() =~= Seq::<u8>::empty());
        assert(shown + Seq::<u8>::empty() =~= shown);
    } else {
        lemma_filter_sees_every_byte(shown, chunks.drop_last());
        assert(chunks =~= chunks.drop_last().push(chunks.last()));
        chunks.drop_last().lemma_flatten_push(chunks.last());
        assert(shown + chunks.drop_last().flatten() + chunks.last() =~= shown + (
        chunks.drop_last().flatten() + chunks.last()));
        assert(shown + chunks.drop_last().flatten() + Seq::<u8>::empty() =~= shown
            + chunks.drop_last().flatten());
    }
}

} // verus!
