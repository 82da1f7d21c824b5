//! Draining two pipes at once with overlapped reads.
//!
//! Each pipe has at most one read in flight, whose completion is signaled
//! through an event; the events of the pipes that are still open are waited
//! for together. A read that the operating system has not completed still
//! writes into the pipe's buffer: a pipe with such a read is given up only
//! after the read was cancelled and seen to end, and if that cannot be
//! made sure, its buffer is never freed.

use vstd::prelude::*;
use crate::control::pipe::judged;
use crate::control::pipe::judgement;
use crate::control::pipe::seen;
use crate::control::pipe::Pipe;
use crate::error::last_os_error;
use crate::error::Error;
use crate::windows::codes::error_broken_pipe;
use crate::windows::codes::error_handle_eof;
use crate::windows::codes::error_io_pending;
use crate::windows::codes::wait_object_0;
use crate::windows::raw_os_error;
use crate::windows::spec_raw_os_error;

verus! {

/// A 32-bit count as a length.
pub fn u32_to_usize(n: u32) -> (length: usize)
    ensures
        length == n,
{
    n as usize
}

/// The most that one read may be asked for when the buffer has room for
/// `spare` bytes: the room, or the largest 32-bit count if that is less.
pub fn max_length(spare: usize) -> (length: u32)
    ensures
        length == (if spare > 0xffff_ffff { 0xffff_ffffu32 } else { spare as u32 }),
{
    if spare > 0xffff_ffff {
        0xffff_ffff
    } else {
        spare as u32
    }
}

/// The number of bytes that a completed read brought, from what asking for
/// its result came to: the end of the stream and a pipe whose other end is
/// closed both count as a read of nothing.
pub open spec fn completed_length(result: Result<u32, Error>) -> Result<usize, Error> {
    match result {
        Ok(length) => Ok(length as usize),
        Err(error) => if spec_raw_os_error(error) == Some(38u32) || spec_raw_os_error(error)
            == Some(109u32) {
            Ok(0)
        } else {
            Err(error)
        },
    }
}

/// What starting a read came to: the number of bytes if it completed at
/// once, nothing if it is in flight, and a read of nothing if the pipe's
/// other end is closed.
pub open spec fn started_length(result: Result<u32, Error>) -> Result<Option<usize>, Error> {
    match result {
        Ok(length) => Ok(Some(length as usize)),
        Err(error) => if spec_raw_os_error(error) == Some(997u32) {
            Ok(None)
        } else if spec_raw_os_error(error) == Some(109u32) {
            Ok(Some(0))
        } else {
            Err(error)
        },
    }
}

/// Decides how many bytes a completed read brought.
pub fn overlapped_result(result: Result<u32, Error>) -> (length: Result<usize, Error>)
    ensures
        length == completed_length(result),
{
    match result {
        Ok(length) => Ok(u32_to_usize(length)),
        Err(error) => {
            let ended = match raw_os_error(error) {
                Some(code) => code == error_handle_eof() || code == error_broken_pipe(),
                None => false,
            };
            if ended {
                Ok(0)
            } else {
                Err(error)
            }
        },
    }
}

/// Decides what starting a read came to.
pub fn read_overlapped(result: Result<u32, Error>) -> (length: Result<Option<usize>, Error>)
    ensures
        length == started_length(result),
{
    match result {
        Ok(length) => Ok(Some(u32_to_usize(length))),
        Err(error) => {
            match raw_os_error(error) {
                Some(code) => {
                    if code == error_io_pending() {
                        Ok(None)
                    } else if code == error_broken_pipe() {
                        Ok(Some(0))
                    } else {
                        Err(error)
                    }
                },
                None => Err(error),
            }
        },
    }
}

/// The bytes captured from a pipe after a read that brought `chunk`, once
/// the filter has given `verdict` on the chunk. A read of nothing is the
/// end of the stream and is not shown to the filter.
pub open spec fn captured_after(captured: Seq<u8>, chunk: Seq<u8>, verdict: Result<bool, Error>)
    -> Seq<u8> {
    if chunk.len() == 0 {
        captured
    } else {
        judged(captured + chunk, captured.len() as int, verdict)
    }
}

/// The bytes that a pipe's filter has been shown after a read that brought
/// `chunk`, if it had been shown `shown` before: a read of nothing is not
/// put before the filter.
pub open spec fn shown_after(shown: Seq<u8>, filtered: bool, chunk: Seq<u8>) -> Seq<u8> {
    if chunk.len() == 0 {
        shown
    } else {
        seen(shown, filtered, chunk)
    }
}

/// Whether the pipe stays open after a read that brought `chunk`, unless
/// the filter failed.
pub open spec fn read_result(chunk: Seq<u8>, verdict: Result<bool, Error>) -> Result<bool, Error> {
    if chunk.len() == 0 {
        Ok(false)
    } else {
        match judgement(verdict) {
            Ok(()) => Ok(true),
            Err(error) => Err(error),
        }
    }
}

/// What to do with the buffer of a pipe that is given up.
#[derive(Clone, Copy, Debug, PartialEq, Eq, Structural)]
pub enum Release {
    /// No read can write into the buffer any more: free it.
    Free,
    /// A read may still be in flight: the buffer must never be freed.
    Leak,
}

/// What to do with the buffer of a pipe that is given up. `cancelled` is
/// what cancelling its read came to and `completed` what waiting for the
/// read to end came to; neither counts unless a read was in flight.
pub open spec fn released(reading: bool, cancelled: Result<(), Error>, completed: Result<
    usize,
    Error,
>) -> Release {
    if reading && (cancelled.is_err() || completed.is_err()) {
        Release::Leak
    } else {
        Release::Free
    }
}

/// A pipe that is read with overlapped reads, together with the bytes
/// captured from it so far.
pub struct AsyncPipe {
    inner: Pipe,
    buffer: Vec<u8>,
    reading: bool,
}

impl AsyncPipe {
    /// The bytes captured so far.
    pub closed spec fn captured(&self) -> Seq<u8> {
        self.buffer@
    }

    /// Whether a read is in flight.
    pub closed spec fn reading(&self) -> bool {
        self.reading
    }

    /// The pipe that is read, with its filter.
    pub closed spec fn pipe(&self) -> Pipe {
        self.inner
    }

    /// Whether a filter judges what is read from this pipe.
    pub open spec fn filtered(&self) -> bool {
        self.pipe().filtered()
    }

    /// Starts capturing from `pipe` with nothing read and no read in
    /// flight.
    pub fn new(pipe: Pipe) -> (made: Self)
        ensures
            made.captured() == Seq::<u8>::empty(),
            !made.reading(),
            made.pipe() == pipe,
    {
        AsyncPipe { inner: pipe, buffer: Vec::new(), reading: false }
    }

    /// Whether a read is in flight, so that its result must be asked for
    /// before another read is started.
    pub fn is_reading(&self) -> (reading: bool)
        ensures
            reading == self.reading(),
    {
        self.reading
    }

    /// Notes that a read was started and has not completed.
    pub fn set_reading(&mut self)
        ensures
            final(self).reading(),
            final(self).captured() == old(self).captured(),
            final(self).pipe() == old(self).pipe(),
    {
        self.reading = true;
    }

    /// Takes in a completed read that brought `chunk`. Returns whether the
    /// pipe stays open; no read is in flight afterwards.
    ///
    /// The filter decides freely, so the result is stated for each verdict
    /// it may give; without a filter the bytes are kept.
    pub fn finish_read(&mut self, chunk: Vec<u8>) -> (open: Result<bool, Error>)
        ensures
            !final(self).reading(),
            final(self).filtered() == old(self).filtered(),
            final(self).pipe().shown() == shown_after(
                old(self).pipe().shown(),
                old(self).filtered(),
                chunk@,
            ),
            exists|verdict: Result<bool, Error>|
                {
                    &&& final(self).captured() == captured_after(
                        old(self).captured(),
                        chunk@,
                        verdict,
                    )
                    &&& open == read_result(chunk@, verdict)
                },
            !old(self).filtered() ==> {
                &&& final(self).captured() == old(self).captured() + chunk@
                &&& open == Ok::<bool, Error>(chunk@.len() != 0)
            },
    {
        let index = self.buffer.len();
        let mut chunk = chunk;
        let ghost added = chunk@;
        let ghost before = self.buffer@;
        self.reading = false;
        if chunk.len() == 0 {
            assert(self.captured() == captured_after(before, added, Ok(true)));
            assert(Ok::<bool, Error>(false) == read_result(added, Ok(true)));
            assert(before + added =~= before);
            return Ok(false);
        }
        self.buffer.append(&mut chunk);
        let ghost grown = self.buffer@;
        assert(grown.skip(index as int) =~= added);
        let done = self.inner.run_filter(&mut self.buffer, index);
        let open = match done {
            Ok(()) => Ok(true),
            Err(error) => Err(error),
        };
        proof {
            let verdict = choose|verdict: Result<bool, Error>|
                {
                    &&& self.buffer@ == judged(grown, index as int, verdict)
                    &&& done == judgement(verdict)
                };
            assert(self.captured() == captured_after(before, added, verdict));
            assert(open == read_result(added, verdict));
        }
        open
    }

    /// Decides what to do with the buffer when the pipe is given up.
    pub fn release(&self, cancelled: Result<(), Error>, completed: Result<usize, Error>) -> (kept:
        Release)
        ensures
            kept == released(self.reading(), cancelled, completed),
    {
        if self.reading && (cancelled.is_err() || completed.is_err()) {
            Release::Leak
        } else {
            Release::Free
        }
    }

    /// Gives up the pipe and hands out what was captured.
    pub fn into_buffer(self) -> (buffer: Vec<u8>)
        ensures
            buffer@ == self.captured(),
    {
        self.buffer
    }
}

/// The next thing to do to a pipe that was found ready.
#[derive(Clone, Copy, Debug, PartialEq, Eq)]
pub enum ReadStep {
    /// A read is in flight: ask for its result.
    AwaitResult,
    /// No read is in flight: start one.
    StartRead,
    /// Nothing is left to do for now: the pipe stays open or not, or has
    /// failed.
    Done(Result<bool, Error>),
}

/// The bytes that a read of `length` bytes left at the start of `buffer`.
pub open spec fn chunk_read(buffer: Seq<u8>, length: usize) -> Seq<u8> {
    if length <= buffer.len() {
        buffer.take(length as int)
    } else {
        buffer
    }
}

/// The next thing to do after a read whose bytes were taken in with the
/// result `open`: another read as long as the pipe stays open.
pub open spec fn step_after(open: Result<bool, Error>) -> ReadStep {
    match open {
        Ok(true) => ReadStep::StartRead,
        _ => ReadStep::Done(open),
    }
}

impl AsyncPipe {
    /// The first thing to do to a pipe that was found ready: the read in
    /// flight, if there is one, comes before any other.
    pub fn begin(&self) -> (step: ReadStep)
        ensures
            step == (if self.reading() {
                ReadStep::AwaitResult
            } else {
                ReadStep::StartRead
            }),
    {
        if self.reading {
            ReadStep::AwaitResult
        } else {
            ReadStep::StartRead
        }
    }

    fn take_in(&mut self, buffer: &[u8], length: usize) -> (step: ReadStep)
        ensures
            !final(self).reading(),
            final(self).filtered() == old(self).filtered(),
            final(self).pipe().shown() == shown_after(
                old(self).pipe().shown(),
                old(self).filtered(),
                chunk_read(buffer@, length),
            ),
            exists|verdict: Result<bool, Error>|
                {
                    &&& final(self).captured() == captured_after(
                        old(self).captured(),
                        chunk_read(buffer@, length),
                        verdict,
                    )
                    &&& step == step_after(read_result(chunk_read(buffer@, length), verdict))
                },
            !old(self).filtered() ==> {
                &&& final(self).captured() == old(self).captured() + chunk_read(buffer@, length)
                &&& step == step_after(Ok(chunk_read(buffer@, length).len() != 0))
            },
    {
        let end = if length <= buffer.len() {
            length
        } else {
            buffer.len()
        };
        let part = vstd::slice::slice_subrange(buffer, 0, end);
        assert(part@ =~= chunk_read(buffer@, length));
        let chunk = vstd::slice::slice_to_vec(part);
        let open = self.finish_read(chunk);
        match open {
            Ok(true) => ReadStep::StartRead,
            _ => ReadStep::Done(open),
        }
    }

    /// Takes in what asking for the result of the read in flight came to:
    /// `result` is the answer and `buffer` holds the bytes that the read
    /// left. A failure is the pipe's failure and changes nothing.
    ///
    /// The filter decides freely, so the result is stated for each verdict
    /// it may give; without a filter the bytes are kept.
    pub fn completed(&mut self, result: Result<u32, Error>, buffer: &[u8]) -> (step: ReadStep)
        ensures
            final(self).filtered() == old(self).filtered(),
            completed_length(result).is_err() ==> {
                &&& step == ReadStep::Done(Err(completed_length(result).unwrap_err()))
                &&& final(self).captured() == old(self).captured()
                &&& final(self).reading() == old(self).reading()
                &&& final(self).pipe() == old(self).pipe()
            },
            completed_length(result).is_ok() ==> {
                let chunk = chunk_read(buffer@, completed_length(result).unwrap());
                &&& !final(self).reading()
                &&& final(self).pipe().shown() == shown_after(
                    old(self).pipe().shown(),
                    old(self).filtered(),
                    chunk,
                )
                &&& exists|verdict: Result<bool, Error>|
                    {
                        &&& final(self).captured() == captured_after(
                            old(self).captured(),
                            chunk,
                            verdict,
                        )
                        &&& step == step_after(read_result(chunk, verdict))
                    }
                &&& !old(self).filtered() ==> {
                    &&& final(self).captured() == old(self).captured() + chunk
                    &&& step == step_after(Ok(chunk.len() != 0))
                }
            },
    {
        match overlapped_result(result) {
            Err(error) => ReadStep::Done(Err(error)),
            Ok(length) => self.take_in(buffer, length),
        }
    }

    /// Takes in what starting a read came to: `result` is the answer and
    /// `buffer` holds the bytes that the read left, if it completed at
    /// once. A read that has not completed is noted as in flight, and the
    /// pipe is left alone until it is found ready again. A failure is the
    /// pipe's failure and changes nothing.
    ///
    /// The filter decides freely, so the result is stated for each verdict
    /// it may give; without a filter the bytes are kept.
    pub fn started(&mut self, result: Result<u32, Error>, buffer: &[u8]) -> (step: ReadStep)
        ensures
            final(self).filtered() == old(self).filtered(),
            started_length(result).is_err() ==> {
                &&& step == ReadStep::Done(Err(started_length(result).unwrap_err()))
                &&& final(self).captured() == old(self).captured()
                &&& final(self).reading() == old(self).reading()
                &&& final(self).pipe() == old(self).pipe()
            },
            started_length(result) == Ok::<Option<usize>, Error>(None) ==> {
                &&& step == ReadStep::Done(Ok(true))
                &&& final(self).captured() == old(self).captured()
                &&& final(self).reading()
                &&& final(self).pipe() == old(self).pipe()
            },
            started_length(result).is_ok() && started_length(result).unwrap().is_some() ==> {
                let chunk = chunk_read(buffer@, started_length(result).unwrap().unwrap());
                &&& !final(self).reading()
                &&& final(self).pipe().shown() == shown_after(
                    old(self).pipe().shown(),
                    old(self).filtered(),
                    chunk,
                )
                &&& exists|verdict: Result<bool, Error>|
                    {
                        &&& final(self).captured() == captured_after(
                            old(self).captured(),
                            chunk,
                            verdict,
                        )
                        &&& step == step_after(read_result(chunk, verdict))
                    }
                &&& !old(self).filtered() ==> {
                    &&& final(self).captured() == old(self).captured() + chunk
                    &&& step == step_after(Ok(chunk.len() != 0))
                }
            },
    {
        match read_overlapped(result) {
            Err(error) => ReadStep::Done(Err(error)),
            Ok(None) => {
                self.set_reading();
                ReadStep::Done(Ok(true))
            },
            Ok(Some(length)) => self.take_in(buffer, length),
        }
    }
}

/// The events that are still waited for: those of the pipes from `start`
/// on, `length` of them, out of at most two.
#[derive(Clone, Copy, Debug, PartialEq, Eq, Structural)]
pub struct WaitSet {
    /// The first pipe whose event is waited for.
    pub start: usize,
    /// How many events are waited for.
    pub length: u32,
}

impl WaitSet {
    /// The window lies among at most two pipes.
    pub open spec fn wf(self) -> bool {
        self.length <= 2 && (self.length > 0 ==> self.start + self.length <= 2)
    }

    /// The pipe whose event a wait that returned `event` found signaled, if
    /// it names one of the events waited for.
    pub open spec fn signaled(self, event: u32) -> Option<usize> {
        if event < self.length {
            Some((event + self.start) as usize)
        } else {
            None
        }
    }

    /// The window once pipe `index` has reached its end: one shorter, and
    /// starting at the other pipe.
    pub open spec fn without(self, index: usize) -> Self {
        WaitSet { start: (1 - index) as usize, length: (self.length - 1) as u32 }
    }

    /// The events of `count` pipes, all waited for.
    pub fn new(count: u32) -> (set: Self)
        requires
            count <= 2,
        ensures
            set == (WaitSet { start: 0, length: count }),
            set.wf(),
    {
        WaitSet { start: 0, length: count }
    }

    /// Finds the pipe that a wait found signaled. A value that names none
    /// of the events waited for is a failure of the wait, which is read
    /// from the operating system.
    pub fn select(&self, event: u32) -> (index: Result<usize, Error>)
        requires
            self.wf(),
        ensures
            index.is_ok() == self.signaled(event).is_some(),
            index.is_ok() ==> Some(index.unwrap()) == self.signaled(event),
            index.is_ok() ==> self.start <= index.unwrap() < self.start + self.length,
    {
        match event.checked_sub(wait_object_0()) {
            Some(offset) => {
                if offset < self.length {
                    Ok(u32_to_usize(offset) + self.start)
                } else {
                    Err(last_os_error())
                }
            },
            None => Err(last_os_error()),
        }
    }

    /// Takes pipe `index`, which has reached its end, out of the window.
    pub fn finished(&mut self, index: usize)
        requires
            old(self).wf(),
            old(self).start <= index < old(self).start + old(self).length,
        ensures
            *final(self) == old(self).without(index),
            final(self).wf(),
            final(self).length > 0 ==> final(self).start != index,
    {
        assert(index ^ 1 == 1 - index) by (bit_vector)
            requires
                index == 0 || index == 1,
        ;
        self.start = index ^ 1;
        self.length = self.length - 1;
    }
}

/// What is handed out for `position` (0 for stdout, 1 for stderr) when the
/// pipes that were given yielded `buffers`, in the order stdout, stderr: a
/// pipe that was not given yields nothing.
pub open spec fn placed(stdout_given: bool, buffers: Seq<Vec<u8>>, position: int) -> Seq<u8> {
    let offset: int = if stdout_given {
        0
    } else {
        1
    };
    if offset <= position < offset + buffers.len() {
        buffers[position - offset]@
    } else {
        Seq::empty()
    }
}

/// Ends the read and hands out what each pipe yielded, stdout's bytes
/// first. `buffers` holds what the pipes that were given yielded, in the
/// order stdout, stderr.
pub fn finish(stdout_given: bool, buffers: Vec<Vec<u8>>) -> (out: (Vec<u8>, Vec<u8>))
    requires
        buffers@.len() <= 2,
        stdout_given || buffers@.len() <= 1,
    ensures
        out.0@ == placed(stdout_given, buffers@, 0),
        out.1@ == placed(stdout_given, buffers@, 1),
{
    let mut buffers = buffers;
    let second = buffers.pop();
    let first = buffers.pop();
    match (first, second) {
        (Some(stdout), Some(stderr)) => (stdout, stderr),
        (None, Some(only)) => {
            if stdout_given {
                (only, Vec::new())
            } else {
                (Vec::new(), only)
            }
        },
        _ => (Vec::new(), Vec::new()),
    }
}

/// A pipe whose read may still be in flight is never freed: its buffer is
/// freed only if no read was in flight, or the read was cancelled and then
/// seen to end.
pub proof fn lemma_freed_only_when_idle(
    reading: bool,
    cancelled: Result<(), Error>,
    completed: Result<usize, Error>,
)
    ensures
        released(reading, cancelled, completed) == Release::Free <==> (!reading || (
        cancelled.is_ok() && completed.is_ok())),
{
}

} // verus!
