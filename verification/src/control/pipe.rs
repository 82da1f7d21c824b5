//! A pipe's filter, and what its verdict does to the captured bytes.

use vstd::prelude::*;
use crate::error::Error;

verus! {

/// A function that is called for each read from one of a process's pipes.
///
/// It is handed the bytes that the read added and decides whether they stay
/// in the captured output. The number of bytes it sees at a time is whatever
/// the read returned. Bytes that it rejects are dropped from the output but
/// count as read; a failure ends the reading of that pipe and becomes the
/// result of the wait.
pub trait PipeFilter: Send {
    /// Decides whether `chunk` stays in the captured output.
    fn filter(&mut self, chunk: &[u8]) -> (verdict: Result<bool, Error>);
}

/// The captured bytes once a filter has judged the bytes from `index` on:
/// unchanged if it accepted them or failed, cut back to `index` if it
/// rejected them.
pub open spec fn judged(buffer: Seq<u8>, index: int, verdict: Result<bool, Error>) -> Seq<u8> {
    match verdict {
        Ok(false) => if index <= buffer.len() {
            buffer.take(index)
        } else {
            buffer
        },
        _ => buffer,
    }
}

/// What a read reports once a filter has judged its bytes: the filter's
/// failure, if it failed.
pub open spec fn judgement(verdict: Result<bool, Error>) -> Result<(), Error> {
    match verdict {
        Ok(_) => Ok(()),
        Err(error) => Err(error),
    }
}

/// Carries out a filter's verdict on the bytes of `buffer` from `index` on.
pub fn apply_verdict(buffer: &mut Vec<u8>, index: usize, verdict: Result<bool, Error>) -> (done:
    Result<(), Error>)
    ensures
        final(buffer)@ == judged(old(buffer)@, index as int, verdict),
        done == judgement(verdict),
{
    match verdict {
        Ok(true) => Ok(()),
        Ok(false) => {
            buffer.truncate(index);
            Ok(())
        },
        Err(error) => Err(error),
    }
}

/// The bytes that a read added to `buffer`, which held `index` bytes before
/// it: they are what the pipe's filter is shown.
pub fn new_bytes(buffer: &Vec<u8>, index: usize) -> (chunk: &[u8])
    requires
        index <= buffer@.len(),
    ensures
        chunk@ == buffer@.skip(index as int),
{
    let chunk = vstd::slice::slice_subrange(buffer.as_slice(), index, buffer.len());
    assert(chunk@ =~= buffer@.skip(index as int));
    chunk
}

/// The bytes that a pipe's filter has been shown once `chunk` was read, if
/// it had been shown `shown` before: the chunk is put before the filter
/// whatever the filter then says of it. A pipe without a filter shows
/// nothing to anyone.
pub open spec fn seen(shown: Seq<u8>, filtered: bool, chunk: Seq<u8>) -> Seq<u8> {
    if filtered {
        shown + chunk
    } else {
        shown
    }
}

/// The reading end of one of a process's pipes, as far as the decisions go:
/// the filter that judges what is read from it, and a record of all that
/// the filter was shown.
pub struct Pipe {
    filter: Option<Box<dyn PipeFilter>>,
    shown: Ghost<Seq<u8>>,
}

impl Pipe {
    /// The filter that judges what is read from the pipe, if one was
    /// attached.
    pub closed spec fn filter(&self) -> Option<Box<dyn PipeFilter>> {
        self.filter
    }

    /// Whether a filter was attached; without one every byte is kept.
    pub open spec fn filtered(&self) -> bool {
        self.filter().is_some()
    }

    /// All the bytes that the filter was shown so far, in the order in
    /// which it was shown them.
    pub closed spec fn shown(&self) -> Seq<u8> {
        self.shown@
    }

    /// A pipe whose reads are judged by `filter`, or all accepted if there
    /// is none. The filter has been shown nothing yet.
    pub fn new(filter: Option<Box<dyn PipeFilter>>) -> (pipe: Self)
        ensures
            pipe.filter() == filter,
            pipe.shown() == Seq::<u8>::empty(),
    {
        Pipe { filter, shown: Ghost(Seq::empty()) }
    }

    /// Puts `chunk` before the filter and returns its verdict; without a
    /// filter the verdict is to keep the bytes. This is the one place where
    /// a filter is called, and where what it was shown is recorded.
    fn show(&mut self, chunk: &[u8]) -> (verdict: Result<bool, Error>)
        ensures
            final(self).filtered() == old(self).filtered(),
            final(self).shown() == seen(old(self).shown(), old(self).filtered(), chunk@),
            !old(self).filtered() ==> verdict == Ok::<bool, Error>(true),
    {
        let verdict = match &mut self.filter {
            Some(filter) => filter.filter(chunk),
            None => {
                return Ok(true);
            },
        };
        self.shown = Ghost(self.shown@ + chunk@);
        verdict
    }

    /// Shows the filter the bytes of `buffer` from `index` on, which are
    /// those that the last read added, and carries out its verdict.
    ///
    /// The filter decides freely, so the result is stated for each verdict
    /// it may give; without a filter the bytes are kept.
    pub fn run_filter(&mut self, buffer: &mut Vec<u8>, index: usize) -> (done: Result<(), Error>)
        requires
            index < old(buffer)@.len(),
        ensures
            final(self).filtered() == old(self).filtered(),
            final(self).shown() == seen(
                old(self).shown(),
                old(self).filtered(),
                old(buffer)@.skip(index as int),
            ),
            exists|verdict: Result<bool, Error>|
                {
                    &&& final(buffer)@ == judged(old(buffer)@, index as int, verdict)
                    &&& done == judgement(verdict)
                },
            !old(self).filtered() ==> final(buffer)@ == old(buffer)@ && done.is_ok(),
    {
        let verdict = self.show(new_bytes(buffer, index));
        apply_verdict(buffer, index, verdict)
    }
}

/// The bytes of those chunks, in the order read, that the filter accepted.
pub open spec fn kept(chunks: Seq<Seq<u8>>, accepted: Seq<bool>) -> Seq<u8>
    recommends
        chunks.len() == accepted.len(),
    decreases chunks.len(),
{
    if chunks.len() == 0 {
        Seq::empty()
    } else {
        kept(chunks.drop_last(), accepted.drop_last()) + (if accepted.last() {
            chunks.last()
        } else {
            Seq::empty()
        })
    }
}

/// Reading one more chunk adds it to what is kept if the filter accepts it,
/// and adds nothing if not.
pub proof fn lemma_kept_push(
    chunks: Seq<Seq<u8>>,
    accepted: Seq<bool>,
    chunk: Seq<u8>,
    stays: bool,
)
    requires
        chunks.len() == accepted.len(),
    ensures
        kept(chunks.push(chunk), accepted.push(stays)) == kept(chunks, accepted) + (if stays {
            chunk
        } else {
            Seq::empty()
        }),
{
    assert(chunks.push(chunk).drop_last() =~= chunks);
    assert(accepted.push(stays).drop_last() =~= accepted);
}

/// The reads of a stream as sequences of bytes.
pub open spec fn chunks_of(reads: Seq<Vec<u8>>) -> Seq<Seq<u8>> {
    reads.map_values(|read: Vec<u8>| read@)
}

/// Captures a whole stream from the reads that drained it, in their order:
/// each read is added to the output and shown to the pipe's filter, and is
/// taken out again if the filter rejects it. The first failure of the
/// filter ends the capture. A read of nothing is not shown to the filter,
/// so reads that brought nothing cannot fail.
///
/// The filter decides freely, so the output is stated for the verdicts it
/// may give; without a filter the output is all that was read. Whatever it
/// decides, a filter that never fails is shown every byte of the stream
/// once, in order, the rejected ones too.
pub fn read_to_end(pipe: &mut Pipe, reads: &Vec<Vec<u8>>) -> (output: Result<Vec<u8>, Error>)
    ensures
        final(pipe).filtered() == old(pipe).filtered(),
        output.is_ok() ==> exists|accepted: Seq<bool>|
            accepted.len() == reads@.len() && #[trigger] kept(chunks_of(reads@), accepted)
                == output.unwrap()@,
        !old(pipe).filtered() ==> output.is_ok() && output.unwrap()@ == chunks_of(
            reads@,
        ).flatten(),
        (forall|i: int| 0 <= i < reads@.len() ==> reads@[i]@.len() == 0) ==> output.is_ok()
            && output.unwrap()@ == Seq::<u8>::empty(),
        output.is_ok() ==> final(pipe).shown() == seen(
            old(pipe).shown(),
            old(pipe).filtered(),
            chunks_of(reads@).flatten(),
        ),
{
    let mut buffer: Vec<u8> = Vec::new();
    let ghost mut accepted: Seq<bool> = Seq::empty();
    let mut i: usize = 0;
    proof {
        assert(chunks_of(reads@).take(0) =~= Seq::<Seq<u8>>::empty());
        assert(chunks_of(reads@).take(0).flatten() =~= Seq::<u8>::empty());
    }
    while i < reads.len()
        invariant
            i <= reads@.len(),
            accepted.len() == i,
            buffer@ == kept(chunks_of(reads@).take(i as int), accepted),
            pipe.filtered() == old(pipe).filtered(),
            !pipe.filtered() ==> buffer@ == chunks_of(reads@).take(i as int).flatten(),
            (forall|j: int| 0 <= j < i ==> reads@[j]@.len() == 0) ==> buffer@ == Seq::<u8>::empty(),
            pipe.shown() == seen(
                old(pipe).shown(),
                old(pipe).filtered(),
                chunks_of(reads@).take(i as int).flatten(),
            ),
        decreases reads@.len() - i,
    {
        let index = buffer.len();
        let mut chunk = vstd::slice::slice_to_vec(reads[i].as_slice());
        let ghost before = buffer@;
        let ghost added = chunk@;
        let ghost prefix = chunks_of(reads@).take(i as int);
        let ghost longer = chunks_of(reads@).take(i + 1);
        proof {
            assert(added == chunks_of(reads@)[i as int]);
            assert(longer.drop_last() =~= prefix);
            assert(longer.last() == added);
            assert(longer =~= prefix.push(added));
            prefix.lemma_flatten_push(added);
        }
        if chunk.len() == 0 {
            proof {
                lemma_kept_push(prefix, accepted, added, true);
                accepted = accepted.push(true);
                assert(before + added =~= before);
            }
        } else {
            buffer.append(&mut chunk);
            let ghost grown = buffer@;
            match pipe.run_filter(&mut buffer, index) {
                Ok(()) => {
                    proof {
                        let verdict = choose|verdict: Result<bool, Error>|
                            {
                                &&& buffer@ == judged(grown, index as int, verdict)
                                &&& Ok::<(), Error>(()) == judgement(verdict)
                            };
                        let stays = verdict.unwrap();
                        lemma_kept_push(prefix, accepted, added, stays);
                        accepted = accepted.push(stays);
                        assert((before + added).take(before.len() as int) =~= before);
                        assert(before + Seq::<u8>::empty() =~= before);
                    }
                },
                Err(error) => {
                    return Err(error);
                },
            }
        }
        i = i + 1;
    }
    proof {
        assert(chunks_of(reads@).take(i as int) =~= chunks_of(reads@));
    }
    Ok(buffer)
}

} // verus!
