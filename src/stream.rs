use crate::reactor::Interest;
use vstd::prelude::*;

verus! {

/// How one attempt of a non-blocking read or write on a descriptor ended.
#[derive(Clone, Copy, Debug, PartialEq, Eq, Structural)]
pub enum IoOutcome {
    /// The operation moved this many bytes.
    Done(usize),
    /// The descriptor is not ready; nothing was moved.
    WouldBlock,
    /// A hard I/O error, with the OS error code when there is one.
    Failed(i32),
}

/// What the awaiting computation does after one attempt.
#[derive(Clone, Copy, Debug, PartialEq, Eq, Structural)]
pub enum StreamStep {
    /// The operation is over with this count, partial or not.
    Complete(usize),
    /// Register interest in this direction and suspend; on resumption the
    /// same operation is attempted again.
    Suspend(Interest),
    /// The awaitable fails with this error.
    Fail(i32),
}

/// The step after an attempt of an operation that waits for `dir`.
pub open spec fn step_spec(dir: Interest, outcome: IoOutcome) -> StreamStep {
    match outcome {
        IoOutcome::Done(n) => StreamStep::Complete(n),
        IoOutcome::WouldBlock => StreamStep::Suspend(dir),
        IoOutcome::Failed(code) => StreamStep::Fail(code),
    }
}

/// Decides what follows one attempt of a read (`dir` Readable) or a write
/// (`dir` Writable): a count completes at once, however small; only a
/// would-block suspends, on the operation's own direction.
pub fn stream_step(dir: Interest, outcome: IoOutcome) -> (r: StreamStep)
    ensures
        r == step_spec(dir, outcome),
{
    match outcome {
        IoOutcome::Done(n) => StreamStep::Complete(n),
        IoOutcome::WouldBlock => StreamStep::Suspend(dir),
        IoOutcome::Failed(code) => StreamStep::Fail(code),
    }
}

/// Progress of a read-to-end loop after one chunk.
#[derive(Clone, Copy, Debug, PartialEq, Eq, Structural)]
pub enum ReadProgress {
    /// The chunk was kept; read again.
    More,
    /// A zero-length read: the stream is over, do not read again.
    EndOfStream,
}

/// Accumulates fixed-size chunk reads into a growable buffer until a
/// zero-length read signals the end of the stream.
pub struct PageReader {
    page: Vec<u8>,
    ended: bool,
}

impl PageReader {
    /// The bytes kept so far.
    pub closed spec fn page_view(&self) -> Seq<u8> {
        self.page@
    }

    /// Whether the end of the stream has been seen.
    pub closed spec fn ended_view(&self) -> bool {
        self.ended
    }

    /// A reader that has seen nothing yet.
    pub fn new() -> (r: PageReader)
        ensures
            r.page_view() == Seq::<u8>::empty(),
            !r.ended_view(),
    {
        PageReader { page: Vec::new(), ended: false }
    }

    /// Whether another read is wanted: false once the end was seen.
    pub fn wants_read(&self) -> (r: bool)
        ensures
            r == !self.ended_view(),
    {
        !self.ended
    }

    /// Takes in the bytes that one read returned, `buf[..len]`. A short
    /// chunk is kept like a full one; an empty one ends the stream.
    pub fn accept(&mut self, buf: &[u8], len: usize) -> (r: ReadProgress)
        requires
            !old(self).ended_view(),
            len <= buf@.len(),
        ensures
            r == ReadProgress::EndOfStream <==> len == 0,
            final(self).ended_view() == (len == 0),
            final(self).page_view() == old(self).page_view() + buf@.subrange(0, len as int),
    {
        if len == 0 {
            self.ended = true;
            proof {
                assert(buf@.subrange(0, 0) =~= Seq::<u8>::empty());
                assert(self.page@ =~= self.page@ + Seq::<u8>::empty());
            }
            return ReadProgress::EndOfStream;
        }
        let ghost before = self.page@;
        let mut i: usize = 0;
        while i < len
            invariant
                0 <= i <= len <= buf@.len(),
                self.page@ == before + buf@.subrange(0, i as int),
                !self.ended,
            decreases len - i,
        {
            self.page.push(buf[i]);
            proof {
                assert(buf@.subrange(0, i + 1) =~= buf@.subrange(0, i as int).push(buf@[i as int]));
            }
            i = i + 1;
        }
        ReadProgress::More
    }

    /// The whole page read.
    pub fn into_page(self) -> (r: Vec<u8>)
        ensures
            r@ == self.page_view(),
    {
        self.page
    }
}

} // verus!
