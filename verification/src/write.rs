//! The outgoing frame state machine: drains one fully-buffered frame to a
//! byte transport across arbitrarily short partial writes, then flushes.

use vstd::prelude::*;
use crate::error::StreamError;
use crate::transport::{HCIWriter, IoFlush, IoWrite};
use vstd::slice::{slice_subrange, slice_to_vec};

verus! {

/// Outcome of driving the frame writer once: still waiting on the
/// transport, delivered and flushed, or failed.
#[derive(Copy, Clone, Debug)]
pub enum PollWrite {
    Pending,
    Complete,
    Failed(StreamError),
}

/// One outgoing frame and a cursor marking how much of it the transport
/// has already accepted. Completion is terminal and one-shot: once every
/// byte is accepted and a flush has succeeded, the writer is spent and not
/// reusable.
#[derive(Debug)]
pub struct ByteWrite {
    data: Vec<u8>,
    pos: usize,
    done: bool,
}

impl ByteWrite {
    /// The frame bytes to deliver.
    pub closed spec fn frame(self) -> Seq<u8> {
        self.data@
    }

    /// How many leading frame bytes the transport has accepted so far.
    pub closed spec fn sent(self) -> int {
        self.pos as int
    }

    /// Whether delivery has completed: every byte accepted and a flush
    /// succeeded. A spent writer is not reusable.
    pub closed spec fn spent(self) -> bool {
        self.done
    }

    /// The cursor never passes the end of the frame, and a spent writer
    /// has delivered its whole frame.
    pub open spec fn wf(self) -> bool {
        &&& 0 <= self.sent() <= self.frame().len()
        &&& self.spent() ==> self.sent() == self.frame().len()
    }

    /// Buffer one fully-formed frame, with nothing sent yet.
    pub fn new(data: &[u8]) -> (r: ByteWrite)
        ensures
            r.frame() == data@,
            r.sent() == 0,
            !r.spent(),
            r.wf(),
    {
        ByteWrite { data: slice_to_vec(data), pos: 0, done: false }
    }

    /// Whether delivery has completed; a spent writer must not be driven
    /// again.
    pub fn is_spent(&self) -> (r: bool)
        ensures
            r == self.spent(),
    {
        self.done
    }

    /// How many frame bytes the transport has not accepted yet.
    pub fn bytes_left(&self) -> (r: usize)
        requires
            self.wf(),
        ensures
            r == self.frame().len() - self.sent(),
    {
        self.data.len() - self.pos
    }

    /// Whether every frame byte has been accepted by the transport.
    pub fn is_done(&self) -> (r: bool)
        requires
            self.wf(),
        ensures
            r == (self.sent() == self.frame().len()),
    {
        self.bytes_left() == 0
    }

    /// The frame bytes the transport has not accepted yet.
    pub fn buf(&self) -> (r: &[u8])
        requires
            self.wf(),
        ensures
            r@ == self.frame().subrange(self.sent(), self.frame().len() as int),
    {
        slice_subrange(self.data.as_slice(), self.pos, self.data.len())
    }

    /// Drive the delivery once: write the remaining unsent bytes, a short
    /// write advancing the cursor by exactly the accepted count, until the
    /// whole frame is accepted; then flush. A zero-length accepted write
    /// and a pending transport both leave the operation to be retried at
    /// the next opportunity; an I/O error is returned exactly on a
    /// transport failure report, and a failure before the frame is fully
    /// accepted never reaches the flush. Whatever the outcome, the bytes
    /// the transport accepted are exactly the frame bytes between the old
    /// and the new cursor, in order. Completion is terminal: it marks the
    /// writer spent, and a spent writer must not be driven again.
    #[verifier::loop_isolation(false)]
    pub fn poll<W: HCIWriter>(&mut self, writer: &mut W) -> (r: PollWrite)
        requires
            old(self).wf(),
            !old(self).spent(),
        ensures
            final(self).wf(),
            final(self).frame() == old(self).frame(),
            old(self).sent() <= final(self).sent(),
            final(writer).write_log() == old(writer).write_log() + old(self).frame().subrange(
                old(self).sent(),
                final(self).sent(),
            ),
            final(writer).spec_filter() == old(writer).spec_filter(),
            match r {
                PollWrite::Complete => final(self).sent() == final(self).frame().len()
                    && final(self).spent()
                    && final(writer).flush_count() == old(writer).flush_count() + 1
                    && final(writer).failure_count() == old(writer).failure_count(),
                PollWrite::Pending => !final(self).spent()
                    && final(writer).flush_count() == old(writer).flush_count()
                    && final(writer).failure_count() == old(writer).failure_count(),
                PollWrite::Failed(e) => e == StreamError::IOError
                    && !final(self).spent()
                    && final(writer).flush_count() == old(writer).flush_count()
                    && final(writer).failure_count() == old(writer).failure_count() + 1,
            },
    {
        if self.done {
            return PollWrite::Complete;
        }
        let ghost log0 = writer.write_log();
        let ghost p0 = self.pos as int;
        let ghost data0 = self.data@;
        while self.pos < self.data.len()
            invariant
                self.pos <= self.data.len(),
                p0 <= self.pos,
                self.data@ == data0,
                self.done == false,
                writer.write_log() == log0 + data0.subrange(p0, self.pos as int),
                writer.spec_filter() == old(writer).spec_filter(),
                writer.flush_count() == old(writer).flush_count(),
                writer.failure_count() == old(writer).failure_count(),
            decreases self.data.len() - self.pos,
        {
            let chunk = slice_subrange(self.data.as_slice(), self.pos, self.data.len());
            match writer.poll_write(chunk) {
                IoWrite::Pending => {
                    return PollWrite::Pending;
                },
                IoWrite::Failed => {
                    return PollWrite::Failed(StreamError::IOError);
                },
                IoWrite::Accepted(n) => {
                    if n == 0 {
                        return PollWrite::Pending;
                    }
                    proof {
                        assert(data0.subrange(p0, self.pos + n as int) =~= data0.subrange(
                            p0,
                            self.pos as int,
                        ) + chunk@.subrange(0, n as int));
                    }
                    self.pos = self.pos + n;
                },
            }
        }
        proof {
            assert(data0.subrange(p0, self.pos as int) == old(self).frame().subrange(
                p0,
                self.pos as int,
            ));
        }
        match writer.poll_flush() {
            IoFlush::Pending => PollWrite::Pending,
            IoFlush::Flushed => {
                self.done = true;
                PollWrite::Complete
            },
            IoFlush::Failed => PollWrite::Failed(StreamError::IOError),
        }
    }
}

} // verus!
