//! The capability boundary consumed from collaborators: the non-blocking
//! byte transport driven by the frame state machines, the filter
//! configuration pair, and the command capability.
//!
//! Every trait here is implemented outside this crate, by whatever owns the
//! real channel to the controller; each contract states what the protocol
//! layer relies on of such an implementation. The ghost logs (`read_log`,
//! `write_log`, `flush_count`) model the transport's history: all bytes it
//! has delivered or accepted so far, in order, and how often it has
//! completed a flush.

use vstd::prelude::*;
use crate::error::{PackError, StreamError};
use crate::filter::Filter;
use crate::opcode::Opcode;

verus! {

/// The longest full command wire form: one packet-type byte, two opcode
/// bytes, one length byte and at most 255 parameter bytes.
pub const FULL_COMMAND_MAX_LEN: usize = 259;

/// Outcome of one non-blocking read: not ready yet, some bytes (none at all
/// signals a cleanly ended stream), or a transport failure.
#[derive(Debug)]
pub enum IoRead {
    Pending,
    Data(Vec<u8>),
    Failed,
}

/// Outcome of one non-blocking write: not ready yet, a count of bytes the
/// transport accepted, or a transport failure.
#[derive(Copy, Clone, Debug)]
pub enum IoWrite {
    Pending,
    Accepted(usize),
    Failed,
}

/// Outcome of one non-blocking flush.
#[derive(Copy, Clone, Debug)]
pub enum IoFlush {
    Pending,
    Flushed,
    Failed,
}

/// A non-blocking source of the controller's byte stream.
pub trait HCIReader {
    /// All bytes this transport has delivered so far, in order.
    open spec fn read_log(&self) -> Seq<u8> {
        vstd::pervasive::arbitrary()
    }

    /// How many times this transport has reported a cleanly ended stream
    /// (an empty delivery).
    open spec fn end_count(&self) -> nat {
        vstd::pervasive::arbitrary()
    }

    /// How many times this transport has reported a failure.
    open spec fn failure_count(&self) -> nat {
        vstd::pervasive::arbitrary()
    }

    /// Attempt one read of at most `max` bytes. Delivered bytes are
    /// appended to the read log; an empty delivery delivers nothing and is
    /// one end-of-stream report; a pending attempt reports nothing; a
    /// failed attempt delivers nothing and is one failure report.
    fn poll_read(&mut self, max: usize) -> (r: IoRead)
        ensures
            match r {
                IoRead::Data(v) => {
                    &&& v@.len() <= max
                    &&& final(self).read_log() == old(self).read_log() + v@
                    &&& final(self).end_count() == old(self).end_count() + (
                        if v@.len() == 0 { 1int } else { 0int }
                    )
                    &&& final(self).failure_count() == old(self).failure_count()
                },
                IoRead::Pending => {
                    &&& final(self).read_log() == old(self).read_log()
                    &&& final(self).end_count() == old(self).end_count()
                    &&& final(self).failure_count() == old(self).failure_count()
                },
                IoRead::Failed => {
                    &&& final(self).read_log() == old(self).read_log()
                    &&& final(self).end_count() == old(self).end_count()
                    &&& final(self).failure_count() == old(self).failure_count() + 1
                },
            },
    ;
}

/// A non-blocking sink for bytes bound for the controller, together with
/// the immediate-effect filter configuration pair.
pub trait HCIWriter {
    /// All bytes this transport has accepted so far, in order.
    open spec fn write_log(&self) -> Seq<u8> {
        vstd::pervasive::arbitrary()
    }

    /// How many flushes this transport has completed.
    open spec fn flush_count(&self) -> nat {
        vstd::pervasive::arbitrary()
    }

    /// The filter currently installed on the controller.
    open spec fn spec_filter(&self) -> Filter {
        vstd::pervasive::arbitrary()
    }

    /// How many times this transport has reported a write or flush
    /// failure.
    open spec fn failure_count(&self) -> nat {
        vstd::pervasive::arbitrary()
    }

    /// Attempt one write of a prefix of `buf`. Accepted bytes are appended
    /// to the write log, in order; a pending attempt reports nothing; a
    /// failed attempt accepts nothing and is one failure report; writing
    /// neither flushes nor touches the filter.
    fn poll_write(&mut self, buf: &[u8]) -> (r: IoWrite)
        ensures
            final(self).flush_count() == old(self).flush_count(),
            final(self).spec_filter() == old(self).spec_filter(),
            match r {
                IoWrite::Accepted(n) => {
                    &&& n <= buf@.len()
                    &&& final(self).write_log() == old(self).write_log() + buf@.subrange(
                        0,
                        n as int,
                    )
                    &&& final(self).failure_count() == old(self).failure_count()
                },
                IoWrite::Pending => {
                    &&& final(self).write_log() == old(self).write_log()
                    &&& final(self).failure_count() == old(self).failure_count()
                },
                IoWrite::Failed => {
                    &&& final(self).write_log() == old(self).write_log()
                    &&& final(self).failure_count() == old(self).failure_count() + 1
                },
            },
    ;

    /// Attempt one flush of everything accepted so far; accepts no bytes
    /// and does not touch the filter; a failed attempt is one failure
    /// report.
    fn poll_flush(&mut self) -> (r: IoFlush)
        ensures
            final(self).write_log() == old(self).write_log(),
            final(self).spec_filter() == old(self).spec_filter(),
            match r {
                IoFlush::Flushed => final(self).flush_count() == old(self).flush_count() + 1
                    && final(self).failure_count() == old(self).failure_count(),
                IoFlush::Pending => final(self).flush_count() == old(self).flush_count()
                    && final(self).failure_count() == old(self).failure_count(),
                IoFlush::Failed => final(self).flush_count() == old(self).flush_count()
                    && final(self).failure_count() == old(self).failure_count() + 1,
            },
    ;

    /// Install a filter on the controller: a synchronous, immediate-effect
    /// configuration call. On success the given filter is the one
    /// installed; on failure the previously installed filter remains; no
    /// bytes are written or flushed either way.
    fn set_filter(&mut self, filter: &Filter) -> (r: Result<(), StreamError>)
        ensures
            final(self).write_log() == old(self).write_log(),
            final(self).flush_count() == old(self).flush_count(),
            final(self).failure_count() == old(self).failure_count(),
            r is Ok ==> final(self).spec_filter() == *filter,
            r is Err ==> final(self).spec_filter() == old(self).spec_filter(),
    ;

    /// Read back the filter currently installed on the controller.
    fn get_filter(&self) -> (r: Result<Filter, StreamError>)
        ensures
            r matches Ok(f) ==> f == self.spec_filter(),
    ;
}

/// The filter configuration pair alone, for transports that can configure
/// the controller but are not themselves the byte sink the protocol layer
/// writes through.
pub trait HCIFilterable {
    /// The filter currently installed on the controller.
    open spec fn spec_filter(&self) -> Filter {
        vstd::pervasive::arbitrary()
    }

    /// Install a filter on the controller; on success the given filter is
    /// the one installed, on failure the previously installed filter
    /// remains.
    fn set_filter(&mut self, filter: &Filter) -> (r: Result<(), StreamError>)
        ensures
            r is Ok ==> final(self).spec_filter() == *filter,
            r is Err ==> final(self).spec_filter() == old(self).spec_filter(),
    ;

    /// Read back the filter currently installed on the controller.
    fn get_filter(&self) -> (r: Result<Filter, StreamError>)
        ensures
            r matches Ok(f) ==> f == self.spec_filter(),
    ;
}

/// A command that can state its opcode, its full wire length and pack
/// itself into a caller-provided buffer of exactly that length.
pub trait Command {
    /// The opcode naming this command type.
    open spec fn spec_opcode() -> Opcode {
        vstd::pervasive::arbitrary()
    }

    /// The full wire form of this command value.
    open spec fn encoded(&self) -> Seq<u8> {
        vstd::pervasive::arbitrary()
    }

    /// The opcode naming this command type.
    fn opcode() -> (r: Opcode)
        ensures
            r == Self::spec_opcode(),
    ;

    /// The length of the full wire form; never beyond the protocol's
    /// maximum full command length.
    fn full_len(&self) -> (r: usize)
        ensures
            r == self.encoded().len(),
            r <= FULL_COMMAND_MAX_LEN,
    ;

    /// Pack the full wire form into `buf`, which must already hold exactly
    /// `full_len` bytes; on failure the buffer keeps its length and the
    /// command was not packed.
    fn pack_full(&self, buf: &mut Vec<u8>) -> (r: Result<(), PackError>)
        requires
            old(buf)@.len() == self.encoded().len(),
        ensures
            match r {
                Ok(()) => final(buf)@ == self.encoded(),
                Err(_) => final(buf)@.len() == old(buf)@.len(),
            },
    ;
}

} // verus!
