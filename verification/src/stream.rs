//! The incoming frame state machine: assembles successive length-prefixed
//! frames from a byte transport with no frame boundaries of its own, and
//! the send path that installs a correlation filter before handing a
//! packed command to the frame writer.

use vstd::prelude::*;
use crate::codes::{spec_event_code_valid, EventCode, PacketType};
use crate::error::StreamError;
use crate::event::EventPacket;
use crate::filter::Filter;
use crate::transport::{Command, HCIReader, HCIWriter, IoRead};
use crate::write::ByteWrite;

verus! {

/// Outcome of driving the frame reader once: still waiting on the
/// transport, a cleanly ended stream with no further frames, one complete
/// frame, or a failure.
#[derive(Debug)]
pub enum PollNext {
    Pending,
    Closed,
    Frame(EventPacket),
    Failed(StreamError),
}

/// A byte string that is the beginning of a frame but not yet a whole one:
/// once the two header bytes are present the event code is recognized and
/// the bytes so far fall short of the announced frame length.
pub open spec fn frame_in_progress(s: Seq<u8>) -> bool {
    s.len() >= 2 ==> (spec_event_code_valid(s[0]) && s.len() < 2 + s[1])
}

/// What driving the frame reader once guarantees, relating the reader
/// state and the transport before (`pre`, `pre_reader`) and after
/// (`post`, `post_reader`) the call to the outcome `r`.
///
/// The bytes the transport delivered during the call (`delta`) are
/// consumed in order into the frame being assembled, with nothing lost or
/// duplicated, however the deliveries were chunked. A frame is produced
/// exactly when the assembled bytes reach the length announced in the
/// second header byte; its event code is the recognized first header byte
/// and its payload is everything after the two header bytes. A bad event
/// code is reported exactly when the two header bytes are present and the
/// first is unrecognized, and the reader is then left on the offending
/// header. Each remaining outcome is tied to its transport cause: the call
/// yields no further frames exactly on an end-of-stream report, an I/O
/// error exactly on a failure report, and pending with neither; a cleanly
/// ended stream and a transport failure abandon the partial frame where it
/// stands.
pub open spec fn poll_outcome<R: HCIReader>(
    pre: ByteStream,
    post: ByteStream,
    pre_reader: R,
    post_reader: R,
    r: PollNext,
) -> bool {
    let pre_log = pre_reader.read_log();
    let post_log = post_reader.read_log();
    let delta = post_log.skip(pre_log.len() as int);
    let grown = pre.assembled() + delta;
    &&& post.wf()
    &&& pre_log.is_prefix_of(post_log)
    &&& post_log == pre_log + delta
    &&& match r {
        PollNext::Pending => {
            &&& post.assembled() == grown
            &&& frame_in_progress(grown)
            &&& post_reader.end_count() == pre_reader.end_count()
            &&& post_reader.failure_count() == pre_reader.failure_count()
        },
        PollNext::Closed => {
            &&& post.assembled() == grown
            &&& frame_in_progress(grown)
            &&& post_reader.end_count() == pre_reader.end_count() + 1
            &&& post_reader.failure_count() == pre_reader.failure_count()
        },
        PollNext::Failed(e) => {
            &&& post.assembled() == grown
            &&& post_reader.end_count() == pre_reader.end_count()
            &&& (e == StreamError::IOError || e == StreamError::BadOpcode)
            &&& (e == StreamError::BadOpcode ==> grown.len() == 2 && !spec_event_code_valid(
                grown[0],
            ) && post_reader.failure_count() == pre_reader.failure_count())
            &&& (e == StreamError::IOError ==> frame_in_progress(grown)
                && post_reader.failure_count() == pre_reader.failure_count() + 1)
        },
        PollNext::Frame(pkt) => {
            &&& grown.len() >= 2
            &&& spec_event_code_valid(grown[0])
            &&& grown.len() == 2 + grown[1]
            &&& pkt.spec_code().spec_code() == grown[0]
            &&& pkt.spec_parameters() == grown.skip(2)
            &&& post.assembled() == Seq::<u8>::empty()
            &&& post_reader.end_count() == pre_reader.end_count()
            &&& post_reader.failure_count() == pre_reader.failure_count()
        },
    }
}

proof fn lemma_concat_parts(a: Seq<u8>, b: Seq<u8>)
    ensures
        (a + b).skip(a.len() as int) == b,
        a.is_prefix_of(a + b),
        (a + b) == a + (a + b).skip(a.len() as int),
{
    assert((a + b).skip(a.len() as int) =~= b);
    assert(a =~= (a + b).subrange(0, a.len() as int));
}

/// The incoming frame state machine. `pos` counts the bytes of the
/// current frame consumed so far: the first two are the header (event-code
/// candidate, then payload length), the rest fill a payload buffer
/// allocated once the header is complete.
#[derive(Debug)]
pub struct ByteStream {
    pos: usize,
    header_code: u8,
    header_len: u8,
    parameters: Option<Vec<u8>>,
}

impl ByteStream {
    /// The bytes of the current frame consumed so far, in order.
    pub closed spec fn assembled(self) -> Seq<u8> {
        if self.pos == 0 {
            Seq::empty()
        } else if self.pos == 1 {
            seq![self.header_code]
        } else {
            match self.parameters {
                Some(p) => seq![self.header_code, self.header_len] + p@,
                None => seq![self.header_code, self.header_len],
            }
        }
    }

    /// Between calls the state is consistent: a payload buffer exists only
    /// once the header is complete and recognized, holds exactly the bytes
    /// counted past the header, and is still short of the announced
    /// length.
    pub closed spec fn wf(self) -> bool {
        match self.parameters {
            Some(p) => self.pos == 2 + p@.len() && p@.len() < self.header_len
                && spec_event_code_valid(self.header_code),
            None => self.pos <= 2,
        }
    }

    /// A fresh reader awaiting the first header byte.
    pub fn new() -> (r: ByteStream)
        ensures
            r.wf(),
            r.assembled() == Seq::<u8>::empty(),
    {
        ByteStream { pos: 0, header_code: 0, header_len: 0, parameters: None }
    }

    /// Force-reset to awaiting a header, discarding any partially
    /// assembled frame.
    pub fn clear(&mut self)
        ensures
            final(self).wf(),
            final(self).assembled() == Seq::<u8>::empty(),
    {
        self.pos = 0;
        self.header_code = 0;
        self.header_len = 0;
        self.parameters = None;
    }

    /// Drive the assembly once: read into the remaining portion of the
    /// current target (header, then payload), consuming every delivered
    /// byte in order, until the transport is pending, the stream ends, the
    /// transport fails, the header's event code proves unrecognized, or a
    /// frame completes. See [`poll_outcome`] for the full guarantee.
    #[verifier::loop_isolation(false)]
    pub fn poll_next<R: HCIReader>(&mut self, reader: &mut R) -> (r: PollNext)
        requires
            old(self).wf(),
        ensures
            poll_outcome(*old(self), *final(self), *old(reader), *final(reader), r),
    {
        let ghost log0 = reader.read_log();
        let ghost a0 = self.assembled();
        proof {
            lemma_concat_parts(log0, Seq::<u8>::empty());
            assert(log0 + Seq::<u8>::empty() =~= log0);
        }
        while self.pos < 2
            invariant
                self.wf(),
                log0.is_prefix_of(reader.read_log()),
                reader.read_log() == log0 + reader.read_log().skip(log0.len() as int),
                self.assembled() == a0 + reader.read_log().skip(log0.len() as int),
                reader.end_count() == old(reader).end_count(),
                reader.failure_count() == old(reader).failure_count(),
            decreases 2 - self.pos,
        {
            let want = 2 - self.pos;
            let ghost logi = reader.read_log();
            match reader.poll_read(want) {
                IoRead::Pending => {
                    return PollNext::Pending;
                },
                IoRead::Failed => {
                    return PollNext::Failed(StreamError::IOError);
                },
                IoRead::Data(v) => {
                    if v.len() == 0 {
                        proof {
                            assert(logi + v@ =~= logi);
                        }
                        return PollNext::Closed;
                    }
                    proof {
                        assert(reader.read_log() =~= log0 + (logi.skip(log0.len() as int) + v@));
                        lemma_concat_parts(log0, logi.skip(log0.len() as int) + v@);
                    }
                    if self.pos == 0 {
                        self.header_code = v[0];
                        if v.len() == 2 {
                            self.header_len = v[1];
                            self.pos = 2;
                        } else {
                            self.pos = 1;
                        }
                    } else {
                        self.header_len = v[0];
                        self.pos = 2;
                    }
                    proof {
                        assert(self.assembled() =~= a0 + reader.read_log().skip(
                            log0.len() as int,
                        ));
                    }
                },
            }
        }
        let code = match EventCode::try_from(self.header_code) {
            Ok(c) => c,
            Err(_) => {
                proof {
                    assert(self.assembled().len() == 2);
                    assert(self.assembled()[0] == self.header_code);
                }
                return PollNext::Failed(StreamError::BadOpcode);
            },
        };
        let len: usize = self.header_len as usize;
        let ghost pre = *self;
        let mut buf: Vec<u8> = match self.parameters.take() {
            Some(b) => b,
            None => Vec::new(),
        };
        proof {
            assert(pre.assembled() == a0 + reader.read_log().skip(log0.len() as int));
            if pre.parameters is Some {
                assert(pre.assembled() =~= seq![pre.header_code, pre.header_len] + buf@);
            } else {
                assert(pre.pos == 2);
                assert(pre.assembled() =~= seq![pre.header_code, pre.header_len] + buf@);
            }
            assert(a0 + reader.read_log().skip(log0.len() as int) == seq![
                self.header_code,
                self.header_len,
            ] + buf@);
        }
        while self.pos < 2 + len
            invariant
                self.parameters is None,
                len == self.header_len,
                spec_event_code_valid(self.header_code),
                code.spec_code() == self.header_code,
                self.pos == 2 + buf@.len(),
                buf@.len() <= len,
                log0.is_prefix_of(reader.read_log()),
                reader.read_log() == log0 + reader.read_log().skip(log0.len() as int),
                a0 + reader.read_log().skip(log0.len() as int) == seq![
                    self.header_code,
                    self.header_len,
                ] + buf@,
                reader.end_count() == old(reader).end_count(),
                reader.failure_count() == old(reader).failure_count(),
            decreases 2 + len - self.pos,
        {
            let want = 2 + len - self.pos;
            let ghost logi = reader.read_log();
            match reader.poll_read(want) {
                IoRead::Pending => {
                    self.parameters = Some(buf);
                    return PollNext::Pending;
                },
                IoRead::Failed => {
                    self.parameters = Some(buf);
                    return PollNext::Failed(StreamError::IOError);
                },
                IoRead::Data(v) => {
                    if v.len() == 0 {
                        proof {
                            assert(logi + v@ =~= logi);
                        }
                        self.parameters = Some(buf);
                        return PollNext::Closed;
                    }
                    let ghost bufsnap = buf@;
                    let mut i: usize = 0;
                    while i < v.len()
                        invariant
                            i <= v@.len(),
                            buf@ == bufsnap + v@.subrange(0, i as int),
                        decreases v@.len() - i,
                    {
                        let b = v[i];
                        buf.push(b);
                        i = i + 1;
                        proof {
                            assert(v@.subrange(0, i as int) =~= v@.subrange(0, i - 1) + seq![
                                v@[i - 1],
                            ]);
                        }
                    }
                    proof {
                        assert(buf@ =~= bufsnap + v@);
                        assert(reader.read_log() =~= log0 + (logi.skip(log0.len() as int) + v@));
                        lemma_concat_parts(log0, logi.skip(log0.len() as int) + v@);
                    }
                    self.pos = self.pos + v.len();
                    proof {
                        assert(a0 + reader.read_log().skip(log0.len() as int) =~= (a0 + logi.skip(
                            log0.len() as int,
                        )) + v@);
                        assert(seq![self.header_code, self.header_len] + buf@ =~= (seq![
                            self.header_code,
                            self.header_len,
                        ] + bufsnap) + v@);
                        assert(a0 + reader.read_log().skip(log0.len() as int) == seq![
                            self.header_code,
                            self.header_len,
                        ] + buf@);
                    }
                },
            }
        }
        self.pos = 0;
        let ghost grown = a0 + reader.read_log().skip(log0.len() as int);
        proof {
            assert(grown[0] == self.header_code);
            assert(grown[1] == self.header_len);
            assert(grown.skip(2) =~= buf@);
        }
        let pkt = EventPacket::new(code, buf);
        PollNext::Frame(pkt)
    }

    /// Produce the next complete frame, or signal stream end or an error:
    /// delegates directly to the frame assembly.
    pub fn read_event<R: HCIReader>(&mut self, reader: &mut R) -> (r: PollNext)
        requires
            old(self).wf(),
        ensures
            poll_outcome(*old(self), *final(self), *old(reader), *final(reader), r),
    {
        self.poll_next(reader)
    }

    /// Reset the read state (any partially received frame is lost) and
    /// buffer one outgoing frame for delivery.
    pub fn send_bytes(&mut self, bytes: &[u8]) -> (r: ByteWrite)
        ensures
            final(self).wf(),
            final(self).assembled() == Seq::<u8>::empty(),
            r.wf(),
            r.sent() == 0,
            !r.spent(),
            r.frame() == bytes@,
    {
        self.clear();
        ByteWrite::new(bytes)
    }

    /// Send one command: pack it into a buffer of its full wire length,
    /// install a fresh filter surfacing only the Command and Event packet
    /// types, only the command-status and command-complete event codes,
    /// and exactly this command's opcode, then reset the read state and
    /// hand the packed bytes to a frame writer. A packing failure aborts
    /// before any transport interaction; a filter-install failure aborts,
    /// surfaced as-is, before any byte is buffered for transmission. No
    /// bytes are written to the transport by this call either way.
    ///
    /// Only one command may be outstanding at a time: issuing a second
    /// command before the first's response event is consumed overwrites
    /// the filter and invalidates the correlation for the first.
    pub fn send_command<Cmd: Command, W: HCIWriter>(
        &mut self,
        writer: &mut W,
        command: &Cmd,
    ) -> (r: Result<ByteWrite, StreamError>)
        requires
            old(self).wf(),
        ensures
            final(self).wf(),
            final(writer).write_log() == old(writer).write_log(),
            final(writer).flush_count() == old(writer).flush_count(),
            final(writer).failure_count() == old(writer).failure_count(),
            match r {
                Ok(bw) => {
                    &&& bw.wf()
                    &&& bw.sent() == 0
                    &&& !bw.spent()
                    &&& bw.frame() == command.encoded()
                    &&& final(self).assembled() == Seq::<u8>::empty()
                    &&& forall|c: u32|
                        c < 32 ==> (#[trigger] final(writer).spec_filter().type_enabled(c) <==> (c
                            == PacketType::Command.spec_u8() as u32 || c == PacketType::Event.spec_u8() as u32))
                    &&& forall|c: u32|
                        c < 64 ==> (#[trigger] final(writer).spec_filter().event_enabled(c) <==> (c
                            == 0x0E || c == 0x0F))
                    &&& final(writer).spec_filter().spec_opcode() == Cmd::spec_opcode()
                },
                Err(_) => {
                    &&& *final(self) == *old(self)
                    &&& final(writer).spec_filter() == old(writer).spec_filter()
                },
            },
    {
        let len = command.full_len();
        let mut buf: Vec<u8> = Vec::new();
        while buf.len() < len
            invariant
                buf@.len() <= len,
            decreases len - buf.len(),
        {
            buf.push(0u8);
        }
        match command.pack_full(&mut buf) {
            Err(e) => {
                return Err(StreamError::CommandError(e));
            },
            Ok(()) => {},
        }
        let mut filter = Filter::default();
        let ghost f0 = filter;
        filter.enable_type(PacketType::Command);
        let ghost f1 = filter;
        filter.enable_type(PacketType::Event);
        let ghost f2 = filter;
        filter.enable_event(EventCode::command_status());
        let ghost f3 = filter;
        filter.enable_event(EventCode::command_complete());
        let ghost f4 = filter;
        let op = Cmd::opcode();
        let opcode_slot = filter.opcode_mut();
        *opcode_slot = op;
        proof {
            assert forall|c: u32| c < 32 implies (filter.type_enabled(c) <==> (c
                == PacketType::Command.spec_u8() as u32 || c == PacketType::Event.spec_u8()
                as u32)) by {
                assert(filter.type_enabled(c) == f4.type_enabled(c));
                assert(f4.type_enabled(c) == f3.type_enabled(c));
                assert(f3.type_enabled(c) == f2.type_enabled(c));
                assert(f2.type_enabled(c) == (c == 0x04 || f1.type_enabled(c)));
                assert(f1.type_enabled(c) == (c == 0x01 || f0.type_enabled(c)));
                assert(!f0.type_enabled(c));
            }
            assert forall|c: u32| c < 64 implies (filter.event_enabled(c) <==> (c == 0x0E || c
                == 0x0F)) by {
                assert(filter.event_enabled(c) == f4.event_enabled(c));
                assert(f4.event_enabled(c) == (c == 0x0E || f3.event_enabled(c)));
                assert(f3.event_enabled(c) == (c == 0x0F || f2.event_enabled(c)));
                assert(f2.event_enabled(c) == f1.event_enabled(c));
                assert(f1.event_enabled(c) == f0.event_enabled(c));
                assert(!f0.event_enabled(c));
            }
        }
        match writer.set_filter(&filter) {
            Err(e) => {
                return Err(e);
            },
            Ok(()) => {},
        }
        Ok(self.send_bytes(buf.as_slice()))
    }
}

} // verus!
