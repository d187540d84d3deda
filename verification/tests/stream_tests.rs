use hci_stream::codes::{EventCode, PacketType};
use hci_stream::error::{ErrorCode, PackError, StreamError};
use hci_stream::filter::Filter;
use hci_stream::opcode::Opcode;
use hci_stream::stream::{ByteStream, PollNext};
use hci_stream::transport::{Command, HCIReader, HCIWriter, IoFlush, IoRead, IoWrite};
use hci_stream::write::{ByteWrite, PollWrite};

/// One scripted transport step.
enum Step {
    Give(Vec<u8>),
    Pend,
    Fail,
}

/// A read transport that plays back a script; once the script is spent it
/// reports end of stream (an empty delivery).
struct ScriptedReader {
    steps: Vec<Step>,
    at: usize,
}

impl ScriptedReader {
    fn new(steps: Vec<Step>) -> Self {
        ScriptedReader { steps, at: 0 }
    }
}

impl HCIReader for ScriptedReader {
    fn poll_read(&mut self, max: usize) -> IoRead {
        if self.at >= self.steps.len() {
            return IoRead::Data(Vec::new());
        }
        let step = &self.steps[self.at];
        self.at += 1;
        match step {
            Step::Pend => IoRead::Pending,
            Step::Fail => IoRead::Failed,
            Step::Give(bytes) => {
                assert!(bytes.len() <= max, "script delivers more than was asked for");
                IoRead::Data(bytes.clone())
            }
        }
    }
}

/// A write transport accepting at most `cap` bytes per write call, able to
/// fail on a chosen write call, and recording everything it accepted.
struct LimitedWriter {
    accepted: Vec<u8>,
    cap: usize,
    write_calls: usize,
    flushes: usize,
    fail_on_write_call: Option<usize>,
    filter: Filter,
    refuse_filter: bool,
}

impl LimitedWriter {
    fn new(cap: usize) -> Self {
        LimitedWriter {
            accepted: Vec::new(),
            cap,
            write_calls: 0,
            flushes: 0,
            fail_on_write_call: None,
            filter: Filter::default(),
            refuse_filter: false,
        }
    }
}

impl HCIWriter for LimitedWriter {
    fn poll_write(&mut self, buf: &[u8]) -> IoWrite {
        self.write_calls += 1;
        if self.fail_on_write_call == Some(self.write_calls) {
            return IoWrite::Failed;
        }
        let n = buf.len().min(self.cap);
        self.accepted.extend_from_slice(&buf[..n]);
        IoWrite::Accepted(n)
    }

    fn poll_flush(&mut self) -> IoFlush {
        self.flushes += 1;
        IoFlush::Flushed
    }

    fn set_filter(&mut self, filter: &Filter) -> Result<(), StreamError> {
        if self.refuse_filter {
            return Err(StreamError::IOError);
        }
        self.filter = *filter;
        Ok(())
    }

    fn get_filter(&self) -> Result<Filter, StreamError> {
        Ok(self.filter)
    }
}

/// A command resembling a controller reset: opcode group 3, command 3,
/// packed as packet type, little-endian opcode, and a zero parameter count.
struct ResetCommand;

impl Command for ResetCommand {
    fn opcode() -> Opcode {
        Opcode::new(0x03, 0x0003).unwrap()
    }

    fn full_len(&self) -> usize {
        4
    }

    fn pack_full(&self, buf: &mut Vec<u8>) -> Result<(), PackError> {
        let op = Self::opcode().to_u16();
        buf[0] = 0x01;
        buf[1] = (op & 0xFF) as u8;
        buf[2] = (op >> 8) as u8;
        buf[3] = 0x00;
        Ok(())
    }
}

/// A command whose encoding always fails to pack.
struct BrokenCommand;

impl Command for BrokenCommand {
    fn opcode() -> Opcode {
        Opcode::new(0x01, 0x0001).unwrap()
    }

    fn full_len(&self) -> usize {
        4
    }

    fn pack_full(&self, _buf: &mut Vec<u8>) -> Result<(), PackError> {
        Err(PackError)
    }
}

fn expect_frame(outcome: PollNext) -> (u8, Vec<u8>) {
    match outcome {
        PollNext::Frame(pkt) => (pkt.event_code().to_u8(), pkt.into_parameters()),
        PollNext::Pending => panic!("expected a frame, reader is pending"),
        PollNext::Closed => panic!("expected a frame, stream closed"),
        PollNext::Failed(e) => panic!("expected a frame, failed: {e:?}"),
    }
}

#[test]
fn frame_assembled_one_byte_at_a_time() {
    let mut reader = ScriptedReader::new(vec![
        Step::Give(vec![0x0E]),
        Step::Give(vec![0x04]),
        Step::Give(vec![0xAA]),
        Step::Give(vec![0xBB]),
        Step::Give(vec![0xCC]),
        Step::Give(vec![0xDD]),
    ]);
    let mut stream = ByteStream::new();
    let (code, payload) = expect_frame(stream.poll_next(&mut reader));
    assert_eq!(code, 0x0E);
    assert_eq!(payload, vec![0xAA, 0xBB, 0xCC, 0xDD]);
}

#[test]
fn frame_assembly_is_chunking_independent() {
    // the same six bytes, chunked differently, with suspensions in between
    let mut reader = ScriptedReader::new(vec![
        Step::Give(vec![0x0E, 0x04]),
        Step::Pend,
        Step::Give(vec![0xAA, 0xBB, 0xCC]),
        Step::Pend,
        Step::Give(vec![0xDD]),
    ]);
    let mut stream = ByteStream::new();
    assert!(matches!(stream.poll_next(&mut reader), PollNext::Pending));
    assert!(matches!(stream.poll_next(&mut reader), PollNext::Pending));
    let (code, payload) = expect_frame(stream.poll_next(&mut reader));
    assert_eq!(code, 0x0E);
    assert_eq!(payload, vec![0xAA, 0xBB, 0xCC, 0xDD]);
}

#[test]
fn successive_frames_including_an_empty_payload() {
    let mut reader = ScriptedReader::new(vec![
        Step::Give(vec![0x0E, 0x02]),
        Step::Give(vec![0x01, 0x02]),
        Step::Give(vec![0x0F, 0x00]),
        Step::Give(vec![0x3E, 0x01]),
        Step::Give(vec![0x99]),
    ]);
    let mut stream = ByteStream::new();
    let (code, payload) = expect_frame(stream.poll_next(&mut reader));
    assert_eq!((code, payload), (0x0E, vec![0x01, 0x02]));
    let (code, payload) = expect_frame(stream.poll_next(&mut reader));
    assert_eq!((code, payload), (0x0F, vec![]));
    let (code, payload) = expect_frame(stream.poll_next(&mut reader));
    assert_eq!((code, payload), (0x3E, vec![0x99]));
    assert!(matches!(stream.poll_next(&mut reader), PollNext::Closed));
}

#[test]
fn unrecognized_event_code_yields_bad_opcode_and_no_frame() {
    let mut reader = ScriptedReader::new(vec![Step::Give(vec![0x00, 0x05])]);
    let mut stream = ByteStream::new();
    assert!(matches!(
        stream.poll_next(&mut reader),
        PollNext::Failed(StreamError::BadOpcode)
    ));
    // code 64 is just past the recognized range
    let mut reader = ScriptedReader::new(vec![Step::Give(vec![0x40, 0x00])]);
    let mut stream = ByteStream::new();
    assert!(matches!(
        stream.poll_next(&mut reader),
        PollNext::Failed(StreamError::BadOpcode)
    ));
}

#[test]
fn zero_byte_delivery_closes_the_stream_without_error() {
    // immediately
    let mut reader = ScriptedReader::new(vec![Step::Give(vec![])]);
    let mut stream = ByteStream::new();
    assert!(matches!(stream.poll_next(&mut reader), PollNext::Closed));
    // mid-header
    let mut reader = ScriptedReader::new(vec![Step::Give(vec![0x0E]), Step::Give(vec![])]);
    let mut stream = ByteStream::new();
    assert!(matches!(stream.poll_next(&mut reader), PollNext::Closed));
    // mid-payload
    let mut reader = ScriptedReader::new(vec![
        Step::Give(vec![0x0E, 0x02]),
        Step::Give(vec![0x01]),
        Step::Give(vec![]),
    ]);
    let mut stream = ByteStream::new();
    assert!(matches!(stream.poll_next(&mut reader), PollNext::Closed));
}

#[test]
fn transport_failure_yields_io_error() {
    let mut reader = ScriptedReader::new(vec![Step::Give(vec![0x0E]), Step::Fail]);
    let mut stream = ByteStream::new();
    assert!(matches!(
        stream.poll_next(&mut reader),
        PollNext::Failed(StreamError::IOError)
    ));
}

#[test]
fn clear_discards_a_partial_frame() {
    let mut reader = ScriptedReader::new(vec![
        Step::Give(vec![0x0E, 0x04]),
        Step::Give(vec![0x01]),
        Step::Pend,
    ]);
    let mut stream = ByteStream::new();
    assert!(matches!(stream.poll_next(&mut reader), PollNext::Pending));
    stream.clear();
    // a fresh frame starts from the header again
    let mut reader =
        ScriptedReader::new(vec![Step::Give(vec![0x0F, 0x01]), Step::Give(vec![0x42])]);
    let (code, payload) = expect_frame(stream.poll_next(&mut reader));
    assert_eq!((code, payload), (0x0F, vec![0x42]));
}

#[test]
fn read_event_delegates_to_frame_assembly() {
    let mut reader =
        ScriptedReader::new(vec![Step::Give(vec![0x0E, 0x01]), Step::Give(vec![0x07])]);
    let mut stream = ByteStream::new();
    let (code, payload) = expect_frame(stream.read_event(&mut reader));
    assert_eq!((code, payload), (0x0E, vec![0x07]));
}

#[test]
fn writer_drains_in_four_writes_and_one_flush() {
    let data: Vec<u8> = (0u8..10).collect();
    let mut bw = ByteWrite::new(&data);
    assert_eq!(bw.bytes_left(), 10);
    assert!(!bw.is_done());
    assert_eq!(bw.buf(), &data[..]);
    let mut writer = LimitedWriter::new(3);
    let outcome = bw.poll(&mut writer);
    assert!(matches!(outcome, PollWrite::Complete));
    assert_eq!(writer.write_calls, 4, "3 + 3 + 3 + 1 bytes");
    assert_eq!(writer.flushes, 1);
    assert_eq!(writer.accepted, data);
    assert!(bw.is_done());
    assert_eq!(bw.bytes_left(), 0);
}

#[test]
fn writer_failure_yields_io_error_and_never_flushes() {
    let data: Vec<u8> = (0u8..10).collect();
    let mut bw = ByteWrite::new(&data);
    let mut writer = LimitedWriter::new(3);
    writer.fail_on_write_call = Some(3);
    let outcome = bw.poll(&mut writer);
    assert!(matches!(outcome, PollWrite::Failed(StreamError::IOError)));
    assert_eq!(writer.flushes, 0, "a failed delivery must never reach the flush");
    assert_eq!(writer.accepted, &data[..6], "the first two writes were accepted");
}

#[test]
fn send_command_installs_the_correlation_filter_before_any_byte() {
    let mut writer = LimitedWriter::new(usize::MAX);
    let mut stream = ByteStream::new();
    let bw = stream
        .send_command(&mut writer, &ResetCommand)
        .expect("send_command must succeed");
    // the filter is installed, and nothing was written yet
    assert!(writer.accepted.is_empty());
    assert_eq!(writer.write_calls, 0);
    assert_eq!(writer.flushes, 0);
    let f = writer.get_filter().unwrap();
    assert!(f.get_type(PacketType::Command));
    assert!(f.get_type(PacketType::Event));
    assert!(!f.get_type(PacketType::ACLData));
    assert!(f.get_event(EventCode::command_status()));
    assert!(f.get_event(EventCode::command_complete()));
    assert!(!f.get_event(EventCode::try_from(0x01).unwrap()));
    assert_eq!(f.opcode(), Opcode::new(0x03, 0x0003).unwrap());
    // driving the returned writer delivers exactly the packed command
    let mut bw = bw;
    assert!(matches!(bw.poll(&mut writer), PollWrite::Complete));
    assert_eq!(writer.accepted, vec![0x01, 0x03, 0x0C, 0x00]);
    assert_eq!(writer.flushes, 1);
}

#[test]
fn send_command_surfaces_a_packing_failure_before_the_transport() {
    let mut writer = LimitedWriter::new(usize::MAX);
    let mut stream = ByteStream::new();
    let r = stream.send_command(&mut writer, &BrokenCommand);
    assert!(matches!(r, Err(StreamError::CommandError(PackError))));
    assert!(writer.accepted.is_empty());
    // the filter was never installed
    let f = writer.get_filter().unwrap();
    assert!(!f.get_type(PacketType::Command));
}

#[test]
fn send_command_surfaces_a_filter_install_failure() {
    let mut writer = LimitedWriter::new(usize::MAX);
    writer.refuse_filter = true;
    let mut stream = ByteStream::new();
    let r = stream.send_command(&mut writer, &ResetCommand);
    assert!(matches!(r, Err(StreamError::IOError)));
    assert!(writer.accepted.is_empty());
}

#[test]
fn send_command_resets_the_read_state() {
    // leave a torn frame in the reader, then send a command
    let mut reader = ScriptedReader::new(vec![
        Step::Give(vec![0x0E, 0x04]),
        Step::Give(vec![0x01]),
        Step::Pend,
    ]);
    let mut stream = ByteStream::new();
    assert!(matches!(stream.poll_next(&mut reader), PollNext::Pending));
    let mut writer = LimitedWriter::new(usize::MAX);
    stream.send_command(&mut writer, &ResetCommand).unwrap();
    // the stale payload bytes are gone: the next bytes are a fresh header
    let mut reader =
        ScriptedReader::new(vec![Step::Give(vec![0x0F, 0x01]), Step::Give(vec![0x55])]);
    let (code, payload) = expect_frame(stream.poll_next(&mut reader));
    assert_eq!((code, payload), (0x0F, vec![0x55]));
}

#[test]
fn send_bytes_buffers_the_frame_and_clears_the_reader() {
    let mut stream = ByteStream::new();
    let bw = stream.send_bytes(&[0x01, 0x02, 0x03]);
    assert_eq!(bw.bytes_left(), 3);
    assert_eq!(bw.buf(), &[0x01, 0x02, 0x03]);
}

#[test]
fn zero_length_accepted_write_is_retried_not_terminal() {
    let data = vec![0x01u8, 0x02];
    let mut bw = ByteWrite::new(&data);
    let mut writer = LimitedWriter::new(0);
    assert!(matches!(bw.poll(&mut writer), PollWrite::Pending));
    assert!(!bw.is_done());
    writer.cap = 8;
    assert!(matches!(bw.poll(&mut writer), PollWrite::Complete));
    assert_eq!(writer.accepted, data);
}

#[test]
fn bad_opcode_state_persists_until_cleared() {
    // the reader does not resynchronize on its own after a bad header
    let mut reader = ScriptedReader::new(vec![Step::Give(vec![0x00, 0x05])]);
    let mut stream = ByteStream::new();
    assert!(matches!(
        stream.poll_next(&mut reader),
        PollNext::Failed(StreamError::BadOpcode)
    ));
    let mut idle = ScriptedReader::new(vec![]);
    assert!(matches!(
        stream.poll_next(&mut idle),
        PollNext::Failed(StreamError::BadOpcode)
    ));
    stream.clear();
    let mut reader =
        ScriptedReader::new(vec![Step::Give(vec![0x0E, 0x01]), Step::Give(vec![0x07])]);
    let (code, payload) = expect_frame(stream.poll_next(&mut reader));
    assert_eq!((code, payload), (0x0E, vec![0x07]));
}

#[test]
fn error_taxonomy_carries_its_payloads() {
    let e = StreamError::HCIError(ErrorCode::new(0x0C));
    match e {
        StreamError::HCIError(code) => assert_eq!(code.to_u8(), 0x0C),
        _ => panic!("wrong variant"),
    }
    assert_ne!(StreamError::BadOpcode, StreamError::IOError);
    assert_eq!(
        StreamError::CommandError(PackError),
        StreamError::CommandError(PackError)
    );
}

#[test]
fn completion_is_terminal_and_one_shot() {
    let data = vec![0x01u8, 0x02, 0x03];
    let mut bw = ByteWrite::new(&data);
    assert!(!bw.is_spent());
    let mut writer = LimitedWriter::new(8);
    assert!(matches!(bw.poll(&mut writer), PollWrite::Complete));
    assert!(bw.is_spent());
    assert_eq!(writer.flushes, 1);
    // driving a spent writer again delivers nothing and never flushes again
    assert!(matches!(bw.poll(&mut writer), PollWrite::Complete));
    assert_eq!(writer.write_calls, 1);
    assert_eq!(writer.flushes, 1);
    assert_eq!(writer.accepted, data);
}
