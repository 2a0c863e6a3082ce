use kproxy::base::{DebugLevel, Emission, Endpoint, Error, IoFailure, ReadRequest, NO_DESCRIPTOR};
use kproxy::context::{written, Action, EntryContext};
use kproxy::notice::Notice;
use kproxy::pipeline::Pipeline;
use kproxy::stage::Stage;
use kproxy::stdio::{StdioStep, StdoutMode};
use kproxy::tcp::TcpStep;

fn tcp(descriptor: i32) -> Stage {
    Stage::Tcp(TcpStep {
        address: "localhost".to_string(),
        port: 9000,
        connection: descriptor,
        debug_level: DebugLevel::Silent,
        buffer_size: 8,
    })
}

fn stdio(mode: StdoutMode) -> Stage {
    Stage::Stdio(StdioStep { stdout_mode: mode, debug_level: DebugLevel::Silent, buffer_size: 8 })
}

fn context(steps: Vec<Stage>) -> EntryContext<Stage> {
    let mut pipeline = Pipeline::new();
    for step in steps {
        pipeline.add_step(step);
    }
    EntryContext::new(pipeline)
}

fn to(descriptor: i32, bytes: &[u8]) -> Emission {
    Emission { sink: Endpoint::Descriptor(descriptor), bytes: bytes.to_vec() }
}

fn would_block() -> Error {
    Error::IoError(IoFailure { would_block: true, message: "would block".to_string() })
}

fn reset() -> Error {
    Error::IoError(IoFailure { would_block: false, message: "connection reset".to_string() })
}

#[test]
fn new_context_has_empty_buffers() {
    let fresh = context(vec![tcp(4)]);
    assert!(fresh.connection_buf.is_empty());
    assert!(fresh.pipeline_buf.is_empty());
    assert!(fresh.drain.is_none());
    assert_eq!(fresh.pipeline.len(), 1);
    assert_eq!(fresh.write_client(), None);
}

#[test]
fn read_client_fills_the_forward_buffer() {
    let mut open = context(vec![tcp(4)]);
    assert_eq!(open.read_client(8, Ok(b"ab".to_vec())), Ok(2));
    assert_eq!(open.read_client(8, Ok(b"cd".to_vec())), Ok(2));
    assert_eq!(open.connection_buf, b"abcd".to_vec());
    assert_eq!(open.read_client(8, Err(reset())), Err(reset()));
    assert_eq!(open.read_client(3, Ok(b"long".to_vec())), Err(Error::Unknown));
    assert_eq!(open.connection_buf, b"abcd".to_vec());
    assert!(open.pipeline_buf.is_empty());
}

#[test]
fn bytes_from_the_ingress_are_driven_forward() {
    let mut open = context(vec![tcp(4)]);
    let actions = open.on_client_read(8, Ok(b"abcd".to_vec()), DebugLevel::Silent);
    assert_eq!(
        actions,
        vec![Action::WritePipeline { writes: vec![to(4, b"abcd")], failure: None }]
    );
    assert_eq!(open.connection_buf, b"abcd".to_vec());
    assert_eq!(open.on_pipeline_written(Ok(()), DebugLevel::Silent), Vec::new());
    assert!(open.connection_buf.is_empty());
    assert!(open.pipeline_buf.is_empty());
}

#[test]
fn forward_buffer_is_kept_until_the_writes_succeed() {
    let mut open = context(vec![tcp(4)]);
    let _ = open.on_client_read(8, Ok(b"ab".to_vec()), DebugLevel::Info);
    assert_eq!(open.on_pipeline_written(Err(would_block()), DebugLevel::Info), Vec::new());
    assert_eq!(open.connection_buf, b"ab".to_vec());
    let actions = open.on_client_read(8, Ok(b"cd".to_vec()), DebugLevel::Info);
    match &actions[0] {
        Action::WritePipeline { writes, failure } => {
            assert_eq!(writes.last(), Some(&to(4, b"abcd")));
            assert_eq!(failure, &None);
        }
        other => panic!("unexpected action {:?}", other),
    }
    assert_eq!(
        open.on_pipeline_written(Err(reset()), DebugLevel::Crit),
        vec![Action::Log(Notice::WritingPipeline(reset()))]
    );
    assert_eq!(open.on_pipeline_written(Err(reset()), DebugLevel::Silent), Vec::new());
    assert_eq!(open.connection_buf, b"abcd".to_vec());
    assert_eq!(open.on_pipeline_written(Ok(()), DebugLevel::Crit), Vec::new());
    assert!(open.connection_buf.is_empty());
}

#[test]
fn end_of_stream_closes_the_connection() {
    let mut open = context(vec![tcp(4)]);
    assert_eq!(
        open.on_client_read(8, Ok(Vec::new()), DebugLevel::Info),
        vec![Action::Close]
    );
}

#[test]
fn failed_ingress_read_is_reported_and_closes() {
    let mut open = context(vec![tcp(4)]);
    assert_eq!(
        open.on_client_read(8, Err(reset()), DebugLevel::Crit),
        vec![Action::Log(Notice::ReadingClient(reset())), Action::Close]
    );
    assert_eq!(open.on_client_read(8, Err(reset()), DebugLevel::Silent), vec![Action::Close]);
    assert_eq!(
        open.on_client_read(2, Ok(b"abc".to_vec()), DebugLevel::Warn),
        vec![Action::Fail(Error::Unknown)]
    );
}

#[test]
fn would_block_keeps_the_connection_and_its_buffers() {
    let mut open = context(vec![tcp(4)]);
    let _ = open.on_client_read(8, Ok(b"ab".to_vec()), DebugLevel::Info);
    open.read_pipeline(b"zz".to_vec());
    assert_eq!(open.on_client_read(8, Err(would_block()), DebugLevel::Info), Vec::new());
    assert_eq!(open.on_pipeline_written(Err(would_block()), DebugLevel::Info), Vec::new());
    assert_eq!(open.on_client_written(Err(would_block()), DebugLevel::Info), Vec::new());
    assert_eq!(open.on_pipeline_readable(), vec![Action::ReadPipeline {
        request: Some(ReadRequest { source: Endpoint::Descriptor(4), limit: 8 }),
    }]);
    assert_eq!(open.on_pipeline_read(Err(would_block()), DebugLevel::Info), Vec::new());
    assert!(open.drain.is_none());
    assert_eq!(open.connection_buf, b"ab".to_vec());
    assert_eq!(open.pipeline_buf, b"zz".to_vec());
}

#[test]
fn drained_bytes_are_written_to_the_ingress() {
    let mut open = context(vec![tcp(4)]);
    assert_eq!(
        open.on_pipeline_readable(),
        vec![Action::ReadPipeline {
            request: Some(ReadRequest { source: Endpoint::Descriptor(4), limit: 8 }),
        }]
    );
    assert!(open.drain.is_some());
    assert_eq!(
        open.on_pipeline_read(Ok(b"abcd".to_vec()), DebugLevel::Silent),
        vec![Action::WriteClient { bytes: b"abcd".to_vec() }]
    );
    assert!(open.drain.is_none());
    assert_eq!(open.pipeline_buf, b"abcd".to_vec());
    assert!(open.connection_buf.is_empty());
    assert_eq!(open.on_client_written(Ok(4), DebugLevel::Silent), Vec::new());
    assert!(open.pipeline_buf.is_empty());
}

#[test]
fn drive_that_produces_nothing_leaves_nothing_to_write() {
    let mut open = context(vec![tcp(4)]);
    let _ = open.on_pipeline_readable();
    assert_eq!(open.on_pipeline_read(Ok(Vec::new()), DebugLevel::Silent), Vec::new());
    assert!(open.pipeline_buf.is_empty());
    assert_eq!(open.write_client(), None);
}

#[test]
fn partial_write_keeps_the_unsent_remainder() {
    let mut open = context(vec![tcp(4)]);
    open.read_pipeline(b"abcdef".to_vec());
    assert_eq!(open.write_client(), Some(b"abcdef".to_vec()));
    assert_eq!(open.on_client_written(Ok(2), DebugLevel::Silent), Vec::new());
    assert_eq!(open.pipeline_buf, b"cdef".to_vec());
    assert_eq!(open.on_client_written(Ok(0), DebugLevel::Silent), Vec::new());
    assert_eq!(open.pipeline_buf, b"cdef".to_vec());
    let _ = open.on_pipeline_readable();
    assert_eq!(
        open.on_pipeline_read(Ok(b"gh".to_vec()), DebugLevel::Silent),
        vec![Action::WriteClient { bytes: b"cdefgh".to_vec() }]
    );
    assert_eq!(open.on_client_written(Ok(9), DebugLevel::Silent), Vec::new());
    assert!(open.pipeline_buf.is_empty());
}

#[test]
fn failed_ingress_write_is_reported_and_closes() {
    let mut open = context(vec![tcp(4)]);
    open.read_pipeline(b"ab".to_vec());
    assert_eq!(
        open.on_client_written(Err(reset()), DebugLevel::Crit),
        vec![Action::Log(Notice::WritingClient(reset())), Action::Close]
    );
    assert_eq!(open.on_client_written(Err(reset()), DebugLevel::Silent), vec![Action::Close]);
    assert_eq!(open.pipeline_buf, b"ab".to_vec());
}

#[test]
fn failed_pipeline_read_is_reported_and_keeps_the_connection() {
    let mut open = context(vec![tcp(4)]);
    let _ = open.on_pipeline_readable();
    assert_eq!(
        open.on_pipeline_read(Err(reset()), DebugLevel::Crit),
        vec![Action::Log(Notice::ReadingPipeline(reset()))]
    );
    assert!(open.drain.is_none());
    let _ = open.on_pipeline_readable();
    assert_eq!(open.on_pipeline_read(Err(reset()), DebugLevel::Silent), Vec::new());
    assert_eq!(open.on_pipeline_read(Ok(b"late".to_vec()), DebugLevel::Crit), Vec::new());
    assert!(open.pipeline_buf.is_empty());
}

#[test]
fn backward_copies_are_written_before_the_drive_goes_on() {
    let mut open = context(vec![stdio(StdoutMode::Backward), tcp(4)]);
    let _ = open.on_pipeline_readable();
    assert_eq!(
        open.on_pipeline_read(Ok(b"reply".to_vec()), DebugLevel::Silent),
        vec![Action::ReadPipeline {
            request: Some(ReadRequest { source: Endpoint::Stdin, limit: 8 }),
        }]
    );
    assert_eq!(
        open.on_pipeline_read(Ok(b"typed".to_vec()), DebugLevel::Silent),
        vec![Action::WriteBackward {
            writes: vec![Emission { sink: Endpoint::Stdout, bytes: b"reply".to_vec() }],
        }]
    );
    assert!(open.pipeline_buf.is_empty());
    assert_eq!(
        open.on_backward_written(Ok(()), DebugLevel::Silent),
        vec![Action::WriteClient { bytes: b"typed".to_vec() }]
    );
    assert_eq!(open.pipeline_buf, b"typed".to_vec());
    assert!(open.drain.is_none());
    assert_eq!(open.on_backward_written(Ok(()), DebugLevel::Silent), Vec::new());
}

#[test]
fn failed_backward_copy_ends_the_drive() {
    let mut open = context(vec![stdio(StdoutMode::Backward), tcp(4)]);
    let _ = open.on_pipeline_readable();
    let _ = open.on_pipeline_read(Ok(b"reply".to_vec()), DebugLevel::Silent);
    let _ = open.on_pipeline_read(Ok(b"typed".to_vec()), DebugLevel::Silent);
    assert_eq!(
        open.on_backward_written(Err(reset()), DebugLevel::Warn),
        vec![Action::Log(Notice::ReadingPipeline(reset()))]
    );
    assert!(open.drain.is_none());
    assert!(open.pipeline_buf.is_empty());
}

#[test]
fn context_without_steps_has_nothing_to_drain() {
    let mut open = context(Vec::new());
    assert_eq!(open.on_pipeline_readable(), Vec::new());
    let actions = open.on_client_read(8, Ok(b"a".to_vec()), DebugLevel::Silent);
    assert_eq!(actions, vec![Action::WritePipeline { writes: Vec::new(), failure: None }]);
    assert_eq!(NO_DESCRIPTOR, -1);
}

#[test]
fn held_bytes_are_driven_again_when_the_pipeline_is_writable() {
    let mut open = context(vec![tcp(4)]);
    assert_eq!(open.on_pipeline_writable(), Vec::new());
    let _ = open.on_client_read(8, Ok(b"ab".to_vec()), DebugLevel::Silent);
    let _ = open.on_pipeline_written(Err(would_block()), DebugLevel::Silent);
    assert_eq!(
        open.on_pipeline_writable(),
        vec![Action::WritePipeline { writes: vec![to(4, b"ab")], failure: None }]
    );
    assert_eq!(open.connection_buf, b"ab".to_vec());
    let _ = open.on_pipeline_written(Ok(()), DebugLevel::Silent);
    assert_eq!(open.on_pipeline_writable(), Vec::new());
    assert_eq!(open.on_pipeline_ready(false, true), Vec::new());
}

#[test]
fn held_bytes_are_written_when_the_ingress_is_writable() {
    let mut open = context(vec![tcp(4)]);
    assert_eq!(open.on_client_writable(), Vec::new());
    assert_eq!(open.on_ingress_ready(true, true, 8), vec![Action::ReadClient { limit: 8 }]);
    assert_eq!(open.on_ingress_ready(false, false, 8), Vec::new());
    open.read_pipeline(b"abc".to_vec());
    let _ = open.on_client_written(Ok(1), DebugLevel::Silent);
    assert_eq!(open.on_client_writable(), vec![Action::WriteClient { bytes: b"bc".to_vec() }]);
    assert_eq!(
        open.on_ingress_ready(true, true, 8),
        vec![Action::ReadClient { limit: 8 }, Action::WriteClient { bytes: b"bc".to_vec() }]
    );
    assert_eq!(
        open.on_ingress_ready(false, true, 8),
        vec![Action::WriteClient { bytes: b"bc".to_vec() }]
    );
}

#[test]
fn pipeline_event_drains_first_and_pushes_then() {
    let mut open = context(vec![tcp(4)]);
    let _ = open.on_client_read(8, Ok(b"ab".to_vec()), DebugLevel::Silent);
    let _ = open.on_pipeline_written(Err(would_block()), DebugLevel::Silent);
    assert_eq!(
        open.on_pipeline_ready(true, true),
        vec![
            Action::ReadPipeline {
                request: Some(ReadRequest { source: Endpoint::Descriptor(4), limit: 8 }),
            },
            Action::WritePipeline { writes: vec![to(4, b"ab")], failure: None },
        ]
    );
    assert!(open.drain.is_some());
}

#[test]
fn failure_of_a_write_comes_before_that_of_the_drive() {
    assert_eq!(written(Ok(()), None), Ok(()));
    assert_eq!(written(Err(reset()), None), Err(reset()));
    assert_eq!(written(Ok(()), Some(Error::Unknown)), Err(Error::Unknown));
    assert_eq!(written(Err(would_block()), Some(Error::Unknown)), Err(would_block()));
}

#[test]
fn broken_invariant_ends_the_entry() {
    let mut open = context(vec![tcp(4)]);
    for level in [DebugLevel::Silent, DebugLevel::Info] {
        assert_eq!(
            open.on_client_read(8, Err(Error::Unknown), level),
            vec![Action::Fail(Error::Unknown)]
        );
        assert_eq!(
            open.on_pipeline_written(Err(Error::Unknown), level),
            vec![Action::Fail(Error::Unknown)]
        );
        assert_eq!(
            open.on_client_written(Err(Error::Unknown), level),
            vec![Action::Fail(Error::Unknown)]
        );
        let _ = open.on_pipeline_readable();
        assert_eq!(
            open.on_pipeline_read(Ok(vec![0u8; 9]), level),
            vec![Action::Fail(Error::Unknown)]
        );
        let _ = open.on_pipeline_readable();
        assert_eq!(
            open.on_pipeline_read(Err(Error::Unknown), level),
            vec![Action::Fail(Error::Unknown)]
        );
    }
    assert!(Error::Unknown.is_fatal());
    assert!(!reset().is_fatal());
    assert!(!would_block().is_fatal());
    assert!(!Error::ParseIntError.is_fatal());
}

#[test]
fn notices_know_their_failures() {
    assert_eq!(Notice::ReadingClient(reset()).error(), Some(&reset()));
    assert_eq!(Notice::WritingClient(reset()).into_error(), Some(reset()));
    assert_eq!(Notice::ReadingPipeline(Error::Unknown).into_error(), Some(Error::Unknown));
    assert_eq!(Notice::WritingPipeline(reset()).error(), Some(&reset()));
    assert_eq!(Notice::Connecting(reset()).error(), Some(&reset()));
    assert_eq!(Notice::UnknownToken(3).error(), None);
    assert_eq!(Notice::NewClient.into_error(), None);
}
