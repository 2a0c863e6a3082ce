use kproxy::base::{DebugLevel, Emission, Endpoint, Error, IoFailure, ReadRequest, NO_DESCRIPTOR};
use kproxy::context::Action;
use kproxy::entry::{
    Accepted, Closed, Connections, Entry, Interest, Listen, Registration, EVENT_CAPACITY,
};
use kproxy::http::HttpEntry;
use kproxy::notice::Notice;
use kproxy::pipeline::Pipeline;
use kproxy::stage::Stage;
use kproxy::stdio::{StdioEntry, StdioStep, StdoutMode, PIPELINE_TOKEN, STDIN_TOKEN};
use kproxy::tcp::{TcpEntry, TcpStep};
use kproxy::token::{
    context_id, ingress_of, ingress_token, pipeline_token, route, Route, MAX_CONTEXT_ID,
    MAX_TOKEN, SERVER_TOKEN,
};

const READ: Interest = Interest { readable: true, writable: false };
const BOTH: Interest = Interest { readable: true, writable: true };

fn accepted(token: usize, descriptor: i32) -> Accepted {
    Accepted {
        token,
        interest: BOTH,
        pipeline_token: token + 1,
        descriptor,
        pipeline: Some(Registration { token: token + 1, descriptor, interest: BOTH }),
        announce: true,
    }
}

fn closed(token: usize, descriptor: i32) -> Closed {
    Closed {
        token,
        pipeline_token: token + 1,
        pipeline: Some(Registration { token: token + 1, descriptor, interest: BOTH }),
        descriptors: vec![descriptor],
    }
}

fn tcp_step() -> Stage {
    Stage::Tcp(TcpStep {
        address: "127.0.0.1".to_string(),
        port: 7,
        connection: NO_DESCRIPTOR,
        debug_level: DebugLevel::Silent,
        buffer_size: 8,
    })
}

fn template() -> Pipeline<Stage> {
    let mut pipeline = Pipeline::new();
    pipeline.add_step(tcp_step());
    pipeline
}

fn connections(level: DebugLevel) -> Connections<Stage> {
    Connections::new(template(), 8, level)
}

fn to(descriptor: i32, bytes: &[u8]) -> Emission {
    Emission { sink: Endpoint::Descriptor(descriptor), bytes: bytes.to_vec() }
}

fn would_block() -> Error {
    Error::IoError(IoFailure { would_block: true, message: "would block".to_string() })
}

#[test]
fn tokens_are_routed_by_parity() {
    assert_eq!(route(0), Route::Server);
    assert_eq!(route(SERVER_TOKEN), Route::Server);
    assert_eq!(route(1), Route::Ingress);
    assert_eq!(route(2), Route::Pipeline);
    assert_eq!(route(3), Route::Ingress);
    assert_eq!(route(4), Route::Pipeline);
    for id in [0usize, 1, 2, 57, 1000, MAX_CONTEXT_ID] {
        assert_eq!(ingress_token(id), 2 * id + 1);
        assert_eq!(pipeline_token(id), 2 * id + 2);
        assert_eq!(route(ingress_token(id)), Route::Ingress);
        assert_eq!(route(pipeline_token(id)), Route::Pipeline);
        assert_eq!(context_id(ingress_token(id)), Some(id));
        assert_eq!(context_id(pipeline_token(id)), Some(id));
    }
    assert_eq!(context_id(SERVER_TOKEN), None);
    assert_eq!(pipeline_token(MAX_CONTEXT_ID), MAX_TOKEN);
    assert_eq!(context_id(usize::MAX), None);
    assert_eq!(ingress_of(7), Some(7));
    assert_eq!(ingress_of(8), Some(7));
    assert_eq!(ingress_of(SERVER_TOKEN), None);
    assert_eq!(ingress_of(usize::MAX), None);
}

#[test]
fn readable_server_asks_for_an_accept() {
    let mut open = connections(DebugLevel::Silent);
    assert_eq!(open.on_ready(SERVER_TOKEN, true, false), vec![Action::Accept]);
    assert_eq!(open.on_ready(SERVER_TOKEN, false, true), Vec::new());
}

#[test]
fn accepted_connection_gets_two_tokens_and_its_own_pipeline() {
    let mut open = connections(DebugLevel::Warn);
    assert_eq!(open.buffer_size(), 8);
    assert_eq!(open.debug_level(), DebugLevel::Warn);
    assert_eq!(open.template().len(), 1);
    let first = open.accept(&vec![31]);
    assert_eq!(
        first,
        Ok(accepted(1, 31))
    );
    let second = open.accept(&vec![32]);
    assert_eq!(
        second,
        Ok(accepted(3, 32))
    );
    assert_eq!(open.template().as_raw_fd(), NO_DESCRIPTOR);
    assert_eq!(open.context_mut(1).unwrap().pipeline.as_raw_fd(), 31);
    assert_eq!(open.context_mut(2).unwrap().pipeline.as_raw_fd(), 31);
    assert_eq!(open.context_mut(3).unwrap().pipeline.as_raw_fd(), 32);
    assert!(open.context_mut(5).is_none());
    assert!(open.context_mut(0).is_none());
}

#[test]
fn accept_is_announced_from_warn_on() {
    for (level, announce) in [
        (DebugLevel::Silent, false),
        (DebugLevel::Crit, false),
        (DebugLevel::Warn, true),
        (DebugLevel::Info, true),
    ] {
        let mut open = connections(level);
        assert_eq!(open.accept(&vec![9]).unwrap().announce, announce);
    }
}

#[test]
fn accept_without_a_step_breaks_an_invariant() {
    let mut open: Connections<Stage> = Connections::new(Pipeline::new(), 8, DebugLevel::Info);
    assert_eq!(open.accept(&Vec::new()), Err(Error::Unknown));
    assert!(open.context_mut(1).is_none());
}

#[test]
fn both_tokens_find_one_context() {
    let mut open = connections(DebugLevel::Silent);
    let accepted = open.accept(&vec![31]).unwrap();
    open.context_mut(accepted.token).unwrap().connection_buf.push(7);
    assert_eq!(open.context_mut(accepted.pipeline_token).unwrap().connection_buf, vec![7]);
    open.context_mut(accepted.pipeline_token).unwrap().pipeline_buf.push(8);
    assert_eq!(open.context_mut(accepted.token).unwrap().pipeline_buf, vec![8]);
}

#[test]
fn events_are_routed_to_the_side_of_their_token() {
    let mut open = connections(DebugLevel::Silent);
    let accepted = open.accept(&vec![31]).unwrap();
    assert_eq!(
        open.on_ready(accepted.token, true, true),
        vec![Action::ReadClient { limit: 8 }]
    );
    assert_eq!(
        open.on_ready(accepted.pipeline_token, true, true),
        vec![Action::ReadPipeline {
            request: Some(ReadRequest { source: Endpoint::Descriptor(31), limit: 8 }),
        }]
    );
    assert_eq!(open.on_ready(accepted.token, false, true), Vec::new());
    assert_eq!(open.on_ready(accepted.pipeline_token, false, true), Vec::new());
}

#[test]
fn unknown_token_is_reported_and_passed_over() {
    let mut quiet = connections(DebugLevel::Silent);
    assert_eq!(quiet.on_ready(5, true, true), Vec::new());
    let mut open = connections(DebugLevel::Crit);
    assert_eq!(open.on_ready(5, true, true), vec![Action::Log(Notice::UnknownToken(5))]);
    assert_eq!(
        open.on_client_read(6, Ok(b"x".to_vec())),
        vec![Action::Log(Notice::UnknownToken(6))]
    );
    assert_eq!(open.on_pipeline_written(6, Ok(())), vec![Action::Log(Notice::UnknownToken(6))]);
    assert_eq!(
        open.on_pipeline_read(6, Ok(Vec::new())),
        vec![Action::Log(Notice::UnknownToken(6))]
    );
    assert_eq!(open.on_backward_written(6, Ok(())), vec![Action::Log(Notice::UnknownToken(6))]);
    assert_eq!(open.on_client_written(6, Ok(1)), vec![Action::Log(Notice::UnknownToken(6))]);
    assert_eq!(open.close(6), None);
}

#[test]
fn a_connection_echoes_through_its_pipeline() {
    let mut open = connections(DebugLevel::Silent);
    let accepted = open.accept(&vec![31]).unwrap();
    assert_eq!(
        open.on_client_read(accepted.token, Ok(b"abcd".to_vec())),
        vec![Action::WritePipeline { writes: vec![to(31, b"abcd")], failure: None }]
    );
    assert_eq!(open.on_pipeline_written(accepted.token, Ok(())), Vec::new());
    let _ = open.on_ready(accepted.pipeline_token, true, false);
    assert_eq!(
        open.on_pipeline_read(accepted.pipeline_token, Ok(b"abcd".to_vec())),
        vec![Action::WriteClient { bytes: b"abcd".to_vec() }]
    );
    assert_eq!(open.on_client_written(accepted.token, Ok(4)), Vec::new());
    let context = open.context_mut(accepted.token).unwrap();
    assert!(context.connection_buf.is_empty());
    assert!(context.pipeline_buf.is_empty());
}

#[test]
fn connections_do_not_touch_each_other() {
    let mut open = connections(DebugLevel::Silent);
    let first = open.accept(&vec![31]).unwrap();
    let second = open.accept(&vec![32]).unwrap();
    let _ = open.on_client_read(first.token, Ok(b"one".to_vec()));
    let _ = open.on_client_read(second.token, Ok(b"two".to_vec()));
    assert_eq!(open.context_mut(first.token).unwrap().connection_buf, b"one".to_vec());
    assert_eq!(open.context_mut(second.token).unwrap().connection_buf, b"two".to_vec());
    let _ = open.on_pipeline_written(first.token, Ok(()));
    assert!(open.context_mut(first.token).unwrap().connection_buf.is_empty());
    assert_eq!(open.context_mut(second.token).unwrap().connection_buf, b"two".to_vec());
    assert_eq!(open.on_client_read(first.token, Err(would_block())), Vec::new());
    assert_eq!(open.context_mut(second.token).unwrap().connection_buf, b"two".to_vec());
}

#[test]
fn closed_connection_frees_its_tokens() {
    let mut open = connections(DebugLevel::Silent);
    let first = open.accept(&vec![31]).unwrap();
    let second = open.accept(&vec![32]).unwrap();
    assert_eq!(open.close(first.pipeline_token), Some(closed(1, 31)));
    assert!(open.context_mut(1).is_none());
    assert!(open.context_mut(2).is_none());
    assert_eq!(open.close(first.token), None);
    assert_eq!(open.context_mut(second.token).unwrap().pipeline.as_raw_fd(), 32);
    let third = open.accept(&vec![33]).unwrap();
    assert_eq!((third.token, third.pipeline_token), (1, 2));
    let fourth = open.accept(&vec![34]).unwrap();
    assert_eq!((fourth.token, fourth.pipeline_token), (5, 6));
    assert_eq!(open.close(second.token), Some(closed(3, 32)));
}

#[test]
fn stream_entries_listen_on_their_address() {
    let mut entry = TcpEntry {
        address: "0.0.0.0".to_string(),
        port: 8080,
        connections: connections(DebugLevel::Silent),
    };
    assert_eq!(
        entry.listen(),
        Listen {
            bind: Some(("0.0.0.0".to_string(), 8080)),
            token: SERVER_TOKEN,
            interest: READ,
            pipeline: None,
            capacity: EVENT_CAPACITY,
        }
    );
    let mut framed = HttpEntry {
        address: "::1".to_string(),
        port: 443,
        connections: connections(DebugLevel::Silent),
    };
    assert_eq!(
        framed.listen(),
        Listen {
            bind: Some(("::1".to_string(), 443)),
            token: 0,
            interest: READ,
            pipeline: None,
            capacity: 128,
        }
    );
}

#[test]
fn line_entry_has_one_connection_from_the_start() {
    let mut pipeline = Pipeline::new();
    pipeline.add_step(Stage::Stdio(StdioStep {
        stdout_mode: StdoutMode::Forward,
        debug_level: DebugLevel::Crit,
        buffer_size: 8,
    }));
    let mut step = tcp_step();
    if let Stage::Tcp(inner) = &mut step {
        inner.connection = 44;
    }
    pipeline.add_step(step);
    let mut entry = StdioEntry::configure(Some("8".to_string()), pipeline, DebugLevel::Crit).unwrap();
    assert_eq!(
        entry.listen(),
        Listen {
            bind: None,
            token: STDIN_TOKEN,
            interest: READ,
            pipeline: Some(Registration { token: PIPELINE_TOKEN, descriptor: 44, interest: BOTH }),
            capacity: EVENT_CAPACITY,
        }
    );
    assert_eq!(entry.on_ready(STDIN_TOKEN, true, false), vec![Action::ReadClient { limit: 8 }]);
    assert_eq!(entry.on_ready(STDIN_TOKEN, false, true), Vec::new());
    assert_eq!(
        entry.on_ready(PIPELINE_TOKEN, true, false),
        vec![Action::ReadPipeline {
            request: Some(ReadRequest { source: Endpoint::Descriptor(44), limit: 8 }),
        }]
    );
    assert_eq!(entry.on_ready(PIPELINE_TOKEN, false, true), Vec::new());
    assert_eq!(entry.on_ready(0, true, true), vec![Action::Log(Notice::UnknownToken(0))]);
    assert_eq!(entry.on_ready(3, true, true), vec![Action::Log(Notice::UnknownToken(3))]);
    assert_eq!((STDIN_TOKEN, PIPELINE_TOKEN), (1, 2));
    assert_eq!(route(STDIN_TOKEN), Route::Ingress);
    assert_eq!(route(PIPELINE_TOKEN), Route::Pipeline);
}

#[test]
fn line_entry_round_trip() {
    let mut pipeline = Pipeline::new();
    pipeline.add_step(Stage::Stdio(StdioStep {
        stdout_mode: StdoutMode::Both,
        debug_level: DebugLevel::Silent,
        buffer_size: 8,
    }));
    let mut entry = StdioEntry::configure(Some("8".to_string()), pipeline, DebugLevel::Silent).unwrap();
    let mut writes = Vec::new();
    let handled = entry.handle_pipeline(b"go".to_vec(), vec![Ok(b"in".to_vec())], &mut writes);
    assert_eq!(handled, Ok(()));
    assert_eq!(
        writes,
        vec![
            Emission { sink: Endpoint::Stdout, bytes: b"go".to_vec() },
            Emission { sink: Endpoint::Stdout, bytes: b"go".to_vec() },
        ]
    );
    let handled = entry.handle_pipeline(b"go".to_vec(), Vec::new(), &mut writes);
    assert_eq!(handled, Err(Error::Unknown));
    let handled = entry.handle_pipeline(b"go".to_vec(), vec![Err(would_block())], &mut writes);
    assert_eq!(handled, Err(would_block()));
}

#[test]
fn line_entry_without_steps_registers_no_pipeline() {
    let mut entry =
        StdioEntry::configure(Some("16".to_string()), Pipeline::new(), DebugLevel::Silent).unwrap();
    assert_eq!(entry.listen().pipeline, None);
    assert_eq!(entry.buffer_size, 16);
}

#[test]
fn failed_accept_ends_the_entry_unless_it_would_have_blocked() {
    let open = connections(DebugLevel::Silent);
    assert_eq!(open.on_accept_failed(would_block()), Ok(()));
    let down = Error::IoError(IoFailure { would_block: false, message: "too many files".to_string() });
    assert_eq!(open.on_accept_failed(down.clone()), Err(down));
    assert_eq!(open.on_accept_failed(Error::Unknown), Err(Error::Unknown));
}

#[test]
fn pipeline_that_ends_in_a_local_step_is_not_registered() {
    let mut pipeline = Pipeline::new();
    pipeline.add_step(tcp_step());
    pipeline.add_step(Stage::Stdio(StdioStep {
        stdout_mode: StdoutMode::Both,
        debug_level: DebugLevel::Silent,
        buffer_size: 8,
    }));
    let mut open = Connections::new(pipeline.clone(), 8, DebugLevel::Silent);
    let taken = open.accept(&vec![31, 32]).unwrap();
    assert_eq!(taken.descriptor, NO_DESCRIPTOR);
    assert_eq!(taken.pipeline, None);
    assert_eq!((taken.token, taken.pipeline_token), (1, 2));
    let mut entry = StdioEntry::configure(Some("8".to_string()), pipeline, DebugLevel::Silent).unwrap();
    assert_eq!(entry.listen().pipeline, None);
    assert_eq!(kproxy::entry::register_pipeline(2, NO_DESCRIPTOR), None);
    assert_eq!(
        kproxy::entry::register_pipeline(2, 0),
        Some(Registration { token: 2, descriptor: 0, interest: BOTH })
    );
}

#[test]
fn connection_that_cannot_be_taken_in() {
    let refused = Error::IoError(IoFailure { would_block: false, message: "refused".to_string() });
    let open = connections(DebugLevel::Crit);
    assert_eq!(
        open.on_connect_failed(refused.clone()),
        vec![Action::Log(Notice::Connecting(refused.clone()))]
    );
    assert_eq!(open.on_connect_failed(would_block()), Vec::new());
    assert_eq!(open.on_connect_failed(Error::Unknown), vec![Action::Fail(Error::Unknown)]);
    assert_eq!(connections(DebugLevel::Silent).on_connect_failed(refused), Vec::new());
}
