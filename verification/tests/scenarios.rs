use std::collections::{HashMap, VecDeque};

use kproxy::base::{DebugLevel, Emission, Endpoint, Error, IoFailure, ReadRequest, NO_DESCRIPTOR};
use kproxy::context::{written, Action};
use kproxy::entry::{Connections, Entry};
use kproxy::notice::Notice;
use kproxy::pipeline::Pipeline;
use kproxy::stage::Stage;
use kproxy::stdio::{StdioEntry, StdioStep, StdoutMode, PIPELINE_TOKEN, STDIN_TOKEN};
use kproxy::tcp::TcpStep;
use kproxy::token::{ingress_of, SERVER_TOKEN};

/// The endpoints of a simulated host: what the standard input still holds,
/// what was written to the standard output, an echoing remote behind each
/// descriptor, and the two directions of each client connection.
struct World {
    stdin: VecDeque<u8>,
    stdout: Vec<u8>,
    echoes: HashMap<i32, VecDeque<u8>>,
    from_client: HashMap<usize, VecDeque<u8>>,
    to_client: HashMap<usize, Vec<u8>>,
    log: Vec<String>,
    closed: Vec<usize>,
}

fn world() -> World {
    World {
        stdin: VecDeque::new(),
        stdout: Vec::new(),
        echoes: HashMap::new(),
        from_client: HashMap::new(),
        to_client: HashMap::new(),
        log: Vec::new(),
        closed: Vec::new(),
    }
}

fn would_block() -> Error {
    Error::IoError(IoFailure { would_block: true, message: "would block".to_string() })
}

fn refused() -> Error {
    Error::IoError(IoFailure { would_block: false, message: "connection refused".to_string() })
}

fn take(queue: &mut VecDeque<u8>, limit: usize) -> Vec<u8> {
    let count = limit.min(queue.len());
    queue.drain(..count).collect()
}

fn write_all(world: &mut World, writes: &[Emission]) -> Result<(), Error> {
    for write in writes {
        match write.sink {
            Endpoint::Stdout => world.stdout.extend(&write.bytes),
            Endpoint::Stdin => return Err(refused()),
            Endpoint::Descriptor(descriptor) => match world.echoes.get_mut(&descriptor) {
                Some(remote) => remote.extend(&write.bytes),
                None => return Err(refused()),
            },
        }
    }
    Ok(())
}

fn read_for(world: &mut World, request: Option<ReadRequest>) -> Result<Vec<u8>, Error> {
    match request {
        None => Ok(Vec::new()),
        Some(ReadRequest { source: Endpoint::Stdin, limit }) => Ok(take(&mut world.stdin, limit)),
        Some(ReadRequest { source: Endpoint::Stdout, .. }) => Err(refused()),
        Some(ReadRequest { source: Endpoint::Descriptor(descriptor), limit }) => {
            match world.echoes.get_mut(&descriptor) {
                Some(remote) if remote.is_empty() => Err(would_block()),
                Some(remote) => Ok(take(remote, limit)),
                None => Err(refused()),
            }
        }
    }
}

fn remote_step(level: DebugLevel, limit: usize) -> Stage {
    Stage::Tcp(TcpStep {
        address: "127.0.0.1".to_string(),
        port: 7,
        connection: NO_DESCRIPTOR,
        debug_level: level,
        buffer_size: limit,
    })
}

fn local_step(mode: StdoutMode, level: DebugLevel) -> Stage {
    Stage::Stdio(StdioStep { stdout_mode: mode, debug_level: level, buffer_size: 64 })
}

/// Carries out the actions of a stream or framed entry until none is left.
fn settle(world: &mut World, open: &mut Connections<Stage>, token: usize, actions: Vec<Action>) {
    let mut pending: VecDeque<Action> = actions.into();
    while let Some(action) = pending.pop_front() {
        let next = match action {
            Action::Accept => Vec::new(),
            Action::ReadClient { limit } => {
                let queue = world.from_client.entry(token).or_default();
                let received = if queue.is_empty() { Err(would_block()) } else { Ok(take(queue, limit)) };
                open.on_client_read(token, received)
            }
            Action::WritePipeline { writes, failure } => {
                let outcome = written(write_all(world, &writes), failure);
                open.on_pipeline_written(token, outcome)
            }
            Action::ReadPipeline { request } => {
                let received = read_for(world, request);
                open.on_pipeline_read(token, received)
            }
            Action::WriteBackward { writes } => {
                let outcome = write_all(world, &writes);
                open.on_backward_written(token, outcome)
            }
            Action::WriteClient { bytes } => {
                let count = bytes.len();
                world.to_client.entry(ingress_of(token).unwrap()).or_default().extend(bytes);
                open.on_client_written(token, Ok(count))
            }
            Action::Log(notice) => {
                world.log.push(notice.text());
                Vec::new()
            }
            Action::Close => {
                if let Some(gone) = open.close(token) {
                    world.closed.push(gone.token);
                }
                Vec::new()
            }
            Action::Fail(e) => panic!("the entry has failed: {}", e.describe()),
        };
        pending.extend(next);
    }
}

/// Carries out the actions of a line entry until none is left. Returns
/// whether the connection was closed.
fn settle_line(world: &mut World, entry: &mut StdioEntry, actions: Vec<Action>) -> bool {
    let mut pending: VecDeque<Action> = actions.into();
    let mut closed = false;
    let level = entry.debug_level;
    while let Some(action) = pending.pop_front() {
        let next = match action {
            Action::Accept => Vec::new(),
            Action::ReadClient { limit } => {
                let received = Ok(take(&mut world.stdin, limit));
                entry.context.on_client_read(limit, received, level)
            }
            Action::WritePipeline { writes, failure } => {
                let outcome = written(write_all(world, &writes), failure);
                entry.context.on_pipeline_written(outcome, level)
            }
            Action::ReadPipeline { request } => {
                let received = read_for(world, request);
                entry.context.on_pipeline_read(received, level)
            }
            Action::WriteBackward { writes } => {
                let outcome = write_all(world, &writes);
                entry.context.on_backward_written(outcome, level)
            }
            Action::WriteClient { bytes } => {
                let count = bytes.len();
                world.stdout.extend(bytes);
                entry.context.on_client_written(Ok(count), level)
            }
            Action::Log(notice) => {
                world.log.push(notice.text());
                Vec::new()
            }
            Action::Close => {
                closed = true;
                Vec::new()
            }
            Action::Fail(e) => panic!("the entry has failed: {}", e.describe()),
        };
        pending.extend(next);
    }
    closed
}

fn accept_client(world: &mut World, open: &mut Connections<Stage>, descriptor: i32) -> usize {
    assert_eq!(open.on_ready(SERVER_TOKEN, true, false), vec![Action::Accept]);
    world.echoes.insert(descriptor, VecDeque::new());
    let accepted = open.accept(&vec![descriptor]).unwrap();
    assert_eq!(accepted.descriptor, descriptor);
    accepted.token
}

fn client_sends(world: &mut World, open: &mut Connections<Stage>, token: usize, bytes: &[u8]) {
    world.from_client.entry(token).or_default().extend(bytes);
    let actions = open.on_ready(token, true, true);
    settle(world, open, token, actions);
}

fn upstream_answers(world: &mut World, open: &mut Connections<Stage>, token: usize) {
    let actions = open.on_ready(token + 1, true, true);
    settle(world, open, token + 1, actions);
}

#[test]
fn stdio_echo() {
    let mut pipeline = Pipeline::new();
    pipeline.add_step(local_step(StdoutMode::Forward, DebugLevel::Silent));
    let mut entry = StdioEntry::configure(Some("8192".to_string()), pipeline, DebugLevel::Silent).unwrap();
    let mut host = world();
    host.stdin.extend(b"hello\n");
    let actions = entry.on_ready(STDIN_TOKEN, true, false);
    assert!(!settle_line(&mut host, &mut entry, actions));
    assert_eq!(host.stdout, b"hello\n".to_vec());
    assert!(entry.context.connection_buf.is_empty());
    let actions = entry.on_ready(STDIN_TOKEN, true, false);
    assert!(settle_line(&mut host, &mut entry, actions));
    assert_eq!(host.stdout, b"hello\n".to_vec());
    assert!(host.log.is_empty());
}

#[test]
fn stdio_to_tcp_echo() {
    let mut pipeline = Pipeline::new();
    pipeline.add_step(remote_step(DebugLevel::Silent, 8192));
    let mut entry = StdioEntry::configure(Some("8192".to_string()), pipeline, DebugLevel::Silent).unwrap();
    let mut host = world();
    host.echoes.insert(10, VecDeque::new());
    assert!(entry.context.pipeline.attach(0, 10));
    let registered = entry.listen().pipeline.unwrap();
    assert_eq!((registered.token, registered.descriptor), (PIPELINE_TOKEN, 10));
    host.stdin.extend(b"PING");
    let actions = entry.on_ready(STDIN_TOKEN, true, false);
    assert!(!settle_line(&mut host, &mut entry, actions));
    assert!(host.stdout.is_empty());
    let actions = entry.on_ready(PIPELINE_TOKEN, true, false);
    assert!(!settle_line(&mut host, &mut entry, actions));
    assert_eq!(host.stdout, b"PING".to_vec());
    assert!(entry.context.pipeline_buf.is_empty());
}

#[test]
fn tcp_pass_through() {
    let mut template = Pipeline::new();
    template.add_step(remote_step(DebugLevel::Silent, 8192));
    let mut open = Connections::new(template, 8192, DebugLevel::Silent);
    let mut host = world();
    let client = accept_client(&mut host, &mut open, 20);
    client_sends(&mut host, &mut open, client, b"abcd");
    upstream_answers(&mut host, &mut open, client);
    assert_eq!(host.to_client.get(&client), Some(&b"abcd".to_vec()));
    assert!(host.log.is_empty());
    assert!(host.closed.is_empty());
}

#[test]
fn two_concurrent_clients() {
    let mut template = Pipeline::new();
    template.add_step(remote_step(DebugLevel::Silent, 3));
    let mut open = Connections::new(template, 3, DebugLevel::Silent);
    let mut host = world();
    let first = accept_client(&mut host, &mut open, 20);
    let second = accept_client(&mut host, &mut open, 21);
    assert_ne!(first, second);
    for round in 0..4 {
        client_sends(&mut host, &mut open, first, b"aaaaaaaaaa");
        client_sends(&mut host, &mut open, second, b"bbbbbbbbbb");
        if round % 2 == 0 {
            upstream_answers(&mut host, &mut open, second);
            upstream_answers(&mut host, &mut open, first);
        } else {
            upstream_answers(&mut host, &mut open, first);
            upstream_answers(&mut host, &mut open, second);
        }
    }
    for _ in 0..40 {
        client_sends(&mut host, &mut open, first, b"");
        client_sends(&mut host, &mut open, second, b"");
        upstream_answers(&mut host, &mut open, first);
        upstream_answers(&mut host, &mut open, second);
    }
    let to_first = host.to_client.get(&first).unwrap();
    let to_second = host.to_client.get(&second).unwrap();
    assert_eq!(to_first, &vec![b'a'; 40]);
    assert_eq!(to_second, &vec![b'b'; 40]);
    assert!(host.closed.is_empty());
}

#[test]
fn bad_upstream() {
    let mut template = Pipeline::new();
    template.add_step(remote_step(DebugLevel::Crit, 8192));
    let mut open = Connections::new(template, 8192, DebugLevel::Crit);
    let mut host = world();
    assert_eq!(open.on_ready(SERVER_TOKEN, true, false), vec![Action::Accept]);
    let actions = open.on_connect_failed(refused());
    assert_eq!(actions, vec![Action::Log(Notice::Connecting(refused()))]);
    settle(&mut host, &mut open, SERVER_TOKEN, actions);
    assert_eq!(
        host.log,
        vec!["an error accured connecting pipeline: connection refused".to_string()]
    );
    assert!(open.context_mut(1).is_none());
    let client = accept_client(&mut host, &mut open, 20);
    assert_eq!(client, 1);
    client_sends(&mut host, &mut open, client, b"abcd");
    upstream_answers(&mut host, &mut open, client);
    assert_eq!(host.to_client.get(&client), Some(&b"abcd".to_vec()));

    let quiet: Connections<Stage> = Connections::new(Pipeline::new(), 1, DebugLevel::Silent);
    assert_eq!(quiet.on_connect_failed(refused()), Vec::new());
}

#[test]
fn upstream_that_goes_away_is_reported_and_the_entry_goes_on() {
    let mut template = Pipeline::new();
    template.add_step(remote_step(DebugLevel::Crit, 8192));
    let mut open = Connections::new(template, 8192, DebugLevel::Crit);
    let mut host = world();
    let first = accept_client(&mut host, &mut open, 20);
    host.echoes.remove(&20);
    client_sends(&mut host, &mut open, first, b"lost");
    assert_eq!(
        host.log,
        vec!["an error accured writing pipeline: connection refused".to_string()]
    );
    assert!(host.closed.is_empty());
    assert_eq!(open.context_mut(first).unwrap().connection_buf, b"lost".to_vec());
    let second = accept_client(&mut host, &mut open, 21);
    client_sends(&mut host, &mut open, second, b"abcd");
    upstream_answers(&mut host, &mut open, second);
    assert_eq!(host.to_client.get(&second), Some(&b"abcd".to_vec()));
}

#[test]
fn http_framed_request() {
    let mut template = Pipeline::new();
    template.add_step(remote_step(DebugLevel::Silent, 8192));
    let mut entry = kproxy::HttpEntry::configure(
        Some("127.0.0.1".to_string()),
        Some("0".to_string()),
        Some("8192".to_string()),
        template,
        DebugLevel::Silent,
    )
    .unwrap();
    let mut host = world();
    let request = accept_client(&mut host, &mut entry.connections, 30);
    client_sends(&mut host, &mut entry.connections, request, b"xyz");
    upstream_answers(&mut host, &mut entry.connections, request);
    assert_eq!(host.to_client.get(&request), Some(&b"xyz".to_vec()));
    client_sends(&mut host, &mut entry.connections, request, b"");
    assert!(host.closed.is_empty());
    host.from_client.get_mut(&request).unwrap().clear();
    let actions = entry.connections.on_client_read(request, Ok(Vec::new()));
    settle(&mut host, &mut entry.connections, request, actions);
    assert_eq!(host.closed, vec![request]);
    assert!(entry.connections.context_mut(request).is_none());
}

#[test]
fn would_block_from_a_step_keeps_the_loop_going() {
    let mut template = Pipeline::new();
    template.add_step(local_step(StdoutMode::Neither, DebugLevel::Info));
    template.add_step(remote_step(DebugLevel::Info, 8192));
    let mut open = Connections::new(template, 8192, DebugLevel::Info);
    let mut host = world();
    assert_eq!(open.on_ready(SERVER_TOKEN, true, false), vec![Action::Accept]);
    host.echoes.insert(20, VecDeque::new());
    let client = open.accept(&vec![NO_DESCRIPTOR, 20]).unwrap().token;
    upstream_answers(&mut host, &mut open, client);
    upstream_answers(&mut host, &mut open, client);
    assert!(host.log.is_empty());
    assert!(host.closed.is_empty());
    assert!(open.context_mut(client).is_some());
    client_sends(&mut host, &mut open, client, b"ok");
    assert!(open.context_mut(client).unwrap().connection_buf.is_empty());
}

#[test]
fn bytes_held_back_by_a_busy_upstream_arrive_later() {
    let mut template = Pipeline::new();
    template.add_step(remote_step(DebugLevel::Silent, 8192));
    let mut open = Connections::new(template, 8192, DebugLevel::Silent);
    let mut host = world();
    let client = accept_client(&mut host, &mut open, 20);
    let actions = open.on_client_read(client, Ok(b"late".to_vec()));
    assert_eq!(actions.len(), 1);
    assert_eq!(open.on_pipeline_written(client, Err(would_block())), Vec::new());
    assert!(host.echoes.get(&20).unwrap().is_empty());
    let actions = open.on_ready(client + 1, false, true);
    settle(&mut host, &mut open, client + 1, actions);
    assert_eq!(host.echoes.get(&20).unwrap(), &VecDeque::from(b"late".to_vec()));
    assert!(open.context_mut(client).unwrap().connection_buf.is_empty());
    upstream_answers(&mut host, &mut open, client);
    assert_eq!(host.to_client.get(&client), Some(&b"late".to_vec()));
}
