use kproxy::base::{
    DebugLevel, Emission, Endpoint, Error, IoFailure, ReadRequest, Step, NO_DESCRIPTOR,
};
use kproxy::pipeline::Pipeline;
use kproxy::stage::{remotes, Stage, StepKind};
use kproxy::stdio::{StdioStep, StdoutMode};
use kproxy::tcp::TcpStep;

fn stdio(mode: StdoutMode) -> Stage {
    Stage::Stdio(StdioStep { stdout_mode: mode, debug_level: DebugLevel::Silent, buffer_size: 8 })
}

fn tcp(descriptor: i32) -> Stage {
    Stage::Tcp(TcpStep {
        address: "localhost".to_string(),
        port: 9000,
        connection: descriptor,
        debug_level: DebugLevel::Silent,
        buffer_size: 8,
    })
}

fn out(bytes: &[u8]) -> Emission {
    Emission { sink: Endpoint::Stdout, bytes: bytes.to_vec() }
}

fn to(descriptor: i32, bytes: &[u8]) -> Emission {
    Emission { sink: Endpoint::Descriptor(descriptor), bytes: bytes.to_vec() }
}

fn broken() -> Error {
    Error::IoError(IoFailure { would_block: false, message: "broken pipe".to_string() })
}

fn pipeline(steps: Vec<Stage>) -> Pipeline<Stage> {
    let mut pipeline = Pipeline::new();
    for step in steps {
        pipeline.add_step(step);
    }
    pipeline
}

#[test]
fn steps_are_kept_in_the_order_of_their_addition() {
    let mut line: Pipeline<Stage> = Pipeline::new();
    assert_eq!(line.len(), 0);
    assert!(line.get(0).is_none());
    line.add_step(stdio(StdoutMode::Forward));
    line.add_step(tcp(4));
    assert_eq!(line.len(), 2);
    assert_eq!(line.get(0).unwrap().kind(), StepKind::Stdio);
    assert_eq!(line.get(1).unwrap().kind(), StepKind::Tcp);
    assert!(line.get(2).is_none());
    assert_eq!(line.iter_forwad(), vec![0, 1]);
    assert_eq!(line.iter_backward(), vec![1, 0]);
    assert_eq!(Pipeline::<Stage>::new().iter_backward(), Vec::<usize>::new());
}

#[test]
fn descriptor_of_a_pipeline_is_that_of_its_last_step() {
    assert_eq!(pipeline(vec![tcp(4)]).as_raw_fd(), 4);
    assert_eq!(pipeline(vec![stdio(StdoutMode::Both), tcp(12)]).as_raw_fd(), 12);
    assert_eq!(pipeline(vec![tcp(12), tcp(13), tcp(14)]).as_raw_fd(), 14);
    assert_eq!(pipeline(vec![tcp(12), stdio(StdoutMode::Both)]).as_raw_fd(), NO_DESCRIPTOR);
}

#[test]
fn forward_drive_threads_bytes_through_the_steps_in_order() {
    let mut line = pipeline(vec![stdio(StdoutMode::Forward), tcp(4), tcp(6)]);
    let mut writes = Vec::new();
    assert_eq!(line.write_pipeline(b"abcd".to_vec(), &mut writes), Ok(()));
    assert_eq!(writes, vec![out(b"abcd"), to(4, b"abcd"), to(6, b"abcd")]);
    let mut more = vec![out(b"earlier")];
    assert_eq!(line.drive_forward(b"x".to_vec(), &mut more), Ok(b"x".to_vec()));
    assert_eq!(more, vec![out(b"earlier"), out(b"x"), to(4, b"x"), to(6, b"x")]);
}

#[test]
fn forward_drive_through_no_step_passes_the_bytes_on() {
    let mut line: Pipeline<Stage> = Pipeline::new();
    let mut writes = Vec::new();
    assert_eq!(line.drive_forward(b"q".to_vec(), &mut writes), Ok(b"q".to_vec()));
    assert!(writes.is_empty());
}

#[test]
fn backward_drive_runs_the_steps_in_reverse() {
    let mut line = pipeline(vec![stdio(StdoutMode::Backward), tcp(4)]);
    let mut writes = Vec::new();
    let drained = line.read_pipeline(
        vec![Ok(b"typed".to_vec()), Ok(b"reply".to_vec())],
        &mut writes,
    );
    assert_eq!(drained, Ok(b"typed".to_vec()));
    assert_eq!(writes, vec![out(b"reply")]);
}

#[test]
fn backward_drive_of_one_remote_step_returns_what_the_remote_sent() {
    let mut line = pipeline(vec![tcp(4)]);
    let mut writes = Vec::new();
    assert_eq!(line.read_pipeline(vec![Ok(b"PING".to_vec())], &mut writes), Ok(b"PING".to_vec()));
    assert!(writes.is_empty());
}

#[test]
fn failed_step_ends_the_backward_drive() {
    let mut line = pipeline(vec![stdio(StdoutMode::Backward), stdio(StdoutMode::Backward), tcp(4)]);
    let mut writes = Vec::new();
    let drained = line.read_pipeline(
        vec![Ok(b"never".to_vec()), Err(broken()), Ok(b"reply".to_vec())],
        &mut writes,
    );
    assert_eq!(drained, Err(broken()));
    assert_eq!(writes, vec![out(b"reply")]);
}

#[test]
fn backward_drive_wants_one_outcome_for_each_step() {
    let mut line = pipeline(vec![tcp(4), tcp(5)]);
    let mut writes = Vec::new();
    assert_eq!(line.read_pipeline(vec![Ok(Vec::new())], &mut writes), Err(Error::Unknown));
    assert_eq!(line.read_pipeline(Vec::new(), &mut writes), Err(Error::Unknown));
    assert!(writes.is_empty());
    let mut none: Pipeline<Stage> = Pipeline::new();
    assert_eq!(none.read_pipeline(Vec::new(), &mut writes), Ok(Vec::new()));
}

#[test]
fn backward_drive_from_a_seed() {
    let mut line = pipeline(vec![stdio(StdoutMode::Backward)]);
    let mut writes = Vec::new();
    let drained = line.drive_backward(b"seed".to_vec(), vec![Ok(b"in".to_vec())], &mut writes);
    assert_eq!(drained, Ok(b"in".to_vec()));
    assert_eq!(writes, vec![out(b"seed")]);
}

#[test]
fn backward_drive_step_by_step() {
    let mut line = pipeline(vec![stdio(StdoutMode::Both), tcp(4)]);
    let mut writes = Vec::new();
    let mut drain = line.begin_drain();
    assert_eq!(drain.pending, 2);
    assert!(drain.carried.is_empty());
    assert!(!drain.is_finished());
    assert_eq!(
        line.next_read(&drain),
        Some(ReadRequest { source: Endpoint::Descriptor(4), limit: 8 })
    );
    assert_eq!(line.drain_step(&mut drain, Ok(b"far".to_vec()), &mut writes), Ok(()));
    assert_eq!(drain.pending, 1);
    assert_eq!(drain.carried, b"far".to_vec());
    assert!(writes.is_empty());
    assert_eq!(line.next_read(&drain), Some(ReadRequest { source: Endpoint::Stdin, limit: 8 }));
    assert_eq!(line.drain_step(&mut drain, Ok(b"near".to_vec()), &mut writes), Ok(()));
    assert_eq!(writes, vec![out(b"far")]);
    assert!(drain.is_finished());
    assert_eq!(line.next_read(&drain), None);
    assert_eq!(line.drain_step(&mut drain, Ok(Vec::new()), &mut writes), Err(Error::Unknown));
    assert_eq!(drain.into_bytes(), b"near".to_vec());
}

#[test]
fn failed_drain_step_leaves_the_drive_where_it_was() {
    let mut line = pipeline(vec![tcp(4)]);
    let mut writes = Vec::new();
    let mut drain = line.begin_drain();
    assert_eq!(line.drain_step(&mut drain, Err(broken()), &mut writes), Err(broken()));
    assert_eq!(drain.pending, 1);
    assert!(drain.carried.is_empty());
}

#[test]
fn clone_has_the_same_steps_without_their_descriptors() {
    let source = pipeline(vec![stdio(StdoutMode::Forward), tcp(4), tcp(5)]);
    let copy = source.clone();
    assert_eq!(copy.len(), 3);
    assert_eq!(copy.get(0), Some(&stdio(StdoutMode::Forward)));
    assert_eq!(copy.get(1), Some(&tcp(NO_DESCRIPTOR)));
    assert_eq!(copy.get(2), Some(&tcp(NO_DESCRIPTOR)));
    assert_eq!(source.get(1), Some(&tcp(4)));
    assert_eq!(source.as_raw_fd(), 5);
}

#[test]
fn clones_are_independent() {
    let template = pipeline(vec![tcp(NO_DESCRIPTOR)]);
    let mut first = template.clone();
    let mut second = template.clone();
    assert!(first.attach(0, 21));
    assert!(second.attach(0, 22));
    assert!(!second.attach(1, 23));
    assert_eq!(first.as_raw_fd(), 21);
    assert_eq!(second.as_raw_fd(), 22);
    assert_eq!(template.as_raw_fd(), NO_DESCRIPTOR);
    let mut writes = Vec::new();
    assert_eq!(first.write_pipeline(b"one".to_vec(), &mut writes), Ok(()));
    assert_eq!(second.write_pipeline(b"two".to_vec(), &mut writes), Ok(()));
    assert_eq!(writes, vec![to(21, b"one"), to(22, b"two")]);
}

#[test]
fn attach_all_hands_each_step_its_descriptor() {
    let mut line = pipeline(vec![stdio(StdoutMode::Forward), tcp(1), tcp(2)]);
    line.attach_all(&vec![30, 31]);
    assert_eq!(line.get(0).unwrap().as_raw_fd(), NO_DESCRIPTOR);
    assert_eq!(line.get(1).unwrap().as_raw_fd(), 31);
    assert_eq!(line.get(2).unwrap().as_raw_fd(), 2);
    line.attach_all(&vec![40, 41, 42, 43]);
    assert_eq!(line.get(1).unwrap().as_raw_fd(), 41);
    assert_eq!(line.get(2).unwrap().as_raw_fd(), 42);
}

#[test]
fn stage_knows_its_remote() {
    assert_eq!(stdio(StdoutMode::Both).remote(), None);
    assert_eq!(tcp(3).remote(), Some(("localhost".to_string(), 9000)));
}

#[test]
fn pipeline_lists_its_descriptors_and_remotes() {
    let line = pipeline(vec![stdio(StdoutMode::Forward), tcp(4), tcp(5)]);
    assert_eq!(line.descriptors(), vec![NO_DESCRIPTOR, 4, 5]);
    assert_eq!(
        remotes(&line),
        vec![
            None,
            Some(("localhost".to_string(), 9000)),
            Some(("localhost".to_string(), 9000)),
        ]
    );
    assert_eq!(Pipeline::<Stage>::new().descriptors(), Vec::<i32>::new());
    assert_eq!(remotes(&Pipeline::new()), Vec::new());
}
