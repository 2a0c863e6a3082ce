//! What every component shares: the error taxonomy, the verbosity levels,
//! the reads and writes that a step asks the host for, and the contract of
//! a step.

use vstd::prelude::*;
use vstd::string::{StrSliceExecFns, StringSliceAdditionalSpecFns};
use cliparser::types::{CliParsed, CliSpec};
use crate::options::{declared_options, OptionSpecView};

verus! {

/// How much a component reports about what it does.
#[derive(Clone, Copy, Debug, PartialEq, Eq, Structural)]
pub enum DebugLevel {
    /// Nothing is reported.
    Silent,
    /// Critical conditions only.
    Crit,
    /// Warnings as well; each accepted connection is announced.
    Warn,
    /// Everything; each step dumps the bytes it handles.
    Info,
}

impl DebugLevel {
    /// The number a level is configured by: 0 for `Silent` up to 3 for `Info`.
    pub open spec fn rank(self) -> int {
        match self {
            DebugLevel::Silent => 0,
            DebugLevel::Crit => 1,
            DebugLevel::Warn => 2,
            DebugLevel::Info => 3,
        }
    }

    /// The level that a configured number selects. Numbers outside 0..=3
    /// select the most verbose level.
    pub open spec fn of_rank(value: int) -> DebugLevel {
        if value == 0 {
            DebugLevel::Silent
        } else if value == 1 {
            DebugLevel::Crit
        } else if value == 2 {
            DebugLevel::Warn
        } else {
            DebugLevel::Info
        }
    }

    /// The number of this level.
    pub fn level(&self) -> (n: i32)
        ensures
            n == self.rank(),
    {
        match self {
            DebugLevel::Silent => 0,
            DebugLevel::Crit => 1,
            DebugLevel::Warn => 2,
            DebugLevel::Info => 3,
        }
    }

    /// Whether this level is at least as verbose as the level numbered
    /// `threshold`.
    pub fn at_least(&self, threshold: i32) -> (b: bool)
        ensures
            b == (self.rank() >= threshold),
    {
        self.level() >= threshold
    }
}

impl PartialEq<i32> for DebugLevel {
    /// Whether this level has the number `other`.
    fn eq(&self, other: &i32) -> (same: bool) {
        self.level() == *other
    }
}

impl vstd::std_specs::cmp::PartialEqSpecImpl<i32> for DebugLevel {
    open spec fn obeys_eq_spec() -> bool {
        true
    }

    open spec fn eq_spec(&self, other: &i32) -> bool {
        self.rank() == *other
    }
}

impl PartialOrd<i32> for DebugLevel {
    /// How the number of this level compares with `other`.
    fn partial_cmp(&self, other: &i32) -> (order: Option<core::cmp::Ordering>) {
        let number = self.level();
        if number < *other {
            Some(core::cmp::Ordering::Less)
        } else if number > *other {
            Some(core::cmp::Ordering::Greater)
        } else {
            Some(core::cmp::Ordering::Equal)
        }
    }
}

impl vstd::std_specs::cmp::PartialOrdSpecImpl<i32> for DebugLevel {
    open spec fn obeys_partial_cmp_spec() -> bool {
        true
    }

    open spec fn partial_cmp_spec(&self, other: &i32) -> Option<core::cmp::Ordering> {
        if self.rank() < *other {
            Some(core::cmp::Ordering::Less)
        } else if self.rank() > *other {
            Some(core::cmp::Ordering::Greater)
        } else {
            Some(core::cmp::Ordering::Equal)
        }
    }
}

impl From<i32> for DebugLevel {
    fn from(value: i32) -> (level: DebugLevel) {
        match value {
            0 => DebugLevel::Silent,
            1 => DebugLevel::Crit,
            2 => DebugLevel::Warn,
            _ => DebugLevel::Info,
        }
    }
}

impl vstd::std_specs::convert::FromSpecImpl<i32> for DebugLevel {
    open spec fn obeys_from_spec() -> bool {
        true
    }

    open spec fn from_spec(value: i32) -> DebugLevel {
        DebugLevel::of_rank(value as int)
    }
}

/// A failed read or write, as the host reports it.
#[derive(Clone, Debug, PartialEq, Eq)]
pub struct IoFailure {
    /// The operation would have blocked: nothing is wrong, the same
    /// operation can be tried again at the next readiness event.
    pub would_block: bool,
    /// The host's description of the failure.
    pub message: String,
}

/// What the contracts see of an [`IoFailure`].
pub struct IoFailureView {
    pub would_block: bool,
    pub message: Seq<char>,
}

impl View for IoFailure {
    type V = IoFailureView;

    open spec fn view(&self) -> IoFailureView {
        IoFailureView { would_block: self.would_block, message: self.message@ }
    }
}

/// Everything that can go wrong in the proxy.
#[allow(non_camel_case_types)]
#[derive(Clone, Debug, PartialEq, Eq)]
pub enum Error {
    /// A failure described in words only.
    Msg(String),
    /// A read or write failed.
    IoError(IoFailure),
    /// An invariant that the library relies on was broken.
    Unknown,
    /// A required option is missing; the payload names it.
    RequireOption(String),
    /// An option that must be a number is not one.
    ParseIntError,
    /// A literal address could not be parsed.
    AddrParseError(String),
    /// The framing library of the request/response entry failed.
    H2_error(String),
}

/// What the contracts see of an [`Error`].
#[allow(non_camel_case_types)]
pub enum ErrorView {
    Msg(Seq<char>),
    IoError(IoFailureView),
    Unknown,
    RequireOption(Seq<char>),
    ParseIntError,
    AddrParseError(Seq<char>),
    H2_error(Seq<char>),
}

impl View for Error {
    type V = ErrorView;

    open spec fn view(&self) -> ErrorView {
        match self {
            Error::Msg(m) => ErrorView::Msg(m@),
            Error::IoError(e) => ErrorView::IoError(e@),
            Error::Unknown => ErrorView::Unknown,
            Error::RequireOption(name) => ErrorView::RequireOption(name@),
            Error::ParseIntError => ErrorView::ParseIntError,
            Error::AddrParseError(m) => ErrorView::AddrParseError(m@),
            Error::H2_error(m) => ErrorView::H2_error(m@),
        }
    }
}

impl ErrorView {
    /// A transient failure: the operation would have blocked.
    pub open spec fn is_transient(self) -> bool {
        self matches ErrorView::IoError(e) && e.would_block
    }

    /// A fatal failure: an invariant that the library relies on was
    /// broken.
    pub open spec fn is_fatal(self) -> bool {
        self is Unknown
    }

    /// The words that describe an error.
    pub open spec fn describe(self) -> Seq<char> {
        match self {
            ErrorView::Msg(m) => m,
            ErrorView::IoError(e) => e.message,
            ErrorView::Unknown => "Unknown Error"@,
            ErrorView::RequireOption(name) => name,
            ErrorView::ParseIntError => "Parse Int Error"@,
            ErrorView::AddrParseError(m) => m,
            ErrorView::H2_error(m) => m,
        }
    }
}

impl Error {
    /// The words that describe this error: its message where it carries
    /// one, the name of the option that is missing, or a fixed phrase.
    pub fn describe(&self) -> (words: String)
        ensures
            words@ == self@.describe(),
    {
        match self {
            Error::Msg(m) => m.clone(),
            Error::IoError(e) => e.message.clone(),
            Error::Unknown => "Unknown Error".to_owned(),
            Error::RequireOption(name) => name.clone(),
            Error::ParseIntError => "Parse Int Error".to_owned(),
            Error::AddrParseError(m) => m.clone(),
            Error::H2_error(m) => m.clone(),
        }
    }

    /// Whether this is the fatal kind, which ends the entry: the failure of
    /// an invariant.
    pub fn is_fatal(&self) -> (b: bool)
        ensures
            b == self@.is_fatal(),
    {
        match self {
            Error::Unknown => true,
            _ => false,
        }
    }

    /// Whether this is the transient kind, which the event loop passes over
    /// in silence: a read or write that would have blocked.
    pub fn is_transient(&self) -> (b: bool)
        ensures
            b == self@.is_transient(),
    {
        match self {
            Error::IoError(e) => e.would_block,
            _ => false,
        }
    }
}

/// The descriptor of a step that holds none: a handle that never becomes
/// ready.
pub const NO_DESCRIPTOR: i32 = -1;

/// A place that bytes are read from or written to on behalf of a step.
#[derive(Clone, Copy, Debug, PartialEq, Eq, Structural)]
pub enum Endpoint {
    /// The standard input of the process.
    Stdin,
    /// The standard output of the process.
    Stdout,
    /// The socket or file that the host knows by this descriptor.
    Descriptor(i32),
}

/// A write that the host is asked to perform: all of `bytes`, to `sink`.
#[derive(Clone, Debug, PartialEq, Eq)]
pub struct Emission {
    pub sink: Endpoint,
    pub bytes: Vec<u8>,
}

/// What the contracts see of an [`Emission`].
pub struct EmissionView {
    pub sink: Endpoint,
    pub bytes: Seq<u8>,
}

impl View for Emission {
    type V = EmissionView;

    open spec fn view(&self) -> EmissionView {
        EmissionView { sink: self.sink, bytes: self.bytes@ }
    }
}

/// The writes of a journal, in the order in which they were asked for.
pub open spec fn writes_of(journal: Seq<Emission>) -> Seq<EmissionView> {
    Seq::new(journal.len(), |i: int| journal[i]@)
}

/// A read that the host is asked to perform: at most `limit` bytes, from
/// `source`.
#[derive(Clone, Copy, Debug, PartialEq, Eq, Structural)]
pub struct ReadRequest {
    pub source: Endpoint,
    pub limit: usize,
}

/// What the contracts see of the outcome of a read.
pub open spec fn received_view(received: Result<Vec<u8>, Error>) -> Result<Seq<u8>, ErrorView> {
    match received {
        Ok(bytes) => Ok(bytes@),
        Err(e) => Err(e@),
    }
}

/// What a step does with the bytes handed to it: what becomes of the step,
/// the writes it asks for, and the bytes it passes on, unless it fails.
pub struct Passage<S> {
    pub step: S,
    pub writes: Seq<EmissionView>,
    pub outcome: Result<Seq<u8>, ErrorView>,
}

/// Makes an independent step of the same configuration.
pub trait BoxedClone: Sized {
    /// The step that a clone is: the same configuration, and none of the
    /// descriptors of the step that was cloned.
    spec fn detached(&self) -> Self;

    /// An independent step of the same configuration. It owns no
    /// descriptor until the host attaches one.
    fn bclone(&self) -> (copy: Self)
        ensures
            copy == self.detached(),
    ;
}

/// One stage of a pipeline: it handles bytes on their way forward, from the
/// ingress toward the far end, and on their way backward.
///
/// A step performs no I/O itself. The writes it wants are appended to a
/// journal that the host carries out in order; what the host has read on
/// the step's behalf is handed to `process_data_backward`.
pub trait Step: BoxedClone {
    /// The handle that is polled for readiness on behalf of this step.
    spec fn descriptor(&self) -> i32;

    /// The read that precedes the backward operation of this step, if any.
    spec fn intake(&self) -> Option<ReadRequest>;

    /// The step holding the descriptor `descriptor`.
    spec fn attached(&self, descriptor: i32) -> Self;

    /// What the forward operation does with `data`.
    spec fn forward_model(&self, data: Seq<u8>) -> Passage<Self>;

    /// What the backward operation does with `data`, when the read of
    /// `intake` came to `received`.
    spec fn backward_model(
        &self,
        data: Seq<u8>,
        received: Result<Seq<u8>, ErrorView>,
    ) -> Passage<Self>;

    /// The handle that is polled for readiness on behalf of this step.
    fn as_raw_fd(&self) -> (fd: i32)
        ensures
            fd == self.descriptor(),
    ;

    /// The read that the host performs before each backward operation.
    fn read_request(&self) -> (request: Option<ReadRequest>)
        ensures
            request == self.intake(),
    ;

    /// Hands the step a descriptor of its own.
    fn attach(&mut self, descriptor: i32)
        ensures
            *final(self) == old(self).attached(descriptor),
    ;

    /// Handles bytes flowing forward and returns the bytes for the next
    /// step. The writes that the step asks for are appended to `writes`.
    fn process_data_forward(
        &mut self,
        data: &mut Vec<u8>,
        writes: &mut Vec<Emission>,
    ) -> (passed: Result<Vec<u8>, Error>)
        ensures
            final(data)@ == old(data)@,
            *final(self) == old(self).forward_model(old(data)@).step,
            writes_of(final(writes)@) == writes_of(old(writes)@) + old(self).forward_model(
                old(data)@,
            ).writes,
            received_view(passed) == old(self).forward_model(old(data)@).outcome,
    ;

    /// Handles bytes flowing backward and returns the bytes for the
    /// previous step. `received` is what came of the read of
    /// `read_request`. The writes that the step asks for are appended to
    /// `writes`.
    fn process_data_backward(
        &mut self,
        data: &mut Vec<u8>,
        received: Result<Vec<u8>, Error>,
        writes: &mut Vec<Emission>,
    ) -> (passed: Result<Vec<u8>, Error>)
        ensures
            final(data)@ == old(data)@,
            *final(self) == old(self).backward_model(old(data)@, received_view(received)).step,
            writes_of(final(writes)@) == writes_of(old(writes)@) + old(self).backward_model(
                old(data)@,
                received_view(received),
            ).writes,
            received_view(passed) == old(self).backward_model(
                old(data)@,
                received_view(received),
            ).outcome,
    ;
}

/// The line that opens the dump of bytes on their way forward.
pub const FORWARD_OPENING: &'static str = "\n++++++++++++++++++++++++++++++++++";

/// The line that opens the dump of bytes on their way backward.
pub const BACKWARD_OPENING: &'static str = "\n++++++++++++++++++++++++++++++++++\n";

/// The line of plus signs that closes a dump.
pub const DUMP_CLOSING: &'static str = "++++++++++++++++++++++++++++++++++\n";

/// The write of `bytes` to the standard output.
pub open spec fn to_stdout(bytes: Seq<u8>) -> EmissionView {
    EmissionView { sink: Endpoint::Stdout, bytes }
}

/// The bracketed dump of `data` that a step emits at the most verbose
/// level: an opening line, a label that names the step and the direction,
/// the bytes themselves and a closing line, each a write to the standard
/// output.
pub open spec fn dump_model(opening: &str, label: &str, data: Seq<u8>) -> Seq<EmissionView> {
    seq![
        to_stdout(opening.spec_bytes()),
        to_stdout(label.spec_bytes()),
        to_stdout(data),
        to_stdout(DUMP_CLOSING.spec_bytes()),
    ]
}

/// Appends one write to a journal.
pub fn emit(writes: &mut Vec<Emission>, sink: Endpoint, bytes: Vec<u8>)
    ensures
        writes_of(final(writes)@) == writes_of(old(writes)@).push(
            EmissionView { sink, bytes: bytes@ },
        ),
{
    writes.push(Emission { sink, bytes });
    assert(writes_of(writes@) =~= writes_of(old(writes)@).push(
        EmissionView { sink, bytes: bytes@ },
    ));
}

/// Appends the bracketed dump of `data` to a journal.
pub fn dump(opening: &str, label: &str, data: &Vec<u8>, writes: &mut Vec<Emission>)
    ensures
        writes_of(final(writes)@) == writes_of(old(writes)@) + dump_model(opening, label, data@),
{
    emit(writes, Endpoint::Stdout, opening.as_bytes_vec());
    emit(writes, Endpoint::Stdout, label.as_bytes_vec());
    emit(writes, Endpoint::Stdout, data.clone());
    emit(writes, Endpoint::Stdout, DUMP_CLOSING.as_bytes_vec());
    assert(writes_of(writes@) =~= writes_of(old(writes)@) + dump_model(opening, label, data@));
}

/// What a read of at most `limit` bytes hands to the step that asked for
/// it: the bytes themselves; the failure of the read; or, where the host
/// hands over more than was asked for, the failure of an invariant.
pub open spec fn intake_model(received: Result<Seq<u8>, ErrorView>, limit: usize) -> Result<
    Seq<u8>,
    ErrorView,
> {
    match received {
        Ok(bytes) => if bytes.len() <= limit {
            Ok(bytes)
        } else {
            Err(ErrorView::Unknown)
        },
        Err(e) => Err(e),
    }
}

/// Checks what the host has read against the limit it was given.
pub fn take_in(received: Result<Vec<u8>, Error>, limit: usize) -> (taken: Result<Vec<u8>, Error>)
    ensures
        received_view(taken) == intake_model(received_view(received), limit),
{
    match received {
        Ok(bytes) => {
            if bytes.len() <= limit {
                Ok(bytes)
            } else {
                Err(Error::Unknown)
            }
        },
        Err(e) => Err(e),
    }
}

/// What a step type offers before there is a step: its options and its
/// construction from a parsed command line.
pub trait StepStatic: BoxedClone {
    /// The options that this step type declares, in order.
    spec fn options() -> Seq<OptionSpecView>;

    /// Makes the step that a parsed command line describes. The step
    /// holds no descriptor yet.
    fn new(args: CliParsed, debug_level: DebugLevel) -> (made: Result<Self, Error>);

    /// Adds the options of this step type to a command-line specification.
    fn get_cmd(argument: CliSpec) -> (extended: CliSpec)
        ensures
            declared_options(extended) == declared_options(argument) + Self::options(),
    ;
}

} // verus!
