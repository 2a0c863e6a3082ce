//! The line entry, whose one ingress endpoint is the standard input and
//! output of the process, and the local step, which copies what passes to
//! the standard output and takes its replies from the standard input.

use vstd::prelude::*;
use cliparser::types::{CliParsed, CliSpec};
use crate::base::{
    dump, dump_model, emit, intake_model, take_in, to_stdout, BoxedClone, DebugLevel, Emission,
    EmissionView, Endpoint, Error, ErrorView, Passage, ReadRequest, Step, StepStatic, writes_of,
    BACKWARD_OPENING, FORWARD_OPENING, NO_DESCRIPTOR,
};
use crate::context::{
    actions_of, push_report, report, Action, ActionView, ContextView, EntryContext,
};
use crate::entry::{
    pipeline_registration, reading, register_pipeline, Entry, EntryStatic, Interest, Listen,
    ListenView, EVENT_CAPACITY,
};
use crate::notice::{Notice, NoticeView};
use crate::pipeline::{backward_through, forward_through, script_view, Pipeline};
use crate::stage::Stage;
use crate::token::{ingress_token_model, pipeline_token_model, route_model, Route};
use crate::options::{OptionSpecView, 
    add_argument, declared_options, first_value, flag, flag_model, get_first, has_argument,
    parsed_names, parsed_values, require, size_model, size_of, BUFFER_SIZE,
};

verus! {

/// The name of the flag that makes the local step copy bytes on their way
/// forward.
pub const FORWARD_STDOUT_OPTION: &'static str = "forward-stdout";

/// The key of the forward flag.
pub const FORWARD_STDOUT_KEY: &'static str = "--forward-stdout";

/// The name of the flag that makes the local step copy bytes on their way
/// backward.
pub const BACKWARD_STDOUT_OPTION: &'static str = "backward-stdout";

/// The key of the backward flag.
pub const BACKWARD_STDOUT_KEY: &'static str = "--backward-stdout";

/// The help text of the two flags.
pub const BACKWARD_STDOUT_HELP: &'static str =
    "(StdioStep) print into stdout when pipeline direction is backward";

/// The label of the local step's dump of bytes on their way forward.
pub const STDIO_FORWARD_LABEL: &'static str = "\nstdio forward : \n";

/// The label of the local step's dump of bytes on their way backward.
pub const STDIO_BACKWARD_LABEL: &'static str = "\nstdio backward : \n";

/// The directions in which the local step copies bytes to the standard
/// output.
#[derive(Clone, Copy, Debug, PartialEq, Eq, Structural)]
pub enum StdoutMode {
    /// In neither direction.
    Neither,
    /// On the way forward.
    Forward,
    /// On the way backward.
    Backward,
    /// In both directions.
    Both,
}

impl StdoutMode {
    /// The two bits of a mode: bit 0 for forward, bit 1 for backward.
    pub open spec fn bits(self) -> u8 {
        match self {
            StdoutMode::Neither => 0,
            StdoutMode::Forward => 1,
            StdoutMode::Backward => 2,
            StdoutMode::Both => 3,
        }
    }

    /// Whether the mode copies bytes on their way forward.
    pub open spec fn has_forward(self) -> bool {
        self == StdoutMode::Forward || self == StdoutMode::Both
    }

    /// Whether the mode copies bytes on their way backward.
    pub open spec fn has_backward(self) -> bool {
        self == StdoutMode::Backward || self == StdoutMode::Both
    }

    /// The mode with the given directions.
    pub open spec fn of(forward: bool, backward: bool) -> StdoutMode {
        if forward && backward {
            StdoutMode::Both
        } else if forward {
            StdoutMode::Forward
        } else if backward {
            StdoutMode::Backward
        } else {
            StdoutMode::Neither
        }
    }

    /// The name that a mode is shown by.
    pub open spec fn name(self) -> Seq<char> {
        match self {
            StdoutMode::Forward => "PipelineDirection::Forward"@,
            StdoutMode::Backward => "PipelineDirection::Backward"@,
            StdoutMode::Neither => "PipelineDirection::None"@,
            StdoutMode::Both => "PipelineDirection::Both"@,
        }
    }

    /// The name that this mode is shown by.
    pub fn to_text(&self) -> (text: String)
        ensures
            text@ == self.name(),
    {
        match self {
            StdoutMode::Forward => "PipelineDirection::Forward".to_owned(),
            StdoutMode::Backward => "PipelineDirection::Backward".to_owned(),
            StdoutMode::Neither => "PipelineDirection::None".to_owned(),
            StdoutMode::Both => "PipelineDirection::Both".to_owned(),
        }
    }

    /// The mode with the given directions.
    pub fn with(forward: bool, backward: bool) -> (mode: StdoutMode)
        ensures
            mode == StdoutMode::of(forward, backward),
    {
        if forward && backward {
            StdoutMode::Both
        } else if forward {
            StdoutMode::Forward
        } else if backward {
            StdoutMode::Backward
        } else {
            StdoutMode::Neither
        }
    }

    /// Whether the mode copies bytes on their way forward.
    pub fn forward(&self) -> (b: bool)
        ensures
            b == self.has_forward(),
    {
        match self {
            StdoutMode::Forward => true,
            StdoutMode::Both => true,
            _ => false,
        }
    }

    /// Whether the mode copies bytes on their way backward.
    pub fn backward(&self) -> (b: bool)
        ensures
            b == self.has_backward(),
    {
        match self {
            StdoutMode::Backward => true,
            StdoutMode::Both => true,
            _ => false,
        }
    }
}

impl StdoutMode {
    /// The directions that both modes have.
    pub fn bitand(self, rhs: Self) -> (both: StdoutMode)
        ensures
            both == StdoutMode::of(
                self.has_forward() && rhs.has_forward(),
                self.has_backward() && rhs.has_backward(),
            ),
    {
        StdoutMode::with(self.forward() && rhs.forward(), self.backward() && rhs.backward())
    }

    /// The directions that either mode has.
    pub fn bitor(self, rhs: Self) -> (either: StdoutMode)
        ensures
            either == StdoutMode::of(
                self.has_forward() || rhs.has_forward(),
                self.has_backward() || rhs.has_backward(),
            ),
    {
        StdoutMode::with(self.forward() || rhs.forward(), self.backward() || rhs.backward())
    }
}

/// The bitwise reading of `bitand` and `bitor`: on the bits of the modes
/// they are `&` and `|`.
pub proof fn stdout_mode_operators_are_bitwise(a: StdoutMode, b: StdoutMode)
    ensures
        StdoutMode::of(a.has_forward() && b.has_forward(), a.has_backward() && b.has_backward())
            .bits() == a.bits() & b.bits(),
        StdoutMode::of(a.has_forward() || b.has_forward(), a.has_backward() || b.has_backward())
            .bits() == a.bits() | b.bits(),
{
    assert(0u8 & 0u8 == 0 && 0u8 & 1u8 == 0 && 0u8 & 2u8 == 0 && 0u8 & 3u8 == 0 && 1u8 & 0u8 == 0
        && 1u8 & 1u8 == 1 && 1u8 & 2u8 == 0 && 1u8 & 3u8 == 1 && 2u8 & 0u8 == 0 && 2u8 & 1u8 == 0
        && 2u8 & 2u8 == 2 && 2u8 & 3u8 == 2 && 3u8 & 0u8 == 0 && 3u8 & 1u8 == 1 && 3u8 & 2u8 == 2
        && 3u8 & 3u8 == 3) by (bit_vector);
    assert(0u8 | 0u8 == 0 && 0u8 | 1u8 == 1 && 0u8 | 2u8 == 2 && 0u8 | 3u8 == 3 && 1u8 | 0u8 == 1
        && 1u8 | 1u8 == 1 && 1u8 | 2u8 == 3 && 1u8 | 3u8 == 3 && 2u8 | 0u8 == 2 && 2u8 | 1u8 == 3
        && 2u8 | 2u8 == 2 && 2u8 | 3u8 == 3 && 3u8 | 0u8 == 3 && 3u8 | 1u8 == 3 && 3u8 | 2u8 == 3
        && 3u8 | 3u8 == 3) by (bit_vector);
}

/// A step without a remote endpoint. It copies the bytes that pass to the
/// standard output, in the directions of its mode, and passes them on
/// unchanged on the way forward; on the way backward it hands on what was
/// read from the standard input.
#[derive(Clone, Debug, PartialEq, Eq)]
pub struct StdioStep {
    pub stdout_mode: StdoutMode,
    pub debug_level: DebugLevel,
    /// The greatest number of bytes taken from the standard input by one
    /// read.
    pub buffer_size: usize,
}

impl StdioStep {
    /// The step that the flags and the buffer size describe. The mode has
    /// the directions whose flags are set.
    pub open spec fn configure_model(
        forward: bool,
        backward: bool,
        buffer_size: Option<Seq<char>>,
        debug_level: DebugLevel,
    ) -> Result<StdioStep, ErrorView> {
        match size_model(buffer_size) {
            Ok(size) => Ok(
                StdioStep {
                    stdout_mode: StdoutMode::of(forward, backward),
                    debug_level,
                    buffer_size: size,
                },
            ),
            Err(e) => Err(e),
        }
    }

    /// Makes a step from its two flags and the value of the buffer size,
    /// where it is given.
    pub fn configure(
        forward: bool,
        backward: bool,
        buffer_size: Option<String>,
        debug_level: DebugLevel,
    ) -> (made: Result<StdioStep, Error>)
        ensures
            match made {
                Ok(step) => Self::configure_model(
                    forward,
                    backward,
                    buffer_size.deep_view(),
                    debug_level,
                ) == Ok::<StdioStep, ErrorView>(step),
                Err(e) => Self::configure_model(
                    forward,
                    backward,
                    buffer_size.deep_view(),
                    debug_level,
                ) == Err::<StdioStep, ErrorView>(e@),
            },
    {
        let mut stdout_mode = StdoutMode::Neither;
        if forward {
            stdout_mode = stdout_mode.bitor(StdoutMode::Forward);
        }
        if backward {
            stdout_mode = stdout_mode.bitor(StdoutMode::Backward);
        }
        let buffer_size = match require(buffer_size, BUFFER_SIZE) {
            Ok(text) => text,
            Err(e) => {
                return Err(e);
            },
        };
        let buffer_size = match size_of(buffer_size.as_str()) {
            Ok(n) => n,
            Err(e) => {
                return Err(e);
            },
        };
        Ok(StdioStep { stdout_mode, debug_level, buffer_size })
    }

    /// The writes of one operation on `data`: at the most verbose level the
    /// bracketed dump and nothing else; below it the bytes themselves, if
    /// the mode has the direction.
    pub open spec fn writes_model(
        &self,
        opening: &str,
        label: &str,
        copies: bool,
        data: Seq<u8>,
    ) -> Seq<EmissionView> {
        if self.debug_level.rank() > 2 {
            dump_model(opening, label, data)
        } else if copies {
            seq![to_stdout(data)]
        } else {
            Seq::empty()
        }
    }

    fn write_out(
        &self,
        opening: &str,
        label: &str,
        copies: bool,
        data: &Vec<u8>,
        writes: &mut Vec<Emission>,
    )
        ensures
            writes_of(final(writes)@) == writes_of(old(writes)@) + self.writes_model(
                opening,
                label,
                copies,
                data@,
            ),
    {
        if self.debug_level.at_least(3) {
            dump(opening, label, data, writes);
        } else if copies {
            emit(writes, Endpoint::Stdout, data.clone());
            assert(writes_of(writes@) =~= writes_of(old(writes)@) + seq![to_stdout(data@)]);
        } else {
            assert(writes_of(writes@) =~= writes_of(old(writes)@) + Seq::<EmissionView>::empty());
        }
    }
}

impl BoxedClone for StdioStep {
    open spec fn detached(&self) -> Self {
        *self
    }

    fn bclone(&self) -> (copy: Self) {
        StdioStep {
            stdout_mode: self.stdout_mode,
            debug_level: self.debug_level,
            buffer_size: self.buffer_size,
        }
    }
}

impl Step for StdioStep {
    /// The local step holds no descriptor: its handle never becomes ready,
    /// so it must not be the last step of a pipeline.
    open spec fn descriptor(&self) -> i32 {
        NO_DESCRIPTOR
    }

    open spec fn intake(&self) -> Option<ReadRequest> {
        Some(ReadRequest { source: Endpoint::Stdin, limit: self.buffer_size })
    }

    open spec fn attached(&self, descriptor: i32) -> Self {
        *self
    }

    open spec fn forward_model(&self, data: Seq<u8>) -> Passage<Self> {
        Passage {
            step: *self,
            writes: self.writes_model(
                FORWARD_OPENING,
                STDIO_FORWARD_LABEL,
                self.stdout_mode.has_forward(),
                data,
            ),
            outcome: Ok(data),
        }
    }

    open spec fn backward_model(
        &self,
        data: Seq<u8>,
        received: Result<Seq<u8>, ErrorView>,
    ) -> Passage<Self> {
        Passage {
            step: *self,
            writes: self.writes_model(
                BACKWARD_OPENING,
                STDIO_BACKWARD_LABEL,
                self.stdout_mode.has_backward(),
                data,
            ),
            outcome: intake_model(received, self.buffer_size),
        }
    }

    fn as_raw_fd(&self) -> (fd: i32) {
        NO_DESCRIPTOR
    }

    fn read_request(&self) -> (request: Option<ReadRequest>) {
        Some(ReadRequest { source: Endpoint::Stdin, limit: self.buffer_size })
    }

    fn attach(&mut self, descriptor: i32) {
    }

    fn process_data_forward(&mut self, data: &mut Vec<u8>, writes: &mut Vec<Emission>) -> (passed:
        Result<Vec<u8>, Error>) {
        let copies = self.stdout_mode.bitand(StdoutMode::Forward) == StdoutMode::Forward;
        self.write_out(FORWARD_OPENING, STDIO_FORWARD_LABEL, copies, data, writes);
        Ok(data.clone())
    }

    fn process_data_backward(
        &mut self,
        data: &mut Vec<u8>,
        received: Result<Vec<u8>, Error>,
        writes: &mut Vec<Emission>,
    ) -> (passed: Result<Vec<u8>, Error>) {
        let copies = self.stdout_mode.bitand(StdoutMode::Backward) == StdoutMode::Backward;
        self.write_out(BACKWARD_OPENING, STDIO_BACKWARD_LABEL, copies, data, writes);
        take_in(received, self.buffer_size)
    }
}

impl StepStatic for StdioStep {
    /// Makes the step that a parsed command line describes: the mode from
    /// the two flags that were found, the buffer size from the first value
    /// of its option.
    fn new(args: CliParsed, debug_level: DebugLevel) -> (made: Result<Self, Error>)
        ensures
            match made {
                Ok(step) => Self::configure_model(
                    parsed_names(args).contains(FORWARD_STDOUT_OPTION@),
                    parsed_names(args).contains(BACKWARD_STDOUT_OPTION@),
                    first_value(parsed_values(args), BUFFER_SIZE@),
                    debug_level,
                ) == Ok::<StdioStep, ErrorView>(step),
                Err(e) => Self::configure_model(
                    parsed_names(args).contains(FORWARD_STDOUT_OPTION@),
                    parsed_names(args).contains(BACKWARD_STDOUT_OPTION@),
                    first_value(parsed_values(args), BUFFER_SIZE@),
                    debug_level,
                ) == Err::<StdioStep, ErrorView>(e@),
            },
    {
        let forward = has_argument(&args, FORWARD_STDOUT_OPTION);
        let backward = has_argument(&args, BACKWARD_STDOUT_OPTION);
        let buffer_size = get_first(&args, BUFFER_SIZE);
        StdioStep::configure(forward, backward, buffer_size, debug_level)
    }

    /// The two flags of the local step. Both are declared with the same
    /// help text.
    open spec fn options() -> Seq<OptionSpecView> {
        seq![
            flag_model(FORWARD_STDOUT_OPTION, FORWARD_STDOUT_KEY, BACKWARD_STDOUT_HELP),
            flag_model(BACKWARD_STDOUT_OPTION, BACKWARD_STDOUT_KEY, BACKWARD_STDOUT_HELP),
        ]
    }

    fn get_cmd(argument: CliSpec) -> (extended: CliSpec) {
        let ghost start = declared_options(argument);
        let argument = add_argument(
            argument,
            flag(FORWARD_STDOUT_OPTION, FORWARD_STDOUT_KEY, BACKWARD_STDOUT_HELP),
        );
        let extended = add_argument(
            argument,
            flag(BACKWARD_STDOUT_OPTION, BACKWARD_STDOUT_KEY, BACKWARD_STDOUT_HELP),
        );
        assert(declared_options(extended) =~= start + Self::options());
        extended
    }
}

/// The token of the standard input, the ingress endpoint of the line
/// entry: the ingress token of the first connection.
pub const STDIN_TOKEN: usize = 1;

/// The token of the pipeline of the line entry: the pipeline token of the
/// first connection.
pub const PIPELINE_TOKEN: usize = 2;

/// The two tokens of the line entry are routed as the tokens of any
/// connection are: the odd one to the ingress side, the even one to the
/// pipeline side.
pub proof fn line_tokens_are_routed_by_parity()
    ensures
        route_model(STDIN_TOKEN) == Route::Ingress,
        route_model(PIPELINE_TOKEN) == Route::Pipeline,
        STDIN_TOKEN == ingress_token_model(0),
        PIPELINE_TOKEN == pipeline_token_model(0),
{
}

/// The line entry. It has one connection for the lifetime of the process:
/// bytes are read from the standard input and replies are written to the
/// standard output. There is nothing to accept; the context of the one
/// connection is there from the start.
pub struct StdioEntry {
    /// The context of the one connection, with the pipeline of the entry.
    pub context: EntryContext<Stage>,
    pub debug_level: DebugLevel,
    /// The greatest number of bytes taken by one read.
    pub buffer_size: usize,
}

impl StdioEntry {
    /// The context that the entry starts with.
    pub open spec fn initial_context(pipeline: Seq<Stage>) -> ContextView<Stage> {
        ContextView {
            pipeline,
            connection_buf: Seq::empty(),
            pipeline_buf: Seq::empty(),
            drain: None,
        }
    }

    /// Makes an entry from the value of the buffer size, where it is
    /// given: it must be given and must be a number.
    pub fn configure(
        buffer_size: Option<String>,
        pipeline: Pipeline<Stage>,
        debug_level: DebugLevel,
    ) -> (made: Result<StdioEntry, Error>)
        ensures
            match made {
                Ok(entry) => {
                    &&& size_model(buffer_size.deep_view()) == Ok::<usize, ErrorView>(
                        entry.buffer_size,
                    )
                    &&& entry.debug_level == debug_level
                    &&& entry.context@ == Self::initial_context(pipeline@)
                },
                Err(e) => size_model(buffer_size.deep_view()) == Err::<usize, ErrorView>(e@),
            },
    {
        let buffer_size = match require(buffer_size, BUFFER_SIZE) {
            Ok(text) => text,
            Err(e) => {
                return Err(e);
            },
        };
        let buffer_size = match size_of(buffer_size.as_str()) {
            Ok(n) => n,
            Err(e) => {
                return Err(e);
            },
        };
        Ok(StdioEntry { context: EntryContext::new(pipeline), debug_level, buffer_size })
    }

    /// What happens when the readiness facility reports an event for
    /// `token`: an event for the standard input is one for the ingress
    /// side of the one connection, an event for the pipeline one for its
    /// pipeline side, and an event for any other token is reported and
    /// passed over.
    pub fn on_ready(
        &mut self,
        token: usize,
        readable: bool,
        writable: bool,
    ) -> (actions: Vec<Action>)
        ensures
            final(self).debug_level == old(self).debug_level,
            final(self).buffer_size == old(self).buffer_size,
            if token == STDIN_TOKEN {
                &&& final(self).context@ == old(self).context@
                &&& actions_of(actions@) == old(self).context@.on_ingress_ready(
                    readable,
                    writable,
                    old(self).buffer_size,
                ).actions
            } else if token == PIPELINE_TOKEN {
                &&& final(self).context@ == old(self).context@.on_pipeline_ready(
                    readable,
                    writable,
                ).context
                &&& actions_of(actions@) == old(self).context@.on_pipeline_ready(
                    readable,
                    writable,
                ).actions
            } else {
                &&& final(self).context@ == old(self).context@
                &&& actions_of(actions@) == report(
                    old(self).debug_level,
                    NoticeView::UnknownToken(token),
                )
            },
    {
        if token == STDIN_TOKEN {
            self.context.on_ingress_ready(readable, writable, self.buffer_size)
        } else if token == PIPELINE_TOKEN {
            self.context.on_pipeline_ready(readable, writable)
        } else {
            let mut actions: Vec<Action> = Vec::new();
            assert(actions_of(actions@) =~= Seq::<ActionView>::empty());
            push_report(&mut actions, self.debug_level, Notice::UnknownToken(token));
            assert(actions_of(actions@) =~= report(
                self.debug_level,
                NoticeView::UnknownToken(token),
            ));
            actions
        }
    }

    /// Sends `data` on a round trip: forward through the pipeline, and
    /// what comes out at the far end backward again. `received` holds, for
    /// each step, the outcome of the read made on its behalf on the way
    /// backward. The writes that the steps ask for are appended to
    /// `writes`. The first step that fails ends the trip, and its error is
    /// returned.
    pub fn handle_pipeline(
        &mut self,
        data: Vec<u8>,
        received: Vec<Result<Vec<u8>, Error>>,
        writes: &mut Vec<Emission>,
    ) -> (handled: Result<(), Error>)
        ensures
            final(self).debug_level == old(self).debug_level,
            final(self).buffer_size == old(self).buffer_size,
            final(self).context@.connection_buf == old(self).context@.connection_buf,
            final(self).context@.pipeline_buf == old(self).context@.pipeline_buf,
            final(self).context@.drain == old(self).context@.drain,
            ({
                let forward = forward_through(old(self).context@.pipeline, data@);
                match forward.outcome {
                    Err(e) => {
                        &&& final(self).context@.pipeline == forward.step
                        &&& writes_of(final(writes)@) == writes_of(old(writes)@) + forward.writes
                        &&& handled matches Err(failure)
                        &&& failure@ == e
                    },
                    Ok(bytes) => if received@.len() == forward.step.len() {
                        let backward = backward_through(
                            forward.step,
                            script_view(received@),
                            bytes,
                        );
                        &&& final(self).context@.pipeline == backward.step
                        &&& writes_of(final(writes)@) == writes_of(old(writes)@) + forward.writes
                            + backward.writes
                        &&& match handled {
                            Ok(_) => backward.outcome is Ok,
                            Err(failure) => backward.outcome == Err::<Seq<u8>, ErrorView>(
                                failure@,
                            ),
                        }
                    } else {
                        &&& final(self).context@.pipeline == forward.step
                        &&& writes_of(final(writes)@) == writes_of(old(writes)@) + forward.writes
                        &&& handled matches Err(failure)
                        &&& failure@ == ErrorView::Unknown
                    },
                }
            }),
    {
        let data = match self.context.pipeline.drive_forward(data, writes) {
            Ok(bytes) => bytes,
            Err(e) => {
                return Err(e);
            },
        };
        match self.context.pipeline.drive_backward(data, received, writes) {
            Ok(_) => Ok(()),
            Err(e) => Err(e),
        }
    }
}

impl Entry for StdioEntry {
    /// The host binds nothing: it registers the standard input under its
    /// token, for reading, and, where the last step of the pipeline holds
    /// a descriptor, that descriptor under the token of the pipeline, for
    /// reading and writing.
    open spec fn plan(&self) -> ListenView {
        ListenView {
            bind: None,
            token: STDIN_TOKEN,
            interest: reading(),
            pipeline: if self.context@.pipeline.len() > 0 {
                pipeline_registration(PIPELINE_TOKEN, self.context@.pipeline.last().descriptor())
            } else {
                None
            },
            capacity: EVENT_CAPACITY,
        }
    }

    fn listen(&mut self) -> (plan: Listen) {
        let pipeline = if self.context.pipeline.len() > 0 {
            register_pipeline(PIPELINE_TOKEN, self.context.pipeline.as_raw_fd())
        } else {
            None
        };
        Listen {
            bind: None,
            token: STDIN_TOKEN,
            interest: Interest { readable: true, writable: false },
            pipeline,
            capacity: EVENT_CAPACITY,
        }
    }
}

impl EntryStatic<StdioEntry> for StdioEntry {
    /// Makes the entry that a parsed command line describes, from the first
    /// value of the buffer size.
    fn new(args: CliParsed, pipeline: Pipeline<Stage>, debug_level: DebugLevel) -> (made: Result<
        StdioEntry,
        Error,
    >)
        ensures
            match made {
                Ok(entry) => {
                    &&& size_model(first_value(parsed_values(args), BUFFER_SIZE@)) == Ok::<
                        usize,
                        ErrorView,
                    >(entry.buffer_size)
                    &&& entry.debug_level == debug_level
                    &&& entry.context@ == Self::initial_context(pipeline@)
                },
                Err(e) => size_model(first_value(parsed_values(args), BUFFER_SIZE@)) == Err::<
                    usize,
                    ErrorView,
                >(e@),
            },
    {
        let buffer_size = get_first(&args, BUFFER_SIZE);
        StdioEntry::configure(buffer_size, pipeline, debug_level)
    }

    /// The line entry has no options of its own.
    open spec fn options() -> Seq<OptionSpecView> {
        Seq::empty()
    }

    /// The specification is handed back as it came.
    fn get_cmd(argument: CliSpec) -> (extended: CliSpec)
        ensures
            extended == argument,
    {
        assert(declared_options(argument) =~= declared_options(argument) + Seq::<
            OptionSpecView,
        >::empty());
        argument
    }
}

} // verus!
