//! From a parsed command line to a proxy that is ready to listen.

use vstd::prelude::*;
use cliparser::types::{CliParsed, CliSpec};
use crate::base::{DebugLevel, Error, ErrorView};
use crate::context::ContextView;
use crate::http::{HttpEntry, HTTP_ENTRY_ADDRESS, HTTP_ENTRY_PORT};
use crate::entry::EntryStatic;
use crate::base::StepStatic;
use crate::options::{
    add_argument, declared_options, first_value, flag_model, get_first, has_argument, option,
    option_model, parse_signed, parsed_names, parsed_values, setting_model, signed_model,
    values_of, Occurrence, ValueType, BUFFER_SIZE, BUFFER_SIZE_HELP, BUFFER_SIZE_KEY,
    BUFFER_SIZE_SHORT_KEY,
};
use crate::pipeline::Pipeline;
use crate::stage::{stage_views, Stage, StageView, StepKind};
use crate::http::{
    HTTP_ENTRY_ADDRESS_DEFAULT, HTTP_ENTRY_ADDRESS_HELP, HTTP_ENTRY_ADDRESS_KEY,
    HTTP_ENTRY_PORT_DEFAULT, HTTP_ENTRY_PORT_HELP, HTTP_ENTRY_PORT_KEY,
};
use crate::stdio::{
    StdioEntry, StdioStep, BACKWARD_STDOUT_HELP, BACKWARD_STDOUT_KEY, BACKWARD_STDOUT_OPTION,
    FORWARD_STDOUT_KEY, FORWARD_STDOUT_OPTION,
};
use crate::tcp::{
    TcpEntry, TcpStep, TCP_ENTRY_ADDRESS, TCP_ENTRY_ADDRESS_DEFAULT, TCP_ENTRY_ADDRESS_HELP,
    TCP_ENTRY_ADDRESS_KEY, TCP_ENTRY_PORT, TCP_ENTRY_PORT_DEFAULT, TCP_ENTRY_PORT_HELP,
    TCP_ENTRY_PORT_KEY, TCP_STEP_ADDRESS, TCP_STEP_ADDRESS_DEFAULT, TCP_STEP_ADDRESS_HELP,
    TCP_STEP_ADDRESS_KEY, TCP_STEP_PORT, TCP_STEP_PORT_DEFAULT, TCP_STEP_PORT_HELP,
    TCP_STEP_PORT_KEY,
};

verus! {

/// The name of the flag that asks for the help text.
pub const HELP: &'static str = "Help";

/// The long key of the help flag.
pub const HELP_KEY: &'static str = "--help";

/// The short key of the help flag.
pub const HELP_SHORT_KEY: &'static str = "-h";

/// The help text of the help flag.
pub const HELP_HELP: &'static str = "Show help and exit";

/// The name of the flag that asks for the version.
pub const VERSION: &'static str = "Version";

/// The long key of the version flag.
pub const VERSION_KEY: &'static str = "--version";

/// The short key of the version flag.
pub const VERSION_SHORT_KEY: &'static str = "-v";

/// The help text of the version flag.
pub const VERSION_HELP: &'static str = "Show version and exit";

/// The name of the option that sets the verbosity.
pub const DEBUG_LEVEL: &'static str = "Debug";

/// The long key of the verbosity.
pub const DEBUG_LEVEL_KEY: &'static str = "--debug";

/// The short key of the verbosity.
pub const DEBUG_LEVEL_SHORT_KEY: &'static str = "-d";

/// The help text of the verbosity.
pub const DEBUG_LEVEL_HELP: &'static str = "Debug Level from 0 to 3 (0 wouldnt show anything).";

/// The verbosity where none is given.
pub const DEBUG_LEVEL_DEFAULT: &'static str = "0";

/// The name of the option that selects the entry.
pub const ENTRY: &'static str = "Entry";

/// The long key of the entry.
pub const ENTRY_KEY: &'static str = "--entry";

/// The short key of the entry.
pub const ENTRY_SHORT_KEY: &'static str = "-e";

/// The help text of the entry.
pub const ENTRY_HELP: &'static str = "Entry step of pipeline";

/// The name of the option that lists the steps of the pipeline.
pub const STEP: &'static str = "Step";

/// The long key of the steps.
pub const STEP_KEY: &'static str = "--step";

/// The short key of the steps.
pub const STEP_SHORT_KEY: &'static str = "-s";

/// The help text of the steps.
pub const STEP_HELP: &'static str = "Step of pipeline";

/// The buffer size where none is given.
pub const BUFFER_SIZE_DEFAULT: &'static str = "8192";

/// The options of the proxy itself, in the order in which they are
/// declared: the version and help flags, the verbosity, the entry, the
/// steps and the buffer size.
pub open spec fn common_options() -> Seq<crate::options::OptionSpecView> {
    seq![
        option_model(
            VERSION,
            VERSION_KEY,
            VERSION_SHORT_KEY,
            Occurrence::Multiple,
            ValueType::Flag,
            None,
            VERSION_HELP,
        ),
        option_model(
            HELP,
            HELP_KEY,
            HELP_SHORT_KEY,
            Occurrence::Multiple,
            ValueType::Flag,
            None,
            HELP_HELP,
        ),
        option_model(
            DEBUG_LEVEL,
            DEBUG_LEVEL_KEY,
            DEBUG_LEVEL_SHORT_KEY,
            Occurrence::Single,
            ValueType::Single,
            Some(DEBUG_LEVEL_DEFAULT@),
            DEBUG_LEVEL_HELP,
        ),
        option_model(
            ENTRY,
            ENTRY_KEY,
            ENTRY_SHORT_KEY,
            Occurrence::Single,
            ValueType::Single,
            None,
            ENTRY_HELP,
        ),
        option_model(
            STEP,
            STEP_KEY,
            STEP_SHORT_KEY,
            Occurrence::Multiple,
            ValueType::Single,
            None,
            STEP_HELP,
        ),
        option_model(
            BUFFER_SIZE,
            BUFFER_SIZE_KEY,
            BUFFER_SIZE_SHORT_KEY,
            Occurrence::Single,
            ValueType::Single,
            Some(BUFFER_SIZE_DEFAULT@),
            BUFFER_SIZE_HELP,
        ),
    ]
}

/// The options of the entries and steps, in the order in which they are
/// declared: those of the line entry, of the local step, of the stream
/// entry, of the stream step and of the request/response entry.
pub open spec fn component_options() -> Seq<crate::options::OptionSpecView> {
    <StdioEntry as EntryStatic<StdioEntry>>::options() + <StdioStep as StepStatic>::options()
        + <TcpEntry as EntryStatic<TcpEntry>>::options() + <TcpStep as StepStatic>::options()
        + <HttpEntry as EntryStatic<HttpEntry>>::options()
}

/// Adds every option of the proxy to a command-line specification: its
/// own options first, then those of each entry and step.
pub fn get_cmd(argument: CliSpec) -> (extended: CliSpec)
    ensures
        declared_options(extended) == declared_options(argument) + common_options()
            + component_options(),
{
    let ghost start = declared_options(argument);
    let argument = add_argument(
        argument,
        option(
            VERSION,
            VERSION_KEY,
            VERSION_SHORT_KEY,
            Occurrence::Multiple,
            ValueType::Flag,
            None,
            VERSION_HELP,
        ),
    );
    let argument = add_argument(
        argument,
        option(HELP, HELP_KEY, HELP_SHORT_KEY, Occurrence::Multiple, ValueType::Flag, None, HELP_HELP),
    );
    let argument = add_argument(
        argument,
        option(
            DEBUG_LEVEL,
            DEBUG_LEVEL_KEY,
            DEBUG_LEVEL_SHORT_KEY,
            Occurrence::Single,
            ValueType::Single,
            Some(DEBUG_LEVEL_DEFAULT.to_owned()),
            DEBUG_LEVEL_HELP,
        ),
    );
    let argument = add_argument(
        argument,
        option(
            ENTRY,
            ENTRY_KEY,
            ENTRY_SHORT_KEY,
            Occurrence::Single,
            ValueType::Single,
            None,
            ENTRY_HELP,
        ),
    );
    let argument = add_argument(
        argument,
        option(
            STEP,
            STEP_KEY,
            STEP_SHORT_KEY,
            Occurrence::Multiple,
            ValueType::Single,
            None,
            STEP_HELP,
        ),
    );
    let argument = add_argument(
        argument,
        option(
            BUFFER_SIZE,
            BUFFER_SIZE_KEY,
            BUFFER_SIZE_SHORT_KEY,
            Occurrence::Single,
            ValueType::Single,
            Some(BUFFER_SIZE_DEFAULT.to_owned()),
            BUFFER_SIZE_HELP,
        ),
    );
    assert(declared_options(argument) =~= start + common_options());
    let argument = StdioEntry::get_cmd(argument);
    let argument = StdioStep::get_cmd(argument);
    let argument = TcpEntry::get_cmd(argument);
    let argument = TcpStep::get_cmd(argument);
    let argument = HttpEntry::get_cmd(argument);
    assert(declared_options(argument) =~= start + common_options() + component_options());
    argument
}

/// The verbosity that a command line asks for: none where the option was
/// not found; else the level of the number that is its value, which must
/// be there and must be a number.
pub open spec fn debug_level_model(found: bool, value: Option<Seq<char>>) -> Result<
    DebugLevel,
    ErrorView,
> {
    if !found {
        Ok(DebugLevel::Silent)
    } else {
        match value {
            None => Err(ErrorView::Msg("No devug level mentioned"@)),
            Some(text) => match signed_model(text) {
                Some(n) => Ok(DebugLevel::of_rank(n)),
                None => Err(ErrorView::ParseIntError),
            },
        }
    }
}

/// The verbosity that the option asks for, where `found` says whether the
/// option was found and `value` is its value, if it has one.
pub fn debug_level_of(found: bool, value: Option<String>) -> (level: Result<DebugLevel, Error>)
    ensures
        match level {
            Ok(l) => debug_level_model(found, value.deep_view()) == Ok::<DebugLevel, ErrorView>(l),
            Err(e) => debug_level_model(found, value.deep_view()) == Err::<
                DebugLevel,
                ErrorView,
            >(e@),
        },
{
    if !found {
        return Ok(DebugLevel::Silent);
    }
    match value {
        None => Err(Error::Msg("No devug level mentioned".to_owned())),
        Some(text) => match parse_signed(text.as_str()) {
            Some(n) => Ok(DebugLevel::from(n)),
            None => Err(Error::ParseIntError),
        },
    }
}

/// The verbosity that a parsed command line asks for.
pub fn read_debug_level(args: &CliParsed) -> (level: Result<DebugLevel, Error>)
    ensures
        match level {
            Ok(l) => debug_level_model(
                parsed_names(*args).contains(DEBUG_LEVEL@),
                first_value(parsed_values(*args), DEBUG_LEVEL@),
            ) == Ok::<DebugLevel, ErrorView>(l),
            Err(e) => debug_level_model(
                parsed_names(*args).contains(DEBUG_LEVEL@),
                first_value(parsed_values(*args), DEBUG_LEVEL@),
            ) == Err::<DebugLevel, ErrorView>(e@),
        },
{
    debug_level_of(has_argument(args, DEBUG_LEVEL), get_first(args, DEBUG_LEVEL))
}

/// The kinds of entry.
#[derive(Clone, Copy, Debug, PartialEq, Eq, Structural)]
pub enum EntryKind {
    /// The line entry.
    Stdio,
    /// The raw stream entry.
    Tcp,
    /// The framed request/response entry.
    Http,
}

/// The kind of entry that `name` selects.
pub open spec fn entry_kind_model(name: Seq<char>) -> Option<EntryKind> {
    if name == "stdio"@ {
        Some(EntryKind::Stdio)
    } else if name == "tcp"@ {
        Some(EntryKind::Tcp)
    } else if name == "http"@ {
        Some(EntryKind::Http)
    } else {
        None
    }
}

/// The kind of step that `name` selects.
pub open spec fn step_kind_model(name: Seq<char>) -> Option<StepKind> {
    if name == "stdio"@ {
        Some(StepKind::Stdio)
    } else if name == "tcp"@ {
        Some(StepKind::Tcp)
    } else {
        None
    }
}

/// Whether two texts are the same.
pub fn same_text(a: &str, b: &str) -> (same: bool)
    ensures
        same == (a@ == b@),
{
    let left = a.to_owned();
    let right = b.to_owned();
    left == right
}

/// The kind of entry that `name` selects.
pub fn entry_kind(name: &str) -> (kind: Option<EntryKind>)
    ensures
        kind == entry_kind_model(name@),
{
    if same_text(name, "stdio") {
        Some(EntryKind::Stdio)
    } else if same_text(name, "tcp") {
        Some(EntryKind::Tcp)
    } else if same_text(name, "http") {
        Some(EntryKind::Http)
    } else {
        None
    }
}

/// The kind of step that `name` selects.
pub fn step_kind(name: &str) -> (kind: Option<StepKind>)
    ensures
        kind == step_kind_model(name@),
{
    if same_text(name, "stdio") {
        Some(StepKind::Stdio)
    } else if same_text(name, "tcp") {
        Some(StepKind::Tcp)
    } else {
        None
    }
}

/// The values that a proxy is assembled from.
#[derive(Clone, Debug, PartialEq, Eq)]
pub struct Options {
    /// The name of the entry.
    pub entry: Option<String>,
    /// The names of the steps, in the order of the pipeline.
    pub steps: Option<Vec<String>>,
    pub buffer_size: Option<String>,
    pub forward_stdout: bool,
    pub backward_stdout: bool,
    pub tcp_step_address: Option<String>,
    pub tcp_step_port: Option<String>,
    pub tcp_entry_address: Option<String>,
    pub tcp_entry_port: Option<String>,
    pub http_entry_address: Option<String>,
    pub http_entry_port: Option<String>,
}

/// What the contracts see of [`Options`].
pub struct OptionsView {
    pub entry: Option<Seq<char>>,
    pub steps: Option<Seq<Seq<char>>>,
    pub buffer_size: Option<Seq<char>>,
    pub forward_stdout: bool,
    pub backward_stdout: bool,
    pub tcp_step_address: Option<Seq<char>>,
    pub tcp_step_port: Option<Seq<char>>,
    pub tcp_entry_address: Option<Seq<char>>,
    pub tcp_entry_port: Option<Seq<char>>,
    pub http_entry_address: Option<Seq<char>>,
    pub http_entry_port: Option<Seq<char>>,
}

impl View for Options {
    type V = OptionsView;

    open spec fn view(&self) -> OptionsView {
        OptionsView {
            entry: self.entry.deep_view(),
            steps: self.steps.deep_view(),
            buffer_size: self.buffer_size.deep_view(),
            forward_stdout: self.forward_stdout,
            backward_stdout: self.backward_stdout,
            tcp_step_address: self.tcp_step_address.deep_view(),
            tcp_step_port: self.tcp_step_port.deep_view(),
            tcp_entry_address: self.tcp_entry_address.deep_view(),
            tcp_entry_port: self.tcp_entry_port.deep_view(),
            http_entry_address: self.http_entry_address.deep_view(),
            http_entry_port: self.http_entry_port.deep_view(),
        }
    }
}

/// The options that a parsed command line holds: the first value of each
/// option but the steps, of which it is all values, and the flags that
/// were found.
pub open spec fn options_model(
    values: Map<Seq<char>, Seq<Seq<char>>>,
    names: Set<Seq<char>>,
) -> OptionsView {
    OptionsView {
        entry: first_value(values, ENTRY@),
        steps: if values.contains_key(STEP@) {
            Some(values[STEP@])
        } else {
            None
        },
        buffer_size: first_value(values, BUFFER_SIZE@),
        forward_stdout: names.contains(FORWARD_STDOUT_OPTION@),
        backward_stdout: names.contains(BACKWARD_STDOUT_OPTION@),
        tcp_step_address: first_value(values, TCP_STEP_ADDRESS@),
        tcp_step_port: first_value(values, TCP_STEP_PORT@),
        tcp_entry_address: first_value(values, TCP_ENTRY_ADDRESS@),
        tcp_entry_port: first_value(values, TCP_ENTRY_PORT@),
        http_entry_address: first_value(values, HTTP_ENTRY_ADDRESS@),
        http_entry_port: first_value(values, HTTP_ENTRY_PORT@),
    }
}

/// Reads the options from a parsed command line.
pub fn read_options(args: &CliParsed) -> (options: Options)
    ensures
        options@ == options_model(parsed_values(*args), parsed_names(*args)),
{
    Options {
        entry: get_first(args, ENTRY),
        steps: values_of(args, STEP),
        buffer_size: get_first(args, BUFFER_SIZE),
        forward_stdout: has_argument(args, FORWARD_STDOUT_OPTION),
        backward_stdout: has_argument(args, BACKWARD_STDOUT_OPTION),
        tcp_step_address: get_first(args, TCP_STEP_ADDRESS),
        tcp_step_port: get_first(args, TCP_STEP_PORT),
        tcp_entry_address: get_first(args, TCP_ENTRY_ADDRESS),
        tcp_entry_port: get_first(args, TCP_ENTRY_PORT),
        http_entry_address: get_first(args, HTTP_ENTRY_ADDRESS),
        http_entry_port: get_first(args, HTTP_ENTRY_PORT),
    }
}

/// A proxy that is ready to listen: an entry with its pipeline.
pub enum Proxy {
    Stdio(StdioEntry),
    Tcp(TcpEntry),
    Http(HttpEntry),
}

/// What the contracts see of a [`Proxy`] that was just assembled.
pub enum ProxyView {
    Stdio { buffer_size: usize, debug_level: DebugLevel, pipeline: Seq<StageView> },
    Tcp {
        address: Seq<char>,
        port: u16,
        buffer_size: usize,
        debug_level: DebugLevel,
        pipeline: Seq<StageView>,
    },
    Http {
        address: Seq<char>,
        port: u16,
        buffer_size: usize,
        debug_level: DebugLevel,
        pipeline: Seq<StageView>,
    },
}

impl View for Proxy {
    type V = ProxyView;

    open spec fn view(&self) -> ProxyView {
        match self {
            Proxy::Stdio(entry) => ProxyView::Stdio {
                buffer_size: entry.buffer_size,
                debug_level: entry.debug_level,
                pipeline: stage_views(entry.context@.pipeline),
            },
            Proxy::Tcp(entry) => ProxyView::Tcp {
                address: entry.address@,
                port: entry.port,
                buffer_size: entry.connections.settings().buffer_size,
                debug_level: entry.connections.settings().debug_level,
                pipeline: stage_views(entry.connections.settings().template),
            },
            Proxy::Http(entry) => ProxyView::Http {
                address: entry.address@,
                port: entry.port,
                buffer_size: entry.connections.settings().buffer_size,
                debug_level: entry.connections.settings().debug_level,
                pipeline: stage_views(entry.connections.settings().template),
            },
        }
    }
}

impl Proxy {
    /// Whether the proxy is as it is just after it was assembled: no
    /// connection is open yet, and the one connection of a line entry has
    /// empty buffers.
    pub open spec fn is_fresh(&self) -> bool {
        match self {
            Proxy::Stdio(entry) => entry.context@ == StdioEntry::initial_context(
                entry.context@.pipeline,
            ),
            Proxy::Tcp(entry) => entry.connections.wf() && entry.connections@ == Map::<
                usize,
                ContextView<Stage>,
            >::empty(),
            Proxy::Http(entry) => entry.connections.wf() && entry.connections@ == Map::<
                usize,
                ContextView<Stage>,
            >::empty(),
        }
    }
}

/// The step that `name` selects, configured from `options`.
pub open spec fn step_model(
    name: Seq<char>,
    options: OptionsView,
    debug_level: DebugLevel,
) -> Result<StageView, ErrorView> {
    match step_kind_model(name) {
        Some(StepKind::Stdio) => match StdioStep::configure_model(
            options.forward_stdout,
            options.backward_stdout,
            options.buffer_size,
            debug_level,
        ) {
            Ok(step) => Ok(StageView::Stdio(step)),
            Err(e) => Err(e),
        },
        Some(StepKind::Tcp) => match TcpStep::configure_model(
            options.tcp_step_address,
            options.tcp_step_port,
            options.buffer_size,
            debug_level,
        ) {
            Ok(step) => Ok(StageView::Tcp(step)),
            Err(e) => Err(e),
        },
        None => Err(ErrorView::Msg("Unknown step"@)),
    }
}

/// The pipeline that `names` select: one step for each name, in order. The
/// first step that cannot be made is the error.
pub open spec fn pipeline_model(
    names: Seq<Seq<char>>,
    options: OptionsView,
    debug_level: DebugLevel,
) -> Result<Seq<StageView>, ErrorView>
    decreases names.len(),
{
    if names.len() == 0 {
        Ok(Seq::empty())
    } else {
        match pipeline_model(names.drop_last(), options, debug_level) {
            Ok(steps) => match step_model(names.last(), options, debug_level) {
                Ok(step) => Ok(steps.push(step)),
                Err(e) => Err(e),
            },
            Err(e) => Err(e),
        }
    }
}

/// The proxy that `options` describe.
///
/// The entry and the steps must be named. The pipeline is made first, one
/// step for each name; then the entry that the name selects is made with
/// that pipeline. What fails first is the error: a missing name, a step
/// or an entry of an unknown kind, a missing option, an option that is no
/// number.
pub open spec fn run_model(options: OptionsView, debug_level: DebugLevel) -> Result<
    ProxyView,
    ErrorView,
> {
    if options.entry is None {
        Err(ErrorView::Msg("No Entry was found"@))
    } else if options.steps is None {
        Err(ErrorView::Msg("No Step Was Found"@))
    } else {
        match pipeline_model(options.steps->0, options, debug_level) {
            Err(e) => Err(e),
            Ok(pipeline) => match entry_kind_model(options.entry->0) {
                None => Err(ErrorView::Msg("Unknown entry"@)),
                Some(EntryKind::Stdio) => match crate::options::size_model(options.buffer_size) {
                    Ok(buffer_size) => Ok(ProxyView::Stdio { buffer_size, debug_level, pipeline }),
                    Err(e) => Err(e),
                },
                Some(EntryKind::Tcp) => match crate::options::endpoint_model(
                    options.tcp_entry_address,
                    options.tcp_entry_port,
                    options.buffer_size,
                    TCP_ENTRY_ADDRESS@,
                    TCP_ENTRY_PORT@,
                ) {
                    Ok((address, port, buffer_size)) => Ok(
                        ProxyView::Tcp { address, port, buffer_size, debug_level, pipeline },
                    ),
                    Err(e) => Err(e),
                },
                Some(EntryKind::Http) => match crate::options::endpoint_model(
                    options.http_entry_address,
                    options.http_entry_port,
                    options.buffer_size,
                    HTTP_ENTRY_ADDRESS@,
                    HTTP_ENTRY_PORT@,
                ) {
                    Ok((address, port, buffer_size)) => Ok(
                        ProxyView::Http { address, port, buffer_size, debug_level, pipeline },
                    ),
                    Err(e) => Err(e),
                },
            },
        }
    }
}

/// Makes the step that `name` selects.
pub fn make_step(name: &str, options: &Options, debug_level: DebugLevel) -> (made: Result<
    Stage,
    Error,
>)
    ensures
        match made {
            Ok(step) => step_model(name@, options@, debug_level) == Ok::<StageView, ErrorView>(
                step@,
            ),
            Err(e) => step_model(name@, options@, debug_level) == Err::<StageView, ErrorView>(e@),
        },
{
    match step_kind(name) {
        Some(StepKind::Stdio) => {
            match StdioStep::configure(
                options.forward_stdout,
                options.backward_stdout,
                options.buffer_size.clone(),
                debug_level,
            ) {
                Ok(step) => Ok(Stage::Stdio(step)),
                Err(e) => Err(e),
            }
        },
        Some(StepKind::Tcp) => {
            match TcpStep::configure(
                options.tcp_step_address.clone(),
                options.tcp_step_port.clone(),
                options.buffer_size.clone(),
                debug_level,
            ) {
                Ok(step) => Ok(Stage::Tcp(step)),
                Err(e) => Err(e),
            }
        },
        None => Err(Error::Msg("Unknown step".to_owned())),
    }
}

/// Makes the pipeline that `names` select.
pub fn make_pipeline(
    names: &Vec<String>,
    options: &Options,
    debug_level: DebugLevel,
) -> (made: Result<Pipeline<Stage>, Error>)
    ensures
        match made {
            Ok(pipeline) => pipeline_model(names.deep_view(), options@, debug_level) == Ok::<
                Seq<StageView>,
                ErrorView,
            >(stage_views(pipeline@)),
            Err(e) => pipeline_model(names.deep_view(), options@, debug_level) == Err::<
                Seq<StageView>,
                ErrorView,
            >(e@),
        },
{
    let mut pipeline: Pipeline<Stage> = Pipeline::new();
    let ghost all = names.deep_view();
    let n = names.len();
    let mut i: usize = 0;
    proof {
        assert(all.take(0) =~= Seq::<Seq<char>>::empty());
        assert(stage_views(pipeline@) =~= Seq::<StageView>::empty());
    }
    while i < n
        invariant
            n == names@.len(),
            all == names.deep_view(),
            0 <= i <= n,
            pipeline_model(all.take(i as int), options@, debug_level) == Ok::<
                Seq<StageView>,
                ErrorView,
            >(stage_views(pipeline@)),
        decreases n - i,
    {
        let ghost longer = all.take(i as int + 1);
        proof {
            assert(longer.drop_last() =~= all.take(i as int));
            assert(longer.last() == names@[i as int]@);
        }
        let ghost before = pipeline@;
        match make_step(names[i].as_str(), options, debug_level) {
            Ok(step) => {
                pipeline.add_step(step);
                proof {
                    assert(stage_views(pipeline@) =~= stage_views(before).push(step@));
                }
            },
            Err(e) => {
                proof {
                    failed_prefix_fails(all, i as int + 1, options@, debug_level);
                }
                return Err(e);
            },
        }
        i = i + 1;
    }
    proof {
        assert(all.take(n as int) =~= all);
    }
    Ok(pipeline)
}

/// Once a step cannot be made, no pipeline can: a failure within a prefix
/// of the names is the failure of them all.
pub proof fn failed_prefix_fails(
    names: Seq<Seq<char>>,
    upto: int,
    options: OptionsView,
    debug_level: DebugLevel,
)
    requires
        0 <= upto <= names.len(),
        pipeline_model(names.take(upto), options, debug_level) is Err,
    ensures
        pipeline_model(names, options, debug_level) == pipeline_model(
            names.take(upto),
            options,
            debug_level,
        ),
    decreases names.len() - upto,
{
    if upto == names.len() {
        assert(names.take(upto) =~= names);
    } else {
        assert(names.drop_last().take(upto) =~= names.take(upto));
        failed_prefix_fails(names.drop_last(), upto, options, debug_level);
    }
}

/// Assembles the proxy that `options` describe.
pub fn assemble(options: Options, debug_level: DebugLevel) -> (made: Result<Proxy, Error>)
    ensures
        match made {
            Ok(proxy) => run_model(options@, debug_level) == Ok::<ProxyView, ErrorView>(proxy@)
                && proxy.is_fresh(),
            Err(e) => run_model(options@, debug_level) == Err::<ProxyView, ErrorView>(e@),
        },
{
    let entry = match &options.entry {
        Some(name) => name.clone(),
        None => {
            return Err(Error::Msg("No Entry was found".to_owned()));
        },
    };
    let pipeline = match &options.steps {
        Some(names) => match make_pipeline(names, &options, debug_level) {
            Ok(pipeline) => pipeline,
            Err(e) => {
                return Err(e);
            },
        },
        None => {
            return Err(Error::Msg("No Step Was Found".to_owned()));
        },
    };
    match entry_kind(entry.as_str()) {
        None => Err(Error::Msg("Unknown entry".to_owned())),
        Some(EntryKind::Stdio) => {
            match StdioEntry::configure(options.buffer_size, pipeline, debug_level) {
                Ok(entry) => Ok(Proxy::Stdio(entry)),
                Err(e) => Err(e),
            }
        },
        Some(EntryKind::Tcp) => {
            match TcpEntry::configure(
                options.tcp_entry_address,
                options.tcp_entry_port,
                options.buffer_size,
                pipeline,
                debug_level,
            ) {
                Ok(entry) => Ok(Proxy::Tcp(entry)),
                Err(e) => Err(e),
            }
        },
        Some(EntryKind::Http) => {
            match HttpEntry::configure(
                options.http_entry_address,
                options.http_entry_port,
                options.buffer_size,
                pipeline,
                debug_level,
            ) {
                Ok(entry) => Ok(Proxy::Http(entry)),
                Err(e) => Err(e),
            }
        },
    }
}

/// Assembles the proxy that a parsed command line describes.
pub fn run(cli_parsed: CliParsed, debug_level: DebugLevel) -> (made: Result<Proxy, Error>)
    ensures
        match made {
            Ok(proxy) => run_model(
                options_model(parsed_values(cli_parsed), parsed_names(cli_parsed)),
                debug_level,
            ) == Ok::<ProxyView, ErrorView>(proxy@) && proxy.is_fresh(),
            Err(e) => run_model(
                options_model(parsed_values(cli_parsed), parsed_names(cli_parsed)),
                debug_level,
            ) == Err::<ProxyView, ErrorView>(e@),
        },
{
    let options = read_options(&cli_parsed);
    assemble(options, debug_level)
}

} // verus!
