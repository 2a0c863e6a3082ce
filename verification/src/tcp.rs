//! The raw stream entry and the raw stream step.

use vstd::prelude::*;
use cliparser::types::{CliParsed, CliSpec};
use crate::base::{
    dump, dump_model, emit, intake_model, take_in, BoxedClone, DebugLevel, Emission,
    EmissionView, Endpoint, Error, ErrorView, Passage, ReadRequest, Step, StepStatic, writes_of,
    BACKWARD_OPENING, FORWARD_OPENING, NO_DESCRIPTOR,
};
use crate::context::ContextView;
use crate::entry::{
    reading, Connections, Entry, EntryStatic, Interest, Listen, ListenView, Settings,
    EVENT_CAPACITY,
};
use crate::pipeline::Pipeline;
use crate::stage::Stage;
use crate::token::SERVER_TOKEN;
use crate::options::{OptionSpecView, 
    add_argument, declared_options, endpoint_model, endpoint_settings, first_value, get_first,
    parsed_values, setting, setting_model, BUFFER_SIZE,
};

verus! {

/// The label of the stream step's dump of bytes on their way forward.
pub const TCP_FORWARD_LABEL: &'static str = "\ntcp forward : \n";

/// The label of the stream step's dump of bytes on their way backward.
pub const TCP_BACKWARD_LABEL: &'static str = "\ntcp backward : \n";

/// The name of the option that holds the address of the remote endpoint.
pub const TCP_STEP_ADDRESS: &'static str = "tcp-step-address";

/// The key of the address of the remote endpoint.
pub const TCP_STEP_ADDRESS_KEY: &'static str = "--tcp-sa";

/// The help text of the address of the remote endpoint.
pub const TCP_STEP_ADDRESS_HELP: &'static str = "(TcpStep) Tcp step endpoint address";

/// The address of the remote endpoint where none is given.
pub const TCP_STEP_ADDRESS_DEFAULT: &'static str = "127.0.0.1";

/// The name of the option that holds the port of the remote endpoint.
pub const TCP_STEP_PORT: &'static str = "tcp-step-port";

/// The key of the port of the remote endpoint.
pub const TCP_STEP_PORT_KEY: &'static str = "--tcp-sp";

/// The help text of the port of the remote endpoint.
pub const TCP_STEP_PORT_HELP: &'static str = "(TcpStep) Tcp step endpoint port";

/// The port of the remote endpoint where none is given.
pub const TCP_STEP_PORT_DEFAULT: &'static str = "80";

/// A step that forwards bytes to a remote endpoint over a stream socket of
/// its own and brings back what the remote sends.
///
/// On the way forward it asks for the bytes to be written verbatim to its
/// socket and passes them on unchanged. On the way backward it hands on
/// exactly the bytes that were read from its socket.
#[derive(Clone, Debug, PartialEq, Eq)]
pub struct TcpStep {
    /// The host name or literal address of the remote endpoint.
    pub address: String,
    /// The port of the remote endpoint.
    pub port: u16,
    /// The descriptor of the outbound socket, or `NO_DESCRIPTOR` while the
    /// step has none.
    pub connection: i32,
    pub debug_level: DebugLevel,
    /// The greatest number of bytes taken from the socket by one read.
    pub buffer_size: usize,
}

/// What the contracts see of a [`TcpStep`].
pub struct TcpStepView {
    pub address: Seq<char>,
    pub port: u16,
    pub connection: i32,
    pub debug_level: DebugLevel,
    pub buffer_size: usize,
}

impl View for TcpStep {
    type V = TcpStepView;

    open spec fn view(&self) -> TcpStepView {
        TcpStepView {
            address: self.address@,
            port: self.port,
            connection: self.connection,
            debug_level: self.debug_level,
            buffer_size: self.buffer_size,
        }
    }
}

impl TcpStep {
    /// The step that the three option values describe: it has the address,
    /// the port and the buffer size that they stand for, and holds no
    /// descriptor.
    pub open spec fn configure_model(
        address: Option<Seq<char>>,
        port: Option<Seq<char>>,
        buffer_size: Option<Seq<char>>,
        debug_level: DebugLevel,
    ) -> Result<TcpStepView, ErrorView> {
        match endpoint_model(address, port, buffer_size, TCP_STEP_ADDRESS@, TCP_STEP_PORT@) {
            Ok((address, port, buffer_size)) => Ok(
                TcpStepView { address, port, connection: NO_DESCRIPTOR, debug_level, buffer_size },
            ),
            Err(e) => Err(e),
        }
    }

    /// Makes a step from the values of its options, where they are given.
    pub fn configure(
        address: Option<String>,
        port: Option<String>,
        buffer_size: Option<String>,
        debug_level: DebugLevel,
    ) -> (made: Result<TcpStep, Error>)
        ensures
            match made {
                Ok(step) => Self::configure_model(
                    address.deep_view(),
                    port.deep_view(),
                    buffer_size.deep_view(),
                    debug_level,
                ) == Ok::<TcpStepView, ErrorView>(step@),
                Err(e) => Self::configure_model(
                    address.deep_view(),
                    port.deep_view(),
                    buffer_size.deep_view(),
                    debug_level,
                ) == Err::<TcpStepView, ErrorView>(e@),
            },
    {
        match endpoint_settings(address, port, buffer_size, TCP_STEP_ADDRESS, TCP_STEP_PORT) {
            Ok((address, port, buffer_size)) => Ok(
                TcpStep { address, port, connection: NO_DESCRIPTOR, debug_level, buffer_size },
            ),
            Err(e) => Err(e),
        }
    }

    /// The dump of `data` at the most verbose level, nothing below it.
    pub open spec fn dump_at_info(&self, opening: &str, label: &str, data: Seq<u8>) -> Seq<EmissionView> {
        if self.debug_level.rank() > 2 {
            dump_model(opening, label, data)
        } else {
            Seq::empty()
        }
    }

    fn dump_if_info(&self, opening: &str, label: &str, data: &Vec<u8>, writes: &mut Vec<Emission>)
        ensures
            writes_of(final(writes)@) == writes_of(old(writes)@) + self.dump_at_info(
                opening,
                label,
                data@,
            ),
    {
        if self.debug_level.at_least(3) {
            dump(opening, label, data, writes);
        } else {
            assert(writes_of(writes@) =~= writes_of(old(writes)@) + Seq::<EmissionView>::empty());
        }
    }
}

impl BoxedClone for TcpStep {
    /// A clone is configured as the step itself and holds no descriptor:
    /// the socket of a step stays its own.
    open spec fn detached(&self) -> Self {
        TcpStep { connection: NO_DESCRIPTOR, ..*self }
    }

    fn bclone(&self) -> (copy: Self) {
        TcpStep {
            address: self.address.clone(),
            port: self.port,
            connection: NO_DESCRIPTOR,
            debug_level: self.debug_level,
            buffer_size: self.buffer_size,
        }
    }
}

impl Step for TcpStep {
    open spec fn descriptor(&self) -> i32 {
        self.connection
    }

    open spec fn intake(&self) -> Option<ReadRequest> {
        Some(ReadRequest { source: Endpoint::Descriptor(self.connection), limit: self.buffer_size })
    }

    open spec fn attached(&self, descriptor: i32) -> Self {
        TcpStep { connection: descriptor, ..*self }
    }

    open spec fn forward_model(&self, data: Seq<u8>) -> Passage<Self> {
        Passage {
            step: *self,
            writes: self.dump_at_info(FORWARD_OPENING, TCP_FORWARD_LABEL, data).push(
                EmissionView { sink: Endpoint::Descriptor(self.connection), bytes: data },
            ),
            outcome: Ok(data),
        }
    }

    open spec fn backward_model(
        &self,
        data: Seq<u8>,
        received: Result<Seq<u8>, ErrorView>,
    ) -> Passage<Self> {
        Passage {
            step: *self,
            writes: match intake_model(received, self.buffer_size) {
                Ok(bytes) => self.dump_at_info(BACKWARD_OPENING, TCP_BACKWARD_LABEL, bytes),
                Err(_) => Seq::empty(),
            },
            outcome: intake_model(received, self.buffer_size),
        }
    }

    fn as_raw_fd(&self) -> (fd: i32) {
        self.connection
    }

    fn read_request(&self) -> (request: Option<ReadRequest>) {
        Some(ReadRequest { source: Endpoint::Descriptor(self.connection), limit: self.buffer_size })
    }

    fn attach(&mut self, descriptor: i32) {
        self.connection = descriptor;
    }

    fn process_data_forward(&mut self, data: &mut Vec<u8>, writes: &mut Vec<Emission>) -> (passed:
        Result<Vec<u8>, Error>) {
        self.dump_if_info(FORWARD_OPENING, TCP_FORWARD_LABEL, data, writes);
        emit(writes, Endpoint::Descriptor(self.connection), data.clone());
        assert(writes_of(writes@) =~= writes_of(old(writes)@) + self.forward_model(data@).writes);
        Ok(data.clone())
    }

    fn process_data_backward(
        &mut self,
        data: &mut Vec<u8>,
        received: Result<Vec<u8>, Error>,
        writes: &mut Vec<Emission>,
    ) -> (passed: Result<Vec<u8>, Error>) {
        let taken = take_in(received, self.buffer_size);
        match &taken {
            Ok(bytes) => {
                self.dump_if_info(BACKWARD_OPENING, TCP_BACKWARD_LABEL, bytes, writes);
            },
            Err(_) => {
                assert(writes_of(writes@) =~= writes_of(old(writes)@) + Seq::<
                    EmissionView,
                >::empty());
            },
        }
        taken
    }
}

impl StepStatic for TcpStep {
    /// Makes the step that a parsed command line describes, from the first
    /// value of each of its three options.
    fn new(args: CliParsed, debug_level: DebugLevel) -> (made: Result<Self, Error>)
        ensures
            match made {
                Ok(step) => Self::configure_model(
                    first_value(parsed_values(args), TCP_STEP_ADDRESS@),
                    first_value(parsed_values(args), TCP_STEP_PORT@),
                    first_value(parsed_values(args), BUFFER_SIZE@),
                    debug_level,
                ) == Ok::<TcpStepView, ErrorView>(step@),
                Err(e) => Self::configure_model(
                    first_value(parsed_values(args), TCP_STEP_ADDRESS@),
                    first_value(parsed_values(args), TCP_STEP_PORT@),
                    first_value(parsed_values(args), BUFFER_SIZE@),
                    debug_level,
                ) == Err::<TcpStepView, ErrorView>(e@),
            },
    {
        let address = get_first(&args, TCP_STEP_ADDRESS);
        let port = get_first(&args, TCP_STEP_PORT);
        let buffer_size = get_first(&args, BUFFER_SIZE);
        TcpStep::configure(address, port, buffer_size, debug_level)
    }

    /// The two options of the stream step: the address of the remote
    /// endpoint and its port.
    open spec fn options() -> Seq<OptionSpecView> {
        seq![
            setting_model(
                TCP_STEP_ADDRESS,
                TCP_STEP_ADDRESS_KEY,
                TCP_STEP_ADDRESS_DEFAULT,
                TCP_STEP_ADDRESS_HELP,
            ),
            setting_model(
                TCP_STEP_PORT,
                TCP_STEP_PORT_KEY,
                TCP_STEP_PORT_DEFAULT,
                TCP_STEP_PORT_HELP,
            ),
        ]
    }

    fn get_cmd(argument: CliSpec) -> (extended: CliSpec) {
        let ghost start = declared_options(argument);
        let argument = add_argument(
            argument,
            setting(
                TCP_STEP_ADDRESS,
                TCP_STEP_ADDRESS_KEY,
                TCP_STEP_ADDRESS_DEFAULT,
                TCP_STEP_ADDRESS_HELP,
            ),
        );
        let extended = add_argument(
            argument,
            setting(TCP_STEP_PORT, TCP_STEP_PORT_KEY, TCP_STEP_PORT_DEFAULT, TCP_STEP_PORT_HELP),
        );
        assert(declared_options(extended) =~= start + Self::options());
        extended
    }
}

/// The name of the option that holds the address that the raw stream entry
/// listens on.
pub const TCP_ENTRY_ADDRESS: &'static str = "tcp-entry-address";

/// The key of the listen address.
pub const TCP_ENTRY_ADDRESS_KEY: &'static str = "--tcp-ea";

/// The help text of the listen address.
pub const TCP_ENTRY_ADDRESS_HELP: &'static str = "(TcpEntry) Tcp Entry listen address";

/// The listen address where none is given.
pub const TCP_ENTRY_ADDRESS_DEFAULT: &'static str = "0.0.0.0";

/// The name of the option that holds the port that the raw stream entry
/// listens on.
pub const TCP_ENTRY_PORT: &'static str = "tcp-entry-port";

/// The key of the listen port.
pub const TCP_ENTRY_PORT_KEY: &'static str = "--tcp-ep";

/// The help text of the listen port.
pub const TCP_ENTRY_PORT_HELP: &'static str = "(TcpEntry) Tcp Entry listen port";

/// The listen port where none is given.
pub const TCP_ENTRY_PORT_DEFAULT: &'static str = "80";

/// The raw stream entry: it listens on a stream socket, and each
/// connection that it accepts is an ingress endpoint.
pub struct TcpEntry {
    /// The host name or literal address to listen on.
    pub address: String,
    /// The port to listen on.
    pub port: u16,
    /// The connections that are open, with the pipeline template and the
    /// settings of the entry.
    pub connections: Connections<Stage>,
}

impl TcpEntry {
    /// The address, the port and the settings of the entry that the option
    /// values describe, or the error that is in their place.
    pub open spec fn configure_model(
        address: Option<Seq<char>>,
        port: Option<Seq<char>>,
        buffer_size: Option<Seq<char>>,
        pipeline: Seq<Stage>,
        debug_level: DebugLevel,
    ) -> Result<(Seq<char>, u16, Settings<Stage>), ErrorView> {
        match endpoint_model(address, port, buffer_size, TCP_ENTRY_ADDRESS@, TCP_ENTRY_PORT@) {
            Ok((address, port, buffer_size)) => Ok(
                (address, port, Settings { template: pipeline, buffer_size, debug_level }),
            ),
            Err(e) => Err(e),
        }
    }

    /// What the contracts see of an entry: its address, its port and its
    /// settings.
    pub open spec fn configuration(&self) -> (Seq<char>, u16, Settings<Stage>) {
        (self.address@, self.port, self.connections.settings())
    }

    /// Makes an entry from the values of its options, where they are
    /// given. No connection is open yet.
    pub fn configure(
        address: Option<String>,
        port: Option<String>,
        buffer_size: Option<String>,
        pipeline: Pipeline<Stage>,
        debug_level: DebugLevel,
    ) -> (made: Result<TcpEntry, Error>)
        ensures
            match made {
                Ok(entry) => {
                    &&& Self::configure_model(
                        address.deep_view(),
                        port.deep_view(),
                        buffer_size.deep_view(),
                        pipeline@,
                        debug_level,
                    ) == Ok::<(Seq<char>, u16, Settings<Stage>), ErrorView>(entry.configuration())
                    &&& entry.connections.wf()
                    &&& entry.connections@ == Map::<usize, ContextView<Stage>>::empty()
                },
                Err(e) => Self::configure_model(
                    address.deep_view(),
                    port.deep_view(),
                    buffer_size.deep_view(),
                    pipeline@,
                    debug_level,
                ) == Err::<(Seq<char>, u16, Settings<Stage>), ErrorView>(e@),
            },
    {
        match endpoint_settings(address, port, buffer_size, TCP_ENTRY_ADDRESS, TCP_ENTRY_PORT) {
            Ok((address, port, buffer_size)) => Ok(
                TcpEntry {
                    address,
                    port,
                    connections: Connections::new(pipeline, buffer_size, debug_level),
                },
            ),
            Err(e) => Err(e),
        }
    }
}

impl Entry for TcpEntry {
    /// The host binds a listening endpoint to the address and port of the
    /// entry and registers it under the server token, for reading.
    open spec fn plan(&self) -> ListenView {
        ListenView {
            bind: Some((self.address@, self.port)),
            token: SERVER_TOKEN,
            interest: reading(),
            pipeline: None,
            capacity: EVENT_CAPACITY,
        }
    }

    fn listen(&mut self) -> (plan: Listen) {
        Listen {
            bind: Some((self.address.clone(), self.port)),
            token: SERVER_TOKEN,
            interest: Interest { readable: true, writable: false },
            pipeline: None,
            capacity: EVENT_CAPACITY,
        }
    }
}

impl EntryStatic<TcpEntry> for TcpEntry {
    /// Makes the entry that a parsed command line describes, from the first
    /// value of each of its three options.
    fn new(args: CliParsed, pipeline: Pipeline<Stage>, debug_level: DebugLevel) -> (made: Result<
        TcpEntry,
        Error,
    >)
        ensures
            match made {
                Ok(entry) => {
                    &&& Self::configure_model(
                        first_value(parsed_values(args), TCP_ENTRY_ADDRESS@),
                        first_value(parsed_values(args), TCP_ENTRY_PORT@),
                        first_value(parsed_values(args), BUFFER_SIZE@),
                        pipeline@,
                        debug_level,
                    ) == Ok::<(Seq<char>, u16, Settings<Stage>), ErrorView>(entry.configuration())
                    &&& entry.connections.wf()
                    &&& entry.connections@ == Map::<usize, ContextView<Stage>>::empty()
                },
                Err(e) => Self::configure_model(
                    first_value(parsed_values(args), TCP_ENTRY_ADDRESS@),
                    first_value(parsed_values(args), TCP_ENTRY_PORT@),
                    first_value(parsed_values(args), BUFFER_SIZE@),
                    pipeline@,
                    debug_level,
                ) == Err::<(Seq<char>, u16, Settings<Stage>), ErrorView>(e@),
            },
    {
        let address = get_first(&args, TCP_ENTRY_ADDRESS);
        let port = get_first(&args, TCP_ENTRY_PORT);
        let buffer_size = get_first(&args, BUFFER_SIZE);
        TcpEntry::configure(address, port, buffer_size, pipeline, debug_level)
    }

    /// The two options of the raw stream entry: the address to listen on and
    /// the port.
    open spec fn options() -> Seq<OptionSpecView> {
        seq![
            setting_model(
                TCP_ENTRY_ADDRESS,
                TCP_ENTRY_ADDRESS_KEY,
                TCP_ENTRY_ADDRESS_DEFAULT,
                TCP_ENTRY_ADDRESS_HELP,
            ),
            setting_model(
                TCP_ENTRY_PORT,
                TCP_ENTRY_PORT_KEY,
                TCP_ENTRY_PORT_DEFAULT,
                TCP_ENTRY_PORT_HELP,
            ),
        ]
    }

    fn get_cmd(argument: CliSpec) -> (extended: CliSpec) {
        let ghost start = declared_options(argument);
        let argument = add_argument(
            argument,
            setting(
                TCP_ENTRY_ADDRESS,
                TCP_ENTRY_ADDRESS_KEY,
                TCP_ENTRY_ADDRESS_DEFAULT,
                TCP_ENTRY_ADDRESS_HELP,
            ),
        );
        let extended = add_argument(
            argument,
            setting(
                TCP_ENTRY_PORT,
                TCP_ENTRY_PORT_KEY,
                TCP_ENTRY_PORT_DEFAULT,
                TCP_ENTRY_PORT_HELP,
            ),
        );
        assert(declared_options(extended) =~= start + Self::options());
        extended
    }
}

} // verus!
