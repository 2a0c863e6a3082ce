//! The framed request/response entry.

use vstd::prelude::*;
use cliparser::types::{CliParsed, CliSpec};
use crate::base::{DebugLevel, Error, ErrorView};
use crate::context::ContextView;
use crate::entry::{
    reading, Connections, Entry, EntryStatic, Interest, Listen, ListenView, Settings,
    EVENT_CAPACITY,
};
use crate::options::{OptionSpecView, 
    add_argument, declared_options, endpoint_model, endpoint_settings, first_value, get_first,
    parsed_values, setting, setting_model, BUFFER_SIZE,
};
use crate::pipeline::Pipeline;
use crate::stage::Stage;
use crate::token::SERVER_TOKEN;

verus! {

/// The name of the option that holds the address that the framed
/// request/response entry listens on.
pub const HTTP_ENTRY_ADDRESS: &'static str = "http-entry-address";

/// The key of the listen address.
pub const HTTP_ENTRY_ADDRESS_KEY: &'static str = "--http-ea";

/// The help text of the listen address.
pub const HTTP_ENTRY_ADDRESS_HELP: &'static str = "(HttpEntry) Http Entry listen address";

/// The listen address where none is given.
pub const HTTP_ENTRY_ADDRESS_DEFAULT: &'static str = "0.0.0.0";

/// The name of the option that holds the port that the framed
/// request/response entry listens on.
pub const HTTP_ENTRY_PORT: &'static str = "http-entry-port";

/// The key of the listen port.
pub const HTTP_ENTRY_PORT_KEY: &'static str = "--http-ep";

/// The help text of the listen port.
pub const HTTP_ENTRY_PORT_HELP: &'static str = "(HttpEntry) Http Entry listen port";

/// The listen port where none is given.
pub const HTTP_ENTRY_PORT_DEFAULT: &'static str = "80";

/// The framed request/response entry: it listens for HTTP/2 connections.
/// Each request is an ingress endpoint: the body of the request is what is
/// read from it, the body of the response is what is written to it.
pub struct HttpEntry {
    /// The host name or literal address to listen on.
    pub address: String,
    /// The port to listen on.
    pub port: u16,
    /// The connections that are open, with the pipeline template and the
    /// settings of the entry.
    pub connections: Connections<Stage>,
}

impl HttpEntry {
    /// The address, the port and the settings of the entry that the option
    /// values describe, or the error that is in their place.
    pub open spec fn configure_model(
        address: Option<Seq<char>>,
        port: Option<Seq<char>>,
        buffer_size: Option<Seq<char>>,
        pipeline: Seq<Stage>,
        debug_level: DebugLevel,
    ) -> Result<(Seq<char>, u16, Settings<Stage>), ErrorView> {
        match endpoint_model(address, port, buffer_size, HTTP_ENTRY_ADDRESS@, HTTP_ENTRY_PORT@) {
            Ok((address, port, buffer_size)) => Ok(
                (address, port, Settings { template: pipeline, buffer_size, debug_level }),
            ),
            Err(e) => Err(e),
        }
    }

    /// What the contracts see of an entry: its address, its port and its
    /// settings.
    pub open spec fn configuration(&self) -> (Seq<char>, u16, Settings<Stage>) {
        (self.address@, self.port, self.connections.settings())
    }

    /// Makes an entry from the values of its options, where they are
    /// given. No connection is open yet.
    pub fn configure(
        address: Option<String>,
        port: Option<String>,
        buffer_size: Option<String>,
        pipeline: Pipeline<Stage>,
        debug_level: DebugLevel,
    ) -> (made: Result<HttpEntry, Error>)
        ensures
            match made {
                Ok(entry) => {
                    &&& Self::configure_model(
                        address.deep_view(),
                        port.deep_view(),
                        buffer_size.deep_view(),
                        pipeline@,
                        debug_level,
                    ) == Ok::<(Seq<char>, u16, Settings<Stage>), ErrorView>(entry.configuration())
                    &&& entry.connections.wf()
                    &&& entry.connections@ == Map::<usize, ContextView<Stage>>::empty()
                },
                Err(e) => Self::configure_model(
                    address.deep_view(),
                    port.deep_view(),
                    buffer_size.deep_view(),
                    pipeline@,
                    debug_level,
                ) == Err::<(Seq<char>, u16, Settings<Stage>), ErrorView>(e@),
            },
    {
        match endpoint_settings(address, port, buffer_size, HTTP_ENTRY_ADDRESS, HTTP_ENTRY_PORT) {
            Ok((address, port, buffer_size)) => Ok(
                HttpEntry {
                    address,
                    port,
                    connections: Connections::new(pipeline, buffer_size, debug_level),
                },
            ),
            Err(e) => Err(e),
        }
    }
}

impl Entry for HttpEntry {
    /// The host binds a listening endpoint to the address and port of the
    /// entry and registers it under the server token, for reading.
    open spec fn plan(&self) -> ListenView {
        ListenView {
            bind: Some((self.address@, self.port)),
            token: SERVER_TOKEN,
            interest: reading(),
            pipeline: None,
            capacity: EVENT_CAPACITY,
        }
    }

    fn listen(&mut self) -> (plan: Listen) {
        Listen {
            bind: Some((self.address.clone(), self.port)),
            token: SERVER_TOKEN,
            interest: Interest { readable: true, writable: false },
            pipeline: None,
            capacity: EVENT_CAPACITY,
        }
    }
}

impl EntryStatic<HttpEntry> for HttpEntry {
    /// Makes the entry that a parsed command line describes, from the first
    /// value of each of its three options.
    fn new(args: CliParsed, pipeline: Pipeline<Stage>, debug_level: DebugLevel) -> (made: Result<
        HttpEntry,
        Error,
    >)
        ensures
            match made {
                Ok(entry) => {
                    &&& Self::configure_model(
                        first_value(parsed_values(args), HTTP_ENTRY_ADDRESS@),
                        first_value(parsed_values(args), HTTP_ENTRY_PORT@),
                        first_value(parsed_values(args), BUFFER_SIZE@),
                        pipeline@,
                        debug_level,
                    ) == Ok::<(Seq<char>, u16, Settings<Stage>), ErrorView>(entry.configuration())
                    &&& entry.connections.wf()
                    &&& entry.connections@ == Map::<usize, ContextView<Stage>>::empty()
                },
                Err(e) => Self::configure_model(
                    first_value(parsed_values(args), HTTP_ENTRY_ADDRESS@),
                    first_value(parsed_values(args), HTTP_ENTRY_PORT@),
                    first_value(parsed_values(args), BUFFER_SIZE@),
                    pipeline@,
                    debug_level,
                ) == Err::<(Seq<char>, u16, Settings<Stage>), ErrorView>(e@),
            },
    {
        let address = get_first(&args, HTTP_ENTRY_ADDRESS);
        let port = get_first(&args, HTTP_ENTRY_PORT);
        let buffer_size = get_first(&args, BUFFER_SIZE);
        HttpEntry::configure(address, port, buffer_size, pipeline, debug_level)
    }

    /// The two options of the framed request/response entry: the address to listen on and
    /// the port.
    open spec fn options() -> Seq<OptionSpecView> {
        seq![
            setting_model(
                HTTP_ENTRY_ADDRESS,
                HTTP_ENTRY_ADDRESS_KEY,
                HTTP_ENTRY_ADDRESS_DEFAULT,
                HTTP_ENTRY_ADDRESS_HELP,
            ),
            setting_model(
                HTTP_ENTRY_PORT,
                HTTP_ENTRY_PORT_KEY,
                HTTP_ENTRY_PORT_DEFAULT,
                HTTP_ENTRY_PORT_HELP,
            ),
        ]
    }

    fn get_cmd(argument: CliSpec) -> (extended: CliSpec) {
        let ghost start = declared_options(argument);
        let argument = add_argument(
            argument,
            setting(
                HTTP_ENTRY_ADDRESS,
                HTTP_ENTRY_ADDRESS_KEY,
                HTTP_ENTRY_ADDRESS_DEFAULT,
                HTTP_ENTRY_ADDRESS_HELP,
            ),
        );
        let extended = add_argument(
            argument,
            setting(
                HTTP_ENTRY_PORT,
                HTTP_ENTRY_PORT_KEY,
                HTTP_ENTRY_PORT_DEFAULT,
                HTTP_ENTRY_PORT_HELP,
            ),
        );
        assert(declared_options(extended) =~= start + Self::options());
        extended
    }
}

} // verus!
