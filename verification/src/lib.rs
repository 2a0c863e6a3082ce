//! A byte-oriented proxy core without I/O of its own.
//!
//! A proxy binds one *entry*, which takes traffic in, to a *pipeline*: an
//! ordered chain of *steps* that carry bytes toward a far end and carry the
//! replies back. This crate holds the decisions of such a proxy: what each
//! step writes and passes on, how a pipeline threads bytes through its steps
//! in both directions, how the two buffers of a connection are filled and
//! emptied, how readiness tokens are dispensed and routed.
//!
//! The library reads no socket and writes to none. A host owns the
//! endpoints and the readiness facility and runs the event loop:
//!
//! 1. It has [`run::run`] assemble the proxy from a parsed command line and
//!    sets up what [`Entry::listen`] asks for.
//! 2. For each readiness event it calls `on_ready` with the token of the
//!    event and gets a list of [`context::Action`]s.
//! 3. It carries out each action, a read or a write, and reports the
//!    outcome with the `on_...` function that the action names, which
//!    answers with further actions, until none is left.
//!
//! Every decision in between is taken here and is stated in the contract
//! of the function that takes it.

pub mod base;
pub mod context;
pub mod data_structures;
pub mod entry;
pub mod http;
pub mod id_pool;
pub mod notice;
pub mod options;
pub mod pipeline;
pub mod resolver;
pub mod run;
pub mod stage;
pub mod stdio;
pub mod tcp;
pub mod token;

pub use base::{BoxedClone, DebugLevel, Error, Step, StepStatic};
pub use data_structures::{MultiMap, Ref};
pub use entry::{Entry, EntryStatic};
pub use http::HttpEntry;
pub use id_pool::{IdPool, NonUnsignedFloat};
pub use options::BUFFER_SIZE;
pub use pipeline::Pipeline;
pub use resolver::create_socket_addr;
pub use stdio::{StdioEntry, StdioStep};
pub use tcp::{TcpEntry, TcpStep};
