//! What every entry keeps: the pipeline template, the connections that are
//! open, and the tokens under which the readiness facility knows them.

use vstd::prelude::*;
use cliparser::types::{CliParsed, CliSpec};
use crate::base::{received_view, DebugLevel, Error, ErrorView, Step, NO_DESCRIPTOR};
use crate::context::{
    actions_of, failed, push_action, push_failure, push_report, report, Action, ActionView,
    ContextView, EntryContext,
};
use crate::data_structures::{MultiMap, Ref};
use crate::id_pool::IdPool;
use crate::notice::{Notice, NoticeView};
use crate::options::{declared_options, OptionSpecView};
use crate::pipeline::{attached_all, descriptors_of, detached_all, Pipeline};
use crate::stage::Stage;
use crate::token::{
    context_id, context_id_model, ingress_token, ingress_token_model, pipeline_token,
    pipeline_token_model, route, route_model, Route, MAX_CONTEXT_ID, MAX_TOKEN, SERVER_TOKEN,
};

verus! {

broadcast use vstd::std_specs::hash::group_hash_axioms;

/// The number of events that the host takes from the readiness facility at
/// a time.
pub const EVENT_CAPACITY: usize = 128;

/// The kinds of readiness that an endpoint is registered for.
#[derive(Clone, Copy, Debug, PartialEq, Eq, Structural)]
pub struct Interest {
    pub readable: bool,
    pub writable: bool,
}

/// The interest in an endpoint that is only read from.
pub open spec fn reading() -> Interest {
    Interest { readable: true, writable: false }
}

/// The interest in an endpoint that is read from and written to.
pub open spec fn reading_and_writing() -> Interest {
    Interest { readable: true, writable: true }
}

/// The registration of a descriptor with the readiness facility.
#[derive(Clone, Copy, Debug, PartialEq, Eq, Structural)]
pub struct Registration {
    pub token: usize,
    pub descriptor: i32,
    pub interest: Interest,
}

/// What the host sets up before it enters the event loop.
#[derive(Clone, Debug, PartialEq, Eq)]
pub struct Listen {
    /// The address and port to bind the listening endpoint to, for an
    /// entry that has one.
    pub bind: Option<(String, u16)>,
    /// The token under which the listening endpoint, or for an entry
    /// without one the ingress endpoint, is registered.
    pub token: usize,
    /// The interest with which that endpoint is registered.
    pub interest: Interest,
    /// The registration of the pipeline, for an entry whose one connection
    /// is open from the start.
    pub pipeline: Option<Registration>,
    /// The number of events to take at a time.
    pub capacity: usize,
}

/// What the contracts see of a [`Listen`].
pub struct ListenView {
    pub bind: Option<(Seq<char>, u16)>,
    pub token: usize,
    pub interest: Interest,
    pub pipeline: Option<Registration>,
    pub capacity: usize,
}

impl View for Listen {
    type V = ListenView;

    open spec fn view(&self) -> ListenView {
        ListenView {
            bind: match self.bind {
                Some((address, port)) => Some((address@, port)),
                None => None,
            },
            token: self.token,
            interest: self.interest,
            pipeline: self.pipeline,
            capacity: self.capacity,
        }
    }
}

/// The ingress of a proxy: it takes traffic in and drives the connections.
pub trait Entry: Sized {
    /// What the host sets up before it enters the event loop.
    spec fn plan(&self) -> ListenView;

    /// What the host sets up before it enters the event loop. The entry
    /// is as it was.
    fn listen(&mut self) -> (plan: Listen)
        ensures
            plan@ == old(self).plan(),
            *final(self) == *old(self),
    ;
}

/// What an entry type offers before there is an entry: its options and its
/// construction from a parsed command line.
pub trait EntryStatic<T> where T: Entry {
    /// Makes the entry that a parsed command line describes, with
    /// `pipeline` as its template.
    fn new(args: CliParsed, pipeline: Pipeline<Stage>, debug_level: DebugLevel) -> (made: Result<
        T,
        Error,
    >);

    /// The options that this entry type declares, in order.
    spec fn options() -> Seq<OptionSpecView>;

    /// Adds the options of this entry type to a command-line specification.
    fn get_cmd(argument: CliSpec) -> (extended: CliSpec)
        ensures
            declared_options(extended) == declared_options(argument) + Self::options(),
    ;
}

/// What the host registers for a connection that was accepted.
#[derive(Clone, Debug, PartialEq, Eq)]
pub struct Accepted {
    /// The token under which the ingress endpoint is registered.
    pub token: usize,
    /// The interest with which the ingress endpoint is registered.
    pub interest: Interest,
    /// The token of the pipeline.
    pub pipeline_token: usize,
    /// The descriptor that stands for the pipeline: that of its last step.
    pub descriptor: i32,
    /// The registration of the pipeline, unless its last step holds no
    /// descriptor.
    pub pipeline: Option<Registration>,
    /// Whether the connection is announced.
    pub announce: bool,
}

/// What the host lets go of when a connection is closed.
#[derive(Clone, Debug, PartialEq, Eq)]
pub struct Closed {
    /// The token under which the ingress endpoint was registered.
    pub token: usize,
    /// The token of the pipeline.
    pub pipeline_token: usize,
    /// The registration of the pipeline, if it had one.
    pub pipeline: Option<Registration>,
    /// The descriptors that the steps of the connection held, in the order
    /// of the steps.
    pub descriptors: Vec<i32>,
}

/// The registration of the pipeline that a connection asks for: none for a
/// pipeline whose last step holds no descriptor, since its handle never
/// becomes ready.
pub open spec fn pipeline_registration(token: usize, descriptor: i32) -> Option<Registration> {
    if descriptor == NO_DESCRIPTOR {
        None
    } else {
        Some(Registration { token, descriptor, interest: reading_and_writing() })
    }
}

/// The registration of the pipeline of a connection, if it asks for one.
pub fn register_pipeline(token: usize, descriptor: i32) -> (registration: Option<Registration>)
    ensures
        registration == pipeline_registration(token, descriptor),
{
    if descriptor == NO_DESCRIPTOR {
        None
    } else {
        Some(
            Registration {
                token,
                descriptor,
                interest: Interest { readable: true, writable: true },
            },
        )
    }
}

/// The contexts by token, with the context of the connection that `token`
/// belongs to replaced by `context` under both of its tokens.
pub open spec fn with_context<S>(
    contexts: Map<usize, ContextView<S>>,
    token: usize,
    context: ContextView<S>,
) -> Map<usize, ContextView<S>> {
    Map::new(
        |t: usize| contexts.contains_key(t),
        |t: usize|
            if context_id_model(t) == context_id_model(token) {
                context
            } else {
                contexts[t]
            },
    )
}

/// Connections are independent: what changes the context of one
/// connection leaves the context that any token of another connection
/// finds as it was.
pub proof fn other_connections_are_untouched<S>(
    contexts: Map<usize, ContextView<S>>,
    token: usize,
    context: ContextView<S>,
    other: usize,
)
    requires
        contexts.contains_key(other),
        context_id_model(other) != context_id_model(token),
    ensures
        with_context(contexts, token, context).contains_key(other),
        with_context(contexts, token, context)[other] == contexts[other],
{
}

/// The open connections of an entry.
///
/// Every connection has a context and two tokens, one for each side; both
/// tokens find the one context.
pub struct Connections<S: Step> {
    /// The pipeline that every connection gets a clone of.
    pipeline_template: Pipeline<S>,
    connections: MultiMap<usize, Ref<EntryContext<S>>>,
    ids: IdPool<usize>,
    /// The greatest number of bytes taken by one read.
    buffer_size: usize,
    debug_level: DebugLevel,
}

/// What an entry is configured with.
pub struct Settings<S> {
    /// The steps of the pipeline template.
    pub template: Seq<S>,
    /// The greatest number of bytes taken by one read.
    pub buffer_size: usize,
    pub debug_level: DebugLevel,
}

impl<S: Step> Connections<S> {
    /// Tokens are in use in pairs: each token in use is one that a
    /// connection can hold, the two tokens of its connection share one
    /// context, and only the tokens of one connection do.
    closed spec fn paired(connections: MultiMap<usize, Ref<EntryContext<S>>>) -> bool {
        &&& connections.wf()
        &&& forall|t: usize| #[trigger]
            connections@.contains_key(t) ==> {
                &&& t != SERVER_TOKEN
                &&& t <= MAX_TOKEN
                &&& connections.shares(
                    ingress_token_model(context_id_model(t) as usize) as usize,
                    pipeline_token_model(context_id_model(t) as usize) as usize,
                )
            }
        &&& forall|a: usize, b: usize| #[trigger]
            connections.shares(a, b) ==> context_id_model(a) == context_id_model(b)
    }

    /// The identifiers that are handed out are those whose tokens are in
    /// use, but for `pending`, which is handed out while its tokens are
    /// not in use.
    closed spec fn accounted(
        connections: MultiMap<usize, Ref<EntryContext<S>>>,
        ids: IdPool<usize>,
        pending: Option<usize>,
    ) -> bool {
        &&& ids.capacity() == MAX_CONTEXT_ID + 1
        &&& forall|id: usize|
            id <= MAX_CONTEXT_ID ==> (#[trigger] ids.is_taken(id as nat) <==> (
            connections@.contains_key(ingress_token_model(id) as usize) || pending == Some(id)))
    }

    /// The invariant: the tokens in use are those of the identifiers that
    /// are handed out, two for each, and the two tokens of an identifier
    /// share one context.
    pub closed spec fn wf(&self) -> bool {
        &&& Self::paired(self.connections)
        &&& Self::accounted(self.connections, self.ids, None)
    }

    /// Binding the two tokens of a connection that holds none yet to one
    /// context keeps the tokens in pairs.
    proof fn pairs_after_install(
        before: MultiMap<usize, Ref<EntryContext<S>>>,
        inserted: MultiMap<usize, Ref<EntryContext<S>>>,
        after: MultiMap<usize, Ref<EntryContext<S>>>,
        id: usize,
    )
        requires
            id <= MAX_CONTEXT_ID,
            Self::paired(before),
            !before@.contains_key(ingress_token_model(id) as usize),
            inserted.wf(),
            after.wf(),
            inserted@.dom() == before@.dom().insert(ingress_token_model(id) as usize),
            after@.dom() == inserted@.dom().insert(pipeline_token_model(id) as usize),
            forall|a: usize, b: usize|
                #[trigger] inserted.shares(a, b) == (if a == ingress_token_model(id) || b
                    == ingress_token_model(id) {
                    a == b
                } else {
                    before.shares(a, b)
                }),
            forall|a: usize, b: usize|
                #[trigger] after.shares(a, b) == inserted.shares(
                    if a == pipeline_token_model(id) {
                        ingress_token_model(id) as usize
                    } else {
                        a
                    },
                    if b == pipeline_token_model(id) {
                        ingress_token_model(id) as usize
                    } else {
                        b
                    },
                ),
        ensures
            Self::paired(after),
            !before@.contains_key(pipeline_token_model(id) as usize),
    {
        let token = ingress_token_model(id) as usize;
        let pipeline_token = pipeline_token_model(id) as usize;
        if before@.contains_key(pipeline_token) {
            before.sharing_is_sound(token, pipeline_token, pipeline_token);
            assert(false);
        }
        assert forall|t: usize| #[trigger] after@.contains_key(t) implies {
            &&& t != SERVER_TOKEN
            &&& t <= MAX_TOKEN
            &&& after.shares(
                ingress_token_model(context_id_model(t) as usize) as usize,
                pipeline_token_model(context_id_model(t) as usize) as usize,
            )
        } by {
            assert(inserted@.dom().contains(t) || t == pipeline_token);
            assert(before@.dom().contains(t) || t == token || t == pipeline_token);
            if t != token && t != pipeline_token {
                assert(before@.contains_key(t));
                let a = ingress_token_model(context_id_model(t) as usize) as usize;
                let b = pipeline_token_model(context_id_model(t) as usize) as usize;
                assert(before.shares(a, b));
                assert(inserted.shares(a, b));
            } else {
                assert(inserted.shares(token, token));
            }
        }
        assert forall|a: usize, b: usize| #[trigger] after.shares(a, b) implies context_id_model(a)
            == context_id_model(b) by {
            let a0 = if a == pipeline_token {
                token
            } else {
                a
            };
            let b0 = if b == pipeline_token {
                token
            } else {
                b
            };
            assert(inserted.shares(a0, b0));
            if a0 != token && b0 != token {
                assert(before.shares(a0, b0));
            }
        }
    }

    /// Unbinding the two tokens of a connection keeps the tokens in pairs.
    proof fn pairs_after_removal(
        before: MultiMap<usize, Ref<EntryContext<S>>>,
        halfway: MultiMap<usize, Ref<EntryContext<S>>>,
        after: MultiMap<usize, Ref<EntryContext<S>>>,
        id: usize,
    )
        requires
            id <= MAX_CONTEXT_ID,
            Self::paired(before),
            halfway.wf(),
            after.wf(),
            halfway@.dom() == before@.dom().remove(ingress_token_model(id) as usize),
            after@.dom() == halfway@.dom().remove(pipeline_token_model(id) as usize),
            forall|a: usize, b: usize|
                #[trigger] halfway.shares(a, b) == (a != ingress_token_model(id) && b
                    != ingress_token_model(id) && before.shares(a, b)),
            forall|a: usize, b: usize|
                #[trigger] after.shares(a, b) == (a != pipeline_token_model(id) && b
                    != pipeline_token_model(id) && halfway.shares(a, b)),
        ensures
            Self::paired(after),
    {
        assert forall|t: usize| #[trigger] after@.contains_key(t) implies {
            &&& t != SERVER_TOKEN
            &&& t <= MAX_TOKEN
            &&& after.shares(
                ingress_token_model(context_id_model(t) as usize) as usize,
                pipeline_token_model(context_id_model(t) as usize) as usize,
            )
        } by {
            assert(halfway@.dom().contains(t));
            assert(before@.dom().contains(t));
            assert(before@.contains_key(t));
            let a = ingress_token_model(context_id_model(t) as usize) as usize;
            let b = pipeline_token_model(context_id_model(t) as usize) as usize;
            assert(before.shares(a, b));
            assert(halfway.shares(a, b));
        }
        assert forall|a: usize, b: usize| #[trigger] after.shares(a, b) implies context_id_model(a)
            == context_id_model(b) by {
            assert(halfway.shares(a, b));
            assert(before.shares(a, b));
        }
    }

    /// The context that each token in use finds.
    pub closed spec fn view(&self) -> Map<usize, ContextView<S>> {
        Map::new(
            |t: usize| self.connections@.contains_key(t),
            |t: usize| self.connections@[t]@@,
        )
    }

    /// What the entry is configured with.
    pub closed spec fn settings(&self) -> Settings<S> {
        Settings {
            template: self.pipeline_template@,
            buffer_size: self.buffer_size,
            debug_level: self.debug_level,
        }
    }

    /// The pipeline that every connection gets a clone of.
    pub fn template(&self) -> (template: &Pipeline<S>)
        ensures
            template@ == self.settings().template,
    {
        &self.pipeline_template
    }

    /// The greatest number of bytes taken by one read.
    pub fn buffer_size(&self) -> (limit: usize)
        ensures
            limit == self.settings().buffer_size,
    {
        self.buffer_size
    }

    /// The verbosity of the entry.
    pub fn debug_level(&self) -> (level: DebugLevel)
        ensures
            level == self.settings().debug_level,
    {
        self.debug_level
    }

    /// Tokens are in use in pairs: with a token the two tokens of its
    /// connection are in use, they are routed to the two sides, and both
    /// find the same context.
    pub proof fn tokens_come_in_pairs(&self, token: usize)
        requires
            self.wf(),
            self@.contains_key(token),
        ensures
            token != SERVER_TOKEN,
            token <= MAX_TOKEN,
            route_model(token) != Route::Server,
            ({
                let id = context_id_model(token) as usize;
                let ingress = ingress_token_model(id) as usize;
                let pipeline = pipeline_token_model(id) as usize;
                &&& token == ingress || token == pipeline
                &&& self@.contains_key(ingress)
                &&& self@.contains_key(pipeline)
                &&& route_model(ingress) == Route::Ingress
                &&& route_model(pipeline) == Route::Pipeline
                &&& self@[ingress] == self@[pipeline]
            }),
    {
        let id = context_id_model(token) as usize;
        let ingress = ingress_token_model(id) as usize;
        let pipeline = pipeline_token_model(id) as usize;
        assert(self.connections@.contains_key(token));
        self.connections.sharing_is_sound(ingress, pipeline, pipeline);
    }

    /// Putting back the context that a token finds changes nothing.
    pub proof fn unchanged_context(&self, token: usize)
        requires
            self.wf(),
            self@.contains_key(token),
        ensures
            with_context(self@, token, self@[token]) == self@,
    {
        assert forall|t: usize| self@.contains_key(t) && context_id_model(t) == context_id_model(
            token,
        ) implies self@[t] == self@[token] by {
            self.tokens_come_in_pairs(t);
            self.tokens_come_in_pairs(token);
        }
        assert(with_context(self@, token, self@[token]) =~= self@);
    }

    proof fn same_connection_shares(&self, a: usize, b: usize)
        requires
            self.wf(),
            self.connections@.contains_key(a),
            self.connections@.contains_key(b),
        ensures
            self.connections.shares(a, b) <==> context_id_model(a) == context_id_model(b),
    {
        if context_id_model(a) == context_id_model(b) {
            let id = context_id_model(a) as usize;
            let ingress = ingress_token_model(id) as usize;
            let pipeline = pipeline_token_model(id) as usize;
            self.connections.sharing_is_sound(ingress, pipeline, ingress);
            self.connections.sharing_is_sound(pipeline, ingress, pipeline);
            self.connections.sharing_is_sound(ingress, ingress, pipeline);
            self.connections.sharing_is_sound(pipeline, pipeline, ingress);
        }
    }

    /// No connection is open yet.
    pub fn new(
        pipeline_template: Pipeline<S>,
        buffer_size: usize,
        debug_level: DebugLevel,
    ) -> (made: Self)
        ensures
            made.wf(),
            made@ == Map::<usize, ContextView<S>>::empty(),
            made.settings() == (Settings { template: pipeline_template@, buffer_size, debug_level }),
    {
        let made = Connections {
            pipeline_template,
            connections: MultiMap::new(),
            ids: IdPool::new(MAX_CONTEXT_ID + 1),
            buffer_size,
            debug_level,
        };
        proof {
            assert(made@ =~= Map::<usize, ContextView<S>>::empty());
            assert(made.connections.wf());
            assert forall|id: usize| id <= MAX_CONTEXT_ID implies (#[trigger] made.ids.is_taken(
                id as nat,
            ) <==> made.connections@.contains_key(ingress_token_model(id) as usize)) by {
                assert(made.ids.is_free(id as nat));
            }
            assert forall|a: usize, b: usize| #[trigger]
                made.connections.shares(a, b) implies context_id_model(a) == context_id_model(
                b,
            ) by {
                made.connections.sharing_is_sound(a, b, b);
            }
        }
        made
    }

    /// The context that `token` finds, to be changed in place. What is
    /// changed is what both tokens of the connection find afterwards.
    pub fn context_mut(&mut self, token: usize) -> (found: Option<&mut EntryContext<S>>)
        requires
            old(self).wf(),
        ensures
            final(self).wf(),
            final(self).settings() == old(self).settings(),
            match found {
                Some(context) => {
                    &&& old(self)@.contains_key(token)
                    &&& context@ == old(self)@[token]
                    &&& final(self)@ == with_context(old(self)@, token, final(context)@)
                },
                None => !old(self)@.contains_key(token) && final(self)@ == old(self)@,
            },
    {
        proof {
            assert forall|t: usize| #[trigger] self.connections@.contains_key(t) implies (
            self.connections.shares(t, token) <==> self.connections@.contains_key(token)
                && context_id_model(t) == context_id_model(token)) by {
                if self.connections@.contains_key(token) {
                    self.same_connection_shares(t, token);
                } else {
                    self.connections.sharing_is_sound(t, token, token);
                }
            }
        }
        match self.connections.get_mut(&token) {
            Some(shared) => Some(shared.get_mut()),
            None => None,
        }
    }

    /// What happens when the readiness facility reports an event for
    /// `token`.
    ///
    /// At the listening endpoint a readable event asks for a connection to
    /// be accepted. For a token that no connection holds the event is
    /// reported and passed over. Else the event is routed by its token to
    /// the ingress side or to the pipeline side of the connection that the
    /// token belongs to.
    pub fn on_ready(
        &mut self,
        token: usize,
        readable: bool,
        writable: bool,
    ) -> (actions: Vec<Action>)
        requires
            old(self).wf(),
        ensures
            final(self).wf(),
            final(self).settings() == old(self).settings(),
            if route_model(token) == Route::Server {
                &&& final(self)@ == old(self)@
                &&& actions_of(actions@) == if readable {
                    seq![ActionView::Accept]
                } else {
                    Seq::empty()
                }
            } else if !old(self)@.contains_key(token) {
                &&& final(self)@ == old(self)@
                &&& actions_of(actions@) == report(
                    old(self).settings().debug_level,
                    NoticeView::UnknownToken(token),
                )
            } else if route_model(token) == Route::Ingress {
                &&& final(self)@ == old(self)@
                &&& actions_of(actions@) == old(self)@[token].on_ingress_ready(
                    readable,
                    writable,
                    old(self).settings().buffer_size,
                ).actions
            } else {
                &&& final(self)@ == with_context(
                    old(self)@,
                    token,
                    old(self)@[token].on_pipeline_ready(readable, writable).context,
                )
                &&& actions_of(actions@) == old(self)@[token].on_pipeline_ready(
                    readable,
                    writable,
                ).actions
            },
    {
        let side = route(token);
        if side == Route::Server {
            let mut actions: Vec<Action> = Vec::new();
            assert(actions_of(actions@) =~= Seq::<ActionView>::empty());
            if readable {
                push_action(&mut actions, Action::Accept);
                assert(actions_of(actions@) =~= seq![ActionView::Accept]);
            }
            return actions;
        }
        let level = self.debug_level;
        let limit = self.buffer_size;
        match self.context_mut(token) {
            None => {
                let mut actions: Vec<Action> = Vec::new();
                assert(actions_of(actions@) =~= Seq::<ActionView>::empty());
                push_report(&mut actions, level, Notice::UnknownToken(token));
                assert(actions_of(actions@) =~= report(level, NoticeView::UnknownToken(token)));
                actions
            },
            Some(context) => {
                proof {
                    old(self).unchanged_context(token);
                }
                if side == Route::Ingress {
                    context.on_ingress_ready(readable, writable, limit)
                } else {
                    context.on_pipeline_ready(readable, writable)
                }
            },
        }
    }

    /// The context of a connection that was just accepted, whose steps
    /// were handed `descriptors`.
    pub open spec fn fresh_context(template: Seq<S>, descriptors: Seq<i32>) -> ContextView<S> {
        ContextView {
            pipeline: attached_all(detached_all(template), descriptors),
            connection_buf: Seq::empty(),
            pipeline_buf: Seq::empty(),
            drain: None,
        }
    }

    /// Takes in a connection that the host has accepted.
    ///
    /// The connection gets a clone of the pipeline template, whose steps
    /// are handed `descriptors`, each step the one at its position; a
    /// context with empty buffers; and the two tokens of the least
    /// identifier that is free, under both of which the context is found.
    /// The host registers the ingress endpoint and the descriptor of the
    /// pipeline under these tokens, both for reading and writing; a
    /// pipeline whose last step holds no descriptor is not registered. Where
    /// the template has no step, the error is `Error::Unknown`; where no
    /// identifier is free, it is a message; in both cases nothing changes.
    pub fn accept(&mut self, descriptors: &Vec<i32>) -> (outcome: Result<Accepted, Error>)
        requires
            old(self).wf(),
        ensures
            final(self).wf(),
            final(self).settings() == old(self).settings(),
            match outcome {
                Ok(accepted) => {
                    let fresh = Self::fresh_context(old(self).settings().template, descriptors@);
                    &&& old(self).settings().template.len() > 0
                    &&& route_model(accepted.token) == Route::Ingress
                    &&& route_model(accepted.pipeline_token) == Route::Pipeline
                    &&& accepted.token <= MAX_TOKEN
                    &&& accepted.pipeline_token == accepted.token + 1
                    &&& !old(self)@.contains_key(accepted.token)
                    &&& !old(self)@.contains_key(accepted.pipeline_token)
                    &&& forall|id: usize|
                        id < context_id_model(accepted.token) ==> old(self)@.contains_key(
                            #[trigger] (ingress_token_model(id) as usize),
                        )
                    &&& final(self)@ == old(self)@.insert(accepted.token, fresh).insert(
                        accepted.pipeline_token,
                        fresh,
                    )
                    &&& accepted.descriptor == fresh.pipeline.last().descriptor()
                    &&& accepted.interest == reading_and_writing()
                    &&& accepted.pipeline == pipeline_registration(
                        accepted.pipeline_token,
                        accepted.descriptor,
                    )
                    &&& accepted.announce == (old(self).settings().debug_level.rank() >= 2)
                },
                Err(e) => {
                    &&& final(self)@ == old(self)@
                    &&& if old(self).settings().template.len() == 0 {
                        e@ == ErrorView::Unknown
                    } else {
                        &&& e@ == ErrorView::Msg("No free token"@)
                        &&& forall|id: usize|
                            id <= MAX_CONTEXT_ID ==> old(self)@.contains_key(
                                #[trigger] (ingress_token_model(id) as usize),
                            )
                    }
                },
            },
    {
        if self.pipeline_template.len() == 0 {
            return Err(Error::Unknown);
        }
        let ghost before = *self;
        let id = match self.ids.request_id() {
            Some(id) => id,
            None => {
                proof {
                    assert forall|id: usize| id <= MAX_CONTEXT_ID implies before@.contains_key(
                        #[trigger] (ingress_token_model(id) as usize),
                    ) by {
                        assert(before.ids.is_taken(id as nat));
                    }
                    assert forall|other: usize| other <= MAX_CONTEXT_ID implies (
                    #[trigger] self.ids.is_taken(other as nat) <==> before.ids.is_taken(
                        other as nat,
                    )) by {}
                }
                return Err(Error::Msg("No free token".to_owned()));
            },
        };
        proof {
            assert(id <= MAX_CONTEXT_ID);
            assert(!before.ids.is_taken(id as nat));
            assert forall|other: usize| other <= MAX_CONTEXT_ID implies (
            #[trigger] self.ids.is_taken(other as nat) <==> (before.ids.is_taken(other as nat)
                || other == id)) by {}
            assert forall|smaller: usize| smaller < id implies before@.contains_key(
                #[trigger] (ingress_token_model(smaller) as usize),
            ) by {
                assert(!before.ids.is_free(smaller as nat));
                assert(before.ids.is_taken(smaller as nat));
            }
        }
        let mut pipeline = self.pipeline_template.clone();
        pipeline.attach_all(descriptors);
        let descriptor = pipeline.as_raw_fd();
        let context = EntryContext::new(pipeline);
        let ghost fresh = context@;
        let token = ingress_token(id);
        let pipeline_token = pipeline_token(id);
        self.connections.insert(token, Ref::new(context));
        let ghost inserted = self.connections;
        let found = self.connections.alias(pipeline_token, &token);
        proof {
            assert(inserted@.dom() =~= before.connections@.dom().insert(token));
            assert(self.connections@.dom() =~= inserted@.dom().insert(pipeline_token));
            Self::pairs_after_install(before.connections, inserted, self.connections, id);
            assert(self@ =~= before@.insert(token, fresh).insert(pipeline_token, fresh));
            assert forall|other: usize| other <= MAX_CONTEXT_ID implies (
            #[trigger] self.ids.is_taken(other as nat) <==> self.connections@.contains_key(
                ingress_token_model(other) as usize,
            )) by {
                assert(before.ids.is_taken(other as nat) <==> before.connections@.contains_key(
                    ingress_token_model(other) as usize,
                ));
            }
        }
        Ok(
            Accepted {
                token,
                interest: Interest { readable: true, writable: true },
                pipeline_token,
                descriptor,
                pipeline: register_pipeline(pipeline_token, descriptor),
                announce: self.debug_level.at_least(2),
            },
        )
    }

    /// What happens when accepting a connection at the listening endpoint
    /// has failed. An accept that would have blocked is passed over. Any
    /// other failure is the end of the entry: it is handed back for the
    /// host to leave the event loop with.
    pub fn on_accept_failed(&self, failure: Error) -> (outcome: Result<(), Error>)
        ensures
            match outcome {
                Ok(_) => failure@.is_transient(),
                Err(e) => !failure@.is_transient() && e@ == failure@,
            },
    {
        if failure.is_transient() {
            Ok(())
        } else {
            Err(failure)
        }
    }

    /// What happens when a connection was accepted but could not be taken
    /// in, because the remote endpoint of one of its steps could not be
    /// reached or because `accept` has failed. The connection is not taken
    /// in; a failure that is neither transient nor fatal is reported, and
    /// the entry goes on as it was.
    pub fn on_connect_failed(&self, failure: Error) -> (actions: Vec<Action>)
        ensures
            actions_of(actions@) == failed(
                NoticeView::Connecting(failure@),
                self.settings().debug_level,
                false,
            ),
    {
        let mut actions: Vec<Action> = Vec::new();
        assert(actions_of(actions@) =~= Seq::<ActionView>::empty());
        push_failure(&mut actions, Notice::Connecting(failure), self.debug_level, false);
        assert(actions_of(actions@) =~= failed(
            NoticeView::Connecting(failure@),
            self.debug_level,
            false,
        ));
        actions
    }

    /// Closes the connection that `token` belongs to: its context is let
    /// go of and its identifier is free again. Returns what the host lets
    /// go of in turn: the registrations of the connection and the
    /// descriptors of its steps; or `None`, with nothing changed, for a
    /// token that no connection holds.
    pub fn close(&mut self, token: usize) -> (closed: Option<Closed>)
        requires
            old(self).wf(),
        ensures
            final(self).wf(),
            final(self).settings() == old(self).settings(),
            match closed {
                Some(gone) => {
                    &&& old(self)@.contains_key(token)
                    &&& gone.token == ingress_token_model(context_id_model(token) as usize)
                    &&& gone.pipeline_token == pipeline_token_model(
                        context_id_model(token) as usize,
                    )
                    &&& gone.descriptors@ == descriptors_of(old(self)@[token].pipeline)
                    &&& gone.pipeline == if gone.descriptors@.len() > 0 {
                        pipeline_registration(gone.pipeline_token, gone.descriptors@.last())
                    } else {
                        None
                    }
                    &&& final(self)@ == old(self)@.remove(gone.token).remove(gone.pipeline_token)
                },
                None => !old(self)@.contains_key(token) && final(self)@ == old(self)@,
            },
    {
        let descriptors = match self.connections.get(&token) {
            Some(shared) => shared.get().pipeline.descriptors(),
            None => {
                return None;
            },
        };
        let ghost before = *self;
        proof {
            before.tokens_come_in_pairs(token);
        }
        let id = match context_id(token) {
            Some(id) => id,
            None => {
                return None;
            },
        };
        let ingress = ingress_token(id);
        let pipeline = pipeline_token(id);
        let _ = self.connections.remove(&ingress);
        let ghost halfway = self.connections;
        let _ = self.connections.remove(&pipeline);
        proof {
            assert(before.ids.is_taken(id as nat));
            assert(halfway@.dom() =~= before.connections@.dom().remove(ingress));
            assert(self.connections@.dom() =~= halfway@.dom().remove(pipeline));
            Self::pairs_after_removal(before.connections, halfway, self.connections, id);
        }
        let returned = self.ids.return_id(id);
        proof {
            assert(self@ =~= before@.remove(ingress).remove(pipeline));
            assert forall|other: usize| other <= MAX_CONTEXT_ID implies (
            #[trigger] self.ids.is_taken(other as nat) <==> self.connections@.contains_key(
                ingress_token_model(other) as usize,
            )) by {
                assert(before.ids.is_taken(other as nat) <==> before.connections@.contains_key(
                    ingress_token_model(other) as usize,
                ));
            }
        }
        let registered = if descriptors.len() > 0 {
            register_pipeline(pipeline, descriptors[descriptors.len() - 1])
        } else {
            None
        };
        Some(Closed { token: ingress, pipeline_token: pipeline, pipeline: registered, descriptors })
    }

    /// What happens when a read from the ingress endpoint of the connection
    /// of `token` has come to `received`.
    ///
    /// For a token that no connection holds the event is reported and
    /// passed over.
    pub fn on_client_read(
        &mut self,
        token: usize,
        received: Result<Vec<u8>, Error>,
    ) -> (actions: Vec<Action>)
        requires
            old(self).wf(),
        ensures
            final(self).wf(),
            final(self).settings() == old(self).settings(),
            if old(self)@.contains_key(token) {
                let reaction = old(self)@[token].on_client_read(
                    old(self).settings().buffer_size,
                    received_view(received),
                    old(self).settings().debug_level,
                );
                &&& final(self)@ == with_context(old(self)@, token, reaction.context)
                &&& actions_of(actions@) == reaction.actions
            } else {
                &&& final(self)@ == old(self)@
                &&& actions_of(actions@) == report(
                    old(self).settings().debug_level,
                    NoticeView::UnknownToken(token),
                )
            },
    {
        let level = self.debug_level;
        let limit = self.buffer_size;
        match self.context_mut(token) {
            Some(context) => context.on_client_read(limit, received, level),
            None => {
                let mut actions: Vec<Action> = Vec::new();
                assert(actions_of(actions@) =~= Seq::<ActionView>::empty());
                push_report(&mut actions, level, Notice::UnknownToken(token));
                assert(actions_of(actions@) =~= report(level, NoticeView::UnknownToken(token)));
                actions
            },
        }
    }

    /// What happens when the writes of a forward drive of the connection of
    /// `token` have come to `outcome`.
    ///
    /// For a token that no connection holds the event is reported and
    /// passed over.
    pub fn on_pipeline_written(
        &mut self,
        token: usize,
        outcome: Result<(), Error>,
    ) -> (actions: Vec<Action>)
        requires
            old(self).wf(),
        ensures
            final(self).wf(),
            final(self).settings() == old(self).settings(),
            if old(self)@.contains_key(token) {
                let reaction = old(self)@[token].on_pipeline_written(
                    match outcome {
                        Ok(_) => Ok(()),
                        Err(e) => Err(e@),
                    },
                    old(self).settings().debug_level,
                );
                &&& final(self)@ == with_context(old(self)@, token, reaction.context)
                &&& actions_of(actions@) == reaction.actions
            } else {
                &&& final(self)@ == old(self)@
                &&& actions_of(actions@) == report(
                    old(self).settings().debug_level,
                    NoticeView::UnknownToken(token),
                )
            },
    {
        let level = self.debug_level;
        let limit = self.buffer_size;
        match self.context_mut(token) {
            Some(context) => context.on_pipeline_written(outcome, level),
            None => {
                let mut actions: Vec<Action> = Vec::new();
                assert(actions_of(actions@) =~= Seq::<ActionView>::empty());
                push_report(&mut actions, level, Notice::UnknownToken(token));
                assert(actions_of(actions@) =~= report(level, NoticeView::UnknownToken(token)));
                actions
            },
        }
    }

    /// What happens when the read of the pending step of the backward drive
    /// of the connection of `token` has come to `received`.
    ///
    /// For a token that no connection holds the event is reported and
    /// passed over.
    pub fn on_pipeline_read(
        &mut self,
        token: usize,
        received: Result<Vec<u8>, Error>,
    ) -> (actions: Vec<Action>)
        requires
            old(self).wf(),
        ensures
            final(self).wf(),
            final(self).settings() == old(self).settings(),
            if old(self)@.contains_key(token) {
                let reaction = old(self)@[token].on_pipeline_read(
                    received_view(received),
                    old(self).settings().debug_level,
                );
                &&& final(self)@ == with_context(old(self)@, token, reaction.context)
                &&& actions_of(actions@) == reaction.actions
            } else {
                &&& final(self)@ == old(self)@
                &&& actions_of(actions@) == report(
                    old(self).settings().debug_level,
                    NoticeView::UnknownToken(token),
                )
            },
    {
        let level = self.debug_level;
        let limit = self.buffer_size;
        match self.context_mut(token) {
            Some(context) => context.on_pipeline_read(received, level),
            None => {
                let mut actions: Vec<Action> = Vec::new();
                assert(actions_of(actions@) =~= Seq::<ActionView>::empty());
                push_report(&mut actions, level, Notice::UnknownToken(token));
                assert(actions_of(actions@) =~= report(level, NoticeView::UnknownToken(token)));
                actions
            },
        }
    }

    /// What happens when the writes of a step of the backward drive of the
    /// connection of `token` have come to `outcome`.
    ///
    /// For a token that no connection holds the event is reported and
    /// passed over.
    pub fn on_backward_written(
        &mut self,
        token: usize,
        outcome: Result<(), Error>,
    ) -> (actions: Vec<Action>)
        requires
            old(self).wf(),
        ensures
            final(self).wf(),
            final(self).settings() == old(self).settings(),
            if old(self)@.contains_key(token) {
                let reaction = old(self)@[token].on_backward_written(
                    match outcome {
                        Ok(_) => Ok(()),
                        Err(e) => Err(e@),
                    },
                    old(self).settings().debug_level,
                );
                &&& final(self)@ == with_context(old(self)@, token, reaction.context)
                &&& actions_of(actions@) == reaction.actions
            } else {
                &&& final(self)@ == old(self)@
                &&& actions_of(actions@) == report(
                    old(self).settings().debug_level,
                    NoticeView::UnknownToken(token),
                )
            },
    {
        let level = self.debug_level;
        let limit = self.buffer_size;
        match self.context_mut(token) {
            Some(context) => context.on_backward_written(outcome, level),
            None => {
                let mut actions: Vec<Action> = Vec::new();
                assert(actions_of(actions@) =~= Seq::<ActionView>::empty());
                push_report(&mut actions, level, Notice::UnknownToken(token));
                assert(actions_of(actions@) =~= report(level, NoticeView::UnknownToken(token)));
                actions
            },
        }
    }

    /// What happens when the write of the backward buffer of the connection
    /// of `token` to its ingress endpoint has come to `outcome`.
    ///
    /// For a token that no connection holds the event is reported and
    /// passed over.
    pub fn on_client_written(
        &mut self,
        token: usize,
        outcome: Result<usize, Error>,
    ) -> (actions: Vec<Action>)
        requires
            old(self).wf(),
        ensures
            final(self).wf(),
            final(self).settings() == old(self).settings(),
            if old(self)@.contains_key(token) {
                let reaction = old(self)@[token].on_client_written(
                    match outcome {
                        Ok(n) => Ok(n),
                        Err(e) => Err(e@),
                    },
                    old(self).settings().debug_level,
                );
                &&& final(self)@ == with_context(old(self)@, token, reaction.context)
                &&& actions_of(actions@) == reaction.actions
            } else {
                &&& final(self)@ == old(self)@
                &&& actions_of(actions@) == report(
                    old(self).settings().debug_level,
                    NoticeView::UnknownToken(token),
                )
            },
    {
        let level = self.debug_level;
        let limit = self.buffer_size;
        match self.context_mut(token) {
            Some(context) => context.on_client_written(outcome, level),
            None => {
                let mut actions: Vec<Action> = Vec::new();
                assert(actions_of(actions@) =~= Seq::<ActionView>::empty());
                push_report(&mut actions, level, Notice::UnknownToken(token));
                assert(actions_of(actions@) =~= report(level, NoticeView::UnknownToken(token)));
                actions
            },
        }
    }
}

} // verus!
