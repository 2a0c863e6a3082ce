//! The state of one connection and what the proxy does when something
//! happens on it.
//!
//! Each connection holds a pipeline of its own and two buffers: the forward
//! buffer, for bytes read from the ingress endpoint and not yet pushed
//! through the pipeline, and the backward buffer, for bytes drained from
//! the pipeline and not yet written to the ingress endpoint. The host
//! reports each thing that happens; the context answers with the actions
//! that the host takes next.

use vstd::prelude::*;
use crate::base::{
    intake_model, received_view, take_in, writes_of, DebugLevel, Emission, EmissionView, Error,
    ErrorView, ReadRequest, Step,
};
use crate::notice::{Notice, NoticeView};
use crate::pipeline::{forward_through, Drain, Pipeline};

verus! {

/// What the host does next on behalf of a connection.
#[derive(Clone, Debug, PartialEq, Eq)]
pub enum Action {
    /// Accept one connection at the listening endpoint, give each step of
    /// a pipeline for it a descriptor of its own, and hand the descriptors
    /// to `accept`.
    Accept,
    /// Read at most `limit` bytes from the ingress endpoint and report the
    /// outcome with `on_client_read`.
    ReadClient { limit: usize },
    /// Carry out the writes of a forward drive, in order, up to the first
    /// one that fails, and report with `on_pipeline_written` what
    /// `written` makes of the outcome and of `failure`, the failure of
    /// the drive itself.
    WritePipeline { writes: Vec<Emission>, failure: Option<Error> },
    /// Perform the read that the pending step of the backward drive asks
    /// for, or none where `request` is `None`, and report the outcome with
    /// `on_pipeline_read`.
    ReadPipeline { request: Option<ReadRequest> },
    /// Carry out the writes of a step of the backward drive, in order, up
    /// to the first one that fails, and report the outcome with
    /// `on_backward_written`.
    WriteBackward { writes: Vec<Emission> },
    /// Write `bytes` to the ingress endpoint and report the number of
    /// bytes written with `on_client_written`.
    WriteClient { bytes: Vec<u8> },
    /// Report the notice.
    Log(Notice),
    /// Close the connection: its ingress endpoint is of no use any more.
    Close,
    /// Leave the event loop with this error: an invariant was broken, and
    /// the entry is at its end.
    Fail(Error),
}

/// What the contracts see of an [`Action`].
pub enum ActionView {
    Accept,
    ReadClient { limit: usize },
    WritePipeline { writes: Seq<EmissionView>, failure: Option<ErrorView> },
    ReadPipeline { request: Option<ReadRequest> },
    WriteBackward { writes: Seq<EmissionView> },
    WriteClient { bytes: Seq<u8> },
    Log(NoticeView),
    Close,
    Fail(ErrorView),
}

impl View for Action {
    type V = ActionView;

    open spec fn view(&self) -> ActionView {
        match self {
            Action::Accept => ActionView::Accept,
            Action::ReadClient { limit } => ActionView::ReadClient { limit: *limit },
            Action::WritePipeline { writes, failure } => ActionView::WritePipeline {
                writes: writes_of(writes@),
                failure: match failure {
                    Some(e) => Some(e@),
                    None => None,
                },
            },
            Action::ReadPipeline { request } => ActionView::ReadPipeline { request: *request },
            Action::WriteBackward { writes } => ActionView::WriteBackward {
                writes: writes_of(writes@),
            },
            Action::WriteClient { bytes } => ActionView::WriteClient { bytes: bytes@ },
            Action::Log(notice) => ActionView::Log(notice@),
            Action::Close => ActionView::Close,
            Action::Fail(e) => ActionView::Fail(e@),
        }
    }
}

/// The actions of a list, in order.
pub open spec fn actions_of(actions: Seq<Action>) -> Seq<ActionView> {
    Seq::new(actions.len(), |i: int| actions[i]@)
}

/// The report of `notice` at the verbosity `level`: one action, or none
/// where the notice is not shown at that verbosity.
pub open spec fn report(level: DebugLevel, notice: NoticeView) -> Seq<ActionView> {
    if level.rank() >= notice.level() {
        seq![ActionView::Log(notice)]
    } else {
        Seq::empty()
    }
}

/// What follows from the failure that `notice` is about. A transient
/// failure is passed over in silence. A fatal one ends the entry. Any
/// other failure is reported and, where `closes` says that it makes the
/// ingress endpoint useless, closes the connection.
pub open spec fn failed(notice: NoticeView, level: DebugLevel, closes: bool) -> Seq<ActionView> {
    match notice.error() {
        Some(e) => if e.is_transient() {
            Seq::empty()
        } else if e.is_fatal() {
            seq![ActionView::Fail(e)]
        } else if closes {
            report(level, notice).push(ActionView::Close)
        } else {
            report(level, notice)
        },
        None => report(level, notice),
    }
}

/// How far the backward drive of a connection has come.
pub struct DrainView {
    pub pending: usize,
    pub carried: Seq<u8>,
}

impl View for Drain {
    type V = DrainView;

    open spec fn view(&self) -> DrainView {
        DrainView { pending: self.pending, carried: self.carried@ }
    }
}

/// The state of one connection.
pub struct EntryContext<S: Step> {
    /// The pipeline of this connection: a clone of the template.
    pub pipeline: Pipeline<S>,
    /// The forward buffer: bytes read from the ingress endpoint that are
    /// still to be pushed through the pipeline.
    pub connection_buf: Vec<u8>,
    /// The backward buffer: bytes drained from the pipeline that are still
    /// to be written to the ingress endpoint.
    pub pipeline_buf: Vec<u8>,
    /// The backward drive that is under way, if one is.
    pub drain: Option<Drain>,
}

/// What the contracts see of an [`EntryContext`].
pub struct ContextView<S> {
    pub pipeline: Seq<S>,
    pub connection_buf: Seq<u8>,
    pub pipeline_buf: Seq<u8>,
    pub drain: Option<DrainView>,
}

impl<S: Step> View for EntryContext<S> {
    type V = ContextView<S>;

    open spec fn view(&self) -> ContextView<S> {
        ContextView {
            pipeline: self.pipeline@,
            connection_buf: self.connection_buf@,
            pipeline_buf: self.pipeline_buf@,
            drain: match self.drain {
                Some(d) => Some(d@),
                None => None,
            },
        }
    }
}

/// What becomes of a connection when something happens on it, and what the
/// host does next.
pub struct Reaction<S> {
    pub context: ContextView<S>,
    pub actions: Seq<ActionView>,
}

impl<S: Step> ContextView<S> {
    /// A read from the ingress endpoint has come to `received`.
    ///
    /// A read that would have blocked changes nothing. A read of more than
    /// `buffer_size` bytes breaks an invariant and ends the entry. Any
    /// other failure is reported and closes the connection, and so does
    /// the end of the stream, a read of no bytes. Bytes that were read
    /// join the forward buffer, which is then driven forward through the
    /// pipeline as a whole.
    pub open spec fn on_client_read(
        self,
        buffer_size: usize,
        received: Result<Seq<u8>, ErrorView>,
        level: DebugLevel,
    ) -> Reaction<S> {
        match intake_model(received, buffer_size) {
            Err(e) => Reaction {
                context: self,
                actions: failed(NoticeView::ReadingClient(e), level, true),
            },
            Ok(bytes) => if bytes.len() == 0 {
                Reaction { context: self, actions: seq![ActionView::Close] }
            } else {
                (ContextView { connection_buf: self.connection_buf + bytes, ..self }).push_forward()
            },
        }
    }

    /// The forward buffer is driven forward through the pipeline as a
    /// whole. The buffer keeps its bytes until the host has carried out
    /// the writes of the drive.
    pub open spec fn push_forward(self) -> Reaction<S> {
        let drive = forward_through(self.pipeline, self.connection_buf);
        Reaction {
            context: ContextView { pipeline: drive.step, ..self },
            actions: seq![
                ActionView::WritePipeline {
                    writes: drive.writes,
                    failure: match drive.outcome {
                        Ok(_) => None,
                        Err(e) => Some(e),
                    },
                },
            ],
        }
    }

    /// The pipeline has become writable: bytes that the forward buffer
    /// still holds, after writes that failed or would have blocked, are
    /// driven forward again.
    pub open spec fn on_pipeline_writable(self) -> Reaction<S> {
        if self.connection_buf.len() > 0 {
            self.push_forward()
        } else {
            Reaction { context: self, actions: Seq::empty() }
        }
    }

    /// The ingress endpoint has become writable: bytes that the backward
    /// buffer still holds are to be written to it.
    pub open spec fn on_client_writable(self) -> Reaction<S> {
        Reaction {
            context: self,
            actions: if self.pipeline_buf.len() > 0 {
                seq![ActionView::WriteClient { bytes: self.pipeline_buf }]
            } else {
                Seq::empty()
            },
        }
    }

    /// The readiness facility reports an event for the ingress endpoint:
    /// where it is readable, it is read from, at most `limit` bytes; where
    /// it is writable, what the backward buffer holds is written to it.
    pub open spec fn on_ingress_ready(
        self,
        readable: bool,
        writable: bool,
        limit: usize,
    ) -> Reaction<S> {
        let reading = if readable {
            seq![ActionView::ReadClient { limit }]
        } else {
            Seq::empty()
        };
        let writing = if writable {
            self.on_client_writable().actions
        } else {
            Seq::empty()
        };
        Reaction { context: self, actions: reading + writing }
    }

    /// The readiness facility reports an event for the pipeline: where it
    /// is readable, a backward drive begins; where it is writable, what
    /// the forward buffer holds is driven forward again.
    pub open spec fn on_pipeline_ready(self, readable: bool, writable: bool) -> Reaction<S> {
        let drained = if readable {
            self.on_pipeline_readable()
        } else {
            Reaction { context: self, actions: Seq::empty() }
        };
        let pushed = if writable {
            drained.context.on_pipeline_writable()
        } else {
            Reaction { context: drained.context, actions: Seq::empty() }
        };
        Reaction { context: pushed.context, actions: drained.actions + pushed.actions }
    }

    /// The writes of a forward drive have come to `outcome`.
    ///
    /// Success empties the forward buffer. After a failure the buffer
    /// stays as it is; what follows from the failure is what `failed` says
    /// of a failure that closes nothing.
    pub open spec fn on_pipeline_written(
        self,
        outcome: Result<(), ErrorView>,
        level: DebugLevel,
    ) -> Reaction<S> {
        match outcome {
            Ok(_) => Reaction {
                context: ContextView { connection_buf: Seq::empty(), ..self },
                actions: Seq::empty(),
            },
            Err(e) => Reaction {
                context: self,
                actions: failed(NoticeView::WritingPipeline(e), level, false),
            },
        }
    }

    /// The next thing to do in the backward drive `drain`: the read of the
    /// step that is pending or, where none is, the end of the drive. At
    /// the end the bytes that the drive has produced join the backward
    /// buffer, and the buffer, unless it is empty, is to be written to the
    /// ingress endpoint.
    pub open spec fn proceed(self, drain: DrainView) -> Reaction<S> {
        if 0 < drain.pending <= self.pipeline.len() {
            Reaction {
                context: ContextView { drain: Some(drain), ..self },
                actions: seq![
                    ActionView::ReadPipeline {
                        request: self.pipeline[drain.pending - 1].intake(),
                    },
                ],
            }
        } else {
            let filled = self.pipeline_buf + drain.carried;
            Reaction {
                context: ContextView { pipeline_buf: filled, drain: None, ..self },
                actions: if filled.len() > 0 {
                    seq![ActionView::WriteClient { bytes: filled }]
                } else {
                    Seq::empty()
                },
            }
        }
    }

    /// The tail of the pipeline has become readable: a backward drive
    /// begins, with every step pending and nothing carried.
    pub open spec fn on_pipeline_readable(self) -> Reaction<S> {
        self.proceed(DrainView { pending: self.pipeline.len() as usize, carried: Seq::empty() })
    }

    /// The failure `e` ends the backward drive; it closes nothing.
    pub open spec fn give_up(self, e: ErrorView, level: DebugLevel) -> Reaction<S> {
        Reaction {
            context: ContextView { drain: None, ..self },
            actions: failed(NoticeView::ReadingPipeline(e), level, false),
        }
    }

    /// The read of the pending step of the backward drive has come to
    /// `received`: the step runs. Its writes, if it asks for any, are
    /// carried out before the drive goes on; if it fails, the drive is
    /// over. Where no drive is under way nothing happens.
    pub open spec fn on_pipeline_read(
        self,
        received: Result<Seq<u8>, ErrorView>,
        level: DebugLevel,
    ) -> Reaction<S> {
        match self.drain {
            Some(drain) => if 0 < drain.pending <= self.pipeline.len() {
                let at = drain.pending - 1;
                let passage = self.pipeline[at].backward_model(drain.carried, received);
                let stepped = ContextView {
                    pipeline: self.pipeline.update(at, passage.step),
                    ..self
                };
                match passage.outcome {
                    Ok(bytes) => {
                        let next = DrainView { pending: at as usize, carried: bytes };
                        if passage.writes.len() > 0 {
                            Reaction {
                                context: ContextView { drain: Some(next), ..stepped },
                                actions: seq![ActionView::WriteBackward { writes: passage.writes }],
                            }
                        } else {
                            stepped.proceed(next)
                        }
                    },
                    Err(e) => {
                        let end = stepped.give_up(e, level);
                        Reaction {
                            context: end.context,
                            actions: if passage.writes.len() > 0 {
                                seq![ActionView::WriteBackward { writes: passage.writes }]
                                    + end.actions
                            } else {
                                end.actions
                            },
                        }
                    },
                }
            } else {
                Reaction { context: ContextView { drain: None, ..self }, actions: Seq::empty() }
            },
            None => Reaction { context: self, actions: Seq::empty() },
        }
    }

    /// The writes of a step of the backward drive have come to `outcome`:
    /// after success the drive goes on, a failure ends it. Where no drive
    /// is under way nothing happens.
    pub open spec fn on_backward_written(
        self,
        outcome: Result<(), ErrorView>,
        level: DebugLevel,
    ) -> Reaction<S> {
        match self.drain {
            Some(drain) => match outcome {
                Ok(_) => self.proceed(drain),
                Err(e) => self.give_up(e, level),
            },
            None => Reaction { context: self, actions: Seq::empty() },
        }
    }

    /// The write of the backward buffer to the ingress endpoint has come
    /// to `outcome`.
    ///
    /// The bytes that were written leave the buffer: all of them empties
    /// it, fewer leave the unsent remainder. A write that would have
    /// blocked changes nothing. A failure that is neither transient nor
    /// fatal is reported and closes the connection.
    pub open spec fn on_client_written(
        self,
        outcome: Result<usize, ErrorView>,
        level: DebugLevel,
    ) -> Reaction<S> {
        match outcome {
            Ok(written) => Reaction {
                context: ContextView {
                    pipeline_buf: if written >= self.pipeline_buf.len() {
                        Seq::empty()
                    } else {
                        self.pipeline_buf.skip(written as int)
                    },
                    ..self
                },
                actions: Seq::empty(),
            },
            Err(e) => Reaction {
                context: self,
                actions: failed(NoticeView::WritingClient(e), level, true),
            },
        }
    }
}

/// What the writes of a forward drive have come to, where `performed` is
/// what carrying them out has come to and `failure` the failure of the
/// drive itself: the failure of a write, else that of the drive, else
/// success.
pub fn written(performed: Result<(), Error>, failure: Option<Error>) -> (outcome: Result<(), Error>)
    ensures
        match outcome {
            Ok(_) => performed is Ok && failure is None,
            Err(e) => match performed {
                Err(first) => e@ == first@,
                Ok(_) => failure matches Some(second) && e@ == second@,
            },
        },
{
    match performed {
        Err(first) => Err(first),
        Ok(_) => match failure {
            Some(second) => Err(second),
            None => Ok(()),
        },
    }
}

/// Appends one action to a list.
pub fn push_action(actions: &mut Vec<Action>, action: Action)
    ensures
        actions_of(final(actions)@) == actions_of(old(actions)@).push(action@),
{
    actions.push(action);
    assert(actions_of(actions@) =~= actions_of(old(actions)@).push(action@));
}

/// Appends the report of a notice to a list, where the notice is shown at
/// the verbosity `level`.
pub fn push_report(actions: &mut Vec<Action>, level: DebugLevel, notice: Notice)
    ensures
        actions_of(final(actions)@) == actions_of(old(actions)@) + report(level, notice@),
{
    if notice.shown_at(level) {
        push_action(actions, Action::Log(notice));
        assert(actions_of(actions@) =~= actions_of(old(actions)@) + report(level, notice@));
    } else {
        assert(actions_of(actions@) =~= actions_of(old(actions)@) + report(level, notice@));
    }
}

/// Appends what follows from the failure that `notice` is about.
pub fn push_failure(actions: &mut Vec<Action>, notice: Notice, level: DebugLevel, closes: bool)
    ensures
        actions_of(final(actions)@) == actions_of(old(actions)@) + failed(notice@, level, closes),
{
    let (about, transient, fatal) = match notice.error() {
        Some(e) => (true, e.is_transient(), e.is_fatal()),
        None => (false, false, false),
    };
    if transient {
        assert(actions_of(actions@) =~= actions_of(old(actions)@) + Seq::<ActionView>::empty());
    } else if fatal {
        match notice.into_error() {
            Some(e) => {
                push_action(actions, Action::Fail(e));
                assert(actions_of(actions@) =~= actions_of(old(actions)@) + seq![
                    ActionView::Fail(e@),
                ]);
            },
            None => {},
        }
    } else {
        push_report(actions, level, notice);
        if closes && about {
            push_action(actions, Action::Close);
            assert(actions_of(actions@) =~= actions_of(old(actions)@) + report(
                level,
                notice@,
            ).push(ActionView::Close));
        }
    }
}

impl<S: Step> EntryContext<S> {
    /// The state of a connection that has just been accepted: its
    /// pipeline, two empty buffers, and no drive under way.
    pub fn new(pipeline: Pipeline<S>) -> (context: Self)
        ensures
            context@ == (ContextView {
                pipeline: pipeline@,
                connection_buf: Seq::<u8>::empty(),
                pipeline_buf: Seq::<u8>::empty(),
                drain: None,
            }),
    {
        EntryContext {
            pipeline,
            connection_buf: Vec::new(),
            pipeline_buf: Vec::new(),
            drain: None,
        }
    }

    /// Takes in what a read from the ingress endpoint has come to: the
    /// bytes join the forward buffer. Returns the number of bytes taken
    /// in, or the failure of the read; a read of more than `buffer_size`
    /// bytes counts as the failure of an invariant. After a failure the
    /// buffer is as it was.
    pub fn read_client(
        &mut self,
        buffer_size: usize,
        received: Result<Vec<u8>, Error>,
    ) -> (taken: Result<usize, Error>)
        ensures
            match taken {
                Ok(count) => intake_model(received_view(received), buffer_size) matches Ok(bytes)
                    && count == bytes.len() && final(self)@ == (ContextView {
                    connection_buf: old(self)@.connection_buf + bytes,
                    ..old(self)@
                }),
                Err(e) => intake_model(received_view(received), buffer_size) == Err::<
                    Seq<u8>,
                    ErrorView,
                >(e@) && final(self)@ == old(self)@,
            },
    {
        match take_in(received, buffer_size) {
            Ok(bytes) => {
                let mut bytes = bytes;
                let count = bytes.len();
                self.connection_buf.append(&mut bytes);
                Ok(count)
            },
            Err(e) => Err(e),
        }
    }

    /// Drives the forward buffer through the pipeline. The writes that the
    /// steps ask for are appended to `writes`; the buffer stays as it is
    /// until the host has carried them out. Returns the failure of the
    /// drive, if it failed.
    pub fn write_pipeline(&mut self, writes: &mut Vec<Emission>) -> (driven: Result<(), Error>)
        ensures
            final(self)@ == (ContextView {
                pipeline: forward_through(old(self)@.pipeline, old(self)@.connection_buf).step,
                ..old(self)@
            }),
            writes_of(final(writes)@) == writes_of(old(writes)@) + forward_through(
                old(self)@.pipeline,
                old(self)@.connection_buf,
            ).writes,
            match driven {
                Ok(_) => forward_through(
                    old(self)@.pipeline,
                    old(self)@.connection_buf,
                ).outcome is Ok,
                Err(e) => forward_through(old(self)@.pipeline, old(self)@.connection_buf).outcome
                    == Err::<Seq<u8>, ErrorView>(e@),
            },
    {
        let copy = self.connection_buf.clone();
        self.pipeline.write_pipeline(copy, writes)
    }

    /// Takes in what a backward drive has produced: the bytes join the
    /// backward buffer.
    pub fn read_pipeline(&mut self, drained: Vec<u8>)
        ensures
            final(self)@ == (ContextView {
                pipeline_buf: old(self)@.pipeline_buf + drained@,
                ..old(self)@
            }),
    {
        let mut drained = drained;
        self.pipeline_buf.append(&mut drained);
    }

    /// The bytes that are to be written to the ingress endpoint: the
    /// backward buffer, unless it is empty.
    pub fn write_client(&self) -> (bytes: Option<Vec<u8>>)
        ensures
            match bytes {
                Some(b) => b@ == self@.pipeline_buf && b@.len() > 0,
                None => self@.pipeline_buf.len() == 0,
            },
    {
        if self.pipeline_buf.len() > 0 {
            Some(self.pipeline_buf.clone())
        } else {
            None
        }
    }

    /// What happens when a read from the ingress endpoint has come to
    /// `received`.
    pub fn on_client_read(
        &mut self,
        buffer_size: usize,
        received: Result<Vec<u8>, Error>,
        level: DebugLevel,
    ) -> (actions: Vec<Action>)
        ensures
            final(self)@ == old(self)@.on_client_read(
                buffer_size,
                received_view(received),
                level,
            ).context,
            actions_of(actions@) == old(self)@.on_client_read(
                buffer_size,
                received_view(received),
                level,
            ).actions,
    {
        let mut actions: Vec<Action> = Vec::new();
        assert(actions_of(actions@) =~= Seq::<ActionView>::empty());
        match self.read_client(buffer_size, received) {
            Err(e) => {
                push_failure(&mut actions, Notice::ReadingClient(e), level, true);
                assert(actions_of(actions@) =~= failed(NoticeView::ReadingClient(e@), level, true));
            },
            Ok(count) => {
                if count == 0 {
                    push_action(&mut actions, Action::Close);
                    assert(self@.connection_buf =~= old(self)@.connection_buf);
                    assert(actions_of(actions@) =~= seq![ActionView::Close]);
                } else {
                    self.push_forward(&mut actions);
                }
            },
        }
        actions
    }

    /// Drives the forward buffer through the pipeline and asks for the
    /// writes of the drive to be carried out.
    fn push_forward(&mut self, actions: &mut Vec<Action>)
        ensures
            final(self)@ == old(self)@.push_forward().context,
            actions_of(final(actions)@) == actions_of(old(actions)@) + old(
                self,
            )@.push_forward().actions,
    {
        let mut writes: Vec<Emission> = Vec::new();
        assert(writes_of(writes@) =~= Seq::<EmissionView>::empty());
        let failure = match self.write_pipeline(&mut writes) {
            Ok(_) => None,
            Err(e) => Some(e),
        };
        proof {
            let drive = forward_through(old(self)@.pipeline, old(self)@.connection_buf);
            assert(writes_of(writes@) =~= drive.writes);
        }
        let action = Action::WritePipeline { writes, failure };
        push_action(actions, action);
        assert(actions_of(actions@) =~= actions_of(old(actions)@) + seq![action@]);
    }

    /// What happens when the pipeline has become writable.
    pub fn on_pipeline_writable(&mut self) -> (actions: Vec<Action>)
        ensures
            final(self)@ == old(self)@.on_pipeline_writable().context,
            actions_of(actions@) == old(self)@.on_pipeline_writable().actions,
    {
        let mut actions: Vec<Action> = Vec::new();
        assert(actions_of(actions@) =~= Seq::<ActionView>::empty());
        if self.connection_buf.len() > 0 {
            self.push_forward(&mut actions);
            assert(actions_of(actions@) =~= old(self)@.push_forward().actions);
        }
        actions
    }

    /// What happens when the ingress endpoint has become writable.
    pub fn on_client_writable(&self) -> (actions: Vec<Action>)
        ensures
            actions_of(actions@) == self@.on_client_writable().actions,
    {
        let mut actions: Vec<Action> = Vec::new();
        assert(actions_of(actions@) =~= Seq::<ActionView>::empty());
        match self.write_client() {
            Some(bytes) => {
                let action = Action::WriteClient { bytes };
                push_action(&mut actions, action);
                assert(actions_of(actions@) =~= seq![action@]);
            },
            None => {},
        }
        actions
    }

    /// What happens when the readiness facility reports an event for the
    /// ingress endpoint.
    pub fn on_ingress_ready(&self, readable: bool, writable: bool, limit: usize) -> (actions: Vec<Action>)
        ensures
            actions_of(actions@) == self@.on_ingress_ready(readable, writable, limit).actions,
    {
        let mut actions: Vec<Action> = Vec::new();
        assert(actions_of(actions@) =~= Seq::<ActionView>::empty());
        if readable {
            push_action(&mut actions, Action::ReadClient { limit });
        }
        let ghost reading = actions_of(actions@);
        if writable {
            let mut writing = self.on_client_writable();
            let ghost asked = actions_of(writing@);
            actions.append(&mut writing);
            assert(actions_of(actions@) =~= reading + asked);
        } else {
            assert(actions_of(actions@) =~= reading + Seq::<ActionView>::empty());
        }
        actions
    }

    /// What happens when the readiness facility reports an event for the
    /// pipeline.
    pub fn on_pipeline_ready(&mut self, readable: bool, writable: bool) -> (actions: Vec<Action>)
        ensures
            final(self)@ == old(self)@.on_pipeline_ready(readable, writable).context,
            actions_of(actions@) == old(self)@.on_pipeline_ready(readable, writable).actions,
    {
        let mut actions: Vec<Action> = if readable {
            self.on_pipeline_readable()
        } else {
            Vec::new()
        };
        let ghost drained = actions_of(actions@);
        assert(!readable ==> drained =~= Seq::<ActionView>::empty());
        if writable {
            let mut pushed = self.on_pipeline_writable();
            let ghost asked = actions_of(pushed@);
            actions.append(&mut pushed);
            assert(actions_of(actions@) =~= drained + asked);
        } else {
            assert(actions_of(actions@) =~= drained + Seq::<ActionView>::empty());
        }
        actions
    }

    /// What happens when the writes of a forward drive have come to
    /// `outcome`.
    pub fn on_pipeline_written(
        &mut self,
        outcome: Result<(), Error>,
        level: DebugLevel,
    ) -> (actions: Vec<Action>)
        ensures
            final(self)@ == old(self)@.on_pipeline_written(
                match outcome {
                    Ok(_) => Ok(()),
                    Err(e) => Err(e@),
                },
                level,
            ).context,
            actions_of(actions@) == old(self)@.on_pipeline_written(
                match outcome {
                    Ok(_) => Ok(()),
                    Err(e) => Err(e@),
                },
                level,
            ).actions,
    {
        let mut actions: Vec<Action> = Vec::new();
        assert(actions_of(actions@) =~= Seq::<ActionView>::empty());
        match outcome {
            Ok(_) => {
                self.connection_buf.clear();
            },
            Err(e) => {
                push_failure(&mut actions, Notice::WritingPipeline(e), level, false);
                assert(actions_of(actions@) =~= failed(
                    NoticeView::WritingPipeline(e@),
                    level,
                    false,
                ));
            },
        }
        actions
    }

    /// Goes on with the backward drive `drain`.
    fn proceed(&mut self, drain: Drain) -> (actions: Vec<Action>)
        ensures
            final(self)@ == old(self)@.proceed(drain@).context,
            actions_of(actions@) == old(self)@.proceed(drain@).actions,
    {
        let mut actions: Vec<Action> = Vec::new();
        assert(actions_of(actions@) =~= Seq::<ActionView>::empty());
        if 0 < drain.pending && drain.pending <= self.pipeline.len() {
            let request = self.pipeline.next_read(&drain);
            self.drain = Some(drain);
            let action = Action::ReadPipeline { request };
            push_action(&mut actions, action);
            assert(actions_of(actions@) =~= seq![action@]);
        } else {
            self.drain = None;
            self.read_pipeline(drain.into_bytes());
            match self.write_client() {
                Some(bytes) => {
                    let action = Action::WriteClient { bytes };
                    push_action(&mut actions, action);
                    assert(actions_of(actions@) =~= seq![action@]);
                },
                None => {},
            }
        }
        actions
    }

    /// Ends the backward drive after the failure `e`.
    fn give_up(&mut self, e: Error, level: DebugLevel, actions: &mut Vec<Action>)
        ensures
            final(self)@ == old(self)@.give_up(e@, level).context,
            actions_of(final(actions)@) == actions_of(old(actions)@) + old(self)@.give_up(
                e@,
                level,
            ).actions,
    {
        self.drain = None;
        push_failure(actions, Notice::ReadingPipeline(e), level, false);
    }

    /// What happens when the tail of the pipeline has become readable.
    pub fn on_pipeline_readable(&mut self) -> (actions: Vec<Action>)
        ensures
            final(self)@ == old(self)@.on_pipeline_readable().context,
            actions_of(actions@) == old(self)@.on_pipeline_readable().actions,
    {
        let drain = self.pipeline.begin_drain();
        self.proceed(drain)
    }

    /// What happens when the read of the pending step of the backward
    /// drive has come to `received`.
    pub fn on_pipeline_read(
        &mut self,
        received: Result<Vec<u8>, Error>,
        level: DebugLevel,
    ) -> (actions: Vec<Action>)
        ensures
            final(self)@ == old(self)@.on_pipeline_read(received_view(received), level).context,
            actions_of(actions@) == old(self)@.on_pipeline_read(
                received_view(received),
                level,
            ).actions,
    {
        let mut actions: Vec<Action> = Vec::new();
        assert(actions_of(actions@) =~= Seq::<ActionView>::empty());
        let mut taken: Option<Drain> = None;
        core::mem::swap(&mut taken, &mut self.drain);
        let mut drain = match taken {
            Some(drain) => drain,
            None => {
                return actions;
            },
        };
        if drain.pending == 0 || drain.pending > self.pipeline.len() {
            return actions;
        }
        let mut writes: Vec<Emission> = Vec::new();
        assert(writes_of(writes@) =~= Seq::<EmissionView>::empty());
        let stepped = self.pipeline.drain_step(&mut drain, received, &mut writes);
        proof {
            let at = old(self)@.drain->0.pending - 1;
            let passage = old(self)@.pipeline[at].backward_model(
                old(self)@.drain->0.carried,
                received_view(received),
            );
            assert(writes_of(writes@) =~= passage.writes);
        }
        let asks = writes.len() > 0;
        match stepped {
            Ok(_) => {
                if asks {
                    self.drain = Some(drain);
                    let action = Action::WriteBackward { writes };
                    push_action(&mut actions, action);
                    assert(actions_of(actions@) =~= seq![action@]);
                    actions
                } else {
                    self.proceed(drain)
                }
            },
            Err(e) => {
                if asks {
                    let action = Action::WriteBackward { writes };
                    push_action(&mut actions, action);
                    assert(actions_of(actions@) =~= seq![action@]);
                }
                self.give_up(e, level, &mut actions);
                actions
            },
        }
    }

    /// What happens when the writes of a step of the backward drive have
    /// come to `outcome`.
    pub fn on_backward_written(
        &mut self,
        outcome: Result<(), Error>,
        level: DebugLevel,
    ) -> (actions: Vec<Action>)
        ensures
            final(self)@ == old(self)@.on_backward_written(
                match outcome {
                    Ok(_) => Ok(()),
                    Err(e) => Err(e@),
                },
                level,
            ).context,
            actions_of(actions@) == old(self)@.on_backward_written(
                match outcome {
                    Ok(_) => Ok(()),
                    Err(e) => Err(e@),
                },
                level,
            ).actions,
    {
        let mut taken: Option<Drain> = None;
        core::mem::swap(&mut taken, &mut self.drain);
        let drain = match taken {
            Some(drain) => drain,
            None => {
                let actions: Vec<Action> = Vec::new();
                assert(actions_of(actions@) =~= Seq::<ActionView>::empty());
                return actions;
            },
        };
        match outcome {
            Ok(_) => self.proceed(drain),
            Err(e) => {
                let mut actions: Vec<Action> = Vec::new();
                assert(actions_of(actions@) =~= Seq::<ActionView>::empty());
                self.give_up(e, level, &mut actions);
                assert(actions_of(actions@) =~= old(self)@.give_up(e@, level).actions);
                actions
            },
        }
    }

    /// What happens when the write of the backward buffer to the ingress
    /// endpoint has come to `outcome`.
    pub fn on_client_written(
        &mut self,
        outcome: Result<usize, Error>,
        level: DebugLevel,
    ) -> (actions: Vec<Action>)
        ensures
            final(self)@ == old(self)@.on_client_written(
                match outcome {
                    Ok(n) => Ok(n),
                    Err(e) => Err(e@),
                },
                level,
            ).context,
            actions_of(actions@) == old(self)@.on_client_written(
                match outcome {
                    Ok(n) => Ok(n),
                    Err(e) => Err(e@),
                },
                level,
            ).actions,
    {
        let mut actions: Vec<Action> = Vec::new();
        assert(actions_of(actions@) =~= Seq::<ActionView>::empty());
        match outcome {
            Ok(written) => {
                if written >= self.pipeline_buf.len() {
                    self.pipeline_buf.clear();
                } else {
                    let rest = self.pipeline_buf.split_off(written);
                    assert(rest@ =~= old(self)@.pipeline_buf.skip(written as int));
                    self.pipeline_buf = rest;
                }
            },
            Err(e) => {
                push_failure(&mut actions, Notice::WritingClient(e), level, true);
                assert(actions_of(actions@) =~= failed(NoticeView::WritingClient(e@), level, true));
            },
        }
        actions
    }
}

/// Whether no action of a list closes the connection.
pub open spec fn keeps_open(actions: Seq<ActionView>) -> bool {
    forall|i: int| 0 <= i < actions.len() ==> !(#[trigger] actions[i] is Close)
}

/// Whether no action of a list reports anything.
pub open spec fn is_silent(actions: Seq<ActionView>) -> bool {
    forall|i: int| 0 <= i < actions.len() ==> !(#[trigger] actions[i] is Log)
}

/// The forward buffer is empty after a forward drive whose writes have
/// succeeded, and the backward buffer is as it was.
pub proof fn forward_success_empties_forward_buffer<S: Step>(
    context: ContextView<S>,
    level: DebugLevel,
)
    ensures
        context.on_pipeline_written(Ok(()), level).context.connection_buf == Seq::<u8>::empty(),
        context.on_pipeline_written(Ok(()), level).context.pipeline_buf == context.pipeline_buf,
        context.on_pipeline_written(Ok(()), level).actions == Seq::<ActionView>::empty(),
{
}

/// At the end of a backward drive the bytes that it has produced join the
/// backward buffer. A buffer that was empty before is therefore empty
/// afterwards just when the drive has produced no bytes; and the buffer is
/// to be written to the ingress endpoint just when it is not empty.
pub proof fn backward_success_fills_backward_buffer<S: Step>(
    context: ContextView<S>,
    produced: Seq<u8>,
)
    ensures
        ({
            let end = context.proceed(DrainView { pending: 0, carried: produced });
            &&& end.context.pipeline_buf == context.pipeline_buf + produced
            &&& end.context.connection_buf == context.connection_buf
            &&& end.context.drain is None
            &&& context.pipeline_buf.len() == 0 ==> (end.context.pipeline_buf.len() > 0
                <==> produced.len() > 0)
            &&& end.context.pipeline_buf.len() > 0 <==> end.actions == seq![
                ActionView::WriteClient { bytes: end.context.pipeline_buf },
            ]
            &&& end.context.pipeline_buf.len() == 0 <==> end.actions == Seq::<ActionView>::empty()
        }),
{
    let end = context.proceed(DrainView { pending: 0, carried: produced });
    if end.context.pipeline_buf.len() > 0 {
        assert(end.actions[0] == ActionView::WriteClient { bytes: end.context.pipeline_buf });
        assert(end.actions.len() == 1);
    }
}

/// The two buffers of a connection are apart: what happens on the forward
/// side leaves the backward buffer as it was, and what happens on the
/// backward side leaves the forward buffer as it was.
pub proof fn buffers_are_apart<S: Step>(
    context: ContextView<S>,
    buffer_size: usize,
    received: Result<Seq<u8>, ErrorView>,
    written: Result<(), ErrorView>,
    count: Result<usize, ErrorView>,
    level: DebugLevel,
)
    ensures
        context.on_client_read(buffer_size, received, level).context.pipeline_buf
            == context.pipeline_buf,
        context.on_pipeline_written(written, level).context.pipeline_buf == context.pipeline_buf,
        context.on_pipeline_writable().context.pipeline_buf == context.pipeline_buf,
        context.on_pipeline_writable().context.connection_buf == context.connection_buf,
        context.on_client_writable().context == context,
        context.on_pipeline_readable().context.connection_buf == context.connection_buf,
        context.on_pipeline_read(received, level).context.connection_buf
            == context.connection_buf,
        context.on_backward_written(written, level).context.connection_buf
            == context.connection_buf,
        context.on_client_written(count, level).context.connection_buf == context.connection_buf,
{
}

/// A failure on the side of the pipeline never closes a connection:
/// whatever a step or a write or read on its behalf comes to, no action
/// closes the connection, and the next event finds its context. Only the
/// failure of an invariant ends the entry as a whole.
pub proof fn pipeline_failures_keep_the_connection<S: Step>(
    context: ContextView<S>,
    received: Result<Seq<u8>, ErrorView>,
    written: Result<(), ErrorView>,
    level: DebugLevel,
)
    ensures
        keeps_open(context.on_pipeline_written(written, level).actions),
        keeps_open(context.on_pipeline_writable().actions),
        keeps_open(context.on_pipeline_readable().actions),
        keeps_open(context.on_pipeline_read(received, level).actions),
        keeps_open(context.on_backward_written(written, level).actions),
{
}

/// An operation that would have blocked is no failure: it is passed over
/// in silence. On the ingress side and after the writes of a drive it
/// leaves nothing to do, and the buffers keep what they hold.
pub proof fn would_block_is_passed_over<S: Step>(
    context: ContextView<S>,
    buffer_size: usize,
    e: ErrorView,
    level: DebugLevel,
)
    requires
        e.is_transient(),
    ensures
        context.on_client_read(buffer_size, Err(e), level) == (Reaction {
            context,
            actions: Seq::empty(),
        }),
        context.on_pipeline_written(Err(e), level) == (Reaction { context, actions: Seq::empty() }),
        context.on_client_written(Err(e), level) == (Reaction { context, actions: Seq::empty() }),
        context.on_backward_written(Err(e), level).actions == Seq::<ActionView>::empty(),
        context.on_backward_written(Err(e), level).context.connection_buf
            == context.connection_buf,
        context.on_backward_written(Err(e), level).context.pipeline_buf == context.pipeline_buf,
{
}

} // verus!
