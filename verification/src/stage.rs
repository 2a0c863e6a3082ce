//! The closed set of step kinds that a pipeline is assembled from.

use vstd::prelude::*;
use crate::base::{
    BoxedClone, DebugLevel, Emission, Error, ErrorView, Passage, ReadRequest, Step, NO_DESCRIPTOR,
};
use crate::context::{is_silent, keeps_open, ContextView};
use crate::pipeline::{attached_all, detached_all, Pipeline};
use crate::stdio::StdioStep;
use crate::tcp::{TcpStep, TcpStepView};

verus! {

/// The kinds of step.
#[derive(Clone, Copy, Debug, PartialEq, Eq, Structural)]
pub enum StepKind {
    /// The local step.
    Stdio,
    /// The raw stream step.
    Tcp,
}

/// A step of one of the known kinds.
#[derive(Clone, Debug, PartialEq, Eq)]
pub enum Stage {
    Stdio(StdioStep),
    Tcp(TcpStep),
}

/// What the contracts see of a [`Stage`].
pub enum StageView {
    Stdio(StdioStep),
    Tcp(TcpStepView),
}

impl View for Stage {
    type V = StageView;

    open spec fn view(&self) -> StageView {
        match self {
            Stage::Stdio(step) => StageView::Stdio(*step),
            Stage::Tcp(step) => StageView::Tcp(step@),
        }
    }
}

/// What the contracts see of the steps of a pipeline.
pub open spec fn stage_views(steps: Seq<Stage>) -> Seq<StageView> {
    Seq::new(steps.len(), |i: int| steps[i]@)
}

/// The passage of a local step, seen as that of a stage.
pub open spec fn of_stdio(passage: Passage<StdioStep>) -> Passage<Stage> {
    Passage {
        step: Stage::Stdio(passage.step),
        writes: passage.writes,
        outcome: passage.outcome,
    }
}

/// The passage of a stream step, seen as that of a stage.
pub open spec fn of_tcp(passage: Passage<TcpStep>) -> Passage<Stage> {
    Passage { step: Stage::Tcp(passage.step), writes: passage.writes, outcome: passage.outcome }
}

impl Stage {
    /// The kind of this step.
    pub open spec fn spec_kind(&self) -> StepKind {
        match self {
            Stage::Stdio(_) => StepKind::Stdio,
            Stage::Tcp(_) => StepKind::Tcp,
        }
    }

    /// The kind of this step.
    #[verifier::when_used_as_spec(spec_kind)]
    pub fn kind(&self) -> (kind: StepKind)
        ensures
            kind == self.spec_kind(),
    {
        match self {
            Stage::Stdio(_) => StepKind::Stdio,
            Stage::Tcp(_) => StepKind::Tcp,
        }
    }

    /// The remote endpoint that a step of this kind connects to: the
    /// address and port of a stream step, nothing for a local step.
    pub fn remote(&self) -> (target: Option<(String, u16)>)
        ensures
            match (self, target) {
                (Stage::Tcp(step), Some((address, port))) => address@ == step.address@ && port
                    == step.port,
                (Stage::Stdio(_), None) => true,
                _ => false,
            },
    {
        match self {
            Stage::Stdio(_) => None,
            Stage::Tcp(step) => Some((step.address.clone(), step.port)),
        }
    }
}

impl BoxedClone for Stage {
    open spec fn detached(&self) -> Self {
        match self {
            Stage::Stdio(step) => Stage::Stdio(step.detached()),
            Stage::Tcp(step) => Stage::Tcp(step.detached()),
        }
    }

    fn bclone(&self) -> (copy: Self) {
        match self {
            Stage::Stdio(step) => Stage::Stdio(step.bclone()),
            Stage::Tcp(step) => Stage::Tcp(step.bclone()),
        }
    }
}

impl Step for Stage {
    open spec fn descriptor(&self) -> i32 {
        match self {
            Stage::Stdio(step) => step.descriptor(),
            Stage::Tcp(step) => step.descriptor(),
        }
    }

    open spec fn intake(&self) -> Option<ReadRequest> {
        match self {
            Stage::Stdio(step) => step.intake(),
            Stage::Tcp(step) => step.intake(),
        }
    }

    open spec fn attached(&self, descriptor: i32) -> Self {
        match self {
            Stage::Stdio(step) => Stage::Stdio(step.attached(descriptor)),
            Stage::Tcp(step) => Stage::Tcp(step.attached(descriptor)),
        }
    }

    open spec fn forward_model(&self, data: Seq<u8>) -> Passage<Self> {
        match self {
            Stage::Stdio(step) => of_stdio(step.forward_model(data)),
            Stage::Tcp(step) => of_tcp(step.forward_model(data)),
        }
    }

    open spec fn backward_model(
        &self,
        data: Seq<u8>,
        received: Result<Seq<u8>, ErrorView>,
    ) -> Passage<Self> {
        match self {
            Stage::Stdio(step) => of_stdio(step.backward_model(data, received)),
            Stage::Tcp(step) => of_tcp(step.backward_model(data, received)),
        }
    }

    fn as_raw_fd(&self) -> (fd: i32) {
        match self {
            Stage::Stdio(step) => step.as_raw_fd(),
            Stage::Tcp(step) => step.as_raw_fd(),
        }
    }

    fn read_request(&self) -> (request: Option<ReadRequest>) {
        match self {
            Stage::Stdio(step) => step.read_request(),
            Stage::Tcp(step) => step.read_request(),
        }
    }

    fn attach(&mut self, descriptor: i32) {
        match self {
            Stage::Stdio(step) => step.attach(descriptor),
            Stage::Tcp(step) => step.attach(descriptor),
        }
    }

    fn process_data_forward(&mut self, data: &mut Vec<u8>, writes: &mut Vec<Emission>) -> (passed:
        Result<Vec<u8>, Error>) {
        match self {
            Stage::Stdio(step) => step.process_data_forward(data, writes),
            Stage::Tcp(step) => step.process_data_forward(data, writes),
        }
    }

    fn process_data_backward(
        &mut self,
        data: &mut Vec<u8>,
        received: Result<Vec<u8>, Error>,
        writes: &mut Vec<Emission>,
    ) -> (passed: Result<Vec<u8>, Error>) {
        match self {
            Stage::Stdio(step) => step.process_data_backward(data, received, writes),
            Stage::Tcp(step) => step.process_data_backward(data, received, writes),
        }
    }
}

/// The remote endpoint of a step, as the contracts see it.
pub open spec fn remote_of(step: Stage) -> Option<(Seq<char>, u16)> {
    match step {
        Stage::Stdio(_) => None,
        Stage::Tcp(step) => Some((step.address@, step.port)),
    }
}

/// The remote endpoints that the steps of a pipeline connect to, one entry
/// for each step in order: the host opens a connection for each entry that
/// is not `None`.
pub fn remotes(pipeline: &Pipeline<Stage>) -> (targets: Vec<Option<(String, u16)>>)
    ensures
        targets@.len() == pipeline@.len(),
        forall|i: int|
            0 <= i < targets@.len() ==> (match #[trigger] targets@[i] {
                Some((address, port)) => Some((address@, port)),
                None => None,
            }) == remote_of(pipeline@[i]),
{
    let n = pipeline.len();
    let mut targets: Vec<Option<(String, u16)>> = Vec::new();
    let mut i: usize = 0;
    while i < n
        invariant
            n == pipeline@.len(),
            0 <= i <= n,
            targets@.len() == i,
            forall|k: int|
                0 <= k < i ==> (match #[trigger] targets@[k] {
                    Some((address, port)) => Some((address@, port)),
                    None => None,
                }) == remote_of(pipeline@[k]),
        decreases n - i,
    {
        let target = match pipeline.get(i) {
            Some(step) => step.remote(),
            None => None,
        };
        targets.push(target);
        i = i + 1;
    }
    targets
}

/// The kinds of the steps of a pipeline, in order.
pub open spec fn kinds_of(steps: Seq<Stage>) -> Seq<StepKind> {
    Seq::new(steps.len(), |i: int| steps[i].spec_kind())
}

/// The clone of a pipeline has as many steps as the pipeline itself, of the
/// same kinds in the same order.
pub proof fn clone_keeps_length_and_kinds(steps: Seq<Stage>)
    ensures
        detached_all(steps).len() == steps.len(),
        kinds_of(detached_all(steps)) == kinds_of(steps),
{
    assert(kinds_of(detached_all(steps)) =~= kinds_of(steps));
}

/// No step of a clone holds a descriptor: the descriptors of the pipeline
/// that was cloned stay its own.
pub proof fn clone_holds_no_descriptor(steps: Seq<Stage>, at: int)
    requires
        0 <= at < steps.len(),
    ensures
        detached_all(steps)[at].descriptor() == NO_DESCRIPTOR,
{
}

/// The stream steps of a connection hold the descriptors that the host
/// has handed to that connection. Two connections made from one template
/// therefore differ in the descriptor of each stream step for which the
/// host has handed them different descriptors.
pub proof fn siblings_hold_their_own_descriptors(
    template: Seq<Stage>,
    first: Seq<i32>,
    second: Seq<i32>,
    at: int,
)
    requires
        0 <= at < template.len(),
        at < first.len(),
        at < second.len(),
        template[at] is Tcp,
    ensures
        attached_all(detached_all(template), first)[at].descriptor() == first[at],
        attached_all(detached_all(template), second)[at].descriptor() == second[at],
        first[at] != second[at] ==> attached_all(detached_all(template), first)[at].descriptor()
            != attached_all(detached_all(template), second)[at].descriptor(),
{
}

/// A read on behalf of a step that would have blocked ends the backward
/// drive in silence and leaves the connection open.
pub proof fn blocked_step_is_passed_over(
    context: ContextView<Stage>,
    e: ErrorView,
    level: DebugLevel,
)
    requires
        e.is_transient(),
    ensures
        keeps_open(context.on_pipeline_read(Err(e), level).actions),
        is_silent(context.on_pipeline_read(Err(e), level).actions),
        context.on_pipeline_read(Err(e), level).context.drain is None,
        context.on_pipeline_read(Err(e), level).context.connection_buf == context.connection_buf,
        context.on_pipeline_read(Err(e), level).context.pipeline_buf == context.pipeline_buf,
{
}

} // verus!
