//! The pipeline: an ordered chain of steps with two drives, one for each
//! direction in which bytes travel.

use vstd::prelude::*;
use crate::base::{
    received_view, writes_of, BoxedClone, Emission, Error, ErrorView, Passage,
    ReadRequest, Step,
};

verus! {

/// An ordered sequence of steps. Bytes travel forward through the steps in
/// the order in which they were added, and backward in the reverse order.
pub struct Pipeline<S: Step> {
    steps: Vec<S>,
}

impl<S: Step> View for Pipeline<S> {
    type V = Seq<S>;

    closed spec fn view(&self) -> Seq<S> {
        self.steps@
    }
}

/// What a forward drive through `steps` does with `data`: each step in turn
/// handles what the step before it passed on, and the first failure ends
/// the drive, leaving the later steps as they were.
pub open spec fn forward_through<S: Step>(steps: Seq<S>, data: Seq<u8>) -> Passage<Seq<S>>
    decreases steps.len(),
{
    if steps.len() == 0 {
        Passage { step: steps, writes: Seq::empty(), outcome: Ok(data) }
    } else {
        let before = forward_through(steps.drop_last(), data);
        match before.outcome {
            Ok(bytes) => {
                let last = steps.last().forward_model(bytes);
                Passage {
                    step: before.step.push(last.step),
                    writes: before.writes + last.writes,
                    outcome: last.outcome,
                }
            },
            Err(e) => Passage {
                step: before.step.push(steps.last()),
                writes: before.writes,
                outcome: Err(e),
            },
        }
    }
}

/// A drive that has failed within a prefix of the steps stays failed: the
/// steps after the prefix are not reached.
pub proof fn forward_through_stops_at_failure<S: Step>(steps: Seq<S>, upto: int, data: Seq<u8>)
    requires
        0 <= upto <= steps.len(),
        forward_through(steps.take(upto), data).outcome is Err,
    ensures
        forward_through(steps, data).outcome == forward_through(steps.take(upto), data).outcome,
        forward_through(steps, data).writes == forward_through(steps.take(upto), data).writes,
        forward_through(steps, data).step == forward_through(steps.take(upto), data).step
            + steps.skip(upto),
    decreases steps.len() - upto,
{
    if upto == steps.len() {
        assert(steps.take(upto) =~= steps);
        assert(forward_through(steps, data).step + steps.skip(upto) =~= forward_through(
            steps,
            data,
        ).step);
    } else {
        let shorter = steps.drop_last();
        assert(shorter.take(upto) =~= steps.take(upto));
        forward_through_stops_at_failure(shorter, upto, data);
        assert(forward_through(shorter.take(upto), data).step + steps.skip(upto)
            =~= (forward_through(shorter.take(upto), data).step + shorter.skip(upto)).push(
            steps.last(),
        ));
    }
}

/// A forward drive keeps the number of steps.
pub proof fn forward_through_keeps_length<S: Step>(steps: Seq<S>, data: Seq<u8>)
    ensures
        forward_through(steps, data).step.len() == steps.len(),
    decreases steps.len(),
{
    if steps.len() > 0 {
        forward_through_keeps_length(steps.drop_last(), data);
    }
}

/// What the contracts see of the outcomes of the reads of a backward
/// drive, one for each step.
pub open spec fn script_view(received: Seq<Result<Vec<u8>, Error>>) -> Seq<
    Result<Seq<u8>, ErrorView>,
> {
    Seq::new(received.len(), |i: int| received_view(received[i]))
}

/// What a backward drive through `steps` does with `data`, when the read
/// on behalf of step `i` came to `received[i]`: the last step handles
/// `data`, each step before it what its successor passed on, and the first
/// failure ends the drive, leaving the earlier steps as they were.
pub open spec fn backward_through<S: Step>(
    steps: Seq<S>,
    received: Seq<Result<Seq<u8>, ErrorView>>,
    data: Seq<u8>,
) -> Passage<Seq<S>>
    decreases steps.len(),
{
    if steps.len() == 0 {
        Passage { step: steps, writes: Seq::empty(), outcome: Ok(data) }
    } else {
        let last = steps.last().backward_model(data, received[steps.len() - 1]);
        match last.outcome {
            Ok(bytes) => {
                let rest = backward_through(steps.drop_last(), received, bytes);
                Passage {
                    step: rest.step.push(last.step),
                    writes: last.writes + rest.writes,
                    outcome: rest.outcome,
                }
            },
            Err(e) => Passage {
                step: steps.drop_last().push(last.step),
                writes: last.writes,
                outcome: Err(e),
            },
        }
    }
}

/// The clones of `steps`, in the same order.
pub open spec fn detached_all<S: Step>(steps: Seq<S>) -> Seq<S> {
    Seq::new(steps.len(), |i: int| steps[i].detached())
}

/// The steps, each holding the descriptor at its position in
/// `descriptors`; a step without such a position is as it was.
pub open spec fn attached_all<S: Step>(steps: Seq<S>, descriptors: Seq<i32>) -> Seq<S> {
    Seq::new(
        steps.len(),
        |i: int|
            if i < descriptors.len() {
                steps[i].attached(descriptors[i])
            } else {
                steps[i]
            },
    )
}

/// The descriptors that the steps hold, in the order of the steps.
pub open spec fn descriptors_of<S: Step>(steps: Seq<S>) -> Seq<i32> {
    Seq::new(steps.len(), |i: int| steps[i].descriptor())
}

/// How far a backward drive has come: the steps before `pending` are still
/// to run, and `carried` is what the step that ran last has passed on.
///
/// The host reads on behalf of the step that is next, hands the outcome to
/// `Pipeline::drain_step`, and goes on until no step is pending; `carried`
/// is then the result of the drive.
#[derive(Clone, Debug, PartialEq, Eq)]
pub struct Drain {
    pub pending: usize,
    pub carried: Vec<u8>,
}

impl Drain {
    /// Whether every step has run.
    pub fn is_finished(&self) -> (done: bool)
        ensures
            done == (self.pending == 0),
    {
        self.pending == 0
    }

    /// The bytes that the drive has produced.
    pub fn into_bytes(self) -> (bytes: Vec<u8>)
        ensures
            bytes@ == self.carried@,
    {
        self.carried
    }
}

impl<S: Step> Pipeline<S> {
    /// A pipeline without steps.
    pub fn new() -> (pipeline: Self)
        ensures
            pipeline@ == Seq::<S>::empty(),
    {
        Pipeline { steps: Vec::new() }
    }

    /// Adds a step at the tail.
    pub fn add_step(&mut self, step: S)
        ensures
            final(self)@ == old(self)@.push(step),
    {
        self.steps.push(step);
    }

    /// The number of steps.
    pub fn len(&self) -> (n: usize)
        ensures
            n == self@.len(),
    {
        self.steps.len()
    }

    /// The descriptor that stands for the pipeline at the readiness
    /// facility: that of its last step, the one closest to the far end.
    pub fn as_raw_fd(&self) -> (fd: i32)
        requires
            self@.len() > 0,
        ensures
            fd == self@.last().descriptor(),
    {
        self.steps[self.steps.len() - 1].as_raw_fd()
    }

    /// Drives `buffer` forward: the steps handle the bytes in the order in
    /// which they were added, each one what the one before it passed on.
    /// The writes that the steps ask for are appended to `writes`, in
    /// order. The first step that fails ends the drive, and its error is
    /// returned.
    pub fn write_pipeline(
        &mut self,
        buffer: Vec<u8>,
        writes: &mut Vec<Emission>,
    ) -> (driven: Result<(), Error>)
        ensures
            final(self)@ == forward_through(old(self)@, buffer@).step,
            writes_of(final(writes)@) == writes_of(old(writes)@) + forward_through(
                old(self)@,
                buffer@,
            ).writes,
            match driven {
                Ok(_) => forward_through(old(self)@, buffer@).outcome is Ok,
                Err(e) => forward_through(old(self)@, buffer@).outcome == Err::<
                    Seq<u8>,
                    ErrorView,
                >(e@),
            },
    {
        match self.drive_forward(buffer, writes) {
            Ok(_) => Ok(()),
            Err(e) => Err(e),
        }
    }

    /// Drives `buffer` forward, as `write_pipeline` does, and returns what
    /// the last step has passed on.
    pub fn drive_forward(
        &mut self,
        buffer: Vec<u8>,
        writes: &mut Vec<Emission>,
    ) -> (driven: Result<Vec<u8>, Error>)
        ensures
            final(self)@ == forward_through(old(self)@, buffer@).step,
            writes_of(final(writes)@) == writes_of(old(writes)@) + forward_through(
                old(self)@,
                buffer@,
            ).writes,
            received_view(driven) == forward_through(old(self)@, buffer@).outcome,
    {
        let ghost origin = self@;
        let ghost data = buffer@;
        let mut carried = buffer;
        let ghost journal = writes_of(writes@);
        let n = self.steps.len();
        let mut i: usize = 0;
        proof {
            assert(origin.take(0) =~= Seq::<S>::empty());
            assert(self@ =~= forward_through(origin.take(0), data).step + origin.skip(0));
            assert(writes_of(writes@) =~= journal + forward_through(origin.take(0), data).writes);
        }
        while i < n
            invariant
                origin == old(self)@,
                data == buffer@,
                journal == writes_of(old(writes)@),
                n == origin.len(),
                0 <= i <= n,
                self.steps@.len() == n,
                forward_through(origin.take(i as int), data).outcome == Ok::<Seq<u8>, ErrorView>(
                    carried@,
                ),
                self.steps@ == forward_through(origin.take(i as int), data).step + origin.skip(
                    i as int,
                ),
                writes_of(writes@) == journal + forward_through(origin.take(i as int), data).writes,
            decreases n - i,
        {
            let ghost longer = origin.take(i as int + 1);
            proof {
                forward_through_keeps_length(origin.take(i as int), data);
                assert(longer.drop_last() =~= origin.take(i as int));
                assert(longer.last() == origin[i as int]);
                assert(self.steps@[i as int] == origin[i as int]);
            }
            let ghost held = self.steps@;
            let passed = self.steps[i].process_data_forward(&mut carried, writes);
            proof {
                let last = origin[i as int].forward_model(carried@);
                assert(self.steps@ =~= held.update(i as int, last.step));
                assert(self.steps@ =~= forward_through(longer, data).step + origin.skip(
                    i as int + 1,
                ));
                assert(writes_of(writes@) =~= journal + forward_through(longer, data).writes);
            }
            match passed {
                Ok(next) => {
                    carried = next;
                },
                Err(e) => {
                    proof {
                        forward_through_stops_at_failure(origin, i as int + 1, data);
                    }
                    return Err(e);
                },
            }
            i = i + 1;
        }
        proof {
            assert(origin.take(n as int) =~= origin);
            assert(self.steps@ =~= forward_through(origin, data).step);
        }
        Ok(carried)
    }

    /// The step at `index`, if there is one.
    pub fn get(&self, index: usize) -> (step: Option<&S>)
        ensures
            match step {
                Some(s) => index < self@.len() && *s == self@[index as int],
                None => index >= self@.len(),
            },
    {
        if index < self.steps.len() {
            Some(&self.steps[index])
        } else {
            None
        }
    }

    /// The positions of the steps in the order of a forward drive.
    pub fn iter_forwad(&self) -> (order: Vec<usize>)
        ensures
            order@.len() == self@.len(),
            forall|i: int| 0 <= i < order@.len() ==> order@[i] == i,
    {
        let n = self.steps.len();
        let mut order: Vec<usize> = Vec::new();
        let mut i: usize = 0;
        while i < n
            invariant
                0 <= i <= n,
                order@.len() == i,
                forall|k: int| 0 <= k < i ==> order@[k] == k,
            decreases n - i,
        {
            order.push(i);
            i = i + 1;
        }
        order
    }

    /// The positions of the steps in the order of a backward drive: the
    /// reverse of the order in which they were added.
    pub fn iter_backward(&self) -> (order: Vec<usize>)
        ensures
            order@.len() == self@.len(),
            forall|i: int| 0 <= i < order@.len() ==> order@[i] == self@.len() - 1 - i,
    {
        let n = self.steps.len();
        let mut order: Vec<usize> = Vec::new();
        let mut i: usize = 0;
        while i < n
            invariant
                0 <= i <= n,
                order@.len() == i,
                forall|k: int| 0 <= k < i ==> order@[k] == n - 1 - k,
            decreases n - i,
        {
            order.push(n - 1 - i);
            i = i + 1;
        }
        order
    }

    /// Hands the step at `index` a descriptor of its own. Returns whether
    /// there is such a step; if there is none, nothing changes.
    pub fn attach(&mut self, index: usize, descriptor: i32) -> (found: bool)
        ensures
            found == (index < old(self)@.len()),
            found ==> final(self)@ == old(self)@.update(
                index as int,
                old(self)@[index as int].attached(descriptor),
            ),
            !found ==> final(self)@ == old(self)@,
    {
        if index < self.steps.len() {
            self.steps[index].attach(descriptor);
            assert(self.steps@ =~= old(self).steps@.update(
                index as int,
                old(self).steps@[index as int].attached(descriptor),
            ));
            true
        } else {
            false
        }
    }

    /// The descriptors that the steps hold, in the order of the steps.
    pub fn descriptors(&self) -> (held: Vec<i32>)
        ensures
            held@ == descriptors_of(self@),
    {
        let n = self.steps.len();
        let mut held: Vec<i32> = Vec::new();
        let mut i: usize = 0;
        while i < n
            invariant
                n == self.steps@.len(),
                0 <= i <= n,
                held@.len() == i,
                forall|k: int| 0 <= k < i ==> held@[k] == self.steps@[k].descriptor(),
            decreases n - i,
        {
            held.push(self.steps[i].as_raw_fd());
            i = i + 1;
        }
        assert(held@ =~= descriptors_of(self.steps@));
        held
    }

    /// Hands each step the descriptor at its position in `descriptors`.
    pub fn attach_all(&mut self, descriptors: &Vec<i32>)
        ensures
            final(self)@ == attached_all(old(self)@, descriptors@),
    {
        let n = if self.steps.len() < descriptors.len() {
            self.steps.len()
        } else {
            descriptors.len()
        };
        let mut i: usize = 0;
        while i < n
            invariant
                n <= self.steps@.len(),
                n <= descriptors@.len(),
                n == old(self).steps@.len() || n == descriptors@.len(),
                self.steps@.len() == old(self).steps@.len(),
                0 <= i <= n,
                forall|k: int|
                    0 <= k < i ==> self.steps@[k] == old(self).steps@[k].attached(descriptors@[k]),
                forall|k: int| i <= k < self.steps@.len() ==> self.steps@[k] == old(self).steps@[k],
            decreases n - i,
        {
            let ghost held = self.steps@;
            self.steps[i].attach(descriptors[i]);
            assert(self.steps@ =~= held.update(i as int, held[i as int].attached(descriptors@[i as int])));
            i = i + 1;
        }
        assert(self.steps@ =~= attached_all(old(self).steps@, descriptors@));
    }

    /// The start of a backward drive: every step is pending and nothing is
    /// carried yet.
    pub fn begin_drain(&self) -> (drain: Drain)
        ensures
            drain.pending == self@.len(),
            drain.carried@ == Seq::<u8>::empty(),
    {
        Drain { pending: self.steps.len(), carried: Vec::new() }
    }

    /// The read that the host performs before the next step of the drive
    /// runs, if that step asks for one.
    pub fn next_read(&self, drain: &Drain) -> (request: Option<ReadRequest>)
        ensures
            request == if 0 < drain.pending <= self@.len() {
                self@[drain.pending - 1].intake()
            } else {
                None
            },
    {
        if 0 < drain.pending && drain.pending <= self.steps.len() {
            self.steps[drain.pending - 1].read_request()
        } else {
            None
        }
    }

    /// Runs the next step of a backward drive: the last pending step
    /// handles what the drive carries, given the outcome `received` of its
    /// read. If the step fails, its error is returned and the drive is
    /// over. Where no step of this pipeline is pending, nothing changes
    /// and the error is `Error::Unknown`.
    pub fn drain_step(
        &mut self,
        drain: &mut Drain,
        received: Result<Vec<u8>, Error>,
        writes: &mut Vec<Emission>,
    ) -> (stepped: Result<(), Error>)
        ensures
            final(self)@.len() == old(self)@.len(),
            if 0 < old(drain).pending <= old(self)@.len() {
                let at = old(drain).pending - 1;
                let passage = old(self)@[at].backward_model(
                    old(drain).carried@,
                    received_view(received),
                );
                &&& final(self)@ == old(self)@.update(at, passage.step)
                &&& writes_of(final(writes)@) == writes_of(old(writes)@) + passage.writes
                &&& match passage.outcome {
                    Ok(bytes) => {
                        &&& stepped is Ok
                        &&& final(drain).pending == at
                        &&& final(drain).carried@ == bytes
                    },
                    Err(e) => {
                        &&& stepped matches Err(failure)
                        &&& failure@ == e
                        &&& final(drain).pending == old(drain).pending
                        &&& final(drain).carried@ == old(drain).carried@
                    },
                }
            } else {
                &&& stepped matches Err(failure)
                &&& failure@ == ErrorView::Unknown
                &&& final(self)@ == old(self)@
                &&& writes_of(final(writes)@) == writes_of(old(writes)@)
                &&& final(drain).pending == old(drain).pending
                &&& final(drain).carried@ == old(drain).carried@
            },
    {
        if drain.pending == 0 || drain.pending > self.steps.len() {
            return Err(Error::Unknown);
        }
        let at = drain.pending - 1;
        let ghost held = self.steps@;
        let passed = self.steps[at].process_data_backward(&mut drain.carried, received, writes);
        proof {
            let passage = held[at as int].backward_model(
                old(drain).carried@,
                received_view(received),
            );
            assert(self.steps@ =~= held.update(at as int, passage.step));
        }
        match passed {
            Ok(next) => {
                drain.carried = next;
                drain.pending = at;
                Ok(())
            },
            Err(e) => Err(e),
        }
    }

    /// Drives the pipeline backward: starting from an empty buffer, the
    /// steps run in the reverse of the order in which they were added,
    /// each one handling what its successor passed on, and what the first
    /// step passes on is the result. `received` holds, for each step, the
    /// outcome of the read made on its behalf. The first step that fails
    /// ends the drive, and its error is returned. Where `received` does not
    /// hold one outcome for each step, nothing changes and the error is
    /// `Error::Unknown`.
    pub fn read_pipeline(
        &mut self,
        received: Vec<Result<Vec<u8>, Error>>,
        writes: &mut Vec<Emission>,
    ) -> (drained: Result<Vec<u8>, Error>)
        ensures
            if received@.len() == old(self)@.len() {
                let drive = backward_through(
                    old(self)@,
                    script_view(received@),
                    Seq::<u8>::empty(),
                );
                &&& final(self)@ == drive.step
                &&& writes_of(final(writes)@) == writes_of(old(writes)@) + drive.writes
                &&& received_view(drained) == drive.outcome
            } else {
                &&& drained matches Err(failure)
                &&& failure@ == ErrorView::Unknown
                &&& final(self)@ == old(self)@
                &&& writes_of(final(writes)@) == writes_of(old(writes)@)
            },
    {
        self.drive_backward(Vec::new(), received, writes)
    }

    /// Drives the pipeline backward, as `read_pipeline` does, with `seed`
    /// in place of the empty buffer that the last step starts from.
    pub fn drive_backward(
        &mut self,
        seed: Vec<u8>,
        received: Vec<Result<Vec<u8>, Error>>,
        writes: &mut Vec<Emission>,
    ) -> (drained: Result<Vec<u8>, Error>)
        ensures
            if received@.len() == old(self)@.len() {
                let drive = backward_through(old(self)@, script_view(received@), seed@);
                &&& final(self)@ == drive.step
                &&& writes_of(final(writes)@) == writes_of(old(writes)@) + drive.writes
                &&& received_view(drained) == drive.outcome
            } else {
                &&& drained matches Err(failure)
                &&& failure@ == ErrorView::Unknown
                &&& final(self)@ == old(self)@
                &&& writes_of(final(writes)@) == writes_of(old(writes)@)
            },
    {
        if received.len() != self.steps.len() {
            return Err(Error::Unknown);
        }
        let ghost origin = self@;
        let ghost script = script_view(received@);
        let ghost journal = writes_of(writes@);
        let ghost whole = backward_through(origin, script, seed@);
        let mut remaining = received;
        let mut drain = Drain { pending: self.steps.len(), carried: seed };
        proof {
            assert(origin.take(origin.len() as int) =~= origin);
            assert(whole.step =~= whole.step + self.steps@.skip(origin.len() as int));
            assert(journal + whole.writes =~= writes_of(writes@) + whole.writes);
        }
        while drain.pending > 0
            invariant
                origin == old(self)@,
                journal == writes_of(old(writes)@),
                script == script_view(received@),
                script.len() == origin.len(),
                whole == backward_through(origin, script, seed@),
                self.steps@.len() == origin.len(),
                drain.pending <= origin.len(),
                remaining@.len() == drain.pending,
                script_view(remaining@) == script.take(drain.pending as int),
                self.steps@.take(drain.pending as int) == origin.take(drain.pending as int),
                ({
                    let rest = backward_through(
                        origin.take(drain.pending as int),
                        script,
                        drain.carried@,
                    );
                    &&& rest.step + self.steps@.skip(drain.pending as int) == whole.step
                    &&& writes_of(writes@) + rest.writes == journal + whole.writes
                    &&& rest.outcome == whole.outcome
                }),
            decreases drain.pending,
        {
            let ghost k = drain.pending as int;
            let ghost before = self.steps@;
            let ghost log = writes_of(writes@);
            let ghost carried = drain.carried@;
            let ghost prefix = origin.take(k);
            let ghost unfolded = backward_through(prefix, script, carried);
            let ghost unread = remaining@;
            let outcome = remaining.pop().unwrap();
            proof {
                assert(script_view(unread)[k - 1] == script[k - 1]) by {
                    assert(script.take(k)[k - 1] == script[k - 1]);
                }
                assert(received_view(outcome) == script[k - 1]);
                assert(before[k - 1] == origin[k - 1]) by {
                    assert(before.take(k)[k - 1] == origin.take(k)[k - 1]);
                }
                assert(prefix.last() == origin[k - 1]);
                assert(prefix.drop_last() =~= origin.take(k - 1));
                assert(script_view(remaining@) =~= script.take(k - 1));
            }
            let stepped = self.drain_step(&mut drain, outcome, writes);
            proof {
                let passage = origin[k - 1].backward_model(carried, script[k - 1]);
                assert(self.steps@ == before.update(k - 1, passage.step));
                assert(self.steps@.take(k - 1) =~= origin.take(k - 1)) by {
                    assert forall|j: int| 0 <= j < k - 1 implies self.steps@[j] == origin[j] by {
                        assert(before.take(k)[j] == origin.take(k)[j]);
                    }
                }
                assert(self.steps@.skip(k - 1) =~= seq![passage.step] + before.skip(k));
                match passage.outcome {
                    Ok(bytes) => {
                        let rest = backward_through(origin.take(k - 1), script, bytes);
                        assert(unfolded.step == rest.step.push(passage.step));
                        assert(rest.step + self.steps@.skip(k - 1) =~= unfolded.step + before.skip(
                            k,
                        ));
                        assert(writes_of(writes@) + rest.writes =~= log + unfolded.writes);
                    },
                    Err(e) => {
                        assert(unfolded.step == origin.take(k - 1).push(passage.step));
                        assert(self.steps@ =~= unfolded.step + before.skip(k));
                        assert(writes_of(writes@) =~= log + unfolded.writes);
                    },
                }
            }
            match stepped {
                Ok(_) => {},
                Err(e) => {
                    return Err(e);
                },
            }
        }
        proof {
            assert(origin.take(0) =~= Seq::<S>::empty());
            assert(self.steps@.skip(0) =~= self.steps@);
            let rest = backward_through(origin.take(0), script, drain.carried@);
            assert(rest.step + self.steps@ =~= self.steps@);
            assert(writes_of(writes@) + rest.writes =~= writes_of(writes@));
        }
        Ok(drain.into_bytes())
    }
}

impl<S: Step> Clone for Pipeline<S> {
    /// An independent pipeline: the clones of the steps, in the same order.
    fn clone(&self) -> (copy: Self)
        ensures
            copy@ == detached_all(self@),
    {
        let n = self.steps.len();
        let mut steps: Vec<S> = Vec::new();
        let mut i: usize = 0;
        while i < n
            invariant
                n == self.steps@.len(),
                0 <= i <= n,
                steps@.len() == i,
                forall|k: int| 0 <= k < i ==> steps@[k] == self.steps@[k].detached(),
            decreases n - i,
        {
            steps.push(self.steps[i].bclone());
            i = i + 1;
        }
        assert(steps@ =~= detached_all(self.steps@));
        Pipeline { steps }
    }
}

} // verus!
