//! The decisions of the dispatch loop: what to do with each thing that
//! arrives on the channel the workers share. The loop itself receives,
//! sends and calls back; here is what it decides in between.

use vstd::prelude::*;

use crate::error::FeatureError;
use crate::feature::feature_flags::{
    holds, is_flag, lemma_flags_distinct, lemma_holds_union, lemma_single_flags, MOVING_AVERAGE,
    NONE, RAW,
};
use crate::feature::{dependencies_of, FeatureStore};

verus! {

/// What the loop takes from the shared channel, or learns while it waits.
#[derive(Debug, Clone, Copy, PartialEq, Eq, Structural)]
pub enum Incoming {
    /// An event, told by the flag of the feature that produced it.
    Event(u32),
    /// The last word of a worker that has failed.
    Failed(FeatureError),
    /// Every worker has gone: there is no more data.
    Closed,
    /// The owner of the pipeline has asked it to stop.
    Cancelled,
}

/// What the loop has to do next.
#[derive(Debug, Clone, Copy, PartialEq, Eq, Structural)]
pub enum Action {
    /// Send a copy of the event to the worker of each flag in `forward`,
    /// then hand the event to the callback.
    Deliver { forward: u32 },
    /// The feature with this flag produces nothing from now on; go on
    /// without it.
    Degraded(u32),
    /// Stop, and return this failure to the caller.
    Abort(FeatureError),
    /// Stop; nothing has failed.
    Finish,
}

/// What the loop remembers between two arrivals.
pub struct DispatchState {
    /// The mask of the enabled features.
    pub enabled: u32,
    /// The features whose worker or channel is gone.
    pub closed: u32,
    /// How many copies of events could not be handed to a worker.
    pub dropped: u64,
    /// Whether the loop has stopped.
    pub halted: bool,
}

/// Whether the feature named by `flag` computes its events from those of
/// another feature.
pub open spec fn is_derived(flag: u32) -> bool {
    is_flag(flag) && dependencies_of(flag) != NONE
}

/// Whether the pipeline cannot go on after this failure. It can go on
/// without a derived feature; it cannot without a producer that others
/// depend on, nor after a failure it does not know.
pub open spec fn is_fatal(error: FeatureError) -> bool {
    match error {
        FeatureError::WorkerTerminated(flag) => !is_derived(flag),
        FeatureError::NoDefault(_) => true,
    }
}

/// One more, as far as the counter goes.
pub open spec fn one_more(count: u64) -> u64 {
    if count < u64::MAX {
        (count + 1) as u64
    } else {
        count
    }
}

impl DispatchState {
    /// The enabled features that compute their events from those of
    /// `producer`: the moving average for raw capture, nothing otherwise.
    pub open spec fn dependents(self, producer: u32) -> u32 {
        if producer == RAW && holds(self.enabled, MOVING_AVERAGE) {
            MOVING_AVERAGE
        } else {
            NONE
        }
    }

    /// Whether a copy of an event of `producer` is owed to a worker that is
    /// gone.
    pub open spec fn loses_copy(self, producer: u32) -> bool {
        self.dependents(producer) == MOVING_AVERAGE && holds(self.closed, MOVING_AVERAGE)
    }

    /// The state after `incoming`, and what the loop has to do.
    pub open spec fn step(self, incoming: Incoming) -> (DispatchState, Action) {
        if self.halted {
            (self, Action::Finish)
        } else {
            match incoming {
                Incoming::Event(producer) => if self.loses_copy(producer) {
                    (
                        DispatchState { dropped: one_more(self.dropped), ..self },
                        Action::Deliver { forward: NONE },
                    )
                } else {
                    (self, Action::Deliver { forward: self.dependents(producer) })
                },
                Incoming::Failed(error) => if is_fatal(error) {
                    (DispatchState { halted: true, ..self }, Action::Abort(error))
                } else {
                    let flag = error->WorkerTerminated_0;
                    (DispatchState { closed: self.closed | flag, ..self }, Action::Degraded(flag))
                },
                Incoming::Closed => (DispatchState { halted: true, ..self }, Action::Finish),
                Incoming::Cancelled => (DispatchState { halted: true, ..self }, Action::Finish),
            }
        }
    }

    /// The state after a copy for the worker of `flag` could not be sent:
    /// the copy is counted as dropped and the channel as closed.
    pub open spec fn forward_failed(self, flag: u32) -> DispatchState {
        DispatchState { closed: self.closed | flag, dropped: one_more(self.dropped), ..self }
    }

    /// The actions that a run of arrivals leads to, one for each.
    pub open spec fn run(self, arrivals: Seq<Incoming>) -> Seq<Action>
        decreases arrivals.len(),
    {
        if arrivals.len() == 0 {
            Seq::<Action>::empty()
        } else {
            seq![self.step(arrivals.first()).1] + self.step(arrivals.first()).0.run(
                arrivals.drop_first(),
            )
        }
    }
}

/// The state of one dispatch loop.
#[derive(Debug, Clone, Copy)]
pub struct Dispatcher {
    enabled: u32,
    closed: u32,
    dropped: u64,
    halted: bool,
}

impl View for Dispatcher {
    type V = DispatchState;

    closed spec fn view(&self) -> DispatchState {
        DispatchState {
            enabled: self.enabled,
            closed: self.closed,
            dropped: self.dropped,
            halted: self.halted,
        }
    }
}

impl Dispatcher {
    /// The state in which a loop starts on what `store` holds: nothing is
    /// closed, nothing was dropped.
    pub fn new(store: &FeatureStore) -> (r: Self)
        ensures
            r@ == (DispatchState {
                enabled: store@.enabled,
                closed: NONE,
                dropped: 0,
                halted: false,
            }),
    {
        Dispatcher { enabled: store.enabled(), closed: NONE, dropped: 0, halted: false }
    }

    /// Takes one arrival and says what the loop has to do with it.
    pub fn step(&mut self, incoming: Incoming) -> (action: Action)
        ensures
            (final(self)@, action) == old(self)@.step(incoming),
    {
        if self.halted {
            return Action::Finish;
        }
        match incoming {
            Incoming::Event(producer) => {
                if producer == RAW && self.enabled & MOVING_AVERAGE != 0 {
                    if self.closed & MOVING_AVERAGE != 0 {
                        self.count_dropped();
                        Action::Deliver { forward: NONE }
                    } else {
                        Action::Deliver { forward: MOVING_AVERAGE }
                    }
                } else {
                    Action::Deliver { forward: NONE }
                }
            },
            Incoming::Failed(error) => {
                match error {
                    FeatureError::WorkerTerminated(flag) => {
                        if flag == MOVING_AVERAGE {
                            self.closed = self.closed | flag;
                            Action::Degraded(flag)
                        } else {
                            self.halted = true;
                            Action::Abort(error)
                        }
                    },
                    FeatureError::NoDefault(_) => {
                        self.halted = true;
                        Action::Abort(error)
                    },
                }
            },
            Incoming::Closed => {
                self.halted = true;
                Action::Finish
            },
            Incoming::Cancelled => {
                self.halted = true;
                Action::Finish
            },
        }
    }

    /// Records that a copy for the worker of `flag` could not be sent.
    pub fn forward_failed(&mut self, flag: u32)
        ensures
            final(self)@ == old(self)@.forward_failed(flag),
    {
        self.closed = self.closed | flag;
        self.count_dropped();
    }

    fn count_dropped(&mut self)
        ensures
            final(self)@ == (DispatchState { dropped: one_more(old(self)@.dropped), ..old(self)@ }),
    {
        if self.dropped < u64::MAX {
            self.dropped = self.dropped + 1;
        }
    }

    /// How many copies of events could not be handed to a worker.
    pub fn dropped(&self) -> (r: u64)
        ensures
            r == self@.dropped,
    {
        self.dropped
    }

    /// The features whose worker or channel is gone.
    pub fn closed(&self) -> (r: u32)
        ensures
            r == self@.closed,
    {
        self.closed
    }

    /// Whether the loop has stopped.
    pub fn is_halted(&self) -> (r: bool)
        ensures
            r == self@.halted,
    {
        self.halted
    }
}

/// The workers that are sent a copy of an event are the enabled features
/// that depend on its producer.
pub proof fn lemma_dependents(state: DispatchState, producer: u32, flag: u32)
    requires
        is_flag(producer),
        is_flag(flag),
    ensures
        holds(state.dependents(producer), flag) <==> holds(state.enabled, flag) && holds(
            dependencies_of(flag),
            producer,
        ),
{
    lemma_flags_distinct();
    lemma_single_flags(flag);
    lemma_single_flags(producer);
}

/// While the loop runs, every event reaches the callback, whatever becomes
/// of the copies: an event never stops the loop, and a copy goes only to a
/// dependent whose worker is not known to be gone.
pub proof fn lemma_events_are_delivered(state: DispatchState, producer: u32)
    requires
        !state.halted,
    ensures
        state.step(Incoming::Event(producer)).1 is Deliver,
        !state.step(Incoming::Event(producer)).0.halted,
        state.step(Incoming::Event(producer)).1->forward == (if holds(
            state.closed,
            MOVING_AVERAGE,
        ) {
            NONE
        } else {
            state.dependents(producer)
        }),
{
}

/// Once the loop has stopped it stays stopped: whatever arrives, nothing is
/// delivered any more.
pub proof fn lemma_halted_run(state: DispatchState, arrivals: Seq<Incoming>)
    requires
        state.halted,
    ensures
        state.run(arrivals).len() == arrivals.len(),
        forall|k: int| 0 <= k < arrivals.len() ==> #[trigger] state.run(arrivals)[k] == Action::Finish,
    decreases arrivals.len(),
{
    if arrivals.len() > 0 {
        lemma_halted_run(state, arrivals.drop_first());
    }
}

/// The failure of the capture worker ends the pipeline with that failure:
/// the loop is told to abort with it, and after that nothing is delivered.
pub proof fn lemma_capture_failure_is_fatal(state: DispatchState, later: Seq<Incoming>)
    requires
        !state.halted,
    ensures
        ({
            let failure = FeatureError::WorkerTerminated(RAW);
            let (after, action) = state.step(Incoming::Failed(failure));
            &&& action == Action::Abort(failure)
            &&& after.halted
            &&& after.run(later).len() == later.len()
            &&& forall|k: int| 0 <= k < later.len() ==> #[trigger] after.run(later)[k] == Action::Finish
        }),
{
    let failure = FeatureError::WorkerTerminated(RAW);
    lemma_halted_run(state.step(Incoming::Failed(failure)).0, later);
}

/// The failure of the moving-average worker costs that feature alone: the
/// loop goes on, raw events are delivered as before, and no copy is sent to
/// the worker that is gone.
pub proof fn lemma_derived_failure_degrades(state: DispatchState)
    requires
        !state.halted,
    ensures
        ({
            let failure = FeatureError::WorkerTerminated(MOVING_AVERAGE);
            let (after, action) = state.step(Incoming::Failed(failure));
            &&& action == Action::Degraded(MOVING_AVERAGE)
            &&& !after.halted
            &&& after.enabled == state.enabled
            &&& after.step(Incoming::Event(RAW)).1 == Action::Deliver { forward: NONE }
        }),
{
    lemma_holds_union(state.closed, MOVING_AVERAGE, MOVING_AVERAGE);
    lemma_flags_distinct();
}

} // verus!
