//! The pipeline as a whole, as a model: the capture worker, the dispatch
//! loop and the moving-average worker take turns in any order, and the
//! channels between them are queues. What the dispatch loop decides in the
//! model is what `Dispatcher::step` decides, and the worker reacts as
//! `derive_moving_average` does. The model shows in which order the
//! callback sees the events, whatever the order of the turns.

use vstd::prelude::*;

use crate::dispatch::{Action, DispatchState, Incoming};
use crate::feature::feature_flags::{holds, lemma_single_flags, MOVING_AVERAGE, NONE, RAW};
use crate::pool::moving_average_reacts;

verus! {

/// An event in the model: a raw buffer or the average made of one, told by
/// the number of the buffer, counted from the start of the capture.
pub enum Tagged {
    Raw(nat),
    Average(nat),
}

impl Tagged {
    /// The flag of the feature that produces this event.
    pub open spec fn producer(self) -> u32 {
        match self {
            Tagged::Raw(_) => RAW,
            Tagged::Average(_) => MOVING_AVERAGE,
        }
    }

    /// The number of the buffer that this event is, or is made of.
    pub open spec fn buffer(self) -> nat {
        match self {
            Tagged::Raw(number) => number,
            Tagged::Average(number) => number,
        }
    }
}

/// Who takes the next turn.
pub enum Turn {
    /// The capture worker publishes the next buffer.
    Capture,
    /// The dispatch loop takes the oldest event from the shared channel.
    Dispatch,
    /// The moving-average worker takes the oldest event from its channel.
    Derive,
    /// The dispatch loop learns of something that is not an event of the
    /// model: a failure, the end of the data, a cancellation.
    Notice(Incoming),
}

/// The state of the pipeline between two turns.
pub struct Pipeline {
    /// What the dispatch loop remembers.
    pub dispatch: DispatchState,
    /// How many buffers were captured.
    pub captured: nat,
    /// The channel that all workers publish into, oldest first.
    pub shared: Seq<Tagged>,
    /// The channel of the moving-average worker, oldest first.
    pub signal: Seq<Tagged>,
    /// What the callback was handed, oldest first.
    pub delivered: Seq<Tagged>,
}

/// Whether, among the events of each producer, a buffer with a smaller
/// number always comes first.
pub open spec fn in_order(events: Seq<Tagged>) -> bool {
    forall|i: int, j: int|
        0 <= i < j < events.len() && (#[trigger] events[i]).producer() == (
        #[trigger] events[j]).producer() ==> events[i].buffer() < events[j].buffer()
}

/// Whether every average comes after the raw buffer it is made of.
pub open spec fn caused(events: Seq<Tagged>) -> bool {
    forall|j: int|
        0 <= j < events.len() && (#[trigger] events[j]) is Average ==> exists|i: int|
            0 <= i < j && #[trigger] events[i] == Tagged::Raw(events[j].buffer())
}

impl Pipeline {
    /// The pipeline before anything was captured.
    pub open spec fn start(enabled: u32) -> Pipeline {
        Pipeline {
            dispatch: DispatchState { enabled, closed: NONE, dropped: 0, halted: false },
            captured: 0,
            shared: Seq::<Tagged>::empty(),
            signal: Seq::<Tagged>::empty(),
            delivered: Seq::<Tagged>::empty(),
        }
    }

    /// The capture worker publishes the next buffer.
    pub open spec fn capture(self) -> Pipeline {
        Pipeline {
            captured: self.captured + 1,
            shared: self.shared.push(Tagged::Raw(self.captured)),
            ..self
        }
    }

    /// The dispatch loop takes the oldest event from the shared channel,
    /// sends a copy to the moving-average worker where the dispatcher says
    /// so, and hands the event to the callback. A loop that has stopped, or
    /// an empty channel, changes nothing.
    pub open spec fn dispatch_one(self) -> Pipeline {
        if self.shared.len() == 0 {
            self
        } else {
            let event = self.shared.first();
            let (dispatch, action) = self.dispatch.step(Incoming::Event(event.producer()));
            match action {
                Action::Deliver { forward } => Pipeline {
                    dispatch,
                    shared: self.shared.drop_first(),
                    signal: if holds(forward, MOVING_AVERAGE) {
                        self.signal.push(event)
                    } else {
                        self.signal
                    },
                    delivered: self.delivered.push(event),
                    ..self
                },
                _ => self,
            }
        }
    }

    /// The moving-average worker takes the oldest event from its channel
    /// and, where it reacts to it, publishes the average of that buffer.
    pub open spec fn derive(self) -> Pipeline {
        if self.signal.len() == 0 {
            self
        } else {
            let event = self.signal.first();
            Pipeline {
                signal: self.signal.drop_first(),
                shared: if moving_average_reacts(event.producer()) {
                    self.shared.push(Tagged::Average(event.buffer()))
                } else {
                    self.shared
                },
                ..self
            }
        }
    }

    /// The state after one turn.
    pub open spec fn turn(self, turn: Turn) -> Pipeline {
        match turn {
            Turn::Capture => self.capture(),
            Turn::Dispatch => self.dispatch_one(),
            Turn::Derive => self.derive(),
            Turn::Notice(incoming) => Pipeline { dispatch: self.dispatch.step(incoming).0, ..self },
        }
    }

    /// The state after the given turns, the first of them first.
    pub open spec fn after(self, turns: Seq<Turn>) -> Pipeline
        decreases turns.len(),
    {
        if turns.len() == 0 {
            self
        } else {
            self.after(turns.drop_last()).turn(turns.last())
        }
    }

    /// What was delivered, followed by what waits in the shared channel:
    /// the order in which the callback sees, or will see, these events.
    pub open spec fn published(self) -> Seq<Tagged> {
        self.delivered + self.shared
    }

    /// What holds between any two turns.
    spec fn settled(self) -> bool {
        &&& in_order(self.published())
        &&& in_order(self.signal)
        &&& caused(self.delivered)
        &&& forall|k: int|
            0 <= k < self.signal.len() ==> (#[trigger] self.signal[k]) is Raw
                && self.delivered.contains(self.signal[k])
        &&& forall|j: int|
            0 <= j < self.shared.len() && (#[trigger] self.shared[j]) is Average
                ==> self.delivered.contains(Tagged::Raw(self.shared[j].buffer()))
        &&& forall|j: int, k: int|
            0 <= j < self.published().len() && 0 <= k < self.signal.len() && (
            #[trigger] self.published()[j]) is Average ==> self.published()[j].buffer() < (
            #[trigger] self.signal[k]).buffer()
        &&& forall|j: int|
            0 <= j < self.published().len() && (#[trigger] self.published()[j]) is Raw
                ==> self.published()[j].buffer() < self.captured
    }
}

/// What holds between two turns still holds after the capture of a buffer.
proof fn lemma_capture_settles(before: Pipeline)
    requires
        before.settled(),
    ensures
        before.capture().settled(),
{
    let after = before.capture();
    assert(after.published() =~= before.published().push(Tagged::Raw(before.captured)));
    assert forall|j: int|
        0 <= j < after.published().len() && (#[trigger] after.published()[j]) is Raw implies
        after.published()[j].buffer() < after.captured by {
        if j < before.published().len() {
            assert(after.published()[j] == before.published()[j]);
        }
    }
    assert forall|i: int, j: int|
        0 <= i < j < after.published().len() && (#[trigger] after.published()[i]).producer() == (
        #[trigger] after.published()[j]).producer() implies after.published()[i].buffer()
        < after.published()[j].buffer() by {
        assert(after.published()[i] == before.published()[i]);
        if j < before.published().len() {
            assert(after.published()[j] == before.published()[j]);
        }
    }
    assert forall|j: int|
        0 <= j < after.shared.len() && (#[trigger] after.shared[j]) is Average implies
        after.delivered.contains(Tagged::Raw(after.shared[j].buffer())) by {
        assert(after.shared[j] == before.shared[j]);
    }
    assert forall|j: int, k: int|
        0 <= j < after.published().len() && 0 <= k < after.signal.len() && (
        #[trigger] after.published()[j]) is Average implies after.published()[j].buffer() < (
        #[trigger] after.signal[k]).buffer() by {
        assert(after.published()[j] == before.published()[j]);
    }
}

/// What holds between two turns still holds after a turn of the dispatch
/// loop.
proof fn lemma_dispatch_settles(before: Pipeline)
    requires
        before.settled(),
    ensures
        before.dispatch_one().settled(),
{
    let after = before.dispatch_one();
    if after != before {
        let event = before.shared.first();
        let reach = before.delivered.len() as int;
        assert(after.delivered == before.delivered.push(event));
        assert(after.shared == before.shared.drop_first());
        assert(after.published() =~= before.published());
        assert(before.published()[reach] == event);
        assert(after.delivered[reach] == event);
        assert forall|x: Tagged| before.delivered.contains(x) implies after.delivered.contains(
            x,
        ) by {
            let i = choose|i: int| 0 <= i < before.delivered.len() && before.delivered[i] == x;
            assert(after.delivered[i] == x);
        }
        // where the raw buffer of an average that is published was delivered
        assert forall|j: int|
            0 <= j < before.published().len() && (
            #[trigger] before.published()[j]) is Average implies exists|i: int|
            0 <= i < reach && i < j && #[trigger] before.delivered[i] == Tagged::Raw(
                before.published()[j].buffer(),
            ) by {
            if j < reach {
                assert(before.published()[j] == before.delivered[j]);
            } else {
                assert(before.published()[j] == before.shared[j - reach]);
                let raw = Tagged::Raw(before.shared[j - reach].buffer());
                assert(before.delivered.contains(raw));
                let i = choose|i: int| 0 <= i < before.delivered.len() && before.delivered[i] == raw;
                assert(before.delivered[i] == raw);
            }
        }
        assert forall|j: int|
            0 <= j < after.delivered.len() && (
            #[trigger] after.delivered[j]) is Average implies exists|i: int|
            0 <= i < j && #[trigger] after.delivered[i] == Tagged::Raw(
                after.delivered[j].buffer(),
            ) by {
            assert(after.delivered[j] == before.published()[j]);
            let i = choose|i: int|
                0 <= i < reach && i < j && #[trigger] before.delivered[i] == Tagged::Raw(
                    before.published()[j].buffer(),
                );
            assert(after.delivered[i] == before.delivered[i]);
        }
        assert forall|j: int|
            0 <= j < after.shared.len() && (#[trigger] after.shared[j]) is Average implies
            after.delivered.contains(Tagged::Raw(after.shared[j].buffer())) by {
            assert(after.shared[j] == before.shared[j + 1]);
        }
        if after.signal != before.signal {
            assert(after.signal == before.signal.push(event));
            assert(event is Raw) by {
                lemma_single_flags(MOVING_AVERAGE);
            }
            assert forall|k: int| 0 <= k < before.signal.len() implies (
            #[trigger] before.signal[k]).buffer() < event.buffer() by {
                let waiting = before.signal[k];
                assert(before.delivered.contains(waiting));
                let i = choose|i: int|
                    0 <= i < before.delivered.len() && before.delivered[i] == waiting;
                assert(before.published()[i] == waiting);
            }
            assert forall|i: int, j: int|
                0 <= i < j < after.signal.len() && (#[trigger] after.signal[i]).producer() == (
                #[trigger] after.signal[j]).producer() implies after.signal[i].buffer()
                < after.signal[j].buffer() by {
                assert(after.signal[i] == before.signal[i]);
                if j < before.signal.len() {
                    assert(after.signal[j] == before.signal[j]);
                }
            }
            assert forall|k: int| 0 <= k < after.signal.len() implies (
            #[trigger] after.signal[k]) is Raw && after.delivered.contains(after.signal[k]) by {
                if k < before.signal.len() {
                    assert(after.signal[k] == before.signal[k]);
                }
            }
            assert forall|j: int, k: int|
                0 <= j < after.published().len() && 0 <= k < after.signal.len() && (
                #[trigger] after.published()[j]) is Average implies after.published()[j].buffer()
                < (#[trigger] after.signal[k]).buffer() by {
                if k < before.signal.len() {
                    assert(after.signal[k] == before.signal[k]);
                } else {
                    let i = choose|i: int|
                        0 <= i < reach && i < j && #[trigger] before.delivered[i] == Tagged::Raw(
                            before.published()[j].buffer(),
                        );
                    assert(before.published()[i] == before.delivered[i]);
                }
            }
        }
    }
}

/// What holds between two turns still holds after a turn of the
/// moving-average worker.
proof fn lemma_derive_settles(before: Pipeline)
    requires
        before.settled(),
    ensures
        before.derive().settled(),
{
    let after = before.derive();
    if before.signal.len() > 0 {
        let event = before.signal.first();
        let average = Tagged::Average(event.buffer());
        assert(before.signal[0] is Raw);
        assert(event == Tagged::Raw(event.buffer()));
        assert(after.shared == before.shared.push(average));
        assert(after.published() =~= before.published().push(average));
        assert forall|k: int| 0 <= k < after.signal.len() implies (
        #[trigger] after.signal[k]) is Raw && after.delivered.contains(after.signal[k]) by {
            assert(after.signal[k] == before.signal[k + 1]);
        }
        assert forall|i: int, j: int|
            0 <= i < j < after.signal.len() && (#[trigger] after.signal[i]).producer() == (
            #[trigger] after.signal[j]).producer() implies after.signal[i].buffer()
            < after.signal[j].buffer() by {
            assert(after.signal[i] == before.signal[i + 1]);
            assert(after.signal[j] == before.signal[j + 1]);
        }
        assert forall|i: int, j: int|
            0 <= i < j < after.published().len() && (#[trigger] after.published()[i]).producer()
                == (#[trigger] after.published()[j]).producer() implies
            after.published()[i].buffer() < after.published()[j].buffer() by {
            assert(after.published()[i] == before.published()[i]);
            if j < before.published().len() {
                assert(after.published()[j] == before.published()[j]);
            } else {
                assert(before.published()[i] is Average);
                assert(before.signal[0].buffer() == event.buffer());
            }
        }
        assert forall|j: int|
            0 <= j < after.shared.len() && (#[trigger] after.shared[j]) is Average implies
            after.delivered.contains(Tagged::Raw(after.shared[j].buffer())) by {
            if j < before.shared.len() {
                assert(after.shared[j] == before.shared[j]);
            } else {
                assert(before.delivered.contains(before.signal[0]));
            }
        }
        assert forall|j: int, k: int|
            0 <= j < after.published().len() && 0 <= k < after.signal.len() && (
            #[trigger] after.published()[j]) is Average implies after.published()[j].buffer() < (
            #[trigger] after.signal[k]).buffer() by {
            assert(after.signal[k] == before.signal[k + 1]);
            if j < before.published().len() {
                assert(after.published()[j] == before.published()[j]);
            } else {
                assert(before.signal[0].producer() == before.signal[k + 1].producer());
            }
        }
        assert forall|j: int|
            0 <= j < after.published().len() && (#[trigger] after.published()[j]) is Raw implies
            after.published()[j].buffer() < after.captured by {
            assert(after.published()[j] == before.published()[j]);
        }
    }
}

/// What holds between two turns holds after any turns from the start.
proof fn lemma_settled(enabled: u32, turns: Seq<Turn>)
    ensures
        Pipeline::start(enabled).after(turns).settled(),
    decreases turns.len(),
{
    let start = Pipeline::start(enabled);
    if turns.len() == 0 {
        assert(start.published() =~= Seq::<Tagged>::empty());
    } else {
        lemma_settled(enabled, turns.drop_last());
        let before = start.after(turns.drop_last());
        match turns.last() {
            Turn::Capture => lemma_capture_settles(before),
            Turn::Dispatch => lemma_dispatch_settles(before),
            Turn::Derive => lemma_derive_settles(before),
            Turn::Notice(incoming) => {
                let after = before.turn(turns.last());
                assert(after.published() == before.published());
            },
        }
    }
}

/// In whatever order the workers and the dispatch loop take their turns,
/// the callback sees every average after the raw buffer it is made of, the
/// raw buffers in the order of their capture, and the averages in the order
/// of the buffers they are made of.
pub proof fn lemma_causal_order(enabled: u32, turns: Seq<Turn>)
    ensures
        caused(Pipeline::start(enabled).after(turns).delivered),
        in_order(Pipeline::start(enabled).after(turns).delivered),
{
    let reached = Pipeline::start(enabled).after(turns);
    lemma_settled(enabled, turns);
    assert forall|i: int, j: int|
        0 <= i < j < reached.delivered.len() && (#[trigger] reached.delivered[i]).producer() == (
        #[trigger] reached.delivered[j]).producer() implies reached.delivered[i].buffer()
        < reached.delivered[j].buffer() by {
        assert(reached.published()[i] == reached.delivered[i]);
        assert(reached.published()[j] == reached.delivered[j]);
    }
}

} // verus!
