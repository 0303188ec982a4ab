//! Poll cycles as a whole: what a poller emits over one complete pass, and
//! what becomes of the connection when a pass fails.

use vstd::prelude::*;

use crate::command::Command;
use crate::connection::TokioState;
use crate::dispatcher::{dispatch, disconnect_effects};
use crate::error::Failure;
use crate::event::Event;
use crate::poller::{fail_at, read_at, read_failure, Phase, PollerAction, PollerModel};
use crate::text::read_error_text;

verus! {

impl PollerModel {
    /// The poller after it was handed `outcomes`, one read after the other.
    pub open spec fn after_reads(self, outcomes: Seq<Result<Seq<u16>, Failure>>) -> PollerModel
        decreases outcomes.len(),
    {
        if outcomes.len() == 0 {
            self
        } else {
            self.after_reads(outcomes.drop_last()).read_done(outcomes.last()).0
        }
    }

    /// What the poller asked for in answer to each of `outcomes`.
    pub open spec fn answers(self, outcomes: Seq<Result<Seq<u16>, Failure>>) -> Seq<PollerAction>
        decreases outcomes.len(),
    {
        if outcomes.len() == 0 {
            Seq::empty()
        } else {
            self.answers(outcomes.drop_last()).push(
                self.after_reads(outcomes.drop_last()).read_done(outcomes.last()).1,
            )
        }
    }
}

/// The events that one request sends to the presentation layer.
pub open spec fn emitted_by(action: PollerAction) -> Seq<Event> {
    match action {
        PollerAction::Publish(event) => seq![event],
        PollerAction::Fail { event, command } => seq![event],
        _ => Seq::empty(),
    }
}

/// The events that a run of requests sends to the presentation layer, in order.
pub open spec fn emitted(actions: Seq<PollerAction>) -> Seq<Event>
    decreases actions.len(),
{
    if actions.len() == 0 {
        Seq::empty()
    } else {
        emitted(actions.drop_last()) + emitted_by(actions.last())
    }
}

/// Reads that all brought something: `values[i]` is what the read at offset `i` brought.
pub open spec fn successes(values: Seq<Seq<u16>>) -> Seq<Result<Seq<u16>, Failure>> {
    Seq::new(values.len(), |i: int| Ok::<Seq<u16>, Failure>(values[i]))
}

/// One cycle of a poller for frames of `length` registers, begun while the
/// connection is up and handed `outcomes`: the poller at its end, and all
/// that it asked for, from the first read on.
pub open spec fn cycle(length: nat, outcomes: Seq<Result<Seq<u16>, Failure>>) -> (
    PollerModel,
    Seq<PollerAction>,
) {
    let start = PollerModel::fresh(length).begin(TokioState::Connected);
    (start.0.after_reads(outcomes), seq![start.1] + start.0.answers(outcomes))
}

/// The frame that is filled up to `count` with the first value of each read.
pub open spec fn partial_frame(length: nat, values: Seq<Seq<u16>>, count: nat) -> Seq<u16> {
    Seq::new(
        length,
        |i: int|
            if i < count {
                values[i][0]
            } else {
                0u16
            },
    )
}

/// A single request emits what it emits.
proof fn lemma_emitted_one(action: PollerAction)
    ensures
        emitted(seq![action]) == emitted_by(action),
{
    assert(seq![action].drop_last() =~= Seq::<PollerAction>::empty());
    assert(emitted(seq![action].drop_last()) =~= Seq::<Event>::empty());
    assert(emitted(seq![action]) =~= emitted_by(action));
}

/// While reads succeed and registers are left to read, the poller reads on
/// and emits nothing.
proof fn lemma_progress(length: nat, values: Seq<Seq<u16>>)
    requires
        values.len() < length,
        forall|i: int| 0 <= i < values.len() ==> (#[trigger] values[i]).len() > 0,
    ensures
        cycle(length, successes(values)).0 == (PollerModel {
            phase: Phase::Reading,
            length,
            offset: values.len(),
            frame: partial_frame(length, values, values.len()),
        }),
        emitted(cycle(length, successes(values)).1) == Seq::<Event>::empty(),
    decreases values.len(),
{
    let start = PollerModel::fresh(length).begin(TokioState::Connected);
    let outcomes = successes(values);
    if values.len() == 0 {
        assert(start.0.frame =~= partial_frame(length, values, 0));
        assert(seq![start.1] + start.0.answers(outcomes) =~= seq![read_at(0)]);
        lemma_emitted_one(read_at(0));
    } else {
        let before = values.drop_last();
        lemma_progress(length, before);
        assert(outcomes.drop_last() =~= successes(before));
        let middle = cycle(length, successes(before));
        let step = middle.0.read_done(outcomes.last());
        assert(read_failure(outcomes.last()) is None);
        assert(step.0.frame =~= partial_frame(length, values, values.len()));
        let actions = cycle(length, outcomes).1;
        assert(actions =~= middle.1.push(step.1));
        assert(actions.drop_last() =~= middle.1);
        assert(emitted(actions) =~= Seq::<Event>::empty());
    }
}

/// A cycle in which every read succeeds emits exactly one event: the
/// registers, as many as the frame is long, each at its offset. The poller is
/// then as new, ready for the next cycle.
pub proof fn lemma_successful_cycle(length: nat, values: Seq<Seq<u16>>)
    requires
        values.len() == length,
        forall|i: int| 0 <= i < values.len() ==> (#[trigger] values[i]).len() > 0,
    ensures
        emitted(cycle(length, successes(values)).1) == seq![
            Event::RegistersUpdated(Seq::new(length, |i: int| values[i][0])),
        ],
        cycle(length, successes(values)).0 == PollerModel::fresh(length),
{
    let start = PollerModel::fresh(length).begin(TokioState::Connected);
    let outcomes = successes(values);
    let frame = Seq::new(length, |i: int| values[i][0]);
    let actions = cycle(length, outcomes).1;
    if length == 0 {
        assert(frame =~= Seq::<u16>::empty());
        assert(actions =~= seq![start.1]);
        lemma_emitted_one(start.1);
    } else {
        let before = values.drop_last();
        lemma_progress(length, before);
        assert(outcomes.drop_last() =~= successes(before));
        let middle = cycle(length, successes(before));
        let step = middle.0.read_done(outcomes.last());
        assert(read_failure(outcomes.last()) is None);
        assert(middle.0.frame.update(length - 1, values[length - 1][0]) =~= frame);
        assert(actions =~= middle.1.push(step.1));
        assert(actions.drop_last() =~= middle.1);
        assert(emitted(actions) =~= seq![Event::RegistersUpdated(frame)]);
    }
}

/// A cycle whose read at offset `k` fails, after `k` reads that succeeded,
/// emits exactly one event: the error that names `k` and the cause. No
/// registers are published. The poller stops, and the command that it hands
/// to the dispatcher takes the connection down, whatever its state was.
pub proof fn lemma_failed_cycle(
    length: nat,
    values: Seq<Seq<u16>>,
    failed: Result<Seq<u16>, Failure>,
    state: TokioState,
)
    requires
        values.len() < length,
        forall|i: int| 0 <= i < values.len() ==> (#[trigger] values[i]).len() > 0,
        read_failure(failed) is Some,
    ensures
        ({
            let k = values.len();
            let cause = read_failure(failed)->Some_0;
            let run = cycle(length, successes(values).push(failed));
            &&& emitted(run.1) == seq![Event::Error(read_error_text(k, cause.detail))]
            &&& run.0.phase == Phase::Stopped
            &&& run.1.last() == fail_at(k, cause)
            &&& run.1.last() matches PollerAction::Fail { event, command }
            &&& dispatch(state, command) == (TokioState::Disconnected, disconnect_effects())
        }),
{
    let k = values.len();
    let cause = read_failure(failed)->Some_0;
    let outcomes = successes(values).push(failed);
    lemma_progress(length, values);
    assert(outcomes.drop_last() =~= successes(values));
    let middle = cycle(length, successes(values));
    let step = middle.0.read_done(failed);
    let actions = cycle(length, outcomes).1;
    assert(actions =~= middle.1.push(step.1));
    assert(actions.drop_last() =~= middle.1);
    assert(emitted(actions) =~= seq![Event::Error(read_error_text(k, cause.detail))]);
}

/// Once stopped, a poller stays stopped, whatever the connection state is
/// and whatever it is handed, and emits nothing more.
pub proof fn lemma_stopped_for_good(
    poller: PollerModel,
    state: TokioState,
    outcome: Result<Seq<u16>, Failure>,
)
    requires
        poller.phase == Phase::Stopped,
    ensures
        poller.begin(state) == (poller, PollerAction::Stop),
        poller.read_done(outcome) == (poller, PollerAction::Stop),
{
}

/// A poller that comes to the boundary between two cycles while the
/// connection is down stops there, without a read and without an event.
pub proof fn lemma_stops_at_boundary(poller: PollerModel)
    ensures
        poller.begin(TokioState::Disconnected).1 == PollerAction::Stop,
        poller.begin(TokioState::Disconnected).0.phase == Phase::Stopped,
{
}

} // verus!
