//! What holds of a supervisor over whole runs of calls.
//!
//! A supervisor shared between threads sits behind a lock, and every call on
//! it is made with the lock held. Whatever the threads do, the calls then
//! take effect one after another, in the order in which the lock was won. A
//! run is such an order; the laws below hold of every run, and so of
//! whatever the threads do.

use crate::launch::StartConfigView;
use crate::supervisor::{
    decide_start, record_outcome, release, ProcessHandle, SpawnError, StartDecisionView,
    StartReport,
};
use vstd::prelude::*;

verus! {

/// One call on the supervisor, with what the operating system answered
/// where it was asked.
pub enum Call<H> {
    /// A start made with the lock held throughout: the decision, then, where
    /// a process was to be created, the attempt and its recording. The
    /// second field is what the operating system answers if it is asked.
    Start(StartConfigView, Result<ProcessHandle<H>, SpawnError>),
    /// The recording of an attempt that was decided on before the lock was
    /// last given up: the second half of a start that may have raced with
    /// others.
    Record(Result<ProcessHandle<H>, SpawnError>),
    /// A stop.
    Stop,
}

/// What one call does.
pub struct Effect<H> {
    /// What the supervisor holds afterwards.
    pub held: Option<ProcessHandle<H>>,
    /// The process that the operating system created for the call.
    pub created: Option<ProcessHandle<H>>,
    /// The process that the call hands to its caller to signal.
    pub returned: Option<ProcessHandle<H>>,
}

/// The process of an attempt, if it gave one.
pub open spec fn process_of<H>(outcome: Result<ProcessHandle<H>, SpawnError>) -> Option<
    ProcessHandle<H>,
> {
    match outcome {
        Ok(handle) => Some(handle),
        Err(_) => None,
    }
}

/// The process that a report hands back, if it hands one back.
pub open spec fn surplus_of<H>(report: StartReport<H>) -> Option<ProcessHandle<H>> {
    match report {
        StartReport::Rejected(handle) => Some(handle),
        _ => None,
    }
}

/// What the recording of an attempt does to a supervisor that holds `held`.
pub open spec fn effect_of_record<H>(
    held: Option<ProcessHandle<H>>,
    outcome: Result<ProcessHandle<H>, SpawnError>,
) -> Effect<H> {
    Effect {
        held: record_outcome(held, outcome).0,
        created: process_of(outcome),
        returned: surplus_of(record_outcome(held, outcome).1),
    }
}

/// What a call does to a supervisor that holds `held`.
pub open spec fn effect_of<H>(held: Option<ProcessHandle<H>>, call: Call<H>) -> Effect<H> {
    match call {
        Call::Start(config, answer) => match decide_start(held, config) {
            StartDecisionView::Spawn(_) => effect_of_record(held, answer),
            StartDecisionView::AlreadyRunning { .. } => Effect {
                held,
                created: None,
                returned: None,
            },
        },
        Call::Record(outcome) => effect_of_record(held, outcome),
        Call::Stop => Effect { held: release(held).0, created: None, returned: release(held).1 },
    }
}

/// What is held after a run of calls.
pub open spec fn held_after<H>(
    held: Option<ProcessHandle<H>>,
    calls: Seq<Call<H>>,
) -> Option<ProcessHandle<H>>
    decreases calls.len(),
{
    if calls.len() == 0 {
        held
    } else {
        effect_of(held_after(held, calls.drop_last()), calls.last()).held
    }
}

/// What the call at `at` does in a run.
pub open spec fn effect_at<H>(
    held: Option<ProcessHandle<H>>,
    calls: Seq<Call<H>>,
    at: int,
) -> Effect<H>
    recommends
        0 <= at < calls.len(),
{
    effect_of(held_after(held, calls.take(at)), calls[at])
}

/// The handles in `handles`, followed by `next` if there is one.
pub open spec fn followed_by<H>(
    handles: Seq<ProcessHandle<H>>,
    next: Option<ProcessHandle<H>>,
) -> Seq<ProcessHandle<H>> {
    match next {
        Some(handle) => handles.push(handle),
        None => handles,
    }
}

/// The processes created in a run of calls, in order.
pub open spec fn created_in<H>(
    held: Option<ProcessHandle<H>>,
    calls: Seq<Call<H>>,
) -> Seq<ProcessHandle<H>>
    decreases calls.len(),
{
    if calls.len() == 0 {
        Seq::empty()
    } else {
        followed_by(
            created_in(held, calls.drop_last()),
            effect_of(held_after(held, calls.drop_last()), calls.last()).created,
        )
    }
}

/// The processes handed to callers in a run of calls, in order.
pub open spec fn returned_in<H>(
    held: Option<ProcessHandle<H>>,
    calls: Seq<Call<H>>,
) -> Seq<ProcessHandle<H>>
    decreases calls.len(),
{
    if calls.len() == 0 {
        Seq::empty()
    } else {
        followed_by(
            returned_in(held, calls.drop_last()),
            effect_of(held_after(held, calls.drop_last()), calls.last()).returned,
        )
    }
}

/// Whether a run is made of starts that hold the lock throughout.
pub open spec fn only_starts<H>(calls: Seq<Call<H>>) -> bool {
    forall|i: int| 0 <= i < calls.len() ==> #[trigger] calls[i] is Start
}

/// Whether a run is made of starts of either kind: none of its calls is a
/// stop.
pub open spec fn no_stops<H>(calls: Seq<Call<H>>) -> bool {
    forall|i: int| 0 <= i < calls.len() ==> !(#[trigger] calls[i] is Stop)
}

/// Whether a run is made of stops.
pub open spec fn only_stops<H>(calls: Seq<Call<H>>) -> bool {
    forall|i: int| 0 <= i < calls.len() ==> #[trigger] calls[i] is Stop
}

/// At most one process: however many starts are made and whatever the
/// operating system answers to each, at most one process is created, it is
/// the one held afterwards, and none is handed back. A supervisor that is
/// running creates none and keeps the process it has.
pub proof fn lemma_starts_create_at_most_one<H>(
    held: Option<ProcessHandle<H>>,
    calls: Seq<Call<H>>,
)
    requires
        only_starts(calls),
    ensures
        created_in(held, calls).len() <= 1,
        returned_in(held, calls).len() == 0,
        held is Some ==> created_in(held, calls).len() == 0 && held_after(held, calls) == held,
        held is None ==> held_after(held, calls) == if created_in(held, calls).len() == 0 {
            None
        } else {
            Some(created_in(held, calls)[0])
        },
    decreases calls.len(),
{
    if calls.len() > 0 {
        let before = calls.drop_last();
        assert(only_starts(before)) by {
            assert forall|i: int| 0 <= i < before.len() implies #[trigger] before[i] is Start by {}
        }
        lemma_starts_create_at_most_one(held, before);
    }
}

/// At most one process is kept: where starts race, so that each is recorded
/// on its own, the first process that is created is kept and every later one
/// is handed back to be signalled, in the order in which they came. A
/// supervisor that is running keeps the process it has and hands back every
/// one that is created.
pub proof fn lemma_raced_starts_keep_one<H>(
    held: Option<ProcessHandle<H>>,
    calls: Seq<Call<H>>,
)
    requires
        no_stops(calls),
    ensures
        held is Some ==> held_after(held, calls) == held && returned_in(held, calls)
            == created_in(held, calls),
        held is None && created_in(held, calls).len() == 0 ==> held_after(held, calls) is None
            && returned_in(held, calls).len() == 0,
        held is None && created_in(held, calls).len() > 0 ==> held_after(held, calls) == Some(
            created_in(held, calls)[0],
        ) && returned_in(held, calls) == created_in(held, calls).drop_first(),
    decreases calls.len(),
{
    if calls.len() > 0 {
        let before = calls.drop_last();
        assert(no_stops(before)) by {
            assert forall|i: int| 0 <= i < before.len() implies !(#[trigger] before[i]
                is Stop) by {}
        }
        lemma_raced_starts_keep_one(held, before);
    }
}

/// Stopping is idempotent: of any number of stops in a row, the first is
/// handed the process that was held, and every later one is handed nothing
/// and changes nothing. A running supervisor so gives rise to exactly one
/// signal and an idle one to none, and the supervisor is idle afterwards.
pub proof fn lemma_stop_is_idempotent<H>(held: Option<ProcessHandle<H>>, calls: Seq<Call<H>>)
    requires
        calls.len() >= 1,
        only_stops(calls),
    ensures
        held_after(held, calls) is None,
        returned_in(held, calls) == followed_by(Seq::empty(), held),
        effect_at(held, calls, 0).returned == held,
        forall|i: int|
            1 <= i < calls.len() ==> {
                &&& held_after(held, calls.take(i)) is None
                &&& (#[trigger] effect_at(held, calls, i)).returned is None
                &&& effect_at(held, calls, i).held is None
            },
    decreases calls.len(),
{
    let before = calls.drop_last();
    if calls.len() > 1 {
        assert(only_stops(before)) by {
            assert forall|i: int| 0 <= i < before.len() implies #[trigger] before[i] is Stop by {}
        }
        lemma_stop_is_idempotent(held, before);
    } else {
        assert(returned_in(held, before) =~= Seq::empty());
    }
}

/// What two callers that stop the supervisor at the same time are handed,
/// and what is held afterwards. The lock lets one of them in first:
/// `a_first` says which.
pub open spec fn racing_stops<H>(held: Option<ProcessHandle<H>>, a_first: bool) -> (
    Option<ProcessHandle<H>>,
    Option<ProcessHandle<H>>,
    Option<ProcessHandle<H>>,
) {
    let calls = seq![Call::<H>::Stop, Call::<H>::Stop];
    let first = effect_at(held, calls, 0).returned;
    let second = effect_at(held, calls, 1).returned;
    if a_first {
        (first, second, held_after(held, calls))
    } else {
        (second, first, held_after(held, calls))
    }
}

/// Two stops that race are safe: whichever of the two callers wins the lock,
/// the supervisor is idle afterwards, the winner is handed the process that
/// was held and the other is handed nothing. A process that was held is so
/// signalled exactly once, and nothing is signalled where none was held.
pub proof fn lemma_racing_stops_signal_once<H>(held: Option<ProcessHandle<H>>, a_first: bool)
    ensures
        racing_stops(held, a_first).2 is None,
        a_first ==> racing_stops(held, a_first).0 == held && racing_stops(held, a_first).1
            is None,
        !a_first ==> racing_stops(held, a_first).1 == held && racing_stops(held, a_first).0
            is None,
{
    let calls = seq![Call::<H>::Stop, Call::<H>::Stop];
    lemma_stop_is_idempotent(held, calls);
}

/// A start that fails is contained: whatever the supervisor holds, it holds
/// the same afterwards, no process has been created and none is handed
/// back, and the failure is reported as it came. An idle supervisor so stays
/// idle.
pub proof fn lemma_failed_start_changes_nothing<H>(
    held: Option<ProcessHandle<H>>,
    config: StartConfigView,
    error: SpawnError,
)
    ensures
        effect_of(held, Call::Start(config, Err(error))) == (Effect::<H> {
            held,
            created: None,
            returned: None,
        }),
        effect_of(held, Call::Record(Err(error))) == (Effect::<H> {
            held,
            created: None,
            returned: None,
        }),
        record_outcome(held, Err(error)) == (held, StartReport::<H>::Failed(error)),
{
}

/// Whether a call started a process: the operating system created one for
/// it, and the supervisor kept it.
pub open spec fn started<H>(effect: Effect<H>) -> bool {
    effect.created is Some && effect.returned is None
}

/// The query follows the life of the process. After any run of calls, a
/// supervisor is running if the last call started a process, and then holds
/// that process; it is idle if the last call was a stop; and a supervisor
/// that was idle at first is idle for as long as no process has been
/// created.
pub proof fn lemma_query_follows_calls<H>(held: Option<ProcessHandle<H>>, calls: Seq<Call<H>>)
    ensures
        calls.len() > 0 && started(effect_at(held, calls, calls.len() - 1)) ==> held_after(
            held,
            calls,
        ) is Some && held_after(held, calls) == effect_at(held, calls, calls.len() - 1).created,
        calls.len() > 0 && calls.last() is Stop ==> held_after(held, calls) is None,
        held is None && created_in(held, calls).len() == 0 ==> held_after(held, calls) is None,
    decreases calls.len(),
{
    if calls.len() > 0 {
        let before = calls.drop_last();
        lemma_query_follows_calls(held, before);
    }
}

/// How often a handle occurs among `handles`.
pub open spec fn occurrences<H>(handles: Seq<ProcessHandle<H>>, handle: ProcessHandle<H>) -> nat
    decreases handles.len(),
{
    if handles.len() == 0 {
        0
    } else {
        occurrences(handles.drop_last(), handle) + if handles.last() == handle {
            1nat
        } else {
            0nat
        }
    }
}

/// One if `held` is the handle, zero otherwise.
pub open spec fn holding<H>(held: Option<ProcessHandle<H>>, handle: ProcessHandle<H>) -> nat {
    if held == Some(handle) {
        1
    } else {
        0
    }
}

/// Every process is accounted for: whatever calls are made and in whatever
/// order, a process is held or has been handed to a caller as often as it
/// came in, held at first or created since. No process is lost sight of, and
/// none is handed out more often than it came in, so none is signalled
/// twice.
pub proof fn lemma_every_process_is_accounted_for<H>(
    held: Option<ProcessHandle<H>>,
    calls: Seq<Call<H>>,
    handle: ProcessHandle<H>,
)
    ensures
        holding(held, handle) + occurrences(created_in(held, calls), handle) == holding(
            held_after(held, calls),
            handle,
        ) + occurrences(returned_in(held, calls), handle),
    decreases calls.len(),
{
    if calls.len() > 0 {
        let before = calls.drop_last();
        lemma_every_process_is_accounted_for(held, before, handle);
        let effect = effect_of(held_after(held, before), calls.last());
        lemma_occurrences_grow(created_in(held, before), effect.created, handle);
        lemma_occurrences_grow(returned_in(held, before), effect.returned, handle);
    }
}

/// A handle put behind others occurs once more among them, and any other
/// handle as often as before.
proof fn lemma_occurrences_grow<H>(
    handles: Seq<ProcessHandle<H>>,
    next: Option<ProcessHandle<H>>,
    handle: ProcessHandle<H>,
)
    ensures
        occurrences(followed_by(handles, next), handle) == occurrences(handles, handle) + holding(
            next,
            handle,
        ),
{
    if let Some(h) = next {
        assert(handles.push(h).drop_last() =~= handles);
    }
}

} // verus!
