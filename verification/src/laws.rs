//! The behavioural laws of the tracker, stated once and proved.
//!
//! Each proof function here states one guarantee of the session lifecycle or
//! of the sampling loop over the same spec-level transitions that the
//! executable operations are proved to implement, so the guarantee carries
//! over to every execution.

use vstd::prelude::*;

use crate::record::RecordModel;
use crate::record::SampleModel;
use crate::record::record_of;
use crate::sampling::ObservedTick;
use crate::sampling::StepModel;
use crate::sampling::TickModel;
use crate::sampling::emitted;
use crate::sampling::emitted_observing;
use crate::sampling::step_of;
use crate::session::SessionModel;
use crate::session::SnapshotModel;
use crate::session::TrackError;
use crate::session::snapshot_of;
use crate::session::start_post;
use crate::session::start_result;
use crate::session::stop_post;
use crate::session::stop_result;

verus! {

/// A sampling loop is live exactly when the session is active and the loop
/// was spawned for the session's current generation.
pub open spec fn loop_live(m: SessionModel, generation: u64) -> bool {
    m.active && generation == m.generation
}

/// Mutual exclusion on activity: two live sampling loops are one and the
/// same — the session carries a single current generation, so at most one
/// loop is live at any time.
pub proof fn lemma_at_most_one_live_loop(m: SessionModel, g1: u64, g2: u64)
    requires
        loop_live(m, g1),
        loop_live(m, g2),
    ensures
        g1 == g2,
{
}

/// Mutual exclusion on activity, at the control surface: starting while a
/// session is active is refused with `AlreadyActive` and changes nothing, so
/// no second sampling loop is ever spawned without an intervening stop.
pub proof fn lemma_start_refused_while_active(
    m: SessionModel,
    user_id: Seq<char>,
    team_id: Seq<char>,
    credential: Seq<char>,
)
    requires
        m.active,
    ensures
        start_result(m) == Err::<(), TrackError>(TrackError::AlreadyActive),
        start_post(m, user_id, team_id, credential) == m,
{
}

/// Idempotent stop: stopping while no session is active always yields
/// `NotActive` and leaves the state as it was — inactive, with no identity
/// bound.
pub proof fn lemma_stop_idempotent(m: SessionModel)
    requires
        m.inv(),
        !m.active,
    ensures
        stop_result(m) == Err::<(), TrackError>(TrackError::NotActive),
        stop_post(m) == m,
        !stop_post(m).active,
        stop_post(m).user_id is None,
        stop_post(m).team_id is None,
        stop_post(m).credential is None,
{
}

/// Identity invariant, after a start: a successful start leaves the status
/// reporting an active session with exactly the non-empty user and team
/// identifiers that were bound.
pub proof fn lemma_status_after_start(
    m: SessionModel,
    user_id: Seq<char>,
    team_id: Seq<char>,
    credential: Seq<char>,
)
    requires
        m.inv(),
        !m.active,
        user_id.len() > 0,
        team_id.len() > 0,
        credential.len() > 0,
    ensures
        snapshot_of(start_post(m, user_id, team_id, credential)) == (SnapshotModel {
            active: true,
            user_id: Some(user_id),
            team_id: Some(team_id),
        }),
        start_post(m, user_id, team_id, credential).inv(),
{
}

/// Identity invariant, after a stop: a successful stop leaves the status
/// reporting an inactive session with no user and no team identifier.
pub proof fn lemma_status_after_stop(m: SessionModel)
    requires
        m.inv(),
        m.active,
    ensures
        stop_result(m) == Ok::<(), TrackError>(()),
        snapshot_of(stop_post(m)) == (SnapshotModel { active: false, user_id: None, team_id: None }),
        stop_post(m).inv(),
{
}

/// Cancellation: a successful stop raises the cancellation signal, and every
/// tick that observes the raised signal exits without emitting, whatever the
/// sampler port returned.  The loop reads the signal at the top of each
/// tick, so no record is emitted later than one sampling interval plus one
/// in-flight sampler call after stop returns.
pub proof fn lemma_no_emission_after_stop(
    m: SessionModel,
    outcome: Result<SampleModel, Seq<char>>,
    now: u64,
)
    requires
        m.active,
    ensures
        stop_post(m).cancel_requested,
        step_of(stop_post(m).cancel_requested, outcome, now) is Exit,
        forall|r: RecordModel| step_of(stop_post(m).cancel_requested, outcome, now) != StepModel::Emit(r),
{
}

/// Cancellation latency, over a whole run: once every tick from position
/// `k` on reads a raised signal, the run emits exactly what its first `k`
/// ticks emit — the tick that observes the stop, and everything after it,
/// emits nothing.  With the signal read at the top of each tick, the last
/// possible emission is therefore the tick already underway when stop
/// returned: one sampling interval plus one in-flight sampler call.
pub proof fn lemma_emission_stops_at_cancel(ticks: Seq<ObservedTick>, k: int)
    requires
        0 <= k <= ticks.len(),
        forall|i: int| k <= i < ticks.len() ==> ticks[i].cancel_requested,
    ensures
        emitted_observing(ticks) == emitted_observing(ticks.take(k)),
    decreases ticks.len(),
{
    if ticks.len() == 0 {
        assert(ticks.take(k) =~= ticks);
    } else if k == 0 {
        assert(ticks.first().cancel_requested);
        assert(emitted_observing(ticks.take(0)) =~= Seq::<RecordModel>::empty());
    } else if ticks.first().cancel_requested {
        assert(ticks.take(k).first().cancel_requested);
    } else {
        let rest = ticks.drop_first();
        assert(forall|i: int| k - 1 <= i < rest.len() ==> rest[i].cancel_requested);
        lemma_emission_stops_at_cancel(rest, k - 1);
        assert(ticks.take(k).drop_first() =~= rest.take(k - 1));
        assert(ticks.take(k).first() == ticks.first());
    }
}

/// Head decomposition of `emitted`: a non-empty run emits its first tick's
/// records followed by the rest's.
proof fn lemma_emitted_head(ticks: Seq<TickModel>)
    requires
        ticks.len() > 0,
    ensures
        emitted(ticks) == (match ticks.first().outcome {
            Ok(s) => seq![record_of(s, ticks.first().now)],
            Err(_) => Seq::<RecordModel>::empty(),
        }) + emitted(ticks.drop_first()),
    decreases ticks.len(),
{
    let head = (match ticks.first().outcome {
        Ok(s) => seq![record_of(s, ticks.first().now)],
        Err(_) => Seq::<RecordModel>::empty(),
    });
    if ticks.len() == 1 {
        assert(ticks.drop_last() =~= Seq::<TickModel>::empty());
        assert(ticks.drop_first() =~= Seq::<TickModel>::empty());
        assert(ticks.last() == ticks.first());
        assert(emitted(ticks) =~= head + emitted(ticks.drop_first()));
    } else {
        let tail = (match ticks.last().outcome {
            Ok(s) => seq![record_of(s, ticks.last().now)],
            Err(_) => Seq::<RecordModel>::empty(),
        });
        lemma_emitted_head(ticks.drop_last());
        assert(ticks.drop_last().first() == ticks.first());
        assert(ticks.drop_last().drop_first() =~= ticks.drop_first().drop_last());
        assert(ticks.drop_first().last() == ticks.last());
        assert(ticks.drop_first().len() > 0);
        assert(emitted(ticks) == emitted(ticks.drop_last()) + tail);
        assert(emitted(ticks.drop_last()) == head + emitted(ticks.drop_first().drop_last()));
        assert(emitted(ticks.drop_first()) == emitted(ticks.drop_first().drop_last()) + tail);
        assert((head + emitted(ticks.drop_first().drop_last())) + tail =~= head + (emitted(
            ticks.drop_first().drop_last(),
        ) + tail));
    }
}

/// Coherence of the two run descriptions: while no stop arrives, a run that
/// observes the cancellation signal at each tick emits exactly what the
/// plain schedule of its tick inputs emits.
pub proof fn lemma_uncancelled_observed_run(ticks: Seq<ObservedTick>)
    requires
        forall|i: int| 0 <= i < ticks.len() ==> !ticks[i].cancel_requested,
    ensures
        emitted_observing(ticks) == emitted(ticks.map_values(|t: ObservedTick| t.tick)),
    decreases ticks.len(),
{
    let plain = ticks.map_values(|t: ObservedTick| t.tick);
    if ticks.len() == 0 {
        assert(plain =~= Seq::<TickModel>::empty());
    } else {
        assert(!ticks.first().cancel_requested);
        lemma_uncancelled_observed_run(ticks.drop_first());
        lemma_emitted_head(plain);
        assert(ticks.drop_first().map_values(|t: ObservedTick| t.tick) =~= plain.drop_first());
        assert(plain.first() == ticks.first().tick);
    }
}

/// Fault tolerance, tick by tick: while the cancellation signal is clear, a
/// sampler failure is skipped — the loop neither exits nor emits — and a
/// sampler success emits exactly the tick's record.
pub proof fn lemma_failure_is_skipped(
    failure: Seq<char>,
    success: SampleModel,
    now: u64,
)
    ensures
        step_of(false, Err(failure), now) is Skip,
        step_of(false, Ok(success), now) == StepModel::Emit(record_of(success, now)),
{
}

/// A run made of sampler failures only emits nothing — and, tick by tick,
/// never exits: the loop survives any number of consecutive failures.
pub proof fn lemma_all_failures_emit_nothing(ticks: Seq<TickModel>)
    requires
        forall|i: int| 0 <= i < ticks.len() ==> ticks[i].outcome is Err,
    ensures
        emitted(ticks) =~= Seq::<RecordModel>::empty(),
    decreases ticks.len(),
{
    if ticks.len() > 0 {
        assert(forall|i: int|
            0 <= i < ticks.drop_last().len() ==> ticks.drop_last()[i].outcome is Err);
        lemma_all_failures_emit_nothing(ticks.drop_last());
    }
}

/// Fault tolerance over a whole run: any number of consecutive sampler
/// failures followed by one success emits exactly the success's record —
/// the loop runs on through the failures and resumes normal emission.
pub proof fn lemma_emission_resumes_after_failures(failures: Seq<TickModel>, success: TickModel)
    requires
        forall|i: int| 0 <= i < failures.len() ==> failures[i].outcome is Err,
        success.outcome is Ok,
    ensures
        emitted(failures.push(success)) =~= seq![record_of(success.outcome->Ok_0, success.now)],
{
    lemma_all_failures_emit_nothing(failures);
    assert(failures.push(success).drop_last() =~= failures);
    assert(failures.push(success).last() == success);
}

} // verus!
