//! Per-tick decisions of the sampling loop.
//!
//! The loop itself lives in the shell around this crate: once per sampling
//! interval it reads the cancellation signal, invokes the sampler port,
//! reads the clock, and hands the three results to `sampling_step`, which
//! decides — exit, emit a record, or skip this tick.  Keeping the decision
//! here makes it total and provable for every outcome the sampler port can
//! produce; the shell only performs the chosen action.
//!
//! `run_uncancelled` replays the same decision over a recorded schedule of
//! sampler outcomes with no stop request, returning exactly the records the
//! loop would have emitted.

use vstd::prelude::*;

use crate::record::ActivityRecord;
use crate::record::RecordModel;
use crate::record::Sample;
use crate::record::SampleModel;
use crate::record::record_of;

verus! {

/// The fixed sampling cadence, in seconds.  Coarse by design: this is
/// workplace-activity telemetry, not a profiler; correctness asks only for
/// eventual, monotonic-timestamped delivery while a session is active.
pub const SAMPLING_INTERVAL_SECONDS: u64 = 30;

/// Why the sampler port failed for one tick.  Transient operating-system
/// query failures are expected; they are tolerated tick by tick and never
/// surfaced to the control surface.
#[derive(Debug)]
pub struct PlatformError {
    pub message: String,
}

impl View for PlatformError {
    type V = Seq<char>;

    open spec fn view(&self) -> Seq<char> {
        self.message@
    }
}

/// One tick's input to the sampling loop: what the sampler port returned and
/// the wall-clock time the tick ran at, in seconds since the Unix epoch.
#[derive(Debug)]
pub struct TickInput {
    pub outcome: Result<Sample, PlatformError>,
    pub now: u64,
}

/// Mathematical image of a `TickInput`.
pub ghost struct TickModel {
    pub outcome: Result<SampleModel, Seq<char>>,
    pub now: u64,
}

impl View for TickInput {
    type V = TickModel;

    open spec fn view(&self) -> TickModel {
        TickModel {
            outcome: match self.outcome {
                Ok(s) => Ok(s@),
                Err(e) => Err(e@),
            },
            now: self.now,
        }
    }
}

impl DeepView for TickInput {
    type V = TickModel;

    open spec fn deep_view(&self) -> TickModel {
        self.view()
    }
}

/// What the loop does with one tick.
#[derive(Debug)]
pub enum StepAction {
    /// The cancellation signal was raised: exit cleanly, emit nothing.
    Exit,
    /// The sample succeeded: hand this record to the emission sink.
    Emit(ActivityRecord),
    /// The sampler port failed: emit nothing this tick, keep running.
    Skip,
}

/// Mathematical image of a `StepAction`.
pub ghost enum StepModel {
    Exit,
    Emit(RecordModel),
    Skip,
}

impl View for StepAction {
    type V = StepModel;

    open spec fn view(&self) -> StepModel {
        match self {
            StepAction::Exit => StepModel::Exit,
            StepAction::Emit(r) => StepModel::Emit(r@),
            StepAction::Skip => StepModel::Skip,
        }
    }
}

/// The decision for one tick: exit on a raised cancellation signal; emit the
/// tick's record on a successful sample; otherwise skip and keep running.
pub open spec fn step_of(
    cancel_requested: bool,
    outcome: Result<SampleModel, Seq<char>>,
    now: u64,
) -> StepModel {
    if cancel_requested {
        StepModel::Exit
    } else {
        match outcome {
            Ok(s) => StepModel::Emit(record_of(s, now)),
            Err(_) => StepModel::Skip,
        }
    }
}

/// Decide one tick of the sampling loop.
///
/// `cancel_requested` is the cancellation signal as read at the top of the
/// tick, `outcome` is what the sampler port returned, and `now` is the
/// wall-clock time in seconds since the Unix epoch.  The decision is exact:
/// a raised signal always exits and never emits, a successful sample always
/// emits its record, and a failed sample never terminates the loop.
pub fn sampling_step(
    cancel_requested: bool,
    outcome: &Result<Sample, PlatformError>,
    now: u64,
) -> (a: StepAction)
    ensures
        a@ == step_of(cancel_requested, match *outcome {
            Ok(s) => Ok(s@),
            Err(e) => Err(e@),
        }, now),
{
    if cancel_requested {
        return StepAction::Exit;
    }
    match outcome {
        Ok(s) => StepAction::Emit(
            ActivityRecord {
                app_name: s.app_name.clone(),
                window_title: s.window_title.clone(),
                idle_millis: s.idle_millis,
                timestamp_unix_seconds: now,
            },
        ),
        Err(_) => StepAction::Skip,
    }
}

/// On-demand single sample for the control surface, independent of the
/// running loop.  It deliberately does not require an active session: the
/// caller may probe the current activity at any time.  A sampler success
/// becomes the record for wall-clock time `now`; a sampler failure is
/// surfaced as its message.
pub fn current_activity(outcome: Result<Sample, PlatformError>, now: u64) -> (r: Result<
    ActivityRecord,
    String,
>)
    ensures
        outcome matches Ok(s) ==> r matches Ok(rec) && rec@ == record_of(s@, now),
        outcome matches Err(e) ==> r matches Err(m) && m@ == e@,
{
    match outcome {
        Ok(s) => Ok(crate::record::make_record(s, now)),
        Err(e) => Err(e.message),
    }
}

/// The records a run of the loop emits over the ticks `ticks`, when no stop
/// is requested during the run: one record per successful sample, in tick
/// order, and none for a failed one.
pub open spec fn emitted(ticks: Seq<TickModel>) -> Seq<RecordModel>
    decreases ticks.len(),
{
    if ticks.len() == 0 {
        Seq::empty()
    } else {
        emitted(ticks.drop_last()) + match ticks.last().outcome {
            Ok(s) => seq![record_of(s, ticks.last().now)],
            Err(_) => Seq::empty(),
        }
    }
}

/// One tick as the loop experiences it: the cancellation signal as read at
/// the top of the tick, then the tick's input.
pub ghost struct ObservedTick {
    pub cancel_requested: bool,
    pub tick: TickModel,
}

/// The records a whole run of the loop emits when it observes the
/// cancellation signal at the top of each tick: the run ends at the first
/// tick that reads a raised signal, and that tick emits nothing.
pub open spec fn emitted_observing(ticks: Seq<ObservedTick>) -> Seq<RecordModel>
    decreases ticks.len(),
{
    if ticks.len() == 0 {
        Seq::empty()
    } else if ticks.first().cancel_requested {
        Seq::empty()
    } else {
        (match ticks.first().tick.outcome {
            Ok(s) => seq![record_of(s, ticks.first().tick.now)],
            Err(_) => Seq::<RecordModel>::empty(),
        }) + emitted_observing(ticks.drop_first())
    }
}

/// Replay the sampling loop over a recorded schedule of tick inputs, with no
/// stop requested, and return every record it emits.  Sampler failures are
/// skipped, never fatal: the run always reaches the end of the schedule.
pub fn run_uncancelled(ticks: &Vec<TickInput>) -> (records: Vec<ActivityRecord>)
    ensures
        records.deep_view() == emitted(ticks.deep_view()),
{
    let mut records: Vec<ActivityRecord> = Vec::new();
    let mut i: usize = 0;
    while i < ticks.len()
        invariant
            i <= ticks.len(),
            records.deep_view() == emitted(ticks.deep_view().take(i as int)),
        decreases ticks.len() - i,
    {
        let tick = &ticks[i];
        let action = sampling_step(false, &tick.outcome, tick.now);
        proof {
            let all = ticks.deep_view();
            assert(all.take(i + 1).drop_last() =~= all.take(i as int));
            assert(all.take(i + 1).last() == all[i as int]);
        }
        match action {
            StepAction::Emit(r) => {
                let ghost before = records.deep_view();
                records.push(r);
                proof {
                    assert(records.deep_view() =~= before.push(r@));
                    assert(records.deep_view() =~= emitted(ticks.deep_view().take(i + 1)));
                }
            },
            StepAction::Skip => {
                proof {
                    assert(records.deep_view() =~= emitted(ticks.deep_view().take(i + 1)));
                }
            },
            StepAction::Exit => {
                proof {
                    assert(false);
                }
            },
        }
        i = i + 1;
    }
    proof {
        assert(ticks.deep_view().take(ticks.deep_view().len() as int) =~= ticks.deep_view());
    }
    records
}

} // verus!
