//! Activity samples and the records emitted for them.
//!
//! A `Sample` is what one invocation of the sampler port observed; an
//! `ActivityRecord` is the immutable value the sampling loop emits for a
//! successful sample, stamped with the wall-clock time of the tick.

use vstd::prelude::*;

verus! {

/// One observation of the operating system: the foreground application, its
/// window title, and how long the user has been idle.
///
/// Idle time is carried in whole milliseconds; the platform boundary that
/// queries the operating system converts from its own representation.
#[derive(Debug)]
pub struct Sample {
    pub app_name: String,
    pub window_title: String,
    pub idle_millis: u64,
}

/// Mathematical image of a `Sample`.
pub ghost struct SampleModel {
    pub app_name: Seq<char>,
    pub window_title: Seq<char>,
    pub idle_millis: u64,
}

impl View for Sample {
    type V = SampleModel;

    open spec fn view(&self) -> SampleModel {
        SampleModel {
            app_name: self.app_name@,
            window_title: self.window_title@,
            idle_millis: self.idle_millis,
        }
    }
}

impl DeepView for Sample {
    type V = SampleModel;

    open spec fn deep_view(&self) -> SampleModel {
        self.view()
    }
}

/// One emitted observation: application, window title, idle duration and the
/// tick's wall-clock timestamp.  Created once per successful sampling tick,
/// never mutated, handed to the emission sink and then discarded.
#[derive(Debug)]
pub struct ActivityRecord {
    pub app_name: String,
    pub window_title: String,
    pub idle_millis: u64,
    pub timestamp_unix_seconds: u64,
}

/// Mathematical image of an `ActivityRecord`.
pub ghost struct RecordModel {
    pub app_name: Seq<char>,
    pub window_title: Seq<char>,
    pub idle_millis: u64,
    pub timestamp_unix_seconds: u64,
}

impl View for ActivityRecord {
    type V = RecordModel;

    open spec fn view(&self) -> RecordModel {
        RecordModel {
            app_name: self.app_name@,
            window_title: self.window_title@,
            idle_millis: self.idle_millis,
            timestamp_unix_seconds: self.timestamp_unix_seconds,
        }
    }
}

impl DeepView for ActivityRecord {
    type V = RecordModel;

    open spec fn deep_view(&self) -> RecordModel {
        self.view()
    }
}

/// The record a tick at wall-clock time `now` emits for the sample `s`.
pub open spec fn record_of(s: SampleModel, now: u64) -> RecordModel {
    RecordModel {
        app_name: s.app_name,
        window_title: s.window_title,
        idle_millis: s.idle_millis,
        timestamp_unix_seconds: now,
    }
}

/// Package one successful sample into the record emitted for this tick.
pub fn make_record(sample: Sample, now: u64) -> (r: ActivityRecord)
    ensures
        r@ == record_of(sample@, now),
{
    ActivityRecord {
        app_name: sample.app_name,
        window_title: sample.window_title,
        idle_millis: sample.idle_millis,
        timestamp_unix_seconds: now,
    }
}

} // verus!
