//! The tracking-session state machine.
//!
//! A `TrackingSession` owns the is-active flag, the identity bound at start
//! (user, team, credential), and the cancellation signal that tells a running
//! sampling loop to exit.  Its three operations — start, stop, status — are
//! total: they validate the current state and either perform the transition
//! or report why they did not, never panicking.
//!
//! The session record is constructed exactly once at process start and lives
//! for the process lifetime; the shell around this crate shares it between
//! the control surface and the sampling loop under a single lock, and mirrors
//! the cancellation flag into an atomically readable bit so the loop can poll
//! it without contending for that lock.

use vstd::prelude::*;

verus! {

/// Why a control-surface operation was refused.  Both errors are recoverable:
/// the session state is unchanged when they are returned.
#[derive(Clone, Copy, Debug, PartialEq, Eq, Structural)]
pub enum TrackError {
    /// Start was called while a session is active.
    AlreadyActive,
    /// Stop was called while no session is active.
    NotActive,
}

/// The one-line human-readable text of a refused operation.
pub open spec fn message_of(e: TrackError) -> Seq<char> {
    match e {
        TrackError::AlreadyActive => "Tracking is already active"@,
        TrackError::NotActive => "Tracking is not active"@,
    }
}

impl TrackError {
    /// The one-line human-readable message surfaced to the caller.
    pub fn message(&self) -> (m: String)
        ensures
            m@ == message_of(*self),
    {
        match self {
            TrackError::AlreadyActive => "Tracking is already active".to_owned(),
            TrackError::NotActive => "Tracking is not active".to_owned(),
        }
    }
}

/// Mathematical image of a `TrackingSession`.
pub ghost struct SessionModel {
    pub active: bool,
    pub user_id: Option<Seq<char>>,
    pub team_id: Option<Seq<char>>,
    pub credential: Option<Seq<char>>,
    pub cancel_requested: bool,
    pub generation: u64,
}

impl SessionModel {
    /// Well-formedness: the three identity fields are present exactly while a
    /// session is active, and the cancellation signal is clear while one is
    /// active (start clears it; only stop raises it, and stop also clears the
    /// active flag).
    pub open spec fn inv(self) -> bool {
        &&& self.active == self.user_id is Some
        &&& self.active == self.team_id is Some
        &&& self.active == self.credential is Some
        &&& self.active ==> !self.cancel_requested
    }

    /// The state a fresh process starts in: inactive, no identity, signal clear.
    pub open spec fn initial() -> SessionModel {
        SessionModel {
            active: false,
            user_id: None,
            team_id: None,
            credential: None,
            cancel_requested: false,
            generation: 0,
        }
    }
}

/// What starting a session returns in state `m`.
pub open spec fn start_result(m: SessionModel) -> Result<(), TrackError> {
    if m.active {
        Err(TrackError::AlreadyActive)
    } else {
        Ok(())
    }
}

/// The state after a start in state `m` with the given identity: unchanged on
/// refusal; otherwise active with the identity bound, the cancellation signal
/// reset to run, and a fresh generation.
pub open spec fn start_post(
    m: SessionModel,
    user_id: Seq<char>,
    team_id: Seq<char>,
    credential: Seq<char>,
) -> SessionModel {
    if m.active {
        m
    } else {
        SessionModel {
            active: true,
            user_id: Some(user_id),
            team_id: Some(team_id),
            credential: Some(credential),
            cancel_requested: false,
            generation: (m.generation + 1) as u64,
        }
    }
}

/// What stopping a session returns in state `m`.
pub open spec fn stop_result(m: SessionModel) -> Result<(), TrackError> {
    if m.active {
        Ok(())
    } else {
        Err(TrackError::NotActive)
    }
}

/// The state after a stop in state `m`: unchanged on refusal; otherwise
/// inactive with the identity cleared and the cancellation signal raised.
pub open spec fn stop_post(m: SessionModel) -> SessionModel {
    if m.active {
        SessionModel {
            active: false,
            user_id: None,
            team_id: None,
            credential: None,
            cancel_requested: true,
            generation: m.generation,
        }
    } else {
        m
    }
}

/// A consistent point-in-time copy of the session state handed to the control
/// surface.  The credential is deliberately absent: it is never exposed
/// outward.
#[derive(Debug)]
pub struct SessionSnapshot {
    pub active: bool,
    pub user_id: Option<String>,
    pub team_id: Option<String>,
}

/// Mathematical image of a `SessionSnapshot`.
pub ghost struct SnapshotModel {
    pub active: bool,
    pub user_id: Option<Seq<char>>,
    pub team_id: Option<Seq<char>>,
}

impl View for SessionSnapshot {
    type V = SnapshotModel;

    open spec fn view(&self) -> SnapshotModel {
        SnapshotModel {
            active: self.active,
            user_id: match self.user_id {
                Some(u) => Some(u@),
                None => None,
            },
            team_id: match self.team_id {
                Some(t) => Some(t@),
                None => None,
            },
        }
    }
}

/// What a status query reports in state `m`.
pub open spec fn snapshot_of(m: SessionModel) -> SnapshotModel {
    SnapshotModel { active: m.active, user_id: m.user_id, team_id: m.team_id }
}

/// The single tracked-session record: one per process, created inactive at
/// process start and toggled by the control surface for the process lifetime.
pub struct TrackingSession {
    active: bool,
    user_id: Option<String>,
    team_id: Option<String>,
    credential: Option<String>,
    cancel_requested: bool,
    generation: u64,
}

impl View for TrackingSession {
    type V = SessionModel;

    closed spec fn view(&self) -> SessionModel {
        SessionModel {
            active: self.active,
            user_id: match self.user_id {
                Some(u) => Some(u@),
                None => None,
            },
            team_id: match self.team_id {
                Some(t) => Some(t@),
                None => None,
            },
            credential: match self.credential {
                Some(c) => Some(c@),
                None => None,
            },
            cancel_requested: self.cancel_requested,
            generation: self.generation,
        }
    }
}

impl TrackingSession {
    /// Construct the session record a fresh process starts with: inactive,
    /// no identity bound, cancellation signal clear.
    pub fn new() -> (s: TrackingSession)
        ensures
            s@ == SessionModel::initial(),
            s@.inv(),
    {
        TrackingSession {
            active: false,
            user_id: None,
            team_id: None,
            credential: None,
            cancel_requested: false,
            generation: 0,
        }
    }

    /// Start tracking: bind the identity, raise the active flag, reset the
    /// cancellation signal to run, and move to a fresh generation — or refuse
    /// with `AlreadyActive` and change nothing.
    ///
    /// The identity arguments are opaque non-empty identifiers; their
    /// correctness is the control surface's concern and is not validated
    /// further here.  On success the caller owes the system exactly one new
    /// sampling loop bound to the returned state's generation.
    pub fn start_tracking(
        &mut self,
        user_id: String,
        team_id: String,
        credential: String,
    ) -> (r: Result<String, TrackError>)
        requires
            old(self)@.inv(),
            user_id@.len() > 0,
            team_id@.len() > 0,
            credential@.len() > 0,
            old(self)@.generation < u64::MAX,
        ensures
            final(self)@.inv(),
            final(self)@ == start_post(old(self)@, user_id@, team_id@, credential@),
            r is Ok <==> start_result(old(self)@) is Ok,
            r matches Ok(ack) ==> ack@ == "Tracking started successfully"@,
            r matches Err(e) ==> e == TrackError::AlreadyActive && *final(self) == *old(self),
    {
        if self.active {
            return Err(TrackError::AlreadyActive);
        }
        self.active = true;
        self.user_id = Some(user_id);
        self.team_id = Some(team_id);
        self.credential = Some(credential);
        self.cancel_requested = false;
        self.generation = self.generation + 1;
        Ok("Tracking started successfully".to_owned())
    }

    /// Stop tracking: clear the active flag and the identity and raise the
    /// cancellation signal — or refuse with `NotActive` and change nothing.
    ///
    /// Stop returns immediately; the running sampling loop observes the
    /// raised signal on its next wake and exits, no later than one sampling
    /// interval plus one in-flight sampler call after this returns.
    pub fn stop_tracking(&mut self) -> (r: Result<String, TrackError>)
        requires
            old(self)@.inv(),
        ensures
            final(self)@.inv(),
            final(self)@ == stop_post(old(self)@),
            r is Ok <==> stop_result(old(self)@) is Ok,
            r matches Ok(ack) ==> ack@ == "Tracking stopped successfully"@,
            r matches Err(e) ==> e == TrackError::NotActive && *final(self) == *old(self),
    {
        if !self.active {
            return Err(TrackError::NotActive);
        }
        self.active = false;
        self.user_id = None;
        self.team_id = None;
        self.credential = None;
        self.cancel_requested = true;
        Ok("Tracking stopped successfully".to_owned())
    }

    /// A point-in-time copy of `{active, user_id, team_id}`.  Never fails,
    /// and never exposes the credential.
    pub fn status(&self) -> (snap: SessionSnapshot)
        ensures
            snap@ == snapshot_of(self@),
    {
        SessionSnapshot {
            active: self.active,
            user_id: match &self.user_id {
                Some(u) => Some(u.clone()),
                None => None,
            },
            team_id: match &self.team_id {
                Some(t) => Some(t.clone()),
                None => None,
            },
        }
    }

    /// Whether an activity record handed in by the control surface may be
    /// forwarded to the emission sink right now: only while a session is
    /// active.  The record itself passes through unchanged; this is the
    /// whole decision.
    pub fn accept_activity(&self) -> (r: Result<String, TrackError>)
        ensures
            r is Ok <==> self@.active,
            r matches Ok(ack) ==> ack@ == "Activity data sent successfully"@,
            r matches Err(e) ==> e == TrackError::NotActive,
    {
        if self.active {
            Ok("Activity data sent successfully".to_owned())
        } else {
            Err(TrackError::NotActive)
        }
    }

    /// Read the cancellation signal: true once a stop has been accepted and
    /// no start has run since.  The sampling loop polls this between ticks.
    pub fn should_stop(&self) -> (b: bool)
        ensures
            b == self@.cancel_requested,
    {
        self.cancel_requested
    }

    /// The current generation: incremented by every accepted start, so a
    /// stale loop from an earlier session can tell itself apart from the
    /// loop of the current one.
    pub fn generation(&self) -> (g: u64)
        ensures
            g == self@.generation,
    {
        self.generation
    }
}

} // verus!
