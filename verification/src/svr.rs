//! Bounded-retry backup/restore state machine.
//!
//! One session drives a single store-or-recover operation against the
//! secure value store, over an attested channel that the caller
//! establishes. The machine only decides; the caller performs the network
//! work that each returned [`SvrAction`] names and feeds the result back.
//!
//! Two bounds shape the design. The rotation loop (re-establishing a
//! session after the store rejects the current one) carries an explicit
//! step counter checked before any further network call, so it can never
//! run unbounded. A rejected restore is surfaced verbatim with the
//! server-reported remaining-attempt budget and is never retried by the
//! machine itself: restore attempts consume a server-tracked budget that
//! must not be spent silently.

use vstd::prelude::*;

use crate::errors::SvrError;

verus! {

/// Where the session stands between caller interactions.
#[derive(Clone, Copy, Debug, PartialEq, Eq, Structural)]
pub enum SvrPhase {
    /// Nothing started yet.
    Idle,
    /// Waiting for the caller to finish a connection attempt.
    Connecting,
    /// Waiting for the caller to finish the attestation handshake.
    Attesting,
    /// The request is on the wire; waiting for the server's answer.
    RequestSent,
    /// A rate limit was surfaced; the caller may resume after waiting.
    Paused,
    /// The operation terminated; `outcome` says how.
    Done,
}

/// How a finished session ended.
#[derive(Clone, Copy, Debug, PartialEq, Eq, Structural)]
pub enum SvrOutcome {
    /// The operation completed.
    Success,
    /// The store rejected the restore; this many tries remain.
    RestoreFailed(u32),
    /// The rotation loop reached its fixed step limit.
    RotationBoundExceeded,
    /// Any other terminal failure.
    Failed(SvrError),
}

/// What the caller must do next on behalf of the machine.
#[derive(Clone, Copy, Debug, PartialEq, Eq, Structural)]
pub enum SvrAction {
    /// Run a connection attempt and report the result.
    Connect,
    /// Run the attestation handshake over the new transport.
    Handshake,
    /// Send the backup/restore request over the attested channel.
    SendRequest,
    /// Wait at least the given number of seconds, then `resume`.
    WaitBeforeResume(u32),
    /// Nothing: the session is finished and `outcome` is set.
    SurfaceOutcome,
}

/// The server's answer to one backup/restore request.
#[derive(Clone, Copy, Debug, PartialEq, Eq, Structural)]
pub enum SvrResponse {
    /// The request was accepted.
    Accepted,
    /// The restore was rejected, with the remaining-attempt budget.
    RestoreFailed(u32),
    /// The current store session is stale; a rotation is needed.
    RotationNeeded,
    /// Back off for this many seconds before resubmitting.
    RateLimited(u32),
    /// Any other request-level failure.
    Error(SvrError),
}

/// One backup/restore operation's state.
///
/// `rotation_step` never exceeds `max_rotation_steps`, as
/// [`SvrSession::wf`] states and every transition preserves. The
/// recorded `tries_remaining` never increases within a session: it is
/// set exactly once, by the rejected restore that also finishes the
/// session.
pub struct SvrSession {
    /// Where the session stands.
    pub phase: SvrPhase,
    /// How many rotations have been performed so far.
    pub rotation_step: u32,
    /// The fixed upper bound on rotations, set at construction.
    pub max_rotation_steps: u32,
    /// The lowest remaining-attempt budget the server has reported.
    pub tries_remaining: Option<u32>,
    /// Set exactly when `phase` is `Done`.
    pub outcome: Option<SvrOutcome>,
}

impl SvrSession {
    /// Session invariant: the rotation bound holds and an outcome exists
    /// exactly for a finished session.
    pub open spec fn wf(&self) -> bool {
        &&& self.rotation_step <= self.max_rotation_steps
        &&& (self.phase == SvrPhase::Done <==> self.outcome is Some)
    }

    /// A finished session accepts no further event.
    pub open spec fn is_terminal(&self) -> bool {
        self.phase == SvrPhase::Done
    }

    /// Start a session with the given rotation bound.
    pub fn new(max_rotation_steps: u32) -> (s: SvrSession)
        ensures
            s.wf(),
            s.phase == SvrPhase::Idle,
            s.rotation_step == 0,
            s.max_rotation_steps == max_rotation_steps,
            s.tries_remaining is None,
            s.outcome is None,
    {
        SvrSession {
            phase: SvrPhase::Idle,
            rotation_step: 0,
            max_rotation_steps,
            tries_remaining: None,
            outcome: None,
        }
    }

    /// Begin the operation: the caller must now connect.
    pub fn start(&mut self) -> (a: SvrAction)
        requires
            old(self).wf(),
            old(self).phase == SvrPhase::Idle,
        ensures
            final(self).wf(),
            final(self).phase == SvrPhase::Connecting,
            final(self).rotation_step == old(self).rotation_step,
            final(self).max_rotation_steps == old(self).max_rotation_steps,
            final(self).tries_remaining == old(self).tries_remaining,
            final(self).outcome is None,
            a == SvrAction::Connect,
    {
        self.phase = SvrPhase::Connecting;
        SvrAction::Connect
    }

    /// The connection attempt finished.
    ///
    /// On success the caller must run the attestation handshake; on
    /// failure the session terminates with that failure.
    pub fn on_connect_result(&mut self, result: Result<(), SvrError>) -> (a: SvrAction)
        requires
            old(self).wf(),
            old(self).phase == SvrPhase::Connecting,
        ensures
            final(self).wf(),
            final(self).rotation_step == old(self).rotation_step,
            final(self).max_rotation_steps == old(self).max_rotation_steps,
            final(self).tries_remaining == old(self).tries_remaining,
            match result {
                Ok(()) => {
                    &&& final(self).phase == SvrPhase::Attesting
                    &&& final(self).outcome is None
                    &&& a == SvrAction::Handshake
                },
                Err(e) => {
                    &&& final(self).phase == SvrPhase::Done
                    &&& final(self).outcome == Some(SvrOutcome::Failed(e))
                    &&& a == SvrAction::SurfaceOutcome
                },
            },
    {
        match result {
            Ok(()) => {
                self.phase = SvrPhase::Attesting;
                SvrAction::Handshake
            },
            Err(e) => {
                self.phase = SvrPhase::Done;
                self.outcome = Some(SvrOutcome::Failed(e));
                SvrAction::SurfaceOutcome
            },
        }
    }

    /// The attestation handshake finished.
    ///
    /// On success the caller must send the request; on failure the
    /// session terminates with that failure.
    pub fn on_attest_result(&mut self, result: Result<(), SvrError>) -> (a: SvrAction)
        requires
            old(self).wf(),
            old(self).phase == SvrPhase::Attesting,
        ensures
            final(self).wf(),
            final(self).rotation_step == old(self).rotation_step,
            final(self).max_rotation_steps == old(self).max_rotation_steps,
            final(self).tries_remaining == old(self).tries_remaining,
            match result {
                Ok(()) => {
                    &&& final(self).phase == SvrPhase::RequestSent
                    &&& final(self).outcome is None
                    &&& a == SvrAction::SendRequest
                },
                Err(e) => {
                    &&& final(self).phase == SvrPhase::Done
                    &&& final(self).outcome == Some(SvrOutcome::Failed(e))
                    &&& a == SvrAction::SurfaceOutcome
                },
            },
    {
        match result {
            Ok(()) => {
                self.phase = SvrPhase::RequestSent;
                SvrAction::SendRequest
            },
            Err(e) => {
                self.phase = SvrPhase::Done;
                self.outcome = Some(SvrOutcome::Failed(e));
                SvrAction::SurfaceOutcome
            },
        }
    }

    /// The server answered the request.
    ///
    /// A rejected restore terminates the session at once with the
    /// server-reported budget surfaced verbatim: the machine never
    /// spends another server-tracked try on its own, and since no
    /// transition accepts a finished session, the recorded budget can
    /// only ever be set once and never grows. A rotation demand loops
    /// back to connecting only while the step counter is below the
    /// bound, and the counter is checked *before* any network action is
    /// returned; at the bound the session terminates with
    /// `RotationBoundExceeded` and the caller is asked for nothing.
    pub fn on_response(&mut self, response: SvrResponse) -> (a: SvrAction)
        requires
            old(self).wf(),
            old(self).phase == SvrPhase::RequestSent,
        ensures
            final(self).wf(),
            final(self).max_rotation_steps == old(self).max_rotation_steps,
            final(self).rotation_step >= old(self).rotation_step,
            match response {
                SvrResponse::Accepted => {
                    &&& final(self).phase == SvrPhase::Done
                    &&& final(self).outcome == Some(SvrOutcome::Success)
                    &&& a == SvrAction::SurfaceOutcome
                },
                SvrResponse::RestoreFailed(t) => {
                    &&& final(self).phase == SvrPhase::Done
                    &&& a == SvrAction::SurfaceOutcome
                    &&& final(self).outcome == Some(SvrOutcome::RestoreFailed(t))
                    &&& final(self).tries_remaining == Some(t)
                },
                SvrResponse::RotationNeeded => {
                    if old(self).rotation_step < old(self).max_rotation_steps {
                        &&& final(self).phase == SvrPhase::Connecting
                        &&& final(self).rotation_step == old(self).rotation_step + 1
                        &&& final(self).outcome is None
                        &&& a == SvrAction::Connect
                    } else {
                        &&& final(self).phase == SvrPhase::Done
                        &&& final(self).rotation_step == old(self).rotation_step
                        &&& final(self).outcome == Some(SvrOutcome::RotationBoundExceeded)
                        &&& a == SvrAction::SurfaceOutcome
                    }
                },
                SvrResponse::RateLimited(seconds) => {
                    &&& final(self).phase == SvrPhase::Paused
                    &&& final(self).outcome is None
                    &&& a == SvrAction::WaitBeforeResume(seconds)
                },
                SvrResponse::Error(e) => {
                    &&& final(self).phase == SvrPhase::Done
                    &&& final(self).outcome == Some(SvrOutcome::Failed(e))
                    &&& a == SvrAction::SurfaceOutcome
                },
            },
    {
        match response {
            SvrResponse::Accepted => {
                self.phase = SvrPhase::Done;
                self.outcome = Some(SvrOutcome::Success);
                SvrAction::SurfaceOutcome
            },
            SvrResponse::RestoreFailed(t) => {
                self.phase = SvrPhase::Done;
                self.tries_remaining = Some(t);
                self.outcome = Some(SvrOutcome::RestoreFailed(t));
                SvrAction::SurfaceOutcome
            },
            SvrResponse::RotationNeeded => {
                if self.rotation_step < self.max_rotation_steps {
                    self.rotation_step = self.rotation_step + 1;
                    self.phase = SvrPhase::Connecting;
                    SvrAction::Connect
                } else {
                    self.phase = SvrPhase::Done;
                    self.outcome = Some(SvrOutcome::RotationBoundExceeded);
                    SvrAction::SurfaceOutcome
                }
            },
            SvrResponse::RateLimited(seconds) => {
                self.phase = SvrPhase::Paused;
                SvrAction::WaitBeforeResume(seconds)
            },
            SvrResponse::Error(e) => {
                self.phase = SvrPhase::Done;
                self.outcome = Some(SvrOutcome::Failed(e));
                SvrAction::SurfaceOutcome
            },
        }
    }

    /// After waiting out a rate limit, the caller resubmits by
    /// reconnecting; the rotation budget is untouched.
    pub fn resume(&mut self) -> (a: SvrAction)
        requires
            old(self).wf(),
            old(self).phase == SvrPhase::Paused,
        ensures
            final(self).wf(),
            final(self).phase == SvrPhase::Connecting,
            final(self).rotation_step == old(self).rotation_step,
            final(self).max_rotation_steps == old(self).max_rotation_steps,
            final(self).tries_remaining == old(self).tries_remaining,
            final(self).outcome is None,
            a == SvrAction::Connect,
    {
        self.phase = SvrPhase::Connecting;
        SvrAction::Connect
    }

    /// The outcome of a finished session.
    pub fn outcome(&self) -> (r: Option<SvrOutcome>)
        ensures
            r == self.outcome,
    {
        self.outcome
    }
}

/// The rotation loop is bounded: a well-formed session has performed at
/// most its configured maximum of rotation steps, whatever events it has
/// seen, because every transition preserves well-formedness and the one
/// transition that increments the counter checks the bound first.
pub proof fn lemma_rotation_bound_never_exceeded(s: SvrSession)
    requires
        s.wf(),
    ensures
        s.rotation_step <= s.max_rotation_steps,
{
}

} // verus!
