//! Connection racer: try many routes, hand back the first winner.
//!
//! Routes are partitioned into priority tiers (see
//! [`crate::route::route_tier`]); within a tier, attempts run
//! concurrently, and a tier is tried only after every attempt of all
//! lower tiers has failed. The racer itself performs no network work: it
//! is a state machine that tells the caller which attempts to start and
//! which to cancel, and the caller reports each attempt's outcome. That
//! keeps every decision — who wins, what is cancelled, what is reported
//! when everything fails — verifiable.
//!
//! Resource accounting is part of the state: every started attempt ends
//! exactly one way (failed, cancelled by instruction, or handed to the
//! caller as the winner), and when the race is over nothing is left in
//! flight, so no partially-established transport is ever leaked.

use vstd::prelude::*;

use crate::errors::RetryLater;

verus! {

/// Why one route attempt failed.
#[derive(Clone, Copy, Debug, PartialEq, Eq, Structural)]
pub enum AttemptError {
    /// The transport-level connection could not be established.
    TransportConnect,
    /// The TLS handshake failed.
    TlsHandshake,
    /// The proxy refused the tunnel.
    ProxyRefused,
    /// The attempt's own deadline elapsed.
    AttemptTimedOut,
    /// The server answered with an explicit backoff; this short-circuits
    /// the whole race, since no other route can help a server-side
    /// rate limit.
    RetryLater(RetryLater),
}

/// Where one route's attempt stands.
#[derive(Clone, Copy, Debug, PartialEq, Eq, Structural)]
pub enum AttemptStatus {
    /// Not tried yet: its tier has not been reached.
    NotStarted,
    /// In flight: the caller is connecting on this route.
    Pending,
    /// Finished with an error, recorded per route.
    Failed,
    /// The racer told the caller to cancel and release it.
    Cancelled,
    /// This attempt's transport won the race and was handed over.
    Winner,
}

/// How a finished race ended.
#[derive(Clone, Copy, Debug, PartialEq, Eq, Structural)]
pub enum RaceOutcome {
    /// The route with this index won; its transport belongs to the
    /// caller now.
    Connected(usize),
    /// Every route was attempted and every attempt failed; the per-route
    /// errors are in the racer's record.
    AllAttemptsFailed,
    /// A server-signaled backoff ended the race early.
    ShortCircuit(RetryLater),
    /// The overall deadline elapsed before any attempt succeeded.
    TimedOut,
}

/// What the caller must do after reporting an event.
#[derive(Clone, Debug, PartialEq, Eq)]
pub enum RaceAction {
    /// Start a connection attempt on each of these routes.
    StartAttempts(Vec<usize>),
    /// Cancel these in-flight attempts and release their transports.
    CancelAttempts(Vec<usize>),
    /// Keep waiting for the attempts already in flight.
    Wait,
    /// The race is over and no attempt is in flight.
    Finished,
}

/// The race over one route list.
pub struct RaceState {
    /// The priority tier of each route, by route index.
    pub tiers: Vec<u8>,
    /// Where each route's attempt stands, by route index.
    pub status: Vec<AttemptStatus>,
    /// The error each failed route reported, by route index.
    pub errors: Vec<Option<AttemptError>>,
    /// The tier currently being raced; meaningful once `begun`.
    pub current_tier: u8,
    /// Whether the race has started at all.
    pub begun: bool,
    /// Set exactly when the race is over.
    pub outcome: Option<RaceOutcome>,
}

impl RaceState {
    /// How many routes are being raced.
    pub open spec fn n(&self) -> int {
        self.tiers@.len() as int
    }

    /// Racer invariant. Beyond bookkeeping shape, it carries the
    /// properties the caller relies on:
    /// a route is untried exactly when its tier is above the current
    /// one; every route of a tier below the current one has failed (so
    /// tiers are exhausted in order and a winner always comes from the
    /// first tier that produced a success); an error is recorded exactly
    /// for failed routes; and once the race is over nothing is pending,
    /// so no transport outlives the race.
    pub open spec fn wf(&self) -> bool {
        &&& self.status@.len() == self.n()
        &&& self.errors@.len() == self.n()
        &&& (forall|j: int|
            0 <= j < self.n() ==> ((#[trigger] self.errors@[j]) is Some <==> self.status@[j]
                == AttemptStatus::Failed))
        &&& (!self.begun ==> (forall|j: int|
            0 <= j < self.n() ==> (#[trigger] self.status@[j]) == AttemptStatus::NotStarted))
        &&& (!self.begun ==> self.outcome is None)
        &&& (self.begun ==> (forall|j: int|
            0 <= j < self.n() ==> ((#[trigger] self.status@[j]) == AttemptStatus::NotStarted
                <==> self.tiers@[j] > self.current_tier)))
        &&& (self.begun ==> (forall|j: int|
            0 <= j < self.n() && self.tiers@[j] < self.current_tier
                ==> (#[trigger] self.status@[j]) == AttemptStatus::Failed))
        &&& (self.outcome is None ==> (forall|j: int|
            0 <= j < self.n() ==> (#[trigger] self.status@[j]) != AttemptStatus::Cancelled
                && self.status@[j] != AttemptStatus::Winner))
        &&& (self.outcome is Some ==> (forall|j: int|
            0 <= j < self.n() ==> (#[trigger] self.status@[j]) != AttemptStatus::Pending))
        &&& (forall|j: int|
            0 <= j < self.n() && (#[trigger] self.status@[j]) == AttemptStatus::Winner
                ==> self.outcome == Some(RaceOutcome::Connected(j as usize)))
        &&& match self.outcome {
            Some(RaceOutcome::Connected(w)) => {
                &&& 0 <= w < self.n()
                &&& self.status@[w as int] == AttemptStatus::Winner
                &&& self.tiers@[w as int] == self.current_tier
            },
            Some(RaceOutcome::AllAttemptsFailed) => forall|j: int|
                0 <= j < self.n() ==> (#[trigger] self.status@[j]) == AttemptStatus::Failed,
            _ => true,
        }
    }

    /// Whether route `j` was ever started.
    pub open spec fn spec_attempted(&self, j: int) -> bool {
        self.status@[j] != AttemptStatus::NotStarted
    }

    /// Set up a race over routes with the given tiers, computed by the
    /// caller with [`crate::route::route_tier`]. Nothing starts until
    /// [`RaceState::start`].
    pub fn new(tiers: Vec<u8>) -> (s: RaceState)
        ensures
            s.wf(),
            s.tiers == tiers,
            !s.begun,
            s.outcome is None,
            forall|j: int| 0 <= j < s.n() ==> !s.spec_attempted(j),
    {
        let n = tiers.len();
        let mut status: Vec<AttemptStatus> = Vec::new();
        let mut errors: Vec<Option<AttemptError>> = Vec::new();
        let mut i: usize = 0;
        while i < n
            invariant
                i <= n,
                status@.len() == i,
                errors@.len() == i,
                forall|j: int| 0 <= j < i ==> status@[j] == AttemptStatus::NotStarted,
                forall|j: int| 0 <= j < i ==> errors@[j] is None,
            decreases n - i,
        {
            status.push(AttemptStatus::NotStarted);
            errors.push(None);
            i = i + 1;
        }
        RaceState { tiers, status, errors, current_tier: 0, begun: false, outcome: None }
    }

    /// Bookkeeping shape: one status and one error slot per route.
    pub open spec fn len_ok(&self) -> bool {
        self.status@.len() == self.tiers@.len() && self.errors@.len() == self.tiers@.len()
    }

    /// The lowest tier with an untried route, if any.
    fn lowest_untried_tier(&self) -> (r: Option<u8>)
        requires
            self.len_ok(),
        ensures
            match r {
                Some(t) => {
                    &&& exists|j: int|
                        0 <= j < self.n() && (#[trigger] self.status@[j])
                            == AttemptStatus::NotStarted && self.tiers@[j] == t
                    &&& forall|j: int|
                        0 <= j < self.n() && (#[trigger] self.status@[j])
                            == AttemptStatus::NotStarted ==> self.tiers@[j] >= t
                },
                None => forall|j: int|
                    0 <= j < self.n() ==> (#[trigger] self.status@[j])
                        != AttemptStatus::NotStarted,
            },
    {
        let n = self.tiers.len();
        let mut best: Option<u8> = None;
        let mut i: usize = 0;
        while i < n
            invariant
                self.len_ok(),
                n == self.n(),
                i <= n,
                match best {
                    Some(t) => {
                        &&& exists|j: int|
                            0 <= j < i && (#[trigger] self.status@[j])
                                == AttemptStatus::NotStarted && self.tiers@[j] == t
                        &&& forall|j: int|
                            0 <= j < i && (#[trigger] self.status@[j])
                                == AttemptStatus::NotStarted ==> self.tiers@[j] >= t
                    },
                    None => forall|j: int|
                        0 <= j < i ==> (#[trigger] self.status@[j]) != AttemptStatus::NotStarted,
                },
            decreases n - i,
        {
            if matches!(self.status[i], AttemptStatus::NotStarted) {
                let t = self.tiers[i];
                best = match best {
                    Some(b) => if t < b {
                        Some(t)
                    } else {
                        Some(b)
                    },
                    None => Some(t),
                };
            }
            i = i + 1;
        }
        best
    }

    /// Move every untried route of tier `t` into flight and return their
    /// indices, in route order.
    fn launch_tier(&mut self, t: u8) -> (launched: Vec<usize>)
        requires
            old(self).len_ok(),
        ensures
            final(self).tiers == old(self).tiers,
            final(self).errors == old(self).errors,
            final(self).current_tier == old(self).current_tier,
            final(self).begun == old(self).begun,
            final(self).outcome == old(self).outcome,
            final(self).status@.len() == old(self).status@.len(),
            forall|j: int|
                0 <= j < old(self).n() ==> (#[trigger] final(self).status@[j]) == (if old(self).status@[j] == AttemptStatus::NotStarted && old(self).tiers@[j] == t {
                    AttemptStatus::Pending
                } else {
                    old(self).status@[j]
                }),
            forall|j: int|
                0 <= j < old(self).n() ==> (launched@.contains(j as usize) <==> old(self).status@[j] == AttemptStatus::NotStarted && old(self).tiers@[j] == t),
            forall|k: int| 0 <= k < launched@.len() ==> (#[trigger] launched@[k]) < old(self).n(),
    {
        let n = self.tiers.len();
        let mut launched: Vec<usize> = Vec::new();
        let mut i: usize = 0;
        while i < n
            invariant
                n == self.n(),
                i <= n,
                self.len_ok(),
                self.tiers == old(self).tiers,
                self.errors == old(self).errors,
                self.current_tier == old(self).current_tier,
                self.begun == old(self).begun,
                self.outcome == old(self).outcome,
                forall|j: int|
                    0 <= j < i ==> (#[trigger] self.status@[j]) == (if old(self).status@[j]
                        == AttemptStatus::NotStarted && old(self).tiers@[j] == t {
                        AttemptStatus::Pending
                    } else {
                        old(self).status@[j]
                    }),
                forall|j: int| i <= j < n ==> (#[trigger] self.status@[j]) == old(self).status@[j],
                forall|k: int|
                    0 <= k < launched@.len() ==> (#[trigger] launched@[k]) < i && old(
                        self,
                    ).status@[launched@[k] as int] == AttemptStatus::NotStarted && old(
                        self,
                    ).tiers@[launched@[k] as int] == t,
                forall|j: int|
                    0 <= j < i && old(self).status@[j] == AttemptStatus::NotStarted && old(
                        self,
                    ).tiers@[j] == t ==> launched@.contains(j as usize),
            decreases n - i,
        {
            let ghost pre = launched@;
            if matches!(self.status[i], AttemptStatus::NotStarted) && self.tiers[i] == t {
                self.status.set(i, AttemptStatus::Pending);
                launched.push(i);
            }
            proof {
                assert forall|j: int|
                    0 <= j < i + 1 && old(self).status@[j] == AttemptStatus::NotStarted && old(
                        self,
                    ).tiers@[j] == t implies launched@.contains(j as usize) by {
                    if j < i {
                        let k = choose|k: int| 0 <= k < pre.len() && pre[k] == j as usize;
                        assert(launched@[k] == j as usize);
                    } else {
                        assert(launched@[launched@.len() - 1] == i);
                    }
                }
            }
            i = i + 1;
        }
        proof {
            assert forall|j: int|
                0 <= j < n implies (launched@.contains(j as usize) <==> old(self).status@[j]
                == AttemptStatus::NotStarted && old(self).tiers@[j] == t) by {
                if launched@.contains(j as usize) {
                    let k = choose|k: int| 0 <= k < launched@.len() && launched@[k] == j as usize;
                }
            }
        }
        launched
    }

    /// Cancel every in-flight attempt and return their indices: the
    /// caller must release those transports.
    fn cancel_pending(&mut self) -> (cancelled: Vec<usize>)
        ensures
            final(self).tiers == old(self).tiers,
            final(self).errors == old(self).errors,
            final(self).current_tier == old(self).current_tier,
            final(self).begun == old(self).begun,
            final(self).outcome == old(self).outcome,
            final(self).status@.len() == old(self).status@.len(),
            forall|j: int|
                0 <= j < old(self).status@.len() ==> (#[trigger] final(self).status@[j]) == (
                if old(self).status@[j] == AttemptStatus::Pending {
                    AttemptStatus::Cancelled
                } else {
                    old(self).status@[j]
                }),
            forall|j: int|
                0 <= j < old(self).status@.len() ==> (cancelled@.contains(j as usize) <==> old(self).status@[j] == AttemptStatus::Pending),
    {
        let n = self.status.len();
        let mut cancelled: Vec<usize> = Vec::new();
        let mut i: usize = 0;
        while i < n
            invariant
                n == self.status@.len(),
                i <= n,
                self.tiers == old(self).tiers,
                self.errors == old(self).errors,
                self.current_tier == old(self).current_tier,
                self.begun == old(self).begun,
                self.outcome == old(self).outcome,
                self.status@.len() == old(self).status@.len(),
                forall|j: int|
                    0 <= j < i ==> (#[trigger] self.status@[j]) == (if old(self).status@[j]
                        == AttemptStatus::Pending {
                        AttemptStatus::Cancelled
                    } else {
                        old(self).status@[j]
                    }),
                forall|j: int| i <= j < n ==> (#[trigger] self.status@[j]) == old(self).status@[j],
                forall|k: int|
                    0 <= k < cancelled@.len() ==> (#[trigger] cancelled@[k]) < i && old(
                        self,
                    ).status@[cancelled@[k] as int] == AttemptStatus::Pending,
                forall|j: int|
                    0 <= j < i && old(self).status@[j] == AttemptStatus::Pending
                        ==> cancelled@.contains(j as usize),
            decreases n - i,
        {
            let ghost pre = cancelled@;
            if matches!(self.status[i], AttemptStatus::Pending) {
                self.status.set(i, AttemptStatus::Cancelled);
                cancelled.push(i);
            }
            proof {
                assert forall|j: int|
                    0 <= j < i + 1 && old(self).status@[j]
                    == AttemptStatus::Pending implies cancelled@.contains(j as usize) by {
                    if j < i {
                        let k = choose|k: int| 0 <= k < pre.len() && pre[k] == j as usize;
                        assert(cancelled@[k] == j as usize);
                    } else {
                        assert(cancelled@[cancelled@.len() - 1] == i);
                    }
                }
            }
            i = i + 1;
        }
        proof {
            assert forall|j: int|
                0 <= j < n implies (cancelled@.contains(j as usize) <==> old(self).status@[j]
                == AttemptStatus::Pending) by {
                if cancelled@.contains(j as usize) {
                    let k = choose|k: int| 0 <= k < cancelled@.len() && cancelled@[k] == j as usize;
                }
            }
        }
        cancelled
    }

    /// Whether any attempt is still in flight.
    fn any_pending(&self) -> (r: bool)
        ensures
            r == exists|j: int|
                0 <= j < self.status@.len() && (#[trigger] self.status@[j])
                    == AttemptStatus::Pending,
    {
        let n = self.status.len();
        let mut i: usize = 0;
        while i < n
            invariant
                n == self.status@.len(),
                i <= n,
                forall|j: int| 0 <= j < i ==> (#[trigger] self.status@[j]) != AttemptStatus::Pending,
            decreases n - i,
        {
            if matches!(self.status[i], AttemptStatus::Pending) {
                return true;
            }
            i = i + 1;
        }
        false
    }

    /// Begin the race: launch every route of the lowest tier. With no
    /// routes at all the race is over at once, with an empty failure
    /// record.
    pub fn start(&mut self) -> (a: RaceAction)
        requires
            old(self).wf(),
            !old(self).begun,
        ensures
            final(self).wf(),
            final(self).tiers == old(self).tiers,
            final(self).errors == old(self).errors,
            final(self).begun,
            match a {
                RaceAction::StartAttempts(launched) => {
                    &&& final(self).outcome is None
                    &&& launched@.len() > 0
                    &&& forall|j: int|
                        0 <= j < final(self).n() ==> (launched@.contains(j as usize) <==> final(self).status@[j] == AttemptStatus::Pending)
                    &&& forall|j: int|
                        0 <= j < final(self).n() && final(self).status@[j]
                            == AttemptStatus::Pending ==> final(self).tiers@[j] == final(self).current_tier
                },
                RaceAction::Finished => {
                    &&& final(self).outcome == Some(RaceOutcome::AllAttemptsFailed)
                    &&& final(self).n() == 0
                },
                _ => false,
            },
    {
        self.begun = true;
        let lowest = self.lowest_untried_tier();
        match lowest {
            Some(t) => {
                self.current_tier = t;
                let launched = self.launch_tier(t);
                assert(launched@.len() > 0) by {
                    let j = choose|j: int|
                        0 <= j < self.n() && (#[trigger] old(self).status@[j])
                            == AttemptStatus::NotStarted && old(self).tiers@[j] == t;
                    assert(launched@.contains(j as usize));
                }
                RaceAction::StartAttempts(launched)
            },
            None => {
                assert(self.n() == 0) by {
                    if self.n() > 0 {
                        assert(old(self).status@[0] == AttemptStatus::NotStarted);
                    }
                }
                self.outcome = Some(RaceOutcome::AllAttemptsFailed);
                RaceAction::Finished
            },
        }
    }

    /// The attempt on route `i` produced a live transport: it wins. All
    /// other in-flight attempts are cancelled, and the caller must
    /// release their transports; the winner's transport belongs to the
    /// caller and moves on to attestation.
    pub fn on_attempt_success(&mut self, i: usize) -> (a: RaceAction)
        requires
            old(self).wf(),
            old(self).outcome is None,
            i < old(self).n(),
            old(self).status@[i as int] == AttemptStatus::Pending,
        ensures
            final(self).wf(),
            final(self).tiers == old(self).tiers,
            final(self).errors == old(self).errors,
            final(self).outcome == Some(RaceOutcome::Connected(i)),
            final(self).status@[i as int] == AttemptStatus::Winner,
            match a {
                RaceAction::CancelAttempts(cancelled) => {
                    &&& forall|j: int|
                        0 <= j < old(self).n() ==> (cancelled@.contains(j as usize) <==> (j
                            != i as int && old(self).status@[j] == AttemptStatus::Pending))
                    &&& forall|j: int|
                        0 <= j < final(self).n() ==> (#[trigger] final(self).status@[j])
                            != AttemptStatus::Pending
                },
                _ => false,
            },
    {
        self.status.set(i, AttemptStatus::Winner);
        let ghost mid = *self;
        let cancelled = self.cancel_pending();
        self.outcome = Some(RaceOutcome::Connected(i));
        proof {
            assert forall|j: int|
                0 <= j < old(self).n() implies (cancelled@.contains(j as usize) <==> (j
                != i as int && old(self).status@[j] == AttemptStatus::Pending)) by {
                assert(cancelled@.contains(j as usize) <==> mid.status@[j]
                    == AttemptStatus::Pending);
                if j == i as int {
                    assert(mid.status@[j] == AttemptStatus::Winner);
                } else {
                    assert(mid.status@[j] == old(self).status@[j]);
                }
            }
        }
        RaceAction::CancelAttempts(cancelled)
    }

    /// The attempt on route `i` failed; its error is recorded for the
    /// final diagnostic aggregation.
    ///
    /// A server-signaled backoff short-circuits the whole race: every
    /// other attempt is cancelled and the backoff is surfaced, since
    /// retrying elsewhere cannot help a server-side rate limit. Any
    /// other failure: the race keeps waiting while its tier has attempts
    /// in flight, advances to the lowest untried tier when the current
    /// one is exhausted, and ends with `AllAttemptsFailed` — one
    /// recorded error per route — when no route is left.
    pub fn on_attempt_failure(&mut self, i: usize, e: AttemptError) -> (a: RaceAction)
        requires
            old(self).wf(),
            old(self).outcome is None,
            i < old(self).n(),
            old(self).status@[i as int] == AttemptStatus::Pending,
        ensures
            final(self).wf(),
            final(self).tiers == old(self).tiers,
            final(self).status@[i as int] == AttemptStatus::Failed,
            final(self).errors@[i as int] == Some(e),
            forall|j: int|
                0 <= j < old(self).n() && j != i as int ==> (#[trigger] final(self).errors@[j])
                    == old(self).errors@[j],
            match e {
                AttemptError::RetryLater(r) => {
                    &&& final(self).outcome == Some(RaceOutcome::ShortCircuit(r))
                    &&& a matches RaceAction::CancelAttempts(cancelled) && (forall|j: int|
                        0 <= j < old(self).n() ==> (cancelled@.contains(j as usize) <==> (j
                            != i as int && old(self).status@[j] == AttemptStatus::Pending)))
                },
                _ => match a {
                    RaceAction::Wait => {
                        &&& final(self).outcome is None
                        &&& exists|j: int|
                            0 <= j < final(self).n() && (#[trigger] final(self).status@[j])
                                == AttemptStatus::Pending
                        &&& forall|j: int|
                            0 <= j < old(self).n() && j != i as int ==> (#[trigger] final(self).status@[j]) == old(self).status@[j]
                    },
                    RaceAction::StartAttempts(launched) => {
                        &&& final(self).outcome is None
                        &&& launched@.len() > 0
                        &&& forall|j: int|
                            0 <= j < final(self).n() ==> (launched@.contains(j as usize)
                                <==> final(self).status@[j] == AttemptStatus::Pending)
                        &&& forall|j: int|
                            0 <= j < final(self).n() && final(self).status@[j]
                                == AttemptStatus::Pending ==> final(self).tiers@[j] == final(self).current_tier
                        &&& final(self).current_tier > old(self).current_tier
                    },
                    RaceAction::Finished => {
                        &&& final(self).outcome == Some(RaceOutcome::AllAttemptsFailed)
                        &&& forall|j: int|
                            0 <= j < final(self).n() ==> (#[trigger] final(self).status@[j])
                                == AttemptStatus::Failed
                    },
                    _ => false,
                },
            },
    {
        self.status.set(i, AttemptStatus::Failed);
        self.errors.set(i, Some(e));
        if let AttemptError::RetryLater(r) = e {
            let ghost mid = *self;
            let cancelled = self.cancel_pending();
            self.outcome = Some(RaceOutcome::ShortCircuit(r));
            proof {
                assert forall|j: int|
                    0 <= j < old(self).n() implies (cancelled@.contains(j as usize) <==> (j
                    != i as int && old(self).status@[j] == AttemptStatus::Pending)) by {
                    assert(cancelled@.contains(j as usize) <==> mid.status@[j]
                        == AttemptStatus::Pending);
                    if j == i as int {
                        assert(mid.status@[j] == AttemptStatus::Failed);
                    } else {
                        assert(mid.status@[j] == old(self).status@[j]);
                    }
                }
            }
            return RaceAction::CancelAttempts(cancelled);
        }
        if self.any_pending() {
            return RaceAction::Wait;
        }
        let lowest = self.lowest_untried_tier();
        match lowest {
            Some(t) => {
                assert(t > self.current_tier) by {
                    let j = choose|j: int|
                        0 <= j < self.n() && (#[trigger] self.status@[j])
                            == AttemptStatus::NotStarted && self.tiers@[j] == t;
                }
                self.current_tier = t;
                let launched = self.launch_tier(t);
                assert(launched@.len() > 0) by {
                    let j = choose|j: int|
                        0 <= j < self.n() && (#[trigger] old(self).status@[j])
                            == AttemptStatus::NotStarted && old(self).tiers@[j] == t;
                    assert(launched@.contains(j as usize));
                }
                RaceAction::StartAttempts(launched)
            },
            None => {
                self.outcome = Some(RaceOutcome::AllAttemptsFailed);
                assert forall|j: int|
                    0 <= j < self.n() implies (#[trigger] self.status@[j])
                    == AttemptStatus::Failed by {
                    assert(self.status@[j] != AttemptStatus::NotStarted);
                    assert(self.status@[j] != AttemptStatus::Pending);
                }
                RaceAction::Finished
            },
        }
    }

    /// The overall deadline elapsed: cancel everything in flight and end
    /// the race.
    pub fn on_overall_timeout(&mut self) -> (a: RaceAction)
        requires
            old(self).wf(),
            old(self).begun,
            old(self).outcome is None,
        ensures
            final(self).wf(),
            final(self).tiers == old(self).tiers,
            final(self).errors == old(self).errors,
            final(self).outcome == Some(RaceOutcome::TimedOut),
            a matches RaceAction::CancelAttempts(cancelled) && (forall|j: int|
                0 <= j < old(self).n() ==> (cancelled@.contains(j as usize) <==> old(self).status@[j] == AttemptStatus::Pending)),
            forall|j: int|
                0 <= j < final(self).n() ==> (#[trigger] final(self).status@[j])
                    != AttemptStatus::Pending,
    {
        let cancelled = self.cancel_pending();
        self.outcome = Some(RaceOutcome::TimedOut);
        RaceAction::CancelAttempts(cancelled)
    }

    /// The race's outcome, once there is one.
    pub fn outcome(&self) -> (r: Option<RaceOutcome>)
        ensures
            r == self.outcome,
    {
        self.outcome
    }

    /// The error recorded for route `i`, if its attempt failed.
    pub fn error_of(&self, i: usize) -> (r: Option<AttemptError>)
        requires
            self.len_ok(),
            i < self.n(),
        ensures
            r == self.errors@[i as int],
    {
        self.errors[i]
    }

    /// Whether route `i` was ever started.
    pub fn was_attempted(&self, i: usize) -> (r: bool)
        requires
            self.len_ok(),
            i < self.n(),
        ensures
            r == self.spec_attempted(i as int),
    {
        !matches!(self.status[i], AttemptStatus::NotStarted)
    }
}

/// When the race ends with a winner, the winner comes from the first
/// tier that produced a success: every route of every lower tier was
/// attempted and failed, no route of a higher tier was ever started,
/// and nothing is left in flight.
pub proof fn lemma_winner_from_first_successful_tier(s: RaceState, w: usize)
    requires
        s.wf(),
        s.outcome == Some(RaceOutcome::Connected(w)),
    ensures
        0 <= w < s.n(),
        s.status@[w as int] == AttemptStatus::Winner,
        forall|j: int|
            0 <= j < s.n() && s.tiers@[j] < s.tiers@[w as int] ==> (#[trigger] s.status@[j])
                == AttemptStatus::Failed,
        forall|j: int|
            0 <= j < s.n() && s.tiers@[j] > s.tiers@[w as int] ==> !(#[trigger] s.spec_attempted(
                j,
            )),
        forall|j: int| 0 <= j < s.n() ==> (#[trigger] s.status@[j]) != AttemptStatus::Pending,
{
    assert(s.begun) by {
        if !s.begun {
            assert(s.status@[w as int] == AttemptStatus::NotStarted);
        }
    }
}

/// When every attempt fails, the race's record holds one error per
/// route — every route was attempted, every attempt failed, and nothing
/// is left in flight, so no transport is leaked.
pub proof fn lemma_all_failed_accounts_for_every_route(s: RaceState)
    requires
        s.wf(),
        s.outcome == Some(RaceOutcome::AllAttemptsFailed),
    ensures
        forall|j: int| 0 <= j < s.n() ==> (#[trigger] s.status@[j]) == AttemptStatus::Failed,
        forall|j: int| 0 <= j < s.n() ==> (#[trigger] s.errors@[j]) is Some,
        forall|j: int| 0 <= j < s.n() ==> (#[trigger] s.spec_attempted(j)),
{
}

} // verus!
