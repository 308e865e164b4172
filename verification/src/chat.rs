//! Request/response correlation over one attested channel.
//!
//! Several logical callers share a channel. Each request gets a
//! correlation id that is unique for the channel's lifetime and a waiter
//! that will be fulfilled exactly once. Responses are matched to waiters
//! by id, whatever order they arrive in; a response whose waiter is gone
//! (cancelled, or already answered) is discarded without touching any
//! other waiter. A channel-level failure fails every outstanding waiter
//! at once and invalidates the channel for further use.

use vstd::prelude::*;

use crate::errors::SendError;

verus! {

/// What became of one incoming response frame.
#[derive(Clone, Copy, Debug, PartialEq, Eq, Structural)]
pub enum Delivery {
    /// The response reached its waiter, which is now gone.
    Delivered,
    /// No waiter was registered under that id; the response was dropped.
    Discarded,
}

/// The in-flight request table of one channel.
pub struct RequestTable {
    /// The next correlation id to hand out.
    pub next_id: u64,
    /// Ids of requests whose response is still owed.
    pub waiters: Vec<u64>,
    /// Set once the channel has died; no new request may start.
    pub invalidated: bool,
}

impl RequestTable {
    /// Whether `id` currently has a waiter.
    pub open spec fn spec_contains(&self, id: u64) -> bool {
        self.waiters@.contains(id)
    }

    /// Table invariant: ids are never handed out twice, so every waiter
    /// id is below `next_id` and the table holds no duplicates.
    pub open spec fn wf(&self) -> bool {
        &&& forall|i: int|
            0 <= i < self.waiters@.len() ==> (#[trigger] self.waiters@[i]) < self.next_id
        &&& forall|i: int, j: int|
            0 <= i < j < self.waiters@.len() ==> self.waiters@[i] != self.waiters@[j]
    }

    /// A fresh table for a newly attested channel.
    pub fn new() -> (t: RequestTable)
        ensures
            t.wf(),
            t.next_id == 0,
            t.waiters@.len() == 0,
            !t.invalidated,
    {
        RequestTable { next_id: 0, waiters: Vec::new(), invalidated: false }
    }

    /// Register a new request and hand out its correlation id.
    ///
    /// The id is fresh: no earlier request of this channel ever used it.
    /// On an invalidated channel no request starts and nothing changes.
    pub fn begin_request(&mut self) -> (r: Result<u64, SendError>)
        requires
            old(self).wf(),
            old(self).next_id < u64::MAX,
        ensures
            final(self).wf(),
            final(self).invalidated == old(self).invalidated,
            match r {
                Ok(id) => {
                    &&& !old(self).invalidated
                    &&& id == old(self).next_id
                    &&& !old(self).spec_contains(id)
                    &&& final(self).next_id == old(self).next_id + 1
                    &&& final(self).waiters@ == old(self).waiters@.push(id)
                    &&& final(self).spec_contains(id)
                },
                Err(e) => {
                    &&& old(self).invalidated
                    &&& e == SendError::Disconnected
                    &&& final(self).next_id == old(self).next_id
                    &&& final(self).waiters@ == old(self).waiters@
                },
            },
    {
        if self.invalidated {
            return Err(SendError::Disconnected);
        }
        let id = self.next_id;
        assert(!self.spec_contains(id));
        self.next_id = self.next_id + 1;
        self.waiters.push(id);
        proof {
            assert(self.waiters@[self.waiters@.len() - 1] == id);
            assert(self.spec_contains(id));
            assert forall|i: int|
                0 <= i < self.waiters@.len() implies (#[trigger] self.waiters@[i])
                < self.next_id by {
                if i < self.waiters@.len() - 1 {
                    assert(old(self).waiters@[i] < old(self).next_id);
                }
            }
            assert forall|i: int, j: int|
                0 <= i < j < self.waiters@.len() implies self.waiters@[i] != self.waiters@[j] by {
                if j < self.waiters@.len() - 1 {
                    assert(old(self).waiters@[i] != old(self).waiters@[j]);
                } else {
                    assert(old(self).waiters@[i] < id);
                }
            }
        }
        Ok(id)
    }

    /// Register a new request and frame its payload for the wire: the
    /// frame carries the fresh correlation id, so the response that
    /// quotes it will reach exactly this request's waiter.
    pub fn send_request(&mut self, payload: &Vec<u8>) -> (r: Result<(u64, Vec<u8>), SendError>)
        requires
            old(self).wf(),
            old(self).next_id < u64::MAX,
            payload@.len() <= u32::MAX,
        ensures
            final(self).wf(),
            final(self).invalidated == old(self).invalidated,
            match r {
                Ok((id, bytes)) => {
                    &&& !old(self).invalidated
                    &&& id == old(self).next_id
                    &&& bytes@ == crate::frame::spec_frame(id, payload@)
                    &&& final(self).next_id == old(self).next_id + 1
                    &&& final(self).waiters@ == old(self).waiters@.push(id)
                },
                Err(e) => {
                    &&& old(self).invalidated
                    &&& e == SendError::Disconnected
                    &&& final(self).next_id == old(self).next_id
                    &&& final(self).waiters@ == old(self).waiters@
                },
            },
    {
        let id = match self.begin_request() {
            Ok(id) => id,
            Err(e) => {
                return Err(e);
            },
        };
        Ok((id, crate::frame::encode_frame(id, payload)))
    }

    /// Remove the waiter under `id`, if any.
    ///
    /// After cancellation the caller no longer waits; whether bytes were
    /// already sent is the transport's business. Every other waiter is
    /// untouched.
    pub fn cancel(&mut self, id: u64) -> (was_waiting: bool)
        requires
            old(self).wf(),
        ensures
            final(self).wf(),
            final(self).next_id == old(self).next_id,
            final(self).invalidated == old(self).invalidated,
            was_waiting == old(self).spec_contains(id),
            !final(self).spec_contains(id),
            forall|w: u64| w != id ==> final(self).spec_contains(w) == old(self).spec_contains(w),
            !old(self).spec_contains(id) ==> final(self).waiters@ == old(self).waiters@,
    {
        self.remove_waiter(id)
    }

    /// A response arrived under `id`: fulfil and remove its waiter, or
    /// discard the response if no waiter is registered. Other waiters
    /// are untouched either way.
    pub fn on_response(&mut self, id: u64) -> (d: Delivery)
        requires
            old(self).wf(),
        ensures
            final(self).wf(),
            final(self).next_id == old(self).next_id,
            final(self).invalidated == old(self).invalidated,
            d == Delivery::Delivered <==> old(self).spec_contains(id),
            !final(self).spec_contains(id),
            forall|w: u64| w != id ==> final(self).spec_contains(w) == old(self).spec_contains(w),
            d == Delivery::Discarded ==> final(self).waiters@ == old(self).waiters@,
    {
        let was_waiting = self.remove_waiter(id);
        if was_waiting {
            Delivery::Delivered
        } else {
            Delivery::Discarded
        }
    }

    /// The channel died: fail every outstanding waiter at once and
    /// invalidate the channel. Returns the ids whose waiters were
    /// failed, each exactly once.
    pub fn on_channel_error(&mut self) -> (failed: Vec<u64>)
        requires
            old(self).wf(),
        ensures
            final(self).wf(),
            final(self).next_id == old(self).next_id,
            final(self).invalidated,
            final(self).waiters@.len() == 0,
            failed@ == old(self).waiters@,
    {
        self.invalidated = true;
        let mut drained: Vec<u64> = Vec::new();
        core::mem::swap(&mut drained, &mut self.waiters);
        drained
    }

    /// How many responses are still owed.
    pub fn outstanding(&self) -> (n: usize)
        ensures
            n == self.waiters@.len(),
    {
        self.waiters.len()
    }

    /// Whether the channel may still carry new requests.
    pub fn is_invalidated(&self) -> (r: bool)
        ensures
            r == self.invalidated,
    {
        self.invalidated
    }

    /// Remove the waiter under `id` if present; report whether it was.
    fn remove_waiter(&mut self, id: u64) -> (was_waiting: bool)
        requires
            old(self).wf(),
        ensures
            final(self).wf(),
            final(self).next_id == old(self).next_id,
            final(self).invalidated == old(self).invalidated,
            was_waiting == old(self).spec_contains(id),
            !final(self).spec_contains(id),
            forall|w: u64| w != id ==> final(self).spec_contains(w) == old(self).spec_contains(w),
            !old(self).spec_contains(id) ==> final(self).waiters@ == old(self).waiters@,
    {
        let n = self.waiters.len();
        let mut i: usize = 0;
        while i < n
            invariant
                n == self.waiters@.len(),
                i <= n,
                self.wf(),
                *self == *old(self),
                forall|k: int| 0 <= k < i ==> self.waiters@[k] != id,
            decreases n - i,
        {
            if self.waiters[i] == id {
                self.waiters.remove(i);
                proof {
                    let olds = old(self).waiters@;
                    let news = self.waiters@;
                    assert(news =~= olds.subrange(0, i as int) + olds.subrange(
                        i + 1,
                        olds.len() as int,
                    ));
                    assert forall|w: u64| w != id implies self.spec_contains(w) == old(
                        self,
                    ).spec_contains(w) by {
                        if olds.contains(w) {
                            let k = choose|k: int| 0 <= k < olds.len() && olds[k] == w;
                            if k < i {
                                assert(news[k] == w);
                            } else {
                                assert(k > i);
                                assert(news[k - 1] == w);
                            }
                        }
                        if news.contains(w) {
                            let k = choose|k: int| 0 <= k < news.len() && news[k] == w;
                            if k < i {
                                assert(olds[k] == w);
                            } else {
                                assert(olds[k + 1] == w);
                            }
                        }
                    }
                    assert(!self.spec_contains(id)) by {
                        if news.contains(id) {
                            let k = choose|k: int| 0 <= k < news.len() && news[k] == id;
                            if k < i {
                                assert(olds[k] == id);
                            } else {
                                assert(olds[k + 1] == id);
                            }
                        }
                    }
                }
                return true;
            }
            i = i + 1;
        }
        assert(!self.spec_contains(id)) by {
            if self.waiters@.contains(id) {
                let k = choose|k: int| 0 <= k < self.waiters@.len() && self.waiters@[k] == id;
            }
        }
        false
    }
}

/// A cancelled request stays cancelled: once its waiter is removed, a
/// late response under the same id is discarded and no other waiter is
/// touched — delivery to every other id is exactly as if the cancelled
/// request had never existed.
pub proof fn lemma_late_response_after_cancel(
    before: RequestTable,
    after_cancel: RequestTable,
    after_response: RequestTable,
    id: u64,
    d: Delivery,
)
    requires
        // the shape `cancel` guarantees
        !after_cancel.spec_contains(id),
        forall|w: u64|
            w != id ==> after_cancel.spec_contains(w) == before.spec_contains(w),
        // the shape `on_response` guarantees for the same id
        d == Delivery::Delivered <==> after_cancel.spec_contains(id),
        !after_response.spec_contains(id),
        forall|w: u64|
            w != id ==> after_response.spec_contains(w) == after_cancel.spec_contains(w),
    ensures
        d == Delivery::Discarded,
        forall|w: u64| w != id ==> after_response.spec_contains(w) == before.spec_contains(w),
{
}

} // verus!
