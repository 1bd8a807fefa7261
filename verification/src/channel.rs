//! Request correlation for one channel to the worker subprocess.
//!
//! A channel owns the table of pending requests: correlation identifiers
//! handed out to callers that still await their response. An identifier
//! is pending from the moment its request is sent until exactly one of
//! three things takes it out: the matching response, the caller's
//! timeout, or channel closure. Identifiers grow strictly and are never
//! reused while the channel lives, so a response can never pair with the
//! wrong caller.

use vstd::prelude::*;
use crate::worker::RequestError;

verus! {

/// A fresh identifier, larger than everything a table holds, leaves the
/// table unchanged when pushed and taken right back out.
pub proof fn lemma_push_remove_value(s: Seq<u64>, id: u64)
    requires
        forall|i: int| 0 <= i < s.len() ==> s[i] < id,
    ensures
        s.push(id).remove_value(id) == s,
{
    let s1 = s.push(id);
    assert(!s.contains(id)) by {
        if s.contains(id) {
            let k = choose|k: int| 0 <= k < s.len() && s[k] == id;
            assert(s[k] < id);
        }
    }
    assert(s1.contains(id)) by {
        assert(s1[s.len() as int] == id);
    }
    s1.index_of_first_ensures(id);
    let k = s1.index_of_first(id)->Some_0;
    assert(0 <= k < s1.len());
    assert(s1[k] == id);
    assert(k == s.len()) by {
        if k < s.len() {
            assert(s1[k] == s[k]);
            assert(s.contains(id));
        }
    }
    assert(s1.remove(s.len() as int) =~= s);
}

/// Correlation state of one channel.
#[derive(Debug, Clone)]
pub struct Channel {
    /// Next correlation identifier to hand out.
    pub next_id: u64,
    /// Identifiers of requests sent and not yet completed, in the order
    /// they were sent.
    pub pending: Vec<u64>,
    /// Whether the channel is closed. A closed channel accepts no new
    /// request and never completes one.
    pub closed: bool,
}

impl Channel {
    /// The pending table is strictly increasing and every entry was
    /// handed out before `next_id`.
    pub open spec fn well_formed(self) -> bool {
        &&& forall|i: int, j: int|
            0 <= i < j < self.pending@.len() ==> self.pending@[i] < self.pending@[j]
        &&& forall|i: int| 0 <= i < self.pending@.len() ==> self.pending@[i] < self.next_id
    }

    /// A fresh, open channel with no request in flight.
    pub fn new() -> (r: Channel)
        ensures
            r.well_formed(),
            r.next_id == 0,
            r.pending@.len() == 0,
            !r.closed,
    {
        Channel { next_id: 0, pending: Vec::new(), closed: false }
    }

    /// Allocates the next correlation identifier and records it as
    /// pending. On a closed channel nothing changes and the caller gets
    /// `ChannelClosed` at once.
    pub fn begin_request(&mut self) -> (r: Result<u64, RequestError>)
        requires
            old(self).well_formed(),
            old(self).next_id < u64::MAX,
        ensures
            final(self).well_formed(),
            old(self).closed ==> r == Err::<u64, _>(RequestError::ChannelClosed) && *final(self)
                == *old(self),
            !old(self).closed ==> {
                &&& r == Ok::<_, RequestError>(old(self).next_id)
                &&& final(self).pending@ == old(self).pending@.push(old(self).next_id)
                &&& final(self).next_id == old(self).next_id + 1
                &&& !final(self).closed
            },
    {
        if self.closed {
            return Err(RequestError::ChannelClosed);
        }
        let id = self.next_id;
        self.next_id = self.next_id + 1;
        self.pending.push(id);
        Ok(id)
    }

    /// Removes `id` from the pending table if it is there. Returns
    /// whether it was: a response whose identifier matches no pending
    /// entry is dropped, and every other pending entry is untouched
    /// either way.
    pub fn take_pending(&mut self, id: u64) -> (r: bool)
        requires
            old(self).well_formed(),
        ensures
            final(self).well_formed(),
            r == old(self).pending@.contains(id),
            final(self).next_id == old(self).next_id,
            final(self).closed == old(self).closed,
            !r ==> *final(self) == *old(self),
            final(self).pending@ == old(self).pending@.remove_value(id),
            !final(self).pending@.contains(id),
            forall|x: u64|
                x != id ==> (final(self).pending@.contains(x) <==> old(self).pending@.contains(
                    x,
                )),
    {
        let ghost orig = self.pending@;
        let n = self.pending.len();
        let mut i: usize = 0;
        while i < n
            invariant
                n == self.pending@.len(),
                i <= n,
                self.pending@ == orig,
                self.pending == old(self).pending,
                self.next_id == old(self).next_id,
                self.closed == old(self).closed,
                old(self).well_formed(),
                orig == old(self).pending@,
                forall|j: int| 0 <= j < i ==> self.pending@[j] != id,
            decreases n - i,
        {
            if self.pending[i] == id {
                self.pending.remove(i);
                proof {
                    orig.remove_ensures(i as int);
                    assert(orig[i as int] == id);
                    assert(orig.contains(id));
                    orig.index_of_first_ensures(id);
                    let k = orig.index_of_first(id)->Some_0;
                    assert(orig[k] == id);
                    assert(!(k < i)) by {
                        if k < i {
                            assert(orig[k] != id);
                        }
                    }
                    assert(!(k > i)) by {
                        if k > i {
                            assert(orig[i as int] < orig[k]);
                        }
                    }
                    assert(orig.index_of_first(id) == Some(i as int));
                    assert(self.pending@ =~= orig.remove_value(id));
                    assert(!self.pending@.contains(id)) by {
                        if self.pending@.contains(id) {
                            let k = choose|k: int|
                                0 <= k < self.pending@.len() && self.pending@[k] == id;
                            if k < i {
                                assert(orig[k] == id);
                            } else {
                                assert(orig[k + 1] == id);
                                assert(orig[i as int] < orig[k + 1]);
                            }
                        }
                    }
                    assert forall|x: u64| x != id implies (self.pending@.contains(x)
                        <==> orig.contains(x)) by {
                        if self.pending@.contains(x) {
                            let k = choose|k: int|
                                0 <= k < self.pending@.len() && self.pending@[k] == x;
                            if k < i {
                                assert(orig[k] == x);
                            } else {
                                assert(orig[k + 1] == x);
                            }
                        }
                        if orig.contains(x) {
                            let k = choose|k: int| 0 <= k < orig.len() && orig[k] == x;
                            if k < i {
                                assert(self.pending@[k] == x);
                            } else {
                                assert(k != i);
                                assert(self.pending@[k - 1] == x);
                            }
                        }
                    }
                }
                return true;
            }
            i = i + 1;
        }
        proof {
            assert(!orig.contains(id)) by {
                if orig.contains(id) {
                    let k = choose|k: int| 0 <= k < orig.len() && orig[k] == id;
                    assert(orig[k] != id);
                }
            }
            orig.index_of_first_ensures(id);
            assert(orig.remove_value(id) == orig);
        }
        false
    }

    /// Closes the channel: every request still pending is failed, and
    /// the identifiers that must now be answered with `ChannelClosed`
    /// come back in the order their requests were sent. Closing an
    /// already closed channel changes nothing and fails nobody.
    pub fn close(&mut self) -> (failed: Vec<u64>)
        requires
            old(self).well_formed(),
        ensures
            final(self).well_formed(),
            final(self).closed,
            final(self).next_id == old(self).next_id,
            final(self).pending@.len() == 0,
            failed@ == old(self).pending@,
    {
        self.closed = true;
        let mut failed: Vec<u64> = Vec::new();
        core::mem::swap(&mut failed, &mut self.pending);
        failed
    }
}

} // verus!
