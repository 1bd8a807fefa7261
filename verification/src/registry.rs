//! Notification subscription registry with a buffering guard.
//!
//! Each channel owns one registry. A subscription binds a callback
//! handle to a target identity; a notification for a target is delivered
//! to every handle subscribed under it, in registration order, and
//! single-fire handles leave the registry upon delivery. While a
//! buffering guard is held for a target, notifications that would
//! otherwise be dropped for want of a subscriber are queued, and on
//! guard release they are replayed in arrival order to whatever
//! subscriber exists by then. This closes the race between a creation
//! request being acknowledged and the caller registering the new
//! resource's subscription.

use vstd::prelude::*;
use crate::ids::SubscriptionTarget;

verus! {

/// One subscription: a callback handle bound to a target.
#[derive(Debug, Copy, Clone, PartialEq, Eq, Structural)]
pub struct SubscriptionEntry {
    /// Handle returned at registration; releasing it removes exactly
    /// this entry.
    pub handle: u64,
    /// Target identity the callback listens under.
    pub target: SubscriptionTarget,
    /// Whether the entry leaves the registry after its first delivery.
    pub single_fire: bool,
}

/// A notification held back while a buffering guard is in place.
#[derive(Debug)]
pub struct QueuedNotification {
    /// Target the notification is addressed to.
    pub target: SubscriptionTarget,
    /// Raw notification payload, kept verbatim for replay.
    pub body: Vec<u8>,
}

/// Mathematical image of a queued notification.
pub struct QueuedView {
    /// Target the notification is addressed to.
    pub target: SubscriptionTarget,
    /// Raw notification payload.
    pub body: Seq<u8>,
}

impl View for QueuedNotification {
    type V = QueuedView;

    open spec fn view(&self) -> QueuedView {
        QueuedView { target: self.target, body: self.body@ }
    }
}

/// The views of a run of queued notifications, in order.
pub open spec fn qviews(s: Seq<QueuedNotification>) -> Seq<QueuedView> {
    s.map_values(|q: QueuedNotification| q@)
}

/// Mathematical image of the registry.
pub struct RegistryView {
    /// Next callback handle to hand out.
    pub next_handle: u64,
    /// Live subscriptions in registration order.
    pub entries: Seq<SubscriptionEntry>,
    /// Targets whose notifications are being buffered.
    pub guards: Seq<SubscriptionTarget>,
    /// Buffered notifications in arrival order, all targets mixed.
    pub queued: Seq<QueuedView>,
}

/// The subscription registry of one channel.
#[derive(Debug)]
pub struct Registry {
    /// Next callback handle to hand out.
    pub next_handle: u64,
    /// Live subscriptions in registration order.
    pub entries: Vec<SubscriptionEntry>,
    /// Targets whose notifications are being buffered.
    pub guards: Vec<SubscriptionTarget>,
    /// Buffered notifications in arrival order.
    pub queued: Vec<QueuedNotification>,
}

impl View for Registry {
    type V = RegistryView;

    open spec fn view(&self) -> RegistryView {
        RegistryView {
            next_handle: self.next_handle,
            entries: self.entries@,
            guards: self.guards@,
            queued: qviews(self.queued@),
        }
    }
}

/// Handles grow strictly in registration order and stay below the next
/// one to hand out.
pub open spec fn registry_well_formed(v: RegistryView) -> bool {
    &&& forall|i: int, j: int|
        0 <= i < j < v.entries.len() ==> v.entries[i].handle < v.entries[j].handle
    &&& forall|i: int| 0 <= i < v.entries.len() ==> v.entries[i].handle < v.next_handle
}

/// The subscriptions listening under a target, in registration order.
pub open spec fn entries_for(s: Seq<SubscriptionEntry>, target: SubscriptionTarget) -> Seq<
    SubscriptionEntry,
>
    decreases s.len(),
{
    if s.len() == 0 {
        Seq::empty()
    } else {
        let rest = entries_for(s.drop_last(), target);
        if s.last().target == target {
            rest.push(s.last())
        } else {
            rest
        }
    }
}

/// The subscriptions surviving a delivery for a target: everything but
/// the target's single-fire entries, in order.
pub open spec fn entries_after_delivery(
    s: Seq<SubscriptionEntry>,
    target: SubscriptionTarget,
) -> Seq<SubscriptionEntry>
    decreases s.len(),
{
    if s.len() == 0 {
        Seq::empty()
    } else {
        let rest = entries_after_delivery(s.drop_last(), target);
        if s.last().target == target && s.last().single_fire {
            rest
        } else {
            rest.push(s.last())
        }
    }
}

/// The subscriptions left once the entry carrying handle `h` is
/// released, in order.
pub open spec fn entries_without_handle(s: Seq<SubscriptionEntry>, h: u64) -> Seq<
    SubscriptionEntry,
>
    decreases s.len(),
{
    if s.len() == 0 {
        Seq::empty()
    } else {
        let rest = entries_without_handle(s.drop_last(), h);
        if s.last().handle == h {
            rest
        } else {
            rest.push(s.last())
        }
    }
}

/// The guards left once the guard for a target is released, in order.
pub open spec fn guards_without(s: Seq<SubscriptionTarget>, target: SubscriptionTarget) -> Seq<
    SubscriptionTarget,
>
    decreases s.len(),
{
    if s.len() == 0 {
        Seq::empty()
    } else {
        let rest = guards_without(s.drop_last(), target);
        if s.last() == target {
            rest
        } else {
            rest.push(s.last())
        }
    }
}

/// The queued notifications addressed to a target, in arrival order.
pub open spec fn queued_for(s: Seq<QueuedView>, target: SubscriptionTarget) -> Seq<QueuedView>
    decreases s.len(),
{
    if s.len() == 0 {
        Seq::empty()
    } else {
        let rest = queued_for(s.drop_last(), target);
        if s.last().target == target {
            rest.push(s.last())
        } else {
            rest
        }
    }
}

/// The queued notifications not addressed to a target, in arrival
/// order.
pub open spec fn queued_without(s: Seq<QueuedView>, target: SubscriptionTarget) -> Seq<QueuedView>
    decreases s.len(),
{
    if s.len() == 0 {
        Seq::empty()
    } else {
        let rest = queued_without(s.drop_last(), target);
        if s.last().target == target {
            rest
        } else {
            rest.push(s.last())
        }
    }
}

/// The handles of a run of subscriptions, in the same order.
pub open spec fn handles_of(s: Seq<SubscriptionEntry>) -> Seq<u64> {
    s.map_values(|e: SubscriptionEntry| e.handle)
}

/// Whether anyone listens under a target.
pub open spec fn has_subscriber(v: RegistryView, target: SubscriptionTarget) -> bool {
    entries_for(v.entries, target).len() > 0
}

/// Whether a buffering guard is held for a target.
pub open spec fn is_buffering(v: RegistryView, target: SubscriptionTarget) -> bool {
    v.guards.contains(target)
}

/// Whether some entry carries the given handle.
pub open spec fn has_handle(s: Seq<SubscriptionEntry>, h: u64) -> bool {
    exists|i: int| 0 <= i < s.len() && s[i].handle == h
}

/// Registry after registering a callback under `target`.
pub open spec fn subscribe_t(
    v: RegistryView,
    target: SubscriptionTarget,
    single_fire: bool,
) -> RegistryView {
    RegistryView {
        next_handle: (v.next_handle + 1) as u64,
        entries: v.entries.push(SubscriptionEntry { handle: v.next_handle, target, single_fire }),
        ..v
    }
}

/// Registry after releasing the handle `h`: exactly the entry holding
/// `h` leaves, every other entry stays in order.
pub open spec fn unsubscribe_t(v: RegistryView, h: u64) -> RegistryView {
    RegistryView { entries: entries_without_handle(v.entries, h), ..v }
}

/// Registry after acquiring a buffering guard for `target`.
pub open spec fn begin_buffering_t(v: RegistryView, target: SubscriptionTarget) -> RegistryView {
    if is_buffering(v, target) {
        v
    } else {
        RegistryView { guards: v.guards.push(target), ..v }
    }
}

/// What happens to an arriving notification.
pub enum DispatchOutcomeView {
    /// Delivered to these handles, in registration order.
    Delivered(Seq<u64>),
    /// No subscriber, a guard is held: queued for replay.
    Queued,
    /// No subscriber, no guard: dropped (and logged by the caller).
    Dropped,
}

/// Outcome of dispatching a notification for `target`.
pub open spec fn dispatch_outcome(
    v: RegistryView,
    target: SubscriptionTarget,
) -> DispatchOutcomeView {
    if has_subscriber(v, target) {
        DispatchOutcomeView::Delivered(handles_of(entries_for(v.entries, target)))
    } else if is_buffering(v, target) {
        DispatchOutcomeView::Queued
    } else {
        DispatchOutcomeView::Dropped
    }
}

/// Registry after dispatching a notification for `target` with payload
/// `body`: delivery removes the single-fire entries it reached, queueing
/// appends to the buffer, a drop changes nothing.
pub open spec fn dispatch_t(
    v: RegistryView,
    target: SubscriptionTarget,
    body: Seq<u8>,
) -> RegistryView {
    if has_subscriber(v, target) {
        RegistryView { entries: entries_after_delivery(v.entries, target), ..v }
    } else if is_buffering(v, target) {
        RegistryView { queued: v.queued.push(QueuedView { target, body }), ..v }
    } else {
        v
    }
}

/// Registry after releasing the buffering guard for `target`: the guard
/// and the target's queue are gone, subscriptions stay.
pub open spec fn end_buffering_t(v: RegistryView, target: SubscriptionTarget) -> RegistryView {
    RegistryView {
        guards: guards_without(v.guards, target),
        queued: queued_without(v.queued, target),
        ..v
    }
}

/// Entries surviving a release keep their relative order and stay below
/// any bound the original run respected.
proof fn lemma_without_handle_sorted(s: Seq<SubscriptionEntry>, h: u64, bound: u64)
    requires
        forall|i: int, j: int| 0 <= i < j < s.len() ==> s[i].handle < s[j].handle,
        forall|i: int| 0 <= i < s.len() ==> s[i].handle < bound,
    ensures
        forall|i: int, j: int|
            0 <= i < j < entries_without_handle(s, h).len() ==> entries_without_handle(s, h)[i].handle
                < entries_without_handle(s, h)[j].handle,
        forall|i: int|
            0 <= i < entries_without_handle(s, h).len() ==> entries_without_handle(s, h)[i].handle
                < bound,
        s.len() > 0 && entries_without_handle(s, h).len() > 0 ==> entries_without_handle(
            s,
            h,
        ).last().handle <= s.last().handle,
    decreases s.len(),
{
    if s.len() > 0 {
        lemma_without_handle_sorted(s.drop_last(), h, bound);
    }
}

/// Entries surviving a delivery keep their relative order and stay
/// below any bound the original run respected.
proof fn lemma_after_delivery_sorted(
    s: Seq<SubscriptionEntry>,
    target: SubscriptionTarget,
    bound: u64,
)
    requires
        forall|i: int, j: int| 0 <= i < j < s.len() ==> s[i].handle < s[j].handle,
        forall|i: int| 0 <= i < s.len() ==> s[i].handle < bound,
    ensures
        forall|i: int, j: int|
            0 <= i < j < entries_after_delivery(s, target).len() ==> entries_after_delivery(
                s,
                target,
            )[i].handle < entries_after_delivery(s, target)[j].handle,
        forall|i: int|
            0 <= i < entries_after_delivery(s, target).len() ==> entries_after_delivery(
                s,
                target,
            )[i].handle < bound,
        s.len() > 0 && entries_after_delivery(s, target).len() > 0 ==> entries_after_delivery(
            s,
            target,
        ).last().handle <= s.last().handle,
    decreases s.len(),
{
    if s.len() > 0 {
        lemma_after_delivery_sorted(s.drop_last(), target, bound);
    }
}

impl Registry {
    /// A fresh registry with no subscription, guard or queued
    /// notification.
    pub fn new() -> (r: Registry)
        ensures
            registry_well_formed(r@),
            r@.next_handle == 0,
            r@.entries.len() == 0,
            r@.guards.len() == 0,
            r@.queued.len() == 0,
    {
        let r = Registry {
            next_handle: 0,
            entries: Vec::new(),
            guards: Vec::new(),
            queued: Vec::new(),
        };
        proof {
            assert(r@.queued =~= Seq::<QueuedView>::empty());
        }
        r
    }

    /// Registers a callback under `target` and returns its release
    /// handle.
    pub fn subscribe(&mut self, target: SubscriptionTarget, single_fire: bool) -> (h: u64)
        requires
            registry_well_formed(old(self)@),
            old(self).next_handle < u64::MAX,
        ensures
            registry_well_formed(final(self)@),
            h == old(self)@.next_handle,
            final(self)@ == subscribe_t(old(self)@, target, single_fire),
    {
        let h = self.next_handle;
        self.next_handle = self.next_handle + 1;
        self.entries.push(SubscriptionEntry { handle: h, target, single_fire });
        proof {
            assert(final(self)@ =~= subscribe_t(old(self)@, target, single_fire));
        }
        h
    }

    /// Releases a handle: exactly its entry leaves the registry, every
    /// other entry stays, in order. Returns whether the handle was still
    /// registered.
    pub fn unsubscribe(&mut self, h: u64) -> (r: bool)
        requires
            registry_well_formed(old(self)@),
        ensures
            registry_well_formed(final(self)@),
            r == has_handle(old(self)@.entries, h),
            final(self)@ == unsubscribe_t(old(self)@, h),
    {
        let ghost orig = self.entries@;
        let n = self.entries.len();
        let mut kept: Vec<SubscriptionEntry> = Vec::new();
        let mut found = false;
        let mut i: usize = 0;
        while i < n
            invariant
                n == self.entries@.len(),
                i <= n,
                *self == *old(self),
                orig == self.entries@,
                kept@ == entries_without_handle(orig.subrange(0, i as int), h),
                found == has_handle(orig.subrange(0, i as int), h),
            decreases n - i,
        {
            let e = self.entries[i];
            proof {
                assert(orig.subrange(0, i + 1).drop_last() =~= orig.subrange(0, i as int));
                assert(has_handle(orig.subrange(0, i + 1), h) == (has_handle(
                    orig.subrange(0, i as int),
                    h,
                ) || orig[i as int].handle == h)) by {
                    let s1 = orig.subrange(0, i + 1);
                    let s0 = orig.subrange(0, i as int);
                    if has_handle(s0, h) {
                        let k = choose|k: int| 0 <= k < s0.len() && s0[k].handle == h;
                        assert(s1[k].handle == h);
                    }
                    if orig[i as int].handle == h {
                        assert(s1[i as int].handle == h);
                    }
                    if has_handle(s1, h) && !has_handle(s0, h) && orig[i as int].handle != h {
                        let k = choose|k: int| 0 <= k < s1.len() && s1[k].handle == h;
                        assert(s0[k].handle == h);
                    }
                }
            }
            if e.handle == h {
                found = true;
            } else {
                kept.push(e);
            }
            i = i + 1;
        }
        proof {
            assert(orig.subrange(0, n as int) =~= orig);
        }
        self.entries = kept;
        proof {
            lemma_without_handle_sorted(orig, h, old(self).next_handle);
            assert(final(self)@ =~= unsubscribe_t(old(self)@, h));
        }
        found
    }

    /// Acquires a buffering guard for `target`. Returns whether the
    /// guard is new; a guard already in place stays as it is.
    pub fn begin_buffering(&mut self, target: SubscriptionTarget) -> (started: bool)
        requires
            registry_well_formed(old(self)@),
        ensures
            registry_well_formed(final(self)@),
            started == !is_buffering(old(self)@, target),
            final(self)@ == begin_buffering_t(old(self)@, target),
    {
        let n = self.guards.len();
        let mut i: usize = 0;
        while i < n
            invariant
                n == self.guards@.len(),
                i <= n,
                *self == *old(self),
                registry_well_formed(old(self)@),
                forall|j: int| 0 <= j < i ==> self.guards@[j] != target,
            decreases n - i,
        {
            if self.guards[i] == target {
                proof {
                    assert(is_buffering(old(self)@, target)) by {
                        assert(old(self)@.guards[i as int] == target);
                    }
                }
                return false;
            }
            i = i + 1;
        }
        proof {
            assert(!is_buffering(old(self)@, target)) by {
                if old(self)@.guards.contains(target) {
                    let k = choose|k: int|
                        0 <= k < old(self)@.guards.len() && old(self)@.guards[k] == target;
                    assert(old(self)@.guards[k] != target);
                }
            }
        }
        self.guards.push(target);
        proof {
            assert(final(self)@ =~= begin_buffering_t(old(self)@, target));
        }
        true
    }

    /// Dispatches one arriving notification: delivery to every
    /// subscriber of the target in registration order, else queueing
    /// under a held guard, else a drop.
    pub fn dispatch(&mut self, target: SubscriptionTarget, body: Vec<u8>) -> (r: DispatchOutcome)
        requires
            registry_well_formed(old(self)@),
        ensures
            registry_well_formed(final(self)@),
            final(self)@ == dispatch_t(old(self)@, target, body@),
            match r {
                DispatchOutcome::Delivered(hs) => dispatch_outcome(old(self)@, target)
                    == DispatchOutcomeView::Delivered(hs@),
                DispatchOutcome::Queued => dispatch_outcome(old(self)@, target)
                    == DispatchOutcomeView::Queued,
                DispatchOutcome::Dropped => dispatch_outcome(old(self)@, target)
                    == DispatchOutcomeView::Dropped,
            },
    {
        let ghost orig = self.entries@;
        let n = self.entries.len();
        let mut delivered: Vec<u64> = Vec::new();
        let mut kept: Vec<SubscriptionEntry> = Vec::new();
        let mut i: usize = 0;
        while i < n
            invariant
                n == self.entries@.len(),
                i <= n,
                *self == *old(self),
                orig == self.entries@,
                delivered@ == handles_of(entries_for(orig.subrange(0, i as int), target)),
                kept@ == entries_after_delivery(orig.subrange(0, i as int), target),
            decreases n - i,
        {
            let e = self.entries[i];
            proof {
                assert(orig.subrange(0, i + 1).drop_last() =~= orig.subrange(0, i as int));
            }
            if e.target == target {
                delivered.push(e.handle);
                proof {
                    assert(entries_for(orig.subrange(0, i + 1), target) == entries_for(
                        orig.subrange(0, i as int),
                        target,
                    ).push(orig[i as int]));
                    assert(delivered@ =~= handles_of(entries_for(orig.subrange(0, i + 1), target)));
                }
                if !e.single_fire {
                    kept.push(e);
                }
            } else {
                kept.push(e);
            }
            i = i + 1;
        }
        proof {
            assert(orig.subrange(0, n as int) =~= orig);
        }
        if delivered.len() > 0 {
            proof {
                assert(delivered@.len() == entries_for(orig, target).len()) by {
                    assert(delivered@ == handles_of(entries_for(orig, target)));
                }
            }
            self.entries = kept;
            proof {
                lemma_after_delivery_sorted(orig, target, old(self).next_handle);
                assert(final(self)@ =~= dispatch_t(old(self)@, target, body@));
            }
            return DispatchOutcome::Delivered(delivered);
        }
        proof {
            assert(entries_for(old(self)@.entries, target).len() == 0) by {
                assert(delivered@ == handles_of(entries_for(orig, target)));
            }
        }
        let m = self.guards.len();
        let mut g: usize = 0;
        while g < m
            invariant
                m == self.guards@.len(),
                g <= m,
                *self == *old(self),
                registry_well_formed(old(self)@),
                entries_for(old(self)@.entries, target).len() == 0,
                forall|j: int| 0 <= j < g ==> self.guards@[j] != target,
            decreases m - g,
        {
            if self.guards[g] == target {
                proof {
                    assert(is_buffering(old(self)@, target)) by {
                        assert(old(self)@.guards[g as int] == target);
                    }
                }
                self.queued.push(QueuedNotification { target, body });
                proof {
                    assert(final(self)@.queued =~= old(self)@.queued.push(
                        QueuedView { target, body: body@ },
                    ));
                    assert(final(self)@ =~= dispatch_t(old(self)@, target, body@));
                }
                return DispatchOutcome::Queued;
            }
            g = g + 1;
        }
        proof {
            assert(!is_buffering(old(self)@, target)) by {
                if old(self)@.guards.contains(target) {
                    let k = choose|k: int|
                        0 <= k < old(self)@.guards.len() && old(self)@.guards[k] == target;
                    assert(old(self)@.guards[k] != target);
                }
            }
            assert(final(self)@ =~= dispatch_t(old(self)@, target, body@));
        }
        DispatchOutcome::Dropped
    }

    /// Releases the buffering guard for `target` and hands back the
    /// notifications buffered for it, in arrival order, for replay to
    /// whatever subscriber now exists.
    pub fn end_buffering(&mut self, target: SubscriptionTarget) -> (replay: Vec<QueuedNotification>)
        requires
            registry_well_formed(old(self)@),
        ensures
            registry_well_formed(final(self)@),
            final(self)@ == end_buffering_t(old(self)@, target),
            qviews(replay@) == queued_for(old(self)@.queued, target),
    {
        let m = self.guards.len();
        let mut new_guards: Vec<SubscriptionTarget> = Vec::new();
        let mut g: usize = 0;
        while g < m
            invariant
                m == self.guards@.len(),
                g <= m,
                *self == *old(self),
                new_guards@ == guards_without(self.guards@.subrange(0, g as int), target),
            decreases m - g,
        {
            proof {
                assert(self.guards@.subrange(0, g + 1).drop_last() =~= self.guards@.subrange(
                    0,
                    g as int,
                ));
            }
            let t = self.guards[g];
            if !(t == target) {
                new_guards.push(t);
            }
            g = g + 1;
        }
        proof {
            assert(self.guards@.subrange(0, m as int) =~= self.guards@);
        }
        self.guards = new_guards;

        let mut rest: Vec<QueuedNotification> = Vec::new();
        core::mem::swap(&mut rest, &mut self.queued);
        let ghost qview = qviews(rest@);
        let ghost entries0 = self.entries@;
        let mut replay: Vec<QueuedNotification> = Vec::new();
        let mut kept: Vec<QueuedNotification> = Vec::new();
        let ghost mut processed: Seq<QueuedView> = Seq::empty();
        proof {
            assert(processed + qviews(rest@) =~= qview);
            assert(qviews(replay@) =~= queued_for(processed, target));
            assert(qviews(kept@) =~= queued_without(processed, target));
        }
        while rest.len() > 0
            invariant
                processed + qviews(rest@) == qview,
                qviews(replay@) == queued_for(processed, target),
                qviews(kept@) == queued_without(processed, target),
                self.entries@ == entries0,
                self.next_handle == old(self).next_handle,
                self.guards@ == guards_without(old(self)@.guards, target),
                self.queued@.len() == 0,
                registry_well_formed(old(self)@),
            decreases rest.len(),
        {
            let ghost rest0 = rest@;
            let item = rest.remove(0);
            proof {
                let prev = processed;
                processed = processed.push(item@);
                assert(processed.drop_last() =~= prev);
                assert(rest0 =~= seq![item] + rest@);
                assert(qviews(rest0) =~= seq![item@] + qviews(rest@));
                assert(processed + qviews(rest@) =~= prev + qviews(rest0));
            }
            if item.target == target {
                replay.push(item);
                proof {
                    assert(qviews(replay@) =~= queued_for(processed, target));
                }
            } else {
                kept.push(item);
                proof {
                    assert(qviews(kept@) =~= queued_without(processed, target));
                }
            }
        }
        proof {
            assert(qviews(rest@).len() == 0);
            assert(processed =~= qview);
        }
        self.queued = kept;
        proof {
            assert(final(self)@ =~= end_buffering_t(old(self)@, target));
        }
        replay
    }
}

/// What a dispatch did, as reported to the caller.
#[derive(Debug)]
pub enum DispatchOutcome {
    /// Delivered to these handles, in registration order.
    Delivered(Vec<u64>),
    /// No subscriber, a guard is held: queued for replay.
    Queued,
    /// No subscriber, no guard: dropped; the caller logs it.
    Dropped,
}

/// Buffering guard law: while a guard is held for a target with no
/// subscriber, arriving notifications are queued, not dropped; once a
/// subscriber registers and the guard is released, exactly those
/// notifications come back for replay, in their original arrival order,
/// and redispatching then delivers to that subscriber. A notification
/// arriving once the guard is gone, with still no subscriber, is
/// dropped.
pub proof fn lemma_buffering_guard_replays_in_order(
    v0: RegistryView,
    target: SubscriptionTarget,
    b1: Seq<u8>,
    b2: Seq<u8>,
    single_fire: bool,
)
    requires
        registry_well_formed(v0),
        v0.next_handle < u64::MAX,
        is_buffering(v0, target),
        !has_subscriber(v0, target),
        queued_for(v0.queued, target).len() == 0,
    ensures
        ({
            let v1 = dispatch_t(v0, target, b1);
            let v2 = dispatch_t(v1, target, b2);
            let v3 = subscribe_t(v2, target, single_fire);
            let replays = queued_for(v3.queued, target);
            let v4 = end_buffering_t(v3, target);
            &&& dispatch_outcome(v0, target) == DispatchOutcomeView::Queued
            &&& dispatch_outcome(v1, target) == DispatchOutcomeView::Queued
            &&& replays =~= seq![
                QueuedView { target, body: b1 },
                QueuedView { target, body: b2 },
            ]
            &&& dispatch_outcome(v4, target) == DispatchOutcomeView::Delivered(
                seq![v2.next_handle],
            )
        }),
{
    let v1 = dispatch_t(v0, target, b1);
    let v2 = dispatch_t(v1, target, b2);
    let v3 = subscribe_t(v2, target, single_fire);
    let v4 = end_buffering_t(v3, target);
    let q1 = QueuedView { target, body: b1 };
    let q2 = QueuedView { target, body: b2 };

    assert(dispatch_outcome(v0, target) == DispatchOutcomeView::Queued);
    assert(v1.entries == v0.entries);
    assert(dispatch_outcome(v1, target) == DispatchOutcomeView::Queued);
    assert(v2.queued == v0.queued.push(q1).push(q2));

    assert(queued_for(v3.queued, target) =~= seq![q1, q2]) by {
        assert(v0.queued.push(q1).drop_last() =~= v0.queued);
        assert(v0.queued.push(q1).push(q2).drop_last() =~= v0.queued.push(q1));
        assert(queued_for(v0.queued.push(q1), target) == queued_for(v0.queued, target).push(q1));
        assert(queued_for(v0.queued.push(q1).push(q2), target) == queued_for(
            v0.queued.push(q1),
            target,
        ).push(q2));
        assert(queued_for(v0.queued, target) =~= Seq::<QueuedView>::empty());
    }

    let entry = SubscriptionEntry { handle: v2.next_handle, target, single_fire };
    assert(entries_for(v4.entries, target) =~= seq![entry]) by {
        assert(v4.entries == v2.entries.push(entry));
        assert(v2.entries.push(entry).drop_last() =~= v2.entries);
        assert(v2.entries == v0.entries);
        assert(entries_for(v2.entries, target).len() == 0);
    }
    assert(handles_of(entries_for(v4.entries, target)) =~= seq![v2.next_handle]);
    assert(has_subscriber(v4, target));
}

} // verus!
