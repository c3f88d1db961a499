//! The subscription engine: for one subject and one interval, a producer
//! that emits numbered update events until its consumer goes away or
//! unsubscribes.
//!
//! The producer is a state machine. The task that runs it sleeps, sends and
//! reports back; this module decides what happens next:
//!
//! `Created --timer--> Emitting --timer--> Emitting ... --cancel / failed send--> Closed`

use vstd::prelude::*;
use crate::text::{push_signed_decimal, signed_decimal};
use crate::users::User;

verus! {

/// The life cycle of a subscription.
#[derive(Debug, Clone, Copy, PartialEq, Eq, Structural)]
pub enum Phase {
    Created,
    Emitting,
    Closed,
}

/// A subscription: its subject, its tick interval in seconds, the number of
/// the last update emitted (0 before the first) and its phase.
#[derive(Debug, Clone, Copy, PartialEq, Eq, Structural)]
pub struct Subscription {
    pub user_id: i32,
    pub interval_secs: u64,
    pub sequence: u64,
    pub phase: Phase,
}

/// What the producer task reports to the engine.
#[derive(Debug, Clone, Copy, PartialEq, Eq, Structural)]
pub enum ProducerEvent {
    /// The task has started.
    Started,
    /// The interval elapsed; the payload is the current time in seconds
    /// since the Unix epoch.
    TimerFired(i64),
    /// The last update was accepted by the output channel.
    Delivered,
    /// The consumer closed its side: the last send failed.
    DeliveryFailed,
    /// The consumer unsubscribed.
    Cancelled,
}

/// One update event.
#[derive(Debug)]
pub struct UserUpdate {
    pub user: User,
    pub update_type: String,
    pub timestamp: i64,
    pub sequence: u64,
}

/// What the producer task must do next.
#[derive(Debug)]
pub enum ProducerAction {
    /// Sleep this many seconds, then report `TimerFired`.
    Wait(u64),
    /// Send this update, then report `Delivered` or `DeliveryFailed`.
    Emit(UserUpdate),
    /// Stop: release the timer and end the task.
    Stop,
}

/// The interval used for a requested one: itself if positive, else 2 seconds.
pub open spec fn effective_interval(interval_seconds: i32) -> u64 {
    if interval_seconds > 0 {
        interval_seconds as u64
    } else {
        2
    }
}

/// A newly created subscription.
pub open spec fn fresh_subscription(user_id: i32, interval_seconds: i32) -> Subscription {
    Subscription {
        user_id,
        interval_secs: effective_interval(interval_seconds),
        sequence: 0,
        phase: Phase::Created,
    }
}

/// The update type of update number `seq`: cyclic over profile, activity
/// and status, keyed by `seq % 3`.
pub open spec fn update_kind(seq: nat) -> Seq<char> {
    if seq % 3 == 0 {
        "profile_update"@
    } else if seq % 3 == 1 {
        "activity_update"@
    } else {
        "status_update"@
    }
}

/// `u` is update number `seq` of user `user_id`, stamped `timestamp`.
pub open spec fn is_update(u: UserUpdate, user_id: i32, seq: u64, timestamp: i64) -> bool {
    &&& u.user.id == user_id
    &&& u.user.name@ == "User "@ + signed_decimal(user_id as int)
    &&& u.user.email@ == "user"@ + signed_decimal(user_id as int) + "@example.com"@
    &&& u.user.age == 30 + seq % 10
    &&& u.update_type@ == update_kind(seq as nat)
    &&& u.timestamp == timestamp
    &&& u.sequence == seq
}

/// The subscription after event `ev`.
pub open spec fn next_state(s: Subscription, ev: ProducerEvent) -> Subscription {
    match ev {
        ProducerEvent::TimerFired(_) => if s.phase == Phase::Closed {
            s
        } else if s.sequence == u64::MAX {
            Subscription { phase: Phase::Closed, ..s }
        } else {
            Subscription { sequence: (s.sequence + 1) as u64, phase: Phase::Emitting, ..s }
        },
        ProducerEvent::Started | ProducerEvent::Delivered => s,
        ProducerEvent::DeliveryFailed | ProducerEvent::Cancelled => Subscription {
            phase: Phase::Closed,
            ..s
        },
    }
}

/// `a` is the engine's answer to event `ev` in state `s`: a closed
/// subscription only stops; a tick emits the next update (or, once the
/// numbers are used up, stops); a start or a delivery waits one interval.
pub open spec fn is_reaction(s: Subscription, ev: ProducerEvent, a: ProducerAction) -> bool {
    if s.phase == Phase::Closed {
        a is Stop
    } else {
        match ev {
            ProducerEvent::TimerFired(ts) => if s.sequence == u64::MAX {
                a is Stop
            } else {
                a matches ProducerAction::Emit(u) && is_update(
                    u,
                    s.user_id,
                    (s.sequence + 1) as u64,
                    ts,
                )
            },
            ProducerEvent::Started | ProducerEvent::Delivered => a == ProducerAction::Wait(
                s.interval_secs,
            ),
            ProducerEvent::DeliveryFailed | ProducerEvent::Cancelled => a is Stop,
        }
    }
}

impl Subscription {
    /// A subscription to user `user_id`, ticking every `interval_seconds`
    /// seconds, or every 2 seconds when that is 0 or negative.
    pub fn new(user_id: i32, interval_seconds: i32) -> (r: Subscription)
        ensures
            r == fresh_subscription(user_id, interval_seconds),
    {
        let interval_secs: u64 = if interval_seconds > 0 {
            interval_seconds as u64
        } else {
            2
        };
        Subscription { user_id, interval_secs, sequence: 0, phase: Phase::Created }
    }

    /// Handles one event from the producer task and says what it does next.
    pub fn step(&mut self, ev: ProducerEvent) -> (r: ProducerAction)
        ensures
            *final(self) == next_state(*old(self), ev),
            is_reaction(*old(self), ev, r),
    {
        if self.phase == Phase::Closed {
            return ProducerAction::Stop;
        }
        match ev {
            ProducerEvent::TimerFired(ts) => {
                if self.sequence == u64::MAX {
                    self.phase = Phase::Closed;
                    ProducerAction::Stop
                } else {
                    self.sequence = self.sequence + 1;
                    self.phase = Phase::Emitting;
                    ProducerAction::Emit(make_update(self.user_id, self.sequence, ts))
                }
            },
            ProducerEvent::Started | ProducerEvent::Delivered => ProducerAction::Wait(
                self.interval_secs,
            ),
            ProducerEvent::DeliveryFailed | ProducerEvent::Cancelled => {
                self.phase = Phase::Closed;
                ProducerAction::Stop
            },
        }
    }
}

/// The text of an update type.
pub fn update_type_text(seq: u64) -> (r: String)
    ensures
        r@ == update_kind(seq as nat),
{
    if seq % 3 == 0 {
        String::from_str("profile_update")
    } else if seq % 3 == 1 {
        String::from_str("activity_update")
    } else {
        String::from_str("status_update")
    }
}

/// Update number `seq` of user `user_id`, stamped `timestamp`.
pub fn make_update(user_id: i32, seq: u64, timestamp: i64) -> (r: UserUpdate)
    ensures
        is_update(r, user_id, seq, timestamp),
{
    let mut name = String::from_str("User ");
    push_signed_decimal(&mut name, user_id as i64);
    let mut email = String::from_str("user");
    push_signed_decimal(&mut email, user_id as i64);
    email.append("@example.com");
    let age: i32 = 30 + (seq % 10) as i32;
    UserUpdate {
        user: User { id: user_id, name, email, age },
        update_type: update_type_text(seq),
        timestamp,
        sequence: seq,
    }
}

/// The subscription after the events `evs`, in order.
pub open spec fn run(s: Subscription, evs: Seq<ProducerEvent>) -> Subscription
    decreases evs.len(),
{
    if evs.len() == 0 {
        s
    } else {
        next_state(run(s, evs.drop_last()), evs.last())
    }
}

/// The number of timer events among `evs`.
pub open spec fn ticks(evs: Seq<ProducerEvent>) -> nat
    decreases evs.len(),
{
    if evs.len() == 0 {
        0
    } else {
        ticks(evs.drop_last()) + if evs.last() is TimerFired {
            1nat
        } else {
            0nat
        }
    }
}

/// No event among `evs` closes a subscription.
pub open spec fn keeps_open(evs: Seq<ProducerEvent>) -> bool {
    forall|k: int|
        0 <= k < evs.len() ==> !(#[trigger] evs[k] is DeliveryFailed || evs[k] is Cancelled)
}

/// Running `a` then `b` is running `a + b`.
pub proof fn lemma_run_append(s: Subscription, a: Seq<ProducerEvent>, b: Seq<ProducerEvent>)
    ensures
        run(s, a + b) == run(run(s, a), b),
    decreases b.len(),
{
    if b.len() == 0 {
        assert(a + b =~= a);
    } else {
        lemma_run_append(s, a, b.drop_last());
        assert((a + b).drop_last() =~= a + b.drop_last());
    }
}

/// A prefix has no more ticks than the whole.
pub proof fn lemma_ticks_prefix(evs: Seq<ProducerEvent>, j: int)
    requires
        0 <= j <= evs.len(),
    ensures
        ticks(evs.take(j)) <= ticks(evs),
    decreases evs.len(),
{
    if j == evs.len() {
        assert(evs.take(j) =~= evs);
    } else {
        lemma_ticks_prefix(evs.drop_last(), j);
        assert(evs.drop_last().take(j) =~= evs.take(j));
    }
}

/// While nothing closes it and its numbers last, an open subscription
/// counts one update per tick.
pub proof fn lemma_run_counts_ticks(s: Subscription, evs: Seq<ProducerEvent>)
    requires
        s.phase != Phase::Closed,
        keeps_open(evs),
        s.sequence + ticks(evs) <= u64::MAX,
    ensures
        run(s, evs).phase != Phase::Closed,
        run(s, evs).sequence == s.sequence + ticks(evs),
        run(s, evs).user_id == s.user_id,
        run(s, evs).interval_secs == s.interval_secs,
    decreases evs.len(),
{
    if evs.len() > 0 {
        let prev = evs.drop_last();
        assert forall|k: int| 0 <= k < prev.len() implies !(#[trigger] prev[k] is DeliveryFailed
            || prev[k] is Cancelled) by {
            assert(prev[k] == evs[k]);
        }
        lemma_run_counts_ticks(s, prev);
        assert(!(evs[evs.len() - 1] is DeliveryFailed || evs[evs.len() - 1] is Cancelled));
    }
}

/// A requested interval of 0 seconds, or a negative one, gives the same
/// subscription as a requested interval of 2 seconds.
pub proof fn lemma_nonpositive_interval_is_two(user_id: i32, interval_seconds: i32)
    requires
        interval_seconds <= 0,
    ensures
        fresh_subscription(user_id, interval_seconds) == fresh_subscription(user_id, 2),
{
}

/// On a new subscription that nothing closes, the tick at position `j`
/// emits update number n, where n is the number of ticks up to and
/// including it: numbers 1, 2, 3, ... with no gap or repeat, the type keyed
/// by `n % 3` and the age `30 + n % 10`.
pub proof fn lemma_ticks_emit_in_order(
    user_id: i32,
    interval_seconds: i32,
    evs: Seq<ProducerEvent>,
    j: int,
    ts: i64,
    a: ProducerAction,
)
    requires
        keeps_open(evs),
        ticks(evs) <= u64::MAX,
        0 <= j < evs.len(),
        evs[j] == ProducerEvent::TimerFired(ts),
        is_reaction(run(fresh_subscription(user_id, interval_seconds), evs.take(j)), evs[j], a),
    ensures
        a matches ProducerAction::Emit(u) && is_update(
            u,
            user_id,
            ticks(evs.take(j + 1)) as u64,
            ts,
        ),
{
    let s0 = fresh_subscription(user_id, interval_seconds);
    let pre = evs.take(j);
    let upto = evs.take(j + 1);
    assert(upto.drop_last() =~= pre);
    assert(upto.last() == evs[j]);
    lemma_ticks_prefix(evs, j + 1);
    assert forall|k: int| 0 <= k < pre.len() implies !(#[trigger] pre[k] is DeliveryFailed
        || pre[k] is Cancelled) by {
        assert(pre[k] == evs[k]);
    }
    lemma_run_counts_ticks(s0, pre);
}

/// A closed subscription stays as it is, whatever comes, and only stops.
pub proof fn lemma_closed_stays_silent(s: Subscription, evs: Seq<ProducerEvent>)
    requires
        s.phase == Phase::Closed,
    ensures
        run(s, evs) == s,
        forall|j: int, a: ProducerAction|
            0 <= j < evs.len() && #[trigger] is_reaction(run(s, evs.take(j)), evs[j], a)
                ==> a is Stop,
    decreases evs.len(),
{
    if evs.len() > 0 {
        lemma_closed_stays_silent(s, evs.drop_last());
        assert forall|j: int, a: ProducerAction|
            0 <= j < evs.len() && #[trigger] is_reaction(run(s, evs.take(j)), evs[j], a)
                implies a is Stop by {
            if j < evs.len() - 1 {
                assert(evs.drop_last().take(j) =~= evs.take(j));
                assert(evs.drop_last()[j] == evs[j]);
                assert(is_reaction(run(s, evs.drop_last().take(j)), evs.drop_last()[j], a));
            } else {
                assert(evs.take(j) =~= evs.drop_last());
                assert(run(s, evs.take(j)) == s);
            }
        }
    }
}

/// After a cancel or a failed send at position `c`, the subscription is
/// closed, keeps the sequence number it had, and no later event emits
/// anything.
pub proof fn lemma_no_emission_after_cancel(s: Subscription, evs: Seq<ProducerEvent>, c: int)
    requires
        0 <= c < evs.len(),
        evs[c] is Cancelled || evs[c] is DeliveryFailed,
    ensures
        forall|j: int|
            c < j <= evs.len() ==> (#[trigger] run(s, evs.take(j))).phase == Phase::Closed
                && run(s, evs.take(j)).sequence == run(s, evs.take(c)).sequence,
        forall|j: int, a: ProducerAction|
            c < j < evs.len() && #[trigger] is_reaction(run(s, evs.take(j)), evs[j], a)
                ==> a is Stop,
{
    let closed = run(s, evs.take(c + 1));
    assert(evs.take(c + 1).drop_last() =~= evs.take(c));
    assert(closed.phase == Phase::Closed);
    assert forall|j: int| c < j <= evs.len() implies (#[trigger] run(s, evs.take(j))).phase
        == Phase::Closed && run(s, evs.take(j)).sequence == run(s, evs.take(c)).sequence by {
        let rest = evs.subrange(c + 1, j);
        assert(evs.take(c + 1) + rest =~= evs.take(j));
        lemma_run_append(s, evs.take(c + 1), rest);
        lemma_closed_stays_silent(closed, rest);
    }
    assert forall|j: int, a: ProducerAction|
        c < j < evs.len() && #[trigger] is_reaction(run(s, evs.take(j)), evs[j], a)
            implies a is Stop by {
        assert(run(s, evs.take(j)).phase == Phase::Closed);
    }
}

} // verus!
