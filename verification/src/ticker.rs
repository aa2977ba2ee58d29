//! Bounded waits measured in ticks.

use vstd::prelude::*;
use crate::event::Event;

verus! {

/// The time that one tick stands for, in milliseconds.
pub const TICK_MS: u32 = 100;

/// Milliseconds elapsed in one wait, counted in ticks and held against the
/// bound the wait was started with. The count only grows, and stops once
/// the bound is met.
#[derive(Debug)]
pub struct ElapsedTimer {
    elapsed: u64,
    max: u32,
}

/// The event is a tick.
pub open spec fn is_tick<T>(event: Option<Event<T>>) -> bool {
    event == Some(Event::<T>::Ticker)
}

/// How many of the events are ticks.
pub open spec fn ticks<T>(events: Seq<Option<Event<T>>>) -> nat
    decreases events.len(),
{
    if events.len() == 0 {
        0
    } else {
        ticks(events.drop_last()) + if is_tick(events.last()) {
            1nat
        } else {
            0nat
        }
    }
}

/// The time that the events account for: one tick's worth for each tick.
pub open spec fn elapsed_after<T>(events: Seq<Option<Event<T>>>) -> nat {
    TICK_MS as nat * ticks(events)
}

/// A wait of `max` milliseconds over `events` ends after `consumed` of
/// them: no shorter prefix accounts for the bound, and this one does unless
/// it is the whole stream.
pub open spec fn wait_ends_at<T>(events: Seq<Option<Event<T>>>, max: nat, consumed: int) -> bool {
    &&& 0 <= consumed <= events.len()
    &&& forall|k: int| 0 <= k < consumed ==> elapsed_after(#[trigger] events.take(k)) < max
    &&& consumed < events.len() ==> elapsed_after(events.take(consumed)) >= max
}

impl ElapsedTimer {
    #[verifier::type_invariant]
    spec fn well_formed(self) -> bool {
        self.elapsed < self.max + TICK_MS
    }

    /// Milliseconds counted so far.
    pub closed spec fn elapsed(self) -> nat {
        self.elapsed as nat
    }

    /// The bound of the wait, in milliseconds.
    pub closed spec fn max(self) -> nat {
        self.max as nat
    }

    /// The bound is met.
    pub open spec fn is_expired(self) -> bool {
        self.elapsed() >= self.max()
    }

    /// A timer for a wait of at most `max` milliseconds, with nothing
    /// elapsed yet.
    pub fn new(max: u32) -> (timer: ElapsedTimer)
        ensures
            timer.elapsed() == 0,
            timer.max() == max,
    {
        ElapsedTimer { elapsed: 0, max }
    }

    /// Milliseconds counted so far.
    pub fn elapsed_ms(&self) -> (ms: u64)
        ensures
            ms == self.elapsed(),
    {
        self.elapsed
    }

    /// Whether the elapsed time has met or passed the bound.
    pub fn expired(&self) -> (done: bool)
        ensures
            done == self.is_expired(),
    {
        self.elapsed >= self.max as u64
    }

    /// Accounts for one event of a running wait: a tick adds its time,
    /// anything else adds nothing. Returns whether the wait is over. A timer
    /// that has expired counts no further.
    pub fn record<T>(&mut self, event: &Option<Event<T>>) -> (done: bool)
        ensures
            final(self).max() == old(self).max(),
            final(self).elapsed() == if is_tick(*event) && !old(self).is_expired() {
                old(self).elapsed() + TICK_MS as nat
            } else {
                old(self).elapsed()
            },
            done == final(self).is_expired(),
    {
        proof {
            use_type_invariant(&*self);
        }
        if self.elapsed < self.max as u64 {
            match event {
                Some(Event::Ticker) => {
                    self.elapsed = self.elapsed + TICK_MS as u64;
                },
                _ => {},
            }
        }
        self.elapsed >= self.max as u64
    }
}

proof fn lemma_ticks_push<T>(events: Seq<Option<Event<T>>>, k: int)
    requires
        0 <= k < events.len(),
    ensures
        ticks(events.take(k + 1)) == ticks(events.take(k)) + if is_tick(events[k]) {
            1nat
        } else {
            0nat
        },
{
    assert(events.take(k + 1).drop_last() =~= events.take(k));
}

/// Waits for `max_elapsed_time` milliseconds over a recorded stream of
/// events. Each tick counts for `TICK_MS`; other events pass by. Returns how
/// many events went by before the wait ended, and whether it ended because
/// the time was up rather than because the stream was.
pub fn wait_ticker<T>(events: &[Option<Event<T>>], max_elapsed_time: u32) -> (r: (usize, bool))
    ensures
        wait_ends_at(events@, max_elapsed_time as nat, r.0 as int),
        r.1 == (elapsed_after(events@.take(r.0 as int)) >= max_elapsed_time),
{
    let mut timer = ElapsedTimer::new(max_elapsed_time);
    let mut consumed: usize = 0;
    proof {
        assert(events@.take(0) =~= Seq::<Option<Event<T>>>::empty());
    }
    while !timer.expired() && consumed < events.len()
        invariant
            consumed <= events.len(),
            timer.max() == max_elapsed_time,
            timer.elapsed() == elapsed_after(events@.take(consumed as int)),
            forall|k: int|
                0 <= k < consumed ==> elapsed_after(#[trigger] events@.take(k)) < max_elapsed_time,
        decreases events.len() - consumed,
    {
        proof {
            lemma_ticks_push(events@, consumed as int);
            assert(TICK_MS as nat * (ticks(events@.take(consumed as int)) + 1) == TICK_MS as nat
                * ticks(events@.take(consumed as int)) + TICK_MS as nat) by (nonlinear_arith);
        }
        timer.record(&events[consumed]);
        consumed = consumed + 1;
    }
    (consumed, timer.expired())
}

/// On a stream of ticks alone, the first `n` events account for `n` ticks'
/// worth of time.
pub proof fn lemma_tick_stream_elapsed<T>(events: Seq<Option<Event<T>>>, n: int)
    requires
        forall|k: int| 0 <= k < events.len() ==> is_tick(#[trigger] events[k]),
        0 <= n <= events.len(),
    ensures
        elapsed_after(events.take(n)) == TICK_MS as nat * n as nat,
    decreases n,
{
    if n == 0 {
        assert(events.take(0) =~= Seq::<Option<Event<T>>>::empty());
    } else {
        lemma_tick_stream_elapsed(events, n - 1);
        lemma_ticks_push(events, n - 1);
        assert(TICK_MS as nat * (ticks(events.take(n - 1)) + 1) == TICK_MS as nat * ticks(
            events.take(n - 1),
        ) + TICK_MS as nat) by (nonlinear_arith);
    }
}

/// On a stream of ticks alone that is long enough, a wait ends after
/// exactly as many ticks as it takes to meet the bound, rounded up: never
/// fewer, and without waiting for the times to be equal.
pub proof fn lemma_wait_on_ticks<T>(events: Seq<Option<Event<T>>>, max: nat, consumed: int)
    requires
        forall|k: int| 0 <= k < events.len() ==> is_tick(#[trigger] events[k]),
        wait_ends_at(events, max, consumed),
        events.len() * TICK_MS >= max,
    ensures
        consumed == (max + TICK_MS - 1) / (TICK_MS as int),
        (consumed - 1) * TICK_MS < max <= consumed * TICK_MS,
{
    lemma_tick_stream_elapsed(events, consumed);
    if consumed > 0 {
        lemma_tick_stream_elapsed(events, consumed - 1);
    }
}

/// Events that are no ticks never bring a wait nearer its end.
pub proof fn lemma_other_events_add_nothing<T>(events: Seq<Option<Event<T>>>)
    requires
        forall|k: int| 0 <= k < events.len() ==> !is_tick(#[trigger] events[k]),
    ensures
        elapsed_after(events) == 0,
    decreases events.len(),
{
    if events.len() > 0 {
        let shorter = events.drop_last();
        assert forall|k: int| 0 <= k < shorter.len() implies !is_tick(#[trigger] shorter[k]) by {
            assert(shorter[k] == events[k]);
        }
        lemma_other_events_add_nothing(shorter);
    }
}

} // verus!
