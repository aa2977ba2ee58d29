use apdu_dispatch::event::Event;
use apdu_dispatch::ticker::{wait_ticker, ElapsedTimer, TICK_MS};

fn ticks(n: usize) -> Vec<Option<Event<u8>>> {
    (0..n).map(|_| Some(Event::Ticker)).collect()
}

#[test]
fn a_tick_is_a_hundred_milliseconds() {
    assert_eq!(TICK_MS, 100);
}

#[test]
fn two_seconds_take_exactly_twenty_ticks() {
    assert_eq!(wait_ticker(&ticks(20), 2000), (20, true));
    assert_eq!(wait_ticker(&ticks(21), 2000), (20, true));
    assert_eq!(wait_ticker(&ticks(1000), 2000), (20, true));
    assert_eq!(wait_ticker(&ticks(19), 2000), (19, false));
}

#[test]
fn a_bound_between_ticks_is_overshot_not_awaited() {
    assert_eq!(wait_ticker(&ticks(10), 250), (3, true));
    assert_eq!(wait_ticker(&ticks(2), 250), (2, false));
    assert_eq!(wait_ticker(&ticks(10), 1), (1, true));
    assert_eq!(wait_ticker(&ticks(10), 99), (1, true));
    assert_eq!(wait_ticker(&ticks(10), 100), (1, true));
    assert_eq!(wait_ticker(&ticks(10), 101), (2, true));
}

#[test]
fn wait_length_is_the_bound_in_ticks_rounded_up() {
    let stream = ticks(64);
    for max in 0..=6000u32 {
        let expected = ((max + 99) / 100) as usize;
        assert_eq!(wait_ticker(&stream, max), (expected, true), "bound {}", max);
    }
}

#[test]
fn a_zero_bound_ends_at_once() {
    assert_eq!(wait_ticker(&ticks(5), 0), (0, true));
    let none: Vec<Option<Event<u8>>> = Vec::new();
    assert_eq!(wait_ticker(&none, 0), (0, true));
    assert_eq!(wait_ticker(&none, 1), (0, false));
}

#[test]
fn other_events_pass_without_counting() {
    let mut stream: Vec<Option<Event<u8>>> = Vec::new();
    for _ in 0..3 {
        stream.push(Some(Event::Other));
        stream.push(None);
        stream.push(Some(Event::Command(7)));
        stream.push(Some(Event::Ticker));
    }
    assert_eq!(wait_ticker(&stream, 300), (12, true));
    assert_eq!(wait_ticker(&stream, 250), (12, true));
    assert_eq!(wait_ticker(&stream, 200), (8, true));
    assert_eq!(wait_ticker(&stream, 400), (12, false));
    let quiet: Vec<Option<Event<u8>>> = (0..50).map(|_| Some(Event::Other)).collect();
    assert_eq!(wait_ticker(&quiet, 100), (50, false));
}

#[test]
fn the_largest_bound_does_not_overflow() {
    let stream = ticks(10);
    assert_eq!(wait_ticker(&stream, u32::MAX), (10, false));
    let mut timer = ElapsedTimer::new(u32::MAX);
    assert!(!timer.record(&Some(Event::<u8>::Ticker)));
    assert_eq!(timer.elapsed_ms(), 100);
}

#[test]
fn timer_counts_ticks_only() {
    let mut timer = ElapsedTimer::new(250);
    assert!(!timer.expired());
    assert_eq!(timer.elapsed_ms(), 0);
    assert!(!timer.record(&Some(Event::<u8>::Ticker)));
    assert_eq!(timer.elapsed_ms(), 100);
    assert!(!timer.record(&Some(Event::<u8>::Other)));
    assert!(!timer.record(&Some(Event::Command(1u8))));
    assert!(!timer.record(&None::<Event<u8>>));
    assert_eq!(timer.elapsed_ms(), 100);
    assert!(!timer.record(&Some(Event::<u8>::Ticker)));
    assert_eq!(timer.elapsed_ms(), 200);
    assert!(timer.record(&Some(Event::<u8>::Ticker)));
    assert_eq!(timer.elapsed_ms(), 300);
    assert!(timer.expired());
}

#[test]
fn an_expired_timer_counts_no_further() {
    let mut timer = ElapsedTimer::new(200);
    timer.record(&Some(Event::<u8>::Ticker));
    assert!(timer.record(&Some(Event::<u8>::Ticker)));
    assert_eq!(timer.elapsed_ms(), 200);
    assert!(timer.record(&Some(Event::<u8>::Ticker)));
    assert!(timer.record(&Some(Event::<u8>::Other)));
    assert_eq!(timer.elapsed_ms(), 200);
    let mut zero = ElapsedTimer::new(0);
    assert!(zero.expired());
    assert!(zero.record(&Some(Event::<u8>::Ticker)));
    assert_eq!(zero.elapsed_ms(), 0);
}

#[test]
fn stepping_the_timer_agrees_with_the_recorded_wait() {
    for max in [0u32, 1, 100, 250, 2000, 2001] {
        let stream = ticks(40);
        let mut timer = ElapsedTimer::new(max);
        let mut seen = 0usize;
        while !timer.expired() && seen < stream.len() {
            timer.record(&stream[seen]);
            seen += 1;
        }
        assert_eq!(wait_ticker(&stream, max), (seen, timer.expired()));
    }
}
