use clock_beacon::tick::{StreamStatus, TickEvent, TickOverflow, TickStream};
use clock_beacon::wait::Poll;

fn ev(n: usize) -> TickEvent {
    TickEvent::new(n).unwrap()
}

#[test]
fn tick_event_is_positive() {
    assert!(TickEvent::new(0).is_none());
    assert_eq!(ev(3).get(), 3);
}

#[test]
fn empty_stream_is_pending() {
    let mut s = TickStream::new(10);
    assert_eq!(s.poll_next(), Poll::Pending);
    assert_eq!(s.status(), StreamStatus::Open);
}

#[test]
fn pulses_coalesce_into_one_event() {
    let mut s = TickStream::new(100);
    s.record(1);
    s.record(1);
    s.record(1);
    assert_eq!(s.pending(), 3);
    assert_eq!(s.poll_next(), Poll::Ready(Some(Ok(ev(3)))));
    assert_eq!(s.poll_next(), Poll::Pending);
    s.record(1);
    assert_eq!(s.poll_next(), Poll::Ready(Some(Ok(ev(1)))));
}

#[test]
fn accumulator_may_fill_to_capacity() {
    let mut s = TickStream::new(usize::MAX);
    s.record(usize::MAX - 1);
    s.record(1);
    assert_eq!(s.status(), StreamStatus::Open);
    assert_eq!(s.poll_next(), Poll::Ready(Some(Ok(ev(usize::MAX)))));
}

#[test]
fn overflow_yields_one_error_then_ends() {
    let mut s = TickStream::new(4);
    s.record(3);
    s.record(2);
    assert_eq!(s.status(), StreamStatus::Overflowed);
    s.record(1);
    assert_eq!(s.poll_next(), Poll::Ready(Some(Ok(ev(3)))));
    assert_eq!(s.poll_next(), Poll::Ready(Some(Err(TickOverflow))));
    assert_eq!(s.status(), StreamStatus::Terminated);
    for _ in 0..5 {
        s.record(1);
        assert_eq!(s.poll_next(), Poll::Ready(None));
    }
}

#[test]
fn overflow_with_nothing_pending() {
    let mut s = TickStream::new(usize::MAX);
    s.record(usize::MAX);
    assert_eq!(s.poll_next(), Poll::Ready(Some(Ok(ev(usize::MAX)))));
    s.record(usize::MAX);
    s.record(1);
    assert_eq!(s.poll_next(), Poll::Ready(Some(Ok(ev(usize::MAX)))));
    let mut s = TickStream::new(0);
    s.record(1);
    assert_eq!(s.pending(), 0);
    assert_eq!(s.poll_next(), Poll::Ready(Some(Err(TickOverflow))));
    assert_eq!(s.poll_next(), Poll::Ready(None));
    assert_eq!(s.poll_next(), Poll::Ready(None));
}
