use future_timed::{warn_if, WarnIf};
use std::cell::RefCell;
use std::task::Poll;

const MILLIS: u128 = 1_000_000;

#[test]
fn warn_if_exceeds_threshold() {
    let calls = RefCell::new(Vec::new());
    let watch = warn_if(5 * MILLIS, |duration| {
        assert!(duration >= 5 * MILLIS);
        calls.borrow_mut().push(duration);
    });

    // One poll that blocks for 10 milliseconds.
    assert_eq!(watch.poll(3 * MILLIS, 13 * MILLIS, Poll::Ready(())), Poll::Ready(()));

    assert_eq!(*calls.borrow(), vec![10 * MILLIS]);
}

#[test]
fn warn_if_stays_below_threshold() {
    let calls = RefCell::new(Vec::new());
    let watch = warn_if(20 * MILLIS, |duration| calls.borrow_mut().push(duration));

    assert_eq!(watch.poll(3 * MILLIS, 13 * MILLIS, Poll::Ready(())), Poll::Ready(()));

    assert!(calls.borrow().is_empty());
}

#[test]
fn warns_about_every_slow_poll() {
    let calls = RefCell::new(Vec::new());
    let watch = WarnIf::new(100, |duration| calls.borrow_mut().push(duration));
    assert_eq!(watch.threshold(), 100);

    assert_eq!(watch.poll(0, 99, Poll::<u8>::Pending), Poll::Pending);
    assert_eq!(watch.poll(1_000, 1_100, Poll::<u8>::Pending), Poll::Pending);
    assert_eq!(watch.poll(2_000, 2_050, Poll::<u8>::Pending), Poll::Pending);
    assert_eq!(watch.poll(3_000, 3_101, Poll::<u8>::Pending), Poll::Pending);
    assert_eq!(watch.poll(4_000, 9_000, Poll::Ready(42u8)), Poll::Ready(42));
    assert_eq!(watch.poll(9_000, 9_001, Poll::Ready(43u8)), Poll::Ready(43));

    assert_eq!(*calls.borrow(), vec![100, 101, 5_000]);
}

#[test]
fn threshold_is_inclusive() {
    let watch = warn_if(5, |_| {});
    assert!(!watch.is_slow(0));
    assert!(!watch.is_slow(4));
    assert!(watch.is_slow(5));
    assert!(watch.is_slow(6));
    assert!(watch.is_slow(u128::MAX));
}

#[test]
fn threshold_of_zero_warns_about_every_poll() {
    let calls = RefCell::new(Vec::new());
    let watch = warn_if(0, |duration| calls.borrow_mut().push(duration));

    assert!(watch.poll(10, 10, Poll::<()>::Pending).is_pending());
    assert!(watch.poll(20, 15, Poll::<()>::Pending).is_pending());
    assert!(watch.poll(30, 37, Poll::Ready(())).is_ready());

    assert_eq!(*calls.borrow(), vec![0, 0, 7]);
}

#[test]
fn waiting_between_polls_does_not_count() {
    let calls = RefCell::new(Vec::new());
    let watch = warn_if(50, |duration| calls.borrow_mut().push(duration));

    assert!(watch.poll(0, 10, Poll::<()>::Pending).is_pending());
    assert!(watch.poll(1_000, 1_010, Poll::<()>::Pending).is_pending());
    assert!(watch.poll(5_000, 5_049, Poll::Ready(())).is_ready());

    assert!(calls.borrow().is_empty());
}
