use std::task::Context;
use std::task::Poll;
use std::task::Waker;

use jobslot::async_client::after_readiness;
use jobslot::async_client::after_try_acquire;
use jobslot::async_client::poll_fn;
use jobslot::async_client::PollAcquire;
use jobslot::async_client::Readiness;

#[test]
fn poll_fn_calls_its_function() {
    let mut calls = 0u32;
    let mut polled = poll_fn(|_cx: &mut Context<'_>| {
        calls += 1;
        if calls < 3 {
            Poll::Pending
        } else {
            Poll::Ready(calls)
        }
    });
    let mut cx = Context::from_waker(Waker::noop());
    assert_eq!(polled.poll(&mut cx), Poll::Pending);
    assert_eq!(polled.poll(&mut cx), Poll::Pending);
    assert_eq!(polled.poll(&mut cx), Poll::Ready(3));
}

#[test]
fn a_poll_that_is_not_ready_is_pending() {
    assert_eq!(
        after_readiness::<u8, ()>(Readiness::Pending),
        Some(PollAcquire::Pending)
    );
}

#[test]
fn a_poll_that_is_ready_tries_to_take_a_token() {
    assert_eq!(after_readiness::<u8, ()>(Readiness::Ready), None);
}

#[test]
fn a_failed_readiness_ends_the_poll() {
    assert_eq!(
        after_readiness::<u8, &str>(Readiness::Failed("gone")),
        Some(PollAcquire::Ready(Err("gone")))
    );
}

#[test]
fn a_token_ends_the_poll() {
    assert_eq!(
        after_try_acquire::<u8, ()>(Ok(Some(9))),
        Some(PollAcquire::Ready(Ok(9)))
    );
}

#[test]
fn a_lost_race_clears_readiness_and_waits_again() {
    assert_eq!(after_try_acquire::<u8, ()>(Ok(None)), None);
}

#[test]
fn a_failed_attempt_ends_the_poll() {
    assert_eq!(
        after_try_acquire::<u8, &str>(Err("broken")),
        Some(PollAcquire::Ready(Err("broken")))
    );
}

#[test]
fn readiness_does_not_promise_a_token() {
    let attempts: [Result<Option<u8>, ()>; 3] = [Ok(None), Ok(None), Ok(Some(1))];
    let mut rounds = 0;
    let mut outcome = None;
    for attempt in attempts {
        assert_eq!(after_readiness::<u8, ()>(Readiness::Ready), None);
        rounds += 1;
        if let Some(done) = after_try_acquire(attempt) {
            outcome = Some(done);
            break;
        }
    }
    assert_eq!(rounds, 3);
    assert_eq!(outcome, Some(PollAcquire::Ready(Ok(1))));
}
