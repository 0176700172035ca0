use jobslot::client::into_try_acquire_client;
use jobslot::client::ClientInner;
use jobslot::client::IntoTryAcquireClientError;
use jobslot::client::ModeChange;

#[test]
fn the_first_handle_switches_to_non_blocking() {
    let mut inner = ClientInner::new();
    assert_eq!(inner.active_try_acquire_client_count(), 0);
    assert_eq!(inner.enter(), ModeChange::SetNonBlocking);
    assert_eq!(inner.active_try_acquire_client_count(), 1);
    assert_eq!(inner.enter(), ModeChange::Keep);
    assert_eq!(inner.enter(), ModeChange::Keep);
    assert_eq!(inner.active_try_acquire_client_count(), 3);
}

#[test]
fn the_last_handle_switches_back_to_blocking() {
    let mut inner = ClientInner::new();
    inner.enter();
    inner.enter();
    assert_eq!(inner.cleanup(), ModeChange::Keep);
    assert_eq!(inner.cleanup(), ModeChange::SetBlocking);
    assert_eq!(inner.active_try_acquire_client_count(), 0);
    assert_eq!(inner.enter(), ModeChange::SetNonBlocking);
}

#[test]
fn the_mode_follows_the_count() {
    let mut inner = ClientInner::new();
    let mut nonblocking = false;
    let script = [true, true, false, true, false, false, true, false];
    for enter in script {
        let change = if enter { inner.enter() } else { inner.cleanup() };
        match change {
            ModeChange::Keep => {}
            ModeChange::SetNonBlocking => nonblocking = true,
            ModeChange::SetBlocking => nonblocking = false,
        }
        assert_eq!(nonblocking, inner.active_try_acquire_client_count() >= 1);
    }
}

#[test]
fn a_named_pipe_can_be_polled() {
    assert_eq!(into_try_acquire_client::<u8, ()>(7, Ok(()), true), Ok(7));
}

#[test]
fn an_anonymous_pipe_is_handed_back_with_a_warning() {
    assert_eq!(
        into_try_acquire_client::<u8, ()>(7, Ok(()), false),
        Err(IntoTryAcquireClientError::IncompatibleWithOlderMake(7))
    );
}

#[test]
fn a_failed_switch_is_an_error() {
    assert_eq!(
        into_try_acquire_client(7u8, Err("denied"), true),
        Err(IntoTryAcquireClientError::IoError("denied"))
    );
    assert_eq!(
        into_try_acquire_client(7u8, Err("denied"), false),
        Err(IntoTryAcquireClientError::IoError("denied"))
    );
}
