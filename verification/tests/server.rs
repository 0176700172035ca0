use jobslot::fallback::Acquired;
use jobslot::fallback::Client;

fn take(c: &mut Client<u32>) -> Acquired {
    c.try_acquire().unwrap()
}

#[test]
fn server_smoke() {
    let mut c: Client<u32> = Client::new(1);
    let a = take(&mut c);
    c.release(Some(&a));
    let a = take(&mut c);
    c.release(Some(&a));

    let a = c.try_acquire().unwrap();
    c.release(Some(&a));
    let a = c.try_acquire().unwrap();
    c.release(Some(&a));

    let a = c.poll_acquire(1).unwrap();
    c.release(Some(&a));
    let a = c.poll_acquire(2).unwrap();
    c.release(Some(&a));
}

#[test]
fn server_multiple() {
    let mut c: Client<u32> = Client::new(2);
    let a = take(&mut c);
    let b = take(&mut c);
    c.release(Some(&a));
    c.release(Some(&b));

    let a = c.try_acquire().unwrap();
    let b = c.try_acquire().unwrap();
    c.release(Some(&a));
    c.release(Some(&b));

    let a = c.poll_acquire(1).unwrap();
    let b = c.poll_acquire(2).unwrap();
    c.release(Some(&a));
    c.release(Some(&b));
}

#[test]
fn server_available() {
    let mut c: Client<u32> = Client::new(10);
    assert_eq!(c.available(), 10);
    let a = take(&mut c);
    assert_eq!(c.available(), 9);
    c.release(Some(&a));
    assert_eq!(c.available(), 10);
}

#[test]
fn server_none_available() {
    let mut c: Client<u32> = Client::new(2);
    assert_eq!(c.available(), 2);
    let a = take(&mut c);
    assert_eq!(c.available(), 1);
    let b = take(&mut c);
    assert_eq!(c.available(), 0);
    c.release(Some(&a));
    assert_eq!(c.available(), 1);
    c.release(Some(&b));
    assert_eq!(c.available(), 2);
}

#[test]
fn server_blocks() {
    let mut c: Client<u32> = Client::new(1);
    let a = take(&mut c);
    let mut hit = false;
    if c.try_acquire().is_some() {
        hit = true;
    }
    assert!(!hit);
    c.release(Some(&a));
    if c.try_acquire().is_some() {
        hit = true;
    }
    assert!(hit);
}

#[test]
fn zero_client() {
    let mut client: Client<u32> = Client::new(0);
    for _ in 0..1000 {
        assert!(client.try_acquire().is_none());
        assert!(client.poll_acquire(0).is_none());
    }
    assert_eq!(client.available(), 0);
}

#[test]
fn fresh_pool_has_its_limit_free() {
    for limit in [0usize, 1, 2, 7, 128, 1000] {
        let c: Client<u32> = Client::new(limit);
        assert_eq!(c.available(), limit);
    }
}

#[test]
fn acquires_count_down_from_the_limit() {
    let limit = 5usize;
    let mut c: Client<u32> = Client::new(limit);
    for n in 1..=limit {
        assert!(c.try_acquire().is_some());
        assert_eq!(c.available(), limit - n);
    }
    assert!(c.try_acquire().is_none());
    assert_eq!(c.available(), 0);
}

#[test]
fn tokens_are_conserved() {
    let limit = 3usize;
    let mut c: Client<u32> = Client::new(limit);
    let mut held: Vec<Acquired> = Vec::new();
    let script = [true, true, false, true, true, true, false, false, true, false, false, false];
    for acquire in script {
        if acquire {
            if let Some(token) = c.try_acquire() {
                held.push(token);
            }
        } else if let Some(token) = held.pop() {
            c.release(Some(&token));
        }
        assert_eq!(held.len() + c.available(), limit);
    }
    assert_eq!(c.available(), limit);
}

#[test]
fn try_acquire_on_a_drained_pool_gives_nothing() {
    let mut c: Client<u32> = Client::new(1);
    let _a = take(&mut c);
    assert_eq!(c.available(), 0);
    assert_eq!(c.try_acquire(), None);
    assert_eq!(c.available(), 0);
}

#[test]
fn capacity_one_goes_up_and_down() {
    let mut c: Client<u32> = Client::new(1);
    assert_eq!(c.available(), 1);
    let a = take(&mut c);
    assert_eq!(c.available(), 0);
    c.release(Some(&a));
    assert_eq!(c.available(), 1);
    let b = take(&mut c);
    assert_eq!(c.available(), 0);
    c.release(Some(&b));
    assert_eq!(c.available(), 1);
}

#[test]
fn capacity_two_third_taker_waits_for_a_release() {
    let mut c: Client<u32> = Client::new(2);
    let a = c.poll_acquire(1);
    let b = c.poll_acquire(2);
    assert!(a.is_some());
    assert!(b.is_some());
    assert_eq!(c.poll_acquire(3), None);
    let woken = c.release(a.as_ref());
    assert_eq!(woken, vec![3]);
    assert!(c.poll_acquire(3).is_some());
    assert_eq!(c.available(), 0);
}

#[test]
fn release_wakes_every_waiter_in_order() {
    let mut c: Client<u32> = Client::new(0);
    assert!(c.poll_acquire(10).is_none());
    assert!(c.poll_acquire(20).is_none());
    assert!(c.poll_acquire(30).is_none());
    assert_eq!(c.release(None), vec![10, 20, 30]);
    assert_eq!(c.release(None), Vec::<u32>::new());
    assert_eq!(c.available(), 2);
}

#[test]
fn release_without_a_token_lends_one() {
    let mut c: Client<u32> = Client::new(1);
    c.release(None);
    assert_eq!(c.available(), 2);
}

#[test]
fn a_jobserver_within_a_process_cannot_be_attached_to() {
    assert!(Client::<u32>::open(b"3,4").is_none());
    assert!(Client::<u32>::open(b"fifo:/tmp/x").is_none());
}
