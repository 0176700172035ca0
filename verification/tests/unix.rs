use jobslot::client::ModeChange;
use jobslot::error::ErrorKind;
use jobslot::error::Failure;
use jobslot::error::OsError;
use jobslot::makeflags::child_fifo_value;
use jobslot::unix::acquire_allow_interrupts;
use jobslot::unix::after_pipe2;
use jobslot::unix::available;
use jobslot::unix::create_pipe;
use jobslot::unix::cvt;
use jobslot::unix::cvt_retry_on_interrupt;
use jobslot::unix::dev_fd_path;
use jobslot::unix::fifo_name;
use jobslot::unix::from_env;
use jobslot::unix::get_access_mode;
use jobslot::unix::is_ready;
use jobslot::unix::open;
use jobslot::unix::parse_pipe;
use jobslot::unix::pipe_is_usable;
use jobslot::unix::poll_for_readiness1;
use jobslot::unix::release;
use jobslot::unix::release_byte;
use jobslot::unix::retry_new_fifo;
use jobslot::unix::set_cloexec;
use jobslot::unix::set_fd_flags;
use jobslot::unix::try_acquire;
use jobslot::unix::Acquired;
use jobslot::unix::Auth;
use jobslot::unix::ChildEnv;
use jobslot::unix::Client;
use jobslot::unix::CreatePipe;
use jobslot::unix::FdProbe;
use jobslot::unix::Init;

fn os_error(kind: ErrorKind, code: Option<i32>) -> OsError<&'static str> {
    OsError { kind, code, source: "os" }
}

#[test]
fn ready_on_exactly_one_of_three_events() {
    assert_eq!(is_ready::<()>(0x1), Ok(true));
    assert_eq!(is_ready::<()>(0x8), Ok(true));
    assert_eq!(is_ready::<()>(0x10), Ok(true));
    assert_eq!(is_ready::<()>(0), Ok(false));
    assert_eq!(is_ready::<()>(0x11), Ok(false));
    assert_eq!(is_ready::<()>(0x4), Ok(false));
}

#[test]
fn a_closed_descriptor_is_an_error() {
    assert_eq!(is_ready::<()>(0x20), Err(Failure::InvalidFd));
}

#[test]
fn a_poll_that_reported_nothing_is_not_ready() {
    assert_eq!(poll_for_readiness1::<()>(0, 0x1), Ok(false));
    assert_eq!(poll_for_readiness1::<()>(0, 0x20), Ok(false));
    assert_eq!(poll_for_readiness1::<()>(1, 0x1), Ok(true));
    assert_eq!(poll_for_readiness1::<()>(1, 0), Ok(false));
    assert_eq!(poll_for_readiness1::<()>(1, 0x20), Err(Failure::InvalidFd));
}

#[test]
fn minus_one_is_a_failure() {
    assert_eq!(cvt::<()>(-1), Err(Failure::LastOs));
    assert_eq!(cvt::<()>(0), Ok(0));
    assert_eq!(cvt::<()>(5), Ok(5));
    assert_eq!(cvt::<()>(-2), Ok(-2));
}

#[test]
fn an_interrupted_call_is_made_again() {
    assert_eq!(cvt_retry_on_interrupt(Err(os_error(ErrorKind::Interrupted, Some(4)))), None);
    assert_eq!(
        cvt_retry_on_interrupt(Err(os_error(ErrorKind::Other, Some(9)))),
        Some(Err(Failure::Os("os")))
    );
    assert_eq!(
        cvt_retry_on_interrupt(Err(os_error(ErrorKind::WouldBlock, Some(11)))),
        Some(Err(Failure::Os("os")))
    );
    assert_eq!(cvt_retry_on_interrupt::<()>(Ok(1)), Some(Ok(1)));
}

#[test]
fn access_mode_is_the_low_two_bits() {
    assert_eq!(get_access_mode(-1), None);
    assert_eq!(get_access_mode(0), Some(0));
    assert_eq!(get_access_mode(1), Some(1));
    assert_eq!(get_access_mode(2), Some(2));
    assert_eq!(get_access_mode(0o4002), Some(2));
    assert_eq!(get_access_mode(0o2000001), Some(1));
}

#[test]
fn inherited_descriptors_are_checked() {
    let reader = FdProbe { is_fifo: Some(true), status_flags: 0 };
    let writer = FdProbe { is_fifo: Some(true), status_flags: 1 };
    let both = FdProbe { is_fifo: Some(true), status_flags: 2 };
    let file = FdProbe { is_fifo: Some(false), status_flags: 2 };
    let unknown = FdProbe { is_fifo: None, status_flags: 2 };
    let closed = FdProbe { is_fifo: Some(true), status_flags: -1 };
    assert!(pipe_is_usable(reader, writer));
    assert!(pipe_is_usable(both, both));
    assert!(pipe_is_usable(reader, both));
    assert!(pipe_is_usable(both, writer));
    assert!(!pipe_is_usable(writer, reader));
    assert!(!pipe_is_usable(reader, reader));
    assert!(!pipe_is_usable(writer, writer));
    assert!(!pipe_is_usable(file, writer));
    assert!(!pipe_is_usable(reader, file));
    assert!(!pipe_is_usable(unknown, writer));
    assert!(!pipe_is_usable(reader, unknown));
    assert!(!pipe_is_usable(closed, writer));
    assert!(!pipe_is_usable(reader, closed));
    assert!(!pipe_is_usable(FdProbe { is_fifo: Some(true), status_flags: 3 }, writer));
}

#[test]
fn two_descriptors_are_split_at_the_first_comma() {
    assert_eq!(parse_pipe(b"3,4"), Some((3, 4)));
    assert_eq!(parse_pipe(b"10,11"), Some((10, 11)));
    assert_eq!(parse_pipe(b"-1,-2"), Some((-1, -2)));
    assert_eq!(parse_pipe(b"+3,+4"), Some((3, 4)));
    assert_eq!(parse_pipe(b"3,4,5"), None);
    assert_eq!(parse_pipe(b"3"), None);
    assert_eq!(parse_pipe(b""), None);
    assert_eq!(parse_pipe(b","), None);
    assert_eq!(parse_pipe(b"3,"), None);
    assert_eq!(parse_pipe(b",4"), None);
    assert_eq!(parse_pipe(b"3, 4"), None);
    assert_eq!(parse_pipe(b"a,b"), None);
    assert_eq!(parse_pipe(b"3,\xff"), None);
    assert_eq!(parse_pipe(b"2147483648,1"), None);
}

#[test]
fn open_reads_both_forms() {
    assert_eq!(open(b"fifo:/tmp/x"), Some(Auth::Fifo(b"/tmp/x".to_vec())));
    assert_eq!(open(b"fifo:"), Some(Auth::Fifo(Vec::new())));
    assert_eq!(open(b"fifo:3,4"), Some(Auth::Fifo(b"3,4".to_vec())));
    assert_eq!(open(b"3,4"), Some(Auth::Pipe(3, 4)));
    assert_eq!(open(b"3;4"), None);
    assert_eq!(open(b"fifo"), None);
    assert_eq!(open(b"FIFO:/tmp/x"), None);
    assert_eq!(open(b""), None);
}

#[test]
fn from_env_finds_the_jobserver() {
    let value: &[u8] = b"-j --jobserver-fds=3,4 --jobserver-auth=3,4";
    assert_eq!(from_env(Some(value), None, None), Some(Auth::Pipe(3, 4)));
    let fifo: &[u8] = b"-j --jobserver-auth=fifo:/tmp/f";
    assert_eq!(from_env(None, Some(fifo), None), Some(Auth::Fifo(b"/tmp/f".to_vec())));
    let legacy: &[u8] = b"--jobserver-fds=5,6 -k";
    assert_eq!(from_env(None, None, Some(legacy)), Some(Auth::Pipe(5, 6)));
}

#[test]
fn from_env_takes_bad_text_for_no_jobserver() {
    let bad: &[u8] = b"--jobserver-auth=x,y --jobserver-fds=3,4";
    assert_eq!(from_env(Some(bad), None, None), None);
    let none: &[u8] = b"-j8";
    assert_eq!(from_env(Some(none), None, None), None);
    assert_eq!(from_env(None, None, None), None);
}

#[test]
fn the_last_auth_wins() {
    let value: &[u8] = b"--jobserver-auth=1,2 --jobserver-auth=fifo:/p --jobserver-auth=8,9";
    assert_eq!(from_env(Some(value), None, None), Some(Auth::Pipe(8, 9)));
}

#[test]
fn one_byte_read_is_a_token() {
    assert_eq!(
        acquire_allow_interrupts::<()>(Ok(1), b'|'),
        Ok(Some(Acquired { byte: b'|' }))
    );
    assert_eq!(try_acquire::<()>(Ok(1), b'x'), Ok(Some(Acquired { byte: b'x' })));
}

#[test]
fn a_read_of_nothing_is_the_end() {
    assert_eq!(acquire_allow_interrupts::<()>(Ok(0), 0), Err(Failure::UnexpectedEof));
    assert_eq!(acquire_allow_interrupts::<()>(Ok(2), 0), Err(Failure::UnexpectedEof));
}

#[test]
fn an_empty_pipe_is_no_error() {
    assert_eq!(try_acquire(Err(os_error(ErrorKind::WouldBlock, Some(11))), 0), Ok(None));
    assert_eq!(try_acquire(Err(os_error(ErrorKind::Interrupted, Some(4))), 0), Ok(None));
    assert_eq!(
        acquire_allow_interrupts(Err(os_error(ErrorKind::WouldBlock, Some(11))), 0),
        Ok(None)
    );
}

#[test]
fn a_failed_read_is_handed_on() {
    assert_eq!(
        try_acquire(Err(os_error(ErrorKind::Other, Some(9))), 0),
        Err(Failure::Os("os"))
    );
    assert_eq!(
        acquire_allow_interrupts(Err(os_error(ErrorKind::AlreadyExists, None)), 0),
        Err(Failure::Os("os"))
    );
}

#[test]
fn a_token_goes_back_as_the_byte_it_came_as() {
    assert_eq!(release_byte(Some(&Acquired { byte: b'|' })), b'|');
    assert_eq!(release_byte(Some(&Acquired { byte: 0 })), 0);
    assert_eq!(release_byte(None), b'+');
}

#[test]
fn a_release_writes_one_byte() {
    assert_eq!(release::<()>(1), Ok(()));
    assert_eq!(release::<()>(0), Err(Failure::UnexpectedEof));
    assert_eq!(release::<()>(2), Err(Failure::UnexpectedEof));
}

#[test]
fn pending_bytes_are_free_tokens() {
    assert_eq!(available(0), 0);
    assert_eq!(available(10), 10);
}

fn chunks(limit: usize) -> Vec<Vec<u8>> {
    let mut init = Init::new(limit);
    let mut out = Vec::new();
    while let Some(chunk) = init.next_chunk() {
        out.push(chunk);
    }
    assert_eq!(init.next_chunk(), None);
    out
}

#[test]
fn a_new_pipe_is_filled_in_chunks() {
    assert_eq!(chunks(0), Vec::<Vec<u8>>::new());
    assert_eq!(chunks(3), vec![vec![b'|'; 3]]);
    assert_eq!(chunks(128), vec![vec![b'|'; 128]]);
    assert_eq!(chunks(129), vec![vec![b'|'; 128], vec![b'|'; 1]]);
    assert_eq!(chunks(300), vec![vec![b'|'; 128], vec![b'|'; 128], vec![b'|'; 44]]);
}

#[test]
fn a_new_pipe_gets_one_byte_for_each_token() {
    for limit in [0usize, 1, 127, 128, 129, 255, 256, 257, 1000] {
        let written: usize = chunks(limit).iter().map(|c| c.len()).sum();
        assert_eq!(written, limit);
    }
}

#[test]
fn the_mode_is_set_on_the_read_side() {
    assert_eq!(set_fd_flags(ModeChange::Keep), None);
    assert_eq!(set_fd_flags(ModeChange::SetNonBlocking), Some(0o4000));
    assert_eq!(set_fd_flags(ModeChange::SetBlocking), Some(0));
}

#[test]
fn close_on_exec_flag() {
    assert_eq!(set_cloexec(true), 1);
    assert_eq!(set_cloexec(false), 0);
}

#[test]
fn pipe2_is_tried_while_it_is_thought_to_exist() {
    assert_eq!(create_pipe(true), CreatePipe::Atomic);
    assert_eq!(create_pipe(false), CreatePipe::ThenMark);
}

#[test]
fn a_kernel_without_pipe2_falls_back() {
    assert_eq!(after_pipe2::<()>(Ok(())), Ok(true));
    assert_eq!(after_pipe2(Err(os_error(ErrorKind::Other, Some(38)))), Ok(false));
    assert_eq!(
        after_pipe2(Err(os_error(ErrorKind::Other, Some(24)))),
        Err(Failure::Os("os"))
    );
    assert_eq!(after_pipe2(Err(os_error(ErrorKind::Other, None))), Err(Failure::Os("os")));
}

#[test]
fn a_taken_path_is_tried_again() {
    assert_eq!(retry_new_fifo(os_error(ErrorKind::AlreadyExists, Some(17))), Ok(()));
    assert_eq!(
        retry_new_fifo(os_error(ErrorKind::Other, Some(13))),
        Err(Failure::Os("os"))
    );
}

#[test]
fn paths_are_made_from_numbers() {
    assert_eq!(dev_fd_path(7), b"/dev/fd/7".to_vec());
    assert_eq!(dev_fd_path(123), b"/dev/fd/123".to_vec());
    assert_eq!(fifo_name(0), b"/tmp/__rust_jobslot_fifo_0".to_vec());
    assert_eq!(fifo_name(0xdead_beef), b"/tmp/__rust_jobslot_fifo_deadbeef".to_vec());
    assert_eq!(
        fifo_name(u128::MAX),
        b"/tmp/__rust_jobslot_fifo_ffffffffffffffffffffffffffffffff".to_vec()
    );
}

#[test]
fn a_client_of_an_anonymous_pipe() {
    let c = Client::from_fds(3, 4);
    assert_eq!(c.get_read_fd(), 3);
    assert_eq!(c.get_write_fd(), 4);
    assert_eq!(c.string_arg(), b"3,4".to_vec());
    assert_eq!(c.get_fifo(), None);
    assert!(!c.is_try_acquire_safe());
    assert_eq!(c.fifo_to_remove(), None);
}

#[test]
fn a_client_of_a_new_pipe() {
    let (c, mut init) = Client::new(5, 6, 2);
    assert_eq!(c.string_arg(), b"5,6".to_vec());
    assert_eq!(c.get_fifo(), None);
    assert_eq!(init.next_chunk(), Some(vec![b'|'; 2]));
    assert_eq!(init.next_chunk(), None);
}

#[test]
fn a_client_of_a_named_pipe_it_made() {
    let path = b"/tmp/__rust_jobslot_fifo_1f".to_vec();
    let (c, mut init) = Client::new_fifo(path.clone(), 5, 6, 1);
    assert_eq!(c.get_fifo(), Some(&path));
    assert!(c.is_try_acquire_safe());
    assert_eq!(c.fifo_to_remove(), Some(&path));
    assert_eq!(c.string_arg(), b"5,6".to_vec());
    assert_eq!(init.next_chunk(), Some(vec![b'|'; 1]));
}

#[test]
fn a_client_of_a_named_pipe_it_found() {
    let path = b"/tmp/fifo".to_vec();
    let c = Client::from_fifo(path.clone(), 7, 8, Some(true)).unwrap();
    assert_eq!(c.get_fifo(), Some(&path));
    assert!(c.is_try_acquire_safe());
    assert_eq!(c.fifo_to_remove(), None);
    assert!(Client::from_fifo(path.clone(), 7, 8, Some(false)).is_none());
    assert!(Client::from_fifo(path, 7, 8, None).is_none());
}

#[test]
fn descriptors_are_handed_to_a_child_once() {
    let c = Client::from_fds(3, 4);
    let mut once = c.pre_run();
    assert_eq!(once.take(), Some((3, 4)));
    assert_eq!(once.take(), None);
    assert_eq!(once.take(), None);
}

#[test]
fn a_child_is_handed_descriptors() {
    let c = Client::from_fds(3, 4);
    assert_eq!(
        c.child_env(false),
        ChildEnv {
            names: vec!["CARGO_MAKEFLAGS"],
            value: b"-j --jobserver-fds=3,4 --jobserver-auth=3,4".to_vec(),
            inherit: Some((3, 4)),
        }
    );
    assert_eq!(
        c.child_env(true).names,
        vec!["CARGO_MAKEFLAGS", "MAKEFLAGS", "MFLAGS"]
    );
    assert_eq!(c.child_env_with_fifo(false), c.child_env(false));
}

#[test]
fn a_child_is_handed_a_path() {
    let (c, _) = Client::new_fifo(b"/tmp/f".to_vec(), 3, 4, 0);
    assert_eq!(
        c.child_env_with_fifo(true),
        ChildEnv {
            names: vec!["CARGO_MAKEFLAGS", "MAKEFLAGS", "MFLAGS"],
            value: b"-j --jobserver-auth=fifo:/tmp/f".to_vec(),
            inherit: None,
        }
    );
    assert_eq!(c.child_env(false).inherit, Some((3, 4)));
}

#[test]
fn descriptors_make_the_round_trip() {
    for (read, write) in [(3, 4), (0, 1), (100, 7), (-1, -1), (i32::MAX, i32::MIN)] {
        let parent = Client::from_fds(read, write);
        let env = parent.child_env(true);
        let value: &[u8] = &env.value;
        assert_eq!(from_env(Some(value), None, None), Some(Auth::Pipe(read, write)));
        assert_eq!(from_env(None, Some(value), None), Some(Auth::Pipe(read, write)));
        assert_eq!(from_env(None, None, Some(value)), Some(Auth::Pipe(read, write)));
    }
}

#[test]
fn a_path_makes_the_round_trip() {
    let path = fifo_name(0x0123_4567_89ab_cdef);
    let (parent, _) = Client::new_fifo(path.clone(), 3, 4, 1);
    let env = parent.child_env_with_fifo(false);
    let value: &[u8] = &env.value;
    assert_eq!(from_env(Some(value), None, None), Some(Auth::Fifo(path)));
}

#[test]
fn a_path_with_a_blank_is_cut_short() {
    let value = child_fifo_value(b"/tmp/a b");
    assert_eq!(from_env(Some(&value), None, None), Some(Auth::Fifo(b"/tmp/a".to_vec())));
}
