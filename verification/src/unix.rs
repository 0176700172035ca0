//! The pipe backend: a jobserver is a pipe, anonymous or named, that holds
//! one byte for each token that is free.
//!
//! The caller owns the descriptors and makes the system calls.  This module
//! reads the text that names a pipe, judges what was found out about
//! inherited descriptors, and decides what follows from the result of a
//! read, a write or a poll.

use vstd::prelude::*;
use vstd::slice::slice_subrange;
use vstd::string::StringSliceAdditionalSpecFns;
use crate::bytes::copy_range;
use crate::bytes::find;
use crate::bytes::first_index_of;
use crate::bytes::push_all;
use crate::bytes::starts_with;
use crate::digits::parse_i32;
use crate::digits::parse_i32_spec;
use crate::digits::push_i32;
use crate::digits::signed_decimal;
use crate::client::ModeChange;
use crate::error::ErrorKind;
use crate::error::Failure;
use crate::error::OsError;

verus! {

// The numbers of the operating system.  Each of the following hands out a
// constant of the `libc` crate, with the value that the crate gives it on
// Linux with the GNU C library on x86-64.

/// `libc::POLLIN`: there is data to read.  Its value is 0x1.
#[verifier::external_body]
fn pollin() -> (r: i16)
    ensures
        r == 0x1,
{
    libc::POLLIN
}

/// `libc::POLLERR`: an error condition.  Its value is 0x8.
#[verifier::external_body]
fn pollerr() -> (r: i16)
    ensures
        r == 0x8,
{
    libc::POLLERR
}

/// `libc::POLLHUP`: the other end hung up.  Its value is 0x10.
#[verifier::external_body]
fn pollhup() -> (r: i16)
    ensures
        r == 0x10,
{
    libc::POLLHUP
}

/// `libc::POLLNVAL`: the descriptor is not open.  Its value is 0x20.
#[verifier::external_body]
fn pollnval() -> (r: i16)
    ensures
        r == 0x20,
{
    libc::POLLNVAL
}

/// `libc::O_RDONLY`: open for reading only.  Its value is 0.
#[verifier::external_body]
fn o_rdonly() -> (r: i32)
    ensures
        r == 0,
{
    libc::O_RDONLY
}

/// `libc::O_WRONLY`: open for writing only.  Its value is 1.
#[verifier::external_body]
fn o_wronly() -> (r: i32)
    ensures
        r == 1,
{
    libc::O_WRONLY
}

/// `libc::O_RDWR`: open for reading and writing.  Its value is 2.
#[verifier::external_body]
fn o_rdwr() -> (r: i32)
    ensures
        r == 2,
{
    libc::O_RDWR
}

/// `libc::O_ACCMODE`: the bits of the status flags that hold the access
/// mode.  Its value is 3.
#[verifier::external_body]
fn o_accmode() -> (r: i32)
    ensures
        r == 3,
{
    libc::O_ACCMODE
}

/// `libc::FD_CLOEXEC`: the descriptor is closed when the process runs
/// another program.  Its value is 1.
#[verifier::external_body]
fn fd_cloexec() -> (r: i32)
    ensures
        r == 1,
{
    libc::FD_CLOEXEC
}

/// `libc::O_NONBLOCK`: reads that find nothing fail and do not wait.  Its
/// value is 2048.
#[verifier::external_body]
fn o_nonblock() -> (r: i32)
    ensures
        r == 2048,
{
    libc::O_NONBLOCK
}

/// `libc::ENOSYS`: the system call does not exist.  Its value is 38.
#[verifier::external_body]
fn enosys() -> (r: i32)
    ensures
        r == 38,
{
    libc::ENOSYS
}

/// Whether the events that `poll` reported of the read side make a read
/// worth trying.  They do when they are exactly `POLLERR` (0x8), `POLLHUP`
/// (0x10) or `POLLIN` (0x1).  `POLLNVAL` (0x20), a descriptor that is not
/// open, is an error.  Any other events, a mix of these too, do not.
pub open spec fn is_ready_spec<E>(revents: i16) -> Result<bool, Failure<E>> {
    if revents == 0x8 || revents == 0x10 || revents == 0x1 {
        Ok(true)
    } else if revents == 0x20 {
        Err(Failure::InvalidFd)
    } else {
        Ok(false)
    }
}

/// Whether the events that `poll` reported make a read worth trying.
pub fn is_ready<E>(revents: i16) -> (r: Result<bool, Failure<E>>)
    ensures
        r == is_ready_spec::<E>(revents),
{
    if revents == pollerr() || revents == pollhup() || revents == pollin() {
        Ok(true)
    } else if revents == pollnval() {
        Err(Failure::InvalidFd)
    } else {
        Ok(false)
    }
}

/// Whether a wait for the read side is over, given the number of
/// descriptors that `poll` reported and the events of the read side.  With
/// nothing reported the events are not looked at.
pub fn poll_for_readiness1<E>(reported: i32, revents: i16) -> (r: Result<bool, Failure<E>>)
    ensures
        r == if reported == 0 {
            Ok(false)
        } else {
            is_ready_spec::<E>(revents)
        },
{
    if reported != 0 {
        is_ready(revents)
    } else {
        Ok(false)
    }
}

/// The result of a system call that returns -1 for failure.
pub fn cvt<E>(t: i32) -> (r: Result<i32, Failure<E>>)
    ensures
        r == if t == -1 {
            Err::<i32, Failure<E>>(Failure::LastOs)
        } else {
            Ok(t)
        },
{
    if t == -1 {
        Err(Failure::LastOs)
    } else {
        Ok(t)
    }
}

/// What to do with the result of a system call that a signal may
/// interrupt: `None` to make the call again, else the result to go on
/// with.
pub fn cvt_retry_on_interrupt<E>(res: Result<i32, OsError<E>>) -> (r: Option<Result<i32, Failure<E>>>)
    ensures
        r == match res {
            Ok(t) => Some(Ok::<i32, Failure<E>>(t)),
            Err(e) => if e.kind == ErrorKind::Interrupted {
                None
            } else {
                Some(Err(Failure::Os(e.source)))
            },
        },
{
    match res {
        Ok(t) => Some(Ok(t)),
        Err(e) => match e.kind {
            ErrorKind::Interrupted => None,
            _ => Some(Err(Failure::Os(e.source))),
        },
    }
}

/// The access mode in the status flags of a descriptor, which is their two
/// lowest bits (`O_ACCMODE`); `None` where the flags could not be had,
/// which `fcntl` reports as -1.
pub open spec fn get_access_mode_spec(status_flags: i32) -> Option<i32> {
    if status_flags == -1 {
        None
    } else {
        Some(status_flags & 3)
    }
}

/// The access mode of a descriptor, from what `fcntl(fd, F_GETFL)`
/// returned.
pub fn get_access_mode(status_flags: i32) -> (r: Option<i32>)
    ensures
        r == get_access_mode_spec(status_flags),
{
    if status_flags == -1 {
        None
    } else {
        Some(status_flags & o_accmode())
    }
}

/// What was found out about one inherited descriptor.
#[derive(Clone, Copy, Debug, PartialEq, Eq, Structural)]
pub struct FdProbe {
    /// Whether the descriptor is a pipe; `None` where it could not be
    /// looked at.
    pub is_fifo: Option<bool>,
    /// What `fcntl(fd, F_GETFL)` returned: the status flags, or -1.
    pub status_flags: i32,
}

/// Whether two inherited descriptors can be the two sides of a jobserver:
/// both are pipes, the first is open for reading (`O_RDONLY`, 0) or for
/// both (`O_RDWR`, 2), the second for writing (`O_WRONLY`, 1) or for both.
/// A process that `make` started without handing it the jobserver finds the
/// numbers in its environment, but not such descriptors behind them.
pub open spec fn pipe_is_usable_spec(read: FdProbe, write: FdProbe) -> bool {
    &&& read.is_fifo == Some(true)
    &&& write.is_fifo == Some(true)
    &&& (get_access_mode_spec(read.status_flags) == Some(0i32) || get_access_mode_spec(
        read.status_flags,
    ) == Some(2i32))
    &&& (get_access_mode_spec(write.status_flags) == Some(1i32) || get_access_mode_spec(
        write.status_flags,
    ) == Some(2i32))
}

/// Whether two inherited descriptors can be the two sides of a jobserver.
pub fn pipe_is_usable(read: FdProbe, write: FdProbe) -> (r: bool)
    ensures
        r == pipe_is_usable_spec(read, write),
{
    let read_is_pipe: bool = match read.is_fifo {
        Some(b) => b,
        None => false,
    };
    let write_is_pipe: bool = match write.is_fifo {
        Some(b) => b,
        None => false,
    };
    let can_read: bool = match get_access_mode(read.status_flags) {
        Some(mode) => mode == o_rdonly() || mode == o_rdwr(),
        None => false,
    };
    let can_write: bool = match get_access_mode(write.status_flags) {
        Some(mode) => mode == o_wronly() || mode == o_rdwr(),
        None => false,
    };
    read_is_pipe && write_is_pipe && can_read && can_write
}

/// The two descriptors that `READ,WRITE` names: the text up to the first
/// comma and the text behind it, each a decimal integer of 32 bits.
pub open spec fn parse_pipe_spec(s: Seq<u8>) -> Option<(i32, i32)> {
    let comma = first_index_of(s, 44u8);
    if comma < s.len() {
        match (parse_i32_spec(s.take(comma)), parse_i32_spec(s.skip(comma + 1))) {
            (Some(read), Some(write)) => Some((read, write)),
            _ => None,
        }
    } else {
        None
    }
}

/// Reads the two descriptors out of `READ,WRITE`.
pub fn parse_pipe(s: &[u8]) -> (r: Option<(i32, i32)>)
    ensures
        r == parse_pipe_spec(s@),
{
    let len: usize = s.len();
    match find(s, 44u8) {
        None => None,
        Some(comma) => {
            let head: &[u8] = slice_subrange(s, 0, comma);
            let tail: &[u8] = slice_subrange(s, comma + 1, len);
            assert(head@ =~= s@.take(comma as int));
            assert(tail@ =~= s@.skip(comma + 1));
            match parse_i32(head) {
                None => None,
                Some(read) => match parse_i32(tail) {
                    None => None,
                    Some(write) => Some((read, write)),
                },
            }
        },
    }
}

/// What the text of a jobserver asks to attach to.
#[derive(Debug, PartialEq, Eq)]
pub enum Auth {
    /// The named pipe at this path.
    Fifo(Vec<u8>),
    /// Two descriptors that this process inherited.
    Pipe(i32, i32),
}

/// What an `Auth` stands for in contracts.
pub enum AuthView {
    /// The named pipe at this path.
    Fifo(Seq<u8>),
    /// Two inherited descriptors.
    Pipe(i32, i32),
}

impl View for Auth {
    type V = AuthView;

    open spec fn view(&self) -> AuthView {
        match self {
            Auth::Fifo(path) => AuthView::Fifo(path@),
            Auth::Pipe(read, write) => AuthView::Pipe(*read, *write),
        }
    }
}

/// What an optional `Auth` stands for in contracts.
pub open spec fn auth_view(r: Option<Auth>) -> Option<AuthView> {
    match r {
        Some(auth) => Some(auth@),
        None => None,
    }
}

/// What the text of a jobserver asks to attach to: behind `fifo:` a path,
/// taken as it stands; else the two descriptors of `READ,WRITE`; else
/// nothing.
pub open spec fn open_spec(var: Seq<u8>) -> Option<AuthView> {
    let prefix = "fifo:".spec_bytes();
    if prefix.is_prefix_of(var) {
        Some(AuthView::Fifo(var.skip(prefix.len() as int)))
    } else {
        match parse_pipe_spec(var) {
            Some((read, write)) => Some(AuthView::Pipe(read, write)),
            None => None,
        }
    }
}

/// Reads the text of a jobserver.  Nothing is opened or looked at: that a
/// path leads to a pipe, and that descriptors are the sides of one, is for
/// the caller to find out, and for `from_fifo` and `pipe_is_usable` to
/// judge.
pub fn open(var: &[u8]) -> (r: Option<Auth>)
    ensures
        auth_view(r) == open_spec(var@),
{
    let prefix: &[u8] = "fifo:".as_bytes();
    if starts_with(var, prefix) {
        let path: Vec<u8> = copy_range(var, prefix.len(), var.len());
        assert(path@ =~= var@.skip(prefix@.len() as int));
        Some(Auth::Fifo(path))
    } else {
        match parse_pipe(var) {
            Some((read, write)) => Some(Auth::Pipe(read, write)),
            None => None,
        }
    }
}

/// The jobserver that the environment of this process asks to attach to,
/// given the values of `CARGO_MAKEFLAGS`, `MAKEFLAGS` and `MFLAGS` where
/// they are set.
pub open spec fn from_env_spec(
    cargo_makeflags: Option<Seq<u8>>,
    makeflags: Option<Seq<u8>>,
    mflags: Option<Seq<u8>>,
) -> Option<AuthView> {
    match crate::makeflags::from_env_spec(cargo_makeflags, makeflags, mflags) {
        Some(var) => open_spec(var),
        None => None,
    }
}

/// The jobserver that the environment of this process asks to attach to.
/// Text that names none, or names one badly, gives `None`: the process
/// then works without a jobserver.
pub fn from_env(
    cargo_makeflags: Option<&[u8]>,
    makeflags: Option<&[u8]>,
    mflags: Option<&[u8]>,
) -> (r: Option<Auth>)
    ensures
        auth_view(r) == from_env_spec(
            crate::makeflags::view_of(cargo_makeflags),
            crate::makeflags::view_of(makeflags),
            crate::makeflags::view_of(mflags),
        ),
{
    match crate::makeflags::from_env(cargo_makeflags, makeflags, mflags) {
        Some(var) => open(var),
        None => None,
    }
}

/// The token that was taken out of the pipe: the byte that was read, which
/// goes back in when the token is released.
#[derive(Clone, Copy, Debug, PartialEq, Eq, Structural)]
pub struct Acquired {
    /// The byte that was read.
    pub byte: u8,
}

/// What follows from one read of a single byte from the read side.  One
/// byte is a token.  A read that a signal cut short, or that found the
/// pipe empty, is no failure: there is no token now.  A read that ended
/// without a byte means that the pipe is gone.
pub open spec fn acquire_allow_interrupts_spec<E>(
    read: Result<usize, OsError<E>>,
    byte: u8,
) -> Result<Option<Acquired>, Failure<E>> {
    match read {
        Ok(n) => if n == 1 {
            Ok(Some(Acquired { byte }))
        } else {
            Err(Failure::UnexpectedEof)
        },
        Err(e) => if e.kind == ErrorKind::Interrupted || e.kind == ErrorKind::WouldBlock {
            Ok(None)
        } else {
            Err(Failure::Os(e.source))
        },
    }
}

/// What follows from one read of a single byte: `read` is what the read
/// returned, `byte` what stands in the buffer behind it.
pub fn acquire_allow_interrupts<E>(read: Result<usize, OsError<E>>, byte: u8) -> (r: Result<
    Option<Acquired>,
    Failure<E>,
>)
    ensures
        r == acquire_allow_interrupts_spec(read, byte),
{
    match read {
        Ok(n) => if n == 1 {
            Ok(Some(Acquired { byte }))
        } else {
            Err(Failure::UnexpectedEof)
        },
        Err(e) => match e.kind {
            ErrorKind::Interrupted => Ok(None),
            ErrorKind::WouldBlock => Ok(None),
            _ => Err(Failure::Os(e.source)),
        },
    }
}

/// What follows from the one read that an attempt to take a token without
/// waiting makes: a token, no token, or a failure.
pub fn try_acquire<E>(read: Result<usize, OsError<E>>, byte: u8) -> (r: Result<
    Option<Acquired>,
    Failure<E>,
>)
    ensures
        r == acquire_allow_interrupts_spec(read, byte),
        (read matches Err(e) && e.kind == ErrorKind::WouldBlock) ==> r == Ok::<
            Option<Acquired>,
            Failure<E>,
        >(None),
{
    acquire_allow_interrupts(read, byte)
}

/// The byte that releases a token: the one that was read for it, or `+`
/// where that is not known.
pub fn release_byte(data: Option<&Acquired>) -> (r: u8)
    ensures
        r == match data {
            Some(token) => token.byte,
            None => 43u8,
        },
{
    match data {
        Some(token) => token.byte,
        None => 43u8,
    }
}

/// What follows from the write that releases a token, given the number of
/// bytes that went out: exactly one is a success.
pub fn release<E>(written: usize) -> (r: Result<(), Failure<E>>)
    ensures
        r == if written == 1 {
            Ok::<(), Failure<E>>(())
        } else {
            Err(Failure::UnexpectedEof)
        },
{
    if written == 1 {
        Ok(())
    } else {
        Err(Failure::UnexpectedEof)
    }
}

/// The number of free tokens, given the number of bytes that wait in the
/// pipe as `ioctl(fd, FIONREAD, ..)` reported it.
pub fn available(pending: i32) -> (r: usize)
    requires
        pending >= 0,
    ensures
        r == pending,
{
    pending as usize
}

/// The byte that stands for a token in a pipe that was just made.
pub open spec fn filler() -> u8 {
    124u8
}

/// The most bytes that one write puts into a new pipe.
pub open spec fn chunk_size() -> nat {
    128
}

/// The length of the next write into a pipe that lacks `remaining` bytes:
/// all of them, but no more than a chunk.
pub open spec fn chunk_len(remaining: nat) -> nat {
    if remaining < chunk_size() {
        remaining
    } else {
        chunk_size()
    }
}

/// What is left to write into a new pipe so that it holds one byte for each
/// token.
pub struct Init {
    remaining: usize,
}

impl Init {
    /// The number of bytes that are still to be written.
    pub closed spec fn remaining(&self) -> nat {
        self.remaining as nat
    }

    /// The filling of a pipe for `limit` tokens, with nothing written yet.
    pub fn new(limit: usize) -> (r: Init)
        ensures
            r.remaining() == limit,
    {
        Init { remaining: limit }
    }

    /// The bytes to write next, all of them filler bytes; `None` once the
    /// pipe is full.  The caller writes all of them, and stops at the
    /// first failure.
    pub fn next_chunk(&mut self) -> (r: Option<Vec<u8>>)
        ensures
            final(self).remaining() == old(self).remaining() - chunk_len(old(self).remaining()),
            old(self).remaining() == 0 ==> r is None,
            old(self).remaining() > 0 ==> r is Some && r->Some_0@ == Seq::new(
                chunk_len(old(self).remaining()),
                |i: int| filler(),
            ),
    {
        if self.remaining == 0 {
            return None;
        }
        let n: usize = if self.remaining < 128 {
            self.remaining
        } else {
            128
        };
        let mut chunk: Vec<u8> = Vec::new();
        let mut i: usize = 0;
        while i < n
            invariant
                i <= n,
                chunk@ == Seq::new(i as nat, |k: int| filler()),
            decreases n - i,
        {
            chunk.push(124u8);
            i = i + 1;
            assert(chunk@ =~= Seq::new(i as nat, |k: int| filler()));
        }
        self.remaining = self.remaining - n;
        Some(chunk)
    }
}

/// The number of bytes that all the writes together put into a pipe that
/// lacks `remaining` bytes.
pub open spec fn total_written(remaining: nat) -> nat
    decreases remaining,
{
    if remaining == 0 {
        0
    } else {
        chunk_len(remaining) + total_written((remaining - chunk_len(remaining)) as nat)
    }
}

/// Law: the writes that fill a new pipe put in one byte for each token of
/// the limit, no more and no fewer.
pub proof fn lemma_init_writes_limit(limit: nat)
    ensures
        total_written(limit) == limit,
    decreases limit,
{
    if limit > 0 {
        lemma_init_writes_limit((limit - chunk_len(limit)) as nat);
    }
}

/// The descriptor flags to set with `fcntl(fd, F_SETFD, ..)` so that the
/// descriptor is, or is not, closed across `exec`.
pub fn set_cloexec(set: bool) -> (r: i32)
    ensures
        r == if set {
            1i32
        } else {
            0i32
        },
{
    if set {
        fd_cloexec()
    } else {
        0
    }
}

/// The status flags to set on the read side with `fcntl(fd, F_SETFL, ..)`
/// to change its mode: `O_NONBLOCK` (2048) for non-blocking mode, no flag
/// for blocking mode; `None` where the mode stays as it is.  The write
/// side is never touched: it always blocks.
pub fn set_fd_flags(change: ModeChange) -> (r: Option<i32>)
    ensures
        r == match change {
            ModeChange::Keep => None,
            ModeChange::SetNonBlocking => Some(2048i32),
            ModeChange::SetBlocking => Some(0i32),
        },
{
    match change {
        ModeChange::Keep => None,
        ModeChange::SetNonBlocking => Some(o_nonblock()),
        ModeChange::SetBlocking => Some(0),
    }
}

/// How to make the pipe of a new jobserver.
#[derive(Clone, Copy, Debug, PartialEq, Eq, Structural)]
pub enum CreatePipe {
    /// With `pipe2`, which marks both descriptors close-on-exec as it
    /// makes them.
    Atomic,
    /// With `pipe`, and then one call for each descriptor to mark it.
    ThenMark,
}

/// How to make the pipe of a new jobserver, given whether `pipe2` is still
/// thought to exist.
pub fn create_pipe(pipe2_available: bool) -> (r: CreatePipe)
    ensures
        r == if pipe2_available {
            CreatePipe::Atomic
        } else {
            CreatePipe::ThenMark
        },
{
    if pipe2_available {
        CreatePipe::Atomic
    } else {
        CreatePipe::ThenMark
    }
}

/// What follows from the result of `pipe2`.  `Ok(true)`: the pipe is made.
/// `Ok(false)`: this kernel has no `pipe2`, which it says with `ENOSYS`
/// (38); it is not to be tried again, and the pipe is made the other way.
/// Any other failure is final.
pub fn after_pipe2<E>(res: Result<(), OsError<E>>) -> (r: Result<bool, Failure<E>>)
    ensures
        r == match res {
            Ok(_) => Ok::<bool, Failure<E>>(true),
            Err(e) => if e.code == Some(38i32) {
                Ok(false)
            } else {
                Err(Failure::Os(e.source))
            },
        },
{
    match res {
        Ok(_) => Ok(true),
        Err(e) => {
            let missing: bool = match e.code {
                Some(code) => code == enosys(),
                None => false,
            };
            if missing {
                Ok(false)
            } else {
                Err(Failure::Os(e.source))
            }
        },
    }
}

/// The text that names two descriptors: `READ,WRITE`, both in decimal.
pub open spec fn string_arg_spec(read: i32, write: i32) -> Seq<u8> {
    signed_decimal(read as int) + seq![44u8] + signed_decimal(write as int)
}

/// The path under which a descriptor of this process can be opened anew:
/// `/dev/fd/` and the descriptor in decimal.
pub open spec fn dev_fd_path_spec(fd: i32) -> Seq<u8> {
    "/dev/fd/".spec_bytes() + signed_decimal(fd as int)
}

/// The path under which the descriptor `fd` of this process can be opened
/// anew.  Opened so, the read side of an inherited pipe gets a file
/// description of its own, whose mode no other process shares.
pub fn dev_fd_path(fd: i32) -> (r: Vec<u8>)
    ensures
        r@ == dev_fd_path_spec(fd),
{
    let mut out: Vec<u8> = Vec::new();
    push_all(&mut out, "/dev/fd/".as_bytes());
    push_i32(&mut out, fd);
    out
}

/// The path of a new named pipe: a fixed front part, and `suffix` in
/// lower-case hexadecimal.
pub open spec fn fifo_name_spec(suffix: u128) -> Seq<u8> {
    "/tmp/__rust_jobslot_fifo_".spec_bytes() + crate::digits::lower_hex(suffix as nat)
}

/// The path to try for a new named pipe, made from a random number.
pub fn fifo_name(suffix: u128) -> (r: Vec<u8>)
    ensures
        r@ == fifo_name_spec(suffix),
{
    let mut out: Vec<u8> = Vec::new();
    push_all(&mut out, "/tmp/__rust_jobslot_fifo_".as_bytes());
    crate::digits::push_digits(&mut out, suffix, 16);
    out
}

/// The pipe that a client is attached to: its two descriptors, the path of
/// the named pipe where it has one, and whether this client made the named
/// pipe and so has to remove it in the end.
#[derive(Debug)]
pub struct Client {
    read: i32,
    write: i32,
    path: Option<Vec<u8>>,
    owns_fifo: bool,
}

/// What a `Client` stands for in contracts.
pub struct ClientView {
    /// The descriptor to read tokens from.
    pub read: i32,
    /// The descriptor to write tokens back to.
    pub write: i32,
    /// The path of the named pipe, where the pipe has a name.
    pub path: Option<Seq<u8>>,
    /// Whether this client made the named pipe.
    pub owns_fifo: bool,
}

/// What the variables of a child are set to, and what else the child needs.
#[derive(Debug, PartialEq, Eq)]
pub struct ChildEnv {
    /// The variables to set before the child is started, and to take out
    /// again once it has been.
    pub names: Vec<&'static str>,
    /// The value to set each of them to.
    pub value: Vec<u8>,
    /// The descriptors that have to stay open in the child, where it is
    /// handed descriptors and not a path.
    pub inherit: Option<(i32, i32)>,
}

/// The descriptors that a child is to keep, until they have been handed
/// out once.
#[derive(Debug)]
pub struct PreRun {
    fds: Option<(i32, i32)>,
}

impl PreRun {
    /// The descriptors that are still to be handed out.
    pub closed spec fn pending(&self) -> Option<(i32, i32)> {
        self.fds
    }

    /// The two descriptors to clear the close-on-exec flag of, right
    /// before the child's program is run; nothing when this has been asked
    /// before, so that a command that is run again does not touch
    /// descriptors that may by then be something else.
    pub fn take(&mut self) -> (r: Option<(i32, i32)>)
        ensures
            r == old(self).pending(),
            final(self).pending() is None,
    {
        let fds: Option<(i32, i32)> = self.fds;
        self.fds = None;
        fds
    }
}

impl View for Client {
    type V = ClientView;

    closed spec fn view(&self) -> ClientView {
        ClientView {
            read: self.read,
            write: self.write,
            path: match self.path {
                Some(p) => Some(p@),
                None => None,
            },
            owns_fifo: self.owns_fifo,
        }
    }
}

impl Client {
    #[verifier::type_invariant]
    spec fn inv(self) -> bool {
        self.owns_fifo ==> self.path is Some
    }

    /// The client of an anonymous pipe that was just made for `limit`
    /// tokens, and what is to be written into the pipe before it is one.
    pub fn new(read: i32, write: i32, limit: usize) -> (r: (Client, Init))
        ensures
            r.0@ == (ClientView { read, write, path: None, owns_fifo: false }),
            r.1.remaining() == limit,
    {
        (Client::from_fds(read, write), Init::new(limit))
    }

    /// The client of an anonymous pipe with these two descriptors.
    pub fn from_fds(read: i32, write: i32) -> (r: Client)
        ensures
            r@ == (ClientView { read, write, path: None, owns_fifo: false }),
    {
        Client { read, write, path: None, owns_fifo: false }
    }

    /// The client of a named pipe that exists already and was opened at
    /// `path`, if what was opened is a pipe at all: `is_fifo` says so, and
    /// is `None` where it could not be found out.  The pipe is not this
    /// client's to remove.
    pub fn from_fifo(path: Vec<u8>, read: i32, write: i32, is_fifo: Option<bool>) -> (r: Option<
        Client,
    >)
        ensures
            is_fifo == Some(true) ==> r is Some && r->Some_0@ == (ClientView {
                read,
                write,
                path: Some(path@),
                owns_fifo: false,
            }),
            is_fifo != Some(true) ==> r is None,
    {
        match is_fifo {
            Some(true) => Some(Client { read, write, path: Some(path), owns_fifo: false }),
            _ => None,
        }
    }

    /// The client of a named pipe that was just made at `path` for `limit`
    /// tokens, and what is to be written into the pipe before it is one.
    /// The pipe is this client's to remove.
    pub fn new_fifo(path: Vec<u8>, read: i32, write: i32, limit: usize) -> (r: (Client, Init))
        ensures
            r.0@ == (ClientView { read, write, path: Some(path@), owns_fifo: true }),
            r.1.remaining() == limit,
    {
        (Client { read, write, path: Some(path), owns_fifo: true }, Init::new(limit))
    }

    /// The descriptor to read tokens from.
    pub fn get_read_fd(&self) -> (r: i32)
        ensures
            r == self@.read,
    {
        self.read
    }

    /// The descriptor to write tokens back to.
    pub fn get_write_fd(&self) -> (r: i32)
        ensures
            r == self@.write,
    {
        self.write
    }

    /// The text that names this pipe by its descriptors.
    pub fn string_arg(&self) -> (r: Vec<u8>)
        ensures
            r@ == string_arg_spec(self@.read, self@.write),
    {
        let mut out: Vec<u8> = Vec::new();
        push_i32(&mut out, self.read);
        out.push(44u8);
        push_i32(&mut out, self.write);
        assert(out@ =~= string_arg_spec(self.read, self.write));
        out
    }

    /// The path of the named pipe, where the pipe has a name.
    pub fn get_fifo(&self) -> (r: Option<&Vec<u8>>)
        ensures
            match r {
                Some(p) => self@.path == Some(p@),
                None => self@.path is None,
            },
    {
        self.path.as_ref()
    }

    /// Whether the read side can be put into non-blocking mode without
    /// harm to others.  An anonymous pipe shares its mode with every
    /// process that inherited it, an older `make` among them, which expects
    /// its reads to wait; a pipe opened by name has a mode of its own.
    pub fn is_try_acquire_safe(&self) -> (r: bool)
        ensures
            r == (self@.path is Some),
    {
        self.path.is_some()
    }

    /// The named pipe to remove when this client goes away: the one it
    /// made, if it made one.
    pub fn fifo_to_remove(&self) -> (r: Option<&Vec<u8>>)
        ensures
            match r {
                Some(p) => self@.owns_fifo && self@.path == Some(p@),
                None => !self@.owns_fifo,
            },
    {
        proof {
            use_type_invariant(self);
        }
        if self.owns_fifo {
            self.path.as_ref()
        } else {
            None
        }
    }

    /// The descriptors that a child started with them in its environment
    /// has to keep open.
    pub fn pre_run(&self) -> (r: PreRun)
        ensures
            r.pending() == Some((self@.read, self@.write)),
    {
        PreRun { fds: Some((self.read, self.write)) }
    }

    /// How to hand this jobserver to a child by its descriptors, which
    /// every version of `make` understands: the variables to set, for
    /// `cargo` alone or for `make` as well, their value, and the
    /// descriptors that the child has to inherit.
    pub fn child_env(&self, for_make: bool) -> (r: ChildEnv)
        ensures
            crate::makeflags::names_view(r.names@) == crate::makeflags::env_names_spec(for_make),
            r.value@ == crate::makeflags::child_value_spec(
                string_arg_spec(self@.read, self@.write),
            ),
            r.inherit == Some((self@.read, self@.write)),
    {
        let arg: Vec<u8> = self.string_arg();
        ChildEnv {
            names: crate::makeflags::env_names(for_make),
            value: crate::makeflags::child_value(arg.as_slice()),
            inherit: Some((self.read, self.write)),
        }
    }

    /// How to hand this jobserver to a child by the path of its named
    /// pipe, which needs no descriptor to be inherited but which a `make`
    /// before 4.4 does not understand.  A client without a named pipe hands
    /// on its descriptors, as `child_env` does.
    pub fn child_env_with_fifo(&self, for_make: bool) -> (r: ChildEnv)
        ensures
            crate::makeflags::names_view(r.names@) == crate::makeflags::env_names_spec(for_make),
            match self@.path {
                Some(path) => r.value@ == crate::makeflags::child_fifo_value_spec(path)
                    && r.inherit is None,
                None => r.value@ == crate::makeflags::child_value_spec(
                    string_arg_spec(self@.read, self@.write),
                ) && r.inherit == Some((self@.read, self@.write)),
            },
    {
        match &self.path {
            Some(path) => ChildEnv {
                names: crate::makeflags::env_names(for_make),
                value: crate::makeflags::child_fifo_value(path.as_slice()),
                inherit: None,
            },
            None => self.child_env(for_make),
        }
    }
}

/// What follows when a named pipe could not be made at the path that was
/// tried: `Ok` to try the next path, because this one is taken; any other
/// failure is final.
pub fn retry_new_fifo<E>(err: OsError<E>) -> (r: Result<(), Failure<E>>)
    ensures
        r == if err.kind == ErrorKind::AlreadyExists {
            Ok::<(), Failure<E>>(())
        } else {
            Err(Failure::Os(err.source))
        },
{
    match err.kind {
        ErrorKind::AlreadyExists => Ok(()),
        _ => Err(Failure::Os(err.source)),
    }
}

/// A decimal integer is written with digits and a minus sign, and with
/// nothing else.
proof fn lemma_signed_decimal_bytes(v: i32)
    ensures
        signed_decimal(v as int).len() >= 1,
        forall|i: int|
            0 <= i < signed_decimal(v as int).len() ==> {
                let b = #[trigger] signed_decimal(v as int)[i];
                b == 45 || 48 <= b <= 57
            },
{
    if v < 0 {
        crate::digits::lemma_decimal_round_trip((-(v as int)) as nat);
        let d = crate::digits::decimal((-(v as int)) as nat);
        assert forall|i: int| 0 <= i < signed_decimal(v as int).len() implies {
            let b = #[trigger] signed_decimal(v as int)[i];
            b == 45 || 48 <= b <= 57
        } by {
            if i > 0 {
                assert(signed_decimal(v as int)[i] == d[i - 1]);
                assert(crate::digits::is_decimal_digit(d[i - 1]));
            }
        }
    } else {
        crate::digits::lemma_decimal_round_trip(v as nat);
        let d = crate::digits::decimal(v as nat);
        assert forall|i: int| 0 <= i < signed_decimal(v as int).len() implies {
            let b = #[trigger] signed_decimal(v as int)[i];
            b == 45 || 48 <= b <= 57
        } by {
            assert(crate::digits::is_decimal_digit(d[i]));
        }
    }
}

/// Law: the text that names a pipe by its descriptors reads back as those
/// descriptors, and holds no whitespace.
pub proof fn lemma_string_arg_round_trip(read: i32, write: i32)
    ensures
        open_spec(string_arg_spec(read, write)) == Some(AuthView::Pipe(read, write)),
        crate::makeflags::no_whitespace(string_arg_spec(read, write)),
{
    let head = signed_decimal(read as int);
    let tail = signed_decimal(write as int);
    let s = string_arg_spec(read, write);
    lemma_signed_decimal_bytes(read);
    lemma_signed_decimal_bytes(write);
    crate::digits::lemma_parse_signed_decimal(read);
    crate::digits::lemma_parse_signed_decimal(write);
    let at = head.len() as int;
    assert(s.len() == head.len() + 1 + tail.len());
    assert forall|j: int| 0 <= j < at implies s[j] != 44u8 by {
        assert(s[j] == head[j]);
    }
    assert(s[at] == 44u8);
    crate::bytes::lemma_first_index_is(s, 44u8, at);
    assert(s.take(at) =~= head);
    assert(s.skip(at + 1) =~= tail);
    assert(s[0] == head[0]);
    reveal_strlit("fifo:");
    vstd::string::is_ascii_spec_bytes("fifo:");
    assert(vstd::string::is_ascii("fifo:"));
    let prefix = "fifo:".spec_bytes();
    assert(prefix[0] == 102u8);
    if prefix.is_prefix_of(s) {
        assert(s.subrange(0, prefix.len() as int)[0] == prefix[0]);
    }
    assert forall|i: int| 0 <= i < s.len() implies !crate::makeflags::is_whitespace_spec(
        #[trigger] s[i],
    ) by {
        if i < at {
            assert(s[i] == head[i]);
        } else if i > at {
            assert(s[i] == tail[i - at - 1]);
        }
    }
}

/// Law (round trip by descriptors): the value that a client makes for a
/// child from its two descriptors, found by the child in its
/// `CARGO_MAKEFLAGS`, asks the child to attach to those two descriptors,
/// whatever else its environment holds.
pub proof fn lemma_round_trip_pipe(
    read: i32,
    write: i32,
    makeflags: Option<Seq<u8>>,
    mflags: Option<Seq<u8>>,
)
    ensures
        from_env_spec(
            Some(crate::makeflags::child_value_spec(string_arg_spec(read, write))),
            makeflags,
            mflags,
        ) == Some(AuthView::Pipe(read, write)),
{
    lemma_string_arg_round_trip(read, write);
    crate::makeflags::lemma_child_value_round_trip(string_arg_spec(read, write));
}

/// Law (round trip by path): the value that a client makes for a child
/// from the path of its named pipe, found by the child in its
/// `CARGO_MAKEFLAGS`, asks the child to attach to the pipe at that path.
/// This holds of a path without whitespace: a value is read word by word,
/// and a path with a blank in it is cut short.
pub proof fn lemma_round_trip_fifo(
    path: Seq<u8>,
    makeflags: Option<Seq<u8>>,
    mflags: Option<Seq<u8>>,
)
    requires
        crate::makeflags::no_whitespace(path),
    ensures
        from_env_spec(Some(crate::makeflags::child_fifo_value_spec(path)), makeflags, mflags)
            == Some(AuthView::Fifo(path)),
{
    crate::makeflags::lemma_child_fifo_value_round_trip(path);
    let prefix = "fifo:".spec_bytes();
    let var = prefix + path;
    assert(prefix =~= var.subrange(0, prefix.len() as int));
    assert(var.skip(prefix.len() as int) =~= path);
}

/// Law: the path that is tried for a new named pipe holds no whitespace,
/// whatever number it is made from, so that it comes through a round trip
/// unharmed.
pub proof fn lemma_fifo_name_no_whitespace(suffix: u128)
    ensures
        crate::makeflags::no_whitespace(fifo_name_spec(suffix)),
{
    reveal_strlit("/tmp/__rust_jobslot_fifo_");
    vstd::string::is_ascii_spec_bytes("/tmp/__rust_jobslot_fifo_");
    assert(vstd::string::is_ascii("/tmp/__rust_jobslot_fifo_"));
    let front = "/tmp/__rust_jobslot_fifo_".spec_bytes();
    let hex = crate::digits::lower_hex(suffix as nat);
    crate::digits::lemma_digits_shape(suffix as nat, 16);
    let name = fifo_name_spec(suffix);
    assert forall|i: int| 0 <= i < name.len() implies !crate::makeflags::is_whitespace_spec(
        #[trigger] name[i],
    ) by {
        if i < front.len() {
            assert(name[i] == front[i]);
        } else {
            let k = i - front.len();
            assert(name[i] == hex[k]);
            let d = choose|d: nat| d < 16 && hex[k] == crate::digits::digit_byte(d);
            assert(hex[k] == crate::digits::digit_byte(d));
        }
    }
}

/// Law (round trip of a new named pipe): the value that a client makes
/// for a child from the path of the named pipe that it made itself asks
/// the child to attach to the pipe at that path, whatever number the path
/// was made from.
pub proof fn lemma_round_trip_new_fifo(
    suffix: u128,
    makeflags: Option<Seq<u8>>,
    mflags: Option<Seq<u8>>,
)
    ensures
        from_env_spec(
            Some(crate::makeflags::child_fifo_value_spec(fifo_name_spec(suffix))),
            makeflags,
            mflags,
        ) == Some(AuthView::Fifo(fifo_name_spec(suffix))),
{
    lemma_fifo_name_no_whitespace(suffix);
    lemma_round_trip_fifo(fifo_name_spec(suffix), makeflags, mflags);
}

} // verus!
