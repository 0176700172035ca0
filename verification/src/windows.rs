//! The semaphore backend: a jobserver is a named semaphore whose count is
//! the number of tokens that are free.
//!
//! The caller owns the handle and makes the system calls.  This module
//! decides with what count a semaphore is made, what name is tried for it,
//! and what follows from the result of a wait or a release.

use vstd::prelude::*;
use vstd::string::StringSliceAdditionalSpecFns;
use crate::bytes::first_index_of;
use crate::bytes::push_all;
use crate::error::Failure;
use crate::error::OsError;

verus! {

// The numbers of the operating system.  Each of the following hands out a
// constant of the `windows-sys` crate, with the value that the crate gives
// it.

/// `windows_sys::Win32::Foundation::WAIT_OBJECT_0`: the wait ended because
/// the object was signalled.  Its value is 0.
#[verifier::external_body]
fn wait_object_0() -> (r: u32)
    ensures
        r == 0,
{
    windows_sys::Win32::Foundation::WAIT_OBJECT_0
}

/// `windows_sys::Win32::Foundation::WAIT_TIMEOUT`: the wait ended because
/// its time was up.  Its value is 258.
#[verifier::external_body]
fn wait_timeout() -> (r: u32)
    ensures
        r == 258,
{
    windows_sys::Win32::Foundation::WAIT_TIMEOUT
}

/// `windows_sys::Win32::Foundation::WAIT_FAILED`: the wait failed.  Its
/// value is 0xFFFFFFFF.
#[verifier::external_body]
fn wait_failed() -> (r: u32)
    ensures
        r == 0xFFFF_FFFF,
{
    windows_sys::Win32::Foundation::WAIT_FAILED
}

/// `windows_sys::Win32::Foundation::WAIT_ABANDONED`: the wait ended
/// because the owner of the object went away.  Its value is 128.
#[verifier::external_body]
fn wait_abandoned() -> (r: u32)
    ensures
        r == 128,
{
    windows_sys::Win32::Foundation::WAIT_ABANDONED
}

/// `windows_sys::Win32::Foundation::ERROR_ALREADY_EXISTS`: the name is
/// taken.  Its value is 183.
#[verifier::external_body]
fn error_already_exists() -> (r: u32)
    ensures
        r == 183,
{
    windows_sys::Win32::Foundation::ERROR_ALREADY_EXISTS
}

/// The token that a wait on the semaphore gave.  It holds nothing.
#[derive(Clone, Copy, Debug, PartialEq, Eq, Structural)]
pub struct Acquired;

/// With what a semaphore for a limit is made.
#[derive(Clone, Copy, Debug, PartialEq, Eq, Structural)]
pub struct NewSemaphore {
    /// The count to make the semaphore with, which is also the most that
    /// it can count to.
    pub count: i32,
    /// Whether one token is taken right after the semaphore is made, and
    /// never given back.
    pub take_one: bool,
}

impl NewSemaphore {
    /// The number of tokens that are free once the semaphore is set up.
    pub open spec fn tokens(self) -> int {
        if self.take_one {
            self.count - 1
        } else {
            self.count as int
        }
    }
}

/// With what a semaphore for `limit` tokens is made.  No semaphore can be
/// made with a count of zero: a jobserver without tokens is a semaphore of
/// one, whose one token is taken at once.  A limit that does not fit the
/// count of a semaphore is refused.
pub fn new<E>(limit: usize) -> (r: Result<NewSemaphore, Failure<E>>)
    ensures
        limit > i32::MAX ==> r == Err::<NewSemaphore, Failure<E>>(Failure::LimitTooLarge),
        limit == 0 ==> r == Ok::<NewSemaphore, Failure<E>>(
            NewSemaphore { count: 1, take_one: true },
        ),
        0 < limit <= i32::MAX ==> r == Ok::<NewSemaphore, Failure<E>>(
            NewSemaphore { count: limit as i32, take_one: false },
        ),
        r matches Ok(made) ==> made.tokens() == limit,
{
    if limit > 2147483647 {
        Err(Failure::LimitTooLarge)
    } else if limit == 0 {
        Ok(NewSemaphore { count: 1, take_one: true })
    } else {
        Ok(NewSemaphore { count: limit as i32, take_one: false })
    }
}

/// The name of a new semaphore: a fixed front part, and `suffix` in
/// decimal.
pub open spec fn semaphore_name_spec(suffix: u128) -> Seq<u8> {
    "__rust_jobslot_semaphore_".spec_bytes() + crate::digits::decimal(suffix as nat)
}

/// The name to try for a new semaphore, made from a random number.
pub fn semaphore_name(suffix: u128) -> (r: Vec<u8>)
    ensures
        r@ == semaphore_name_spec(suffix),
{
    let mut out: Vec<u8> = Vec::new();
    push_all(&mut out, "__rust_jobslot_semaphore_".as_bytes());
    crate::digits::push_digits(&mut out, suffix, 10);
    out
}

/// What follows when a semaphore could not be made under the name that was
/// tried: `Ok` to try the next name, because this one is taken; any other
/// failure is final.
pub fn retry_new<E>(err: OsError<E>) -> (r: Result<(), Failure<E>>)
    ensures
        r == if err.code == Some(183i32) {
            Ok::<(), Failure<E>>(())
        } else {
            Err(Failure::Os(err.source))
        },
{
    let taken: bool = match err.code {
        Some(code) => code >= 0 && code as u32 == error_already_exists(),
        None => false,
    };
    if taken {
        Ok(())
    } else {
        Err(Failure::Os(err.source))
    }
}

/// Whether `var` can be the name of a semaphore to attach to: a name is
/// handed to the operating system with a zero byte behind it, and so
/// cannot hold one.
pub fn open(var: &[u8]) -> (r: bool)
    ensures
        r == (first_index_of(var@, 0u8) == var@.len()),
{
    crate::bytes::find(var, 0u8).is_none()
}

/// What follows from a wait on the semaphore, given what
/// `WaitForSingleObject` returned: a token; no token, because the time was
/// up; or a failure.
pub open spec fn acquire_inner_spec<E>(wait: u32) -> Result<Option<Acquired>, Failure<E>> {
    if wait == 0 {
        Ok(Some(Acquired))
    } else if wait == 258 {
        Ok(None)
    } else if wait == 0xFFFF_FFFF {
        Err(Failure::LastOs)
    } else if wait == 128 {
        Err(Failure::WaitAbandoned)
    } else {
        Err(Failure::UnexpectedWait(wait))
    }
}

/// What follows from a wait on the semaphore.
pub fn acquire_inner<E>(wait: u32) -> (r: Result<Option<Acquired>, Failure<E>>)
    ensures
        r == acquire_inner_spec::<E>(wait),
{
    if wait == wait_object_0() {
        Ok(Some(Acquired))
    } else if wait == wait_timeout() {
        Ok(None)
    } else if wait == wait_failed() {
        Err(Failure::LastOs)
    } else if wait == wait_abandoned() {
        Err(Failure::WaitAbandoned)
    } else {
        Err(Failure::UnexpectedWait(wait))
    }
}

/// What follows from a wait without limit of time: a token, or a failure.
/// Such a wait cannot run out of time; should the operating system say
/// that it did, that is a failure like any other outcome that is no token.
pub fn acquire<E>(wait: u32) -> (r: Result<Acquired, Failure<E>>)
    ensures
        r == match acquire_inner_spec::<E>(wait) {
            Ok(Some(token)) => Ok::<Acquired, Failure<E>>(token),
            Ok(None) => Err(Failure::UnexpectedWait(wait)),
            Err(e) => Err(e),
        },
        r is Ok <==> wait == 0,
{
    match acquire_inner(wait) {
        Ok(Some(token)) => Ok(token),
        Ok(None) => Err(Failure::UnexpectedWait(wait)),
        Err(e) => Err(e),
    }
}

/// What follows from a wait that does not wait at all: a token, no token,
/// or a failure.
pub fn try_acquire<E>(wait: u32) -> (r: Result<Option<Acquired>, Failure<E>>)
    ensures
        r == acquire_inner_spec::<E>(wait),
{
    acquire_inner(wait)
}

/// What follows from a release, given what `ReleaseSemaphore` returned:
/// zero is a failure, whose reason the operating system holds.
pub fn release_inner<E>(released: i32) -> (r: Result<(), Failure<E>>)
    ensures
        r == if released != 0 {
            Ok::<(), Failure<E>>(())
        } else {
            Err(Failure::LastOs)
        },
{
    if released != 0 {
        Ok(())
    } else {
        Err(Failure::LastOs)
    }
}

/// The number of free tokens that follows from what a release reported.
pub open spec fn available_spec(previous: Option<i32>) -> int {
    match previous {
        Some(count) => count + 1,
        None => 0,
    }
}

/// What taking a token without waiting and giving it back at once tells of
/// a semaphore whose count is `count`: the count before the release, which
/// is one less; nothing, where the count is zero and no token can be
/// taken.
pub open spec fn probe(count: i32) -> Option<i32> {
    if count > 0 {
        Some((count - 1) as i32)
    } else {
        None
    }
}

/// Law: the number of free tokens that is worked out from a probe is the
/// count of the semaphore, as long as nothing else touches the semaphore
/// between the two halves of the probe.
pub proof fn lemma_available_is_count(count: i32)
    requires
        count >= 0,
    ensures
        available_spec(probe(count)) == count,
{
}

/// The number of free tokens.  A semaphore does not tell its count; it
/// tells the count that it had before a release.  So a token is taken
/// without waiting and given back at once: `previous` is the count that
/// the release reported, or `None` where no token could be taken.
pub fn available(previous: Option<i32>) -> (r: usize)
    requires
        previous matches Some(count) ==> count >= 0,
    ensures
        r == available_spec(previous),
{
    match previous {
        Some(count) => count as usize + 1,
        None => 0,
    }
}

/// The name of the semaphore that the environment of this process asks to
/// attach to, given the values of `CARGO_MAKEFLAGS`, `MAKEFLAGS` and
/// `MFLAGS` where they are set.
pub open spec fn from_env_spec(
    cargo_makeflags: Option<Seq<u8>>,
    makeflags: Option<Seq<u8>>,
    mflags: Option<Seq<u8>>,
) -> Option<Seq<u8>> {
    match crate::makeflags::from_env_spec(cargo_makeflags, makeflags, mflags) {
        Some(var) => if first_index_of(var, 0u8) == var.len() {
            Some(var)
        } else {
            None
        },
        None => None,
    }
}

/// The name of the semaphore that the environment of this process asks to
/// attach to.  Text that names none, or that cannot be a name, gives
/// `None`.
pub fn from_env<'a>(
    cargo_makeflags: Option<&'a [u8]>,
    makeflags: Option<&'a [u8]>,
    mflags: Option<&'a [u8]>,
) -> (r: Option<&'a [u8]>)
    ensures
        crate::makeflags::view_of(r) == from_env_spec(
            crate::makeflags::view_of(cargo_makeflags),
            crate::makeflags::view_of(makeflags),
            crate::makeflags::view_of(mflags),
        ),
{
    match crate::makeflags::from_env(cargo_makeflags, makeflags, mflags) {
        Some(var) => if open(var) {
            Some(var)
        } else {
            None
        },
        None => None,
    }
}

/// Law (round trip by name): the value that a client makes for a child
/// from the name of its semaphore, found by the child in its
/// `CARGO_MAKEFLAGS`, asks the child to attach to the semaphore of that
/// name.  This holds of every name that is made here, whatever number it
/// is made from.
pub proof fn lemma_round_trip_name(
    suffix: u128,
    makeflags: Option<Seq<u8>>,
    mflags: Option<Seq<u8>>,
)
    ensures
        from_env_spec(
            Some(crate::makeflags::child_value_spec(semaphore_name_spec(suffix))),
            makeflags,
            mflags,
        ) == Some(semaphore_name_spec(suffix)),
{
    reveal_strlit("__rust_jobslot_semaphore_");
    vstd::string::is_ascii_spec_bytes("__rust_jobslot_semaphore_");
    assert(vstd::string::is_ascii("__rust_jobslot_semaphore_"));
    let front = "__rust_jobslot_semaphore_".spec_bytes();
    let number = crate::digits::decimal(suffix as nat);
    crate::digits::lemma_decimal_round_trip(suffix as nat);
    let name = semaphore_name_spec(suffix);
    assert forall|i: int| 0 <= i < name.len() implies !crate::makeflags::is_whitespace_spec(
        #[trigger] name[i],
    ) && name[i] != 0u8 by {
        if i < front.len() {
            assert(name[i] == front[i]);
        } else {
            assert(name[i] == number[i - front.len()]);
            assert(crate::digits::is_decimal_digit(number[i - front.len()]));
        }
    }
    crate::makeflags::lemma_child_value_round_trip(name);
    crate::bytes::lemma_first_index_is(name, 0u8, name.len() as int);
}

} // verus!
