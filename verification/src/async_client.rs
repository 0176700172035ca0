//! Taking a token without holding up a thread: the steps of a poll that
//! waits until the jobserver is readable, tries once, and waits again if
//! another taker was faster; and a future made from a function.

use vstd::prelude::*;
use core::task::Context;
use core::task::Poll;

verus! {

/// The context that a task is polled in.  Nothing is known of what one
/// holds; it is handed on to the function that is polled.
#[verifier::external_type_specification]
#[verifier::external_body]
pub struct ExContext<'a>(Context<'a>);

/// The result of a poll.  Nothing is known of what one holds; it is handed
/// back as the polled function made it.
#[verifier::external_type_specification]
#[verifier::external_body]
#[verifier::reject_recursive_types(T)]
pub struct ExPoll<T>(Poll<T>);

/// A pollable value whose every poll is a call of the function that it was
/// made from.
#[must_use]
pub struct PollFn<F> {
    f: F,
}

impl<F> PollFn<F> {
    /// The function that each poll calls.
    pub closed spec fn callee(&self) -> F {
        self.f
    }

    /// Polls once: calls the function with `cx` and hands back what it
    /// returned.  The function itself stays as it was.
    pub fn poll<T>(&mut self, cx: &mut Context<'_>) -> (r: Poll<T>) where
        F: FnMut(&mut Context<'_>) -> Poll<T>,

        requires
            forall|c: &mut Context<'_>| call_requires(old(self).callee(), (c,)),
        ensures
            final(self).callee() == old(self).callee(),
            exists|c: &mut Context<'_>|
                *c == *old(cx) && *final(c) == *final(cx) && call_ensures(
                    old(self).callee(),
                    (c,),
                    r,
                ),
    {
        broadcast use vstd::function::group_function_axioms;

        assert(self.callee() == self.f);
        (self.f)(cx)
    }
}

/// Makes a pollable value from the function `f`.
pub fn poll_fn<T, F>(f: F) -> (r: PollFn<F>) where F: FnMut(&mut Context<'_>) -> Poll<T>
    ensures
        r.callee() == f,
{
    PollFn { f }
}

/// What asking for read-readiness of the jobserver gave.
#[derive(Debug, PartialEq, Eq)]
pub enum Readiness<E> {
    /// Not readable yet; the task will be woken when it is.
    Pending,
    /// Reported readable.  Another taker may still be faster.
    Ready,
    /// The readiness could not be had.
    Failed(E),
}

/// What a poll for a token hands back.
#[derive(Debug, PartialEq, Eq)]
pub enum PollAcquire<T, E> {
    /// No token yet; the task will be woken.
    Pending,
    /// The poll is over: a token, or a failure.
    Ready(Result<T, E>),
}

/// What a poll for a token does after it asked for readiness: it tries to
/// take a token (`None`), or it is over.
pub fn after_readiness<T, E>(readiness: Readiness<E>) -> (r: Option<PollAcquire<T, E>>)
    ensures
        r == match readiness {
            Readiness::Pending => Some(PollAcquire::<T, E>::Pending),
            Readiness::Ready => None,
            Readiness::Failed(e) => Some(PollAcquire::Ready(Err(e))),
        },
{
    match readiness {
        Readiness::Pending => Some(PollAcquire::Pending),
        Readiness::Ready => None,
        Readiness::Failed(e) => Some(PollAcquire::Ready(Err(e))),
    }
}

/// What a poll for a token does after it tried to take one: it is over,
/// with the token or with the failure; or there was none, readiness was
/// reported in vain, and the poll clears it and asks again (`None`).
pub fn after_try_acquire<T, E>(attempt: Result<Option<T>, E>) -> (r: Option<PollAcquire<T, E>>)
    ensures
        r == match attempt {
            Ok(Some(token)) => Some(PollAcquire::Ready(Ok::<T, E>(token))),
            Ok(None) => None,
            Err(e) => Some(PollAcquire::Ready(Err(e))),
        },
{
    match attempt {
        Ok(Some(token)) => Some(PollAcquire::Ready(Ok(token))),
        Ok(None) => None,
        Err(e) => Some(PollAcquire::Ready(Err(e))),
    }
}

} // verus!
