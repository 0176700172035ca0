//! What the handles to one jobserver share: the count of those among them
//! that take tokens without waiting, which decides the mode that the read
//! side is in.

use vstd::prelude::*;

verus! {

/// What is to be done to the read side of the jobserver.
#[derive(Clone, Copy, Debug, PartialEq, Eq, Structural)]
pub enum ModeChange {
    /// Nothing: it is in the right mode already.
    Keep,
    /// Switch it to non-blocking mode.
    SetNonBlocking,
    /// Switch it back to blocking mode.
    SetBlocking,
}

impl ModeChange {
    /// Whether the read side is in non-blocking mode once this change has
    /// been made to one that `nonblocking` described before.
    pub open spec fn apply(self, nonblocking: bool) -> bool {
        match self {
            ModeChange::Keep => nonblocking,
            ModeChange::SetNonBlocking => true,
            ModeChange::SetBlocking => false,
        }
    }
}

/// The number of handles to one jobserver that take tokens without
/// waiting.  The read side is in non-blocking mode exactly while there is
/// at least one: a handle that waits for its tokens relies on reads that
/// block.
#[derive(Debug)]
pub struct ClientInner {
    active_try_acquire_client_count: usize,
}

impl ClientInner {
    /// The number of handles that take tokens without waiting.
    pub closed spec fn active(&self) -> nat {
        self.active_try_acquire_client_count as nat
    }

    /// The mode that the read side is to be in.
    pub open spec fn nonblocking(&self) -> bool {
        self.active() >= 1
    }

    /// The state of a jobserver that no handle takes tokens from without
    /// waiting.
    pub fn new() -> (r: ClientInner)
        ensures
            r.active() == 0,
    {
        ClientInner { active_try_acquire_client_count: 0 }
    }

    /// The number of handles that take tokens without waiting.
    pub fn active_try_acquire_client_count(&self) -> (r: usize)
        ensures
            r == self.active(),
    {
        self.active_try_acquire_client_count
    }

    /// Counts one more handle that takes tokens without waiting, and says
    /// what is to be done to the read side: the first such handle switches
    /// it to non-blocking mode.
    pub fn enter(&mut self) -> (r: ModeChange)
        requires
            old(self).active() < usize::MAX,
        ensures
            final(self).active() == old(self).active() + 1,
            r == if old(self).active() == 0 {
                ModeChange::SetNonBlocking
            } else {
                ModeChange::Keep
            },
            r.apply(old(self).nonblocking()) == final(self).nonblocking(),
    {
        self.active_try_acquire_client_count = self.active_try_acquire_client_count + 1;
        if self.active_try_acquire_client_count == 1 {
            ModeChange::SetNonBlocking
        } else {
            ModeChange::Keep
        }
    }

    /// Counts one handle fewer that takes tokens without waiting, and says
    /// what is to be done to the read side: the last such handle to go
    /// switches it back to blocking mode.
    pub fn cleanup(&mut self) -> (r: ModeChange)
        requires
            old(self).active() > 0,
        ensures
            final(self).active() == old(self).active() - 1,
            r == if old(self).active() == 1 {
                ModeChange::SetBlocking
            } else {
                ModeChange::Keep
            },
            r.apply(old(self).nonblocking()) == final(self).nonblocking(),
    {
        self.active_try_acquire_client_count = self.active_try_acquire_client_count - 1;
        if self.active_try_acquire_client_count == 0 {
            ModeChange::SetBlocking
        } else {
            ModeChange::Keep
        }
    }
}

/// Why a client could not be turned into one that takes tokens without
/// waiting.
#[derive(Debug, PartialEq, Eq)]
pub enum IntoTryAcquireClientError<C, E> {
    /// The jobserver is an anonymous pipe.  Its mode is the same for every
    /// process that inherited it, so that non-blocking reads would break a
    /// `make` before 4.4 among them.  The client is handed back in working
    /// order: a caller who knows that no such `make` is around goes on with
    /// it.
    IncompatibleWithOlderMake(C),
    /// The read side could not be switched to non-blocking mode.
    IoError(E),
}

/// What comes of turning a client into one that takes tokens without
/// waiting, once it has been counted and the read side, where it had to
/// be, has been switched: `switched` is how the switch went, `safe`
/// whether others are unharmed by it.
pub fn into_try_acquire_client<C, E>(client: C, switched: Result<(), E>, safe: bool) -> (r: Result<
    C,
    IntoTryAcquireClientError<C, E>,
>)
    ensures
        r == match switched {
            Err(e) => Err::<C, IntoTryAcquireClientError<C, E>>(
                IntoTryAcquireClientError::IoError(e),
            ),
            Ok(_) => if safe {
                Ok(client)
            } else {
                Err(IntoTryAcquireClientError::IncompatibleWithOlderMake(client))
            },
        },
{
    match switched {
        Err(e) => Err(IntoTryAcquireClientError::IoError(e)),
        Ok(_) => if safe {
            Ok(client)
        } else {
            Err(IntoTryAcquireClientError::IncompatibleWithOlderMake(client))
        },
    }
}

} // verus!
