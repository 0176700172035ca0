//! The backend of a platform without pipes or semaphores: a jobserver
//! within one process, a counter of free tokens and a queue of tasks to
//! wake when one comes back.
//!
//! A value of this module is the state that the handles of one process
//! share.  The caller keeps it behind a lock and waits where an operation
//! finds no token; every operation here is one step, taken under the
//! lock.

use vstd::prelude::*;

verus! {

/// The token of an in-process jobserver.  It holds nothing.
#[derive(Debug, PartialEq, Eq)]
pub struct Acquired(());

/// The numbers of a pool of tokens.
pub struct Pool {
    /// The number of tokens that the pool was made with.
    pub limit: nat,
    /// The number of tokens that are free.
    pub available: nat,
    /// The number of tokens that are out: those taken and not given back
    /// yet.  It is negative after a release of a token that was never
    /// taken from this pool, which a process does to lend out the token
    /// it was started with.
    pub outstanding: int,
}

/// One operation on a pool.
pub enum Op {
    /// An attempt to take a token, which gets one if one is free.
    Acquire,
    /// The release of a token.
    Release,
}

impl Pool {
    /// A pool of `limit` tokens, all free.
    pub open spec fn fresh(limit: nat) -> Pool {
        Pool { limit, available: limit, outstanding: 0 }
    }

    /// Conservation: the tokens that are free and those that are out are
    /// together the tokens that the pool was made with.
    pub open spec fn wf(self) -> bool {
        self.available + self.outstanding == self.limit
    }

    /// The pool after one operation.
    pub open spec fn step(self, op: Op) -> Pool {
        match op {
            Op::Acquire => if self.available > 0 {
                Pool {
                    limit: self.limit,
                    available: (self.available - 1) as nat,
                    outstanding: self.outstanding + 1,
                }
            } else {
                self
            },
            Op::Release => Pool {
                limit: self.limit,
                available: self.available + 1,
                outstanding: self.outstanding - 1,
            },
        }
    }

    /// The pool after a sequence of operations, whichever handles made
    /// them.
    pub open spec fn run(self, ops: Seq<Op>) -> Pool
        decreases ops.len(),
    {
        if ops.len() == 0 {
            self
        } else {
            self.run(ops.drop_last()).step(ops.last())
        }
    }
}

/// Law (conservation): after any sequence of acquires and releases on a
/// pool, the free tokens and the tokens that are out still add up to the
/// limit that the pool was made with.
pub proof fn lemma_conservation(limit: nat, ops: Seq<Op>)
    ensures
        Pool::fresh(limit).run(ops).wf(),
        Pool::fresh(limit).run(ops).limit == limit,
    decreases ops.len(),
{
    if ops.len() > 0 {
        lemma_conservation(limit, ops.drop_last());
    }
}

/// Law: on a fresh pool of `limit` tokens, `n` acquires with no release
/// between them leave `limit - n` tokens free, as long as `n` is no more
/// than `limit`; each of them got a token.
pub proof fn lemma_acquires(limit: nat, n: nat)
    requires
        n <= limit,
    ensures
        Pool::fresh(limit).run(Seq::new(n, |i: int| Op::Acquire)).available == limit - n,
        Pool::fresh(limit).run(Seq::new(n, |i: int| Op::Acquire)).outstanding == n,
    decreases n,
{
    let ops = Seq::new(n, |i: int| Op::Acquire);
    if n > 0 {
        lemma_acquires(limit, (n - 1) as nat);
        assert(ops.drop_last() =~= Seq::new((n - 1) as nat, |i: int| Op::Acquire));
    }
}

/// Law: while no token is released, a pool without a free token stays
/// without one, however often a token is asked for: no attempt gets one.
pub proof fn lemma_drained_stays_drained(pool: Pool, ops: Seq<Op>)
    requires
        pool.available == 0,
        forall|i: int| 0 <= i < ops.len() ==> ops[i] is Acquire,
    ensures
        pool.run(ops) == pool,
    decreases ops.len(),
{
    if ops.len() > 0 {
        lemma_drained_stays_drained(pool, ops.drop_last());
    }
}

/// Law (zero capacity): a pool that was made without tokens never hands
/// one out while none is released to it.
pub proof fn lemma_zero_capacity(ops: Seq<Op>)
    requires
        forall|i: int| 0 <= i < ops.len() ==> ops[i] is Acquire,
    ensures
        Pool::fresh(0).run(ops) == Pool::fresh(0),
        Pool::fresh(0).run(ops).step(Op::Acquire) == Pool::fresh(0),
{
    lemma_drained_stays_drained(Pool::fresh(0), ops);
}

/// Law: a taker that found a pool drained finds a token after the next
/// release, and not before.
pub proof fn lemma_release_unblocks(pool: Pool, attempts: Seq<Op>)
    requires
        pool.available == 0,
        forall|i: int| 0 <= i < attempts.len() ==> attempts[i] is Acquire,
    ensures
        pool.run(attempts).available == 0,
        pool.run(attempts).step(Op::Release).available == 1,
        pool.run(attempts).step(Op::Release).step(Op::Acquire).outstanding == pool.outstanding,
{
    lemma_drained_stays_drained(pool, attempts);
}

/// The state of an in-process jobserver: the free tokens, and the tasks
/// that wait for one, each known by the waker of type `W` that it left.
pub struct Client<W> {
    count: usize,
    wakers: Vec<W>,
    limit: Ghost<nat>,
    outstanding: Ghost<int>,
}

impl<W> Client<W> {
    /// The numbers of the pool.
    pub closed spec fn pool(&self) -> Pool {
        Pool {
            limit: self.limit@,
            available: self.count as nat,
            outstanding: self.outstanding@,
        }
    }

    /// The wakers of the tasks that wait for a token, oldest first.
    pub closed spec fn wakers(&self) -> Seq<W> {
        self.wakers@
    }

    /// A jobserver with `limit` tokens, all free, and no task waiting.
    pub fn new(limit: usize) -> (r: Client<W>)
        ensures
            r.pool() == Pool::fresh(limit as nat),
            r.wakers() == Seq::<W>::empty(),
    {
        Client { count: limit, wakers: Vec::new(), limit: Ghost(limit as nat), outstanding: Ghost(0) }
    }

    /// The jobserver that a text names.  There is none: a jobserver within
    /// a process is no other process's to attach to.
    pub fn open(_s: &[u8]) -> (r: Option<Client<W>>)
        ensures
            r is None,
    {
        None
    }

    /// The number of tokens that are free.
    pub fn available(&self) -> (r: usize)
        ensures
            r == self.pool().available,
    {
        self.count
    }

    /// Takes a token if one is free, and does not wait if none is.
    pub fn try_acquire(&mut self) -> (r: Option<Acquired>)
        ensures
            final(self).pool() == old(self).pool().step(Op::Acquire),
            old(self).pool().wf() ==> final(self).pool().wf(),
            final(self).wakers() == old(self).wakers(),
            r is Some <==> old(self).pool().available > 0,
    {
        if self.count == 0 {
            None
        } else {
            self.count = self.count - 1;
            proof {
                self.outstanding@ = self.outstanding@ + 1;
            }
            Some(Acquired(()))
        }
    }

    /// Takes a token if one is free; if none is, leaves `waker` in the
    /// queue, so that the task is woken by the next release, and hands
    /// back nothing.  The waker is queued in the same step that found no
    /// token: no release can come between the two and be missed.
    pub fn poll_acquire(&mut self, waker: W) -> (r: Option<Acquired>)
        ensures
            final(self).pool() == old(self).pool().step(Op::Acquire),
            old(self).pool().wf() ==> final(self).pool().wf(),
            r is Some <==> old(self).pool().available > 0,
            r is Some ==> final(self).wakers() == old(self).wakers(),
            r is None ==> final(self).wakers() == old(self).wakers().push(waker),
    {
        if self.count == 0 {
            self.wakers.push(waker);
            None
        } else {
            self.count = self.count - 1;
            proof {
                self.outstanding@ = self.outstanding@ + 1;
            }
            Some(Acquired(()))
        }
    }

    /// Gives a token back, and hands out the wakers of all the tasks that
    /// waited, oldest first, for the caller to wake; the queue is empty
    /// afterwards.  All are woken though only one token came back: a task
    /// that finds none when it looks again queues up again, and none stays
    /// asleep over a token that is free.  The caller also wakes one thread
    /// that waits.
    pub fn release(&mut self, _data: Option<&Acquired>) -> (r: Vec<W>)
        requires
            old(self).pool().available < usize::MAX,
        ensures
            final(self).pool() == old(self).pool().step(Op::Release),
            old(self).pool().wf() ==> final(self).pool().wf(),
            r@ == old(self).wakers(),
            final(self).wakers() == Seq::<W>::empty(),
    {
        self.count = self.count + 1;
        proof {
            self.outstanding@ = self.outstanding@ - 1;
        }
        let mut woken: Vec<W> = Vec::new();
        woken.append(&mut self.wakers);
        assert(woken@ =~= old(self).wakers());
        woken
    }
}

} // verus!
