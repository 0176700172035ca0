//! Verified core of a client for the GNU `make` jobserver protocol.
//!
//! A jobserver is a pool of tokens shared by a tree of cooperating
//! processes.  This crate holds everything about a client that can be said
//! without touching the operating system: the text protocol by which a
//! jobserver is found in the environment and handed on to a child, the
//! bookkeeping of an in-process token pool, and the decisions that the pipe
//! and the semaphore backends take on what a system call returned.  The
//! caller performs the system calls and hands their results in as plain
//! values.
//!
//! - [`makeflags`]: the words of `MAKEFLAGS` that name a jobserver.
//! - [`unix`]: the pipe backend.
//! - [`windows`]: the semaphore backend.
//! - [`fallback`]: the backend within one process.
//! - [`client`]: the mode that the handles to one jobserver agree on.
//! - [`async_client`]: the steps of a poll for a token.
//! - [`unique`]: the search for a free name.
//! - [`error`]: failures.
//! - [`digits`], [`bytes`]: numbers and text as bytes.

pub mod async_client;
pub mod bytes;
pub mod client;
pub mod digits;
pub mod error;
pub mod fallback;
pub mod makeflags;
pub mod unique;
pub mod unix;
pub mod windows;
