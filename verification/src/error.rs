//! Failures, as far as the jobserver logic tells them apart.

use vstd::prelude::*;
use vstd::string::StringSliceAdditionalSpecFns;
use crate::bytes::push_all;
use crate::digits::lower_hex;
use crate::digits::push_digits;

verus! {

/// The error of the `getrandom` crate.  Nothing is known of what one holds.
#[verifier::external_type_specification]
#[verifier::external_body]
pub struct ExRandomError(getrandom::Error);

/// The kinds of failure of a system call that the logic reacts to.
#[derive(Clone, Copy, Debug, PartialEq, Eq, Structural)]
pub enum ErrorKind {
    /// The call was interrupted by a signal before it did anything.
    Interrupted,
    /// The call would have had to wait, on a descriptor that must not.
    WouldBlock,
    /// The name to create is taken.
    AlreadyExists,
    /// Anything else.
    Other,
}

/// A failed system call: what the logic reads of the failure, and the
/// caller's own error value, which is handed back untouched where the
/// failure is final.
#[derive(Debug, PartialEq, Eq)]
pub struct OsError<E> {
    /// The kind of the failure.
    pub kind: ErrorKind,
    /// The error number of the operating system, where there is one.
    pub code: Option<i32>,
    /// The caller's error value.
    pub source: E,
}

/// Why an operation of the jobserver failed.
#[derive(Debug, PartialEq, Eq)]
pub enum Failure<E> {
    /// A system call failed for good; this is the caller's own error value.
    Os(E),
    /// A system call failed, and the operating system still holds the
    /// reason: the caller fetches its last error.
    LastOs,
    /// A read or a write moved no byte, or more than the one asked for.
    UnexpectedEof,
    /// The descriptor waited on is not open.
    InvalidFd,
    /// Every name tried for a new pipe or semaphore was taken.
    NoUniqueName,
    /// No random number could be had for a name.
    Random(getrandom::Error),
    /// The limit is more than a semaphore can count.
    LimitTooLarge,
    /// A wait ended because the owner of the semaphore went away.
    WaitAbandoned,
    /// A wait ended in a way that the operating system does not document,
    /// or that cannot happen for the wait that was made.
    UnexpectedWait(u32),
}

/// The kind of I/O error as which a failure of the library's own is
/// reported.
#[derive(Clone, Copy, Debug, PartialEq, Eq, Structural)]
pub enum ReportKind {
    /// The data ended before it was complete.
    UnexpectedEof,
    /// A parameter was wrong.
    InvalidInput,
    /// None of the kinds that have a name.
    Other,
}

impl<E> Failure<E> {
    /// The kind of I/O error as which this failure is reported; `None`
    /// where the failure is, or is found in, an error of the operating
    /// system or of the random source, which is reported as it is.
    pub open spec fn report_kind_spec(self) -> Option<ReportKind> {
        match self {
            Failure::Os(_) => None,
            Failure::LastOs => None,
            Failure::Random(_) => None,
            Failure::UnexpectedEof => Some(ReportKind::UnexpectedEof),
            Failure::InvalidFd => Some(ReportKind::InvalidInput),
            Failure::NoUniqueName => Some(ReportKind::Other),
            Failure::LimitTooLarge => Some(ReportKind::Other),
            Failure::WaitAbandoned => Some(ReportKind::Other),
            Failure::UnexpectedWait(_) => Some(ReportKind::Other),
        }
    }

    /// The kind of I/O error as which this failure is reported.
    pub fn report_kind(&self) -> (r: Option<ReportKind>)
        ensures
            r == self.report_kind_spec(),
    {
        match self {
            Failure::Os(_) => None,
            Failure::LastOs => None,
            Failure::Random(_) => None,
            Failure::UnexpectedEof => Some(ReportKind::UnexpectedEof),
            Failure::InvalidFd => Some(ReportKind::InvalidInput),
            Failure::NoUniqueName => Some(ReportKind::Other),
            Failure::LimitTooLarge => Some(ReportKind::Other),
            Failure::WaitAbandoned => Some(ReportKind::Other),
            Failure::UnexpectedWait(_) => Some(ReportKind::Other),
        }
    }

    /// The words that go with this failure when it is reported, in ASCII;
    /// `None` where it is reported without words of the library's.  An
    /// unexpected result of a wait is named in hexadecimal, behind `0x`.
    pub open spec fn message_spec(self) -> Option<Seq<u8>> {
        match self {
            Failure::Os(_) => None,
            Failure::LastOs => None,
            Failure::Random(_) => None,
            Failure::UnexpectedEof => None,
            Failure::InvalidFd => Some("fd of is invalid".spec_bytes()),
            Failure::NoUniqueName => Some(
                "failed to find a unique name for a semaphore".spec_bytes(),
            ),
            Failure::LimitTooLarge => Some(
                "out of range integral type conversion attempted".spec_bytes(),
            ),
            Failure::WaitAbandoned => Some(
                "Wait on jobserver semaphore returned WAIT_ABANDONED".spec_bytes(),
            ),
            Failure::UnexpectedWait(ret) => Some(
                "Unexpected return value `0x".spec_bytes() + lower_hex(ret as nat)
                    + "` from WaitForSingleObject".spec_bytes(),
            ),
        }
    }

    /// The words that go with this failure when it is reported.
    pub fn message(&self) -> (r: Option<Vec<u8>>)
        ensures
            match r {
                Some(text) => self.message_spec() == Some(text@),
                None => self.message_spec() is None,
            },
    {
        let mut out: Vec<u8> = Vec::new();
        match self {
            Failure::Os(_) => {
                return None;
            },
            Failure::LastOs => {
                return None;
            },
            Failure::Random(_) => {
                return None;
            },
            Failure::UnexpectedEof => {
                return None;
            },
            Failure::InvalidFd => {
                push_all(&mut out, "fd of is invalid".as_bytes());
            },
            Failure::NoUniqueName => {
                push_all(&mut out, "failed to find a unique name for a semaphore".as_bytes());
            },
            Failure::LimitTooLarge => {
                push_all(&mut out, "out of range integral type conversion attempted".as_bytes());
            },
            Failure::WaitAbandoned => {
                push_all(
                    &mut out,
                    "Wait on jobserver semaphore returned WAIT_ABANDONED".as_bytes(),
                );
            },
            Failure::UnexpectedWait(ret) => {
                push_all(&mut out, "Unexpected return value `0x".as_bytes());
                push_digits(&mut out, *ret as u128, 16);
                push_all(&mut out, "` from WaitForSingleObject".as_bytes());
            },
        }
        assert(Some(out@) =~= self.message_spec());
        Some(out)
    }
}

} // verus!
