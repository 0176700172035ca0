//! The search for a name that nothing else has: names are made from random
//! numbers, and only so many are tried.

use vstd::prelude::*;
use crate::error::Failure;

verus! {

/// `getrandom::getrandom`, on a buffer of 16 bytes, read as one number in
/// the byte order of the machine.  The call fills the whole buffer from
/// the random source of the operating system, or fails; nothing is said of
/// the number that comes out.
#[verifier::external_body]
fn new_random() -> (r: Result<u128, getrandom::Error>) {
    let mut bytes = [0u8; 16];
    match getrandom::getrandom(&mut bytes) {
        Ok(()) => Ok(u128::from_ne_bytes(bytes)),
        Err(e) => Err(e),
    }
}

/// The number of names that a search tries before it gives up.
pub open spec fn max_tries() -> nat {
    100
}

/// What comes of drawing a random number for a name.
pub fn suffix_from<E>(drawn: Result<u128, getrandom::Error>) -> (r: Result<u128, Failure<E>>)
    ensures
        r == match drawn {
            Ok(suffix) => Ok::<u128, Failure<E>>(suffix),
            Err(e) => Err(Failure::Random(e)),
        },
{
    match drawn {
        Ok(suffix) => Ok(suffix),
        Err(e) => Err(Failure::Random(e)),
    }
}

/// A search for a free name, which counts the names that it has handed
/// out.
#[derive(Debug)]
pub struct NameSearch {
    tried: u32,
}

impl NameSearch {
    #[verifier::type_invariant]
    spec fn inv(self) -> bool {
        self.tried <= 100
    }

    /// The number of names handed out so far.
    pub closed spec fn tried(&self) -> nat {
        self.tried as nat
    }

    /// A search that has tried nothing yet.
    pub fn new() -> (r: NameSearch)
        ensures
            r.tried() == 0,
    {
        NameSearch { tried: 0 }
    }

    /// The random number to make the next name from.  Once `max_tries`
    /// names have been handed out there is no next one: the search fails
    /// with `NoUniqueName`, and draws nothing.  Before that a number is
    /// drawn and counted, and the only failure is that of the random
    /// source.
    pub fn next_suffix<E>(&mut self) -> (r: Result<u128, Failure<E>>)
        ensures
            final(self).tried() <= max_tries(),
            old(self).tried() >= max_tries() ==> final(self).tried() == old(self).tried() && r
                == Err::<u128, Failure<E>>(Failure::NoUniqueName),
            old(self).tried() < max_tries() ==> final(self).tried() == old(self).tried() + 1 && (
            r is Ok || (r is Err && r->Err_0 is Random)),
    {
        proof {
            use_type_invariant(&*self);
        }
        if self.tried >= 100 {
            return Err(Failure::NoUniqueName);
        }
        self.tried = self.tried + 1;
        suffix_from(new_random())
    }
}

} // verus!
