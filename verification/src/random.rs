//! The source of random bytes that the machine draws from.

use vstd::prelude::*;

verus! {

/// A source of random bytes. Nothing is promised of the bytes an
/// implementation hands out; the provided method always gives 4.
pub trait Rand {
    /// The next byte.
    fn next(&mut self) -> (r: u8)
        default_ensures
            r == 4,
    {
        4
    }
}

/// A source that always gives the same byte, for runs that must repeat
/// exactly.
pub struct ConstantRand {}

impl Rand for ConstantRand {

}

} // verus!
