//! The closed set of length tokens.

use vstd::prelude::*;

verus! {

/// Marks the types that may be length tokens. It cannot be named outside this
/// crate, so no other type can become one.
pub trait Sealed {}

impl Sealed for typenum::UTerm {}

impl<N: Sealed> Sealed for typenum::UInt<N, typenum::B0> {}

impl<N: Sealed> Sealed for typenum::UInt<N, typenum::B1> {}

} // verus!
