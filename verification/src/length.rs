//! Type-level lengths.
//!
//! An array's length is part of its type: a length token is a type that stands
//! for one natural number. The tokens are the binary numerals of `typenum`:
//! `UTerm` is zero, and `UInt<N, B0>` and `UInt<N, B1>` append a low bit 0 or 1 to
//! the numeral `N`.

use crate::sealed::Sealed;
use vstd::prelude::*;

verus! {

/// The numeral zero of `typenum`, `typenum::UTerm`. The type is only named here to
/// stand as a length token; nothing is assumed of its values.
#[verifier::external_type_specification]
#[verifier::external_body]
pub struct ExUTerm(typenum::UTerm);

/// The bit 0 of `typenum`, `typenum::B0`. The type is only named here to build
/// length tokens; nothing is assumed of its values.
#[verifier::external_type_specification]
#[verifier::external_body]
pub struct ExB0(typenum::B0);

/// The bit 1 of `typenum`, `typenum::B1`. The type is only named here to build
/// length tokens; nothing is assumed of its values.
#[verifier::external_type_specification]
#[verifier::external_body]
pub struct ExB1(typenum::B1);

/// The numeral `typenum::UInt<U, B>`: the numeral `U` followed by the low bit `B`.
/// The type is only named here to build length tokens; nothing is assumed of its
/// values.
#[verifier::external_type_specification]
#[verifier::external_body]
#[verifier::reject_recursive_types(U)]
#[verifier::reject_recursive_types(B)]
pub struct ExUInt<U, B>(typenum::UInt<U, B>);

/// A type that stands for the number of elements of a `GenericArray`.
///
/// Consider `N: ArrayLength` to be the type-level form of `const N: usize`. The
/// trait is sealed: the length tokens are the numerals of `typenum`, and no other
/// type can be made one.
pub trait ArrayLength: Sealed + Sized + 'static {
    /// The number that the token stands for.
    spec fn len() -> nat;

    /// The number that the token stands for, as far as a `usize` can hold it.
    fn checked_len() -> (n: Option<usize>)
        ensures
            Self::len() <= usize::MAX ==> n == Some(Self::len() as usize),
            Self::len() > usize::MAX ==> n.is_none(),
    ;
}

impl ArrayLength for typenum::UTerm {
    open spec fn len() -> nat {
        0
    }

    fn checked_len() -> (n: Option<usize>) {
        Some(0)
    }
}

impl<N: ArrayLength> ArrayLength for typenum::UInt<N, typenum::B0> {
    open spec fn len() -> nat {
        2 * N::len()
    }

    fn checked_len() -> (n: Option<usize>) {
        match N::checked_len() {
            Some(half) => half.checked_mul(2),
            None => None,
        }
    }
}

impl<N: ArrayLength> ArrayLength for typenum::UInt<N, typenum::B1> {
    open spec fn len() -> nat {
        2 * N::len() + 1
    }

    fn checked_len() -> (n: Option<usize>) {
        match N::checked_len() {
            Some(half) => match half.checked_mul(2) {
                Some(even) => even.checked_add(1),
                None => None,
            },
            None => None,
        }
    }
}

/// Whether `n` is the number that the token `N` stands for. It is decided without
/// overflow, whatever the token.
pub fn has_len<N: ArrayLength>(n: usize) -> (same: bool)
    ensures
        same == (n == N::len()),
{
    match N::checked_len() {
        Some(len) => len == n,
        None => false,
    }
}

/// Implemented for the types that have an associated [`ArrayLength`]. Every length
/// token is its own.
pub trait IntoArrayLength {
    /// The associated length token.
    type ArrayLength: ArrayLength;
}

impl<N: ArrayLength> IntoArrayLength for N {
    type ArrayLength = Self;
}

} // verus!
