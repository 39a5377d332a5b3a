//! Arrays whose length is part of their type.
//!
//! `GenericArray<T, N>` holds exactly as many elements of `T` as the length token
//! `N` stands for, and behaves like `[T; N]`: two arrays of different lengths have
//! different types, so code that is generic over the length is checked for the
//! right element counts when it is compiled.
//!
//! The length tokens are the type-level unsigned integers of `typenum`:
//!
//! ```text
//! let squares = GenericArray::<u32, typenum::U3>::generate(|i| (i * i) as u32);
//! assert_eq!(squares.as_slice(), &[0, 1, 4]);
//! ```
//!
//! Arrays are built element by element by an [`ArrayBuilder`] and taken apart
//! element by element by an [`ArrayConsumer`]; `generate`, `map`, `zip`, `fold`
//! and the constructors from iterators are written with the two. The elements
//! move: none of these asks for `Copy` or `Clone`.

pub mod array;
pub mod convert;
pub mod functional;
pub mod internal;
pub mod length;
pub mod report;
mod sealed;
pub mod sequence;

pub use array::GenericArray;
pub use convert::LengthError;
pub use internal::{ArrayBuilder, ArrayConsumer};
pub use length::{has_len, ArrayLength, IntoArrayLength};
pub use report::from_iter_length_fail;
pub use sequence::CountError;
