//! One interface over fixed-size arrays and vectors.
//!
//! [`ArrayOrVec`] is implemented by `[T; N]` and by `Vec<T>`, so that code
//! written against it runs on either. Its contracts are stated over the view
//! of a container, the sequence of its elements. [`SeqIndex`] describes the
//! positions and ranges that `get` and its relatives accept. [`sum`] is a
//! small routine written against the interface alone. The module [`laws`]
//! holds what follows from the contracts taken together, and [`std_specs`]
//! what is assumed of the standard library.

pub mod index;
pub mod laws;
pub mod sequence;
pub mod std_specs;
pub mod summation;

pub use index::SeqIndex;
pub use sequence::ArrayOrVec;
pub use summation::sum;
