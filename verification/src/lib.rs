//! Lending sequences: traversals whose items may borrow from the sequence
//! itself, each for no longer than the call that produced it.
//!
//! The protocol is the lifetime-indexed item mapping [`Lending`] with the four
//! capabilities built on it: [`Lender`], [`DoubleEndedLender`],
//! [`ExactSizeLender`] and [`FusedLender`]. Every lender carries a ghost model,
//! the sequence of items it has yet to lend, and each capability states over
//! that model what a call returns and what it leaves behind.
//!
//! Two components exercise the protocol: [`Once`], which lends a single value
//! handed to it, and [`Owned`], which turns a lender into a producer of owned
//! values. The module [`laws`] proves what follows from the contracts for
//! whole runs of retrievals.

pub mod adapters;
pub mod laws;
pub mod lender;
pub mod lending;
pub mod owning;
pub mod sources;

pub use adapters::owned::Owned;
pub use lender::{DoubleEndedLender, End, ExactSizeLender, FusedLender, Lender};
pub use lending::{CovariantLending, Lend, Lending};
pub use owning::OwningConversion;
pub use sources::once::{once, Once};
