//! Sources: lenders that are built from plain values.

pub mod once;
