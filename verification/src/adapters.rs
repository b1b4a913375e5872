//! Adapters: types that wrap a lender and present it in another shape.

pub mod owned;
