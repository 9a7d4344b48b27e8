//! Reading and writing of visibility files.

pub mod error;
pub mod header;
pub mod uvfits;
