//! A vector whose capacity is fixed by a const generic parameter.
pub mod laws;
pub mod vec;
