//! Forward inference for small fully-connected networks.
//!
//! Every real number in this crate is an IEEE 754 binary64 value held as its
//! 64-bit pattern, so that the data and the order of evaluation can be
//! reasoned about exactly. The arithmetic itself is done in software on
//! those patterns; see [`binary64`].

pub mod approx;
pub mod binary64;
pub mod dataset;
pub mod dense;
