//! Enumeration of 64-bit unsigned integers ordered by Hamming weight
//! (population count) ascending, and by numerical value ascending within
//! each weight class.
//!
//! The enumerators are lazy, pull-based cursors: each call to `next`
//! produces one value in constant time.

pub mod ascend;
pub mod laws;
pub mod model;
pub mod weight;
pub mod width;

pub use ascend::hamming_ascend;
pub use ascend::Ascender;
pub use weight::hamming_weight_iter;
pub use weight::WeightIter;
pub use width::hamming_iter;
pub use width::HammingIter;
