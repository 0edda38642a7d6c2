//! Buffers that are guaranteed to hold at least a fixed number of elements.
//!
//! A [`Loaf`] is a non-empty buffer: by construction it always holds at least
//! one element, so `first` and `last` are total and return plain references
//! instead of options. [`LoafN`] generalizes the guarantee to an arbitrary
//! head size `N`, and [`loaf_vec::LoafVec`] / [`loaf_n_vec::LoafNVec`] keep
//! the guarantee across mutation of a growable buffer.

mod loaf;
mod loaf_n;
pub mod loaf_n_vec;
pub mod loaf_vec;

pub use crate::loaf::lemma_wrap_round_trip;
pub use crate::loaf::lemma_wrap_too_short;
pub use crate::loaf::lemma_wrap_total_length;
pub use crate::loaf::Loaf;
pub use crate::loaf_n::lemma_wrap_n_round_trip;
pub use crate::loaf_n::lemma_wrap_n_too_short;
pub use crate::loaf_n::lemma_wrap_n_total_length;
pub use crate::loaf_n::LoafN;
