//! Hyperdimensional computing primitives: generation of random bipolar
//! hypervectors, bundling (consensus combination), and cyclic shifting.

use vstd::prelude::*;

pub mod bundle;
pub mod error;
pub mod gen;
pub mod shift;

pub use bundle::bundle_vec;
pub use bundle::bundle_matrix;
pub use error::HdvError;
pub use gen::gen_hdv;
pub use gen::gen_hdv_matrix;
pub use gen::hdv_from_tosses;
pub use shift::shift;
pub use shift::shift_custom;

verus! {

/// Length of a hypervector produced by the default generators.
pub const HDV_LEN: usize = 10000;

} // verus!
