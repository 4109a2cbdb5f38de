//! The checked core of a set of vector distance kernels used for similarity
//! search: the dimension check that guards every kernel, the diagnostic it
//! reports, and the table that binds each metric to its operator token.

pub mod dimension;
pub mod metric;

pub use dimension::{check_dimensions, with_matching_dimensions, DimensionMismatch};
pub use metric::Metric;
