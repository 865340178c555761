//! Exact symbolic geometry for icosahedral polyhedra.
//!
//! Scalars ([`Val`]) and angles ([`Angle`]) are immutable expression trees
//! over arbitrary-precision integers, so golden-ratio constants and
//! trigonometric results stay exact through arbitrarily long derivations.
//! Points on the unit sphere ([`Norm`]) are built from two such angles and
//! moved around functionally; their Cartesian components are again exact
//! expressions.  Only at the very edge are trees rendered to text or (outside
//! this crate) folded to floating point.

mod bigint;
mod dodec;
mod fmt;
mod icos;
mod solve;
mod spherical;
mod val;
pub mod web;

pub use dodec::beta;
pub use icos::alpha;
pub use icos::icos_indices;
pub use icos::icos_points;
pub use solve::edge_delta;
pub use solve::solver_step;
pub use spherical::Norm;
pub use spherical::NormView;
pub use val::Angle;
pub use val::AngleView;
pub use val::Val;
pub use val::ValView;
