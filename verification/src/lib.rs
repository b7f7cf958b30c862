//! Structural core of a radial-basis-function (RBF) scattered-data
//! interpolator.
//!
//! An interpolant is built from `n_centers` sample coordinates (each of
//! dimension `dim`) and as many sample values (each of dimension `n_out`),
//! a radial basis kind, and a polynomial order in `{0, 1, 2}`. Building it
//! means solving one square linear system; evaluating it means filling a
//! basis vector for the query and multiplying by the solved coefficients.
//!
//! This crate verifies everything about that computation that does not
//! itself involve real arithmetic: which formula each basis kind uses,
//! how large the augmented system is for each polynomial order, which
//! quantity fills every cell of the system matrix, of the right-hand side,
//! and of the evaluation basis vector, and the laws that relate them
//! (symmetry of the system, and the column correspondence that underlies
//! exact interpolation at the sample points). A thin numeric layer outside
//! this crate realizes the plans with floating-point arithmetic and a
//! matrix inverse.

pub mod basis;
pub mod plan;
pub mod scatter;

pub use basis::Basis;
pub use basis::BasisForm;
pub use plan::EvalEntry;
pub use plan::RhsEntry;
pub use plan::SystemEntry;
pub use scatter::ConstructionError;
pub use scatter::Scatter;
