//! The problem description that a Levenberg-Marquardt style least squares
//! solver works on: a parameter vector, the residual vector at those
//! parameters, and the Jacobian of the residuals.

mod matrix;
pub mod problem;

pub use problem::LeastSquaresProblem;
