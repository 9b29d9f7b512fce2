use nalgebra::{Matrix, Vector};
use vstd::prelude::*;

verus! {

/// A least squares minimization problem.
///
/// This is what a solver needs to compute the residuals and the Jacobian:
/// it sets candidate parameters with `set_params`, then asks for the
/// residual vector (of length `M`) and the Jacobian (`M` rows, `N` columns)
/// at those parameters.
///
/// An implementation describes its state by three model functions: the
/// stored parameters, and the residuals and the Jacobian at the stored state
/// (`None` where they cannot be computed there). The executable methods
/// answer consistently with them. The model functions are ghost code: an
/// ordinary build leaves them out of the trait. A build that keeps them
/// asks an unverified implementation to define them as ordinary methods
/// returning what `params`, `residuals` and `jacobian` return.
pub trait LeastSquaresProblem<F: Copy, M, N> {
    /// Storage type used for the residuals. Use `nalgebra::storage::Owned<F, M>`
    /// if you want to use `VectorN` or `MatrixMN`.
    type ResidualStorage;

    type JacobianStorage;

    type ParameterStorage: Clone;

    /// Model of the stored parameter vector: what `params` returns.
    spec fn spec_params(&self) -> Vector<F, N, Self::ParameterStorage>;

    /// Model of the residual vector at the stored state, `None` where it
    /// cannot be computed: what `residuals` returns.
    spec fn spec_residuals(&self) -> Option<Vector<F, M, Self::ResidualStorage>>;

    /// Model of the Jacobian of the residual vector at the stored state,
    /// `None` where it cannot be computed: what `jacobian` returns.
    spec fn spec_jacobian(&self) -> Option<Matrix<F, M, N, Self::JacobianStorage>>;

    /// Set the stored parameters `x`: afterwards they are exactly `x`.
    fn set_params(&mut self, x: &Vector<F, N, Self::ParameterStorage>)
        ensures
            final(self).spec_params() == *x,
    ;

    /// Get the current parameter vector `x`.
    fn params(&self) -> (p: Vector<F, N, Self::ParameterStorage>)
        ensures
            p == self.spec_params(),
    ;

    /// Compute the residual vector.
    fn residuals(&self) -> (r: Option<Vector<F, M, Self::ResidualStorage>>)
        ensures
            r == self.spec_residuals(),
    ;

    /// Compute the residual vector into an existing buffer.
    ///
    /// Returns `true` exactly when the residuals can be computed, and then
    /// `out` holds them. The default implementation calls `residuals` and
    /// copies the result, leaving `out` as it was when there is none.
    /// Override this method to avoid heap allocations in dynamic problems.
    fn residuals_into(&self, out: &mut Vector<F, M, Self::ResidualStorage>) -> (ok: bool)
        ensures
            ok == (self.spec_residuals() is Some),
            ok ==> self.spec_residuals() == Some(*final(out)),
        default_ensures
            ok ==> call_ensures(Self::residuals, (self,), Some(*final(out))),
            !ok ==> call_ensures(Self::residuals, (self,), None),
            !ok ==> *final(out) == *old(out),
    {
        if let Some(res) = self.residuals() {
            *out = res;
            true
        } else {
            false
        }
    }

    /// Compute the Jacobian of the residual vector.
    fn jacobian(&self) -> (j: Option<Matrix<F, M, N, Self::JacobianStorage>>)
        ensures
            j == self.spec_jacobian(),
    ;

    /// Compute the Jacobian of the residual vector into an existing buffer.
    ///
    /// Returns `true` exactly when the Jacobian can be computed, and then
    /// `out` holds it. The default implementation calls `jacobian` and
    /// copies the result, leaving `out` as it was when there is none.
    /// Override this method to avoid heap allocations in dynamic problems.
    fn jacobian_into(&self, out: &mut Matrix<F, M, N, Self::JacobianStorage>) -> (ok: bool)
        ensures
            ok == (self.spec_jacobian() is Some),
            ok ==> self.spec_jacobian() == Some(*final(out)),
        default_ensures
            ok ==> call_ensures(Self::jacobian, (self,), Some(*final(out))),
            !ok ==> call_ensures(Self::jacobian, (self,), None),
            !ok ==> *final(out) == *old(out),
    {
        if let Some(jac) = self.jacobian() {
            *out = jac;
            true
        } else {
            false
        }
    }
}

/// Reading the parameters back after they were set gives the parameters that
/// were set: `after` is a problem whose `set_params(x)` returned (its stored
/// parameters are `x`, as `set_params` ensures), and `read` is a result of
/// `params()` on it.
pub proof fn lemma_params_read_back<F: Copy, M, N, P: LeastSquaresProblem<F, M, N>>(
    after: P,
    x: Vector<F, N, P::ParameterStorage>,
    read: Vector<F, N, P::ParameterStorage>,
)
    requires
        after.spec_params() == x,
        call_ensures(P::params, (&after,), read),
    ensures
        read == x,
{
}

} // verus!
