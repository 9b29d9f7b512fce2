use nalgebra::{Const, Matrix};
use vstd::prelude::*;

verus! {

/// nalgebra's dense matrix type, `Matrix<T, R, C, S>` (vectors are the
/// matrices with one column). Its contents are opaque here: the problem
/// description only moves whole matrices around.
#[verifier::external_type_specification]
#[verifier::external_body]
#[verifier::reject_recursive_types(T)]
#[verifier::reject_recursive_types(R)]
#[verifier::reject_recursive_types(C)]
#[verifier::reject_recursive_types(S)]
pub struct ExMatrix<T, R, C, S>(Matrix<T, R, C, S>);

/// nalgebra's type-level dimension `Const<R>`; a vector is a matrix whose
/// column dimension is `Const<1>`.
#[verifier::external_type_specification]
#[verifier::external_body]
pub struct ExConst<const R: usize>(Const<R>);

} // verus!
