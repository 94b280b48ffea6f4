use crate::term::Term;
use vstd::prelude::*;

pub mod deep_neural_network;
pub mod relu;

verus! {

/// The activation of one network layer, seen through the covariance it induces:
/// from the previous layer's triple (cross-covariance, covariance of `x` with
/// itself, covariance of `x'` with itself) to the next cross-covariance before
/// scaling.
pub trait ActivationFunction {
    spec fn spec_f(&self, previous_layer_kernel: (Term, Term, Term)) -> Term;

    fn f(&self, previous_layer_kernel: (Term, Term, Term)) -> (r: Term)
        ensures
            r == self.spec_f(previous_layer_kernel),
    ;
}

} // verus!
