use super::ActivationFunction;
use crate::term::{acos_of, cos_of, difference, product, quotient, sin_of, sqrt_of, sum, Term};
use vstd::prelude::*;

verus! {

/// The rectified linear unit, through the arc-cosine formula: with
/// `s = sqrt(k_xx * k_x'x')` and `theta = acos(k_xx' / s)`, the result is
/// `s * (sin(theta) + (pi - theta) * cos(theta)) / (2 pi)`.
#[derive(Clone, Copy, Debug)]
pub struct ReLU;

pub open spec fn relu_formula(cross: Term, xx: Term, pp: Term) -> Term {
    let s = sqrt_of(product(xx, pp));
    let theta = acos_of(quotient(cross, s));
    quotient(
        product(s, sum(sin_of(theta), product(difference(Term::Pi, theta), cos_of(theta)))),
        product(Term::Int(2), Term::Pi),
    )
}

impl ActivationFunction for ReLU {
    open spec fn spec_f(&self, previous_layer_kernel: (Term, Term, Term)) -> Term {
        relu_formula(previous_layer_kernel.0, previous_layer_kernel.1, previous_layer_kernel.2)
    }

    fn f(&self, previous_layer_kernel: (Term, Term, Term)) -> (r: Term) {
        let (cross, xx, pp) = previous_layer_kernel;
        let s = Term::Sqrt(Box::new(Term::boxed_product(xx, pp)));
        let theta = Term::Acos(Box::new(Term::boxed_quotient(cross, s.clone())));
        let tail = Term::boxed_product(
            Term::boxed_difference(Term::Pi, theta.clone()),
            Term::Cos(Box::new(theta.clone())),
        );
        let head = Term::Sin(Box::new(theta));
        Term::boxed_quotient(
            Term::boxed_product(s, Term::boxed_sum(head, tail)),
            Term::boxed_product(Term::Int(2), Term::Pi),
        )
    }
}

} // verus!
