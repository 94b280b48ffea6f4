use crate::kernel::{KernelError, PositiveDefiniteKernel};
use crate::term::{
    difference, exp_of, negation, product, quotient, sq_dist, sqrt_of, square, squared_distance, Term,
};
use crate::traits::{
    divide_each, over_value, LogParamsDifferentiableKernel, LogValueDifferentiableKernel, ParamsDifferentiableKernel, ValueDifferentiableKernel,
};
use vstd::prelude::*;

verus! {

/// The exponential kernel.
///
/// Parameters: `[lengthscale]`; value `exp(-|x - x'| / lengthscale)`.
#[derive(Clone, Copy, Debug)]
pub struct Exponential;

/// `exp(-sqrt(d2) / lengthscale)`.
pub open spec fn exponential_formula(lengthscale: Term, d2: Term) -> Term {
    exp_of(negation(quotient(sqrt_of(d2), lengthscale)))
}

impl Exponential {
    /// The distance of the two points, after the checks that every evaluation makes.
    fn norm(&self, params: &[Term], x: &Vec<Term>, x_prime: &Vec<Term>) -> (r: Result<Term, KernelError>)
        ensures
            r == (if params@.len() != 1 {
                Err(KernelError::ParametersLengthMismatch)
            } else if x@.len() != x_prime@.len() {
                Err(KernelError::InvalidArgument)
            } else {
                Ok(sqrt_of(sq_dist(x@, x_prime@, x@.len())))
            }),
    {
        if params.len() != 1 {
            return Err(KernelError::ParametersLengthMismatch);
        }
        if x.len() != x_prime.len() {
            return Err(KernelError::InvalidArgument);
        }
        Ok(Term::Sqrt(Box::new(squared_distance(x.as_slice(), x_prime.as_slice()))))
    }
}

impl PositiveDefiniteKernel<Vec<Term>> for Exponential {
    open spec fn spec_params_len(&self) -> nat {
        1
    }

    open spec fn spec_expression(&self, params: Seq<Term>, x: Vec<Term>, x_prime: Vec<Term>) -> Result<Term, KernelError> {
        if params.len() != 1 {
            Err(KernelError::ParametersLengthMismatch)
        } else if x@.len() != x_prime@.len() {
            Err(KernelError::InvalidArgument)
        } else {
            Ok(exponential_formula(params[0], sq_dist(x@, x_prime@, x@.len())))
        }
    }

    fn params_len(&self) -> (r: usize) {
        1
    }

    fn checked_params_len(&self) -> (r: Option<usize>) {
        Some(1)
    }

    fn expression(&self, params: &[Term], x: &Vec<Term>, x_prime: &Vec<Term>) -> (r: Result<Term, KernelError>) {
        let norm = self.norm(params, x, x_prime)?;
        let scaled = Term::Div(Box::new(norm), Box::new(params[0].clone()));
        Ok(Term::Exp(Box::new(Term::Neg(Box::new(scaled)))))
    }
}

/// `[exp(-r / l) * (r / l^2)]` with `r = sqrt(d2)`.
pub open spec fn exponential_gradient(lengthscale: Term, d2: Term) -> Seq<Term> {
    let r = sqrt_of(d2);
    seq![product(exp_of(negation(quotient(r, lengthscale))), quotient(r, square(lengthscale)))]
}

impl ParamsDifferentiableKernel<Vec<Term>> for Exponential {
    open spec fn spec_diff_params(&self, params: Seq<Term>, x: Vec<Term>, x_prime: Vec<Term>) -> Result<Seq<Term>, KernelError> {
        if params.len() != 1 {
            Err(KernelError::ParametersLengthMismatch)
        } else if x@.len() != x_prime@.len() {
            Err(KernelError::InvalidArgument)
        } else {
            Ok(exponential_gradient(params[0], sq_dist(x@, x_prime@, x@.len())))
        }
    }

    proof fn lemma_diff_params_shape(&self, params: Seq<Term>, x: Vec<Term>, x_prime: Vec<Term>) {
    }

    fn diff_params(&self, params: &[Term], x: &Vec<Term>, x_prime: &Vec<Term>) -> (r: Result<Vec<Term>, KernelError>) {
        let norm = self.norm(params, x, x_prime)?;
        let scaled = Term::Div(Box::new(norm.clone()), Box::new(params[0].clone()));
        let e = Term::Exp(Box::new(Term::Neg(Box::new(scaled))));
        let slope = Term::boxed_quotient(norm, Term::squared(params[0].clone()));
        let r = vec![Term::boxed_product(e, slope)];
        assert(r@ =~= exponential_gradient(params@[0], sq_dist(x@, x_prime@, x@.len())));
        Ok(r)
    }
}

/// The derivative along `x_i`: `value * -((x_i - x'_i) / r / lengthscale)` with
/// `r` the distance.
pub open spec fn exponential_input_slope(value: Term, lengthscale: Term, r: Term, a: Term, b: Term) -> Term {
    product(value, negation(quotient(quotient(difference(a, b), r), lengthscale)))
}

impl ValueDifferentiableKernel for Exponential {
    open spec fn spec_diff_value(&self, params: Seq<Term>, x: Vec<Term>, x_prime: Vec<Term>) -> Result<Seq<Term>, KernelError> {
        match self.spec_expression(params, x, x_prime) {
            Err(e) => Err(e),
            Ok(v) => Ok(
                Seq::new(
                    x@.len(),
                    |k: int| exponential_input_slope(v, params[0], sqrt_of(sq_dist(x@, x_prime@, x@.len())), x@[k], x_prime@[k]),
                ),
            ),
        }
    }

    proof fn lemma_diff_value_shape(&self, params: Seq<Term>, x: Vec<Term>, x_prime: Vec<Term>) {
    }

    fn diff_value(&self, params: &[Term], x: &Vec<Term>, x_prime: &Vec<Term>) -> (r: Result<Vec<Term>, KernelError>) {
        let v = self.expression(params, x, x_prime)?;
        let norm = self.norm(params, x, x_prime)?;
        let n = x.len();
        let mut r: Vec<Term> = Vec::new();
        let mut i: usize = 0;
        while i < n
            invariant
                i <= x@.len(),
                n == x@.len(),
                x@.len() == x_prime@.len(),
                params@.len() == 1,
                norm == sqrt_of(sq_dist(x@, x_prime@, x@.len())),
                r@ == Seq::new(i as nat, |k: int| exponential_input_slope(v, params@[0], norm, x@[k], x_prime@[k])),
            decreases x@.len() - i,
        {
            r.push(Term::boxed_product(
                v.clone(),
                Term::Neg(Box::new(Term::boxed_quotient(
                    Term::boxed_quotient(Term::boxed_difference(x[i].clone(), x_prime[i].clone()), norm.clone()),
                    params[0].clone(),
                ))),
            ));
            assert(r@ =~= Seq::new((i + 1) as nat, |k: int| exponential_input_slope(v, params@[0], norm, x@[k], x_prime@[k])));
            i = i + 1;
        }
        Ok(r)
    }
}

impl LogValueDifferentiableKernel for Exponential {
    /// The derivative along each coordinate divided by the value.
    open spec fn spec_ln_diff_value(&self, params: Seq<Term>, x: Vec<Term>, x_prime: Vec<Term>) -> Result<Seq<Term>, KernelError> {
        match (self.spec_expression(params, x, x_prime), self.spec_diff_value(params, x, x_prime)) {
            (Ok(v), Ok(d)) => Ok(over_value(d, v)),
            (Err(e), _) => Err(e),
            (_, Err(e)) => Err(e),
        }
    }

    proof fn lemma_ln_diff_value_len(&self, params: Seq<Term>, x: Vec<Term>, x_prime: Vec<Term>) {
        self.lemma_diff_value_shape(params, x, x_prime);
    }

    fn ln_diff_value(&self, params: &[Term], x: &Vec<Term>, x_prime: &Vec<Term>) -> (r: Result<Vec<Term>, KernelError>) {
        let v = self.expression(params, x, x_prime)?;
        let d = self.diff_value(params, x, x_prime)?;
        Ok(divide_each(&d, &v))
    }
}

impl LogParamsDifferentiableKernel<Vec<Term>> for Exponential {
    /// The derivative with respect to each parameter divided by the value.
    open spec fn spec_ln_diff_params(&self, params: Seq<Term>, x: Vec<Term>, x_prime: Vec<Term>) -> Result<Seq<Term>, KernelError> {
        match (self.spec_expression(params, x, x_prime), self.spec_diff_params(params, x, x_prime)) {
            (Ok(v), Ok(d)) => Ok(over_value(d, v)),
            (Err(e), _) => Err(e),
            (_, Err(e)) => Err(e),
        }
    }

    fn ln_diff_params(&self, params: &[Term], x: &Vec<Term>, x_prime: &Vec<Term>) -> (r: Result<Vec<Term>, KernelError>) {
        let v = self.expression(params, x, x_prime)?;
        let d = self.diff_params(params, x, x_prime)?;
        Ok(divide_each(&d, &v))
    }
}

} // verus!
