use crate::kernel::{KernelError, PositiveDefiniteKernel};
use crate::term::{
    difference, exp_of, negation, product, square, weighted_sq_dist, weighted_squared_distance, Term,
};
use crate::traits::{
    divide_each, over_value, LogParamsDifferentiableKernel, LogValueDifferentiableKernel, ParamsDifferentiableKernel, ValueDifferentiableKernel,
};
use vstd::prelude::*;

verus! {

/// Automatic relevance determination over points of dimension `self.0`.
///
/// Parameters: one relevance weight per dimension; value
/// `exp(-sum_i w_i * (x_i - x'_i)^2)`.
#[derive(Clone, Copy, Debug)]
pub struct ARD(pub usize);

impl PositiveDefiniteKernel<Vec<Term>> for ARD {
    open spec fn spec_params_len(&self) -> nat {
        self.0 as nat
    }

    open spec fn spec_expression(&self, params: Seq<Term>, x: Vec<Term>, x_prime: Vec<Term>) -> Result<Term, KernelError> {
        if params.len() != self.0 {
            Err(KernelError::ParametersLengthMismatch)
        } else if x@.len() != self.0 || x_prime@.len() != self.0 {
            Err(KernelError::InvalidArgument)
        } else {
            Ok(exp_of(negation(weighted_sq_dist(params, x@, x_prime@, self.0 as nat))))
        }
    }

    fn params_len(&self) -> (r: usize) {
        self.0
    }

    fn checked_params_len(&self) -> (r: Option<usize>) {
        Some(self.0)
    }

    fn expression(&self, params: &[Term], x: &Vec<Term>, x_prime: &Vec<Term>) -> (r: Result<Term, KernelError>) {
        if params.len() != self.0 {
            return Err(KernelError::ParametersLengthMismatch);
        }
        if x.len() != self.0 || x_prime.len() != self.0 {
            return Err(KernelError::InvalidArgument);
        }
        let s = weighted_squared_distance(params, x.as_slice(), x_prime.as_slice());
        Ok(Term::Exp(Box::new(Term::Neg(Box::new(s)))))
    }
}

/// Entry `i` is `-((x_i - x'_i)^2 * value)`.
pub open spec fn ard_gradient(params: Seq<Term>, x: Seq<Term>, y: Seq<Term>, n: nat) -> Seq<Term> {
    let v = exp_of(negation(weighted_sq_dist(params, x, y, n)));
    Seq::new(n, |i: int| negation(product(square(difference(x[i], y[i])), v)))
}

impl ParamsDifferentiableKernel<Vec<Term>> for ARD {
    open spec fn spec_diff_params(&self, params: Seq<Term>, x: Vec<Term>, x_prime: Vec<Term>) -> Result<Seq<Term>, KernelError> {
        if params.len() != self.0 {
            Err(KernelError::ParametersLengthMismatch)
        } else if x@.len() != self.0 || x_prime@.len() != self.0 {
            Err(KernelError::InvalidArgument)
        } else {
            Ok(ard_gradient(params, x@, x_prime@, self.0 as nat))
        }
    }

    proof fn lemma_diff_params_shape(&self, params: Seq<Term>, x: Vec<Term>, x_prime: Vec<Term>) {
    }

    fn diff_params(&self, params: &[Term], x: &Vec<Term>, x_prime: &Vec<Term>) -> (r: Result<Vec<Term>, KernelError>) {
        let v = self.expression(params, x, x_prime)?;
        let mut r: Vec<Term> = Vec::new();
        let mut i: usize = 0;
        while i < self.0
            invariant
                i <= self.0,
                x@.len() == self.0,
                x_prime@.len() == self.0,
                params@.len() == self.0,
                v == exp_of(negation(weighted_sq_dist(params@, x@, x_prime@, self.0 as nat))),
                r@ == Seq::new(i as nat, |k: int| negation(product(square(difference(x@[k], x_prime@[k])), v))),
            decreases self.0 - i,
        {
            let d = Term::boxed_difference(x[i].clone(), x_prime[i].clone());
            r.push(Term::Neg(Box::new(Term::boxed_product(Term::squared(d), v.clone()))));
            assert(r@ =~= Seq::new((i + 1) as nat, |k: int| negation(product(square(difference(x@[k], x_prime@[k])), v))));
            i = i + 1;
        }
        Ok(r)
    }
}

/// The derivative along `x_i`: `value * -(2 * (w_i * (x_i - x'_i)))`.
pub open spec fn ard_input_slope(value: Term, w: Term, a: Term, b: Term) -> Term {
    product(value, negation(product(Term::Int(2), product(w, difference(a, b)))))
}

impl ValueDifferentiableKernel for ARD {
    open spec fn spec_diff_value(&self, params: Seq<Term>, x: Vec<Term>, x_prime: Vec<Term>) -> Result<Seq<Term>, KernelError> {
        match self.spec_expression(params, x, x_prime) {
            Err(e) => Err(e),
            Ok(v) => Ok(Seq::new(x@.len(), |k: int| ard_input_slope(v, params[k], x@[k], x_prime@[k]))),
        }
    }

    proof fn lemma_diff_value_shape(&self, params: Seq<Term>, x: Vec<Term>, x_prime: Vec<Term>) {
    }

    fn diff_value(&self, params: &[Term], x: &Vec<Term>, x_prime: &Vec<Term>) -> (r: Result<Vec<Term>, KernelError>) {
        let v = self.expression(params, x, x_prime)?;
        let n = x.len();
        let mut r: Vec<Term> = Vec::new();
        let mut i: usize = 0;
        while i < n
            invariant
                i <= x@.len(),
                n == x@.len(),
                x@.len() == x_prime@.len(),
                params@.len() == x@.len(),
                r@ == Seq::new(i as nat, |k: int| ard_input_slope(v, params@[k], x@[k], x_prime@[k])),
            decreases x@.len() - i,
        {
            r.push(Term::boxed_product(
                v.clone(),
                Term::Neg(Box::new(Term::boxed_product(
                    Term::Int(2),
                    Term::boxed_product(params[i].clone(), Term::boxed_difference(x[i].clone(), x_prime[i].clone())),
                ))),
            ));
            assert(r@ =~= Seq::new((i + 1) as nat, |k: int| ard_input_slope(v, params@[k], x@[k], x_prime@[k])));
            i = i + 1;
        }
        Ok(r)
    }
}

impl LogValueDifferentiableKernel for ARD {
    /// The derivative along each coordinate divided by the value.
    open spec fn spec_ln_diff_value(&self, params: Seq<Term>, x: Vec<Term>, x_prime: Vec<Term>) -> Result<Seq<Term>, KernelError> {
        match (self.spec_expression(params, x, x_prime), self.spec_diff_value(params, x, x_prime)) {
            (Ok(v), Ok(d)) => Ok(over_value(d, v)),
            (Err(e), _) => Err(e),
            (_, Err(e)) => Err(e),
        }
    }

    proof fn lemma_ln_diff_value_len(&self, params: Seq<Term>, x: Vec<Term>, x_prime: Vec<Term>) {
        self.lemma_diff_value_shape(params, x, x_prime);
    }

    fn ln_diff_value(&self, params: &[Term], x: &Vec<Term>, x_prime: &Vec<Term>) -> (r: Result<Vec<Term>, KernelError>) {
        let v = self.expression(params, x, x_prime)?;
        let d = self.diff_value(params, x, x_prime)?;
        Ok(divide_each(&d, &v))
    }
}

impl LogParamsDifferentiableKernel<Vec<Term>> for ARD {
    /// The derivative with respect to each parameter divided by the value.
    open spec fn spec_ln_diff_params(&self, params: Seq<Term>, x: Vec<Term>, x_prime: Vec<Term>) -> Result<Seq<Term>, KernelError> {
        match (self.spec_expression(params, x, x_prime), self.spec_diff_params(params, x, x_prime)) {
            (Ok(v), Ok(d)) => Ok(over_value(d, v)),
            (Err(e), _) => Err(e),
            (_, Err(e)) => Err(e),
        }
    }

    fn ln_diff_params(&self, params: &[Term], x: &Vec<Term>, x_prime: &Vec<Term>) -> (r: Result<Vec<Term>, KernelError>) {
        let v = self.expression(params, x, x_prime)?;
        let d = self.diff_params(params, x, x_prime)?;
        Ok(divide_each(&d, &v))
    }
}

} // verus!
