use crate::kernel::{KernelError, PositiveDefiniteKernel};
use crate::term::{dot, dot_product, Term};
use crate::traits::{
    divide_each, over_value, LogParamsDifferentiableKernel, LogValueDifferentiableKernel, ParamsDifferentiableKernel, ValueDifferentiableKernel,
};
use vstd::prelude::*;

verus! {

/// The linear kernel: the dot product of the two points. It has no parameters.
#[derive(Clone, Copy, Debug)]
pub struct Linear;

impl PositiveDefiniteKernel<Vec<Term>> for Linear {
    open spec fn spec_params_len(&self) -> nat {
        0
    }

    open spec fn spec_expression(&self, params: Seq<Term>, x: Vec<Term>, x_prime: Vec<Term>) -> Result<Term, KernelError> {
        if params.len() != 0 {
            Err(KernelError::ParametersLengthMismatch)
        } else if x@.len() != x_prime@.len() {
            Err(KernelError::InvalidArgument)
        } else {
            Ok(dot(x@, x_prime@, x@.len()))
        }
    }

    fn params_len(&self) -> (r: usize) {
        0
    }

    fn checked_params_len(&self) -> (r: Option<usize>) {
        Some(0)
    }

    fn expression(&self, params: &[Term], x: &Vec<Term>, x_prime: &Vec<Term>) -> (r: Result<Term, KernelError>) {
        if params.len() != 0 {
            return Err(KernelError::ParametersLengthMismatch);
        }
        if x.len() != x_prime.len() {
            return Err(KernelError::InvalidArgument);
        }
        Ok(dot_product(x.as_slice(), x_prime.as_slice()))
    }
}

impl ParamsDifferentiableKernel<Vec<Term>> for Linear {
    /// No parameters, so an empty gradient.
    open spec fn spec_diff_params(&self, params: Seq<Term>, x: Vec<Term>, x_prime: Vec<Term>) -> Result<Seq<Term>, KernelError> {
        if params.len() != 0 {
            Err(KernelError::ParametersLengthMismatch)
        } else if x@.len() != x_prime@.len() {
            Err(KernelError::InvalidArgument)
        } else {
            Ok(Seq::empty())
        }
    }

    proof fn lemma_diff_params_shape(&self, params: Seq<Term>, x: Vec<Term>, x_prime: Vec<Term>) {
    }

    fn diff_params(&self, params: &[Term], x: &Vec<Term>, x_prime: &Vec<Term>) -> (r: Result<Vec<Term>, KernelError>) {
        if params.len() != 0 {
            return Err(KernelError::ParametersLengthMismatch);
        }
        if x.len() != x_prime.len() {
            return Err(KernelError::InvalidArgument);
        }
        let r: Vec<Term> = Vec::new();
        assert(r@ =~= Seq::empty());
        Ok(r)
    }
}

impl ValueDifferentiableKernel for Linear {
    /// The derivative of `x . x'` along `x_i` is `x'_i`.
    open spec fn spec_diff_value(&self, params: Seq<Term>, x: Vec<Term>, x_prime: Vec<Term>) -> Result<Seq<Term>, KernelError> {
        if params.len() != 0 {
            Err(KernelError::ParametersLengthMismatch)
        } else if x@.len() != x_prime@.len() {
            Err(KernelError::InvalidArgument)
        } else {
            Ok(x_prime@)
        }
    }

    proof fn lemma_diff_value_shape(&self, params: Seq<Term>, x: Vec<Term>, x_prime: Vec<Term>) {
    }

    fn diff_value(&self, params: &[Term], x: &Vec<Term>, x_prime: &Vec<Term>) -> (r: Result<Vec<Term>, KernelError>) {
        if params.len() != 0 {
            return Err(KernelError::ParametersLengthMismatch);
        }
        if x.len() != x_prime.len() {
            return Err(KernelError::InvalidArgument);
        }
        let n = x.len();
        let mut r: Vec<Term> = Vec::new();
        let mut i: usize = 0;
        while i < n
            invariant
                i <= x@.len(),
                n == x@.len(),
                x@.len() == x_prime@.len(),
                r@ == Seq::new(i as nat, |k: int| x_prime@[k]),
            decreases x@.len() - i,
        {
            r.push(x_prime[i].clone());
            assert(r@ =~= Seq::new((i + 1) as nat, |k: int| x_prime@[k]));
            i = i + 1;
        }
        assert(r@ =~= x_prime@);
        Ok(r)
    }
}

impl LogValueDifferentiableKernel for Linear {
    /// The derivative along each coordinate divided by the value.
    open spec fn spec_ln_diff_value(&self, params: Seq<Term>, x: Vec<Term>, x_prime: Vec<Term>) -> Result<Seq<Term>, KernelError> {
        match (self.spec_expression(params, x, x_prime), self.spec_diff_value(params, x, x_prime)) {
            (Ok(v), Ok(d)) => Ok(over_value(d, v)),
            (Err(e), _) => Err(e),
            (_, Err(e)) => Err(e),
        }
    }

    proof fn lemma_ln_diff_value_len(&self, params: Seq<Term>, x: Vec<Term>, x_prime: Vec<Term>) {
        self.lemma_diff_value_shape(params, x, x_prime);
    }

    fn ln_diff_value(&self, params: &[Term], x: &Vec<Term>, x_prime: &Vec<Term>) -> (r: Result<Vec<Term>, KernelError>) {
        let v = self.expression(params, x, x_prime)?;
        let d = self.diff_value(params, x, x_prime)?;
        Ok(divide_each(&d, &v))
    }
}

impl LogParamsDifferentiableKernel<Vec<Term>> for Linear {
    /// The derivative with respect to each parameter divided by the value.
    open spec fn spec_ln_diff_params(&self, params: Seq<Term>, x: Vec<Term>, x_prime: Vec<Term>) -> Result<Seq<Term>, KernelError> {
        match (self.spec_expression(params, x, x_prime), self.spec_diff_params(params, x, x_prime)) {
            (Ok(v), Ok(d)) => Ok(over_value(d, v)),
            (Err(e), _) => Err(e),
            (_, Err(e)) => Err(e),
        }
    }

    fn ln_diff_params(&self, params: &[Term], x: &Vec<Term>, x_prime: &Vec<Term>) -> (r: Result<Vec<Term>, KernelError>) {
        let v = self.expression(params, x, x_prime)?;
        let d = self.diff_params(params, x, x_prime)?;
        Ok(divide_each(&d, &v))
    }
}

} // verus!
