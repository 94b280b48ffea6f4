use crate::kernel::{KernelError, PositiveDefiniteKernel, Value};
use crate::term::Term;
use crate::traits::{
    divide_each, over_value, LogParamsDifferentiableKernel, LogValueDifferentiableKernel, ParamsDifferentiableKernel, ValueDifferentiableKernel,
};
use vstd::prelude::*;

verus! {

/// The constant kernel: its single parameter, whatever the inputs.
#[derive(Clone, Copy, Debug)]
pub struct Constant;

impl<T: Value> PositiveDefiniteKernel<T> for Constant {
    open spec fn spec_params_len(&self) -> nat {
        1
    }

    open spec fn spec_expression(&self, params: Seq<Term>, x: T, x_prime: T) -> Result<Term, KernelError> {
        if params.len() != 1 {
            Err(KernelError::ParametersLengthMismatch)
        } else {
            Ok(params[0])
        }
    }

    fn params_len(&self) -> (r: usize) {
        1
    }

    fn checked_params_len(&self) -> (r: Option<usize>) {
        Some(1)
    }

    fn expression(&self, params: &[Term], x: &T, x_prime: &T) -> (r: Result<Term, KernelError>) {
        if params.len() != 1 {
            return Err(KernelError::ParametersLengthMismatch);
        }
        Ok(params[0].clone())
    }
}

impl<T: Value> ParamsDifferentiableKernel<T> for Constant {
    /// The value is the parameter itself: its derivative is one.
    open spec fn spec_diff_params(&self, params: Seq<Term>, x: T, x_prime: T) -> Result<Seq<Term>, KernelError> {
        if params.len() != 1 {
            Err(KernelError::ParametersLengthMismatch)
        } else {
            Ok(seq![Term::Int(1)])
        }
    }

    proof fn lemma_diff_params_shape(&self, params: Seq<Term>, x: T, x_prime: T) {
    }

    fn diff_params(&self, params: &[Term], x: &T, x_prime: &T) -> (r: Result<Vec<Term>, KernelError>) {
        if params.len() != 1 {
            return Err(KernelError::ParametersLengthMismatch);
        }
        let r = vec![Term::Int(1)];
        assert(r@ =~= seq![Term::Int(1)]);
        Ok(r)
    }
}

impl ValueDifferentiableKernel for Constant {
    /// The value does not depend on the points.
    open spec fn spec_diff_value(&self, params: Seq<Term>, x: Vec<Term>, x_prime: Vec<Term>) -> Result<Seq<Term>, KernelError> {
        if params.len() != 1 {
            Err(KernelError::ParametersLengthMismatch)
        } else {
            Ok(Seq::new(x@.len(), |k: int| Term::Int(0)))
        }
    }

    proof fn lemma_diff_value_shape(&self, params: Seq<Term>, x: Vec<Term>, x_prime: Vec<Term>) {
    }

    fn diff_value(&self, params: &[Term], x: &Vec<Term>, x_prime: &Vec<Term>) -> (r: Result<Vec<Term>, KernelError>) {
        if params.len() != 1 {
            return Err(KernelError::ParametersLengthMismatch);
        }
        let n = x.len();
        let mut r: Vec<Term> = Vec::new();
        let mut i: usize = 0;
        while i < n
            invariant
                i <= x@.len(),
                n == x@.len(),
                r@ == Seq::new(i as nat, |k: int| Term::Int(0)),
            decreases x@.len() - i,
        {
            r.push(Term::Int(0));
            assert(r@ =~= Seq::new((i + 1) as nat, |k: int| Term::Int(0)));
            i = i + 1;
        }
        Ok(r)
    }
}

impl LogValueDifferentiableKernel for Constant {
    /// The derivative along each coordinate divided by the value.
    open spec fn spec_ln_diff_value(&self, params: Seq<Term>, x: Vec<Term>, x_prime: Vec<Term>) -> Result<Seq<Term>, KernelError> {
        match (self.spec_expression(params, x, x_prime), self.spec_diff_value(params, x, x_prime)) {
            (Ok(v), Ok(d)) => Ok(over_value(d, v)),
            (Err(e), _) => Err(e),
            (_, Err(e)) => Err(e),
        }
    }

    proof fn lemma_ln_diff_value_len(&self, params: Seq<Term>, x: Vec<Term>, x_prime: Vec<Term>) {
        self.lemma_diff_value_shape(params, x, x_prime);
    }

    fn ln_diff_value(&self, params: &[Term], x: &Vec<Term>, x_prime: &Vec<Term>) -> (r: Result<Vec<Term>, KernelError>) {
        let v = self.expression(params, x, x_prime)?;
        let d = self.diff_value(params, x, x_prime)?;
        Ok(divide_each(&d, &v))
    }
}

impl<T: Value> LogParamsDifferentiableKernel<T> for Constant {
    /// The derivative with respect to each parameter divided by the value.
    open spec fn spec_ln_diff_params(&self, params: Seq<Term>, x: T, x_prime: T) -> Result<Seq<Term>, KernelError> {
        match (self.spec_expression(params, x, x_prime), self.spec_diff_params(params, x, x_prime)) {
            (Ok(v), Ok(d)) => Ok(over_value(d, v)),
            (Err(e), _) => Err(e),
            (_, Err(e)) => Err(e),
        }
    }

    fn ln_diff_params(&self, params: &[Term], x: &T, x_prime: &T) -> (r: Result<Vec<Term>, KernelError>) {
        let v = self.expression(params, x, x_prime)?;
        let d = self.diff_params(params, x, x_prime)?;
        Ok(divide_each(&d, &v))
    }
}

} // verus!
