use crate::kernel::{KernelError, PositiveDefiniteKernel};
use crate::term::{difference, exp_of, negation, product, quotient, sq_dist, square, squared_distance, Term};
use crate::traits::{
    divide_each, over_value, LogParamsDifferentiableKernel, LogValueDifferentiableKernel, ParamsDifferentiableKernel, ValueDifferentiableKernel,
};
use vstd::prelude::*;

verus! {

/// The radial basis function (squared exponential) kernel.
///
/// Parameters: `[amplitude, lengthscale]`; value
/// `amplitude * exp(-|x - x'|^2 / lengthscale)`.
#[derive(Clone, Copy, Debug)]
pub struct RBF;

/// `amplitude * exp(-d2 / lengthscale)`.
pub open spec fn rbf_formula(amplitude: Term, lengthscale: Term, d2: Term) -> Term {
    product(amplitude, exp_of(negation(quotient(d2, lengthscale))))
}

impl PositiveDefiniteKernel<Vec<Term>> for RBF {
    open spec fn spec_params_len(&self) -> nat {
        2
    }

    open spec fn spec_expression(&self, params: Seq<Term>, x: Vec<Term>, x_prime: Vec<Term>) -> Result<Term, KernelError> {
        if params.len() != 2 {
            Err(KernelError::ParametersLengthMismatch)
        } else if x@.len() != x_prime@.len() {
            Err(KernelError::InvalidArgument)
        } else {
            Ok(rbf_formula(params[0], params[1], sq_dist(x@, x_prime@, x@.len())))
        }
    }

    fn params_len(&self) -> (r: usize) {
        2
    }

    fn checked_params_len(&self) -> (r: Option<usize>) {
        Some(2)
    }

    fn expression(&self, params: &[Term], x: &Vec<Term>, x_prime: &Vec<Term>) -> (r: Result<Term, KernelError>) {
        if params.len() != 2 {
            return Err(KernelError::ParametersLengthMismatch);
        }
        if x.len() != x_prime.len() {
            return Err(KernelError::InvalidArgument);
        }
        let d2 = squared_distance(x.as_slice(), x_prime.as_slice());
        let scaled = Term::Div(Box::new(d2), Box::new(params[1].clone()));
        let e = Term::Exp(Box::new(Term::Neg(Box::new(scaled))));
        Ok(Term::Mul(Box::new(params[0].clone()), Box::new(e)))
    }
}

/// `[exp(-d2 / l), amplitude * exp(-d2 / l) * (d2 / l^2)]`.
pub open spec fn rbf_gradient(amplitude: Term, lengthscale: Term, d2: Term) -> Seq<Term> {
    let e = exp_of(negation(quotient(d2, lengthscale)));
    seq![e, product(product(amplitude, e), quotient(d2, square(lengthscale)))]
}

impl ParamsDifferentiableKernel<Vec<Term>> for RBF {
    open spec fn spec_diff_params(&self, params: Seq<Term>, x: Vec<Term>, x_prime: Vec<Term>) -> Result<Seq<Term>, KernelError> {
        if params.len() != 2 {
            Err(KernelError::ParametersLengthMismatch)
        } else if x@.len() != x_prime@.len() {
            Err(KernelError::InvalidArgument)
        } else {
            Ok(rbf_gradient(params[0], params[1], sq_dist(x@, x_prime@, x@.len())))
        }
    }

    proof fn lemma_diff_params_shape(&self, params: Seq<Term>, x: Vec<Term>, x_prime: Vec<Term>) {
    }

    fn diff_params(&self, params: &[Term], x: &Vec<Term>, x_prime: &Vec<Term>) -> (r: Result<Vec<Term>, KernelError>) {
        if params.len() != 2 {
            return Err(KernelError::ParametersLengthMismatch);
        }
        if x.len() != x_prime.len() {
            return Err(KernelError::InvalidArgument);
        }
        let d2 = squared_distance(x.as_slice(), x_prime.as_slice());
        let scaled = Term::Div(Box::new(d2.clone()), Box::new(params[1].clone()));
        let e = Term::Exp(Box::new(Term::Neg(Box::new(scaled))));
        let slope = Term::boxed_quotient(d2, Term::squared(params[1].clone()));
        let d_lengthscale = Term::boxed_product(Term::boxed_product(params[0].clone(), e.clone()), slope);
        let r = vec![e, d_lengthscale];
        assert(r@ =~= rbf_gradient(params@[0], params@[1], sq_dist(x@, x_prime@, x@.len())));
        Ok(r)
    }
}

/// The derivative along `x_i`: `value * -(2 (x_i - x'_i) / lengthscale)`.
pub open spec fn rbf_input_slope(value: Term, lengthscale: Term, a: Term, b: Term) -> Term {
    product(value, negation(quotient(product(Term::Int(2), difference(a, b)), lengthscale)))
}

impl ValueDifferentiableKernel for RBF {
    open spec fn spec_diff_value(&self, params: Seq<Term>, x: Vec<Term>, x_prime: Vec<Term>) -> Result<Seq<Term>, KernelError> {
        match self.spec_expression(params, x, x_prime) {
            Err(e) => Err(e),
            Ok(v) => Ok(Seq::new(x@.len(), |k: int| rbf_input_slope(v, params[1], x@[k], x_prime@[k]))),
        }
    }

    proof fn lemma_diff_value_shape(&self, params: Seq<Term>, x: Vec<Term>, x_prime: Vec<Term>) {
    }

    fn diff_value(&self, params: &[Term], x: &Vec<Term>, x_prime: &Vec<Term>) -> (r: Result<Vec<Term>, KernelError>) {
        let v = self.expression(params, x, x_prime)?;
        let n = x.len();
        let mut r: Vec<Term> = Vec::new();
        let mut i: usize = 0;
        while i < n
            invariant
                i <= x@.len(),
                n == x@.len(),
                x@.len() == x_prime@.len(),
                params@.len() == 2,
                r@ == Seq::new(i as nat, |k: int| rbf_input_slope(v, params@[1], x@[k], x_prime@[k])),
            decreases x@.len() - i,
        {
            r.push(Term::boxed_product(
                v.clone(),
                Term::Neg(Box::new(Term::boxed_quotient(
                    Term::boxed_product(Term::Int(2), Term::boxed_difference(x[i].clone(), x_prime[i].clone())),
                    params[1].clone(),
                ))),
            ));
            assert(r@ =~= Seq::new((i + 1) as nat, |k: int| rbf_input_slope(v, params@[1], x@[k], x_prime@[k])));
            i = i + 1;
        }
        Ok(r)
    }
}

impl LogValueDifferentiableKernel for RBF {
    /// The derivative along each coordinate divided by the value.
    open spec fn spec_ln_diff_value(&self, params: Seq<Term>, x: Vec<Term>, x_prime: Vec<Term>) -> Result<Seq<Term>, KernelError> {
        match (self.spec_expression(params, x, x_prime), self.spec_diff_value(params, x, x_prime)) {
            (Ok(v), Ok(d)) => Ok(over_value(d, v)),
            (Err(e), _) => Err(e),
            (_, Err(e)) => Err(e),
        }
    }

    proof fn lemma_ln_diff_value_len(&self, params: Seq<Term>, x: Vec<Term>, x_prime: Vec<Term>) {
        self.lemma_diff_value_shape(params, x, x_prime);
    }

    fn ln_diff_value(&self, params: &[Term], x: &Vec<Term>, x_prime: &Vec<Term>) -> (r: Result<Vec<Term>, KernelError>) {
        let v = self.expression(params, x, x_prime)?;
        let d = self.diff_value(params, x, x_prime)?;
        Ok(divide_each(&d, &v))
    }
}

impl LogParamsDifferentiableKernel<Vec<Term>> for RBF {
    /// The derivative with respect to each parameter divided by the value.
    open spec fn spec_ln_diff_params(&self, params: Seq<Term>, x: Vec<Term>, x_prime: Vec<Term>) -> Result<Seq<Term>, KernelError> {
        match (self.spec_expression(params, x, x_prime), self.spec_diff_params(params, x, x_prime)) {
            (Ok(v), Ok(d)) => Ok(over_value(d, v)),
            (Err(e), _) => Err(e),
            (_, Err(e)) => Err(e),
        }
    }

    fn ln_diff_params(&self, params: &[Term], x: &Vec<Term>, x_prime: &Vec<Term>) -> (r: Result<Vec<Term>, KernelError>) {
        let v = self.expression(params, x, x_prime)?;
        let d = self.diff_params(params, x, x_prime)?;
        Ok(divide_each(&d, &v))
    }
}

} // verus!
