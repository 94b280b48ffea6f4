use crate::kernel::{KernelError, PositiveDefiniteKernel};
use crate::term::{
    cos_of, difference, exp_of, negation, product, quotient, sin_of, sq_dist, sqrt_of, square, squared_distance, Term,
};
use crate::traits::{
    divide_each, over_value, LogParamsDifferentiableKernel, LogValueDifferentiableKernel, ParamsDifferentiableKernel, ValueDifferentiableKernel,
};
use vstd::prelude::*;

verus! {

/// The periodic kernel.
///
/// Parameters: `[amplitude, period]`; value
/// `exp(amplitude * cos(|x - x'| / period))`.
#[derive(Clone, Copy, Debug)]
pub struct Periodic;

/// `exp(amplitude * cos(sqrt(d2) / period))`.
pub open spec fn periodic_formula(amplitude: Term, period: Term, d2: Term) -> Term {
    exp_of(product(amplitude, cos_of(quotient(sqrt_of(d2), period))))
}

impl PositiveDefiniteKernel<Vec<Term>> for Periodic {
    open spec fn spec_params_len(&self) -> nat {
        2
    }

    open spec fn spec_expression(&self, params: Seq<Term>, x: Vec<Term>, x_prime: Vec<Term>) -> Result<Term, KernelError> {
        if params.len() != 2 {
            Err(KernelError::ParametersLengthMismatch)
        } else if x@.len() != x_prime@.len() {
            Err(KernelError::InvalidArgument)
        } else {
            Ok(periodic_formula(params[0], params[1], sq_dist(x@, x_prime@, x@.len())))
        }
    }

    fn params_len(&self) -> (r: usize) {
        2
    }

    fn checked_params_len(&self) -> (r: Option<usize>) {
        Some(2)
    }

    fn expression(&self, params: &[Term], x: &Vec<Term>, x_prime: &Vec<Term>) -> (r: Result<Term, KernelError>) {
        if params.len() != 2 {
            return Err(KernelError::ParametersLengthMismatch);
        }
        if x.len() != x_prime.len() {
            return Err(KernelError::InvalidArgument);
        }
        let norm = Term::Sqrt(Box::new(squared_distance(x.as_slice(), x_prime.as_slice())));
        let phase = Term::Div(Box::new(norm), Box::new(params[1].clone()));
        let inner = Term::Mul(Box::new(params[0].clone()), Box::new(Term::Cos(Box::new(phase))));
        Ok(Term::Exp(Box::new(inner)))
    }
}

/// With `v` the value and `r = sqrt(d2)`:
/// `[v * cos(r / period), v * (amplitude * sin(r / period)) * (r / period^2)]`.
pub open spec fn periodic_gradient(amplitude: Term, period: Term, d2: Term) -> Seq<Term> {
    let v = periodic_formula(amplitude, period, d2);
    let r = sqrt_of(d2);
    let phase = quotient(r, period);
    seq![
        product(v, cos_of(phase)),
        product(product(v, product(amplitude, sin_of(phase))), quotient(r, square(period))),
    ]
}

impl ParamsDifferentiableKernel<Vec<Term>> for Periodic {
    open spec fn spec_diff_params(&self, params: Seq<Term>, x: Vec<Term>, x_prime: Vec<Term>) -> Result<Seq<Term>, KernelError> {
        if params.len() != 2 {
            Err(KernelError::ParametersLengthMismatch)
        } else if x@.len() != x_prime@.len() {
            Err(KernelError::InvalidArgument)
        } else {
            Ok(periodic_gradient(params[0], params[1], sq_dist(x@, x_prime@, x@.len())))
        }
    }

    proof fn lemma_diff_params_shape(&self, params: Seq<Term>, x: Vec<Term>, x_prime: Vec<Term>) {
    }

    fn diff_params(&self, params: &[Term], x: &Vec<Term>, x_prime: &Vec<Term>) -> (r: Result<Vec<Term>, KernelError>) {
        let v = self.expression(params, x, x_prime)?;
        let norm = Term::Sqrt(Box::new(squared_distance(x.as_slice(), x_prime.as_slice())));
        let phase = Term::Div(Box::new(norm.clone()), Box::new(params[1].clone()));
        let d_amplitude = Term::boxed_product(v.clone(), Term::Cos(Box::new(phase.clone())));
        let wave = Term::boxed_product(params[0].clone(), Term::Sin(Box::new(phase)));
        let slope = Term::boxed_quotient(norm, Term::squared(params[1].clone()));
        let d_period = Term::boxed_product(Term::boxed_product(v, wave), slope);
        let r = vec![d_amplitude, d_period];
        assert(r@ =~= periodic_gradient(params@[0], params@[1], sq_dist(x@, x_prime@, x@.len())));
        Ok(r)
    }
}

/// The derivative along `x_i`:
/// `value * -(amplitude * sin(r / period) * ((x_i - x'_i) / (r * period)))` with `r`
/// the distance.
pub open spec fn periodic_input_slope(value: Term, amplitude: Term, period: Term, r: Term, a: Term, b: Term) -> Term {
    product(
        value,
        negation(product(product(amplitude, sin_of(quotient(r, period))), quotient(difference(a, b), product(r, period)))),
    )
}

impl ValueDifferentiableKernel for Periodic {
    open spec fn spec_diff_value(&self, params: Seq<Term>, x: Vec<Term>, x_prime: Vec<Term>) -> Result<Seq<Term>, KernelError> {
        match self.spec_expression(params, x, x_prime) {
            Err(e) => Err(e),
            Ok(v) => Ok(
                Seq::new(
                    x@.len(),
                    |k: int|
                        periodic_input_slope(v, params[0], params[1], sqrt_of(sq_dist(x@, x_prime@, x@.len())), x@[k], x_prime@[k]),
                ),
            ),
        }
    }

    proof fn lemma_diff_value_shape(&self, params: Seq<Term>, x: Vec<Term>, x_prime: Vec<Term>) {
    }

    fn diff_value(&self, params: &[Term], x: &Vec<Term>, x_prime: &Vec<Term>) -> (r: Result<Vec<Term>, KernelError>) {
        let v = self.expression(params, x, x_prime)?;
        let norm = Term::Sqrt(Box::new(squared_distance(x.as_slice(), x_prime.as_slice())));
        let wave = Term::boxed_product(
            params[0].clone(),
            Term::Sin(Box::new(Term::boxed_quotient(norm.clone(), params[1].clone()))),
        );
        let n = x.len();
        let mut r: Vec<Term> = Vec::new();
        let mut i: usize = 0;
        while i < n
            invariant
                i <= x@.len(),
                n == x@.len(),
                x@.len() == x_prime@.len(),
                params@.len() == 2,
                norm == sqrt_of(sq_dist(x@, x_prime@, x@.len())),
                wave == product(params@[0], sin_of(quotient(norm, params@[1]))),
                r@ == Seq::new(i as nat, |k: int| periodic_input_slope(v, params@[0], params@[1], norm, x@[k], x_prime@[k])),
            decreases x@.len() - i,
        {
            r.push(Term::boxed_product(
                v.clone(),
                Term::Neg(Box::new(Term::boxed_product(
                    wave.clone(),
                    Term::boxed_quotient(
                        Term::boxed_difference(x[i].clone(), x_prime[i].clone()),
                        Term::boxed_product(norm.clone(), params[1].clone()),
                    ),
                ))),
            ));
            assert(r@ =~= Seq::new((i + 1) as nat, |k: int| periodic_input_slope(v, params@[0], params@[1], norm, x@[k], x_prime@[k])));
            i = i + 1;
        }
        Ok(r)
    }
}

impl LogValueDifferentiableKernel for Periodic {
    /// The derivative along each coordinate divided by the value.
    open spec fn spec_ln_diff_value(&self, params: Seq<Term>, x: Vec<Term>, x_prime: Vec<Term>) -> Result<Seq<Term>, KernelError> {
        match (self.spec_expression(params, x, x_prime), self.spec_diff_value(params, x, x_prime)) {
            (Ok(v), Ok(d)) => Ok(over_value(d, v)),
            (Err(e), _) => Err(e),
            (_, Err(e)) => Err(e),
        }
    }

    proof fn lemma_ln_diff_value_len(&self, params: Seq<Term>, x: Vec<Term>, x_prime: Vec<Term>) {
        self.lemma_diff_value_shape(params, x, x_prime);
    }

    fn ln_diff_value(&self, params: &[Term], x: &Vec<Term>, x_prime: &Vec<Term>) -> (r: Result<Vec<Term>, KernelError>) {
        let v = self.expression(params, x, x_prime)?;
        let d = self.diff_value(params, x, x_prime)?;
        Ok(divide_each(&d, &v))
    }
}

impl LogParamsDifferentiableKernel<Vec<Term>> for Periodic {
    /// The derivative with respect to each parameter divided by the value.
    open spec fn spec_ln_diff_params(&self, params: Seq<Term>, x: Vec<Term>, x_prime: Vec<Term>) -> Result<Seq<Term>, KernelError> {
        match (self.spec_expression(params, x, x_prime), self.spec_diff_params(params, x, x_prime)) {
            (Ok(v), Ok(d)) => Ok(over_value(d, v)),
            (Err(e), _) => Err(e),
            (_, Err(e)) => Err(e),
        }
    }

    fn ln_diff_params(&self, params: &[Term], x: &Vec<Term>, x_prime: &Vec<Term>) -> (r: Result<Vec<Term>, KernelError>) {
        let v = self.expression(params, x, x_prime)?;
        let d = self.diff_params(params, x, x_prime)?;
        Ok(divide_each(&d, &v))
    }
}

} // verus!
