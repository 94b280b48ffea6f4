use crate::kernel::{KernelError, PositiveDefiniteKernel, Value};
use crate::term::{quotient, Term};
use vstd::prelude::*;

verus! {

/// What a vector-valued evaluation promises: on success the vector's view is the
/// specified sequence, on failure the error is the specified one.
pub open spec fn vector_result_matches(r: Result<Vec<Term>, KernelError>, s: Result<Seq<Term>, KernelError>) -> bool {
    match r {
        Ok(v) => s == Ok::<Seq<Term>, KernelError>(v@),
        Err(e) => s == Err::<Seq<Term>, KernelError>(e),
    }
}

/// Kernels with a closed-form gradient with respect to their parameters.
pub trait ParamsDifferentiableKernel<T: Value>: PositiveDefiniteKernel<T> {
    /// The partial derivatives of the value, one per parameter, in parameter
    /// order.
    spec fn spec_diff_params(&self, params: Seq<Term>, x: T, x_prime: T) -> Result<Seq<Term>, KernelError>;

    /// The gradient exists exactly where the value does, fails with the value's
    /// error elsewhere, and has one entry per parameter.
    proof fn lemma_diff_params_shape(&self, params: Seq<Term>, x: T, x_prime: T)
        ensures
            self.spec_diff_params(params, x, x_prime) is Ok <==> self.spec_expression(params, x, x_prime) is Ok,
            self.spec_expression(params, x, x_prime) is Err ==> self.spec_diff_params(params, x, x_prime)
                == Err::<Seq<Term>, KernelError>(self.spec_expression(params, x, x_prime)->Err_0),
            self.spec_diff_params(params, x, x_prime) is Ok ==> self.spec_diff_params(params, x, x_prime)->Ok_0.len()
                == params.len(),
    ;

    fn diff_params(&self, params: &[Term], x: &T, x_prime: &T) -> (r: Result<Vec<Term>, KernelError>)
        ensures
            vector_result_matches(r, self.spec_diff_params(params@, *x, *x_prime)),
    ;

    /// The value and the gradient together; the value's error comes first.
    fn value_with_grad(&self, params: &[Term], x: &T, x_prime: &T) -> (r: Result<(Term, Vec<Term>), KernelError>)
        ensures
            match self.spec_expression(params@, *x, *x_prime) {
                Err(e) => r == Err::<(Term, Vec<Term>), KernelError>(e),
                Ok(v) => match self.spec_diff_params(params@, *x, *x_prime) {
                    Err(e) => r is Err && r->Err_0 == e,
                    Ok(g) => r is Ok && r->Ok_0.0 == v && r->Ok_0.1@ == g,
                },
            },
    {
        let v = self.expression(params, x, x_prime)?;
        let g = self.diff_params(params, x, x_prime)?;
        Ok((v, g))
    }
}

/// Kernels over points with a closed-form derivative of their value with
/// respect to each coordinate of the first point.
pub trait ValueDifferentiableKernel: PositiveDefiniteKernel<Vec<Term>> {
    /// One partial derivative per coordinate of `x`.
    spec fn spec_diff_value(&self, params: Seq<Term>, x: Vec<Term>, x_prime: Vec<Term>) -> Result<Seq<Term>, KernelError>;

    /// The derivative exists exactly where the value does, fails with the
    /// value's error elsewhere, and has one entry per coordinate of `x`.
    proof fn lemma_diff_value_shape(&self, params: Seq<Term>, x: Vec<Term>, x_prime: Vec<Term>)
        ensures
            self.spec_diff_value(params, x, x_prime) is Ok <==> self.spec_expression(params, x, x_prime) is Ok,
            self.spec_expression(params, x, x_prime) is Err ==> self.spec_diff_value(params, x, x_prime)
                == Err::<Seq<Term>, KernelError>(self.spec_expression(params, x, x_prime)->Err_0),
            self.spec_diff_value(params, x, x_prime) is Ok ==> self.spec_diff_value(params, x, x_prime)->Ok_0.len()
                == x@.len(),
    ;

    fn diff_value(&self, params: &[Term], x: &Vec<Term>, x_prime: &Vec<Term>) -> (r: Result<Vec<Term>, KernelError>)
        ensures
            vector_result_matches(r, self.spec_diff_value(params@, *x, *x_prime)),
    ;
}

/// Kernels with a closed-form derivative of the logarithm of their value with
/// respect to the first input point, one entry per coordinate.
pub trait LogValueDifferentiableKernel: PositiveDefiniteKernel<Vec<Term>> {
    spec fn spec_ln_diff_value(&self, params: Seq<Term>, x: Vec<Term>, x_prime: Vec<Term>) -> Result<Seq<Term>, KernelError>;

    /// A successful derivative has one entry per coordinate of `x`.
    proof fn lemma_ln_diff_value_len(&self, params: Seq<Term>, x: Vec<Term>, x_prime: Vec<Term>)
        ensures
            self.spec_ln_diff_value(params, x, x_prime) is Ok ==> self.spec_ln_diff_value(params, x, x_prime)->Ok_0.len()
                == x@.len(),
    ;

    fn ln_diff_value(&self, params: &[Term], x: &Vec<Term>, x_prime: &Vec<Term>) -> (r: Result<Vec<Term>, KernelError>)
        ensures
            vector_result_matches(r, self.spec_ln_diff_value(params@, *x, *x_prime)),
    ;
}

/// Kernels with a closed-form derivative of the logarithm of their value with
/// respect to the parameters, in parameter order.
pub trait LogParamsDifferentiableKernel<T: Value>: PositiveDefiniteKernel<T> {
    spec fn spec_ln_diff_params(&self, params: Seq<Term>, x: T, x_prime: T) -> Result<Seq<Term>, KernelError>;

    fn ln_diff_params(&self, params: &[Term], x: &T, x_prime: &T) -> (r: Result<Vec<Term>, KernelError>)
        ensures
            vector_result_matches(r, self.spec_ln_diff_params(params@, *x, *x_prime)),
    ;
}

/// Each entry of `d` divided by `v`: a derivative turned into the derivative of
/// the logarithm.
pub open spec fn over_value(d: Seq<Term>, v: Term) -> Seq<Term> {
    Seq::new(d.len(), |i: int| quotient(d[i], v))
}

/// Each entry of `d` divided by `v`.
pub fn divide_each(d: &Vec<Term>, v: &Term) -> (r: Vec<Term>)
    ensures
        r@ == over_value(d@, *v),
{
    let mut r: Vec<Term> = Vec::new();
    let mut i: usize = 0;
    while i < d.len()
        invariant
            i <= d@.len(),
            r@ == over_value(d@, *v).take(i as int),
        decreases d@.len() - i,
    {
        r.push(Term::boxed_quotient(d[i].clone(), v.clone()));
        assert(over_value(d@, *v).take(i + 1) =~= over_value(d@, *v).take(i as int).push(quotient(d@[i as int], *v)));
        i = i + 1;
    }
    assert(over_value(d@, *v).take(d@.len() as int) =~= over_value(d@, *v));
    r
}

} // verus!
