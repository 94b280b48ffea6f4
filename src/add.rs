use crate::kernel::{split_point, KernelError, PositiveDefiniteKernel, Value};
use crate::term::{product, quotient, sum, Term};
use crate::traits::{
    LogParamsDifferentiableKernel, LogValueDifferentiableKernel, ParamsDifferentiableKernel, ValueDifferentiableKernel,
};
use vstd::prelude::*;
use vstd::slice::slice_subrange;

verus! {

/// The sum of two kernels over the same inputs.
///
/// The parameter vector is split in two: the first `lhs.params_len()` entries go
/// to `lhs`, the rest to `rhs`.
#[derive(Clone, Copy, Debug)]
pub struct KernelAdd<L, R> {
    lhs: L,
    rhs: R,
}

impl<L, R> KernelAdd<L, R> {
    pub closed spec fn left(&self) -> L {
        self.lhs
    }

    pub closed spec fn right(&self) -> R {
        self.rhs
    }

    /// The sum of `lhs` and `rhs`, as a value of the specification.
    pub closed spec fn spec_new(lhs: L, rhs: R) -> Self {
        KernelAdd { lhs, rhs }
    }

    pub fn new(lhs: L, rhs: R) -> (r: Self)
        ensures
            r == Self::spec_new(lhs, rhs),
            r.left() == lhs,
            r.right() == rhs,
    {
        KernelAdd { lhs, rhs }
    }
}

impl<T: Value, L: PositiveDefiniteKernel<T>, R: PositiveDefiniteKernel<T>> PositiveDefiniteKernel<T> for KernelAdd<L, R> {
    open spec fn spec_params_len(&self) -> nat {
        self.left().spec_params_len() + self.right().spec_params_len()
    }

    open spec fn spec_expression(&self, params: Seq<Term>, x: T, x_prime: T) -> Result<Term, KernelError> {
        let n = self.left().spec_params_len() as int;
        if params.len() != self.spec_params_len() {
            Err(KernelError::ParametersLengthMismatch)
        } else {
            match self.left().spec_expression(params.take(n), x, x_prime) {
                Err(e) => Err(e),
                Ok(f) => match self.right().spec_expression(params.skip(n), x, x_prime) {
                    Err(e) => Err(e),
                    Ok(g) => Ok(sum(f, g)),
                },
            }
        }
    }

    fn params_len(&self) -> (r: usize) {
        self.lhs.params_len() + self.rhs.params_len()
    }

    fn checked_params_len(&self) -> (r: Option<usize>) {
        match (self.lhs.checked_params_len(), self.rhs.checked_params_len()) {
            (Some(n), Some(m)) => n.checked_add(m),
            _ => None,
        }
    }

    fn expression(&self, params: &[Term], x: &T, x_prime: &T) -> (r: Result<Term, KernelError>) {
        let total = params.len();
        let n = match split_point::<T, L, R>(&self.lhs, &self.rhs, total) {
            Some(n) => n,
            None => return Err(KernelError::ParametersLengthMismatch),
        };
        proof {
            assert(params@.subrange(0, n as int) == params@.take(n as int));
            assert(params@.subrange(n as int, total as int) == params@.skip(n as int));
        }
        let f = self.lhs.expression(slice_subrange(params, 0, n), x, x_prime)?;
        let g = self.rhs.expression(slice_subrange(params, n, total), x, x_prime)?;
        Ok(Term::Add(Box::new(f), Box::new(g)))
    }
}

impl<T: Value, L: ParamsDifferentiableKernel<T>, R: ParamsDifferentiableKernel<T>> ParamsDifferentiableKernel<T> for KernelAdd<L, R> {
    /// The sum rule: the children's gradients, one after the other.
    open spec fn spec_diff_params(&self, params: Seq<Term>, x: T, x_prime: T) -> Result<Seq<Term>, KernelError> {
        let n = self.left().spec_params_len() as int;
        if params.len() != self.left().spec_params_len() + self.right().spec_params_len() {
            Err(KernelError::ParametersLengthMismatch)
        } else {
            match self.left().spec_diff_params(params.take(n), x, x_prime) {
                Err(e) => Err(e),
                Ok(a) => match self.right().spec_diff_params(params.skip(n), x, x_prime) {
                    Err(e) => Err(e),
                    Ok(b) => Ok(a + b),
                },
            }
        }
    }

    proof fn lemma_diff_params_shape(&self, params: Seq<Term>, x: T, x_prime: T) {
        let n = self.left().spec_params_len() as int;
        self.left().lemma_diff_params_shape(params.take(n), x, x_prime);
        self.right().lemma_diff_params_shape(params.skip(n), x, x_prime);
    }

    fn diff_params(&self, params: &[Term], x: &T, x_prime: &T) -> (r: Result<Vec<Term>, KernelError>) {
        let total = params.len();
        let n = match split_point::<T, L, R>(&self.lhs, &self.rhs, total) {
            Some(n) => n,
            None => return Err(KernelError::ParametersLengthMismatch),
        };
        proof {
            assert(params@.subrange(0, n as int) == params@.take(n as int));
            assert(params@.subrange(n as int, total as int) == params@.skip(n as int));
        }
        let mut a = self.lhs.diff_params(slice_subrange(params, 0, n), x, x_prime)?;
        let mut b = self.rhs.diff_params(slice_subrange(params, n, total), x, x_prime)?;
        a.append(&mut b);
        Ok(a)
    }
}

impl<L: ValueDifferentiableKernel, R: ValueDifferentiableKernel> ValueDifferentiableKernel for KernelAdd<L, R> {
    /// The sum rule, coordinate by coordinate.
    open spec fn spec_diff_value(&self, params: Seq<Term>, x: Vec<Term>, x_prime: Vec<Term>) -> Result<Seq<Term>, KernelError> {
        let n = self.left().spec_params_len() as int;
        if params.len() != self.left().spec_params_len() + self.right().spec_params_len() {
            Err(KernelError::ParametersLengthMismatch)
        } else {
            match self.left().spec_diff_value(params.take(n), x, x_prime) {
                Err(e) => Err(e),
                Ok(a) => match self.right().spec_diff_value(params.skip(n), x, x_prime) {
                    Err(e) => Err(e),
                    Ok(b) => Ok(Seq::new(x@.len(), |i: int| sum(a[i], b[i]))),
                },
            }
        }
    }

    proof fn lemma_diff_value_shape(&self, params: Seq<Term>, x: Vec<Term>, x_prime: Vec<Term>) {
        let n = self.left().spec_params_len() as int;
        self.left().lemma_diff_value_shape(params.take(n), x, x_prime);
        self.right().lemma_diff_value_shape(params.skip(n), x, x_prime);
    }

    fn diff_value(&self, params: &[Term], x: &Vec<Term>, x_prime: &Vec<Term>) -> (r: Result<Vec<Term>, KernelError>) {
        let total = params.len();
        let n = match split_point::<Vec<Term>, L, R>(&self.lhs, &self.rhs, total) {
            Some(n) => n,
            None => return Err(KernelError::ParametersLengthMismatch),
        };
        proof {
            assert(params@.subrange(0, n as int) == params@.take(n as int));
            assert(params@.subrange(n as int, total as int) == params@.skip(n as int));
        }
        let left_params = slice_subrange(params, 0, n);
        let right_params = slice_subrange(params, n, total);
        let a = self.lhs.diff_value(left_params, x, x_prime)?;
        let b = self.rhs.diff_value(right_params, x, x_prime)?;
        proof {
            self.lhs.lemma_diff_value_shape(left_params@, *x, *x_prime);
            self.rhs.lemma_diff_value_shape(right_params@, *x, *x_prime);
        }
        let mut out: Vec<Term> = Vec::new();
        let mut i: usize = 0;
        while i < x.len()
            invariant
                i <= x@.len(),
                a@.len() == x@.len(),
                b@.len() == x@.len(),
                out@ == Seq::new(i as nat, |k: int| sum(a@[k], b@[k])),
            decreases x@.len() - i,
        {
            out.push(Term::boxed_sum(a[i].clone(), b[i].clone()));
            assert(out@ =~= Seq::new((i + 1) as nat, |k: int| sum(a@[k], b@[k])));
            i = i + 1;
        }
        Ok(out)
    }
}

/// The log-derivative of `f + g` from those of `f` and `g`:
/// `(f * dln_f + g * dln_g) / (f + g)`.
pub open spec fn log_sum_slope(dln_f: Term, dln_g: Term, f: Term, g: Term) -> Term {
    quotient(sum(product(f, dln_f), product(g, dln_g)), sum(f, g))
}

/// `share * d / total` for each entry `d`.
pub open spec fn weighted_shares(d: Seq<Term>, share: Term, total: Term) -> Seq<Term> {
    Seq::new(d.len(), |i: int| quotient(product(share, d[i]), total))
}

/// `share * d[i] / total` for each entry.
fn push_weighted_shares(d: &Vec<Term>, share: &Term, total: &Term, out: &mut Vec<Term>)
    ensures
        final(out)@ == old(out)@ + weighted_shares(d@, *share, *total),
{
    let ghost start = out@;
    let mut i: usize = 0;
    while i < d.len()
        invariant
            i <= d@.len(),
            out@ == start + weighted_shares(d@, *share, *total).take(i as int),
        decreases d@.len() - i,
    {
        out.push(Term::boxed_quotient(Term::boxed_product(share.clone(), d[i].clone()), total.clone()));
        assert(weighted_shares(d@, *share, *total).take(i + 1) =~= weighted_shares(d@, *share, *total).take(i as int).push(
            quotient(product(*share, d@[i as int]), *total),
        ));
        i = i + 1;
    }
    assert(weighted_shares(d@, *share, *total).take(d@.len() as int) =~= weighted_shares(d@, *share, *total));
}

impl<L: LogValueDifferentiableKernel, R: LogValueDifferentiableKernel> LogValueDifferentiableKernel for KernelAdd<L, R> {
    /// Coordinate by coordinate, `(f * dln_f + g * dln_g) / (f + g)`. Errors come
    /// in this order: the left value, the right value, the left log-derivative,
    /// the right log-derivative.
    open spec fn spec_ln_diff_value(&self, params: Seq<Term>, x: Vec<Term>, x_prime: Vec<Term>) -> Result<Seq<Term>, KernelError> {
        let n = self.left().spec_params_len() as int;
        if params.len() != self.left().spec_params_len() + self.right().spec_params_len() {
            Err(KernelError::ParametersLengthMismatch)
        } else {
            match self.left().spec_expression(params.take(n), x, x_prime) {
                Err(e) => Err(e),
                Ok(f) => match self.right().spec_expression(params.skip(n), x, x_prime) {
                    Err(e) => Err(e),
                    Ok(g) => match self.left().spec_ln_diff_value(params.take(n), x, x_prime) {
                        Err(e) => Err(e),
                        Ok(a) => match self.right().spec_ln_diff_value(params.skip(n), x, x_prime) {
                            Err(e) => Err(e),
                            Ok(b) => Ok(Seq::new(x@.len(), |i: int| log_sum_slope(a[i], b[i], f, g))),
                        },
                    },
                },
            }
        }
    }

    proof fn lemma_ln_diff_value_len(&self, params: Seq<Term>, x: Vec<Term>, x_prime: Vec<Term>) {
    }

    fn ln_diff_value(&self, params: &[Term], x: &Vec<Term>, x_prime: &Vec<Term>) -> (r: Result<Vec<Term>, KernelError>) {
        let total = params.len();
        let n = match split_point::<Vec<Term>, L, R>(&self.lhs, &self.rhs, total) {
            Some(n) => n,
            None => return Err(KernelError::ParametersLengthMismatch),
        };
        proof {
            assert(params@.subrange(0, n as int) == params@.take(n as int));
            assert(params@.subrange(n as int, total as int) == params@.skip(n as int));
        }
        let left_params = slice_subrange(params, 0, n);
        let right_params = slice_subrange(params, n, total);
        let f = self.lhs.expression(left_params, x, x_prime)?;
        let g = self.rhs.expression(right_params, x, x_prime)?;
        let a = self.lhs.ln_diff_value(left_params, x, x_prime)?;
        let b = self.rhs.ln_diff_value(right_params, x, x_prime)?;
        proof {
            self.lhs.lemma_ln_diff_value_len(left_params@, *x, *x_prime);
            self.rhs.lemma_ln_diff_value_len(right_params@, *x, *x_prime);
        }
        let total_value = Term::boxed_sum(f.clone(), g.clone());
        let mut out: Vec<Term> = Vec::new();
        let mut i: usize = 0;
        while i < x.len()
            invariant
                i <= x@.len(),
                a@.len() == x@.len(),
                b@.len() == x@.len(),
                total_value == sum(f, g),
                out@ == Seq::new(i as nat, |k: int| log_sum_slope(a@[k], b@[k], f, g)),
            decreases x@.len() - i,
        {
            let entry = Term::boxed_quotient(
                Term::boxed_sum(
                    Term::boxed_product(f.clone(), a[i].clone()),
                    Term::boxed_product(g.clone(), b[i].clone()),
                ),
                total_value.clone(),
            );
            out.push(entry);
            assert(out@ =~= Seq::new((i + 1) as nat, |k: int| log_sum_slope(a@[k], b@[k], f, g)));
            i = i + 1;
        }
        Ok(out)
    }
}

impl<T: Value, L: LogParamsDifferentiableKernel<T>, R: LogParamsDifferentiableKernel<T>> LogParamsDifferentiableKernel<T> for KernelAdd<L, R> {
    /// With `f`, `g` the children's values and `a`, `b` their log-derivatives:
    /// `f * a[i] / (f + g)` for each left parameter, then `g * b[j] / (f + g)`.
    /// Errors come in this order: the left value, the right value, the left
    /// log-derivative, the right log-derivative.
    open spec fn spec_ln_diff_params(&self, params: Seq<Term>, x: T, x_prime: T) -> Result<Seq<Term>, KernelError> {
        let n = self.left().spec_params_len() as int;
        if params.len() != self.left().spec_params_len() + self.right().spec_params_len() {
            Err(KernelError::ParametersLengthMismatch)
        } else {
            match self.left().spec_expression(params.take(n), x, x_prime) {
                Err(e) => Err(e),
                Ok(f) => match self.right().spec_expression(params.skip(n), x, x_prime) {
                    Err(e) => Err(e),
                    Ok(g) => match self.left().spec_ln_diff_params(params.take(n), x, x_prime) {
                        Err(e) => Err(e),
                        Ok(a) => match self.right().spec_ln_diff_params(params.skip(n), x, x_prime) {
                            Err(e) => Err(e),
                            Ok(b) => Ok(weighted_shares(a, f, sum(f, g)) + weighted_shares(b, g, sum(f, g))),
                        },
                    },
                },
            }
        }
    }

    fn ln_diff_params(&self, params: &[Term], x: &T, x_prime: &T) -> (r: Result<Vec<Term>, KernelError>) {
        let total = params.len();
        let n = match split_point::<T, L, R>(&self.lhs, &self.rhs, total) {
            Some(n) => n,
            None => return Err(KernelError::ParametersLengthMismatch),
        };
        proof {
            assert(params@.subrange(0, n as int) == params@.take(n as int));
            assert(params@.subrange(n as int, total as int) == params@.skip(n as int));
        }
        let left_params = slice_subrange(params, 0, n);
        let right_params = slice_subrange(params, n, total);
        let f = self.lhs.expression(left_params, x, x_prime)?;
        let g = self.rhs.expression(right_params, x, x_prime)?;
        let a = self.lhs.ln_diff_params(left_params, x, x_prime)?;
        let b = self.rhs.ln_diff_params(right_params, x, x_prime)?;
        let total_value = Term::boxed_sum(f.clone(), g.clone());
        let mut out: Vec<Term> = Vec::new();
        push_weighted_shares(&a, &f, &total_value, &mut out);
        push_weighted_shares(&b, &g, &total_value, &mut out);
        proof {
            assert(out@ =~= weighted_shares(a@, f, sum(f, g)) + weighted_shares(b@, g, sum(f, g)));
        }
        Ok(out)
    }
}

} // verus!
