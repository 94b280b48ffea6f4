use crate::kernel::{split_point, KernelError, PositiveDefiniteKernel, Value};
use crate::term::{product, sum, Term};
use crate::traits::{
    LogParamsDifferentiableKernel, LogValueDifferentiableKernel, ParamsDifferentiableKernel, ValueDifferentiableKernel,
};
use vstd::prelude::*;
use vstd::slice::slice_subrange;

verus! {

/// The product of two kernels over the same inputs.
///
/// The parameter vector is split in two: the first `lhs.params_len()` entries go
/// to `lhs`, the rest to `rhs`.
#[derive(Clone, Copy, Debug)]
pub struct KernelMul<L, R> {
    lhs: L,
    rhs: R,
}

impl<L, R> KernelMul<L, R> {
    pub closed spec fn left(&self) -> L {
        self.lhs
    }

    pub closed spec fn right(&self) -> R {
        self.rhs
    }

    /// The product of `lhs` and `rhs`, as a value of the specification.
    pub closed spec fn spec_new(lhs: L, rhs: R) -> Self {
        KernelMul { lhs, rhs }
    }

    pub fn new(lhs: L, rhs: R) -> (r: Self)
        ensures
            r == Self::spec_new(lhs, rhs),
            r.left() == lhs,
            r.right() == rhs,
    {
        KernelMul { lhs, rhs }
    }
}

impl<T: Value, L: PositiveDefiniteKernel<T>, R: PositiveDefiniteKernel<T>> PositiveDefiniteKernel<T> for KernelMul<L, R> {
    open spec fn spec_params_len(&self) -> nat {
        self.left().spec_params_len() + self.right().spec_params_len()
    }

    open spec fn spec_expression(&self, params: Seq<Term>, x: T, x_prime: T) -> Result<Term, KernelError> {
        let n = self.left().spec_params_len() as int;
        if params.len() != self.spec_params_len() {
            Err(KernelError::ParametersLengthMismatch)
        } else {
            match self.left().spec_expression(params.take(n), x, x_prime) {
                Err(e) => Err(e),
                Ok(f) => match self.right().spec_expression(params.skip(n), x, x_prime) {
                    Err(e) => Err(e),
                    Ok(g) => Ok(product(f, g)),
                },
            }
        }
    }

    fn params_len(&self) -> (r: usize) {
        self.lhs.params_len() + self.rhs.params_len()
    }

    fn checked_params_len(&self) -> (r: Option<usize>) {
        match (self.lhs.checked_params_len(), self.rhs.checked_params_len()) {
            (Some(n), Some(m)) => n.checked_add(m),
            _ => None,
        }
    }

    fn expression(&self, params: &[Term], x: &T, x_prime: &T) -> (r: Result<Term, KernelError>) {
        let total = params.len();
        let n = match split_point::<T, L, R>(&self.lhs, &self.rhs, total) {
            Some(n) => n,
            None => return Err(KernelError::ParametersLengthMismatch),
        };
        proof {
            assert(params@.subrange(0, n as int) == params@.take(n as int));
            assert(params@.subrange(n as int, total as int) == params@.skip(n as int));
        }
        let f = self.lhs.expression(slice_subrange(params, 0, n), x, x_prime)?;
        let g = self.rhs.expression(slice_subrange(params, n, total), x, x_prime)?;
        Ok(Term::Mul(Box::new(f), Box::new(g)))
    }
}

/// The product rule for `f * g`: each entry of `f`'s gradient times `g`, then
/// `f` times each entry of `g`'s gradient.
pub open spec fn product_rule(df: Seq<Term>, dg: Seq<Term>, f: Term, g: Term) -> Seq<Term> {
    Seq::new(df.len(), |i: int| product(df[i], g)) + Seq::new(dg.len(), |j: int| product(f, dg[j]))
}

impl<T: Value, L: ParamsDifferentiableKernel<T>, R: ParamsDifferentiableKernel<T>> ParamsDifferentiableKernel<T> for KernelMul<L, R> {
    /// Errors come in this order: the left value, the right value, the left
    /// gradient, the right gradient.
    open spec fn spec_diff_params(&self, params: Seq<Term>, x: T, x_prime: T) -> Result<Seq<Term>, KernelError> {
        let n = self.left().spec_params_len() as int;
        if params.len() != self.left().spec_params_len() + self.right().spec_params_len() {
            Err(KernelError::ParametersLengthMismatch)
        } else {
            match self.left().spec_expression(params.take(n), x, x_prime) {
                Err(e) => Err(e),
                Ok(f) => match self.right().spec_expression(params.skip(n), x, x_prime) {
                    Err(e) => Err(e),
                    Ok(g) => match self.left().spec_diff_params(params.take(n), x, x_prime) {
                        Err(e) => Err(e),
                        Ok(df) => match self.right().spec_diff_params(params.skip(n), x, x_prime) {
                            Err(e) => Err(e),
                            Ok(dg) => Ok(product_rule(df, dg, f, g)),
                        },
                    },
                },
            }
        }
    }

    proof fn lemma_diff_params_shape(&self, params: Seq<Term>, x: T, x_prime: T) {
        let n = self.left().spec_params_len() as int;
        self.left().lemma_diff_params_shape(params.take(n), x, x_prime);
        self.right().lemma_diff_params_shape(params.skip(n), x, x_prime);
    }

    fn diff_params(&self, params: &[Term], x: &T, x_prime: &T) -> (r: Result<Vec<Term>, KernelError>) {
        let total = params.len();
        let n = match split_point::<T, L, R>(&self.lhs, &self.rhs, total) {
            Some(n) => n,
            None => return Err(KernelError::ParametersLengthMismatch),
        };
        proof {
            assert(params@.subrange(0, n as int) == params@.take(n as int));
            assert(params@.subrange(n as int, total as int) == params@.skip(n as int));
        }
        let left_params = slice_subrange(params, 0, n);
        let right_params = slice_subrange(params, n, total);
        let f = self.lhs.expression(left_params, x, x_prime)?;
        let g = self.rhs.expression(right_params, x, x_prime)?;
        let df = self.lhs.diff_params(left_params, x, x_prime)?;
        let dg = self.rhs.diff_params(right_params, x, x_prime)?;
        let mut out: Vec<Term> = Vec::new();
        let mut i: usize = 0;
        while i < df.len()
            invariant
                i <= df@.len(),
                out@ == Seq::new(i as nat, |k: int| product(df@[k], g)),
            decreases df@.len() - i,
        {
            out.push(Term::boxed_product(df[i].clone(), g.clone()));
            assert(out@ =~= Seq::new((i + 1) as nat, |k: int| product(df@[k], g)));
            i = i + 1;
        }
        let mut j: usize = 0;
        while j < dg.len()
            invariant
                j <= dg@.len(),
                out@ == Seq::new(df@.len(), |k: int| product(df@[k], g)) + Seq::new(j as nat, |k: int| product(f, dg@[k])),
            decreases dg@.len() - j,
        {
            out.push(Term::boxed_product(f.clone(), dg[j].clone()));
            assert(out@ =~= Seq::new(df@.len(), |k: int| product(df@[k], g)) + Seq::new((j + 1) as nat, |k: int| product(f, dg@[k])));
            j = j + 1;
        }
        Ok(out)
    }
}

/// The product rule along one coordinate: `df * g + f * dg`.
pub open spec fn product_slope(df: Term, dg: Term, f: Term, g: Term) -> Term {
    sum(product(df, g), product(f, dg))
}

impl<L: ValueDifferentiableKernel, R: ValueDifferentiableKernel> ValueDifferentiableKernel for KernelMul<L, R> {
    /// The product rule, coordinate by coordinate. Errors come in this order: the
    /// left value, the right value, the left derivative, the right derivative.
    open spec fn spec_diff_value(&self, params: Seq<Term>, x: Vec<Term>, x_prime: Vec<Term>) -> Result<Seq<Term>, KernelError> {
        let n = self.left().spec_params_len() as int;
        if params.len() != self.left().spec_params_len() + self.right().spec_params_len() {
            Err(KernelError::ParametersLengthMismatch)
        } else {
            match self.left().spec_expression(params.take(n), x, x_prime) {
                Err(e) => Err(e),
                Ok(f) => match self.right().spec_expression(params.skip(n), x, x_prime) {
                    Err(e) => Err(e),
                    Ok(g) => match self.left().spec_diff_value(params.take(n), x, x_prime) {
                        Err(e) => Err(e),
                        Ok(a) => match self.right().spec_diff_value(params.skip(n), x, x_prime) {
                            Err(e) => Err(e),
                            Ok(b) => Ok(Seq::new(x@.len(), |i: int| product_slope(a[i], b[i], f, g))),
                        },
                    },
                },
            }
        }
    }

    proof fn lemma_diff_value_shape(&self, params: Seq<Term>, x: Vec<Term>, x_prime: Vec<Term>) {
        let n = self.left().spec_params_len() as int;
        self.left().lemma_diff_value_shape(params.take(n), x, x_prime);
        self.right().lemma_diff_value_shape(params.skip(n), x, x_prime);
    }

    fn diff_value(&self, params: &[Term], x: &Vec<Term>, x_prime: &Vec<Term>) -> (r: Result<Vec<Term>, KernelError>) {
        let total = params.len();
        let n = match split_point::<Vec<Term>, L, R>(&self.lhs, &self.rhs, total) {
            Some(n) => n,
            None => return Err(KernelError::ParametersLengthMismatch),
        };
        proof {
            assert(params@.subrange(0, n as int) == params@.take(n as int));
            assert(params@.subrange(n as int, total as int) == params@.skip(n as int));
        }
        let left_params = slice_subrange(params, 0, n);
        let right_params = slice_subrange(params, n, total);
        let f = self.lhs.expression(left_params, x, x_prime)?;
        let g = self.rhs.expression(right_params, x, x_prime)?;
        let a = self.lhs.diff_value(left_params, x, x_prime)?;
        let b = self.rhs.diff_value(right_params, x, x_prime)?;
        proof {
            self.lhs.lemma_diff_value_shape(left_params@, *x, *x_prime);
            self.rhs.lemma_diff_value_shape(right_params@, *x, *x_prime);
        }
        let mut out: Vec<Term> = Vec::new();
        let mut i: usize = 0;
        while i < x.len()
            invariant
                i <= x@.len(),
                a@.len() == x@.len(),
                b@.len() == x@.len(),
                out@ == Seq::new(i as nat, |k: int| product_slope(a@[k], b@[k], f, g)),
            decreases x@.len() - i,
        {
            let entry = Term::boxed_sum(
                Term::boxed_product(a[i].clone(), g.clone()),
                Term::boxed_product(f.clone(), b[i].clone()),
            );
            out.push(entry);
            assert(out@ =~= Seq::new((i + 1) as nat, |k: int| product_slope(a@[k], b@[k], f, g)));
            i = i + 1;
        }
        Ok(out)
    }
}

impl<L: LogValueDifferentiableKernel, R: LogValueDifferentiableKernel> LogValueDifferentiableKernel for KernelMul<L, R> {
    /// `ln(f * g) = ln f + ln g`: the children's log-derivatives added
    /// coordinate by coordinate.
    open spec fn spec_ln_diff_value(&self, params: Seq<Term>, x: Vec<Term>, x_prime: Vec<Term>) -> Result<Seq<Term>, KernelError> {
        let n = self.left().spec_params_len() as int;
        if params.len() != self.left().spec_params_len() + self.right().spec_params_len() {
            Err(KernelError::ParametersLengthMismatch)
        } else {
            match self.left().spec_ln_diff_value(params.take(n), x, x_prime) {
                Err(e) => Err(e),
                Ok(a) => match self.right().spec_ln_diff_value(params.skip(n), x, x_prime) {
                    Err(e) => Err(e),
                    Ok(b) => Ok(Seq::new(x@.len(), |i: int| sum(a[i], b[i]))),
                },
            }
        }
    }

    proof fn lemma_ln_diff_value_len(&self, params: Seq<Term>, x: Vec<Term>, x_prime: Vec<Term>) {
    }

    fn ln_diff_value(&self, params: &[Term], x: &Vec<Term>, x_prime: &Vec<Term>) -> (r: Result<Vec<Term>, KernelError>) {
        let total = params.len();
        let n = match split_point::<Vec<Term>, L, R>(&self.lhs, &self.rhs, total) {
            Some(n) => n,
            None => return Err(KernelError::ParametersLengthMismatch),
        };
        proof {
            assert(params@.subrange(0, n as int) == params@.take(n as int));
            assert(params@.subrange(n as int, total as int) == params@.skip(n as int));
        }
        let left_params = slice_subrange(params, 0, n);
        let right_params = slice_subrange(params, n, total);
        let a = self.lhs.ln_diff_value(left_params, x, x_prime)?;
        let b = self.rhs.ln_diff_value(right_params, x, x_prime)?;
        proof {
            self.lhs.lemma_ln_diff_value_len(left_params@, *x, *x_prime);
            self.rhs.lemma_ln_diff_value_len(right_params@, *x, *x_prime);
        }
        let mut out: Vec<Term> = Vec::new();
        let mut i: usize = 0;
        while i < x.len()
            invariant
                i <= x@.len(),
                a@.len() == x@.len(),
                b@.len() == x@.len(),
                out@ == Seq::new(i as nat, |k: int| sum(a@[k], b@[k])),
            decreases x@.len() - i,
        {
            out.push(Term::boxed_sum(a[i].clone(), b[i].clone()));
            assert(out@ =~= Seq::new((i + 1) as nat, |k: int| sum(a@[k], b@[k])));
            i = i + 1;
        }
        Ok(out)
    }
}

impl<T: Value, L: LogParamsDifferentiableKernel<T>, R: LogParamsDifferentiableKernel<T>> LogParamsDifferentiableKernel<T> for KernelMul<L, R> {
    /// `ln(f * g) = ln f + ln g`, and each parameter belongs to one child: the
    /// children's log-derivatives, one after the other.
    open spec fn spec_ln_diff_params(&self, params: Seq<Term>, x: T, x_prime: T) -> Result<Seq<Term>, KernelError> {
        let n = self.left().spec_params_len() as int;
        if params.len() != self.left().spec_params_len() + self.right().spec_params_len() {
            Err(KernelError::ParametersLengthMismatch)
        } else {
            match self.left().spec_ln_diff_params(params.take(n), x, x_prime) {
                Err(e) => Err(e),
                Ok(a) => match self.right().spec_ln_diff_params(params.skip(n), x, x_prime) {
                    Err(e) => Err(e),
                    Ok(b) => Ok(a + b),
                },
            }
        }
    }

    fn ln_diff_params(&self, params: &[Term], x: &T, x_prime: &T) -> (r: Result<Vec<Term>, KernelError>) {
        let total = params.len();
        let n = match split_point::<T, L, R>(&self.lhs, &self.rhs, total) {
            Some(n) => n,
            None => return Err(KernelError::ParametersLengthMismatch),
        };
        proof {
            assert(params@.subrange(0, n as int) == params@.take(n as int));
            assert(params@.subrange(n as int, total as int) == params@.skip(n as int));
        }
        let left_params = slice_subrange(params, 0, n);
        let right_params = slice_subrange(params, n, total);
        let mut a = self.lhs.ln_diff_params(left_params, x, x_prime)?;
        let mut b = self.rhs.ln_diff_params(right_params, x, x_prime)?;
        a.append(&mut b);
        Ok(a)
    }
}

} // verus!
