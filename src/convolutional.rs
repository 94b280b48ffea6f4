use crate::kernel::{KernelError, PositiveDefiniteKernel, Value};
use crate::term::{sum, Term};
use vstd::prelude::*;

verus! {

/// Input points that decompose into parts, each part a point of its own.
pub trait Convolutable {
    spec fn spec_parts(&self) -> Seq<Vec<Term>>;

    fn parts_len(&self) -> (r: usize)
        ensures
            r == self.spec_parts().len(),
    ;

    fn part(&self, index: usize) -> (r: &Vec<Term>)
        requires
            index < self.spec_parts().len(),
        ensures
            *r == self.spec_parts()[index as int],
    ;
}

/// A plain point is a single part: itself.
impl Convolutable for Vec<Term> {
    open spec fn spec_parts(&self) -> Seq<Vec<Term>> {
        seq![*self]
    }

    fn parts_len(&self) -> (r: usize) {
        1
    }

    fn part(&self, index: usize) -> (r: &Vec<Term>) {
        self
    }
}

/// A point made of several sub-points, in order.
impl Convolutable for Vec<Vec<Term>> {
    open spec fn spec_parts(&self) -> Seq<Vec<Term>> {
        self@
    }

    fn parts_len(&self) -> (r: usize) {
        self.len()
    }

    fn part(&self, index: usize) -> (r: &Vec<Term>) {
        &self[index]
    }
}

/// A kernel over decomposable points: the sum of the inner kernel over
/// corresponding parts, all parts sharing the same parameters.
#[derive(Clone, Copy, Debug)]
pub struct Convolutional<K> {
    kernel: K,
}

/// `0 + k(xs[0], ys[0]) + ... + k(xs[n-1], ys[n-1])`, or the first error.
pub open spec fn conv_sum<K: PositiveDefiniteKernel<Vec<Term>>>(
    k: K,
    params: Seq<Term>,
    xs: Seq<Vec<Term>>,
    ys: Seq<Vec<Term>>,
    n: nat,
) -> Result<Term, KernelError>
    decreases n,
{
    if n == 0 {
        Ok(Term::Int(0))
    } else {
        match conv_sum(k, params, xs, ys, (n - 1) as nat) {
            Err(e) => Err(e),
            Ok(acc) => match k.spec_expression(params, xs[n - 1], ys[n - 1]) {
                Err(e) => Err(e),
                Ok(t) => Ok(sum(acc, t)),
            },
        }
    }
}

/// Once a part has failed, the sum over more parts fails with the same error.
pub proof fn lemma_conv_sum_error_persists<K: PositiveDefiniteKernel<Vec<Term>>>(
    k: K,
    params: Seq<Term>,
    xs: Seq<Vec<Term>>,
    ys: Seq<Vec<Term>>,
    i: nat,
    n: nat,
)
    requires
        i <= n,
        conv_sum(k, params, xs, ys, i) is Err,
    ensures
        conv_sum(k, params, xs, ys, n) == conv_sum(k, params, xs, ys, i),
    decreases n - i,
{
    if i < n {
        lemma_conv_sum_error_persists(k, params, xs, ys, i, (n - 1) as nat);
    }
}

impl<K> Convolutional<K> {
    pub closed spec fn inner(&self) -> K {
        self.kernel
    }

    pub fn new(kernel: K) -> (r: Self)
        ensures
            r.inner() == kernel,
    {
        Convolutional { kernel }
    }

    pub fn kernel_ref(&self) -> (r: &K)
        ensures
            *r == self.inner(),
    {
        &self.kernel
    }
}

impl<T: Convolutable + Value, K: PositiveDefiniteKernel<Vec<Term>>> PositiveDefiniteKernel<T> for Convolutional<K> {
    open spec fn spec_params_len(&self) -> nat {
        self.inner().spec_params_len()
    }

    open spec fn spec_expression(&self, params: Seq<Term>, x: T, x_prime: T) -> Result<Term, KernelError> {
        if params.len() != self.inner().spec_params_len() {
            Err(KernelError::ParametersLengthMismatch)
        } else if x.spec_parts().len() != x_prime.spec_parts().len() {
            Err(KernelError::InvalidArgument)
        } else {
            conv_sum(self.inner(), params, x.spec_parts(), x_prime.spec_parts(), x.spec_parts().len())
        }
    }

    fn params_len(&self) -> (r: usize) {
        self.kernel.params_len()
    }

    fn checked_params_len(&self) -> (r: Option<usize>) {
        self.kernel.checked_params_len()
    }

    fn expression(&self, params: &[Term], x: &T, x_prime: &T) -> (r: Result<Term, KernelError>) {
        let total = params.len();
        match self.kernel.checked_params_len() {
            Some(n) => {
                if total != n {
                    return Err(KernelError::ParametersLengthMismatch);
                }
            },
            None => return Err(KernelError::ParametersLengthMismatch),
        }
        let parts = x.parts_len();
        if parts != x_prime.parts_len() {
            return Err(KernelError::InvalidArgument);
        }
        let mut acc = Term::Int(0);
        let mut i: usize = 0;
        while i < parts
            invariant
                i <= parts,
                params@.len() == self.inner().spec_params_len(),
                parts == x.spec_parts().len(),
                parts == x_prime.spec_parts().len(),
                conv_sum(self.inner(), params@, x.spec_parts(), x_prime.spec_parts(), i as nat) == Ok::<Term, KernelError>(acc),
            decreases parts - i,
        {
            let t = match self.kernel.expression(params, x.part(i), x_prime.part(i)) {
                Ok(t) => t,
                Err(e) => {
                    proof {
                        assert(conv_sum(self.inner(), params@, x.spec_parts(), x_prime.spec_parts(), (i + 1) as nat)
                            == Err::<Term, KernelError>(e));
                        lemma_conv_sum_error_persists(self.inner(), params@, x.spec_parts(), x_prime.spec_parts(), (i + 1) as nat, parts as nat);
                    }
                    return Err(e);
                },
            };
            acc = Term::boxed_sum(acc, t);
            i = i + 1;
        }
        Ok(acc)
    }
}

} // verus!
