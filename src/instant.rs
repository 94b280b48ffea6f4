use crate::kernel::{KernelError, PositiveDefiniteKernel, Value};
use crate::term::Term;
use core::marker::PhantomData;
use vstd::prelude::*;

verus! {

/// A kernel given by a caller's closure from parameters and two points to a
/// formula, for formulas that no kernel type of this library covers.
///
/// The closure must accept every argument and be a function of what the
/// parameters hold and of the two points.
pub struct InstantKernel<T, F: Fn(&[Term], &T, &T) -> Result<Term, KernelError>> {
    params_len: usize,
    value_function: F,
    phantom: PhantomData<T>,
}

/// `f` may be called on any arguments, and two calls on equal parameter
/// sequences and the same points give the same result.
pub open spec fn well_behaved<T, F: Fn(&[Term], &T, &T) -> Result<Term, KernelError>>(f: F) -> bool {
    &&& forall|p: &[Term], x: &T, y: &T| #[trigger] f.requires((p, x, y))
    &&& forall|p: &[Term], q: &[Term], x: &T, y: &T, r: Result<Term, KernelError>, s: Result<Term, KernelError>|
        #![trigger f.ensures((p, x, y), r), f.ensures((q, x, y), s)]
        p@ == q@ && f.ensures((p, x, y), r) && f.ensures((q, x, y), s) ==> r == s
}

/// `f` gives `r` on some parameter slice holding `params` and on `x`, `y`.
pub open spec fn gives<T, F: Fn(&[Term], &T, &T) -> Result<Term, KernelError>>(
    f: F,
    params: Seq<Term>,
    x: T,
    y: T,
    r: Result<Term, KernelError>,
) -> bool {
    exists|s: &[Term]| s@ == params && #[trigger] f.ensures((s, &x, &y), r)
}

impl<T, F: Fn(&[Term], &T, &T) -> Result<Term, KernelError>> InstantKernel<T, F> {
    #[verifier::type_invariant]
    spec fn inv(&self) -> bool {
        well_behaved(self.value_function)
    }

    pub closed spec fn function(&self) -> F {
        self.value_function
    }

    pub closed spec fn declared_len(&self) -> nat {
        self.params_len as nat
    }

    pub fn new(params_len: usize, value_function: F) -> (r: Self)
        requires
            well_behaved(value_function),
        ensures
            r.function() == value_function,
            r.declared_len() == params_len,
    {
        InstantKernel { params_len, value_function, phantom: PhantomData }
    }
}

impl<T: Value, F: Fn(&[Term], &T, &T) -> Result<Term, KernelError>> PositiveDefiniteKernel<T> for InstantKernel<T, F> {
    open spec fn spec_params_len(&self) -> nat {
        self.declared_len()
    }

    /// What the closure returns on these arguments.
    open spec fn spec_expression(&self, params: Seq<Term>, x: T, x_prime: T) -> Result<Term, KernelError> {
        choose|r: Result<Term, KernelError>| #[trigger] gives(self.function(), params, x, x_prime, r)
    }

    fn params_len(&self) -> (r: usize) {
        self.params_len
    }

    fn checked_params_len(&self) -> (r: Option<usize>) {
        Some(self.params_len)
    }

    fn expression(&self, params: &[Term], x: &T, x_prime: &T) -> (r: Result<Term, KernelError>) {
        proof {
            use_type_invariant(self);
        }
        let r = (self.value_function)(params, x, x_prime);
        proof {
            assert(self.function().ensures((params, x, x_prime), r));
            assert(gives(self.function(), params@, *x, *x_prime, r));
            let c = self.spec_expression(params@, *x, *x_prime);
            assert(gives(self.function(), params@, *x, *x_prime, c));
            let s = choose|s: &[Term]| s@ == params@ && #[trigger] self.function().ensures((s, x, x_prime), c);
            assert(self.value_function.ensures((s, x, x_prime), c));
            assert(self.value_function.ensures((params, x, x_prime), r));
        }
        r
    }
}

} // verus!
