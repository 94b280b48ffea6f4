use crate::kernel::{KernelError, PositiveDefiniteKernel};
use crate::term::{cos_of, difference, exp_of, negation, product, quotient, square, sum, tan_of, Term};
use crate::traits::{LogParamsDifferentiableKernel, LogValueDifferentiableKernel};
use vstd::prelude::*;

verus! {

/// The spectral mixture kernel with `q` components over points of dimension `p`.
///
/// Parameters, in order: the weights `w[0..q]`, the variances `v[0..p*q]` and
/// the means `mu[0..p*q]`, where `v[i*q + j]` and `mu[i*q + j]` belong to
/// coordinate `i` of component `j`. Value:
/// `sum_j w_j * prod_i exp(-2 pi^2 d_i^2 v_ij) * cos(2 pi d_i mu_ij)` with
/// `d_i = x_i - x'_i`.
#[derive(Clone, Copy, Debug)]
pub struct SpectralMixture {
    p: usize,
    q: usize,
}

pub open spec fn two_pi() -> Term {
    product(Term::Int(2), Term::Pi)
}

pub open spec fn two_pi_sq() -> Term {
    product(Term::Int(2), square(Term::Pi))
}

/// Where the variance of coordinate `i` in component `j` stands.
pub open spec fn variance_index(p: nat, q: nat, i: nat, j: nat) -> int {
    (q + i * q + j) as int
}

/// Where the mean of coordinate `i` in component `j` stands.
pub open spec fn mean_index(p: nat, q: nat, i: nat, j: nat) -> int {
    (q + p * q + i * q + j) as int
}

/// `x_i - x'_i`.
pub open spec fn delta(x: Seq<Term>, y: Seq<Term>, i: nat) -> Term {
    difference(x[i as int], y[i as int])
}

/// The factor of coordinate `i` in component `j`.
pub open spec fn sm_factor(params: Seq<Term>, x: Seq<Term>, y: Seq<Term>, p: nat, q: nat, i: nat, j: nat) -> Term {
    let d = delta(x, y, i);
    product(
        exp_of(negation(product(product(two_pi_sq(), square(d)), params[variance_index(p, q, i, j)]))),
        cos_of(product(product(two_pi(), d), params[mean_index(p, q, i, j)])),
    )
}

/// `1 * factor(0, j) * ... * factor(n - 1, j)`.
pub open spec fn sm_component(params: Seq<Term>, x: Seq<Term>, y: Seq<Term>, p: nat, q: nat, j: nat, n: nat) -> Term
    decreases n,
{
    if n == 0 {
        Term::Int(1)
    } else {
        product(sm_component(params, x, y, p, q, j, (n - 1) as nat), sm_factor(params, x, y, p, q, (n - 1) as nat, j))
    }
}

/// Component `j` with its weight.
pub open spec fn sm_weighted(params: Seq<Term>, x: Seq<Term>, y: Seq<Term>, p: nat, q: nat, j: nat) -> Term {
    product(params[j as int], sm_component(params, x, y, p, q, j, p))
}

/// `0 + weighted(0) + ... + weighted(m - 1)`.
pub open spec fn sm_mixture(params: Seq<Term>, x: Seq<Term>, y: Seq<Term>, p: nat, q: nat, m: nat) -> Term
    decreases m,
{
    if m == 0 {
        Term::Int(0)
    } else {
        sum(sm_mixture(params, x, y, p, q, (m - 1) as nat), sm_weighted(params, x, y, p, q, (m - 1) as nat))
    }
}

pub open spec fn four_pi_sq() -> Term {
    product(Term::Int(4), square(Term::Pi))
}

pub open spec fn neg_two_pi() -> Term {
    product(Term::Int(-2i64), Term::Pi)
}

/// `2 pi d_i mu_ij`, the phase of coordinate `i` in component `j`.
pub open spec fn sm_phase(params: Seq<Term>, x: Seq<Term>, y: Seq<Term>, p: nat, q: nat, i: nat, j: nat) -> Term {
    product(product(two_pi(), delta(x, y, i)), params[mean_index(p, q, i, j)])
}

/// The log-derivative weight of coordinate `i` in component `j` with respect to
/// that coordinate: `4 pi^2 d_i v_ij + tan(2 pi d_i mu_ij) * (-2 pi d_i mu_ij)`.
pub open spec fn sm_coordinate_slope(params: Seq<Term>, x: Seq<Term>, y: Seq<Term>, p: nat, q: nat, i: nat, j: nat) -> Term {
    let d = delta(x, y, i);
    sum(
        product(product(four_pi_sq(), d), params[variance_index(p, q, i, j)]),
        product(
            tan_of(sm_phase(params, x, y, p, q, i, j)),
            product(product(neg_two_pi(), d), params[mean_index(p, q, i, j)]),
        ),
    )
}

/// `slope * weighted(j) / value`.
pub open spec fn sm_share(params: Seq<Term>, x: Seq<Term>, y: Seq<Term>, p: nat, q: nat, slope: Term, j: nat) -> Term {
    quotient(product(slope, sm_weighted(params, x, y, p, q, j)), sm_mixture(params, x, y, p, q, q))
}

/// `0 + share(slope(i, 0), 0) + ... + share(slope(i, m - 1), m - 1)`.
pub open spec fn sm_ln_diff_coordinate(params: Seq<Term>, x: Seq<Term>, y: Seq<Term>, p: nat, q: nat, i: nat, m: nat) -> Term
    decreases m,
{
    if m == 0 {
        Term::Int(0)
    } else {
        let j = (m - 1) as nat;
        sum(
            sm_ln_diff_coordinate(params, x, y, p, q, i, j),
            sm_share(params, x, y, p, q, sm_coordinate_slope(params, x, y, p, q, i, j), j),
        )
    }
}

/// The entry for variance `v_ij`: `4 pi^2 d_i^2 * weighted(j) / value`.
pub open spec fn sm_variance_entry(params: Seq<Term>, x: Seq<Term>, y: Seq<Term>, p: nat, q: nat, i: nat, j: nat) -> Term {
    sm_share(params, x, y, p, q, product(four_pi_sq(), square(delta(x, y, i))), j)
}

/// The entry for mean `mu_ij`: `tan(2 pi d_i mu_ij) * (-2 pi d_i) * weighted(j) / value`.
pub open spec fn sm_mean_entry(params: Seq<Term>, x: Seq<Term>, y: Seq<Term>, p: nat, q: nat, i: nat, j: nat) -> Term {
    sm_share(
        params, x, y, p, q,
        product(tan_of(sm_phase(params, x, y, p, q, i, j)), product(neg_two_pi(), delta(x, y, i))),
        j,
    )
}

/// The entry for a mean (`means`) or a variance of coordinate `i` in component `j`.
pub open spec fn sm_entry(params: Seq<Term>, x: Seq<Term>, y: Seq<Term>, p: nat, q: nat, means: bool, i: nat, j: nat) -> Term {
    if means {
        sm_mean_entry(params, x, y, p, q, i, j)
    } else {
        sm_variance_entry(params, x, y, p, q, i, j)
    }
}

/// The entries of coordinates `0..n`, coordinate after coordinate, each with its
/// `q` components in order.
pub open spec fn sm_rows(params: Seq<Term>, x: Seq<Term>, y: Seq<Term>, p: nat, q: nat, means: bool, n: nat) -> Seq<Term>
    decreases n,
{
    if n == 0 {
        Seq::empty()
    } else {
        sm_rows(params, x, y, p, q, means, (n - 1) as nat) + Seq::new(
            q,
            |j: int| sm_entry(params, x, y, p, q, means, (n - 1) as nat, j as nat),
        )
    }
}

/// The log-derivative with respect to the parameters, in parameter order:
/// the weights' entries, then the variances', then the means'.
pub open spec fn sm_ln_diff_params(params: Seq<Term>, x: Seq<Term>, y: Seq<Term>, p: nat, q: nat) -> Seq<Term> {
    Seq::new(q, |j: int| sm_component(params, x, y, p, q, j as nat, p))
        + sm_rows(params, x, y, p, q, false, p)
        + sm_rows(params, x, y, p, q, true, p)
}

impl SpectralMixture {
    pub closed spec fn dimension(&self) -> nat {
        self.p as nat
    }

    pub closed spec fn components(&self) -> nat {
        self.q as nat
    }

    pub fn new(p: usize, q: usize) -> (r: Self)
        ensures
            r.dimension() == p,
            r.components() == q,
    {
        SpectralMixture { p, q }
    }

    /// The parameters and points have the shape that evaluation needs.
    pub open spec fn shaped(&self, params: Seq<Term>, x: Seq<Term>, y: Seq<Term>) -> bool {
        &&& params.len() == self.spec_params_len()
        &&& x.len() == self.dimension()
        &&& y.len() == self.dimension()
    }

    /// The checks that every evaluation makes, in order.
    pub open spec fn spec_check(&self, params: Seq<Term>, x: Seq<Term>, y: Seq<Term>) -> Result<(), KernelError> {
        if params.len() != self.spec_params_len() {
            Err(KernelError::ParametersLengthMismatch)
        } else if x.len() != self.dimension() || y.len() != self.dimension() {
            Err(KernelError::InvalidArgument)
        } else {
            Ok(())
        }
    }

    fn check(&self, params: &[Term], x: &Vec<Term>, x_prime: &Vec<Term>) -> (r: Result<(), KernelError>)
        ensures
            r == self.spec_check(params@, x@, x_prime@),
    {
        let total = params.len();
        match self.checked_params_len() {
            Some(n) => {
                if params.len() != n {
                    return Err(KernelError::ParametersLengthMismatch);
                }
            },
            None => {
                assert(total == params@.len());
                return Err(KernelError::ParametersLengthMismatch);
            },
        }
        if x.len() != self.p || x_prime.len() != self.p {
            return Err(KernelError::InvalidArgument);
        }
        Ok(())
    }

    proof fn lemma_indices(&self, params: Seq<Term>, i: nat, j: nat)
        requires
            params.len() == self.spec_params_len(),
            i < self.dimension(),
            j < self.components(),
        ensures
            i * self.q + j < self.p * self.q,
            i * self.q <= self.p * self.q,
            0 <= variance_index(self.p as nat, self.q as nat, i, j) < self.q + self.p * self.q,
            self.q + self.p * self.q <= mean_index(self.p as nat, self.q as nat, i, j) < params.len(),
    {
        let p = self.p as nat;
        let q = self.q as nat;
        assert(i * q + j < p * q) by (nonlinear_arith)
            requires
                i < p,
                j < q,
        ;
        assert(i * q <= p * q) by (nonlinear_arith)
            requires
                i < p,
        ;
    }

    fn factor(&self, params: &[Term], x: &Vec<Term>, x_prime: &Vec<Term>, i: usize, j: usize) -> (r: Term)
        requires
            self.shaped(params@, x@, x_prime@),
            i < self.p,
            j < self.q,
        ensures
            r == sm_factor(params@, x@, x_prime@, self.p as nat, self.q as nat, i as nat, j as nat),
    {
        let n = params.len();
        proof {
            self.lemma_indices(params@, i as nat, j as nat);
            assert(n == params@.len());
        }
        let vi = self.q + i * self.q + j;
        let mi = self.q + self.p * self.q + i * self.q + j;
        let d = Term::boxed_difference(x[i].clone(), x_prime[i].clone());
        let two_pi_sq = Term::boxed_product(Term::Int(2), Term::squared(Term::Pi));
        let decay = Term::boxed_product(Term::boxed_product(two_pi_sq, Term::squared(d.clone())), params[vi].clone());
        let two_pi = Term::boxed_product(Term::Int(2), Term::Pi);
        let phase = Term::boxed_product(Term::boxed_product(two_pi, d), params[mi].clone());
        Term::boxed_product(
            Term::Exp(Box::new(Term::Neg(Box::new(decay)))),
            Term::Cos(Box::new(phase)),
        )
    }

    /// Component `j` without its weight.
    fn component(&self, params: &[Term], x: &Vec<Term>, x_prime: &Vec<Term>, j: usize) -> (r: Term)
        requires
            self.shaped(params@, x@, x_prime@),
            j < self.q,
        ensures
            r == sm_component(params@, x@, x_prime@, self.p as nat, self.q as nat, j as nat, self.p as nat),
    {
        let mut component = Term::Int(1);
        let mut i: usize = 0;
        while i < self.p
            invariant
                self.shaped(params@, x@, x_prime@),
                j < self.q,
                i <= self.p,
                component == sm_component(params@, x@, x_prime@, self.p as nat, self.q as nat, j as nat, i as nat),
            decreases self.p - i,
        {
            component = Term::boxed_product(component, self.factor(params, x, x_prime, i, j));
            i = i + 1;
        }
        component
    }

    /// Component `j` with its weight.
    fn weighted(&self, params: &[Term], x: &Vec<Term>, x_prime: &Vec<Term>, j: usize) -> (r: Term)
        requires
            self.shaped(params@, x@, x_prime@),
            j < self.q,
        ensures
            r == sm_weighted(params@, x@, x_prime@, self.p as nat, self.q as nat, j as nat),
    {
        Term::boxed_product(params[j].clone(), self.component(params, x, x_prime, j))
    }

    /// The value formula, once the checks have passed.
    fn mixture(&self, params: &[Term], x: &Vec<Term>, x_prime: &Vec<Term>) -> (r: Term)
        requires
            self.shaped(params@, x@, x_prime@),
        ensures
            r == sm_mixture(params@, x@, x_prime@, self.p as nat, self.q as nat, self.q as nat),
    {
        let mut total = Term::Int(0);
        let mut j: usize = 0;
        while j < self.q
            invariant
                self.shaped(params@, x@, x_prime@),
                j <= self.q,
                total == sm_mixture(params@, x@, x_prime@, self.p as nat, self.q as nat, j as nat),
            decreases self.q - j,
        {
            total = Term::boxed_sum(total, self.weighted(params, x, x_prime, j));
            j = j + 1;
        }
        total
    }

    fn delta(x: &Vec<Term>, x_prime: &Vec<Term>, i: usize) -> (r: Term)
        requires
            i < x@.len(),
            i < x_prime@.len(),
        ensures
            r == delta(x@, x_prime@, i as nat),
    {
        Term::boxed_difference(x[i].clone(), x_prime[i].clone())
    }

    fn phase(&self, params: &[Term], x: &Vec<Term>, x_prime: &Vec<Term>, i: usize, j: usize) -> (r: Term)
        requires
            self.shaped(params@, x@, x_prime@),
            i < self.p,
            j < self.q,
        ensures
            r == sm_phase(params@, x@, x_prime@, self.p as nat, self.q as nat, i as nat, j as nat),
    {
        let n = params.len();
        proof {
            self.lemma_indices(params@, i as nat, j as nat);
            assert(n == params@.len());
        }
        let mi = self.q + self.p * self.q + i * self.q + j;
        let two_pi = Term::boxed_product(Term::Int(2), Term::Pi);
        Term::boxed_product(Term::boxed_product(two_pi, Self::delta(x, x_prime, i)), params[mi].clone())
    }

    fn share(&self, params: &[Term], x: &Vec<Term>, x_prime: &Vec<Term>, value: &Term, slope: Term, j: usize) -> (r: Term)
        requires
            self.shaped(params@, x@, x_prime@),
            j < self.q,
            *value == sm_mixture(params@, x@, x_prime@, self.p as nat, self.q as nat, self.q as nat),
        ensures
            r == sm_share(params@, x@, x_prime@, self.p as nat, self.q as nat, slope, j as nat),
    {
        Term::boxed_quotient(Term::boxed_product(slope, self.weighted(params, x, x_prime, j)), value.clone())
    }

    fn coordinate_slope(&self, params: &[Term], x: &Vec<Term>, x_prime: &Vec<Term>, i: usize, j: usize) -> (r: Term)
        requires
            self.shaped(params@, x@, x_prime@),
            i < self.p,
            j < self.q,
        ensures
            r == sm_coordinate_slope(params@, x@, x_prime@, self.p as nat, self.q as nat, i as nat, j as nat),
    {
        let n = params.len();
        proof {
            self.lemma_indices(params@, i as nat, j as nat);
            assert(n == params@.len());
        }
        let vi = self.q + i * self.q + j;
        let mi = self.q + self.p * self.q + i * self.q + j;
        let four_pi_sq = Term::boxed_product(Term::Int(4), Term::squared(Term::Pi));
        let neg_two_pi = Term::boxed_product(Term::Int(-2), Term::Pi);
        let decay = Term::boxed_product(Term::boxed_product(four_pi_sq, Self::delta(x, x_prime, i)), params[vi].clone());
        let tan = Term::Tan(Box::new(self.phase(params, x, x_prime, i, j)));
        let wave = Term::boxed_product(
            tan,
            Term::boxed_product(Term::boxed_product(neg_two_pi, Self::delta(x, x_prime, i)), params[mi].clone()),
        );
        Term::boxed_sum(decay, wave)
    }

    fn variance_entry(&self, params: &[Term], x: &Vec<Term>, x_prime: &Vec<Term>, value: &Term, i: usize, j: usize) -> (r: Term)
        requires
            self.shaped(params@, x@, x_prime@),
            i < self.p,
            j < self.q,
            *value == sm_mixture(params@, x@, x_prime@, self.p as nat, self.q as nat, self.q as nat),
        ensures
            r == sm_variance_entry(params@, x@, x_prime@, self.p as nat, self.q as nat, i as nat, j as nat),
    {
        let four_pi_sq = Term::boxed_product(Term::Int(4), Term::squared(Term::Pi));
        let slope = Term::boxed_product(four_pi_sq, Term::squared(Self::delta(x, x_prime, i)));
        self.share(params, x, x_prime, value, slope, j)
    }

    fn mean_entry(&self, params: &[Term], x: &Vec<Term>, x_prime: &Vec<Term>, value: &Term, i: usize, j: usize) -> (r: Term)
        requires
            self.shaped(params@, x@, x_prime@),
            i < self.p,
            j < self.q,
            *value == sm_mixture(params@, x@, x_prime@, self.p as nat, self.q as nat, self.q as nat),
        ensures
            r == sm_mean_entry(params@, x@, x_prime@, self.p as nat, self.q as nat, i as nat, j as nat),
    {
        let neg_two_pi = Term::boxed_product(Term::Int(-2), Term::Pi);
        let tan = Term::Tan(Box::new(self.phase(params, x, x_prime, i, j)));
        let slope = Term::boxed_product(tan, Term::boxed_product(neg_two_pi, Self::delta(x, x_prime, i)));
        self.share(params, x, x_prime, value, slope, j)
    }

    /// Appends the rows of mean entries (`means`) or of variance entries.
    fn push_rows(&self, params: &[Term], x: &Vec<Term>, x_prime: &Vec<Term>, value: &Term, means: bool, out: &mut Vec<Term>)
        requires
            self.shaped(params@, x@, x_prime@),
            *value == sm_mixture(params@, x@, x_prime@, self.p as nat, self.q as nat, self.q as nat),
        ensures
            final(out)@ == old(out)@ + sm_rows(params@, x@, x_prime@, self.p as nat, self.q as nat, means, self.p as nat),
    {
        let ghost p = self.p as nat;
        let ghost q = self.q as nat;
        let ghost start = out@;
        let mut i: usize = 0;
        while i < self.p
            invariant
                self.shaped(params@, x@, x_prime@),
                *value == sm_mixture(params@, x@, x_prime@, p, q, q),
                p == self.p,
                q == self.q,
                i <= self.p,
                out@ == start + sm_rows(params@, x@, x_prime@, p, q, means, i as nat),
            decreases self.p - i,
        {
            let ghost before = out@;
            let mut j: usize = 0;
            while j < self.q
                invariant
                    self.shaped(params@, x@, x_prime@),
                    *value == sm_mixture(params@, x@, x_prime@, p, q, q),
                    p == self.p,
                    q == self.q,
                    i < self.p,
                    j <= self.q,
                    out@ == before + Seq::new(j as nat, |k: int| sm_entry(params@, x@, x_prime@, p, q, means, i as nat, k as nat)),
                decreases self.q - j,
            {
                let entry = if means {
                    self.mean_entry(params, x, x_prime, value, i, j)
                } else {
                    self.variance_entry(params, x, x_prime, value, i, j)
                };
                out.push(entry);
                assert(out@ =~= before + Seq::new((j + 1) as nat, |k: int| sm_entry(params@, x@, x_prime@, p, q, means, i as nat, k as nat)));
                j = j + 1;
            }
            assert(out@ =~= start + sm_rows(params@, x@, x_prime@, p, q, means, (i + 1) as nat));
            i = i + 1;
        }
    }
}

impl PositiveDefiniteKernel<Vec<Term>> for SpectralMixture {
    open spec fn spec_params_len(&self) -> nat {
        self.components() + self.dimension() * self.components() + self.dimension() * self.components()
    }

    open spec fn spec_expression(&self, params: Seq<Term>, x: Vec<Term>, x_prime: Vec<Term>) -> Result<Term, KernelError> {
        match self.spec_check(params, x@, x_prime@) {
            Err(e) => Err(e),
            Ok(_) => Ok(sm_mixture(params, x@, x_prime@, self.dimension(), self.components(), self.components())),
        }
    }

    fn params_len(&self) -> (r: usize) {
        self.q + self.p * self.q + self.p * self.q
    }

    fn checked_params_len(&self) -> (r: Option<usize>) {
        match self.p.checked_mul(self.q) {
            Some(pq) => match pq.checked_add(pq) {
                Some(two_pq) => self.q.checked_add(two_pq),
                None => None,
            },
            None => None,
        }
    }

    fn expression(&self, params: &[Term], x: &Vec<Term>, x_prime: &Vec<Term>) -> (r: Result<Term, KernelError>) {
        self.check(params, x, x_prime)?;
        Ok(self.mixture(params, x, x_prime))
    }
}

impl LogValueDifferentiableKernel for SpectralMixture {
    /// Entry `i` is `sum_j slope(i, j) * weighted(j) / value`.
    open spec fn spec_ln_diff_value(&self, params: Seq<Term>, x: Vec<Term>, x_prime: Vec<Term>) -> Result<Seq<Term>, KernelError> {
        match self.spec_check(params, x@, x_prime@) {
            Err(e) => Err(e),
            Ok(_) => Ok(
                Seq::new(
                    self.dimension(),
                    |i: int| sm_ln_diff_coordinate(params, x@, x_prime@, self.dimension(), self.components(), i as nat, self.components()),
                ),
            ),
        }
    }

    proof fn lemma_ln_diff_value_len(&self, params: Seq<Term>, x: Vec<Term>, x_prime: Vec<Term>) {
    }

    fn ln_diff_value(&self, params: &[Term], x: &Vec<Term>, x_prime: &Vec<Term>) -> (r: Result<Vec<Term>, KernelError>) {
        self.check(params, x, x_prime)?;
        let value = self.mixture(params, x, x_prime);
        let ghost p = self.p as nat;
        let ghost q = self.q as nat;
        let mut out: Vec<Term> = Vec::new();
        let mut i: usize = 0;
        while i < self.p
            invariant
                self.shaped(params@, x@, x_prime@),
                value == sm_mixture(params@, x@, x_prime@, p, q, q),
                p == self.p,
                q == self.q,
                i <= self.p,
                out@ == Seq::new(i as nat, |k: int| sm_ln_diff_coordinate(params@, x@, x_prime@, p, q, k as nat, q)),
            decreases self.p - i,
        {
            let mut entry = Term::Int(0);
            let mut j: usize = 0;
            while j < self.q
                invariant
                    self.shaped(params@, x@, x_prime@),
                    value == sm_mixture(params@, x@, x_prime@, p, q, q),
                    p == self.p,
                    q == self.q,
                    i < self.p,
                    j <= self.q,
                    entry == sm_ln_diff_coordinate(params@, x@, x_prime@, p, q, i as nat, j as nat),
                decreases self.q - j,
            {
                let slope = self.coordinate_slope(params, x, x_prime, i, j);
                entry = Term::boxed_sum(entry, self.share(params, x, x_prime, &value, slope, j));
                j = j + 1;
            }
            out.push(entry);
            assert(out@ =~= Seq::new((i + 1) as nat, |k: int| sm_ln_diff_coordinate(params@, x@, x_prime@, p, q, k as nat, q)));
            i = i + 1;
        }
        Ok(out)
    }
}

impl LogParamsDifferentiableKernel<Vec<Term>> for SpectralMixture {
    open spec fn spec_ln_diff_params(&self, params: Seq<Term>, x: Vec<Term>, x_prime: Vec<Term>) -> Result<Seq<Term>, KernelError> {
        match self.spec_check(params, x@, x_prime@) {
            Err(e) => Err(e),
            Ok(_) => Ok(sm_ln_diff_params(params, x@, x_prime@, self.dimension(), self.components())),
        }
    }

    fn ln_diff_params(&self, params: &[Term], x: &Vec<Term>, x_prime: &Vec<Term>) -> (r: Result<Vec<Term>, KernelError>) {
        self.check(params, x, x_prime)?;
        let value = self.mixture(params, x, x_prime);
        let ghost p = self.p as nat;
        let ghost q = self.q as nat;
        let mut out: Vec<Term> = Vec::new();
        let mut j: usize = 0;
        while j < self.q
            invariant
                self.shaped(params@, x@, x_prime@),
                p == self.p,
                q == self.q,
                j <= self.q,
                out@ == Seq::new(j as nat, |k: int| sm_component(params@, x@, x_prime@, p, q, k as nat, p)),
            decreases self.q - j,
        {
            out.push(self.component(params, x, x_prime, j));
            assert(out@ =~= Seq::new((j + 1) as nat, |k: int| sm_component(params@, x@, x_prime@, p, q, k as nat, p)));
            j = j + 1;
        }
        self.push_rows(params, x, x_prime, &value, false, &mut out);
        self.push_rows(params, x, x_prime, &value, true, &mut out);
        Ok(out)
    }
}

} // verus!
