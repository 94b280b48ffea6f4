//! What a term means: its value under an interpretation of the operations in
//! some number system, and the laws that hold in every interpretation that
//! behaves like real arithmetic in a few stated ways.
use crate::ard::ARD;
use crate::bias::Bias;
use crate::constant::Constant;
use crate::exponential::Exponential;
use crate::kernel::PositiveDefiniteKernel;
use crate::linear::Linear;
use crate::periodic::Periodic;
use crate::rbf::RBF;
use crate::term::{dot, sq_dist, weighted_sq_dist, Term};
use vstd::prelude::*;

verus! {

/// A reading of each variable and each operation of `Term` in a number system `V`.
#[verifier::reject_recursive_types(V)]
pub struct Interpretation<V> {
    pub var: spec_fn(usize) -> V,
    pub int: spec_fn(i64) -> V,
    pub pi: V,
    pub add: spec_fn(V, V) -> V,
    pub sub: spec_fn(V, V) -> V,
    pub mul: spec_fn(V, V) -> V,
    pub div: spec_fn(V, V) -> V,
    pub neg: spec_fn(V) -> V,
    pub exp: spec_fn(V) -> V,
    pub sqrt: spec_fn(V) -> V,
    pub cos: spec_fn(V) -> V,
    pub sin: spec_fn(V) -> V,
    pub tan: spec_fn(V) -> V,
    pub acos: spec_fn(V) -> V,
}

/// The value of `t` under `i`.
pub open spec fn eval<V>(t: Term, i: Interpretation<V>) -> V
    decreases t,
{
    match t {
        Term::Var(k) => (i.var)(k),
        Term::Int(n) => (i.int)(n),
        Term::Pi => i.pi,
        Term::Add(a, b) => (i.add)(eval(*a, i), eval(*b, i)),
        Term::Sub(a, b) => (i.sub)(eval(*a, i), eval(*b, i)),
        Term::Mul(a, b) => (i.mul)(eval(*a, i), eval(*b, i)),
        Term::Div(a, b) => (i.div)(eval(*a, i), eval(*b, i)),
        Term::Neg(a) => (i.neg)(eval(*a, i)),
        Term::Exp(a) => (i.exp)(eval(*a, i)),
        Term::Sqrt(a) => (i.sqrt)(eval(*a, i)),
        Term::Cos(a) => (i.cos)(eval(*a, i)),
        Term::Sin(a) => (i.sin)(eval(*a, i)),
        Term::Tan(a) => (i.tan)(eval(*a, i)),
        Term::Acos(a) => (i.acos)(eval(*a, i)),
    }
}

/// Addition and multiplication commute, and a difference squares to the same
/// value as its opposite: all true of the real numbers.
pub open spec fn commutative<V>(i: Interpretation<V>) -> bool {
    &&& forall|a: V, b: V| #[trigger] (i.add)(a, b) == (i.add)(b, a)
    &&& forall|a: V, b: V| #[trigger] (i.mul)(a, b) == (i.mul)(b, a)
    &&& forall|a: V, b: V|
        #[trigger] (i.mul)((i.sub)(a, b), (i.sub)(a, b)) == (i.mul)((i.sub)(b, a), (i.sub)(b, a))
}

/// The identities of zero and one that hold in the real numbers and that a
/// distance of zero needs: `a - a = 0`, `a * 0 = 0`, `0 + 0 = 0`, `-0 = 0`,
/// `0 / a = 0` for `a != 0`, `sqrt(0) = 0`, `exp(0) = 1`, `cos(0) = 1` and
/// `a * 1 = a`.
pub open spec fn unital<V>(i: Interpretation<V>) -> bool {
    let zero = (i.int)(0);
    let one = (i.int)(1);
    &&& forall|a: V| #[trigger] (i.sub)(a, a) == zero
    &&& forall|a: V| #[trigger] (i.mul)(a, zero) == zero
    &&& (i.add)(zero, zero) == zero
    &&& (i.neg)(zero) == zero
    &&& forall|a: V| a != zero ==> #[trigger] (i.div)(zero, a) == zero
    &&& (i.sqrt)(zero) == zero
    &&& (i.exp)(zero) == one
    &&& (i.cos)(zero) == one
    &&& forall|a: V| #[trigger] (i.mul)(a, one) == a
}

pub proof fn lemma_sq_dist_symmetric<V>(i: Interpretation<V>, x: Seq<Term>, y: Seq<Term>, n: nat)
    requires
        commutative(i),
    ensures
        eval(sq_dist(x, y, n), i) == eval(sq_dist(y, x, n), i),
    decreases n,
{
    if n > 0 {
        reveal_with_fuel(eval, 4);
        lemma_sq_dist_symmetric(i, x, y, (n - 1) as nat);
        let a = eval(x[n - 1], i);
        let b = eval(y[n - 1], i);
        assert((i.mul)((i.sub)(a, b), (i.sub)(a, b)) == (i.mul)((i.sub)(b, a), (i.sub)(b, a)));
    }
}

pub proof fn lemma_dot_symmetric<V>(i: Interpretation<V>, x: Seq<Term>, y: Seq<Term>, n: nat)
    requires
        commutative(i),
    ensures
        eval(dot(x, y, n), i) == eval(dot(y, x, n), i),
    decreases n,
{
    if n > 0 {
        reveal_with_fuel(eval, 4);
        lemma_dot_symmetric(i, x, y, (n - 1) as nat);
        let a = eval(x[n - 1], i);
        let b = eval(y[n - 1], i);
        assert((i.mul)(a, b) == (i.mul)(b, a));
    }
}

pub proof fn lemma_weighted_sq_dist_symmetric<V>(i: Interpretation<V>, w: Seq<Term>, x: Seq<Term>, y: Seq<Term>, n: nat)
    requires
        commutative(i),
    ensures
        eval(weighted_sq_dist(w, x, y, n), i) == eval(weighted_sq_dist(w, y, x, n), i),
    decreases n,
{
    if n > 0 {
        reveal_with_fuel(eval, 4);
        lemma_weighted_sq_dist_symmetric(i, w, x, y, (n - 1) as nat);
        let a = eval(x[n - 1], i);
        let b = eval(y[n - 1], i);
        assert((i.mul)((i.sub)(a, b), (i.sub)(a, b)) == (i.mul)((i.sub)(b, a), (i.sub)(b, a)));
    }
}

pub proof fn lemma_sq_dist_self<V>(i: Interpretation<V>, x: Seq<Term>, n: nat)
    requires
        unital(i),
    ensures
        eval(sq_dist(x, x, n), i) == (i.int)(0),
    decreases n,
{
    if n > 0 {
        reveal_with_fuel(eval, 4);
        lemma_sq_dist_self(i, x, (n - 1) as nat);
        let a = eval(x[n - 1], i);
        assert((i.sub)(a, a) == (i.int)(0));
        assert((i.mul)((i.int)(0), (i.int)(0)) == (i.int)(0));
    }
}

pub proof fn lemma_weighted_sq_dist_self<V>(i: Interpretation<V>, w: Seq<Term>, x: Seq<Term>, n: nat)
    requires
        unital(i),
    ensures
        eval(weighted_sq_dist(w, x, x, n), i) == (i.int)(0),
    decreases n,
{
    if n > 0 {
        reveal_with_fuel(eval, 4);
        lemma_weighted_sq_dist_self(i, w, x, (n - 1) as nat);
        let a = eval(x[n - 1], i);
        assert((i.sub)(a, a) == (i.int)(0));
        assert((i.mul)((i.int)(0), (i.int)(0)) == (i.int)(0));
        assert((i.mul)(eval(w[n - 1], i), (i.int)(0)) == (i.int)(0));
    }
}

/// The primitive kernels are symmetric in their two points: swapping `x` and
/// `x'` changes neither whether evaluation succeeds nor, in any commutative
/// interpretation, the value (the bias and the constant ignore the points).
pub proof fn lemma_primitives_symmetric<V>(
    i: Interpretation<V>,
    params: Seq<Term>,
    x: Vec<Term>,
    x_prime: Vec<Term>,
    dimension: usize,
)
    requires
        commutative(i),
    ensures
        RBF.spec_expression(params, x, x_prime) is Ok <==> RBF.spec_expression(params, x_prime, x) is Ok,
        RBF.spec_expression(params, x, x_prime) is Ok ==> eval(RBF.spec_expression(params, x, x_prime)->Ok_0, i)
            == eval(RBF.spec_expression(params, x_prime, x)->Ok_0, i),
        Linear.spec_expression(params, x, x_prime) is Ok <==> Linear.spec_expression(params, x_prime, x) is Ok,
        Linear.spec_expression(params, x, x_prime) is Ok ==> eval(Linear.spec_expression(params, x, x_prime)->Ok_0, i)
            == eval(Linear.spec_expression(params, x_prime, x)->Ok_0, i),
        Periodic.spec_expression(params, x, x_prime) is Ok <==> Periodic.spec_expression(params, x_prime, x) is Ok,
        Periodic.spec_expression(params, x, x_prime) is Ok ==> eval(Periodic.spec_expression(params, x, x_prime)->Ok_0, i)
            == eval(Periodic.spec_expression(params, x_prime, x)->Ok_0, i),
        Exponential.spec_expression(params, x, x_prime) is Ok <==> Exponential.spec_expression(params, x_prime, x) is Ok,
        Exponential.spec_expression(params, x, x_prime) is Ok ==> eval(Exponential.spec_expression(params, x, x_prime)->Ok_0, i)
            == eval(Exponential.spec_expression(params, x_prime, x)->Ok_0, i),
        ARD(dimension).spec_expression(params, x, x_prime) is Ok <==> ARD(dimension).spec_expression(params, x_prime, x) is Ok,
        ARD(dimension).spec_expression(params, x, x_prime) is Ok ==> eval(ARD(dimension).spec_expression(params, x, x_prime)->Ok_0, i)
            == eval(ARD(dimension).spec_expression(params, x_prime, x)->Ok_0, i),
        <Bias as PositiveDefiniteKernel<Vec<Term>>>::spec_expression(&Bias, params, x, x_prime)
            == <Bias as PositiveDefiniteKernel<Vec<Term>>>::spec_expression(&Bias, params, x_prime, x),
        <Constant as PositiveDefiniteKernel<Vec<Term>>>::spec_expression(&Constant, params, x, x_prime)
            == <Constant as PositiveDefiniteKernel<Vec<Term>>>::spec_expression(&Constant, params, x_prime, x),
{
    reveal_with_fuel(eval, 6);
    let n = x@.len();
    lemma_sq_dist_symmetric(i, x@, x_prime@, n);
    lemma_dot_symmetric(i, x@, x_prime@, n);
    lemma_weighted_sq_dist_symmetric(i, params, x@, x_prime@, dimension as nat);
}

/// At distance zero the kernels reduce to their zero-distance values in every
/// unital interpretation: RBF to its amplitude, the exponential kernel and ARD
/// to one, the periodic kernel to `exp(amplitude)` and the bias to its
/// parameter (ARD over points of its own dimension). Where a parameter
/// divides, it must not be zero.
pub proof fn lemma_zero_distance<V>(i: Interpretation<V>, params: Seq<Term>, x: Vec<Term>, dimension: usize)
    requires
        unital(i),
    ensures
        params.len() == 2 && eval(params[1], i) != (i.int)(0) ==> RBF.spec_expression(params, x, x) is Ok
            && eval(RBF.spec_expression(params, x, x)->Ok_0, i) == eval(params[0], i),
        params.len() == 1 && eval(params[0], i) != (i.int)(0) ==> Exponential.spec_expression(params, x, x) is Ok
            && eval(Exponential.spec_expression(params, x, x)->Ok_0, i) == (i.int)(1),
        params.len() == 2 && eval(params[1], i) != (i.int)(0) ==> Periodic.spec_expression(params, x, x) is Ok
            && eval(Periodic.spec_expression(params, x, x)->Ok_0, i) == (i.exp)(eval(params[0], i)),
        params.len() == 1 ==> <Bias as PositiveDefiniteKernel<Vec<Term>>>::spec_expression(&Bias, params, x, x) is Ok
            && eval(<Bias as PositiveDefiniteKernel<Vec<Term>>>::spec_expression(&Bias, params, x, x)->Ok_0, i)
                == eval(params[0], i),
        params.len() == dimension && x@.len() == dimension ==> ARD(dimension).spec_expression(params, x, x) is Ok
            && eval(ARD(dimension).spec_expression(params, x, x)->Ok_0, i) == (i.int)(1),
{
    reveal_with_fuel(eval, 6);
    let n = x@.len();
    lemma_sq_dist_self(i, x@, n);
    lemma_weighted_sq_dist_self(i, params, x@, n);
    let zero = (i.int)(0);
    let one = (i.int)(1);
    if params.len() == 2 && eval(params[1], i) != zero {
        assert((i.div)(zero, eval(params[1], i)) == zero);
        assert((i.mul)(eval(params[0], i), one) == eval(params[0], i));
    }
    if params.len() == 1 && eval(params[0], i) != zero {
        assert((i.div)(zero, eval(params[0], i)) == zero);
    }
}

} // verus!
