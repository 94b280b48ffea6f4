//! Laws of the composition algebra, proved over the kernels' specifications.
use crate::add::KernelAdd;
use crate::bias::Bias;
use crate::kernel::{KernelError, PositiveDefiniteKernel, Value};
use crate::linear::Linear;
use crate::mul::{product_rule, KernelMul};
use crate::rbf::RBF;
use crate::term::{product, sum, Term};
use crate::traits::ParamsDifferentiableKernel;
use vstd::prelude::*;

verus! {

/// A sum of kernels consumes exactly the parameters of both children.
pub proof fn lemma_add_params_len<T: Value, L: PositiveDefiniteKernel<T>, R: PositiveDefiniteKernel<T>>(k: KernelAdd<L, R>)
    ensures
        <KernelAdd<L, R> as PositiveDefiniteKernel<T>>::spec_params_len(&k)
            == k.left().spec_params_len() + k.right().spec_params_len(),
{
}

/// A product of kernels consumes exactly the parameters of both children.
pub proof fn lemma_mul_params_len<T: Value, L: PositiveDefiniteKernel<T>, R: PositiveDefiniteKernel<T>>(k: KernelMul<L, R>)
    ensures
        <KernelMul<L, R> as PositiveDefiniteKernel<T>>::spec_params_len(&k)
            == k.left().spec_params_len() + k.right().spec_params_len(),
{
}

/// A sum of kernels given a parameter vector of the wrong total length reports
/// `ParametersLengthMismatch`, for its value and for its gradient.
pub proof fn lemma_add_rejects_wrong_length<T: Value, L: ParamsDifferentiableKernel<T>, R: ParamsDifferentiableKernel<T>>(
    k: KernelAdd<L, R>,
    params: Seq<Term>,
    x: T,
    x_prime: T,
)
    requires
        params.len() != k.left().spec_params_len() + k.right().spec_params_len(),
    ensures
        k.spec_expression(params, x, x_prime) == Err::<Term, KernelError>(KernelError::ParametersLengthMismatch),
        k.spec_diff_params(params, x, x_prime) == Err::<Seq<Term>, KernelError>(KernelError::ParametersLengthMismatch),
{
}

/// A product of kernels given a parameter vector of the wrong total length
/// reports `ParametersLengthMismatch`, for its value and for its gradient.
pub proof fn lemma_mul_rejects_wrong_length<T: Value, L: ParamsDifferentiableKernel<T>, R: ParamsDifferentiableKernel<T>>(
    k: KernelMul<L, R>,
    params: Seq<Term>,
    x: T,
    x_prime: T,
)
    requires
        params.len() != k.left().spec_params_len() + k.right().spec_params_len(),
    ensures
        k.spec_expression(params, x, x_prime) == Err::<Term, KernelError>(KernelError::ParametersLengthMismatch),
        k.spec_diff_params(params, x, x_prime) == Err::<Seq<Term>, KernelError>(KernelError::ParametersLengthMismatch),
{
}

/// The sum rule: with `n` the left child's parameter count, the value of
/// `L + R` is `L`'s value on `params[..n]` plus `R`'s value on `params[n..]`,
/// and its gradient is `L`'s gradient followed by `R`'s.
pub proof fn lemma_sum_rule<T: Value, L: ParamsDifferentiableKernel<T>, R: ParamsDifferentiableKernel<T>>(
    k: KernelAdd<L, R>,
    params: Seq<Term>,
    x: T,
    x_prime: T,
)
    requires
        params.len() == k.left().spec_params_len() + k.right().spec_params_len(),
    ensures
        ({
            let n = k.left().spec_params_len() as int;
            let f = k.left().spec_expression(params.take(n), x, x_prime);
            let g = k.right().spec_expression(params.skip(n), x, x_prime);
            let df = k.left().spec_diff_params(params.take(n), x, x_prime);
            let dg = k.right().spec_diff_params(params.skip(n), x, x_prime);
            &&& (f is Ok && g is Ok) ==> k.spec_expression(params, x, x_prime) == Ok::<Term, KernelError>(
                sum(f->Ok_0, g->Ok_0),
            )
            &&& f is Err ==> k.spec_expression(params, x, x_prime) == f
            &&& (f is Ok && g is Err) ==> k.spec_expression(params, x, x_prime) == g
            &&& (df is Ok && dg is Ok) ==> k.spec_diff_params(params, x, x_prime) == Ok::<Seq<Term>, KernelError>(
                df->Ok_0 + dg->Ok_0,
            )
        }),
{
}

/// The product rule: with `n` the left child's parameter count, `f` and `g` the
/// children's values and `df`, `dg` their gradients, the value of `L * R` is
/// `f * g`, the first `|df|` gradient entries are `df[i] * g` and the rest
/// `f * dg[j]`.
pub proof fn lemma_product_rule<T: Value, L: ParamsDifferentiableKernel<T>, R: ParamsDifferentiableKernel<T>>(
    k: KernelMul<L, R>,
    params: Seq<Term>,
    x: T,
    x_prime: T,
)
    requires
        params.len() == k.left().spec_params_len() + k.right().spec_params_len(),
    ensures
        ({
            let n = k.left().spec_params_len() as int;
            let f = k.left().spec_expression(params.take(n), x, x_prime);
            let g = k.right().spec_expression(params.skip(n), x, x_prime);
            let df = k.left().spec_diff_params(params.take(n), x, x_prime);
            let dg = k.right().spec_diff_params(params.skip(n), x, x_prime);
            &&& (f is Ok && g is Ok) ==> k.spec_expression(params, x, x_prime) == Ok::<Term, KernelError>(
                product(f->Ok_0, g->Ok_0),
            )
            &&& (f is Ok && g is Ok && df is Ok && dg is Ok) ==> {
                let grad = k.spec_diff_params(params, x, x_prime);
                &&& grad is Ok
                &&& grad->Ok_0.len() == df->Ok_0.len() + dg->Ok_0.len()
                &&& forall|i: int| 0 <= i < df->Ok_0.len() ==> #[trigger] grad->Ok_0[i] == product(df->Ok_0[i], g->Ok_0)
                &&& forall|j: int| 0 <= j < dg->Ok_0.len() ==> #[trigger] grad->Ok_0[df->Ok_0.len() + j] == product(f->Ok_0, dg->Ok_0[j])
            }
        }),
{
    let n = k.left().spec_params_len() as int;
    let f = k.left().spec_expression(params.take(n), x, x_prime);
    let g = k.right().spec_expression(params.skip(n), x, x_prime);
    let df = k.left().spec_diff_params(params.take(n), x, x_prime);
    let dg = k.right().spec_diff_params(params.skip(n), x, x_prime);
    if f is Ok && g is Ok && df is Ok && dg is Ok {
        let a = df->Ok_0;
        let b = dg->Ok_0;
        let grad = product_rule(a, b, f->Ok_0, g->Ok_0);
        assert forall|j: int| 0 <= j < b.len() implies #[trigger] grad[a.len() + j] == product(f->Ok_0, b[j]) by {
            assert(grad[a.len() + j] == Seq::new(b.len(), |m: int| product(f->Ok_0, b[m]))[j]);
        }
    }
}

/// The tree `RBF + Bias * Linear` evaluates to the RBF value on `params[0..2]`
/// plus the bias value on `params[2..3]` times the linear value on
/// `params[3..3]`.
pub proof fn lemma_rbf_plus_bias_times_linear(
    k: KernelAdd<RBF, KernelMul<Bias, Linear>>,
    params: Seq<Term>,
    x: Vec<Term>,
    x_prime: Vec<Term>,
)
    requires
        k.right().left() == Bias,
        k.right().right() == Linear,
        params.len() == 3,
        x@.len() == x_prime@.len(),
    ensures
        ({
            let a = RBF.spec_expression(params.subrange(0, 2), x, x_prime);
            let b = <Bias as PositiveDefiniteKernel<Vec<Term>>>::spec_expression(&Bias, params.subrange(2, 3), x, x_prime);
            let c = Linear.spec_expression(params.subrange(3, 3), x, x_prime);
            &&& a is Ok
            &&& b is Ok
            &&& c is Ok
            &&& k.spec_expression(params, x, x_prime) == Ok::<Term, KernelError>(sum(a->Ok_0, product(b->Ok_0, c->Ok_0)))
        }),
{
    assert(params.take(2) == params.subrange(0, 2));
    assert(params.skip(2).take(1) =~= params.subrange(2, 3));
    assert(params.skip(2).skip(1) =~= params.subrange(3, 3));
}

} // verus!
