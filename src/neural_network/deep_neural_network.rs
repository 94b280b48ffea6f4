use super::ActivationFunction;
use crate::kernel::{KernelError, PositiveDefiniteKernel};
use crate::term::{dot, dot_product, product, sum, Term};
use vstd::prelude::*;

verus! {

/// The covariance of an infinitely wide deep network, one activation per layer.
///
/// Parameters: `[b_0, w_0, b_1, w_1, ...]`, a bias and a weight for the input
/// layer and for each hidden layer. The input layer gives `b_0 + w_0 * (a . b)`
/// for each pair of points `a`, `b`; layer `l` maps the triple
/// `(k(x, x'), k(x, x), k(x', x'))` to
/// `b_l + w_l * f(k(x, x'), k(x, x), k(x', x'))` for the cross term and
/// `b_l + w_l * f(k, k, k)` for each self term. The value is the final cross term.
#[derive(Clone, Debug)]
pub struct DeepNeuralNetwork<A> {
    layers: Vec<A>,
}

/// The input layer: `b + w * (a . c)`.
pub open spec fn input_layer(b: Term, w: Term, a: Seq<Term>, c: Seq<Term>) -> Term {
    sum(b, product(w, dot(a, c, a.len())))
}

/// `b + w * v`.
pub open spec fn rescale(b: Term, w: Term, v: Term) -> Term {
    sum(b, product(w, v))
}

/// The triple after the input layer and the first `n` hidden layers.
pub open spec fn layer_state<A: ActivationFunction>(
    layers: Seq<A>,
    params: Seq<Term>,
    x: Seq<Term>,
    y: Seq<Term>,
    n: nat,
) -> (Term, Term, Term)
    decreases n,
{
    if n == 0 {
        (
            input_layer(params[0], params[1], x, y),
            input_layer(params[0], params[1], x, x),
            input_layer(params[0], params[1], y, y),
        )
    } else {
        let (c, s, t) = layer_state(layers, params, x, y, (n - 1) as nat);
        let f = layers[n - 1];
        let b = params[2 * n as int];
        let w = params[2 * n as int + 1];
        (
            rescale(b, w, f.spec_f((c, s, t))),
            rescale(b, w, f.spec_f((s, s, s))),
            rescale(b, w, f.spec_f((t, t, t))),
        )
    }
}

impl<A> DeepNeuralNetwork<A> {
    pub closed spec fn spec_layers(&self) -> Seq<A> {
        self.layers@
    }

    pub fn new(layers: Vec<A>) -> (r: Self)
        ensures
            r.spec_layers() == layers@,
    {
        DeepNeuralNetwork { layers }
    }
}

impl<A: ActivationFunction> DeepNeuralNetwork<A> {
    fn apply(layer: &A, b: &Term, w: &Term, k: (Term, Term, Term)) -> (r: Term)
        ensures
            r == rescale(*b, *w, layer.spec_f(k)),
    {
        Term::boxed_sum(b.clone(), Term::boxed_product(w.clone(), layer.f(k)))
    }
}

impl<A: ActivationFunction> PositiveDefiniteKernel<Vec<Term>> for DeepNeuralNetwork<A> {
    open spec fn spec_params_len(&self) -> nat {
        2 * (1 + self.spec_layers().len())
    }

    open spec fn spec_expression(&self, params: Seq<Term>, x: Vec<Term>, x_prime: Vec<Term>) -> Result<Term, KernelError> {
        if params.len() != 2 * (1 + self.spec_layers().len()) {
            Err(KernelError::ParametersLengthMismatch)
        } else if x@.len() != x_prime@.len() {
            Err(KernelError::InvalidArgument)
        } else {
            Ok(layer_state(self.spec_layers(), params, x@, x_prime@, self.spec_layers().len()).0)
        }
    }

    fn params_len(&self) -> (r: usize) {
        2 * (1 + self.layers.len())
    }

    fn checked_params_len(&self) -> (r: Option<usize>) {
        match self.layers.len().checked_add(1) {
            Some(n) => n.checked_mul(2),
            None => None,
        }
    }

    fn expression(&self, params: &[Term], x: &Vec<Term>, x_prime: &Vec<Term>) -> (r: Result<Term, KernelError>) {
        let total = params.len();
        let layers_len = self.layers.len();
        if layers_len >= usize::MAX / 2 || total != 2 * (1 + layers_len) {
            return Err(KernelError::ParametersLengthMismatch);
        }
        if x.len() != x_prime.len() {
            return Err(KernelError::InvalidArgument);
        }
        let b0 = &params[0];
        let w0 = &params[1];
        let mut cross = Term::boxed_sum(b0.clone(), Term::boxed_product(w0.clone(), dot_product(x.as_slice(), x_prime.as_slice())));
        let mut xx = Term::boxed_sum(b0.clone(), Term::boxed_product(w0.clone(), dot_product(x.as_slice(), x.as_slice())));
        let mut pp = Term::boxed_sum(b0.clone(), Term::boxed_product(w0.clone(), dot_product(x_prime.as_slice(), x_prime.as_slice())));
        let mut l: usize = 0;
        while l < layers_len
            invariant
                layers_len == self.spec_layers().len(),
                layers_len < usize::MAX / 2,
                total == params@.len(),
                total == 2 * (1 + layers_len),
                x@.len() == x_prime@.len(),
                l <= layers_len,
                (cross, xx, pp) == layer_state(self.spec_layers(), params@, x@, x_prime@, l as nat),
            decreases layers_len - l,
        {
            let layer = &self.layers[l];
            let b = &params[2 * l + 2];
            let w = &params[2 * l + 3];
            let next_cross = Self::apply(layer, b, w, (cross, xx.clone(), pp.clone()));
            let next_xx = Self::apply(layer, b, w, (xx.clone(), xx.clone(), xx));
            let next_pp = Self::apply(layer, b, w, (pp.clone(), pp.clone(), pp));
            cross = next_cross;
            xx = next_xx;
            pp = next_pp;
            l = l + 1;
        }
        Ok(cross)
    }
}

} // verus!
