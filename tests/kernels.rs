use opensrdk_kernel_method::{
    ActivationFunction, Bias, Constant, Convolutional, DeepNeuralNetwork, Exponential, InstantKernel,
    KernelAdd,
    KernelError, KernelMul, Linear, LogParamsDifferentiableKernel, LogValueDifferentiableKernel,
    ParamsDifferentiableKernel, Periodic, ValueDifferentiableKernel, PositiveDefiniteKernel, ReLU, SpectralMixture, Term, ARD,
    RBF,
};
use std::f64::consts::PI;

fn eval(t: &Term, vars: &[f64]) -> f64 {
    match t {
        Term::Var(i) => vars[*i],
        Term::Int(n) => *n as f64,
        Term::Pi => PI,
        Term::Add(a, b) => eval(a, vars) + eval(b, vars),
        Term::Sub(a, b) => eval(a, vars) - eval(b, vars),
        Term::Mul(a, b) => eval(a, vars) * eval(b, vars),
        Term::Div(a, b) => eval(a, vars) / eval(b, vars),
        Term::Neg(a) => -eval(a, vars),
        Term::Exp(a) => eval(a, vars).exp(),
        Term::Sqrt(a) => eval(a, vars).sqrt(),
        Term::Cos(a) => eval(a, vars).cos(),
        Term::Sin(a) => eval(a, vars).sin(),
        Term::Tan(a) => eval(a, vars).tan(),
        Term::Acos(a) => eval(a, vars).acos(),
    }
}

fn ints(v: &[i64]) -> Vec<Term> {
    v.iter().map(|n| Term::Int(*n)).collect()
}

fn vars(n: usize) -> Vec<Term> {
    (0..n).map(Term::Var).collect()
}

fn value<K: PositiveDefiniteKernel<Vec<Term>>>(k: &K, params: &[i64], x: &[i64], xp: &[i64]) -> Result<f64, KernelError> {
    k.expression(&ints(params), &ints(x), &ints(xp)).map(|t| eval(&t, &[]))
}

fn close(a: f64, b: f64) -> bool {
    (a - b).abs() <= 1e-6 * (1.0 + a.abs().max(b.abs()))
}

/// Checks each gradient entry against a central finite difference.
fn check_gradient<K: ParamsDifferentiableKernel<Vec<Term>>>(k: &K, at: &[f64], x: &[i64], xp: &[i64]) {
    let params = vars(at.len());
    let v = k.expression(&params, &ints(x), &ints(xp)).unwrap();
    let g = k.diff_params(&params, &ints(x), &ints(xp)).unwrap();
    assert_eq!(g.len(), at.len());
    for i in 0..at.len() {
        let h = 1e-5;
        let mut up = at.to_vec();
        up[i] += h;
        let mut down = at.to_vec();
        down[i] -= h;
        let numeric = (eval(&v, &up) - eval(&v, &down)) / (2.0 * h);
        let symbolic = eval(&g[i], at);
        assert!((numeric - symbolic).abs() < 1e-4, "entry {}: {} vs {}", i, numeric, symbolic);
    }
}

#[test]
fn exponential_it_works() {
    let kernel = Exponential;
    let test_value = value(&kernel, &[1], &[1, 0, 0], &[0, 0, 0]).unwrap();
    assert_eq!(test_value, (-1f64).exp());
}

#[test]
fn spectral_mixture_it_works() {
    let kernel = SpectralMixture::new(1, 2);
    let test_value = kernel.expression(&ints(&[1, 1]), &ints(&[0, 0, 0]), &ints(&[0, 0, 0]));
    match test_value {
        Err(KernelError::ParametersLengthMismatch) => (),
        _ => panic!(),
    };
}

#[test]
fn lib_it_works() {
    let kernel = RBF + Constant * Linear + Constant * Periodic + Constant * ARD(3);
    let n = kernel.params_len();
    assert_eq!(n, 2 + 1 + 3 + 4);
    let params = vec![Term::Int(1); n];
    let t = kernel
        .expression(&params, &ints(&[1, 2, 3]), &ints(&[30, 20, 10]))
        .unwrap();
    let v = eval(&t, &[]);
    assert!(v.is_finite());
    let d2 = 29.0f64 * 29.0 + 18.0 * 18.0 + 7.0 * 7.0;
    let expected = (-d2).exp() + 100.0 + (d2.sqrt().cos()).exp() + (-d2).exp();
    assert!(close(v, expected));
}

#[test]
fn rbf_literal() {
    assert_eq!(value(&RBF, &[1, 1], &[1, 0, 0], &[0, 0, 0]).unwrap(), (-1f64).exp());
}

#[test]
fn linear_literal() {
    assert_eq!(value(&Linear, &[], &[1, 2, 3], &[3, 2, 1]).unwrap(), 10.0);
}

#[test]
fn bias_and_constant_literal() {
    assert_eq!(value(&Bias, &[1], &[1, 2, 3], &[3, 2, 1]).unwrap(), 1.0);
    assert_eq!(value(&Constant, &[1], &[1, 2, 3], &[3, 2, 1]).unwrap(), 1.0);
    let t = Bias.expression(&[Term::Var(7)], &(), &()).unwrap();
    assert_eq!(t, Term::Var(7));
}

#[test]
fn ard_literal() {
    assert_eq!(value(&ARD(3), &[1, 0, 0], &[1, 2, 3], &[0, 2, 1]).unwrap(), (-1f64).exp());
}

#[test]
fn periodic_literal() {
    assert_eq!(value(&Periodic, &[1, 1], &[0, 0, 0], &[0, 0, 0]).unwrap(), 1f64.exp());
}

#[test]
fn spectral_mixture_value() {
    // One coordinate, one component: w * exp(-2 pi^2 d^2 v) * cos(2 pi d mu).
    let k = SpectralMixture::new(1, 1);
    assert_eq!(k.params_len(), 3);
    let params = vars(3);
    let t = k.expression(&params, &ints(&[2]), &ints(&[1])).unwrap();
    let (w, v, mu) = (0.5, 0.1, 0.3);
    let expected = w * (-2.0 * PI * PI * v).exp() * (2.0 * PI * mu).cos();
    assert!(close(eval(&t, &[w, v, mu]), expected));
}

#[test]
fn spectral_mixture_parameter_layout() {
    // Two coordinates, two components: v[i*q + j] and mu[i*q + j].
    let k = SpectralMixture::new(2, 2);
    assert_eq!(k.params_len(), 2 + 4 + 4);
    let at = [0.7, 1.3, 0.1, 0.2, 0.3, 0.4, 0.5, 0.6, 0.7, 0.8];
    let x = [1, 2];
    let xp = [0, 0];
    let t = k.expression(&vars(10), &ints(&x), &ints(&xp)).unwrap();
    let mut expected = 0.0;
    for j in 0..2 {
        let mut prod = 1.0;
        for i in 0..2 {
            let d = (x[i] - xp[i]) as f64;
            let v = at[2 + i * 2 + j];
            let mu = at[6 + i * 2 + j];
            prod *= (-2.0 * PI * PI * d * d * v).exp() * (2.0 * PI * d * mu).cos();
        }
        expected += at[j] * prod;
    }
    assert!(close(eval(&t, &at), expected));
}

#[test]
fn spectral_mixture_dimension_mismatch() {
    let k = SpectralMixture::new(2, 1);
    let r = k.expression(&ints(&[1, 1, 1, 1, 1]), &ints(&[0, 0, 0]), &ints(&[0, 0, 0]));
    assert!(matches!(r, Err(KernelError::InvalidArgument)));
}

#[test]
fn spectral_mixture_log_derivatives() {
    let k = SpectralMixture::new(2, 2);
    let at = [0.7, 1.3, 0.1, 0.2, 0.3, 0.4, 0.05, 0.06, 0.07, 0.08];
    let x = ints(&[1, 2]);
    let xp = ints(&[0, 1]);
    let g = k.ln_diff_params(&vars(10), &x, &xp).unwrap();
    assert_eq!(g.len(), 10);
    let dv = k.ln_diff_value(&vars(10), &x, &xp).unwrap();
    assert_eq!(dv.len(), 2);
    // The variance entries follow from the value: 4 pi^2 d_i^2 * weighted_j / value.
    let value = eval(&k.expression(&vars(10), &x, &xp).unwrap(), &at);
    let weighted = |j: usize| {
        let mut prod = at[j];
        for i in 0..2 {
            let d = 1.0;
            prod *= (-2.0 * PI * PI * d * d * at[2 + i * 2 + j]).exp() * (2.0 * PI * d * at[6 + i * 2 + j]).cos();
        }
        prod
    };
    let expected = 4.0 * PI * PI * weighted(1) / value;
    assert!(close(eval(&g[2 + 1], &at), expected));
    let r = k.ln_diff_params(&vars(3), &x, &xp);
    assert!(matches!(r, Err(KernelError::ParametersLengthMismatch)));
}

#[test]
fn mismatches_are_reported() {
    assert!(matches!(value(&Periodic, &[1], &[0, 0, 0], &[0, 0, 0]), Err(KernelError::ParametersLengthMismatch)));
    assert!(matches!(value(&Linear, &[], &[1, 2], &[1, 2, 3]), Err(KernelError::InvalidArgument)));
    assert!(matches!(value(&RBF, &[1, 1], &[1, 2], &[1]), Err(KernelError::InvalidArgument)));
    assert!(matches!(value(&ARD(3), &[1, 1, 1], &[1, 2], &[1, 2]), Err(KernelError::InvalidArgument)));
    assert!(matches!(value(&ARD(3), &[1, 1], &[1, 2, 3], &[1, 2, 3]), Err(KernelError::ParametersLengthMismatch)));
    // The parameter check comes before the input check.
    assert!(matches!(value(&RBF, &[1], &[1, 2], &[1]), Err(KernelError::ParametersLengthMismatch)));
}

#[test]
fn params_len_is_additive() {
    assert_eq!((RBF + Bias).params_len(), 3);
    assert_eq!((ARD(3) * SpectralMixture::new(1, 2)).params_len(), 3 + 6);
    assert_eq!(KernelAdd::new(Linear, Periodic).params_len(), 2);
    assert_eq!(KernelMul::new(Exponential, ARD(4)).params_len(), 5);
}

#[test]
fn combinators_reject_wrong_length() {
    let sum = RBF + Bias;
    let x = ints(&[1, 2]);
    for n in [0usize, 2, 4] {
        let r = sum.expression(&ints(&vec![1; n]), &x, &x);
        assert!(matches!(r, Err(KernelError::ParametersLengthMismatch)));
    }
    let prod = Bias * Linear;
    let r = prod.expression(&ints(&[1, 1]), &x, &x);
    assert!(matches!(r, Err(KernelError::ParametersLengthMismatch)));
    let r = prod.diff_params(&ints(&[]), &x, &x);
    assert!(matches!(r, Err(KernelError::ParametersLengthMismatch)));
}

#[test]
fn sum_rule() {
    let k = RBF + Periodic;
    let p = vars(4);
    let x = ints(&[1, 2]);
    let xp = ints(&[3, 1]);
    let t = k.expression(&p, &x, &xp).unwrap();
    let l = RBF.expression(&p[..2], &x, &xp).unwrap();
    let r = Periodic.expression(&p[2..], &x, &xp).unwrap();
    assert_eq!(t, Term::Add(Box::new(l.clone()), Box::new(r.clone())));
    let at = [0.5, 2.0, 0.3, 1.5];
    assert!(close(eval(&t, &at), eval(&l, &at) + eval(&r, &at)));
    let g = k.diff_params(&p, &x, &xp).unwrap();
    let gl = RBF.diff_params(&p[..2], &x, &xp).unwrap();
    assert_eq!(g.len(), 4);
    assert_eq!(g[0], gl[0]);
    assert_eq!(g[1], gl[1]);
}

#[test]
fn product_rule() {
    let k = Bias * RBF;
    let p = vars(3);
    let x = ints(&[1, 2]);
    let xp = ints(&[0, 2]);
    let (v, g) = k.value_with_grad(&p, &x, &xp).unwrap();
    let f = Bias.expression(&p[..1], &x, &xp).unwrap();
    let h = RBF.expression(&p[1..], &x, &xp).unwrap();
    assert_eq!(v, Term::Mul(Box::new(f.clone()), Box::new(h.clone())));
    let dh = RBF.diff_params(&p[1..], &x, &xp).unwrap();
    assert_eq!(g.len(), 3);
    assert_eq!(g[0], Term::Mul(Box::new(Term::Int(1)), Box::new(h.clone())));
    assert_eq!(g[1], Term::Mul(Box::new(f.clone()), Box::new(dh[0].clone())));
    assert_eq!(g[2], Term::Mul(Box::new(f), Box::new(dh[1].clone())));
    check_gradient(&k, &[2.0, 0.5, 3.0], &[1, 2], &[0, 2]);
}

#[test]
fn rbf_plus_bias_times_linear() {
    let k = RBF + Bias * Linear;
    assert_eq!(k.params_len(), 3);
    let p = ints(&[1, 2, 3]);
    let x = ints(&[1, 2]);
    let xp = ints(&[2, 0]);
    let t = k.expression(&p, &x, &xp).unwrap();
    let a = eval(&RBF.expression(&p[..2], &x, &xp).unwrap(), &[]);
    let b = eval(&Bias.expression(&p[2..3], &x, &xp).unwrap(), &[]);
    let c = eval(&Linear.expression(&p[3..3], &x, &xp).unwrap(), &[]);
    assert_eq!(eval(&t, &[]), a + b * c);
    assert!(close(eval(&t, &[]), (-5.0f64 / 2.0).exp() + 3.0 * 2.0));
}

#[test]
fn primitives_are_symmetric() {
    let x = ints(&[1, -2, 3]);
    let xp = ints(&[4, 0, -1]);
    let p = vars(3);
    let at = [0.8, 2.5, 1.7];
    let pairs: Vec<(Term, Term)> = vec![
        (RBF.expression(&p[..2], &x, &xp).unwrap(), RBF.expression(&p[..2], &xp, &x).unwrap()),
        (Linear.expression(&[], &x, &xp).unwrap(), Linear.expression(&[], &xp, &x).unwrap()),
        (Periodic.expression(&p[..2], &x, &xp).unwrap(), Periodic.expression(&p[..2], &xp, &x).unwrap()),
        (Exponential.expression(&p[..1], &x, &xp).unwrap(), Exponential.expression(&p[..1], &xp, &x).unwrap()),
        (ARD(3).expression(&p, &x, &xp).unwrap(), ARD(3).expression(&p, &xp, &x).unwrap()),
    ];
    for (a, b) in pairs {
        assert_eq!(eval(&a, &at), eval(&b, &at));
    }
}

#[test]
fn zero_distance_values() {
    let x = ints(&[1, -2, 3]);
    let at = [0.8, 2.5, 1.7];
    let p = vars(3);
    assert_eq!(eval(&RBF.expression(&p[..2], &x, &x).unwrap(), &at), 0.8);
    assert_eq!(eval(&Exponential.expression(&p[..1], &x, &x).unwrap(), &at), 1.0);
    assert_eq!(eval(&Periodic.expression(&p[..2], &x, &x).unwrap(), &at), 0.8f64.exp());
    assert_eq!(eval(&Bias.expression(&p[..1], &x, &x).unwrap(), &at), 0.8);
    assert_eq!(eval(&ARD(3).expression(&p, &x, &x).unwrap(), &at), 1.0);
}

#[test]
fn gradients_match_finite_differences() {
    check_gradient(&RBF, &[1.5, 2.0], &[1, 2, 0], &[0, 1, 1]);
    check_gradient(&Exponential, &[1.5], &[1, 2, 0], &[0, 1, 1]);
    check_gradient(&Periodic, &[0.7, 2.0], &[1, 2, 0], &[0, 1, 1]);
    check_gradient(&ARD(3), &[0.2, 0.1, 0.3], &[1, 2, 0], &[0, 1, 1]);
    check_gradient(&(RBF + Bias * Periodic), &[1.5, 2.0, 0.4, 0.7, 2.0], &[1, 2], &[0, 1]);
    let g = Linear.diff_params(&[], &ints(&[1]), &ints(&[2])).unwrap();
    assert!(g.is_empty());
}

#[test]
fn bias_value_with_grad() {
    let (v, g) = Bias.value_with_grad(&ints(&[3]), &ints(&[1]), &ints(&[2])).unwrap();
    assert_eq!(v, Term::Int(3));
    assert_eq!(g, vec![Term::Int(1)]);
}

#[test]
fn convolutional_sums_over_parts() {
    let k = Convolutional::new(Linear);
    let x: Vec<Vec<Term>> = vec![ints(&[1, 2]), ints(&[3])];
    let xp: Vec<Vec<Term>> = vec![ints(&[5, 1]), ints(&[2])];
    let t = k.expression(&[], &x, &xp).unwrap();
    assert_eq!(eval(&t, &[]), 7.0 + 6.0);
    let short: Vec<Vec<Term>> = vec![ints(&[1, 2])];
    assert!(matches!(k.expression(&[], &x, &short), Err(KernelError::InvalidArgument)));
    let bad: Vec<Vec<Term>> = vec![ints(&[1, 2]), ints(&[3, 4])];
    assert!(matches!(k.expression(&[], &x, &bad), Err(KernelError::InvalidArgument)));
    let single = Convolutional::new(RBF);
    let t = single.expression(&ints(&[1, 1]), &ints(&[1, 0]), &ints(&[0, 0])).unwrap();
    assert_eq!(eval(&t, &[]), (-1f64).exp());
    assert!(matches!(single.expression(&ints(&[1]), &ints(&[1]), &ints(&[1])), Err(KernelError::ParametersLengthMismatch)));
    assert_eq!(PositiveDefiniteKernel::<Vec<Term>>::params_len(single.kernel_ref()), 2);
}

#[test]
fn relu_arc_cosine() {
    let r = ReLU.f((Term::Var(0), Term::Var(1), Term::Var(2)));
    let (c, a, b) = (0.5, 1.0, 2.0);
    let s = (a * b as f64).sqrt();
    let theta = (c / s).acos();
    let expected = s * (theta.sin() + (PI - theta) * theta.cos()) / (2.0 * PI);
    assert!(close(eval(&r, &[c, a, b]), expected));
}

#[test]
fn deep_neural_network_layers() {
    let k = DeepNeuralNetwork::new(vec![ReLU]);
    assert_eq!(k.params_len(), 4);
    let x = ints(&[1, 2]);
    let xp = ints(&[2, 1]);
    assert!(matches!(k.expression(&ints(&[1, 1, 1]), &x, &xp), Err(KernelError::ParametersLengthMismatch)));
    assert!(matches!(k.expression(&ints(&[1, 1, 1, 1]), &x, &ints(&[1])), Err(KernelError::InvalidArgument)));
    let at = [0.1, 0.5, 0.2, 1.5];
    let t = k.expression(&vars(4), &x, &xp).unwrap();
    let base = |d: f64| at[0] + at[1] * d;
    let (c, s, u) = (base(4.0), base(5.0), base(5.0));
    let f = |c: f64, a: f64, b: f64| {
        let r = (a * b).sqrt();
        let th = (c / r).acos();
        r * (th.sin() + (PI - th) * th.cos()) / (2.0 * PI)
    };
    let expected = at[2] + at[3] * f(c, s, u);
    assert!(close(eval(&t, &at), expected));
}

#[test]
fn error_messages() {
    assert_eq!(KernelError::ParametersLengthMismatch.message(), "parameters length mismatch");
    assert_eq!(KernelError::InvalidParameter.message(), "invalid parameter");
    assert_eq!(KernelError::InvalidArgument.message(), "invalid argument");
}

#[test]
fn terms_clone_exactly() {
    let t = Term::Acos(Box::new(Term::Tan(Box::new(Term::Sub(Box::new(Term::Pi), Box::new(Term::Var(3)))))));
    assert_eq!(t.clone(), t);
}

#[test]
fn instant_it_works() {
    let kernel = RBF
        + InstantKernel::new(0, |_p: &[Term], _x: &Vec<Term>, _y: &Vec<Term>| -> Result<Term, KernelError> {
            Ok(Term::Int(0))
        });
    assert_eq!(kernel.params_len(), 2);
    let test_value = kernel
        .expression(&ints(&[1, 1]), &ints(&[1, 2, 3]), &ints(&[3, 2, 1]))
        .unwrap();
    println!("{:?}", test_value);
    assert_eq!(eval(&test_value, &[]), (-8f64).exp());
}

/// Checks each input derivative against a central finite difference; the
/// parameters are variables `0..n`, `x` the next ones, `x'` the last.
fn check_input_gradient<K: ValueDifferentiableKernel>(k: &K, params: &[f64], x: &[f64], xp: &[f64]) {
    let n = params.len();
    let d = x.len();
    let p = vars(n);
    let a: Vec<Term> = (n..n + d).map(Term::Var).collect();
    let b: Vec<Term> = (n + d..n + 2 * d).map(Term::Var).collect();
    let at = [params, x, xp].concat();
    let v = k.expression(&p, &a, &b).unwrap();
    let g = k.diff_value(&p, &a, &b).unwrap();
    assert_eq!(g.len(), d);
    for i in 0..d {
        let h = 1e-5;
        let mut up = at.clone();
        up[n + i] += h;
        let mut down = at.clone();
        down[n + i] -= h;
        let numeric = (eval(&v, &up) - eval(&v, &down)) / (2.0 * h);
        let symbolic = eval(&g[i], &at);
        assert!((numeric - symbolic).abs() < 1e-4, "coordinate {}: {} vs {}", i, numeric, symbolic);
    }
}

#[test]
fn input_gradients_match_finite_differences() {
    let x = [0.3, -1.2, 2.0];
    let xp = [1.1, 0.4, -0.5];
    check_input_gradient(&RBF, &[1.5, 2.0], &x, &xp);
    check_input_gradient(&Exponential, &[1.5], &x, &xp);
    check_input_gradient(&Periodic, &[0.7, 2.0], &x, &xp);
    check_input_gradient(&ARD(3), &[0.2, 0.1, 0.3], &x, &xp);
    check_input_gradient(&Linear, &[], &x, &xp);
    check_input_gradient(&Bias, &[0.4], &x, &xp);
    check_input_gradient(&(RBF + Bias * Linear), &[1.5, 2.0, 0.4], &x, &xp);
    check_input_gradient(&(Periodic * ARD(3)), &[0.7, 2.0, 0.2, 0.1, 0.3], &x, &xp);
    assert!(matches!(Linear.diff_value(&[], &ints(&[1]), &ints(&[1, 2])), Err(KernelError::InvalidArgument)));
    assert!(matches!((RBF + Bias).diff_value(&ints(&[1, 1]), &ints(&[1]), &ints(&[1])), Err(KernelError::ParametersLengthMismatch)));
}

#[test]
fn log_derivatives_compose() {
    let k1 = SpectralMixture::new(1, 1);
    let k2 = SpectralMixture::new(1, 2);
    let x = ints(&[1]);
    let xp = ints(&[0]);
    let at = [0.7, 0.1, 0.2, 1.3, 0.4, 0.2, 0.3, 0.05, 0.06];
    let p = vars(9);
    let prod = k1 * k2;
    let g = prod.ln_diff_params(&p, &x, &xp).unwrap();
    let a = k1.ln_diff_params(&p[..3], &x, &xp).unwrap();
    let b = k2.ln_diff_params(&p[3..], &x, &xp).unwrap();
    assert_eq!(g, [a.clone(), b.clone()].concat());
    let dv = prod.ln_diff_value(&p, &x, &xp).unwrap();
    let da = k1.ln_diff_value(&p[..3], &x, &xp).unwrap();
    let db = k2.ln_diff_value(&p[3..], &x, &xp).unwrap();
    assert_eq!(dv.len(), 1);
    assert!(close(eval(&dv[0], &at), eval(&da[0], &at) + eval(&db[0], &at)));

    let sum = k1 + k2;
    let f = eval(&k1.expression(&p[..3], &x, &xp).unwrap(), &at);
    let h = eval(&k2.expression(&p[3..], &x, &xp).unwrap(), &at);
    let g = sum.ln_diff_params(&p, &x, &xp).unwrap();
    assert_eq!(g.len(), 9);
    for i in 0..3 {
        assert!(close(eval(&g[i], &at), f * eval(&a[i], &at) / (f + h)));
    }
    for j in 0..6 {
        assert!(close(eval(&g[3 + j], &at), h * eval(&b[j], &at) / (f + h)));
    }
    let dv = sum.ln_diff_value(&p, &x, &xp).unwrap();
    let expected = (f * eval(&da[0], &at) + h * eval(&db[0], &at)) / (f + h);
    assert!(close(eval(&dv[0], &at), expected));
    assert!(matches!(sum.ln_diff_value(&p[..8], &x, &xp), Err(KernelError::ParametersLengthMismatch)));
}

/// Checks the log-derivatives against central finite differences of the
/// logarithm of the value; variables as in `check_input_gradient`.
fn check_log_derivatives<K: LogValueDifferentiableKernel + LogParamsDifferentiableKernel<Vec<Term>>>(
    k: &K,
    params: &[f64],
    x: &[f64],
    xp: &[f64],
) {
    let n = params.len();
    let d = x.len();
    let p = vars(n);
    let a: Vec<Term> = (n..n + d).map(Term::Var).collect();
    let b: Vec<Term> = (n + d..n + 2 * d).map(Term::Var).collect();
    let at = [params, x, xp].concat();
    let v = k.expression(&p, &a, &b).unwrap();
    let by_params = k.ln_diff_params(&p, &a, &b).unwrap();
    let by_input = k.ln_diff_value(&p, &a, &b).unwrap();
    assert_eq!(by_params.len(), n);
    assert_eq!(by_input.len(), d);
    let slope = |idx: usize| {
        let h = 1e-6;
        let mut up = at.clone();
        up[idx] += h;
        let mut down = at.clone();
        down[idx] -= h;
        (eval(&v, &up).ln() - eval(&v, &down).ln()) / (2.0 * h)
    };
    for i in 0..n {
        assert!((slope(i) - eval(&by_params[i], &at)).abs() < 1e-4, "parameter {}", i);
    }
    for i in 0..d {
        assert!((slope(n + i) - eval(&by_input[i], &at)).abs() < 1e-4, "coordinate {}", i);
    }
}

#[test]
fn log_derivatives_match_finite_differences() {
    let x = [0.3, -1.2, 2.0];
    let xp = [1.1, 0.4, -0.5];
    check_log_derivatives(&RBF, &[1.5, 2.0], &x, &xp);
    check_log_derivatives(&Exponential, &[1.5], &x, &xp);
    check_log_derivatives(&Periodic, &[0.7, 2.0], &x, &xp);
    check_log_derivatives(&ARD(3), &[0.2, 0.1, 0.3], &x, &xp);
    check_log_derivatives(&Linear, &[], &[1.0, 2.0, 0.5], &[0.5, 1.0, 2.0]);
    check_log_derivatives(&Bias, &[0.4], &x, &xp);
    check_log_derivatives(&(RBF + Periodic), &[1.5, 2.0, 0.7, 2.0], &x, &xp);
    check_log_derivatives(&(Periodic * ARD(3)), &[0.7, 2.0, 0.2, 0.1, 0.3], &x, &xp);
    check_log_derivatives(&(Bias + RBF * Exponential), &[0.4, 1.5, 2.0, 1.5], &x, &xp);
}
