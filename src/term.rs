use vstd::prelude::*;

verus! {

/// A symbolic real-valued formula.
///
/// `Var(i)` is a free variable that the caller numbers as it likes (a parameter,
/// a coordinate of an input point); `Int(n)` is an integer constant and `Pi` the
/// circle constant.
#[derive(Debug, PartialEq)]
pub enum Term {
    Var(usize),
    Int(i64),
    Pi,
    Add(Box<Term>, Box<Term>),
    Sub(Box<Term>, Box<Term>),
    Mul(Box<Term>, Box<Term>),
    Div(Box<Term>, Box<Term>),
    Neg(Box<Term>),
    Exp(Box<Term>),
    Sqrt(Box<Term>),
    Cos(Box<Term>),
    Sin(Box<Term>),
    Tan(Box<Term>),
    Acos(Box<Term>),
}

impl Clone for Term {
    fn clone(&self) -> (r: Self)
        ensures
            r == *self,
        decreases self,
    {
        match self {
            Term::Var(i) => Term::Var(*i),
            Term::Int(n) => Term::Int(*n),
            Term::Pi => Term::Pi,
            Term::Add(a, b) => Term::Add(Box::new((**a).clone()), Box::new((**b).clone())),
            Term::Sub(a, b) => Term::Sub(Box::new((**a).clone()), Box::new((**b).clone())),
            Term::Mul(a, b) => Term::Mul(Box::new((**a).clone()), Box::new((**b).clone())),
            Term::Div(a, b) => Term::Div(Box::new((**a).clone()), Box::new((**b).clone())),
            Term::Neg(a) => Term::Neg(Box::new((**a).clone())),
            Term::Exp(a) => Term::Exp(Box::new((**a).clone())),
            Term::Sqrt(a) => Term::Sqrt(Box::new((**a).clone())),
            Term::Cos(a) => Term::Cos(Box::new((**a).clone())),
            Term::Sin(a) => Term::Sin(Box::new((**a).clone())),
            Term::Tan(a) => Term::Tan(Box::new((**a).clone())),
            Term::Acos(a) => Term::Acos(Box::new((**a).clone())),
        }
    }
}


/// `a + b` as a term.
pub open spec fn sum(a: Term, b: Term) -> Term {
    Term::Add(Box::new(a), Box::new(b))
}

pub open spec fn product(a: Term, b: Term) -> Term {
    Term::Mul(Box::new(a), Box::new(b))
}

pub open spec fn difference(a: Term, b: Term) -> Term {
    Term::Sub(Box::new(a), Box::new(b))
}

pub open spec fn quotient(a: Term, b: Term) -> Term {
    Term::Div(Box::new(a), Box::new(b))
}

pub open spec fn negation(a: Term) -> Term {
    Term::Neg(Box::new(a))
}

pub open spec fn exp_of(a: Term) -> Term {
    Term::Exp(Box::new(a))
}

pub open spec fn sqrt_of(a: Term) -> Term {
    Term::Sqrt(Box::new(a))
}

pub open spec fn cos_of(a: Term) -> Term {
    Term::Cos(Box::new(a))
}

pub open spec fn sin_of(a: Term) -> Term {
    Term::Sin(Box::new(a))
}

pub open spec fn tan_of(a: Term) -> Term {
    Term::Tan(Box::new(a))
}

pub open spec fn acos_of(a: Term) -> Term {
    Term::Acos(Box::new(a))
}

pub open spec fn square(a: Term) -> Term {
    product(a, a)
}

/// The squared Euclidean distance of the first `n` coordinates of `x` and `y`:
/// `0 + (x[0] - y[0])^2 + ... + (x[n-1] - y[n-1])^2`.
pub open spec fn sq_dist(x: Seq<Term>, y: Seq<Term>, n: nat) -> Term
    decreases n,
{
    if n == 0 {
        Term::Int(0)
    } else {
        sum(sq_dist(x, y, (n - 1) as nat), square(difference(x[n - 1], y[n - 1])))
    }
}

/// The dot product of the first `n` coordinates: `0 + x[0] * y[0] + ...`.
pub open spec fn dot(x: Seq<Term>, y: Seq<Term>, n: nat) -> Term
    decreases n,
{
    if n == 0 {
        Term::Int(0)
    } else {
        sum(dot(x, y, (n - 1) as nat), product(x[n - 1], y[n - 1]))
    }
}

/// `0 + w[0] * (x[0] - y[0])^2 + ... + w[n-1] * (x[n-1] - y[n-1])^2`.
pub open spec fn weighted_sq_dist(w: Seq<Term>, x: Seq<Term>, y: Seq<Term>, n: nat) -> Term
    decreases n,
{
    if n == 0 {
        Term::Int(0)
    } else {
        sum(
            weighted_sq_dist(w, x, y, (n - 1) as nat),
            product(w[n - 1], square(difference(x[n - 1], y[n - 1]))),
        )
    }
}

impl Term {
    pub fn boxed_sum(a: Term, b: Term) -> (r: Term)
        ensures
            r == sum(a, b),
    {
        Term::Add(Box::new(a), Box::new(b))
    }

    pub fn boxed_product(a: Term, b: Term) -> (r: Term)
        ensures
            r == product(a, b),
    {
        Term::Mul(Box::new(a), Box::new(b))
    }

    pub fn boxed_difference(a: Term, b: Term) -> (r: Term)
        ensures
            r == difference(a, b),
    {
        Term::Sub(Box::new(a), Box::new(b))
    }

    pub fn boxed_quotient(a: Term, b: Term) -> (r: Term)
        ensures
            r == quotient(a, b),
    {
        Term::Div(Box::new(a), Box::new(b))
    }

    pub fn squared(a: Term) -> (r: Term)
        ensures
            r == square(a),
    {
        let b = a.clone();
        Term::Mul(Box::new(a), Box::new(b))
    }
}

/// The squared Euclidean distance of two points of equal dimension.
pub fn squared_distance(x: &[Term], y: &[Term]) -> (r: Term)
    requires
        x@.len() == y@.len(),
    ensures
        r == sq_dist(x@, y@, x@.len()),
{
    let mut acc = Term::Int(0);
    let mut i: usize = 0;
    while i < x.len()
        invariant
            i <= x@.len(),
            x@.len() == y@.len(),
            acc == sq_dist(x@, y@, i as nat),
        decreases x@.len() - i,
    {
        let d = Term::boxed_difference(x[i].clone(), y[i].clone());
        acc = Term::boxed_sum(acc, Term::squared(d));
        i = i + 1;
    }
    acc
}

/// The dot product of two points of equal dimension.
pub fn dot_product(x: &[Term], y: &[Term]) -> (r: Term)
    requires
        x@.len() == y@.len(),
    ensures
        r == dot(x@, y@, x@.len()),
{
    let mut acc = Term::Int(0);
    let mut i: usize = 0;
    while i < x.len()
        invariant
            i <= x@.len(),
            x@.len() == y@.len(),
            acc == dot(x@, y@, i as nat),
        decreases x@.len() - i,
    {
        acc = Term::boxed_sum(acc, Term::boxed_product(x[i].clone(), y[i].clone()));
        i = i + 1;
    }
    acc
}

/// The squared distance of two points with one weight per coordinate.
pub fn weighted_squared_distance(w: &[Term], x: &[Term], y: &[Term]) -> (r: Term)
    requires
        w@.len() == x@.len(),
        x@.len() == y@.len(),
    ensures
        r == weighted_sq_dist(w@, x@, y@, x@.len()),
{
    let mut acc = Term::Int(0);
    let mut i: usize = 0;
    while i < x.len()
        invariant
            i <= x@.len(),
            w@.len() == x@.len(),
            x@.len() == y@.len(),
            acc == weighted_sq_dist(w@, x@, y@, i as nat),
        decreases x@.len() - i,
    {
        let d = Term::boxed_difference(x[i].clone(), y[i].clone());
        acc = Term::boxed_sum(acc, Term::boxed_product(w[i].clone(), Term::squared(d)));
        i = i + 1;
    }
    acc
}

} // verus!
