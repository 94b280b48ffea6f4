use crate::term::Term;
use vstd::prelude::*;

verus! {

/// Why a kernel could not be evaluated.
#[derive(Clone, Copy, Debug, PartialEq, Eq, Structural)]
pub enum KernelError {
    /// The parameter vector does not have the length that the kernel declares.
    ParametersLengthMismatch,
    /// A parameter lies outside its valid domain.
    InvalidParameter,
    /// The two input points do not have the shape that the kernel needs.
    InvalidArgument,
}

impl KernelError {
    /// A short description of the error.
    pub fn message(&self) -> (r: String)
        ensures
            r@ == self.spec_message(),
    {
        match self {
            KernelError::ParametersLengthMismatch => String::from_str("parameters length mismatch"),
            KernelError::InvalidParameter => String::from_str("invalid parameter"),
            KernelError::InvalidArgument => String::from_str("invalid argument"),
        }
    }

    pub open spec fn spec_message(&self) -> Seq<char> {
        match self {
            KernelError::ParametersLengthMismatch => "parameters length mismatch"@,
            KernelError::InvalidParameter => "invalid parameter"@,
            KernelError::InvalidArgument => "invalid argument"@,
        }
    }
}

/// What an input point may be: a value that can be copied, printed and shared
/// between threads.
pub trait Value: Clone + core::fmt::Debug + Send + Sync {}

impl<T: Clone + core::fmt::Debug + Send + Sync> Value for T {}

/// The capability shared by every kernel over inputs of type `T`.
pub trait PositiveDefiniteKernel<T: Value>: Sized {
    /// How many parameters the kernel consumes.
    spec fn spec_params_len(&self) -> nat;

    /// The covariance formula for `x` and `x_prime` under `params`, or the error
    /// that evaluation reports.
    spec fn spec_expression(&self, params: Seq<Term>, x: T, x_prime: T) -> Result<Term, KernelError>;

    /// The number of parameters.
    fn params_len(&self) -> (r: usize)
        requires
            self.spec_params_len() <= usize::MAX,
        ensures
            r == self.spec_params_len(),
    ;

    /// The number of parameters, or `None` where it does not fit in `usize`.
    fn checked_params_len(&self) -> (r: Option<usize>)
        ensures
            r == (if self.spec_params_len() <= usize::MAX {
                Some(self.spec_params_len() as usize)
            } else {
                None::<usize>
            }),
    ;

    /// The covariance formula for one pair of points.
    fn expression(&self, params: &[Term], x: &T, x_prime: &T) -> (r: Result<Term, KernelError>)
        ensures
            r == self.spec_expression(params@, *x, *x_prime),
    ;
}

/// Where a parameter vector of length `total` splits between `lhs` and `rhs`:
/// `Some(lhs.params_len())` when `total` is the sum of both lengths, else `None`.
pub fn split_point<T: Value, L: PositiveDefiniteKernel<T>, R: PositiveDefiniteKernel<T>>(lhs: &L, rhs: &R, total: usize) -> (r: Option<usize>)
    ensures
        r == (if total == lhs.spec_params_len() + rhs.spec_params_len() {
            Some(lhs.spec_params_len() as usize)
        } else {
            None::<usize>
        }),
{
    let n = match lhs.checked_params_len() {
        Some(n) => n,
        None => return None,
    };
    let m = match rhs.checked_params_len() {
        Some(m) => m,
        None => return None,
    };
    if n > total || total - n != m {
        return None;
    }
    Some(n)
}

} // verus!
