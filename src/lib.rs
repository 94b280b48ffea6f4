//! Covariance kernels for Gaussian-process models, built as symbolic formulas.
//!
//! Every kernel turns a parameter vector and two input points into a `Term`: the
//! formula of the covariance between the two points. Kernels compose with
//! `KernelAdd` and `KernelMul`, which route one flat parameter vector to their
//! children, left child first.
use vstd::prelude::*;

pub mod add;
pub mod ard;
pub mod bias;
pub mod constant;
pub mod convolutional;
pub mod exponential;
pub mod instant;
pub mod kernel;
pub mod laws;
pub mod linear;
pub mod mul;
pub mod neural_network;
pub mod ops;
pub mod periodic;
pub mod rbf;
pub mod semantics;
pub mod spectral_mixture;
pub mod term;
pub mod traits;

pub use add::KernelAdd;
pub use ard::ARD;
pub use bias::Bias;
pub use constant::Constant;
pub use convolutional::{Convolutable, Convolutional};
pub use exponential::Exponential;
pub use instant::InstantKernel;
pub use kernel::{KernelError, PositiveDefiniteKernel, Value};
pub use linear::Linear;
pub use mul::KernelMul;
pub use neural_network::deep_neural_network::DeepNeuralNetwork;
pub use neural_network::relu::ReLU;
pub use neural_network::ActivationFunction;
pub use periodic::Periodic;
pub use rbf::RBF;
pub use spectral_mixture::SpectralMixture;
pub use term::Term;
pub use traits::{
    LogParamsDifferentiableKernel, LogValueDifferentiableKernel, ParamsDifferentiableKernel, ValueDifferentiableKernel,
};
// The shorter name under which the input-derivative capability is also known.
pub use traits::ValueDifferentiableKernel as ValueDiffKernel;
