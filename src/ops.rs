//! `+` and `*` between kernels build `KernelAdd` and `KernelMul` trees.
use crate::add::KernelAdd;
use crate::ard::ARD;
use crate::bias::Bias;
use crate::constant::Constant;
use crate::convolutional::Convolutional;
use crate::exponential::Exponential;
use crate::instant::InstantKernel;
use crate::kernel::KernelError;
use crate::linear::Linear;
use crate::mul::KernelMul;
use crate::neural_network::deep_neural_network::DeepNeuralNetwork;
use crate::periodic::Periodic;
use crate::rbf::RBF;
use crate::spectral_mixture::SpectralMixture;
use crate::term::Term;
use vstd::prelude::*;

verus! {

impl<Rhs> core::ops::Add<Rhs> for RBF {
    type Output = KernelAdd<RBF, Rhs>;

    fn add(self, rhs: Rhs) -> (r: KernelAdd<RBF, Rhs>) {
        KernelAdd::new(self, rhs)
    }
}

impl<Rhs> vstd::std_specs::ops::AddSpecImpl<Rhs> for RBF {
    open spec fn obeys_add_spec() -> bool {
        true
    }

    open spec fn add_req(self, rhs: Rhs) -> bool {
        true
    }

    open spec fn add_spec(self, rhs: Rhs) -> KernelAdd<RBF, Rhs> {
        KernelAdd::spec_new(self, rhs)
    }
}

impl<Rhs> core::ops::Mul<Rhs> for RBF {
    type Output = KernelMul<RBF, Rhs>;

    fn mul(self, rhs: Rhs) -> (r: KernelMul<RBF, Rhs>) {
        KernelMul::new(self, rhs)
    }
}

impl<Rhs> vstd::std_specs::ops::MulSpecImpl<Rhs> for RBF {
    open spec fn obeys_mul_spec() -> bool {
        true
    }

    open spec fn mul_req(self, rhs: Rhs) -> bool {
        true
    }

    open spec fn mul_spec(self, rhs: Rhs) -> KernelMul<RBF, Rhs> {
        KernelMul::spec_new(self, rhs)
    }
}

impl<Rhs> core::ops::Add<Rhs> for Linear {
    type Output = KernelAdd<Linear, Rhs>;

    fn add(self, rhs: Rhs) -> (r: KernelAdd<Linear, Rhs>) {
        KernelAdd::new(self, rhs)
    }
}

impl<Rhs> vstd::std_specs::ops::AddSpecImpl<Rhs> for Linear {
    open spec fn obeys_add_spec() -> bool {
        true
    }

    open spec fn add_req(self, rhs: Rhs) -> bool {
        true
    }

    open spec fn add_spec(self, rhs: Rhs) -> KernelAdd<Linear, Rhs> {
        KernelAdd::spec_new(self, rhs)
    }
}

impl<Rhs> core::ops::Mul<Rhs> for Linear {
    type Output = KernelMul<Linear, Rhs>;

    fn mul(self, rhs: Rhs) -> (r: KernelMul<Linear, Rhs>) {
        KernelMul::new(self, rhs)
    }
}

impl<Rhs> vstd::std_specs::ops::MulSpecImpl<Rhs> for Linear {
    open spec fn obeys_mul_spec() -> bool {
        true
    }

    open spec fn mul_req(self, rhs: Rhs) -> bool {
        true
    }

    open spec fn mul_spec(self, rhs: Rhs) -> KernelMul<Linear, Rhs> {
        KernelMul::spec_new(self, rhs)
    }
}

impl<Rhs> core::ops::Add<Rhs> for Bias {
    type Output = KernelAdd<Bias, Rhs>;

    fn add(self, rhs: Rhs) -> (r: KernelAdd<Bias, Rhs>) {
        KernelAdd::new(self, rhs)
    }
}

impl<Rhs> vstd::std_specs::ops::AddSpecImpl<Rhs> for Bias {
    open spec fn obeys_add_spec() -> bool {
        true
    }

    open spec fn add_req(self, rhs: Rhs) -> bool {
        true
    }

    open spec fn add_spec(self, rhs: Rhs) -> KernelAdd<Bias, Rhs> {
        KernelAdd::spec_new(self, rhs)
    }
}

impl<Rhs> core::ops::Mul<Rhs> for Bias {
    type Output = KernelMul<Bias, Rhs>;

    fn mul(self, rhs: Rhs) -> (r: KernelMul<Bias, Rhs>) {
        KernelMul::new(self, rhs)
    }
}

impl<Rhs> vstd::std_specs::ops::MulSpecImpl<Rhs> for Bias {
    open spec fn obeys_mul_spec() -> bool {
        true
    }

    open spec fn mul_req(self, rhs: Rhs) -> bool {
        true
    }

    open spec fn mul_spec(self, rhs: Rhs) -> KernelMul<Bias, Rhs> {
        KernelMul::spec_new(self, rhs)
    }
}

impl<Rhs> core::ops::Add<Rhs> for Constant {
    type Output = KernelAdd<Constant, Rhs>;

    fn add(self, rhs: Rhs) -> (r: KernelAdd<Constant, Rhs>) {
        KernelAdd::new(self, rhs)
    }
}

impl<Rhs> vstd::std_specs::ops::AddSpecImpl<Rhs> for Constant {
    open spec fn obeys_add_spec() -> bool {
        true
    }

    open spec fn add_req(self, rhs: Rhs) -> bool {
        true
    }

    open spec fn add_spec(self, rhs: Rhs) -> KernelAdd<Constant, Rhs> {
        KernelAdd::spec_new(self, rhs)
    }
}

impl<Rhs> core::ops::Mul<Rhs> for Constant {
    type Output = KernelMul<Constant, Rhs>;

    fn mul(self, rhs: Rhs) -> (r: KernelMul<Constant, Rhs>) {
        KernelMul::new(self, rhs)
    }
}

impl<Rhs> vstd::std_specs::ops::MulSpecImpl<Rhs> for Constant {
    open spec fn obeys_mul_spec() -> bool {
        true
    }

    open spec fn mul_req(self, rhs: Rhs) -> bool {
        true
    }

    open spec fn mul_spec(self, rhs: Rhs) -> KernelMul<Constant, Rhs> {
        KernelMul::spec_new(self, rhs)
    }
}

impl<Rhs> core::ops::Add<Rhs> for Periodic {
    type Output = KernelAdd<Periodic, Rhs>;

    fn add(self, rhs: Rhs) -> (r: KernelAdd<Periodic, Rhs>) {
        KernelAdd::new(self, rhs)
    }
}

impl<Rhs> vstd::std_specs::ops::AddSpecImpl<Rhs> for Periodic {
    open spec fn obeys_add_spec() -> bool {
        true
    }

    open spec fn add_req(self, rhs: Rhs) -> bool {
        true
    }

    open spec fn add_spec(self, rhs: Rhs) -> KernelAdd<Periodic, Rhs> {
        KernelAdd::spec_new(self, rhs)
    }
}

impl<Rhs> core::ops::Mul<Rhs> for Periodic {
    type Output = KernelMul<Periodic, Rhs>;

    fn mul(self, rhs: Rhs) -> (r: KernelMul<Periodic, Rhs>) {
        KernelMul::new(self, rhs)
    }
}

impl<Rhs> vstd::std_specs::ops::MulSpecImpl<Rhs> for Periodic {
    open spec fn obeys_mul_spec() -> bool {
        true
    }

    open spec fn mul_req(self, rhs: Rhs) -> bool {
        true
    }

    open spec fn mul_spec(self, rhs: Rhs) -> KernelMul<Periodic, Rhs> {
        KernelMul::spec_new(self, rhs)
    }
}

impl<Rhs> core::ops::Add<Rhs> for Exponential {
    type Output = KernelAdd<Exponential, Rhs>;

    fn add(self, rhs: Rhs) -> (r: KernelAdd<Exponential, Rhs>) {
        KernelAdd::new(self, rhs)
    }
}

impl<Rhs> vstd::std_specs::ops::AddSpecImpl<Rhs> for Exponential {
    open spec fn obeys_add_spec() -> bool {
        true
    }

    open spec fn add_req(self, rhs: Rhs) -> bool {
        true
    }

    open spec fn add_spec(self, rhs: Rhs) -> KernelAdd<Exponential, Rhs> {
        KernelAdd::spec_new(self, rhs)
    }
}

impl<Rhs> core::ops::Mul<Rhs> for Exponential {
    type Output = KernelMul<Exponential, Rhs>;

    fn mul(self, rhs: Rhs) -> (r: KernelMul<Exponential, Rhs>) {
        KernelMul::new(self, rhs)
    }
}

impl<Rhs> vstd::std_specs::ops::MulSpecImpl<Rhs> for Exponential {
    open spec fn obeys_mul_spec() -> bool {
        true
    }

    open spec fn mul_req(self, rhs: Rhs) -> bool {
        true
    }

    open spec fn mul_spec(self, rhs: Rhs) -> KernelMul<Exponential, Rhs> {
        KernelMul::spec_new(self, rhs)
    }
}

impl<Rhs> core::ops::Add<Rhs> for ARD {
    type Output = KernelAdd<ARD, Rhs>;

    fn add(self, rhs: Rhs) -> (r: KernelAdd<ARD, Rhs>) {
        KernelAdd::new(self, rhs)
    }
}

impl<Rhs> vstd::std_specs::ops::AddSpecImpl<Rhs> for ARD {
    open spec fn obeys_add_spec() -> bool {
        true
    }

    open spec fn add_req(self, rhs: Rhs) -> bool {
        true
    }

    open spec fn add_spec(self, rhs: Rhs) -> KernelAdd<ARD, Rhs> {
        KernelAdd::spec_new(self, rhs)
    }
}

impl<Rhs> core::ops::Mul<Rhs> for ARD {
    type Output = KernelMul<ARD, Rhs>;

    fn mul(self, rhs: Rhs) -> (r: KernelMul<ARD, Rhs>) {
        KernelMul::new(self, rhs)
    }
}

impl<Rhs> vstd::std_specs::ops::MulSpecImpl<Rhs> for ARD {
    open spec fn obeys_mul_spec() -> bool {
        true
    }

    open spec fn mul_req(self, rhs: Rhs) -> bool {
        true
    }

    open spec fn mul_spec(self, rhs: Rhs) -> KernelMul<ARD, Rhs> {
        KernelMul::spec_new(self, rhs)
    }
}

impl<Rhs> core::ops::Add<Rhs> for SpectralMixture {
    type Output = KernelAdd<SpectralMixture, Rhs>;

    fn add(self, rhs: Rhs) -> (r: KernelAdd<SpectralMixture, Rhs>) {
        KernelAdd::new(self, rhs)
    }
}

impl<Rhs> vstd::std_specs::ops::AddSpecImpl<Rhs> for SpectralMixture {
    open spec fn obeys_add_spec() -> bool {
        true
    }

    open spec fn add_req(self, rhs: Rhs) -> bool {
        true
    }

    open spec fn add_spec(self, rhs: Rhs) -> KernelAdd<SpectralMixture, Rhs> {
        KernelAdd::spec_new(self, rhs)
    }
}

impl<Rhs> core::ops::Mul<Rhs> for SpectralMixture {
    type Output = KernelMul<SpectralMixture, Rhs>;

    fn mul(self, rhs: Rhs) -> (r: KernelMul<SpectralMixture, Rhs>) {
        KernelMul::new(self, rhs)
    }
}

impl<Rhs> vstd::std_specs::ops::MulSpecImpl<Rhs> for SpectralMixture {
    open spec fn obeys_mul_spec() -> bool {
        true
    }

    open spec fn mul_req(self, rhs: Rhs) -> bool {
        true
    }

    open spec fn mul_spec(self, rhs: Rhs) -> KernelMul<SpectralMixture, Rhs> {
        KernelMul::spec_new(self, rhs)
    }
}

impl<L, R, Rhs> core::ops::Add<Rhs> for KernelAdd<L, R> {
    type Output = KernelAdd<KernelAdd<L, R>, Rhs>;

    fn add(self, rhs: Rhs) -> (r: KernelAdd<KernelAdd<L, R>, Rhs>) {
        KernelAdd::new(self, rhs)
    }
}

impl<L, R, Rhs> vstd::std_specs::ops::AddSpecImpl<Rhs> for KernelAdd<L, R> {
    open spec fn obeys_add_spec() -> bool {
        true
    }

    open spec fn add_req(self, rhs: Rhs) -> bool {
        true
    }

    open spec fn add_spec(self, rhs: Rhs) -> KernelAdd<KernelAdd<L, R>, Rhs> {
        KernelAdd::spec_new(self, rhs)
    }
}

impl<L, R, Rhs> core::ops::Mul<Rhs> for KernelAdd<L, R> {
    type Output = KernelMul<KernelAdd<L, R>, Rhs>;

    fn mul(self, rhs: Rhs) -> (r: KernelMul<KernelAdd<L, R>, Rhs>) {
        KernelMul::new(self, rhs)
    }
}

impl<L, R, Rhs> vstd::std_specs::ops::MulSpecImpl<Rhs> for KernelAdd<L, R> {
    open spec fn obeys_mul_spec() -> bool {
        true
    }

    open spec fn mul_req(self, rhs: Rhs) -> bool {
        true
    }

    open spec fn mul_spec(self, rhs: Rhs) -> KernelMul<KernelAdd<L, R>, Rhs> {
        KernelMul::spec_new(self, rhs)
    }
}

impl<L, R, Rhs> core::ops::Add<Rhs> for KernelMul<L, R> {
    type Output = KernelAdd<KernelMul<L, R>, Rhs>;

    fn add(self, rhs: Rhs) -> (r: KernelAdd<KernelMul<L, R>, Rhs>) {
        KernelAdd::new(self, rhs)
    }
}

impl<L, R, Rhs> vstd::std_specs::ops::AddSpecImpl<Rhs> for KernelMul<L, R> {
    open spec fn obeys_add_spec() -> bool {
        true
    }

    open spec fn add_req(self, rhs: Rhs) -> bool {
        true
    }

    open spec fn add_spec(self, rhs: Rhs) -> KernelAdd<KernelMul<L, R>, Rhs> {
        KernelAdd::spec_new(self, rhs)
    }
}

impl<L, R, Rhs> core::ops::Mul<Rhs> for KernelMul<L, R> {
    type Output = KernelMul<KernelMul<L, R>, Rhs>;

    fn mul(self, rhs: Rhs) -> (r: KernelMul<KernelMul<L, R>, Rhs>) {
        KernelMul::new(self, rhs)
    }
}

impl<L, R, Rhs> vstd::std_specs::ops::MulSpecImpl<Rhs> for KernelMul<L, R> {
    open spec fn obeys_mul_spec() -> bool {
        true
    }

    open spec fn mul_req(self, rhs: Rhs) -> bool {
        true
    }

    open spec fn mul_spec(self, rhs: Rhs) -> KernelMul<KernelMul<L, R>, Rhs> {
        KernelMul::spec_new(self, rhs)
    }
}

impl<K, Rhs> core::ops::Add<Rhs> for Convolutional<K> {
    type Output = KernelAdd<Convolutional<K>, Rhs>;

    fn add(self, rhs: Rhs) -> (r: KernelAdd<Convolutional<K>, Rhs>) {
        KernelAdd::new(self, rhs)
    }
}

impl<K, Rhs> vstd::std_specs::ops::AddSpecImpl<Rhs> for Convolutional<K> {
    open spec fn obeys_add_spec() -> bool {
        true
    }

    open spec fn add_req(self, rhs: Rhs) -> bool {
        true
    }

    open spec fn add_spec(self, rhs: Rhs) -> KernelAdd<Convolutional<K>, Rhs> {
        KernelAdd::spec_new(self, rhs)
    }
}

impl<K, Rhs> core::ops::Mul<Rhs> for Convolutional<K> {
    type Output = KernelMul<Convolutional<K>, Rhs>;

    fn mul(self, rhs: Rhs) -> (r: KernelMul<Convolutional<K>, Rhs>) {
        KernelMul::new(self, rhs)
    }
}

impl<K, Rhs> vstd::std_specs::ops::MulSpecImpl<Rhs> for Convolutional<K> {
    open spec fn obeys_mul_spec() -> bool {
        true
    }

    open spec fn mul_req(self, rhs: Rhs) -> bool {
        true
    }

    open spec fn mul_spec(self, rhs: Rhs) -> KernelMul<Convolutional<K>, Rhs> {
        KernelMul::spec_new(self, rhs)
    }
}

impl<A, Rhs> core::ops::Add<Rhs> for DeepNeuralNetwork<A> {
    type Output = KernelAdd<DeepNeuralNetwork<A>, Rhs>;

    fn add(self, rhs: Rhs) -> (r: KernelAdd<DeepNeuralNetwork<A>, Rhs>) {
        KernelAdd::new(self, rhs)
    }
}

impl<A, Rhs> vstd::std_specs::ops::AddSpecImpl<Rhs> for DeepNeuralNetwork<A> {
    open spec fn obeys_add_spec() -> bool {
        true
    }

    open spec fn add_req(self, rhs: Rhs) -> bool {
        true
    }

    open spec fn add_spec(self, rhs: Rhs) -> KernelAdd<DeepNeuralNetwork<A>, Rhs> {
        KernelAdd::spec_new(self, rhs)
    }
}

impl<A, Rhs> core::ops::Mul<Rhs> for DeepNeuralNetwork<A> {
    type Output = KernelMul<DeepNeuralNetwork<A>, Rhs>;

    fn mul(self, rhs: Rhs) -> (r: KernelMul<DeepNeuralNetwork<A>, Rhs>) {
        KernelMul::new(self, rhs)
    }
}

impl<A, Rhs> vstd::std_specs::ops::MulSpecImpl<Rhs> for DeepNeuralNetwork<A> {
    open spec fn obeys_mul_spec() -> bool {
        true
    }

    open spec fn mul_req(self, rhs: Rhs) -> bool {
        true
    }

    open spec fn mul_spec(self, rhs: Rhs) -> KernelMul<DeepNeuralNetwork<A>, Rhs> {
        KernelMul::spec_new(self, rhs)
    }
}

impl<T, F: Fn(&[Term], &T, &T) -> Result<Term, KernelError>, Rhs> core::ops::Add<Rhs> for InstantKernel<T, F> {
    type Output = KernelAdd<InstantKernel<T, F>, Rhs>;

    fn add(self, rhs: Rhs) -> (r: KernelAdd<InstantKernel<T, F>, Rhs>) {
        KernelAdd::new(self, rhs)
    }
}

impl<T, F: Fn(&[Term], &T, &T) -> Result<Term, KernelError>, Rhs> vstd::std_specs::ops::AddSpecImpl<Rhs> for InstantKernel<T, F> {
    open spec fn obeys_add_spec() -> bool {
        true
    }

    open spec fn add_req(self, rhs: Rhs) -> bool {
        true
    }

    open spec fn add_spec(self, rhs: Rhs) -> KernelAdd<InstantKernel<T, F>, Rhs> {
        KernelAdd::spec_new(self, rhs)
    }
}

impl<T, F: Fn(&[Term], &T, &T) -> Result<Term, KernelError>, Rhs> core::ops::Mul<Rhs> for InstantKernel<T, F> {
    type Output = KernelMul<InstantKernel<T, F>, Rhs>;

    fn mul(self, rhs: Rhs) -> (r: KernelMul<InstantKernel<T, F>, Rhs>) {
        KernelMul::new(self, rhs)
    }
}

impl<T, F: Fn(&[Term], &T, &T) -> Result<Term, KernelError>, Rhs> vstd::std_specs::ops::MulSpecImpl<Rhs> for InstantKernel<T, F> {
    open spec fn obeys_mul_spec() -> bool {
        true
    }

    open spec fn mul_req(self, rhs: Rhs) -> bool {
        true
    }

    open spec fn mul_spec(self, rhs: Rhs) -> KernelMul<InstantKernel<T, F>, Rhs> {
        KernelMul::spec_new(self, rhs)
    }
}

} // verus!
