use vstd::prelude::*;

verus! {

/// Accelerated AES implementations that a machine may offer.
#[derive(Debug, Copy, Clone, PartialEq, Eq, Structural, PartialOrd, Ord, Hash)]
pub enum AesImplementation {
    /// AVX-512 Vector AES instruction set
    VAes,
}

/// Lists the accelerated AES implementations, given whether the CPU reports the
/// `avx512vaes` capability (the software path is always available regardless).
pub fn aes_implementations_available(vaes_detected: bool) -> (r: Vec<AesImplementation>)
    ensures
        vaes_detected ==> r@ == seq![AesImplementation::VAes],
        !vaes_detected ==> r@.len() == 0,
{
    let mut implementations: Vec<AesImplementation> = Vec::new();
    if vaes_detected {
        implementations.push(AesImplementation::VAes);
    }
    implementations
}

} // verus!
