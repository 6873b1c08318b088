//! The check that the dispatch layer runs on a stored key and a submitted proof.
use vstd::prelude::*;

verus! {

#[derive(Debug, PartialEq, Eq)]
pub enum VerifierError {
    NoVerificationKey,
}

pub struct Verifier {
    pub key: Vec<u8>,
}

impl Verifier {
    /// Fails when no key is set. Otherwise accepts exactly the proofs whose
    /// length in bytes equals the stored public input.
    pub fn verifier_proof(self, pub_input: u32, proof: Vec<u8>) -> (r: Result<bool, VerifierError>)
        ensures
            self.key@.len() == 0 ==> r == Err::<bool, VerifierError>(VerifierError::NoVerificationKey),
            self.key@.len() != 0 ==> r == Ok::<bool, VerifierError>(proof@.len() == pub_input),
    {
        if self.key.len() == 0 {
            return Err(VerifierError::NoVerificationKey);
        }
        Ok(proof.len() == pub_input as usize)
    }
}

} // verus!
