//! The verification pallet as a state machine: its storage is held in plain
//! fields, and each call maps the state and its arguments to a new state and
//! the event it deposits. A call that fails leaves the state as it was.
use vstd::prelude::*;
use crate::checker::Verifier;

verus! {

#[derive(Debug, PartialEq, Eq)]
pub enum Event {
    VerificationSetupCompleted,
    VerificationProofSet,
    VerificationSuccess,
    VerificationFailed,
}

#[derive(Debug, PartialEq, Eq)]
pub enum Error {
    /// The verification key is too long.
    TooLongVerificationKey,
    /// The proof is too long.
    TooLongProof,
    /// The proof is empty.
    ProofIsEmpty,
    /// No verification key is set.
    VerificationKeyIsNotSet,
}

pub struct Pallet {
    /// The maximum length of the proof.
    pub max_proof_length: u32,
    /// The maximum length of the verification key.
    pub max_verification_key_length: u32,
    /// Stored public input.
    pub public_input: u32,
    /// Stored proof.
    pub proof: Vec<u8>,
    /// Stored verification key; empty when none is set.
    pub verification_key: Vec<u8>,
}

impl Pallet {
    /// A pallet with empty storage and the given length bounds.
    pub fn new(max_proof_length: u32, max_verification_key_length: u32) -> (r: Self)
        ensures
            r.max_proof_length == max_proof_length,
            r.max_verification_key_length == max_verification_key_length,
            r.public_input == 0,
            r.proof@.len() == 0,
            r.verification_key@.len() == 0,
    {
        Pallet {
            max_proof_length,
            max_verification_key_length,
            public_input: 0,
            proof: Vec::new(),
            verification_key: Vec::new(),
        }
    }

    /// Stores the public input and the verification key. An empty key
    /// clears the stored one and deposits no event; a key longer than the
    /// bound fails.
    pub fn setup_verification(&mut self, pub_input: u32, vec_vk: Vec<u8>) -> (r: Result<Option<Event>, Error>)
        ensures
            final(self).max_proof_length == old(self).max_proof_length,
            final(self).max_verification_key_length == old(self).max_verification_key_length,
            final(self).proof@ == old(self).proof@,
            vec_vk@.len() > old(self).max_verification_key_length ==> r == Err::<Option<Event>, Error>(
                Error::TooLongVerificationKey,
            ) && final(self).public_input == old(self).public_input && final(self).verification_key@
                == old(self).verification_key@,
            vec_vk@.len() == 0 ==> r == Ok::<Option<Event>, Error>(None) && final(self).public_input
                == pub_input && final(self).verification_key@.len() == 0,
            0 < vec_vk@.len() <= old(self).max_verification_key_length ==> r == Ok::<
                Option<Event>,
                Error,
            >(Some(Event::VerificationSetupCompleted)) && final(self).public_input == pub_input
                && final(self).verification_key@ == vec_vk@,
    {
        if vec_vk.len() == 0 {
            self.public_input = pub_input;
            self.verification_key = Vec::new();
            Ok(None)
        } else if vec_vk.len() > self.max_verification_key_length as usize {
            Err(Error::TooLongVerificationKey)
        } else {
            self.public_input = pub_input;
            self.verification_key = vec_vk;
            Ok(Some(Event::VerificationSetupCompleted))
        }
    }

    /// Stores the proof and checks it with the stored key and public input,
    /// depositing whether it passed.
    pub fn verify(&mut self, vec_proof: Vec<u8>) -> (r: Result<Event, Error>)
        ensures
            final(self).max_proof_length == old(self).max_proof_length,
            final(self).max_verification_key_length == old(self).max_verification_key_length,
            final(self).public_input == old(self).public_input,
            final(self).verification_key@ == old(self).verification_key@,
            vec_proof@.len() == 0 ==> r == Err::<Event, Error>(Error::ProofIsEmpty),
            vec_proof@.len() > old(self).max_proof_length ==> r == Err::<Event, Error>(
                Error::TooLongProof,
            ),
            0 < vec_proof@.len() <= old(self).max_proof_length && old(self).verification_key@.len()
                == 0 ==> r == Err::<Event, Error>(Error::VerificationKeyIsNotSet),
            0 < vec_proof@.len() <= old(self).max_proof_length && old(self).verification_key@.len()
                != 0 ==> r == Ok::<Event, Error>(
                if vec_proof@.len() == old(self).public_input {
                    Event::VerificationSuccess
                } else {
                    Event::VerificationFailed
                },
            ),
            r is Ok ==> final(self).proof@ == vec_proof@,
            r is Err ==> final(self).proof@ == old(self).proof@,
    {
        if vec_proof.len() == 0 {
            return Err(Error::ProofIsEmpty);
        }
        if vec_proof.len() > self.max_proof_length as usize {
            return Err(Error::TooLongProof);
        }
        let v = Verifier { key: self.verification_key.clone() };
        let is_verify = match v.verifier_proof(self.public_input, vec_proof.clone()) {
            Ok(b) => b,
            Err(_) => return Err(Error::VerificationKeyIsNotSet),
        };
        self.proof = vec_proof;
        if is_verify {
            Ok(Event::VerificationSuccess)
        } else {
            Ok(Event::VerificationFailed)
        }
    }
}

} // verus!
