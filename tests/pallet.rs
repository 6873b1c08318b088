use zkp_verifier::checker::{Verifier, VerifierError};
use zkp_verifier::pallet::{Error, Event, Pallet};

#[test]
fn verifier_needs_a_key() {
    let v = Verifier { key: vec![] };
    assert_eq!(v.verifier_proof(3, vec![1, 2, 3]), Err(VerifierError::NoVerificationKey));
    let v = Verifier { key: vec![9] };
    assert_eq!(v.verifier_proof(3, vec![1, 2, 3]), Ok(true));
    let v = Verifier { key: vec![9] };
    assert_eq!(v.verifier_proof(2, vec![1, 2, 3]), Ok(false));
}

#[test]
fn setup_and_verify() {
    let mut p = Pallet::new(4, 4);
    assert_eq!(p.setup_verification(2, vec![1, 2]), Ok(Some(Event::VerificationSetupCompleted)));
    assert_eq!(p.public_input, 2);
    assert_eq!(p.verification_key, vec![1, 2]);
    assert_eq!(p.verify(vec![7, 7]), Ok(Event::VerificationSuccess));
    assert_eq!(p.proof, vec![7, 7]);
    assert_eq!(p.verify(vec![7]), Ok(Event::VerificationFailed));
}

#[test]
fn setup_errors_and_clearing() {
    let mut p = Pallet::new(4, 2);
    assert_eq!(p.setup_verification(5, vec![1, 2, 3]), Err(Error::TooLongVerificationKey));
    assert_eq!(p.public_input, 0);
    assert_eq!(p.setup_verification(1, vec![1]), Ok(Some(Event::VerificationSetupCompleted)));
    assert_eq!(p.setup_verification(3, vec![]), Ok(None));
    assert!(p.verification_key.is_empty());
    assert_eq!(p.public_input, 3);
}

#[test]
fn verify_errors() {
    let mut p = Pallet::new(2, 4);
    assert_eq!(p.verify(vec![]), Err(Error::ProofIsEmpty));
    assert_eq!(p.verify(vec![1, 2, 3]), Err(Error::TooLongProof));
    assert_eq!(p.verify(vec![1]), Err(Error::VerificationKeyIsNotSet));
    assert!(p.proof.is_empty());
}
