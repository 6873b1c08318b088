use bls12_381::{G1Affine, G2Affine};
use zkp_verifier::artifacts::{verify_artifacts, verify_decoded, ArtifactError};
use zkp_verifier::deserialization::{Proof, VKey};
use zkp_verifier::verify::{
    g1_from_bytes, g2_from_bytes, prepare_public_inputs, verify, G1UncompressedBytes,
    G2UncompressedBytes, GProof, VerificationError, VerificationKey,
};

fn split48(b: &[u8]) -> [u8; 48] {
    let mut out = [0u8; 48];
    out.copy_from_slice(b);
    out
}

fn g1_bytes(p: &G1Affine) -> G1UncompressedBytes {
    let e = p.to_uncompressed();
    G1UncompressedBytes::new(split48(&e[0..48]), split48(&e[48..96]))
}

fn g2_bytes(p: &G2Affine) -> G2UncompressedBytes {
    let e = p.to_uncompressed();
    G2UncompressedBytes::new(
        split48(&e[48..96]),
        split48(&e[0..48]),
        split48(&e[144..192]),
        split48(&e[96..144]),
    )
}

fn key_with_ic(ic: Vec<G1Affine>) -> VerificationKey {
    let g2 = G2Affine::generator();
    let ic_bytes: Vec<G1UncompressedBytes> = ic.iter().map(g1_bytes).collect();
    VerificationKey::from_uncompressed(
        &g1_bytes(&G1Affine::generator()),
        &g2_bytes(&g2),
        &g2_bytes(&g2),
        &g2_bytes(&g2),
        &ic_bytes,
    )
    .unwrap()
}

fn trivial_key() -> VerificationKey {
    key_with_ic(vec![G1Affine::identity()])
}

fn trivial_proof() -> GProof {
    GProof::from_uncompressed(
        &g1_bytes(&G1Affine::generator()),
        &g2_bytes(&G2Affine::generator()),
        &g1_bytes(&G1Affine::identity()),
    )
    .unwrap()
}

/// Decimal text of a big-endian number.
fn to_decimal(bytes: &[u8]) -> String {
    let mut n: Vec<u8> = bytes.to_vec();
    let mut digits: Vec<u8> = Vec::new();
    loop {
        let mut rem: u32 = 0;
        let mut all_zero = true;
        for b in n.iter_mut() {
            let cur = rem * 256 + *b as u32;
            *b = (cur / 10) as u8;
            rem = cur % 10;
            if *b != 0 {
                all_zero = false;
            }
        }
        digits.push(b'0' + rem as u8);
        if all_zero {
            break;
        }
    }
    digits.reverse();
    String::from_utf8(digits).unwrap()
}

fn g1_json(p: &G1Affine) -> String {
    let e = p.to_uncompressed();
    format!("[\"{}\",\"{}\",\"1\"]", to_decimal(&e[0..48]), to_decimal(&e[48..96]))
}

fn g2_json(p: &G2Affine) -> String {
    let e = p.to_uncompressed();
    format!(
        "[[\"{}\",\"{}\"],[\"{}\",\"{}\"],[\"1\",\"0\"]]",
        to_decimal(&e[48..96]),
        to_decimal(&e[0..48]),
        to_decimal(&e[144..192]),
        to_decimal(&e[96..144])
    )
}

fn trivial_vk_json(protocol: &str, curve: &str) -> String {
    let g2 = g2_json(&G2Affine::generator());
    format!(
        "{{\"protocol\":\"{}\",\"curve\":\"{}\",\"nPublic\":0,\"vk_alpha_1\":{},\"vk_beta_2\":{},\"vk_gamma_2\":{},\"vk_delta_2\":{},\"IC\":[{}]}}",
        protocol,
        curve,
        g1_json(&G1Affine::generator()),
        g2,
        g2,
        g2,
        g1_json(&G1Affine::identity())
    )
}

fn trivial_proof_json(protocol: &str, curve: &str) -> String {
    format!(
        "{{\"pi_a\":{},\"pi_b\":{},\"pi_c\":{},\"protocol\":\"{}\",\"curve\":\"{}\"}}",
        g1_json(&G1Affine::generator()),
        g2_json(&G2Affine::generator()),
        g1_json(&G1Affine::identity()),
        protocol,
        curve
    )
}

#[test]
fn trivial_valid_proof_verifies() {
    let r = verify(trivial_key(), trivial_proof(), prepare_public_inputs(vec![]));
    assert_eq!(r, Ok(true));
}

#[test]
fn wrong_proof_verifies_false() {
    let proof = GProof::from_uncompressed(
        &g1_bytes(&G1Affine::generator()),
        &g2_bytes(&G2Affine::generator()),
        &g1_bytes(&G1Affine::generator()),
    )
    .unwrap();
    let r = verify(trivial_key(), proof, prepare_public_inputs(vec![]));
    assert_eq!(r, Ok(false));
}

#[test]
fn verification_is_deterministic() {
    let first = verify(trivial_key(), trivial_proof(), prepare_public_inputs(vec![]));
    let second = verify(trivial_key(), trivial_proof(), prepare_public_inputs(vec![]));
    assert_eq!(first, second);
    let key = key_with_ic(vec![G1Affine::identity(), G1Affine::generator()]);
    let a = verify(key, trivial_proof(), prepare_public_inputs(vec![5]));
    let key = key_with_ic(vec![G1Affine::identity(), G1Affine::generator()]);
    let b = verify(key, trivial_proof(), prepare_public_inputs(vec![5]));
    assert_eq!(a, b);
    assert_eq!(a, Ok(false));
}

#[test]
fn public_input_mismatch_is_structural_error() {
    let key = key_with_ic(vec![G1Affine::identity(), G1Affine::generator(), G1Affine::generator()]);
    let r = verify(key, trivial_proof(), prepare_public_inputs(vec![1]));
    assert_eq!(r, Err(VerificationError::InvalidVerificationKey));
}

#[test]
fn structural_guard_on_too_many_inputs() {
    let r = verify(trivial_key(), trivial_proof(), prepare_public_inputs(vec![1, 2]));
    assert_eq!(r, Err(VerificationError::InvalidVerificationKey));
    let key = key_with_ic(vec![]);
    let r = verify(key, trivial_proof(), prepare_public_inputs(vec![]));
    assert_eq!(r, Err(VerificationError::InvalidVerificationKey));
}

#[test]
fn input_weighted_accumulator_is_used() {
    // ic = [0, g]; with input 0 the accumulator is the identity and the proof holds.
    let key = key_with_ic(vec![G1Affine::identity(), G1Affine::generator()]);
    let r = verify(key, trivial_proof(), prepare_public_inputs(vec![0]));
    assert_eq!(r, Ok(true));
}

#[test]
fn g1_encoding_round_trip() {
    for p in [G1Affine::generator(), G1Affine::identity()] {
        let enc = p.to_uncompressed();
        let bytes = g1_bytes(&p);
        assert_eq!(bytes.as_bytes(), &enc);
        assert_eq!(g1_from_bytes(&bytes), Some(p));
    }
}

#[test]
fn g2_encoding_round_trip() {
    for p in [G2Affine::generator(), G2Affine::identity()] {
        let enc = p.to_uncompressed();
        let bytes = g2_bytes(&p);
        assert_eq!(bytes.as_bytes(), &enc);
        assert_eq!(g2_from_bytes(&bytes), Some(p));
    }
}

#[test]
fn g2_coordinates_are_interleaved_high_first() {
    let x_c0 = [1u8; 48];
    let x_c1 = [2u8; 48];
    let y_c0 = [3u8; 48];
    let y_c1 = [4u8; 48];
    let b = G2UncompressedBytes::new(x_c0, x_c1, y_c0, y_c1);
    let e = b.as_bytes();
    assert_eq!(&e[0..48], &x_c1[..]);
    assert_eq!(&e[48..96], &x_c0[..]);
    assert_eq!(&e[96..144], &y_c1[..]);
    assert_eq!(&e[144..192], &y_c0[..]);
}

#[test]
fn swapped_g2_halves_do_not_decode_to_the_point() {
    let enc = G2Affine::generator().to_uncompressed();
    let swapped = G2UncompressedBytes::new(
        split48(&enc[0..48]),
        split48(&enc[48..96]),
        split48(&enc[96..144]),
        split48(&enc[144..192]),
    );
    assert_ne!(g2_from_bytes(&swapped), Some(G2Affine::generator()));
}

#[test]
fn off_curve_points_are_rejected() {
    let g1 = G1UncompressedBytes::new([0u8; 48], [1u8; 48]);
    assert_eq!(g1_from_bytes(&g1), None);
    let g2 = G2UncompressedBytes::new([0u8; 48], [0u8; 48], [1u8; 48], [0u8; 48]);
    assert_eq!(g2_from_bytes(&g2), None);
    let key = VerificationKey::from_uncompressed(
        &g1_bytes(&G1Affine::generator()),
        &g2_bytes(&G2Affine::generator()),
        &g2_bytes(&G2Affine::generator()),
        &g2_bytes(&G2Affine::generator()),
        &vec![g1_bytes(&G1Affine::identity()), g1],
    );
    assert!(key.is_err());
    let g1 = G1UncompressedBytes::new([0u8; 48], [1u8; 48]);
    let proof = GProof::from_uncompressed(&g1_bytes(&G1Affine::generator()), &g2_bytes(&G2Affine::generator()), &g1);
    assert!(proof.is_err());
}

#[test]
fn tampered_proof_never_verifies() {
    let enc = G1Affine::generator().to_uncompressed();
    for i in 0..96 {
        for bit in [0x01u8, 0x80u8] {
            let mut t = enc;
            t[i] ^= bit;
            let a = G1UncompressedBytes::new(split48(&t[0..48]), split48(&t[48..96]));
            match GProof::from_uncompressed(
                &a,
                &g2_bytes(&G2Affine::generator()),
                &g1_bytes(&G1Affine::identity()),
            ) {
                Err(_) => {}
                Ok(proof) => {
                    let r = verify(trivial_key(), proof, prepare_public_inputs(vec![]));
                    assert_eq!(r, Ok(false));
                }
            }
        }
    }
}

#[test]
fn artifacts_trivial_proof_verifies() {
    let vk = trivial_vk_json("groth16", "bls12381");
    let proof = trivial_proof_json("groth16", "bls12381");
    let r = verify_artifacts(vk.as_bytes(), proof.as_bytes(), b"[]");
    assert_eq!(r, Ok(true));
}

#[test]
fn unsupported_curve_rejected_before_point_decoding() {
    let vk = trivial_vk_json("groth16", "bls12381");
    let bad_points = "{\"protocol\":\"groth16\",\"curve\":\"bn254\",\"pi_a\":[\"1\",\"2\",\"1\"],\"pi_b\":[[\"1\",\"2\"],[\"3\",\"4\"],[\"1\",\"0\"]],\"pi_c\":[\"1\",\"2\",\"1\"]}";
    let r = verify_artifacts(vk.as_bytes(), bad_points.as_bytes(), b"[]");
    assert_eq!(r, Err(ArtifactError::UnsupportedArtifact));
    let same_points_supported = bad_points.replace("bn254", "bls12381");
    let r = verify_artifacts(vk.as_bytes(), same_points_supported.as_bytes(), b"[]");
    assert_eq!(r, Err(ArtifactError::PointError));
}

#[test]
fn unsupported_protocol_rejected() {
    let vk = trivial_vk_json("plonk", "bls12381");
    let proof = trivial_proof_json("groth16", "bls12381");
    let r = verify_artifacts(vk.as_bytes(), proof.as_bytes(), b"[]");
    assert_eq!(r, Err(ArtifactError::UnsupportedArtifact));
}

#[test]
fn artifacts_input_mismatch() {
    let vk = trivial_vk_json("groth16", "bls12381");
    let proof = trivial_proof_json("groth16", "bls12381");
    let r = verify_artifacts(vk.as_bytes(), proof.as_bytes(), b"[\"1\"]");
    assert_eq!(r, Err(ArtifactError::InvalidVerificationKey));
}

#[test]
fn artifacts_decode_error() {
    let vk = trivial_vk_json("groth16", "bls12381");
    let proof = trivial_proof_json("groth16", "bls12381");
    let r = verify_artifacts(vk.as_bytes(), proof.as_bytes(), b"[\"12.5\"]");
    assert_eq!(r, Err(ArtifactError::DecodeError));
    let r = verify_artifacts(b"{", proof.as_bytes(), b"[]");
    assert_eq!(r, Err(ArtifactError::DecodeError));
}

#[test]
fn decoded_documents_verify() {
    let vk = VKey::from_json_u8_slice(trivial_vk_json("groth16", "bls12381").as_bytes()).unwrap();
    let proof = Proof::from_json_u8_slice(trivial_proof_json("groth16", "bls12381").as_bytes()).unwrap();
    assert_eq!(verify_decoded(&vk, &proof, vec![]), Ok(true));
}
