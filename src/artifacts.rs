//! Verification straight from exported artifacts: decode the documents,
//! reject any protocol or curve but Groth16 over BLS12-381 before a single
//! point is decoded, then decode the points and check the proof.
use vstd::prelude::*;
use crate::curve::{g1_decodes, g1_point, g2_decodes, g2_point, scalar_of};
use crate::deserialization::{
    deserialize_public_inputs, inputs_match, inputs_ok, proof_matches, proof_ok, vkey_matches,
    vkey_ok, Proof, VKey, G1, G2,
};
use crate::json::json_text;
use crate::verify::{
    all_g1_decode, g1_encoding, g2_encoding, groth16_holds, is_supported, prepare_public_inputs,
    supported, verify, G1UncompressedBytes, G2UncompressedBytes, GProof, VerificationKey,
};

verus! {

#[derive(Debug, PartialEq, Eq)]
pub enum ArtifactError {
    /// A document is not well-formed.
    DecodeError,
    /// A document names another protocol or curve.
    UnsupportedArtifact,
    /// A point encoding is not a valid curve point.
    PointError,
    /// The key's `ic` list does not have one point more than there are inputs.
    InvalidVerificationKey,
}

/// The encoding of an exported G1 point: its x and y; z is taken to be 1.
pub open spec fn g1_triple_encoding(t: G1) -> Seq<u8> {
    g1_encoding(t@[0]@, t@[1]@)
}

/// The encoding of an exported G2 point: its x and y; z is taken to be 1.
pub open spec fn g2_triple_encoding(t: G2) -> Seq<u8> {
    g2_encoding(t@[0]@[0]@, t@[0]@[1]@, t@[1]@[0]@, t@[1]@[1]@)
}

pub open spec fn vkey_points_valid(k: VKey) -> bool {
    &&& g1_decodes(g1_triple_encoding(k.alpha))
    &&& g2_decodes(g2_triple_encoding(k.beta))
    &&& g2_decodes(g2_triple_encoding(k.gamma))
    &&& g2_decodes(g2_triple_encoding(k.delta))
    &&& forall|i: int| 0 <= i < k.ic@.len() ==> g1_decodes(g1_triple_encoding(#[trigger] k.ic@[i]))
}

pub open spec fn proof_points_valid(p: Proof) -> bool {
    &&& g1_decodes(g1_triple_encoding(p.a))
    &&& g2_decodes(g2_triple_encoding(p.b))
    &&& g1_decodes(g1_triple_encoding(p.c))
}

/// The `ic` points of a decoded key.
pub open spec fn ic_points(k: VKey) -> Seq<bls12_381::G1Affine> {
    k.ic@.map_values(|t: G1| g1_point(g1_triple_encoding(t)))
}

/// The Groth16 equation for a decoded key, proof and inputs.
pub open spec fn decoded_holds(k: VKey, p: Proof, v: Seq<u64>) -> bool {
    groth16_holds(
        g1_point(g1_triple_encoding(k.alpha)),
        g2_point(g2_triple_encoding(k.beta)),
        g2_point(g2_triple_encoding(k.gamma)),
        g2_point(g2_triple_encoding(k.delta)),
        ic_points(k),
        g1_point(g1_triple_encoding(p.a)),
        g2_point(g2_triple_encoding(p.b)),
        g1_point(g1_triple_encoding(p.c)),
        v.map_values(|n: u64| scalar_of(n)),
    )
}

/// What verifying key `k` and proof `p` with public inputs `v` comes to:
/// the checks in order, each failure with its own error; when all pass,
/// whether the Groth16 equation holds.
pub open spec fn outcome(k: VKey, p: Proof, v: Seq<u64>, r: Result<bool, ArtifactError>) -> bool {
    if !(supported(k.protocol@, k.curve@) && supported(p.protocol@, p.curve@)) {
        r == Err::<bool, ArtifactError>(ArtifactError::UnsupportedArtifact)
    } else if !(vkey_points_valid(k) && proof_points_valid(p)) {
        r == Err::<bool, ArtifactError>(ArtifactError::PointError)
    } else if v.len() + 1 != k.ic@.len() {
        r == Err::<bool, ArtifactError>(ArtifactError::InvalidVerificationKey)
    } else {
        r == Ok::<bool, ArtifactError>(decoded_holds(k, p, v))
    }
}

/// Verification is a function of its inputs: two runs on the same key,
/// proof and public inputs give the same result.
pub proof fn lemma_outcome_deterministic(
    k: VKey,
    p: Proof,
    v: Seq<u64>,
    r1: Result<bool, ArtifactError>,
    r2: Result<bool, ArtifactError>,
)
    requires
        outcome(k, p, v, r1),
        outcome(k, p, v, r2),
    ensures
        r1 == r2,
{
}

/// The uncompressed encoding of an exported G1 point.
pub fn g1_point_bytes(t: &G1) -> (r: G1UncompressedBytes)
    ensures
        r@ == g1_triple_encoding(*t),
{
    G1UncompressedBytes::new(t[0], t[1])
}

/// The uncompressed encoding of an exported G2 point.
pub fn g2_point_bytes(t: &G2) -> (r: G2UncompressedBytes)
    ensures
        r@ == g2_triple_encoding(*t),
{
    G2UncompressedBytes::new(t[0][0], t[0][1], t[1][0], t[1][1])
}

fn key_points(k: &VKey) -> (r: Option<VerificationKey>)
    ensures
        r is Some <==> vkey_points_valid(*k),
        r matches Some(vk) ==> vk.alpha == g1_point(g1_triple_encoding(k.alpha)) && vk.beta
            == g2_point(g2_triple_encoding(k.beta)) && vk.gamma == g2_point(
            g2_triple_encoding(k.gamma),
        ) && vk.delta == g2_point(g2_triple_encoding(k.delta)) && vk.ic@ == ic_points(*k),
{
    let mut ic: Vec<G1UncompressedBytes> = Vec::with_capacity(k.ic.len());
    let mut i: usize = 0;
    while i < k.ic.len()
        invariant
            0 <= i <= k.ic@.len(),
            ic@.len() == i,
            forall|m: int| 0 <= m < i ==> (#[trigger] ic@[m])@ == g1_triple_encoding(k.ic@[m]),
        decreases k.ic@.len() - i,
    {
        ic.push(g1_point_bytes(&k.ic[i]));
        i = i + 1;
    }
    let alpha = g1_point_bytes(&k.alpha);
    let beta = g2_point_bytes(&k.beta);
    let gamma = g2_point_bytes(&k.gamma);
    let delta = g2_point_bytes(&k.delta);
    let r = VerificationKey::from_uncompressed(&alpha, &beta, &gamma, &delta, &ic);
    proof {
        assert(all_g1_decode(ic@) == (forall|m: int|
            0 <= m < k.ic@.len() ==> g1_decodes(g1_triple_encoding(#[trigger] k.ic@[m])))) by {
            assert forall|m: int| 0 <= m < k.ic@.len() implies (g1_decodes(ic@[m]@) == g1_decodes(
                g1_triple_encoding(#[trigger] k.ic@[m]),
            )) by {
                assert(ic@[m]@ == g1_triple_encoding(k.ic@[m]));
            }
        }
        assert(ic@.map_values(|b: G1UncompressedBytes| g1_point(b@)) =~= ic_points(*k));
    }
    match r {
        Ok(vk) => Some(vk),
        Err(_) => None,
    }
}

fn proof_points(p: &Proof) -> (r: Option<GProof>)
    ensures
        r is Some <==> proof_points_valid(*p),
        r matches Some(g) ==> g.a == g1_point(g1_triple_encoding(p.a)) && g.b == g2_point(
            g2_triple_encoding(p.b),
        ) && g.c == g1_point(g1_triple_encoding(p.c)),
{
    let a = g1_point_bytes(&p.a);
    let b = g2_point_bytes(&p.b);
    let c = g1_point_bytes(&p.c);
    match GProof::from_uncompressed(&a, &b, &c) {
        Ok(g) => Some(g),
        Err(_) => None,
    }
}

/// Verifies a decoded proof against a decoded key. Tags are checked first:
/// an unsupported protocol or curve is rejected whatever the points hold.
pub fn verify_decoded(vk: &VKey, proof: &Proof, inputs: Vec<u64>) -> (r: Result<bool, ArtifactError>)
    ensures
        outcome(*vk, *proof, inputs@, r),
{
    if !(is_supported(vk.protocol.as_slice(), vk.curve.as_slice()) && is_supported(
        proof.protocol.as_slice(),
        proof.curve.as_slice(),
    )) {
        return Err(ArtifactError::UnsupportedArtifact);
    }
    let key = match key_points(vk) {
        Some(k) => k,
        None => return Err(ArtifactError::PointError),
    };
    let g = match proof_points(proof) {
        Some(g) => g,
        None => return Err(ArtifactError::PointError),
    };
    let scalars = prepare_public_inputs(inputs);
    match verify(key, g, scalars) {
        Ok(b) => Ok(b),
        Err(_) => Err(ArtifactError::InvalidVerificationKey),
    }
}

/// Verifies a proof given as the three exported JSON documents: key, proof
/// and public inputs. Any document that does not decode gives `DecodeError`;
/// otherwise the result is that of [`verify_decoded`] on what they hold.
pub fn verify_artifacts(vk_json: &[u8], proof_json: &[u8], inputs_json: &[u8]) -> (r: Result<
    bool,
    ArtifactError,
>)
    ensures
        (r == Err::<bool, ArtifactError>(ArtifactError::DecodeError)) <==> !((json_text(vk_json@) matches Some(jk) && vkey_ok(jk))
            && (json_text(proof_json@) matches Some(jp) && proof_ok(jp)) && (json_text(
            inputs_json@,
        ) matches Some(ji) && inputs_ok(ji))),
        r != Err::<bool, ArtifactError>(ArtifactError::DecodeError) ==> exists|k: VKey, p: Proof, v: Seq<u64>|
            vkey_matches(json_text(vk_json@)->0, k) && proof_matches(json_text(proof_json@)->0, p)
                && inputs_match(json_text(inputs_json@)->0, v) && outcome(k, p, v, r),
{
    let vk = match VKey::from_json_u8_slice(vk_json) {
        Ok(k) => k,
        Err(_) => return Err(ArtifactError::DecodeError),
    };
    let proof = match Proof::from_json_u8_slice(proof_json) {
        Ok(p) => p,
        Err(_) => return Err(ArtifactError::DecodeError),
    };
    let inputs = match deserialize_public_inputs(inputs_json) {
        Ok(v) => v,
        Err(_) => return Err(ArtifactError::DecodeError),
    };
    let ghost v = inputs@;
    let r = verify_decoded(&vk, &proof, inputs);
    assert(vkey_matches(json_text(vk_json@)->0, vk) && proof_matches(json_text(proof_json@)->0, proof)
        && inputs_match(json_text(inputs_json@)->0, v) && outcome(vk, proof, v, r));
    r
}

} // verus!
