//! Uncompressed point encodings, Groth16 keys and proofs built from them,
//! and the Groth16 pairing check.
use vstd::prelude::*;
use vstd::string::StringSliceAdditionalSpecFns;
use bls12_381::{G1Affine, G1Projective, G2Affine, Scalar};
use crate::curve::{
    add_of, final_exp_of, final_exponentiation, g1_add_assign, g1_decodes, g1_from_uncompressed,
    g1_mul, g1_point, g1_to_affine, g1_to_projective, g2_decodes, g2_from_uncompressed, g2_point,
    g2_prepare, gt_eq, mml3_of, mul_of, multi_miller_loop3, pairing, pairing_of, prepared_of,
    scalar_from_u64, scalar_of, to_affine_of, to_proj_of,
};

verus! {

pub const SUPPORTED_CURVE: &'static str = "bls12381";

pub const SUPPORTED_PROTOCOL: &'static str = "groth16";

/// Writes the 48 bytes of `src` into `dst` from position `at` on.
fn put_field<const N: usize>(dst: &mut [u8; N], at: usize, src: &[u8; 48])
    requires
        at + 48 <= N,
    ensures
        final(dst)@ == old(dst)@.subrange(0, at as int) + src@ + old(dst)@.subrange(
            at + 48,
            N as int,
        ),
{
    let ghost before = dst@;
    let mut k: usize = 0;
    while k < 48
        invariant
            0 <= k <= 48,
            at + 48 <= N,
            dst@.len() == N,
            before.len() == N,
            forall|m: int| 0 <= m < at ==> #[trigger] dst@[m] == before[m],
            forall|m: int| at + 48 <= m < N ==> #[trigger] dst@[m] == before[m],
            forall|m: int| 0 <= m < k ==> #[trigger] dst@[at + m] == src@[m],
        decreases 48 - k,
    {
        dst[at + k] = src[k];
        k = k + 1;
    }
    assert(dst@ =~= before.subrange(0, at as int) + src@ + before.subrange(at + 48, N as int)) by {
        assert forall|m: int| at <= m < at + 48 implies dst@[m] == src@[m - at] by {
            assert(dst@[at + (m - at)] == src@[m - at]);
        }
    }
}

/// The uncompressed encoding of a G1 point: x then y, 48 bytes each.
pub struct G1UncompressedBytes {
    inner: [u8; 96],
}

/// The uncompressed encoding of a G2 point: x.c1, x.c0, y.c1, y.c0, 48 bytes each.
pub struct G2UncompressedBytes {
    inner: [u8; 192],
}

impl View for G1UncompressedBytes {
    type V = Seq<u8>;

    closed spec fn view(&self) -> Seq<u8> {
        self.inner@
    }
}

impl View for G2UncompressedBytes {
    type V = Seq<u8>;

    closed spec fn view(&self) -> Seq<u8> {
        self.inner@
    }
}

/// The encoding of the G1 point with affine coordinates (x, y).
pub open spec fn g1_encoding(x: Seq<u8>, y: Seq<u8>) -> Seq<u8> {
    x + y
}

/// The encoding of the G2 point with affine coordinates
/// (x_c0 + x_c1·u, y_c0 + y_c1·u): the high half of each coordinate first.
pub open spec fn g2_encoding(x_c0: Seq<u8>, x_c1: Seq<u8>, y_c0: Seq<u8>, y_c1: Seq<u8>) -> Seq<u8> {
    x_c1 + x_c0 + y_c1 + y_c0
}

/// Encoding a G1 point's coordinates and reading the encoding back gives the
/// same coordinates: x is the first 48 bytes, y the last 48.
pub proof fn lemma_g1_encoding_round_trip(x: Seq<u8>, y: Seq<u8>)
    requires
        x.len() == 48,
        y.len() == 48,
    ensures
        g1_encoding(x, y).len() == 96,
        g1_encoding(x, y).subrange(0, 48) == x,
        g1_encoding(x, y).subrange(48, 96) == y,
{
    assert(g1_encoding(x, y).subrange(0, 48) =~= x);
    assert(g1_encoding(x, y).subrange(48, 96) =~= y);
}

/// Encoding a G2 point's coordinates and reading the encoding back gives the
/// same coordinates, in the interleaved order x.c1, x.c0, y.c1, y.c0.
pub proof fn lemma_g2_encoding_round_trip(x_c0: Seq<u8>, x_c1: Seq<u8>, y_c0: Seq<u8>, y_c1: Seq<u8>)
    requires
        x_c0.len() == 48,
        x_c1.len() == 48,
        y_c0.len() == 48,
        y_c1.len() == 48,
    ensures
        g2_encoding(x_c0, x_c1, y_c0, y_c1).len() == 192,
        g2_encoding(x_c0, x_c1, y_c0, y_c1).subrange(0, 48) == x_c1,
        g2_encoding(x_c0, x_c1, y_c0, y_c1).subrange(48, 96) == x_c0,
        g2_encoding(x_c0, x_c1, y_c0, y_c1).subrange(96, 144) == y_c1,
        g2_encoding(x_c0, x_c1, y_c0, y_c1).subrange(144, 192) == y_c0,
{
    let e = g2_encoding(x_c0, x_c1, y_c0, y_c1);
    assert(e.subrange(0, 48) =~= x_c1);
    assert(e.subrange(48, 96) =~= x_c0);
    assert(e.subrange(96, 144) =~= y_c1);
    assert(e.subrange(144, 192) =~= y_c0);
}

impl G1UncompressedBytes {
    pub fn new(x: [u8; 48], y: [u8; 48]) -> (r: Self)
        ensures
            r@ == g1_encoding(x@, y@),
    {
        let mut new_bytes: [u8; 96] = [0; 96];
        put_field(&mut new_bytes, 0, &x);
        put_field(&mut new_bytes, 48, &y);
        assert(new_bytes@ =~= x@ + y@);
        G1UncompressedBytes { inner: new_bytes }
    }

    /// The 96 encoded bytes.
    pub fn as_bytes(&self) -> (r: &[u8; 96])
        ensures
            r@ == self@,
    {
        &self.inner
    }
}

impl G2UncompressedBytes {
    pub fn new(x_c0: [u8; 48], x_c1: [u8; 48], y_c0: [u8; 48], y_c1: [u8; 48]) -> (r: Self)
        ensures
            r@ == g2_encoding(x_c0@, x_c1@, y_c0@, y_c1@),
    {
        let mut new_bytes: [u8; 192] = [0; 192];
        put_field(&mut new_bytes, 0, &x_c1);
        put_field(&mut new_bytes, 48, &x_c0);
        put_field(&mut new_bytes, 96, &y_c1);
        put_field(&mut new_bytes, 144, &y_c0);
        assert(new_bytes@ =~= x_c1@ + x_c0@ + y_c1@ + y_c0@);
        G2UncompressedBytes { inner: new_bytes }
    }

    /// The 192 encoded bytes.
    pub fn as_bytes(&self) -> (r: &[u8; 192])
        ensures
            r@ == self@,
    {
        &self.inner
    }
}

/// Decodes and checks a G1 point.
pub fn g1_from_bytes(value: &G1UncompressedBytes) -> (r: Option<G1Affine>)
    ensures
        r is Some <==> g1_decodes(value@),
        r matches Some(p) ==> p == g1_point(value@),
{
    g1_from_uncompressed(&value.inner)
}

/// Decodes and checks a G2 point.
pub fn g2_from_bytes(value: &G2UncompressedBytes) -> (r: Option<G2Affine>)
    ensures
        r is Some <==> g2_decodes(value@),
        r matches Some(q) ==> q == g2_point(value@),
{
    g2_from_uncompressed(&value.inner)
}

/// Represents a Groth16 verification key.
pub struct VerificationKey {
    pub alpha: G1Affine,
    pub beta: G2Affine,
    pub gamma: G2Affine,
    pub delta: G2Affine,
    pub ic: Vec<G1Affine>,
}

#[derive(Debug, PartialEq, Eq)]
pub enum VerificationKeyCreationError {
    PointCreationError,
}

/// Every encoding in the list decodes to a G1 point.
pub open spec fn all_g1_decode(ic: Seq<G1UncompressedBytes>) -> bool {
    forall|i: int| 0 <= i < ic.len() ==> #[trigger] g1_decodes(ic[i]@)
}

impl VerificationKey {
    /// Decodes every point of the key; the first that fails aborts the whole
    /// construction.
    pub fn from_uncompressed(
        alpha: &G1UncompressedBytes,
        beta: &G2UncompressedBytes,
        gamma: &G2UncompressedBytes,
        delta: &G2UncompressedBytes,
        ic: &Vec<G1UncompressedBytes>,
    ) -> (r: Result<Self, VerificationKeyCreationError>)
        ensures
            r is Ok <==> g1_decodes(alpha@) && g2_decodes(beta@) && g2_decodes(gamma@) && g2_decodes(
                delta@,
            ) && all_g1_decode(ic@),
            r matches Ok(k) ==> k.alpha == g1_point(alpha@) && k.beta == g2_point(beta@) && k.gamma
                == g2_point(gamma@) && k.delta == g2_point(delta@) && k.ic@ == ic@.map_values(
                |b: G1UncompressedBytes| g1_point(b@),
            ),
            r matches Err(e) ==> e == VerificationKeyCreationError::PointCreationError,
    {
        let alpha = match g1_from_bytes(alpha) {
            Some(p) => p,
            None => return Err(VerificationKeyCreationError::PointCreationError),
        };
        let beta = match g2_from_bytes(beta) {
            Some(p) => p,
            None => return Err(VerificationKeyCreationError::PointCreationError),
        };
        let gamma = match g2_from_bytes(gamma) {
            Some(p) => p,
            None => return Err(VerificationKeyCreationError::PointCreationError),
        };
        let delta = match g2_from_bytes(delta) {
            Some(p) => p,
            None => return Err(VerificationKeyCreationError::PointCreationError),
        };
        let mut ic_2: Vec<G1Affine> = Vec::with_capacity(ic.len());
        let mut i: usize = 0;
        while i < ic.len()
            invariant
                0 <= i <= ic@.len(),
                ic_2@.len() == i,
                forall|k: int| 0 <= k < i ==> #[trigger] g1_decodes(ic@[k]@),
                forall|k: int| 0 <= k < i ==> #[trigger] ic_2@[k] == g1_point(ic@[k]@),
            decreases ic@.len() - i,
        {
            match g1_from_bytes(&ic[i]) {
                Some(p) => {
                    ic_2.push(p);
                },
                None => {
                    return Err(VerificationKeyCreationError::PointCreationError);
                },
            }
            i = i + 1;
        }
        assert(ic_2@ =~= ic@.map_values(|b: G1UncompressedBytes| g1_point(b@)));
        Ok(VerificationKey { alpha, beta, gamma, delta, ic: ic_2 })
    }
}

/// Represents a Groth16 proof.
pub struct GProof {
    pub a: G1Affine,
    pub b: G2Affine,
    pub c: G1Affine,
}

#[derive(Debug, PartialEq, Eq)]
pub enum GProofCreationError {
    PointCreationError,
}

impl GProof {
    /// Decodes the three points of a proof; the first that fails aborts.
    pub fn from_uncompressed(
        a: &G1UncompressedBytes,
        b: &G2UncompressedBytes,
        c: &G1UncompressedBytes,
    ) -> (r: Result<Self, GProofCreationError>)
        ensures
            r is Ok <==> g1_decodes(a@) && g2_decodes(b@) && g1_decodes(c@),
            r matches Ok(p) ==> p.a == g1_point(a@) && p.b == g2_point(b@) && p.c == g1_point(c@),
            r matches Err(e) ==> e == GProofCreationError::PointCreationError,
    {
        let a = match g1_from_bytes(a) {
            Some(p) => p,
            None => return Err(GProofCreationError::PointCreationError),
        };
        let b = match g2_from_bytes(b) {
            Some(p) => p,
            None => return Err(GProofCreationError::PointCreationError),
        };
        let c = match g1_from_bytes(c) {
            Some(p) => p,
            None => return Err(GProofCreationError::PointCreationError),
        };
        Ok(GProof { a, b, c })
    }
}

#[derive(Debug, PartialEq, Eq)]
pub enum VerificationError {
    InvalidVerificationKey,
}

pub type VerificationResult = Result<bool, VerificationError>;

pub type PublicInputs = Vec<Scalar>;

/// The field scalars of the public inputs, one for each, in order.
pub fn prepare_public_inputs(inputs: Vec<u64>) -> (r: Vec<Scalar>)
    ensures
        r@ == inputs@.map_values(|n: u64| scalar_of(n)),
{
    let mut out: Vec<Scalar> = Vec::with_capacity(inputs.len());
    let mut i: usize = 0;
    while i < inputs.len()
        invariant
            0 <= i <= inputs@.len(),
            out@.len() == i,
            forall|k: int| 0 <= k < i ==> #[trigger] out@[k] == scalar_of(inputs@[k]),
        decreases inputs@.len() - i,
    {
        out.push(scalar_from_u64(inputs[i]));
        i = i + 1;
    }
    assert(out@ =~= inputs@.map_values(|n: u64| scalar_of(n)));
    out
}

/// The input-weighted accumulator over the first `n` inputs:
/// ic[0] + Σ_{i < n} inputs[i] · ic[i + 1].
pub open spec fn acc_of(ic: Seq<G1Affine>, inputs: Seq<Scalar>, n: nat) -> G1Projective
    decreases n,
{
    if n == 0 {
        to_proj_of(ic[0])
    } else {
        add_of(acc_of(ic, inputs, (n - 1) as nat), mul_of(ic[n as int], inputs[n - 1]))
    }
}

/// The Groth16 equation
/// e(a, b) == final_exp(miller_loop((alpha, beta), (acc, gamma), (c, delta))),
/// with acc the input-weighted accumulator over all inputs.
pub open spec fn groth16_holds(
    alpha: G1Affine,
    beta: G2Affine,
    gamma: G2Affine,
    delta: G2Affine,
    ic: Seq<G1Affine>,
    a: G1Affine,
    b: G2Affine,
    c: G1Affine,
    inputs: Seq<Scalar>,
) -> bool {
    pairing_of(a, b) == final_exp_of(
        mml3_of(
            alpha,
            prepared_of(beta),
            to_affine_of(acc_of(ic, inputs, inputs.len())),
            prepared_of(gamma),
            c,
            prepared_of(delta),
        ),
    )
}

/// What verification of `proof` against `vk` with `inputs` returns.
pub open spec fn verification_result(vk: VerificationKey, proof: GProof, inputs: Seq<Scalar>) -> VerificationResult {
    if inputs.len() + 1 != vk.ic@.len() {
        Err(VerificationError::InvalidVerificationKey)
    } else {
        Ok(
            groth16_holds(
                vk.alpha,
                vk.beta,
                vk.gamma,
                vk.delta,
                vk.ic@,
                proof.a,
                proof.b,
                proof.c,
                inputs,
            ),
        )
    }
}

/// Verification depends on nothing but the key's points, the proof's points
/// and the inputs: equal ones give the same result.
pub proof fn lemma_verify_deterministic(
    vk_x: VerificationKey,
    vk_y: VerificationKey,
    proof_x: GProof,
    proof_y: GProof,
    inputs_x: Seq<Scalar>,
    inputs_y: Seq<Scalar>,
)
    requires
        vk_x.alpha == vk_y.alpha,
        vk_x.beta == vk_y.beta,
        vk_x.gamma == vk_y.gamma,
        vk_x.delta == vk_y.delta,
        vk_x.ic@ == vk_y.ic@,
        proof_x.a == proof_y.a,
        proof_x.b == proof_y.b,
        proof_x.c == proof_y.c,
        inputs_x == inputs_y,
    ensures
        verification_result(vk_x, proof_x, inputs_x) == verification_result(vk_y, proof_y, inputs_y),
{
}

/// Checks the Groth16 equation
/// e(a, b) == e(alpha, beta) · e(acc, gamma) · e(c, delta),
/// where acc = ic[0] + Σ inputs[i] · ic[i + 1]. The right side is one Miller
/// loop over the three pairs with a single final exponentiation. Fails, and
/// only then, when the key has not exactly one more `ic` point than there
/// are inputs.
pub fn verify(vk: VerificationKey, proof: GProof, inputs: PublicInputs) -> (r: VerificationResult)
    ensures
        r is Err <==> inputs@.len() + 1 != vk.ic@.len(),
        r matches Err(e) ==> e == VerificationError::InvalidVerificationKey,
        r == verification_result(vk, proof, inputs@),
        r matches Ok(b) ==> b == groth16_holds(
            vk.alpha,
            vk.beta,
            vk.gamma,
            vk.delta,
            vk.ic@,
            proof.a,
            proof.b,
            proof.c,
            inputs@,
        ),
{
    // Compared as `>=` first so that `+ 1` cannot overflow.
    if inputs.len() >= vk.ic.len() || inputs.len() + 1 != vk.ic.len() {
        return Err(VerificationError::InvalidVerificationKey);
    }
    let mut acc = g1_to_projective(&vk.ic[0]);
    let mut i: usize = 0;
    while i < inputs.len()
        invariant
            0 <= i <= inputs@.len(),
            inputs@.len() + 1 == vk.ic@.len(),
            acc == acc_of(vk.ic@, inputs@, i as nat),
        decreases inputs@.len() - i,
    {
        let term = g1_mul(&vk.ic[i + 1], &inputs[i]);
        g1_add_assign(&mut acc, &term);
        i = i + 1;
    }
    let a_b_pairing = pairing(&proof.a, &proof.b);
    let beta = g2_prepare(&vk.beta);
    let gamma = g2_prepare(&vk.gamma);
    let delta = g2_prepare(&vk.delta);
    let acc_affine = g1_to_affine(&acc);
    let miller = multi_miller_loop3(&vk.alpha, &beta, &acc_affine, &gamma, &proof.c, &delta);
    let final_result = final_exponentiation(&miller);
    Ok(gt_eq(&a_b_pairing, &final_result))
}

/// The protocol and curve tags name the one supported pair.
pub open spec fn supported(protocol: Seq<u8>, curve: Seq<u8>) -> bool {
    protocol == SUPPORTED_PROTOCOL.spec_bytes() && curve == SUPPORTED_CURVE.spec_bytes()
}

fn bytes_eq(a: &[u8], b: &[u8]) -> (r: bool)
    ensures
        r == (a@ == b@),
{
    if a.len() != b.len() {
        return false;
    }
    let mut i: usize = 0;
    while i < a.len()
        invariant
            0 <= i <= a@.len(),
            a@.len() == b@.len(),
            forall|k: int| 0 <= k < i ==> a@[k] == b@[k],
        decreases a@.len() - i,
    {
        if a[i] != b[i] {
            return false;
        }
        i = i + 1;
    }
    assert(a@ =~= b@);
    true
}

/// Whether an artifact's tags name the supported protocol and curve
/// (Groth16 over BLS12-381).
pub fn is_supported(protocol: &[u8], curve: &[u8]) -> (r: bool)
    ensures
        r == supported(protocol@, curve@),
{
    bytes_eq(protocol, SUPPORTED_PROTOCOL.as_bytes()) && bytes_eq(curve, SUPPORTED_CURVE.as_bytes())
}

} // verus!
