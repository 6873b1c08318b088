//! Decoding of the JSON artifacts that a Groth16 proving toolchain exports:
//! verification keys, proofs and public-input lists. Every coordinate is a
//! decimal string and becomes a 48-byte big-endian field element.
use vstd::prelude::*;
use crate::decimal::{be_val, dec_val, fits_field, is_decimal, parse_field_element, parse_u64};
use crate::json::{
    json_as_array, json_as_u64, json_get, json_str_bytes, json_text, json_view, parse_json, Json,
    JsonNumber,
};

verus! {

/// A base-field element, big-endian.
pub type Number = [u8; 48];

/// A G1 point as exported: projective coordinates (x, y, z).
pub type G1 = [Number; 3];

/// A G2 point as exported: (x, y, z), each a pair (c0, c1) over the extension field.
pub type G2 = [[Number; 2]; 3];

// ----- what a well-formed document holds -----

/// The member of an object under `name`.
pub open spec fn member(j: Json, name: Seq<char>) -> Option<Json> {
    match j {
        Json::Object(m) => if m.contains_key(name) {
            Some(m[name])
        } else {
            None
        },
        _ => None,
    }
}

/// The member of an object that may stand under `name` or under `alias`;
/// none where it stands under both.
pub open spec fn aliased_member(j: Json, name: Seq<char>, alias: Seq<char>) -> Option<Json> {
    match j {
        Json::Object(m) => if m.contains_key(name) && m.contains_key(alias) {
            None
        } else if m.contains_key(name) {
            Some(m[name])
        } else if m.contains_key(alias) {
            Some(m[alias])
        } else {
            None
        },
        _ => None,
    }
}

/// A decimal string whose value fits in a field element.
pub open spec fn number_ok(j: Json) -> bool {
    j matches Json::Str(s) && is_decimal(s) && fits_field(dec_val(s))
}

/// `n` is the field element that the decimal string `j` stands for.
pub open spec fn number_matches(j: Json, n: Number) -> bool {
    j matches Json::Str(s) && is_decimal(s) && fits_field(dec_val(s)) && be_val(n@) == dec_val(s)
}

pub open spec fn g1_ok(j: Json) -> bool {
    j matches Json::Array(items) && items.len() == 3 && forall|i: int|
        0 <= i < 3 ==> #[trigger] number_ok(items[i])
}

pub open spec fn g1_matches(j: Json, p: G1) -> bool {
    j matches Json::Array(items) && items.len() == 3 && forall|i: int|
        0 <= i < 3 ==> #[trigger] number_matches(items[i], p@[i])
}

pub open spec fn pair_ok(j: Json) -> bool {
    j matches Json::Array(items) && items.len() == 2 && forall|i: int|
        0 <= i < 2 ==> #[trigger] number_ok(items[i])
}

pub open spec fn pair_matches(j: Json, p: [Number; 2]) -> bool {
    j matches Json::Array(items) && items.len() == 2 && forall|i: int|
        0 <= i < 2 ==> #[trigger] number_matches(items[i], p@[i])
}

pub open spec fn g2_ok(j: Json) -> bool {
    j matches Json::Array(items) && items.len() == 3 && forall|i: int|
        0 <= i < 3 ==> #[trigger] pair_ok(items[i])
}

pub open spec fn g2_matches(j: Json, p: G2) -> bool {
    j matches Json::Array(items) && items.len() == 3 && forall|i: int|
        0 <= i < 3 ==> #[trigger] pair_matches(items[i], p@[i])
}

pub open spec fn g1_list_ok(j: Json) -> bool {
    j matches Json::Array(items) && forall|i: int| 0 <= i < items.len() ==> #[trigger] g1_ok(items[i])
}

pub open spec fn g1_list_matches(j: Json, v: Seq<G1>) -> bool {
    j matches Json::Array(items) && items.len() == v.len() && forall|i: int|
        0 <= i < items.len() ==> #[trigger] g1_matches(items[i], v[i])
}

pub open spec fn some_str(o: Option<Json>) -> bool {
    o matches Some(Json::Str(_))
}

pub open spec fn str_is(o: Option<Json>, b: Seq<u8>) -> bool {
    o matches Some(Json::Str(s)) && s == b
}

pub open spec fn u8_is(o: Option<Json>, n: u8) -> bool {
    o matches Some(Json::Number(JsonNumber::PosInt(k))) && k == n
}

pub open spec fn some_u8(o: Option<Json>) -> bool {
    o matches Some(Json::Number(JsonNumber::PosInt(k))) && k <= 255
}

pub open spec fn some_g1(o: Option<Json>) -> bool {
    o matches Some(j) && g1_ok(j)
}

pub open spec fn g1_is(o: Option<Json>, p: G1) -> bool {
    o matches Some(j) && g1_matches(j, p)
}

pub open spec fn some_g2(o: Option<Json>) -> bool {
    o matches Some(j) && g2_ok(j)
}

pub open spec fn g2_is(o: Option<Json>, p: G2) -> bool {
    o matches Some(j) && g2_matches(j, p)
}

/// A verification key document with every field present and well-formed.
pub open spec fn vkey_ok(j: Json) -> bool {
    &&& some_str(member(j, "protocol"@))
    &&& some_str(member(j, "curve"@))
    &&& some_u8(aliased_member(j, "public_inputs_len"@, "nPublic"@))
    &&& some_g1(aliased_member(j, "alpha"@, "vk_alpha_1"@))
    &&& some_g2(aliased_member(j, "beta"@, "vk_beta_2"@))
    &&& some_g2(aliased_member(j, "gamma"@, "vk_gamma_2"@))
    &&& some_g2(aliased_member(j, "delta"@, "vk_delta_2"@))
    &&& aliased_member(j, "ic"@, "IC"@) matches Some(l) && g1_list_ok(l)
}

/// `k` holds what the verification key document `j` says.
pub open spec fn vkey_matches(j: Json, k: VKey) -> bool {
    &&& str_is(member(j, "protocol"@), k.protocol@)
    &&& str_is(member(j, "curve"@), k.curve@)
    &&& u8_is(aliased_member(j, "public_inputs_len"@, "nPublic"@), k.public_inputs_len)
    &&& g1_is(aliased_member(j, "alpha"@, "vk_alpha_1"@), k.alpha)
    &&& g2_is(aliased_member(j, "beta"@, "vk_beta_2"@), k.beta)
    &&& g2_is(aliased_member(j, "gamma"@, "vk_gamma_2"@), k.gamma)
    &&& g2_is(aliased_member(j, "delta"@, "vk_delta_2"@), k.delta)
    &&& aliased_member(j, "ic"@, "IC"@) matches Some(l) && g1_list_matches(l, k.ic@)
}

/// A proof document with every field present and well-formed.
pub open spec fn proof_ok(j: Json) -> bool {
    &&& some_str(member(j, "protocol"@))
    &&& some_str(member(j, "curve"@))
    &&& some_g1(aliased_member(j, "a"@, "pi_a"@))
    &&& some_g2(aliased_member(j, "b"@, "pi_b"@))
    &&& some_g1(aliased_member(j, "c"@, "pi_c"@))
}

/// `p` holds what the proof document `j` says.
pub open spec fn proof_matches(j: Json, p: Proof) -> bool {
    &&& str_is(member(j, "protocol"@), p.protocol@)
    &&& str_is(member(j, "curve"@), p.curve@)
    &&& g1_is(aliased_member(j, "a"@, "pi_a"@), p.a)
    &&& g2_is(aliased_member(j, "b"@, "pi_b"@), p.b)
    &&& g1_is(aliased_member(j, "c"@, "pi_c"@), p.c)
}

/// A decimal string whose value fits in a `u64`.
pub open spec fn input_ok(j: Json) -> bool {
    j matches Json::Str(s) && is_decimal(s) && dec_val(s) <= u64::MAX
}

/// A public-input document: an array of decimal strings that fit in a `u64`.
pub open spec fn inputs_ok(j: Json) -> bool {
    j matches Json::Array(items) && forall|i: int| 0 <= i < items.len() ==> #[trigger] input_ok(items[i])
}

/// `v` holds the values of the public-input document `j`, in order.
pub open spec fn inputs_match(j: Json, v: Seq<u64>) -> bool {
    j matches Json::Array(items) && items.len() == v.len() && forall|i: int|
        0 <= i < items.len() ==> (#[trigger] items[i] matches Json::Str(s) && v[i] == dec_val(s))
}

// ----- documents -----

/// A verification key as exported by the proving toolchain.
pub struct VKey {
    pub protocol: Vec<u8>,
    pub curve: Vec<u8>,
    pub public_inputs_len: u8,
    pub alpha: G1,
    pub beta: G2,
    pub gamma: G2,
    pub delta: G2,
    pub ic: Vec<G1>,
}

#[derive(Debug, PartialEq, Eq)]
pub enum VKeyDeserializationError {
    SerdeError,
}

/// A proof as exported by the proving toolchain.
pub struct Proof {
    pub protocol: Vec<u8>,
    pub curve: Vec<u8>,
    pub a: G1,
    pub b: G2,
    pub c: G1,
}

#[derive(Debug, PartialEq, Eq)]
pub enum ProofDeserializationError {
    SerdeError,
}

#[derive(Debug, PartialEq, Eq)]
pub enum PublicInputsDeserializationError {
    SerdeError,
}

// ----- field readers -----

/// Reads the member under `name` or `alias`; absent where it stands under both.
fn aliased_value<'a>(v: &'a serde_json::Value, name: &str, alias: &str) -> (r: Option<&'a serde_json::Value>)
    ensures
        match aliased_member(json_view(*v), name@, alias@) {
            Some(j) => r matches Some(x) && json_view(*x) == j,
            None => r is None,
        },
{
    let a = json_get(v, name);
    let b = json_get(v, alias);
    match (a, b) {
        (Some(x), None) => Some(x),
        (None, Some(y)) => Some(y),
        _ => None,
    }
}

/// Reads a decimal string as a field element.
pub fn number_deserializer(v: &serde_json::Value) -> (r: Option<Number>)
    ensures
        r is Some <==> number_ok(json_view(*v)),
        r matches Some(n) ==> number_matches(json_view(*v), n),
{
    match json_str_bytes(v) {
        Some(b) => parse_field_element(b.as_slice()),
        None => None,
    }
}

/// Turns a G1 point given as three decimal strings into three field elements.
pub fn g1_deserializer(v: &serde_json::Value) -> (r: Option<G1>)
    ensures
        r is Some <==> g1_ok(json_view(*v)),
        r matches Some(p) ==> g1_matches(json_view(*v), p),
{
    let items = match json_as_array(v) {
        Some(a) => a,
        None => return None,
    };
    if items.len() != 3 {
        return None;
    }
    let ghost js = json_view(*v)->Array_0;
    let mut out: G1 = [[0u8; 48]; 3];
    let mut i: usize = 0;
    while i < 3
        invariant
            0 <= i <= 3,
            json_view(*v) == Json::Array(js),
            js.len() == 3,
            items@.len() == 3,
            forall|k: int| 0 <= k < 3 ==> json_view(#[trigger] items@[k]) == js[k],
            forall|k: int| 0 <= k < i ==> #[trigger] number_matches(js[k], out@[k]),
        decreases 3 - i,
    {
        match number_deserializer(&items[i]) {
            Some(n) => {
                out[i] = n;
            },
            None => {
                return None;
            },
        }
        i = i + 1;
    }
    assert forall|k: int| 0 <= k < 3 implies #[trigger] number_ok(js[k]) by {
        assert(number_matches(js[k], out@[k]));
    }
    Some(out)
}

fn pair_deserializer(v: &serde_json::Value) -> (r: Option<[Number; 2]>)
    ensures
        r is Some <==> pair_ok(json_view(*v)),
        r matches Some(p) ==> pair_matches(json_view(*v), p),
{
    let items = match json_as_array(v) {
        Some(a) => a,
        None => return None,
    };
    if items.len() != 2 {
        return None;
    }
    let ghost js = json_view(*v)->Array_0;
    let mut out: [Number; 2] = [[0u8; 48]; 2];
    let mut i: usize = 0;
    while i < 2
        invariant
            0 <= i <= 2,
            json_view(*v) == Json::Array(js),
            js.len() == 2,
            items@.len() == 2,
            forall|k: int| 0 <= k < 2 ==> json_view(#[trigger] items@[k]) == js[k],
            forall|k: int| 0 <= k < i ==> #[trigger] number_matches(js[k], out@[k]),
        decreases 2 - i,
    {
        match number_deserializer(&items[i]) {
            Some(n) => {
                out[i] = n;
            },
            None => {
                return None;
            },
        }
        i = i + 1;
    }
    assert forall|k: int| 0 <= k < 2 implies #[trigger] number_ok(js[k]) by {
        assert(number_matches(js[k], out@[k]));
    }
    Some(out)
}

/// Turns a G2 point given as three pairs of decimal strings into field
/// elements, keeping the (c0, c1) order of each pair.
pub fn g2_deserializer(v: &serde_json::Value) -> (r: Option<G2>)
    ensures
        r is Some <==> g2_ok(json_view(*v)),
        r matches Some(p) ==> g2_matches(json_view(*v), p),
{
    let items = match json_as_array(v) {
        Some(a) => a,
        None => return None,
    };
    if items.len() != 3 {
        return None;
    }
    let ghost js = json_view(*v)->Array_0;
    let mut out: G2 = [[[0u8; 48]; 2]; 3];
    let mut i: usize = 0;
    while i < 3
        invariant
            0 <= i <= 3,
            json_view(*v) == Json::Array(js),
            js.len() == 3,
            items@.len() == 3,
            forall|k: int| 0 <= k < 3 ==> json_view(#[trigger] items@[k]) == js[k],
            forall|k: int| 0 <= k < i ==> #[trigger] pair_matches(js[k], out@[k]),
        decreases 3 - i,
    {
        match pair_deserializer(&items[i]) {
            Some(n) => {
                out[i] = n;
            },
            None => {
                return None;
            },
        }
        i = i + 1;
    }
    assert forall|k: int| 0 <= k < 3 implies #[trigger] pair_ok(js[k]) by {
        assert(pair_matches(js[k], out@[k]));
        let items_k = js[k]->Array_0;
        assert forall|m: int| 0 <= m < 2 implies #[trigger] number_ok(items_k[m]) by {
            assert(number_matches(items_k[m], out@[k]@[m]));
        }
    }
    Some(out)
}

/// Turns a list of G1 points, each given as three decimal strings, into
/// field elements.
pub fn vec_g1_deserializer(v: &serde_json::Value) -> (r: Option<Vec<G1>>)
    ensures
        r is Some <==> g1_list_ok(json_view(*v)),
        r matches Some(p) ==> g1_list_matches(json_view(*v), p@),
{
    let items = match json_as_array(v) {
        Some(a) => a,
        None => return None,
    };
    let ghost js = json_view(*v)->Array_0;
    let mut out: Vec<G1> = Vec::new();
    let mut i: usize = 0;
    while i < items.len()
        invariant
            0 <= i <= items@.len(),
            json_view(*v) == Json::Array(js),
            js.len() == items@.len(),
            forall|k: int| 0 <= k < js.len() ==> json_view(#[trigger] items@[k]) == js[k],
            out@.len() == i,
            forall|k: int| 0 <= k < i ==> #[trigger] g1_matches(js[k], out@[k]),
        decreases items@.len() - i,
    {
        match g1_deserializer(&items[i]) {
            Some(p) => {
                out.push(p);
            },
            None => {
                assert(!g1_ok(js[i as int]));
                assert(!g1_list_ok(json_view(*v))) by {
                    if g1_list_ok(json_view(*v)) {
                        assert(i < js.len());
                        assert(json_view(*v)->Array_0 == js);
                        assert(g1_ok(js[i as int]));
                    }
                }
                return None;
            },
        }
        i = i + 1;
    }
    assert forall|k: int| 0 <= k < js.len() implies #[trigger] g1_ok(js[k]) by {
        assert(g1_matches(js[k], out@[k]));
        let items_k = js[k]->Array_0;
        assert forall|m: int| 0 <= m < 3 implies #[trigger] number_ok(items_k[m]) by {
            assert(number_matches(items_k[m], out@[k]@[m]));
        }
    }
    Some(out)
}

/// Takes the bytes of a string value.
pub fn str_to_u8_vec_deserializer(v: &serde_json::Value) -> (r: Option<Vec<u8>>)
    ensures
        match json_view(*v) {
            Json::Str(s) => r matches Some(b) && b@ == s,
            _ => r is None,
        },
{
    json_str_bytes(v)
}

/// Reads a member that must stand under its own name.
fn named_value<'a>(v: &'a serde_json::Value, name: &str) -> (r: Option<&'a serde_json::Value>)
    ensures
        match member(json_view(*v), name@) {
            Some(j) => r matches Some(x) && json_view(*x) == j,
            None => r is None,
        },
{
    json_get(v, name)
}

fn string_field(v: &serde_json::Value, name: &str) -> (r: Option<Vec<u8>>)
    ensures
        r is Some <==> some_str(member(json_view(*v), name@)),
        r matches Some(b) ==> str_is(member(json_view(*v), name@), b@),
{
    match named_value(v, name) {
        Some(x) => str_to_u8_vec_deserializer(x),
        None => None,
    }
}

fn g1_field(v: &serde_json::Value, name: &str, alias: &str) -> (r: Option<G1>)
    ensures
        r is Some <==> some_g1(aliased_member(json_view(*v), name@, alias@)),
        r matches Some(p) ==> g1_is(aliased_member(json_view(*v), name@, alias@), p),
{
    match aliased_value(v, name, alias) {
        Some(x) => g1_deserializer(x),
        None => None,
    }
}

fn g2_field(v: &serde_json::Value, name: &str, alias: &str) -> (r: Option<G2>)
    ensures
        r is Some <==> some_g2(aliased_member(json_view(*v), name@, alias@)),
        r matches Some(p) ==> g2_is(aliased_member(json_view(*v), name@, alias@), p),
{
    match aliased_value(v, name, alias) {
        Some(x) => g2_deserializer(x),
        None => None,
    }
}

fn u8_field(v: &serde_json::Value, name: &str, alias: &str) -> (r: Option<u8>)
    ensures
        r is Some <==> some_u8(aliased_member(json_view(*v), name@, alias@)),
        r matches Some(n) ==> u8_is(aliased_member(json_view(*v), name@, alias@), n),
{
    match aliased_value(v, name, alias) {
        Some(x) => match json_as_u64(x) {
            Some(n) => if n <= 255 {
                Some(n as u8)
            } else {
                None
            },
            None => None,
        },
        None => None,
    }
}

fn vkey_from_value(v: &serde_json::Value) -> (r: Option<VKey>)
    ensures
        r is Some <==> vkey_ok(json_view(*v)),
        r matches Some(k) ==> vkey_matches(json_view(*v), k),
{
    let protocol = match string_field(v, "protocol") {
        Some(b) => b,
        None => return None,
    };
    let curve = match string_field(v, "curve") {
        Some(b) => b,
        None => return None,
    };
    let public_inputs_len = match u8_field(v, "public_inputs_len", "nPublic") {
        Some(n) => n,
        None => return None,
    };
    let alpha = match g1_field(v, "alpha", "vk_alpha_1") {
        Some(p) => p,
        None => return None,
    };
    let beta = match g2_field(v, "beta", "vk_beta_2") {
        Some(p) => p,
        None => return None,
    };
    let gamma = match g2_field(v, "gamma", "vk_gamma_2") {
        Some(p) => p,
        None => return None,
    };
    let delta = match g2_field(v, "delta", "vk_delta_2") {
        Some(p) => p,
        None => return None,
    };
    let ic = match aliased_value(v, "ic", "IC") {
        Some(x) => match vec_g1_deserializer(x) {
            Some(l) => l,
            None => return None,
        },
        None => return None,
    };
    Some(VKey { protocol, curve, public_inputs_len, alpha, beta, gamma, delta, ic })
}

impl VKey {
    /// Creates a `VKey` from its JSON text. Fields may stand under their
    /// own names or under the toolchain's names (`nPublic`, `vk_alpha_1`,
    /// `vk_beta_2`, `vk_gamma_2`, `vk_delta_2`, `IC`), not under both.
    pub fn from_json_u8_slice(slice: &[u8]) -> (r: Result<Self, VKeyDeserializationError>)
        ensures
            r is Ok <==> (json_text(slice@) matches Some(j) && vkey_ok(j)),
            r matches Ok(k) ==> vkey_matches(json_text(slice@)->0, k),
    {
        match parse_json(slice) {
            Some(v) => match vkey_from_value(&v) {
                Some(k) => Ok(k),
                None => Err(VKeyDeserializationError::SerdeError),
            },
            None => Err(VKeyDeserializationError::SerdeError),
        }
    }
}

fn proof_from_value(v: &serde_json::Value) -> (r: Option<Proof>)
    ensures
        r is Some <==> proof_ok(json_view(*v)),
        r matches Some(p) ==> proof_matches(json_view(*v), p),
{
    let protocol = match string_field(v, "protocol") {
        Some(b) => b,
        None => return None,
    };
    let curve = match string_field(v, "curve") {
        Some(b) => b,
        None => return None,
    };
    let a = match g1_field(v, "a", "pi_a") {
        Some(p) => p,
        None => return None,
    };
    let b = match g2_field(v, "b", "pi_b") {
        Some(p) => p,
        None => return None,
    };
    let c = match g1_field(v, "c", "pi_c") {
        Some(p) => p,
        None => return None,
    };
    Some(Proof { protocol, curve, a, b, c })
}

impl Proof {
    /// Creates a `Proof` from its JSON text. Points may stand under their
    /// own names or under the toolchain's names (`pi_a`, `pi_b`, `pi_c`),
    /// not under both.
    pub fn from_json_u8_slice(slice: &[u8]) -> (r: Result<Self, ProofDeserializationError>)
        ensures
            r is Ok <==> (json_text(slice@) matches Some(j) && proof_ok(j)),
            r matches Ok(p) ==> proof_matches(json_text(slice@)->0, p),
    {
        match parse_json(slice) {
            Some(v) => match proof_from_value(&v) {
                Some(p) => Ok(p),
                None => Err(ProofDeserializationError::SerdeError),
            },
            None => Err(ProofDeserializationError::SerdeError),
        }
    }
}

/// Creates the vector of `u64` public inputs from a JSON array of decimal
/// strings. Any element that is not a plain decimal integer within 64 bits
/// fails the whole list.
pub fn deserialize_public_inputs(inputs: &[u8]) -> (r: Result<Vec<u64>, PublicInputsDeserializationError>)
    ensures
        r is Ok <==> (json_text(inputs@) matches Some(j) && inputs_ok(j)),
        r matches Ok(v) ==> inputs_match(json_text(inputs@)->0, v@),
{
    let doc = match parse_json(inputs) {
        Some(d) => d,
        None => return Err(PublicInputsDeserializationError::SerdeError),
    };
    let items = match json_as_array(&doc) {
        Some(a) => a,
        None => return Err(PublicInputsDeserializationError::SerdeError),
    };
    let ghost js = json_view(doc)->Array_0;
    let mut parsed_inputs: Vec<u64> = Vec::with_capacity(items.len());
    let mut i: usize = 0;
    while i < items.len()
        invariant
            0 <= i <= items@.len(),
            json_text(inputs@) == Some(json_view(doc)),
            json_view(doc) == Json::Array(js),
            js.len() == items@.len(),
            forall|k: int| 0 <= k < js.len() ==> json_view(#[trigger] items@[k]) == js[k],
            parsed_inputs@.len() == i,
            forall|k: int| 0 <= k < i ==> #[trigger] input_ok(js[k]),
            forall|k: int|
                0 <= k < i ==> (#[trigger] js[k] matches Json::Str(s) && parsed_inputs@[k] == dec_val(s)),
        decreases items@.len() - i,
    {
        let parsed = match json_str_bytes(&items[i]) {
            Some(b) => parse_u64(b.as_slice()),
            None => None,
        };
        match parsed {
            Some(n) => {
                parsed_inputs.push(n);
            },
            None => {
                assert(!input_ok(js[i as int]));
                assert(!inputs_ok(json_view(doc))) by {
                    if inputs_ok(json_view(doc)) {
                        assert(i < js.len());
                        assert(json_view(doc)->Array_0 == js);
                        assert(input_ok(js[i as int]));
                    }
                }
                return Err(PublicInputsDeserializationError::SerdeError);
            },
        }
        i = i + 1;
    }
    Ok(parsed_inputs)
}

} // verus!
