use zkp_verifier::decimal::{parse_field_element, parse_u64};
use zkp_verifier::deserialization::{
    deserialize_public_inputs, Proof, ProofDeserializationError, PublicInputsDeserializationError,
    VKey, VKeyDeserializationError,
};

const G1: &str = "[\"1\",\"2\",\"1\"]";
const G2: &str = "[[\"1\",\"2\"],[\"3\",\"4\"],[\"1\",\"0\"]]";

fn vk_json(fields: &[(&str, String)]) -> String {
    let body: Vec<String> = fields.iter().map(|(k, v)| format!("\"{}\":{}", k, v)).collect();
    format!("{{{}}}", body.join(","))
}

fn full_vk(alpha_name: &str, ic_name: &str) -> String {
    vk_json(&[
        ("protocol", "\"groth16\"".to_string()),
        ("curve", "\"bls12381\"".to_string()),
        ("nPublic", "2".to_string()),
        (alpha_name, G1.to_string()),
        ("vk_beta_2", G2.to_string()),
        ("gamma", G2.to_string()),
        ("vk_delta_2", G2.to_string()),
        (ic_name, format!("[{},{},{}]", G1, G1, G1)),
    ])
}

fn be(v: u64) -> [u8; 48] {
    let mut out = [0u8; 48];
    out[40..48].copy_from_slice(&v.to_be_bytes());
    out
}

#[test]
fn malformed_decimal_input_fails() {
    assert_eq!(
        deserialize_public_inputs(b"[\"12.5\"]"),
        Err(PublicInputsDeserializationError::SerdeError)
    );
}

#[test]
fn public_inputs_parse() {
    assert_eq!(deserialize_public_inputs(b"[\"1\",\"22\",\"0\"]"), Ok(vec![1, 22, 0]));
    assert_eq!(deserialize_public_inputs(b"[]"), Ok(vec![]));
    assert_eq!(
        deserialize_public_inputs(b"[\"18446744073709551615\"]"),
        Ok(vec![u64::MAX])
    );
}

#[test]
fn public_inputs_rejections() {
    for bad in [
        &b"[\"18446744073709551616\"]"[..],
        b"[\"-1\"]",
        b"[\"+1\"]",
        b"[\"\"]",
        b"[\"1\", 2]",
        b"{\"a\":\"1\"}",
        b"not json",
        b"[\"1\",\"x\"]",
    ] {
        assert_eq!(deserialize_public_inputs(bad), Err(PublicInputsDeserializationError::SerdeError));
    }
}

#[test]
fn field_element_values() {
    assert_eq!(parse_field_element(b"0"), Some([0u8; 48]));
    assert_eq!(parse_field_element(b"256"), Some(be(256)));
    assert_eq!(parse_field_element(b"18446744073709551615"), Some(be(u64::MAX)));
    // 2^64 spills into the ninth byte from the end.
    let mut two_64 = [0u8; 48];
    two_64[39] = 1;
    assert_eq!(parse_field_element(b"18446744073709551616"), Some(two_64));
}

#[test]
fn field_element_width_limit() {
    // 2^384 - 1 is the largest value that fits; 2^384 does not.
    let max = "39402006196394479212279040100143613805079739270465446667948293404245721771497210611414266254884915640806627990306815";
    let over = "39402006196394479212279040100143613805079739270465446667948293404245721771497210611414266254884915640806627990306816";
    assert_eq!(parse_field_element(max.as_bytes()), Some([0xffu8; 48]));
    assert_eq!(parse_field_element(over.as_bytes()), None);
}

#[test]
fn field_element_rejects_non_digits() {
    for bad in ["", "12.5", "-1", "+1", " 1", "0x10", "1e3"] {
        assert_eq!(parse_field_element(bad.as_bytes()), None);
    }
}

#[test]
fn u64_parse_values() {
    assert_eq!(parse_u64(b"0"), Some(0));
    assert_eq!(parse_u64(b"007"), Some(7));
    assert_eq!(parse_u64(b"18446744073709551615"), Some(u64::MAX));
    assert_eq!(parse_u64(b"18446744073709551616"), None);
    assert_eq!(parse_u64(b""), None);
}

#[test]
fn vkey_decodes_with_either_field_name() {
    let k = VKey::from_json_u8_slice(full_vk("vk_alpha_1", "IC").as_bytes()).unwrap();
    assert_eq!(k.protocol, b"groth16".to_vec());
    assert_eq!(k.curve, b"bls12381".to_vec());
    assert_eq!(k.public_inputs_len, 2);
    assert_eq!(k.alpha, [be(1), be(2), be(1)]);
    assert_eq!(k.beta, [[be(1), be(2)], [be(3), be(4)], [be(1), be(0)]]);
    assert_eq!(k.ic.len(), 3);
    let k2 = VKey::from_json_u8_slice(full_vk("alpha", "ic").as_bytes()).unwrap();
    assert_eq!(k2.alpha, k.alpha);
    assert_eq!(k2.ic, k.ic);
}

#[test]
fn vkey_rejects_bad_documents() {
    let dup = full_vk("vk_alpha_1", "IC").replace("\"gamma\"", "\"vk_gamma_2\":[[\"1\",\"2\"],[\"3\",\"4\"],[\"1\",\"0\"]],\"gamma\"");
    let missing = full_vk("vk_alpha_1", "IC").replace("\"vk_beta_2\"", "\"other\"");
    let short_g1 = full_vk("vk_alpha_1", "IC").replacen("[\"1\",\"2\",\"1\"]", "[\"1\",\"2\"]", 1);
    let non_numeric = full_vk("vk_alpha_1", "IC").replacen("\"2\"", "\"two\"", 1);
    let big_npublic = full_vk("vk_alpha_1", "IC").replace("\"nPublic\":2", "\"nPublic\":256");
    for bad in [dup, missing, short_g1, non_numeric, big_npublic, "[]".to_string(), "{".to_string()] {
        assert_eq!(
            VKey::from_json_u8_slice(bad.as_bytes()).err(),
            Some(VKeyDeserializationError::SerdeError)
        );
    }
}

#[test]
fn proof_decodes_and_rejects() {
    let ok = format!(
        "{{\"protocol\":\"groth16\",\"curve\":\"bn254\",\"pi_a\":{},\"b\":{},\"pi_c\":{}}}",
        G1, G2, G1
    );
    let p = Proof::from_json_u8_slice(ok.as_bytes()).unwrap();
    assert_eq!(p.curve, b"bn254".to_vec());
    assert_eq!(p.a, [be(1), be(2), be(1)]);
    assert_eq!(p.b[1], [be(3), be(4)]);
    let bad = ok.replace("\"b\":", "\"pi_b\":[[\"1\"],[\"3\",\"4\"],[\"1\",\"0\"]],\"x\":");
    assert_eq!(
        Proof::from_json_u8_slice(bad.as_bytes()).err(),
        Some(ProofDeserializationError::SerdeError)
    );
}
