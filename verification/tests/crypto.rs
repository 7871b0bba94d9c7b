use oak_utils::crypto::{
    p256_ecdsa_verifying_key_to_proto, parse_p256_ecdsa_verifying_key, KeyError, KeyType,
    ProtoVerifyingKey, VerifyingKey, KEY_TYPE_ECDSA_P256_SHA256,
};
use p256::pkcs8::DecodePublicKey;

const DEVELOPER_KEY_PUB_PEM: &str = "-----BEGIN PUBLIC KEY-----
MFkwEwYHKoZIzj0CAQYIKoZIzj0DAQcDQgAEt70JMab/UjpD2LDL35nfUy4tiyj+
wqY5Poqh+pKQqiE++OlMHJ0qVTjVkuWMZpUdFJ0R4asYg4FhcQ+/veKDHg==
-----END PUBLIC KEY-----
";

const UNCOMPRESSED: &str = "04b7bd0931a6ff523a43d8b0cbdf99df532e2d8b28fec2a6393e8aa1fa9290aa213ef8e94c1c9d2a5538d592e58c66951d149d11e1ab18838161710fbfbde2831e";
const COMPRESSED: &str = "02b7bd0931a6ff523a43d8b0cbdf99df532e2d8b28fec2a6393e8aa1fa9290aa21";

fn hex(s: &str) -> Vec<u8> {
    (0..s.len()).step_by(2).map(|i| u8::from_str_radix(&s[i..i + 2], 16).unwrap()).collect()
}

#[test]
fn verifying_key_proto_conversion() {
    let key = p256::ecdsa::VerifyingKey::from_public_key_pem(DEVELOPER_KEY_PUB_PEM).unwrap();
    let developer_public_key = VerifyingKey::from_sec1_bytes(&key.to_sec1_bytes()).unwrap();

    let proto = p256_ecdsa_verifying_key_to_proto(&developer_public_key);
    let converted_key = parse_p256_ecdsa_verifying_key(proto).unwrap();

    assert_eq!(developer_public_key, converted_key);
}

#[test]
fn proto_has_p256_type_and_raw_key() {
    let key = VerifyingKey::from_sec1_bytes(&hex(UNCOMPRESSED)).unwrap();
    let proto = p256_ecdsa_verifying_key_to_proto(&key);
    assert_eq!(proto.key_type, KEY_TYPE_ECDSA_P256_SHA256);
    assert_eq!(proto.key_type(), KeyType::EcdsaP256Sha256);
    assert_eq!(proto.key_id, 0);
    assert_eq!(proto.raw, hex(UNCOMPRESSED));
}

#[test]
fn compressed_key_is_held_uncompressed() {
    let key = VerifyingKey::from_sec1_bytes(&hex(COMPRESSED)).unwrap();
    assert_eq!(key.to_sec1_bytes(), hex(UNCOMPRESSED));
    let parsed = parse_p256_ecdsa_verifying_key(ProtoVerifyingKey {
        key_type: 1,
        key_id: 7,
        raw: hex(COMPRESSED),
    })
    .unwrap();
    assert_eq!(parsed, key);
}

#[test]
fn parse_rejects_unspecified_key_type() {
    let proto = ProtoVerifyingKey { key_type: 0, key_id: 0, raw: hex(UNCOMPRESSED) };
    assert_eq!(parse_p256_ecdsa_verifying_key(proto), Err(KeyError::UnsupportedKeyType));
    let proto = ProtoVerifyingKey { key_type: 42, key_id: 0, raw: hex(UNCOMPRESSED) };
    assert_eq!(parse_p256_ecdsa_verifying_key(proto), Err(KeyError::UnsupportedKeyType));
}

#[test]
fn parse_rejects_invalid_point() {
    let mut raw = hex(UNCOMPRESSED);
    raw[64] ^= 1;
    let proto = ProtoVerifyingKey { key_type: 1, key_id: 0, raw };
    assert_eq!(parse_p256_ecdsa_verifying_key(proto), Err(KeyError::InvalidEncoding));
    let proto = ProtoVerifyingKey { key_type: 1, key_id: 0, raw: vec![] };
    assert_eq!(parse_p256_ecdsa_verifying_key(proto), Err(KeyError::InvalidEncoding));
}

#[test]
fn key_type_numbers() {
    assert_eq!(KeyType::from_i32(0), KeyType::Unspecified);
    assert_eq!(KeyType::from_i32(1), KeyType::EcdsaP256Sha256);
    assert_eq!(KeyType::from_i32(-3), KeyType::Unspecified);
    assert_eq!(KeyType::EcdsaP256Sha256.to_i32(), 1);
    assert_eq!(KeyType::Unspecified.to_i32(), 0);
}
