//! Conversions between P-256 ECDSA verifying keys and their protocol-buffer
//! form.

use vstd::prelude::*;

verus! {

/// The kinds of verifying keys that the protocol names.
#[derive(Debug, Clone, Copy, PartialEq, Eq, Structural)]
pub enum KeyType {
    /// No key type was given, or its number is not known.
    Unspecified,
    /// An ECDSA key on the P-256 curve, used with SHA-256.
    EcdsaP256Sha256,
}

/// Wire number of [`KeyType::Unspecified`].
pub const KEY_TYPE_UNSPECIFIED: i32 = 0;

/// Wire number of [`KeyType::EcdsaP256Sha256`].
pub const KEY_TYPE_ECDSA_P256_SHA256: i32 = 1;

/// The key type that a wire number denotes; numbers that name no key type
/// read as `Unspecified`.
pub open spec fn key_type_spec(value: i32) -> KeyType {
    if value == KEY_TYPE_ECDSA_P256_SHA256 {
        KeyType::EcdsaP256Sha256
    } else {
        KeyType::Unspecified
    }
}

impl KeyType {
    /// The key type that a wire number denotes, `Unspecified` for unknown
    /// numbers.
    pub fn from_i32(value: i32) -> (res: KeyType)
        ensures
            res == key_type_spec(value),
    {
        if value == KEY_TYPE_ECDSA_P256_SHA256 {
            KeyType::EcdsaP256Sha256
        } else {
            KeyType::Unspecified
        }
    }

    /// The wire number of this key type.
    pub fn to_i32(&self) -> (res: i32)
        ensures
            key_type_spec(res) == *self,
            *self == KeyType::Unspecified ==> res == KEY_TYPE_UNSPECIFIED,
            *self == KeyType::EcdsaP256Sha256 ==> res == KEY_TYPE_ECDSA_P256_SHA256,
    {
        match self {
            KeyType::Unspecified => KEY_TYPE_UNSPECIFIED,
            KeyType::EcdsaP256Sha256 => KEY_TYPE_ECDSA_P256_SHA256,
        }
    }
}

/// The protocol-buffer form of a verifying key.
#[derive(Debug, Clone, PartialEq, Eq, Default)]
pub struct ProtoVerifyingKey {
    /// Wire number of the key type.
    pub key_type: i32,
    /// Identifier of the key.
    pub key_id: u32,
    /// The encoded key.
    pub raw: Vec<u8>,
}

impl ProtoVerifyingKey {
    /// The key type named by `key_type`; unknown numbers read as
    /// `Unspecified`.
    pub fn key_type(&self) -> (res: KeyType)
        ensures
            res == key_type_spec(self.key_type),
    {
        KeyType::from_i32(self.key_type)
    }
}

/// What `p256` makes of a SEC1-encoded public key: `None` where
/// `p256::ecdsa::VerifyingKey::from_sec1_bytes` rejects the bytes, else the
/// encoding that `to_sec1_bytes` gives for the decoded key.
pub uninterp spec fn p256_sec1_normalize(bytes: Seq<u8>) -> Option<Seq<u8>>;

/// Calls `p256::ecdsa::VerifyingKey::from_sec1_bytes` and, on success,
/// `to_sec1_bytes` on the decoded key. Trusted to return `None` exactly where
/// decoding fails, and otherwise the re-encoded key. As the sources of `p256`
/// and `elliptic-curve` show, that re-encoding is the 65-byte uncompressed
/// SEC1 form (tag byte 4), and decoding it again yields the same bytes.
#[verifier::external_body]
fn p256_normalize_sec1(bytes: &[u8]) -> (res: Option<Vec<u8>>)
    ensures
        match res {
            Some(encoded) => p256_sec1_normalize(bytes@) == Some(encoded@),
            None => p256_sec1_normalize(bytes@) is None,
        },
        res matches Some(encoded) ==> {
            &&& encoded@.len() == 65
            &&& encoded@[0] == 4
            &&& p256_sec1_normalize(encoded@) == Some(encoded@)
        },
{
    match p256::ecdsa::VerifyingKey::from_sec1_bytes(bytes) {
        Ok(key) => Some(key.to_sec1_bytes().to_vec()),
        Err(_) => None,
    }
}

/// Why a verifying key was rejected.
#[derive(Debug, Clone, Copy, PartialEq, Eq, Structural)]
pub enum KeyError {
    /// The key is not an ECDSA P-256 / SHA-256 key.
    UnsupportedKeyType,
    /// The bytes are not the SEC1 encoding of a point on P-256.
    InvalidEncoding,
}

/// A P-256 ECDSA verifying key, held as its uncompressed SEC1 encoding.
#[derive(Debug, PartialEq, Eq)]
pub struct VerifyingKey {
    sec1: Vec<u8>,
}

impl View for VerifyingKey {
    type V = Seq<u8>;

    closed spec fn view(&self) -> Seq<u8> {
        self.sec1@
    }
}

/// The bytes are the canonical encoding of a P-256 public key.
pub open spec fn valid_p256_encoding(sec1: Seq<u8>) -> bool {
    p256_sec1_normalize(sec1) == Some(sec1)
}

/// The key that decoding `bytes` gives, by its encoding.
pub open spec fn decode_sec1_spec(bytes: Seq<u8>) -> Result<Seq<u8>, KeyError> {
    match p256_sec1_normalize(bytes) {
        Some(encoded) => Ok(encoded),
        None => Err(KeyError::InvalidEncoding),
    }
}

/// What parsing a protocol-buffer key with the given type number and bytes
/// gives: only ECDSA P-256 / SHA-256 keys are accepted, and their bytes must
/// decode.
pub open spec fn parse_key_spec(key_type: i32, raw: Seq<u8>) -> Result<Seq<u8>, KeyError> {
    if key_type_spec(key_type) == KeyType::EcdsaP256Sha256 {
        decode_sec1_spec(raw)
    } else {
        Err(KeyError::UnsupportedKeyType)
    }
}

/// A key result by the encoding of the key.
pub open spec fn key_result_view(r: Result<VerifyingKey, KeyError>) -> Result<Seq<u8>, KeyError> {
    match r {
        Ok(key) => Ok(key@),
        Err(e) => Err(e),
    }
}

impl Clone for VerifyingKey {
    fn clone(&self) -> (res: Self)
        ensures
            res@ == self@,
    {
        proof {
            use_type_invariant(self);
        }
        VerifyingKey { sec1: self.sec1.clone() }
    }
}

impl VerifyingKey {
    /// The key is held in canonical form.
    #[verifier::type_invariant]
    spec fn wf(self) -> bool {
        valid_p256_encoding(self.sec1@)
    }

    /// Decodes a SEC1-encoded (compressed or uncompressed) P-256 public key.
    pub fn from_sec1_bytes(bytes: &[u8]) -> (res: Result<VerifyingKey, KeyError>)
        ensures
            key_result_view(res) == decode_sec1_spec(bytes@),
            res matches Ok(key) ==> valid_p256_encoding(key@) && key@.len() == 65,
    {
        match p256_normalize_sec1(bytes) {
            Some(sec1) => Ok(VerifyingKey { sec1 }),
            None => Err(KeyError::InvalidEncoding),
        }
    }

    /// The uncompressed SEC1 encoding of the key.
    pub fn to_sec1_bytes(&self) -> (res: Vec<u8>)
        ensures
            res@ == self@,
            valid_p256_encoding(res@),
    {
        proof {
            use_type_invariant(self);
        }
        self.sec1.clone()
    }
}

/// Parses a protocol-buffer verifying key; the key must be an ECDSA P-256 /
/// SHA-256 key.
pub fn parse_p256_ecdsa_verifying_key(proto: ProtoVerifyingKey) -> (res: Result<
    VerifyingKey,
    KeyError,
>)
    ensures
        key_result_view(res) == parse_key_spec(proto.key_type, proto.raw@),
        res matches Ok(key) ==> valid_p256_encoding(key@),
{
    match proto.key_type() {
        KeyType::EcdsaP256Sha256 => VerifyingKey::from_sec1_bytes(proto.raw.as_slice()),
        _ => Err(KeyError::UnsupportedKeyType),
    }
}

/// The protocol-buffer form of a P-256 / SHA-256 verifying key.
pub fn p256_ecdsa_verifying_key_to_proto(key: &VerifyingKey) -> (res: ProtoVerifyingKey)
    ensures
        res.key_type == KEY_TYPE_ECDSA_P256_SHA256,
        res.key_id == 0,
        res.raw@ == key@,
        parse_key_spec(res.key_type, res.raw@) == Ok::<Seq<u8>, KeyError>(key@),
{
    ProtoVerifyingKey {
        key_type: KeyType::EcdsaP256Sha256.to_i32(),
        key_id: 0,
        raw: key.to_sec1_bytes(),
    }
}

/// Parsing a protocol-buffer key accepts only the ECDSA P-256 / SHA-256
/// type number, and then gives the canonical encoding of the given bytes,
/// failing exactly where they do not decode.
pub proof fn lemma_parse_key_accepts_only_p256(key_type: i32, raw: Seq<u8>)
    ensures
        key_type != KEY_TYPE_ECDSA_P256_SHA256 ==> parse_key_spec(key_type, raw) == Err::<
            Seq<u8>,
            KeyError,
        >(KeyError::UnsupportedKeyType),
        key_type == KEY_TYPE_ECDSA_P256_SHA256 ==> match p256_sec1_normalize(raw) {
            Some(e) => parse_key_spec(key_type, raw) == Ok::<Seq<u8>, KeyError>(e),
            None => parse_key_spec(key_type, raw) == Err::<Seq<u8>, KeyError>(
                KeyError::InvalidEncoding,
            ),
        },
{
}

} // verus!
