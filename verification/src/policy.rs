//! Generation of Confidential Space attestation policies from reference
//! values.

use crate::crypto::{
    key_result_view, parse_key_spec, parse_p256_ecdsa_verifying_key, KeyError, ProtoVerifyingKey,
    VerifyingKey,
};
use vstd::prelude::*;

verus! {

/// The DER encoding of the certificate that `x509_cert::Certificate::from_pem`
/// decodes from the PEM text, re-encoded by `to_der`; `None` where either
/// step fails.
pub uninterp spec fn x509_pem_certificate_der(pem: Seq<char>) -> Option<Seq<u8>>;

/// Calls `from_pem` of the `DecodePem` trait of `der` on
/// `x509_cert::Certificate` and, on success, `to_der` of the `Encode` trait on
/// the decoded certificate. Trusted to return what the name gives for the
/// text; an empty text has no PEM boundary and is rejected. Nothing is
/// stated of the contents of the encoding.
#[verifier::external_body]
fn certificate_der_from_pem(pem: &String) -> (res: Option<Vec<u8>>)
    ensures
        match res {
            Some(der) => x509_pem_certificate_der(pem@) == Some(der@),
            None => x509_pem_certificate_der(pem@) is None,
        },
        pem@.len() == 0 ==> res is None,
{
    match <x509_cert::Certificate as x509_cert::der::DecodePem>::from_pem(pem) {
        Ok(certificate) => x509_cert::der::Encode::to_der(&certificate).ok(),
        Err(_) => None,
    }
}

/// The protocol-buffer form of the Cosign reference values.
#[derive(Debug, Clone, PartialEq, Eq, Default)]
pub struct CosignReferenceValuesProto {
    /// Key with which the workload developer signs container images.
    pub developer_public_key: Option<ProtoVerifyingKey>,
    /// Key of the Rekor transparency log, if its inclusion is checked.
    pub rekor_public_key: Option<ProtoVerifyingKey>,
}

/// How the container image of a workload is to be checked.
#[derive(Debug, Clone, PartialEq, Eq)]
pub enum ContainerImage {
    /// The image must carry a Cosign signature.
    CosignReferenceValues(CosignReferenceValuesProto),
    /// The image must be the one with this reference.
    ContainerImageReference(String),
}

/// Reference values for a workload running on Confidential Space.
#[derive(Debug, Clone, PartialEq, Eq, Default)]
pub struct ConfidentialSpaceReferenceValues {
    /// PEM text of the Confidential Space root certificate.
    pub root_certificate_pem: String,
    /// How the container image is checked, if at all.
    pub container_image: Option<ContainerImage>,
}

/// Why Cosign reference values were rejected.
#[derive(Debug, Clone, Copy, PartialEq, Eq, Structural)]
pub enum CosignError {
    /// No developer public key was given.
    MissingDeveloperPublicKey,
    /// The developer public key is not a valid P-256 key.
    InvalidDeveloperPublicKey(KeyError),
    /// The Rekor public key is not a valid P-256 key.
    InvalidRekorPublicKey(KeyError),
}

/// Cosign reference values by the encodings of their keys: the developer
/// key, and the Rekor key if any.
pub type CosignView = (Seq<u8>, Option<Seq<u8>>);

/// What parsing the Cosign reference values gives.
pub open spec fn cosign_from_proto_spec(proto: CosignReferenceValuesProto) -> Result<
    CosignView,
    CosignError,
> {
    match proto.developer_public_key {
        None => Err(CosignError::MissingDeveloperPublicKey),
        Some(dev) => match parse_key_spec(dev.key_type, dev.raw@) {
            Err(e) => Err(CosignError::InvalidDeveloperPublicKey(e)),
            Ok(dev_key) => match proto.rekor_public_key {
                None => Ok((dev_key, None)),
                Some(rekor) => match parse_key_spec(rekor.key_type, rekor.raw@) {
                    Err(e) => Err(CosignError::InvalidRekorPublicKey(e)),
                    Ok(rekor_key) => Ok((dev_key, Some(rekor_key))),
                },
            },
        },
    }
}

/// Verified Cosign reference values: the keys that signatures on the
/// container image are checked against.
#[derive(Debug, Clone, PartialEq, Eq)]
pub struct CosignReferenceValues {
    developer_public_key: VerifyingKey,
    rekor_public_key: Option<VerifyingKey>,
}

impl View for CosignReferenceValues {
    type V = CosignView;

    closed spec fn view(&self) -> CosignView {
        (
            self.developer_public_key@,
            match self.rekor_public_key {
                Some(k) => Some(k@),
                None => None,
            },
        )
    }
}

/// A Cosign result by the encodings of its keys.
pub open spec fn cosign_result_view(r: Result<CosignReferenceValues, CosignError>) -> Result<
    CosignView,
    CosignError,
> {
    match r {
        Ok(v) => Ok(v@),
        Err(e) => Err(e),
    }
}

impl CosignReferenceValues {
    /// Parses the Cosign reference values: the developer key is required,
    /// the Rekor key optional; both must be P-256 / SHA-256 keys.
    pub fn from_proto(proto: &CosignReferenceValuesProto) -> (res: Result<
        CosignReferenceValues,
        CosignError,
    >)
        ensures
            cosign_result_view(res) == cosign_from_proto_spec(*proto),
    {
        let developer_public_key = match &proto.developer_public_key {
            None => {
                return Err(CosignError::MissingDeveloperPublicKey);
            },
            Some(key) => {
                let r = parse_p256_ecdsa_verifying_key(
                    ProtoVerifyingKey { key_type: key.key_type, key_id: key.key_id, raw: key.raw.clone() },
                );
                match r {
                    Ok(k) => k,
                    Err(e) => {
                        return Err(CosignError::InvalidDeveloperPublicKey(e));
                    },
                }
            },
        };
        let rekor_public_key = match &proto.rekor_public_key {
            None => None,
            Some(key) => {
                let r = parse_p256_ecdsa_verifying_key(
                    ProtoVerifyingKey { key_type: key.key_type, key_id: key.key_id, raw: key.raw.clone() },
                );
                match r {
                    Ok(k) => Some(k),
                    Err(e) => {
                        return Err(CosignError::InvalidRekorPublicKey(e));
                    },
                }
            },
        };
        Ok(CosignReferenceValues { developer_public_key, rekor_public_key })
    }

    /// The key with which the developer signs container images.
    pub fn developer_public_key(&self) -> (res: &VerifyingKey)
        ensures
            res@ == self@.0,
    {
        &self.developer_public_key
    }

    /// The key of the Rekor transparency log, if any.
    pub fn rekor_public_key(&self) -> (res: Option<&VerifyingKey>)
        ensures
            match res {
                Some(k) => self@.1 == Some(k@),
                None => self@.1 is None,
            },
    {
        match &self.rekor_public_key {
            Some(k) => Some(k),
            None => None,
        }
    }
}

/// A policy that accepts workloads running on Confidential Space, under the
/// given root certificate, optionally requiring a Cosign-endorsed image.
pub struct ConfidentialSpacePolicy {
    root_certificate: Vec<u8>,
    workload: Option<CosignReferenceValues>,
}

/// A policy by the DER encoding of its root certificate and the Cosign
/// reference values it requires, if any.
pub type PolicyView = (Seq<u8>, Option<CosignView>);

impl View for ConfidentialSpacePolicy {
    type V = PolicyView;

    closed spec fn view(&self) -> PolicyView {
        (
            self.root_certificate@,
            match self.workload {
                Some(w) => Some(w@),
                None => None,
            },
        )
    }
}

impl ConfidentialSpacePolicy {
    /// A policy that also requires a Cosign endorsement of the image.
    pub fn new(root_certificate: Vec<u8>, cosign: CosignReferenceValues) -> (res:
        ConfidentialSpacePolicy)
        ensures
            res@ == (root_certificate@, Some(cosign@)),
    {
        ConfidentialSpacePolicy { root_certificate, workload: Some(cosign) }
    }

    /// A policy that only checks that the workload runs on Confidential
    /// Space.
    pub fn new_unendorsed(root_certificate: Vec<u8>) -> (res: ConfidentialSpacePolicy)
        ensures
            res@ == (root_certificate@, None::<CosignView>),
    {
        ConfidentialSpacePolicy { root_certificate, workload: None }
    }

    /// The DER encoding of the root certificate that attestation tokens must
    /// chain to.
    pub fn root_certificate_der(&self) -> (res: &[u8])
        ensures
            res@ == self@.0,
    {
        self.root_certificate.as_slice()
    }

    /// The Cosign reference values the image is checked against, if any.
    pub fn cosign_reference_values(&self) -> (res: Option<&CosignReferenceValues>)
        ensures
            match res {
                Some(c) => self@.1 == Some(c@),
                None => self@.1 is None,
            },
    {
        match &self.workload {
            Some(c) => Some(c),
            None => None,
        }
    }
}

/// Why no policy was generated.
#[derive(Debug, Clone, Copy, PartialEq, Eq, Structural)]
pub enum PolicyError {
    /// The root certificate PEM does not decode.
    InvalidRootCertificate,
    /// The Cosign reference values are invalid.
    InvalidCosignReferenceValues(CosignError),
    /// Policies based on a container image reference are not yet supported.
    ContainerImageReferenceNotSupported,
}

/// What generating a policy from the reference values gives, by the
/// policy's view.
pub open spec fn policy_from_reference_values_spec(rv: ConfidentialSpaceReferenceValues) -> Result<
    PolicyView,
    PolicyError,
> {
    match x509_pem_certificate_der(rv.root_certificate_pem@) {
        None => Err(PolicyError::InvalidRootCertificate),
        Some(root) => match rv.container_image {
            None => Ok((root, None)),
            Some(ContainerImage::ContainerImageReference(_)) => Err(
                PolicyError::ContainerImageReferenceNotSupported,
            ),
            Some(ContainerImage::CosignReferenceValues(proto)) => match cosign_from_proto_spec(
                proto,
            ) {
                Ok(c) => Ok((root, Some(c))),
                Err(e) => Err(PolicyError::InvalidCosignReferenceValues(e)),
            },
        },
    }
}

/// A policy result by the policy's view.
pub open spec fn policy_result_view(r: Result<ConfidentialSpacePolicy, PolicyError>) -> Result<
    PolicyView,
    PolicyError,
> {
    match r {
        Ok(p) => Ok(p@),
        Err(e) => Err(e),
    }
}

/// Generates a policy that checks that the workload runs on Confidential
/// Space under the given root certificate, which must therefore always be
/// given, and, where Cosign reference values are given, that its container
/// image is endorsed.
pub fn confidential_space_policy_from_reference_values(
    reference_values: &ConfidentialSpaceReferenceValues,
) -> (res: Result<ConfidentialSpacePolicy, PolicyError>)
    ensures
        policy_result_view(res) == policy_from_reference_values_spec(*reference_values),
        reference_values.root_certificate_pem@.len() == 0 ==> res matches Err(
            PolicyError::InvalidRootCertificate,
        ),
{
    let root_certificate = match certificate_der_from_pem(&reference_values.root_certificate_pem) {
        Some(der) => der,
        None => {
            return Err(PolicyError::InvalidRootCertificate);
        },
    };
    match &reference_values.container_image {
        Some(ContainerImage::CosignReferenceValues(proto)) => {
            match CosignReferenceValues::from_proto(proto) {
                Ok(cosign) => Ok(ConfidentialSpacePolicy::new(root_certificate, cosign)),
                Err(e) => Err(PolicyError::InvalidCosignReferenceValues(e)),
            }
        },
        Some(ContainerImage::ContainerImageReference(_)) => Err(
            PolicyError::ContainerImageReferenceNotSupported,
        ),
        None => Ok(ConfidentialSpacePolicy::new_unendorsed(root_certificate)),
    }
}

/// Parsed Cosign reference values hold the parse of the proto's developer
/// key as their developer key, and the parse of the proto's Rekor key (if
/// any) as their Rekor key; parsing succeeds exactly when the developer key
/// is given and both given keys parse.
pub proof fn lemma_cosign_keys_come_from_their_fields(proto: CosignReferenceValuesProto)
    ensures
        cosign_from_proto_spec(proto) is Ok <==> {
            &&& proto.developer_public_key is Some
            &&& parse_key_spec(
                proto.developer_public_key.unwrap().key_type,
                proto.developer_public_key.unwrap().raw@,
            ) is Ok
            &&& proto.rekor_public_key matches Some(r) ==> parse_key_spec(
                r.key_type,
                r.raw@,
            ) is Ok
        },
        cosign_from_proto_spec(proto) matches Ok(v) ==> {
            &&& proto.developer_public_key matches Some(d) && parse_key_spec(d.key_type, d.raw@)
                == Ok::<Seq<u8>, KeyError>(v.0)
            &&& match proto.rekor_public_key {
                Some(r) => v.1 matches Some(k) && parse_key_spec(r.key_type, r.raw@) == Ok::<
                    Seq<u8>,
                    KeyError,
                >(k),
                None => v.1 is None,
            }
        },
{
}

/// A generated policy holds the DER of the given root certificate and, for
/// Cosign reference values, their developer key and Rekor key as parsed
/// from the corresponding proto fields.
pub proof fn lemma_policy_keys_come_from_their_fields(rv: ConfidentialSpaceReferenceValues)
    ensures
        policy_from_reference_values_spec(rv) matches Ok(p) ==> {
            &&& x509_pem_certificate_der(rv.root_certificate_pem@) == Some(p.0)
            &&& match rv.container_image {
                Some(ContainerImage::CosignReferenceValues(proto)) => p.1 matches Some(c) && {
                    &&& proto.developer_public_key matches Some(d) && parse_key_spec(
                        d.key_type,
                        d.raw@,
                    ) == Ok::<Seq<u8>, KeyError>(c.0)
                    &&& match proto.rekor_public_key {
                        Some(r) => c.1 matches Some(k) && parse_key_spec(r.key_type, r.raw@)
                            == Ok::<Seq<u8>, KeyError>(k),
                        None => c.1 is None,
                    }
                },
                _ => p.1 is None,
            }
        },
{
    if let Some(ContainerImage::CosignReferenceValues(proto)) = rv.container_image {
        lemma_cosign_keys_come_from_their_fields(proto);
    }
}

} // verus!
