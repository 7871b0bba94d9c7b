use oak_utils::crypto::{p256_ecdsa_verifying_key_to_proto, ProtoVerifyingKey, VerifyingKey};
use oak_utils::policy::{
    confidential_space_policy_from_reference_values, ConfidentialSpaceReferenceValues,
    ContainerImage, CosignError, CosignReferenceValuesProto, PolicyError,
};
use oak_utils::crypto::KeyError;
use p256::pkcs8::DecodePublicKey;

const ROOT_CA_CERT_PEM: &str = "-----BEGIN CERTIFICATE-----
MIIBLzCB1qADAgECAgEBMAoGCCqGSM49BAMCMBcxFTATBgNVBAMMDFRlc3QgUm9v
dCBDQTAeFw0yNTAxMDEwMDAwMDBaFw0zNDEyMzAwMDAwMDBaMBcxFTATBgNVBAMM
DFRlc3QgUm9vdCBDQTBZMBMGByqGSM49AgEGCCqGSM49AwEHA0IABBu09iesQ8Dx
9d4wWH1t50C7TuMQz8Uu8xiF8yILwVyRPrBz+F6u1WjjuprYHwep9+/nX2iCYRLs
yFKbFN1Dac2jEzARMA8GA1UdEwEB/wQFMAMBAf8wCgYIKoZIzj0EAwIDSAAwRQIh
AIVZdC4ItfIrIh0sqbG467wlMchlGbrIJmScZemAJhFSAiBpz52sWvJWMWK+ibTz
aAlecHqpQ/CMVupslsVgNFdm9w==
-----END CERTIFICATE-----
";

const DEVELOPER_KEY_PUB_PEM: &str = "-----BEGIN PUBLIC KEY-----
MFkwEwYHKoZIzj0CAQYIKoZIzj0DAQcDQgAEt70JMab/UjpD2LDL35nfUy4tiyj+
wqY5Poqh+pKQqiE++OlMHJ0qVTjVkuWMZpUdFJ0R4asYg4FhcQ+/veKDHg==
-----END PUBLIC KEY-----
";

fn developer_public_key() -> VerifyingKey {
    let key = p256::ecdsa::VerifyingKey::from_public_key_pem(DEVELOPER_KEY_PUB_PEM).unwrap();
    VerifyingKey::from_sec1_bytes(&key.to_sec1_bytes()).unwrap()
}

fn cosign_reference_values() -> CosignReferenceValuesProto {
    CosignReferenceValuesProto {
        developer_public_key: Some(p256_ecdsa_verifying_key_to_proto(&developer_public_key())),
        ..Default::default()
    }
}

#[test]
fn confidential_space_complete_policy_generated() {
    let root_certificate_pem = ROOT_CA_CERT_PEM.to_string();
    let reference_values = ConfidentialSpaceReferenceValues {
        root_certificate_pem,
        container_image: Some(ContainerImage::CosignReferenceValues(cosign_reference_values())),
    };

    let policy = confidential_space_policy_from_reference_values(&reference_values);

    assert!(policy.is_ok(), "Failed: {:?}", policy.err().unwrap());
}

#[test]
fn confidential_space_policy_no_cosign_reference_values() {
    let root_certificate_pem = ROOT_CA_CERT_PEM.to_string();

    let reference_values =
        ConfidentialSpaceReferenceValues { root_certificate_pem, container_image: None };

    let policy = confidential_space_policy_from_reference_values(&reference_values);
    assert!(policy.is_ok(), "Failed: {:?}", policy.err().unwrap());
}

#[test]
fn confidential_space_policy_no_root_certificate() {
    let reference_values = ConfidentialSpaceReferenceValues {
        root_certificate_pem: "".to_string(),
        container_image: Some(ContainerImage::CosignReferenceValues(cosign_reference_values())),
    };

    let policy = confidential_space_policy_from_reference_values(&reference_values);
    assert!(policy.is_err(), "Policy succeeded when it should have failed");
}

#[test]
fn policy_holds_root_certificate_and_keys() {
    let reference_values = ConfidentialSpaceReferenceValues {
        root_certificate_pem: ROOT_CA_CERT_PEM.to_string(),
        container_image: Some(ContainerImage::CosignReferenceValues(cosign_reference_values())),
    };
    let policy = confidential_space_policy_from_reference_values(&reference_values).unwrap();
    let der = policy.root_certificate_der();
    // A DER SEQUENCE with a two-byte long-form length (0x012f bytes).
    assert_eq!(&der[..4], &[0x30, 0x82, 0x01, 0x2f]);
    assert_eq!(der.len(), 0x12f + 4);
    let cosign = policy.cosign_reference_values().unwrap();
    assert_eq!(cosign.developer_public_key(), &developer_public_key());
    assert!(cosign.rekor_public_key().is_none());
}

#[test]
fn policy_without_container_image_is_unendorsed() {
    let reference_values = ConfidentialSpaceReferenceValues {
        root_certificate_pem: ROOT_CA_CERT_PEM.to_string(),
        container_image: None,
    };
    let policy = confidential_space_policy_from_reference_values(&reference_values).unwrap();
    assert!(policy.cosign_reference_values().is_none());
}

#[test]
fn policy_rejects_garbled_root_certificate() {
    let reference_values = ConfidentialSpaceReferenceValues {
        root_certificate_pem: ROOT_CA_CERT_PEM.replace("MIIB", "AAAA"),
        container_image: None,
    };
    let policy = confidential_space_policy_from_reference_values(&reference_values);
    assert_eq!(policy.err(), Some(PolicyError::InvalidRootCertificate));
}

#[test]
fn policy_rejects_container_image_reference() {
    let reference_values = ConfidentialSpaceReferenceValues {
        root_certificate_pem: ROOT_CA_CERT_PEM.to_string(),
        container_image: Some(ContainerImage::ContainerImageReference(
            "europe-docker.pkg.dev/project/image:latest".to_string(),
        )),
    };
    let policy = confidential_space_policy_from_reference_values(&reference_values);
    assert_eq!(policy.err(), Some(PolicyError::ContainerImageReferenceNotSupported));
}

#[test]
fn policy_rejects_missing_developer_key() {
    let reference_values = ConfidentialSpaceReferenceValues {
        root_certificate_pem: ROOT_CA_CERT_PEM.to_string(),
        container_image: Some(ContainerImage::CosignReferenceValues(
            CosignReferenceValuesProto::default(),
        )),
    };
    let policy = confidential_space_policy_from_reference_values(&reference_values);
    assert_eq!(
        policy.err(),
        Some(PolicyError::InvalidCosignReferenceValues(CosignError::MissingDeveloperPublicKey))
    );
}

#[test]
fn policy_rejects_invalid_rekor_key() {
    let mut cosign = cosign_reference_values();
    cosign.rekor_public_key = Some(ProtoVerifyingKey { key_type: 1, key_id: 0, raw: vec![4; 65] });
    let reference_values = ConfidentialSpaceReferenceValues {
        root_certificate_pem: ROOT_CA_CERT_PEM.to_string(),
        container_image: Some(ContainerImage::CosignReferenceValues(cosign)),
    };
    let policy = confidential_space_policy_from_reference_values(&reference_values);
    assert_eq!(
        policy.err(),
        Some(PolicyError::InvalidCosignReferenceValues(CosignError::InvalidRekorPublicKey(
            KeyError::InvalidEncoding
        )))
    );
}

#[test]
fn policy_accepts_rekor_key() {
    let mut cosign = cosign_reference_values();
    cosign.rekor_public_key = Some(p256_ecdsa_verifying_key_to_proto(&developer_public_key()));
    let reference_values = ConfidentialSpaceReferenceValues {
        root_certificate_pem: ROOT_CA_CERT_PEM.to_string(),
        container_image: Some(ContainerImage::CosignReferenceValues(cosign)),
    };
    let policy = confidential_space_policy_from_reference_values(&reference_values).unwrap();
    let cosign = policy.cosign_reference_values().unwrap();
    assert_eq!(cosign.rekor_public_key(), Some(&developer_public_key()));
}
