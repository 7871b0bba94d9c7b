use oak_utils::serial::{SerialBackend, SevStatus, COM2_BASE, SEV_ENABLED, SEV_ES_ENABLED, SNP_ACTIVE};

#[test]
fn backend_for_plain_guest_is_direct() {
    let status = SevStatus { bits: 0 };
    assert_eq!(SerialBackend::for_sev_status(&status), SerialBackend::Direct);
    let status = SevStatus { bits: SEV_ENABLED };
    assert_eq!(SerialBackend::for_sev_status(&status), SerialBackend::Direct);
}

#[test]
fn backend_for_sev_es_guest_is_ghcb() {
    let status = SevStatus { bits: SEV_ENABLED | SEV_ES_ENABLED };
    assert_eq!(SerialBackend::for_sev_status(&status), SerialBackend::Ghcb);
    let status = SevStatus { bits: SEV_ENABLED | SEV_ES_ENABLED | SNP_ACTIVE };
    assert_eq!(SerialBackend::for_sev_status(&status), SerialBackend::Ghcb);
}

#[test]
fn sev_status_contains() {
    let status = SevStatus { bits: 0b101 };
    assert!(status.contains(SEV_ENABLED));
    assert!(!status.contains(SEV_ES_ENABLED));
    assert!(status.contains(SEV_ENABLED | SNP_ACTIVE));
    assert!(status.contains(0));
}

#[test]
fn com2_base_port() {
    assert_eq!(COM2_BASE, 0x2f8);
}
