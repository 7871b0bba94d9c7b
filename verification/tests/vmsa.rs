use oak_utils::vmsa::{
    calculate_rdx_from_fms, get_ap_vmsa, get_boot_vmsa, SevEsResetBlock, Vmsa, VMSA_ADDRESS,
    VMSA_ADDRESS_QEMU,
};

#[test]
fn rdx_for_milan_and_genoa() {
    assert_eq!(calculate_rdx_from_fms(0x19, 0x01, 0x01), 0x00a0_0f11);
    assert_eq!(calculate_rdx_from_fms(0x19, 0x11, 0x00), 0x00a1_0f10);
    assert_eq!(calculate_rdx_from_fms(0x06, 0x55, 0x07), 0x0005_0657);
    assert_eq!(calculate_rdx_from_fms(0x0f, 0x00, 0x1f), 0x0000_0f0f);
}

#[test]
fn vmsa_addresses() {
    assert_eq!(VMSA_ADDRESS, 0xffff_ffff_f000);
    assert_eq!(VMSA_ADDRESS_QEMU, VMSA_ADDRESS);
}

#[test]
fn boot_vmsa_qemu() {
    let page = get_boot_vmsa(0x19, 0x01, 0x01, true);
    let vmsa = page.vmsa;
    assert_eq!(vmsa.rdx, 0x00a0_0f11);
    assert_eq!(vmsa.mxcsr, 0x1f80);
    assert_eq!(vmsa.x87_fcw, 0x37f);
    assert_eq!(vmsa.g_pat, 0x0007_0406_0007_0406);
    assert_eq!(vmsa.sev_features, 1);
    assert_eq!(vmsa.rip, 0xfff0);
    assert_eq!(vmsa.cs.selector, 0xf000);
    assert_eq!(vmsa.cs.base, 0xffff_0000);
}

#[test]
fn boot_vmsa_without_qemu() {
    let vmsa = get_boot_vmsa(0x19, 0x01, 0x01, false).vmsa;
    assert_eq!(vmsa.g_pat, 0x0007_0106);
    assert_eq!(vmsa.mxcsr, 0);
    assert_eq!(vmsa.x87_fcw, 0);
    assert_eq!(vmsa.sev_features, 1);
    let reset = Vmsa::new_vcpu_boot(0x00a0_0f11);
    assert_eq!(Vmsa { g_pat: 0x0007_0106, sev_features: 1, ..reset }, vmsa);
}

#[test]
fn ap_vmsa_starts_at_reset_block() {
    let reset_block = SevEsResetBlock { rip: 0xb000, segment_base: 0xffff_0000 - 0x1_0000 };
    let boot = get_boot_vmsa(0x19, 0x11, 0x00, true).vmsa;
    let ap = get_ap_vmsa(&reset_block, 0x19, 0x11, 0x00, true).vmsa;
    assert_eq!(ap.rip, 0xb000);
    assert_eq!(ap.cs.base, 0xfffe_0000);
    let mut expected = boot;
    expected.rip = 0xb000;
    expected.cs.base = 0xfffe_0000;
    assert_eq!(ap, expected);
}
