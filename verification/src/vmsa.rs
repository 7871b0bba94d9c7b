//! The initial VM save areas (VMSAs) of the vCPUs of an SEV-SNP guest, as
//! used to compute its launch measurement.

use vstd::prelude::*;

verus! {

/// Size of a 4 KiB page.
pub const PAGE_SIZE_4K: u64 = 4096;

/// The guest-physical address of the VMSA page. The same fixed address is
/// used for all VMSA pages: the start of the last 4 KiB page that can be
/// addressed with 48 physical address bits, the most that AMD "Milan" CPUs
/// support with SEV-SNP enabled.
pub const VMSA_ADDRESS: u64 = 0x1_0000_0000_0000 - PAGE_SIZE_4K;

/// The guest-physical address of the VMSA page that QEMU uses.
pub const VMSA_ADDRESS_QEMU: u64 = 0xfffffffff000;

/// The VMSA address is the last 4 KiB page below 2^48, and QEMU uses the
/// same page.
pub proof fn lemma_vmsa_addresses()
    ensures
        VMSA_ADDRESS % PAGE_SIZE_4K == 0,
        VMSA_ADDRESS + PAGE_SIZE_4K == 0x1_0000_0000_0000,
        VMSA_ADDRESS_QEMU == VMSA_ADDRESS,
{
}

/// The family, model and stepping of a CPU, as CPUID leaf 1 reports them in
/// EAX: stepping in bits 0-3, base model in bits 4-7, base family in bits
/// 8-11, extended model in bits 16-19 and extended family in bits 20-27.
/// A family above 15 is split into a base family of 15 and the rest as
/// extended family.
pub open spec fn cpuid_signature(family: u8, model: u8, stepping: u8) -> int {
    let family_low: int = if family > 0xf { 0xf } else { family as int };
    let family_high: int = if family > 0xf { family - 0xf } else { 0 };
    family_high * 0x100000 + (model / 16) * 0x10000 + family_low * 0x100 + (model % 16) * 0x10
        + stepping % 16
}

/// The value of RDX at vCPU reset: the CPUID signature of the CPU.
pub fn calculate_rdx_from_fms(family: u8, model: u8, stepping: u8) -> (res: u64)
    ensures
        res == cpuid_signature(family, model, stepping),
        res < 0x1000_0000,
{
    let (family_low, family_high): (u64, u64) = if family > 0xf {
        (0xf, (family - 0xf) as u64)
    } else {
        (family as u64, 0)
    };
    let model_low: u64 = (model & 0xf) as u64;
    let model_high: u64 = ((model >> 4) & 0xf) as u64;
    let stepping_low: u64 = (stepping & 0xf) as u64;
    assert(model & 0xf == model % 16 && (model >> 4) & 0xf == model / 16 && stepping & 0xf
        == stepping % 16) by (bit_vector);
    assert(family_high << 20 == family_high * 0x100000 && model_high << 16 == model_high * 0x10000
        && family_low << 8 == family_low * 0x100 && model_low << 4 == model_low * 0x10
        && (family_high << 20) | (model_high << 16) | (family_low << 8) | (model_low << 4)
        | stepping_low == (family_high << 20) + (model_high << 16) + (family_low << 8) + (model_low
        << 4) + stepping_low) by (bit_vector)
        requires
            family_high < 0x100,
            model_high < 0x10,
            family_low < 0x10,
            model_low < 0x10,
            stepping_low < 0x10,
    ;
    (family_high << 20) | (model_high << 16) | (family_low << 8) | (model_low << 4) | stepping_low
}

/// Reading the CPUID signature back gives the family (base plus extended
/// family), the model (extended model above base model) and the stepping
/// below 16.
pub proof fn lemma_cpuid_signature_decodes(family: u8, model: u8, stepping: u8)
    requires
        stepping < 16,
    ensures
        ({
            let sig = cpuid_signature(family, model, stepping);
            &&& (sig / 0x100) % 16 + (sig / 0x100000) % 0x100 == family
            &&& ((sig / 0x10000) % 16) * 16 + (sig / 0x10) % 16 == model
            &&& sig % 16 == stepping
        }),
{
    let sig = cpuid_signature(family, model, stepping);
    let family_low: int = if family > 0xf { 0xf } else { family as int };
    let family_high: int = if family > 0xf { family - 0xf } else { 0 };
    let mh: int = (model / 16) as int;
    let ml: int = (model % 16) as int;
    let st: int = stepping as int;
    assert(sig == family_high * 0x100000 + mh * 0x10000 + family_low * 0x100 + ml * 0x10 + st);
    assert(0 <= family_high < 0x100 && 0 <= mh < 16 && 0 <= family_low < 16 && 0 <= ml < 16 && 0
        <= st < 16);
    assert((sig / 0x100) % 16 == family_low && (sig / 0x100000) % 0x100 == family_high && (sig
        / 0x10000) % 16 == mh && (sig / 0x10) % 16 == ml && sig % 16 == st) by (nonlinear_arith)
        requires
            sig == family_high * 0x100000 + mh * 0x10000 + family_low * 0x100 + ml * 0x10 + st,
            0 <= family_high < 0x100,
            0 <= mh < 16,
            0 <= family_low < 16,
            0 <= ml < 16,
            0 <= st < 16,
    ;
}

/// A segment register as the VMSA holds it.
#[derive(Debug, Clone, Copy, PartialEq, Eq, Structural)]
pub struct VmsaSegmentRegister {
    pub selector: u16,
    pub attrib: u16,
    pub limit: u32,
    pub base: u64,
}

/// The registers of a vCPU that its VMSA holds at launch; all others are
/// zero.
#[derive(Debug, Clone, Copy, PartialEq, Eq, Structural)]
pub struct Vmsa {
    pub es: VmsaSegmentRegister,
    pub cs: VmsaSegmentRegister,
    pub ss: VmsaSegmentRegister,
    pub ds: VmsaSegmentRegister,
    pub fs: VmsaSegmentRegister,
    pub gs: VmsaSegmentRegister,
    pub gdtr: VmsaSegmentRegister,
    pub ldtr: VmsaSegmentRegister,
    pub idtr: VmsaSegmentRegister,
    pub tr: VmsaSegmentRegister,
    pub efer: u64,
    pub cr4: u64,
    pub cr0: u64,
    pub dr7: u64,
    pub dr6: u64,
    pub rflags: u64,
    pub rip: u64,
    pub g_pat: u64,
    pub rdx: u64,
    pub sev_features: u64,
    pub xcr0: u64,
    pub mxcsr: u32,
    pub x87_fcw: u16,
}

/// A 4 KiB page holding a VMSA.
#[derive(Debug, Clone, Copy, PartialEq, Eq, Structural)]
pub struct VmsaPage {
    pub vmsa: Vmsa,
}

impl VmsaPage {
    /// The page that holds `vmsa`.
    pub fn new(vmsa: Vmsa) -> (res: VmsaPage)
        ensures
            res.vmsa == vmsa,
    {
        VmsaPage { vmsa }
    }
}

/// A segment register with the given fields.
pub open spec fn segment(selector: u16, attrib: u16, limit: u32, base: u64) -> VmsaSegmentRegister {
    VmsaSegmentRegister { selector, attrib, limit, base }
}

/// The state of a vCPU at reset, with RDX holding the CPUID signature: real
/// mode, executing at 0xffff_fff0, with the power-on values of the control,
/// debug and PAT registers and SVM enabled in EFER.
pub open spec fn vcpu_boot_state(rdx: u64) -> Vmsa {
    Vmsa {
        es: segment(0, 0x93, 0xffff, 0),
        cs: segment(0xf000, 0x9b, 0xffff, 0xffff0000),
        ss: segment(0, 0x93, 0xffff, 0),
        ds: segment(0, 0x93, 0xffff, 0),
        fs: segment(0, 0x93, 0xffff, 0),
        gs: segment(0, 0x93, 0xffff, 0),
        gdtr: segment(0, 0, 0xffff, 0),
        ldtr: segment(0, 0x82, 0xffff, 0),
        idtr: segment(0, 0, 0xffff, 0),
        tr: segment(0, 0x83, 0xffff, 0),
        efer: 0x1000,
        cr4: 0x40,
        cr0: 0x10,
        dr7: 0x400,
        dr6: 0xffff0ff0,
        rflags: 0x2,
        rip: 0xfff0,
        g_pat: 0x0007040600070406,
        rdx,
        sev_features: 0,
        xcr0: 0x1,
        mxcsr: 0,
        x87_fcw: 0,
    }
}

/// A segment register with the given fields.
fn new_segment(selector: u16, attrib: u16, limit: u32, base: u64) -> (res: VmsaSegmentRegister)
    ensures
        res == segment(selector, attrib, limit, base),
{
    VmsaSegmentRegister { selector, attrib, limit, base }
}

impl Vmsa {
    /// The VMSA of a vCPU at reset, with RDX holding the given value.
    pub fn new_vcpu_boot(rdx: u64) -> (res: Vmsa)
        ensures
            res == vcpu_boot_state(rdx),
    {
        Vmsa {
            es: new_segment(0, 0x93, 0xffff, 0),
            cs: new_segment(0xf000, 0x9b, 0xffff, 0xffff0000),
            ss: new_segment(0, 0x93, 0xffff, 0),
            ds: new_segment(0, 0x93, 0xffff, 0),
            fs: new_segment(0, 0x93, 0xffff, 0),
            gs: new_segment(0, 0x93, 0xffff, 0),
            gdtr: new_segment(0, 0, 0xffff, 0),
            ldtr: new_segment(0, 0x82, 0xffff, 0),
            idtr: new_segment(0, 0, 0xffff, 0),
            tr: new_segment(0, 0x83, 0xffff, 0),
            efer: 0x1000,
            cr4: 0x40,
            cr0: 0x10,
            dr7: 0x400,
            dr6: 0xffff0ff0,
            rflags: 0x2,
            rip: 0xfff0,
            g_pat: 0x0007040600070406,
            rdx,
            sev_features: 0,
            xcr0: 0x1,
            mxcsr: 0,
            x87_fcw: 0,
        }
    }
}

/// The VMSA of the boot vCPU for the measurement: the reset state with the
/// CPU's signature in RDX and SEV-SNP enabled in the SEV features; for QEMU
/// compatibility the MXCSR and x87 control word hold their initial values,
/// otherwise the PAT holds 0x00070106.
pub open spec fn boot_vmsa_spec(family: u8, model: u8, stepping: u8, qemu_compat: bool) -> Vmsa {
    let reset = vcpu_boot_state(cpuid_signature(family, model, stepping) as u64);
    if qemu_compat {
        Vmsa { mxcsr: 0x1f80, x87_fcw: 0x37f, sev_features: 1, ..reset }
    } else {
        Vmsa { g_pat: 0x00070106, sev_features: 1, ..reset }
    }
}

/// Gets the initial VMSA for the vCPU that is used to boot the VM, with
/// optional QEMU compatibility.
pub fn get_boot_vmsa(family: u8, model: u8, stepping: u8, qemu_compat: bool) -> (res: VmsaPage)
    ensures
        res.vmsa == boot_vmsa_spec(family, model, stepping, qemu_compat),
{
    let rdx_value = calculate_rdx_from_fms(family, model, stepping);
    let mut result = VmsaPage::new(Vmsa::new_vcpu_boot(rdx_value));
    // A slightly different initial state is expected for the measurement.
    if qemu_compat {
        result.vmsa.mxcsr = 0x1f80;
        result.vmsa.x87_fcw = 0x37f;
    } else {
        result.vmsa.g_pat = 0x00070106;
    }
    result.vmsa.sev_features = 0x00000001;
    result
}

/// Where additional vCPUs start: the SEV-ES reset block of the firmware.
#[derive(Debug, Clone, Copy, PartialEq, Eq, Structural)]
pub struct SevEsResetBlock {
    /// Instruction pointer at which additional vCPUs start.
    pub rip: u64,
    /// Base of their code segment.
    pub segment_base: u64,
}

/// The VMSA of an additional vCPU: that of the boot vCPU, starting where
/// the reset block says.
pub open spec fn ap_vmsa_spec(
    reset_block: SevEsResetBlock,
    family: u8,
    model: u8,
    stepping: u8,
    qemu_compat: bool,
) -> Vmsa {
    let boot = boot_vmsa_spec(family, model, stepping, qemu_compat);
    Vmsa {
        rip: reset_block.rip,
        cs: VmsaSegmentRegister { base: reset_block.segment_base, ..boot.cs },
        ..boot
    }
}

/// Gets the initial VMSA for additional vCPUs that are not the boot vCPU,
/// with optional QEMU compatibility.
pub fn get_ap_vmsa(
    reset_block: &SevEsResetBlock,
    family: u8,
    model: u8,
    stepping: u8,
    qemu_compat: bool,
) -> (res: VmsaPage)
    ensures
        res.vmsa == ap_vmsa_spec(*reset_block, family, model, stepping, qemu_compat),
{
    let mut result = get_boot_vmsa(family, model, stepping, qemu_compat);
    result.vmsa.rip = reset_block.rip;
    result.vmsa.cs.base = reset_block.segment_base;
    result
}

/// The boot VMSA starts the vCPU in its reset state (real mode at
/// 0xffff_fff0, with the CPU's signature in RDX) with SEV-SNP enabled. With
/// QEMU compatibility it carries QEMU's initial MXCSR and x87 control word
/// and the power-on PAT; without it, the PAT is 0x00070106 and MXCSR and the
/// x87 control word are zero.
pub proof fn lemma_boot_vmsa_state(family: u8, model: u8, stepping: u8, qemu_compat: bool)
    ensures
        ({
            let v = boot_vmsa_spec(family, model, stepping, qemu_compat);
            &&& v.rdx == cpuid_signature(family, model, stepping)
            &&& v.sev_features == 1
            &&& v.rip == 0xfff0
            &&& v.cs.selector == 0xf000 && v.cs.base == 0xffff0000
            &&& v.efer == 0x1000 && v.cr0 == 0x10 && v.cr4 == 0x40 && v.rflags == 0x2
            &&& v.xcr0 == 1
            &&& qemu_compat ==> v.mxcsr == 0x1f80 && v.x87_fcw == 0x37f && v.g_pat
                == 0x0007040600070406
            &&& !qemu_compat ==> v.mxcsr == 0 && v.x87_fcw == 0 && v.g_pat == 0x00070106
        }),
{
    let sig = cpuid_signature(family, model, stepping);
    assert(0 <= sig < 0x1000_0000) by {
        let fl: int = if family > 0xf { 0xf } else { family as int };
        let fh: int = if family > 0xf { family - 0xf } else { 0 };
        assert(0 <= fh < 0x100 && 0 <= fl < 0x10);
        assert(0 <= model / 16 < 16 && 0 <= model % 16 < 16 && 0 <= stepping % 16 < 16);
    }
}

/// An additional vCPU's VMSA is the boot VMSA for the same CPU and the same
/// QEMU-compatibility flag, except that it starts at the reset block's
/// instruction pointer with the reset block's code segment base.
pub proof fn lemma_ap_vmsa_is_boot_vmsa_at_reset_block(
    reset_block: SevEsResetBlock,
    family: u8,
    model: u8,
    stepping: u8,
    qemu_compat: bool,
)
    ensures
        ({
            let ap = ap_vmsa_spec(reset_block, family, model, stepping, qemu_compat);
            let boot = boot_vmsa_spec(family, model, stepping, qemu_compat);
            &&& ap.rip == reset_block.rip
            &&& ap.cs.base == reset_block.segment_base
            &&& ap.cs.selector == boot.cs.selector && ap.cs.attrib == boot.cs.attrib
                && ap.cs.limit == boot.cs.limit
            &&& Vmsa { rip: boot.rip, cs: boot.cs, ..ap } == boot
            &&& !qemu_compat ==> ap.g_pat == 0x00070106 && ap.mxcsr == 0 && ap.x87_fcw == 0
            &&& qemu_compat ==> ap.mxcsr == 0x1f80 && ap.x87_fcw == 0x37f
        }),
{
    lemma_boot_vmsa_state(family, model, stepping, qemu_compat);
}

} // verus!
