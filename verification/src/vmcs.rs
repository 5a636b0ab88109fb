//! The VMXON and VMCS regions, instruction-outcome classification, and the
//! computed VMCS field groups.
//!
//! Both regions are 4 KiB, 4 KiB-aligned and physically contiguous; their
//! first 32 bits hold the VMCS revision identifier with bit 31 clear. The
//! host populates the VMCS from three computed field groups: the guest
//! area seeded from the captured context and the current descriptor
//! tables, the host area drawn from the synthesized host GDT, and the
//! execution controls folded against the capability MSRs.

use vstd::prelude::*;

use crate::error::HypervisorError;
use crate::gdt::UnpackedGdtEntry;

verus! {

/// The byte length of the VMXON and VMCS regions.
pub const REGION_SIZE: usize = 4096;

/// The bytes of a region beyond the leading revision identifier.
pub const REGION_DATA_SIZE: usize = 4092;

/// The VMXON region that enables VMX operation on one logical processor.
/// It is constructed before VMXON and must outlive VMXOFF.
pub struct Vmxon {
    /// The VMCS revision identifier, in the region's first 32 bits, bit 31
    /// clear.
    pub revision_id: u32,
    /// The rest of the 4 KiB region; the processor owns its contents.
    pub data: Vec<u8>,
}

/// The VMCS region holding the guest, host and control state of one
/// virtual machine. One VMCS is current per logical processor at a time.
pub struct Vmcs {
    /// The VMCS revision identifier, in the region's first 32 bits, bit 31
    /// clear.
    pub revision_id: u32,
    /// The rest of the 4 KiB region; the processor owns its contents.
    pub data: Vec<u8>,
}

/// The low 31 bits of IA32_VMX_BASIC: the VMCS revision identifier, with
/// bit 31 cleared as VMXON and VMPTRLD demand.
pub open spec fn spec_vmcs_revision_id(vmx_basic: u64) -> u32 {
    (vmx_basic as u32) & 0x7FFF_FFFF
}

/// Extracts the VMCS revision identifier from the IA32_VMX_BASIC value:
/// its low 31 bits, with bit 31 cleared.
pub fn get_vmcs_revision_id(vmx_basic: u64) -> (r: u32)
    ensures
        r == spec_vmcs_revision_id(vmx_basic),
        r & 0x8000_0000u32 == 0,
        r == (vmx_basic as u32) & 0x7FFF_FFFFu32,
{
    let low: u32 = #[verifier::truncate] (vmx_basic as u32);
    let r: u32 = low & 0x7FFF_FFFF;
    proof {
        assert((low & 0x7FFF_FFFFu32) & 0x8000_0000u32 == 0) by (bit_vector);
    }
    r
}

/// A zeroed vector of the given length.
fn zeroed_bytes(n: usize) -> (r: Vec<u8>)
    ensures
        r@ == Seq::<u8>::new(n as nat, |i: int| 0u8),
{
    let mut bytes: Vec<u8> = Vec::new();
    let mut i: usize = 0;
    while i < n
        invariant
            i <= n,
            bytes@ == Seq::<u8>::new(i as nat, |k: int| 0u8),
        decreases n - i,
    {
        bytes.push(0u8);
        i = i + 1;
        assert(bytes@ =~= Seq::<u8>::new(i as nat, |k: int| 0u8));
    }
    bytes
}

impl Vmxon {
    /// A zeroed VMXON region.
    pub fn new() -> (r: Vmxon)
        ensures
            r.revision_id == 0,
            r.data@ == Seq::<u8>::new(REGION_DATA_SIZE as nat, |i: int| 0u8),
    {
        Vmxon { revision_id: 0, data: zeroed_bytes(REGION_DATA_SIZE) }
    }

    /// Writes the VMCS revision identifier from IA32_VMX_BASIC into the
    /// region's first word, bit 31 clear.
    pub fn set_revision_id(&mut self, vmx_basic: u64)
        ensures
            final(self).revision_id == spec_vmcs_revision_id(vmx_basic),
            final(self).revision_id & 0x8000_0000u32 == 0,
            final(self).revision_id == (vmx_basic as u32) & 0x7FFF_FFFFu32,
            final(self).data == old(self).data,
    {
        self.revision_id = get_vmcs_revision_id(vmx_basic);
    }
}

impl Vmcs {
    /// A zeroed VMCS region.
    pub fn new() -> (r: Vmcs)
        ensures
            r.revision_id == 0,
            r.data@ == Seq::<u8>::new(REGION_DATA_SIZE as nat, |i: int| 0u8),
    {
        Vmcs { revision_id: 0, data: zeroed_bytes(REGION_DATA_SIZE) }
    }

    /// Writes the VMCS revision identifier from IA32_VMX_BASIC into the
    /// region's first word, bit 31 clear.
    pub fn set_revision_id(&mut self, vmx_basic: u64)
        ensures
            final(self).revision_id == spec_vmcs_revision_id(vmx_basic),
            final(self).revision_id & 0x8000_0000u32 == 0,
            final(self).revision_id == (vmx_basic as u32) & 0x7FFF_FFFFu32,
            final(self).data == old(self).data,
    {
        self.revision_id = get_vmcs_revision_id(vmx_basic);
    }
}

/// The RFLAGS zero flag, set by a failed VMX instruction with a valid
/// current VMCS.
pub const RFLAGS_ZF: u64 = 0x40;

/// The RFLAGS carry flag, set by a failed VMX instruction without a valid
/// current VMCS.
pub const RFLAGS_CF: u64 = 0x1;

/// Classifies the RFLAGS value left by a VMX instruction: ZF set means the
/// instruction failed with a valid current VMCS and the VM-instruction
/// error number says why; CF set means it failed without one; otherwise it
/// succeeded.
pub fn vm_succeed(flags: u64, instruction_error: u64) -> (r: Result<(), HypervisorError>)
    ensures
        flags & RFLAGS_ZF != 0 ==> r == Err::<(), HypervisorError>(
            HypervisorError::VmFailValid(instruction_error),
        ),
        flags & RFLAGS_ZF == 0 && flags & RFLAGS_CF != 0 ==> r == Err::<(), HypervisorError>(
            HypervisorError::VmFailInvalid,
        ),
        flags & RFLAGS_ZF == 0 && flags & RFLAGS_CF == 0 ==> r == Ok::<(), HypervisorError>(()),
        r is Ok <==> (flags & RFLAGS_ZF == 0 && flags & RFLAGS_CF == 0),
{
    if flags & RFLAGS_ZF != 0 {
        Err(HypervisorError::VmFailValid(instruction_error))
    } else if flags & RFLAGS_CF != 0 {
        Err(HypervisorError::VmFailInvalid)
    } else {
        Ok(())
    }
}

/// Everything the host reads from the running processor before populating
/// the VMCS: control registers, descriptor tables, segment selectors, and
/// the model-specific registers the guest and host areas pass through.
pub struct CpuSnapshot {
    /// Current control registers.
    pub cr0: u64,
    pub cr3: u64,
    pub cr4: u64,
    /// The current GDT, one raw 8-byte entry per element.
    pub gdt: Vec<u64>,
    /// Current GDTR and IDTR.
    pub gdtr_base: u64,
    pub gdtr_limit: u16,
    pub idtr_base: u64,
    pub idtr_limit: u16,
    /// Current segment selectors.
    pub cs: u16,
    pub ss: u16,
    pub ds: u16,
    pub es: u16,
    pub fs: u16,
    pub gs: u16,
    pub ldtr: u16,
    pub tr: u16,
    /// FS and GS bases from their MSRs; in long mode they override the GDT.
    pub fs_base: u64,
    pub gs_base: u64,
    /// MSRs passed through to the guest area.
    pub debugctl: u64,
    pub sysenter_cs: u64,
    pub sysenter_esp: u64,
    pub sysenter_eip: u64,
    /// IA32_FEATURE_CONTROL.
    pub feature_control: u64,
    /// IA32_VMX_BASIC.
    pub vmx_basic: u64,
    /// The CR0 and CR4 fixup MSRs.
    pub cr0_fixed0: u64,
    pub cr0_fixed1: u64,
    pub cr4_fixed0: u64,
    pub cr4_fixed1: u64,
    /// The capability MSR values for each control class, each read from
    /// the MSR `vmx_capability_msr` picks for the class.
    pub pin_based_caps: u64,
    pub processor_based_caps: u64,
    pub processor_based_caps2: u64,
    pub exit_caps: u64,
    pub entry_caps: u64,
}

/// The addresses only the host environment knows: where its allocations
/// landed physically and where the exit trampoline and host stack live.
pub struct HostResources {
    /// Physical address of the VMXON region; zero when translation failed.
    pub vmxon_pa: u64,
    /// Physical address of the VMCS region; zero when translation failed.
    pub vmcs_pa: u64,
    /// Address of the task-state segment the host GDT points TR at.
    pub tss_base: u64,
    /// Address of the cloned host GDT.
    pub gdt_base: u64,
    /// Address of the VM-exit trampoline: the host RIP.
    pub host_rip: u64,
    /// Top of the dedicated per-processor host stack: the host RSP.
    pub host_rsp: u64,
}

/// The computed guest-state area: control and debug registers, RIP, RSP
/// and RFLAGS from the captured context, the eight segments from the
/// current GDT, the descriptor tables, and the pass-through MSRs.
#[derive(Debug)]
pub struct GuestArea {
    pub cr0: u64,
    pub cr3: u64,
    pub cr4: u64,
    pub dr7: u64,
    pub rsp: u64,
    pub rip: u64,
    pub rflags: u64,
    pub cs: UnpackedGdtEntry,
    pub ss: UnpackedGdtEntry,
    pub ds: UnpackedGdtEntry,
    pub es: UnpackedGdtEntry,
    pub fs: UnpackedGdtEntry,
    pub gs: UnpackedGdtEntry,
    pub ldtr: UnpackedGdtEntry,
    pub tr: UnpackedGdtEntry,
    pub gdtr_base: u64,
    pub gdtr_limit: u16,
    pub idtr_base: u64,
    pub idtr_limit: u16,
    pub debugctl: u64,
    pub sysenter_cs: u64,
    pub sysenter_esp: u64,
    pub sysenter_eip: u64,
    /// The VMCS link pointer: all ones.
    pub link_pointer: u64,
}

/// The computed host-state area: selectors masked to their index bits,
/// bases for FS, GS, TR, GDTR and IDTR, the SYSENTER MSRs, and the entry
/// point and stack the processor loads on VM-exit.
#[derive(Debug)]
pub struct HostArea {
    pub cr0: u64,
    pub cr3: u64,
    pub cr4: u64,
    pub cs: u16,
    pub ss: u16,
    pub ds: u16,
    pub es: u16,
    pub fs: u16,
    pub gs: u16,
    pub tr: u16,
    pub fs_base: u64,
    pub gs_base: u64,
    pub tr_base: u64,
    pub gdtr_base: u64,
    pub idtr_base: u64,
    pub sysenter_cs: u64,
    pub sysenter_esp: u64,
    pub sysenter_eip: u64,
    pub rip: u64,
    pub rsp: u64,
}

/// The computed execution, entry and exit controls, each folded against
/// its capability MSR, and the control-register read shadows.
#[derive(Debug)]
pub struct ControlArea {
    pub pin_based: u64,
    pub primary_processor_based: u64,
    pub secondary_processor_based: u64,
    pub vmentry: u64,
    pub vmexit: u64,
    pub cr0_read_shadow: u64,
    pub cr4_read_shadow: u64,
}

} // verus!
