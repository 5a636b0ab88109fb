//! The per-processor orchestrator.
//!
//! `Vmx` owns one logical processor's VMXON region, VMCS region, shadow
//! register block, host GDT and captured context. `run` takes the processor
//! from probing to a complete launch plan: it validates the processor and
//! the firmware lock, fixes the control registers, stamps the regions with
//! the VMCS revision identifier, and computes the guest, host and control
//! field groups. The host environment then executes the plan: it writes
//! the feature-control and control registers, runs VMXON, VMCLEAR and
//! VMPTRLD on the stamped regions, writes the three field groups into the
//! VMCS, and issues VMLAUNCH.

use vstd::prelude::*;

use crate::controls::{
    ENTRY_CTL_REQUESTED, EXIT_CTL_REQUESTED, PINBASED_CTL_REQUESTED, PRIMARY_CTL_REQUESTED,
    SECONDARY_CTL_REQUESTED, adjust_vmx_controls, spec_adjust_vmx_controls,
};
use crate::error::HypervisorError;
use crate::gdt::{
    HostGdt, UnpackedGdtEntry, gdt_entries_from_raw, spec_gdt_view, spec_host_gdt_ok,
    spec_unpack_gdt_entry, unpack_gdt_entry,
};
use crate::registers::{Context, GuestRegisters};
use crate::vmcs::{
    ControlArea, CpuSnapshot, GuestArea, HostArea, HostResources, Vmcs, Vmxon,
    spec_vmcs_revision_id,
};

verus! {

/// CR4.VMXE: the bit that enables VMX operation.
pub const CR4_VMX_ENABLE: u64 = 0x2000;

/// The lock bit of IA32_FEATURE_CONTROL.
pub const FEATURE_CONTROL_LOCK: u64 = 0x1;

/// The VMXON-outside-SMX bit of IA32_FEATURE_CONTROL.
pub const FEATURE_CONTROL_VMXON_OUTSIDE_SMX: u64 = 0x4;

/// CPUID.1:ECX.VMX, bit 5: the processor supports VMX.
pub const CPUID_ECX_VMX: u32 = 0x20;

/// What CPUID says about the processor: the 12 vendor-string bytes of leaf
/// 0 and the feature ECX of leaf 1.
pub struct CpuIdentity {
    /// The vendor string bytes, in the order the vendor registers spell
    /// them.
    pub vendor: Vec<u8>,
    /// ECX of CPUID leaf 1.
    pub feature_ecx: u32,
}

/// The vendor string of an Intel processor, byte for byte.
pub open spec fn spec_genuine_intel() -> Seq<u8> {
    seq![0x47u8, 0x65u8, 0x6Eu8, 0x75u8, 0x69u8, 0x6Eu8, 0x65u8, 0x49u8, 0x6Eu8, 0x74u8, 0x65u8, 0x6Cu8]
}

/// The shadow register block seeded from a captured context: the
/// general-purpose registers are copied, while RIP, RSP and RFLAGS keep
/// their previous values because the VMCS is authoritative for them.
pub open spec fn spec_registers_from_context(ctx: Context, prev: GuestRegisters) -> GuestRegisters {
    GuestRegisters {
        rax: ctx.rax,
        rbx: ctx.rbx,
        rcx: ctx.rcx,
        rdx: ctx.rdx,
        rdi: ctx.rdi,
        rsi: ctx.rsi,
        rbp: ctx.rbp,
        r8: ctx.r8,
        r9: ctx.r9,
        r10: ctx.r10,
        r11: ctx.r11,
        r12: ctx.r12,
        r13: ctx.r13,
        r14: ctx.r14,
        r15: ctx.r15,
        rip: prev.rip,
        rsp: prev.rsp,
        rflags: prev.rflags,
    }
}

/// The guest segment fields a selector takes from the current GDT.
pub open spec fn spec_guest_segment(raw_gdt: Seq<u64>, selector: u16) -> UnpackedGdtEntry {
    spec_unpack_gdt_entry(spec_gdt_view(raw_gdt), selector)
}

/// A control register folded against its fixup MSRs: required-1 bits set,
/// required-0 bits cleared.
pub open spec fn spec_cr_fixup(cr: u64, fixed0: u64, fixed1: u64) -> u64 {
    (cr | fixed0) & fixed1
}

/// The guest-state area computed from a captured context and the running
/// processor: control registers pass through, RIP, RSP, RFLAGS and DR7
/// come from the context, each segment is unpacked from the GDT entry its
/// selector names (FS and GS bases come from their MSRs instead, which
/// override the GDT in long mode), the descriptor tables pass through, and
/// the link pointer is all ones.
pub open spec fn spec_guest_area(ctx: Context, s: CpuSnapshot) -> GuestArea {
    GuestArea {
        cr0: s.cr0,
        cr3: s.cr3,
        cr4: s.cr4,
        dr7: ctx.dr7,
        rsp: ctx.rsp,
        rip: ctx.rip,
        rflags: ctx.e_flags,
        cs: spec_guest_segment(s.gdt@, ctx.seg_cs),
        ss: spec_guest_segment(s.gdt@, ctx.seg_ss),
        ds: spec_guest_segment(s.gdt@, ctx.seg_ds),
        es: spec_guest_segment(s.gdt@, ctx.seg_es),
        fs: UnpackedGdtEntry { base: s.fs_base, ..spec_guest_segment(s.gdt@, ctx.seg_fs) },
        gs: UnpackedGdtEntry { base: s.gs_base, ..spec_guest_segment(s.gdt@, ctx.seg_gs) },
        ldtr: spec_guest_segment(s.gdt@, s.ldtr),
        tr: spec_guest_segment(s.gdt@, s.tr),
        gdtr_base: s.gdtr_base,
        gdtr_limit: s.gdtr_limit,
        idtr_base: s.idtr_base,
        idtr_limit: s.idtr_limit,
        debugctl: s.debugctl,
        sysenter_cs: s.sysenter_cs,
        sysenter_esp: s.sysenter_esp,
        sysenter_eip: s.sysenter_eip,
        link_pointer: 0xFFFF_FFFF_FFFF_FFFFu64,
    }
}

/// The host-state area: selectors masked to their index bits (RPL and TI
/// cleared), TR selecting the descriptor the host GDT appended, bases for
/// FS and GS from their MSRs, TR at the task-state segment, GDTR at the
/// cloned table, and the exit trampoline and host stack as RIP and RSP.
pub open spec fn spec_host_area(s: CpuSnapshot, env: HostResources) -> HostArea {
    HostArea {
        cr0: s.cr0,
        cr3: s.cr3,
        cr4: s.cr4,
        cs: s.cs & 0xF8,
        ss: s.ss & 0xF8,
        ds: s.ds & 0xF8,
        es: s.es & 0xF8,
        fs: s.fs & 0xF8,
        gs: s.gs & 0xF8,
        tr: ((s.gdt@.len() * 8) as u16) & 0xF8,
        fs_base: s.fs_base,
        gs_base: s.gs_base,
        tr_base: env.tss_base,
        gdtr_base: env.gdt_base,
        idtr_base: s.idtr_base,
        sysenter_cs: s.sysenter_cs,
        sysenter_esp: s.sysenter_esp,
        sysenter_eip: s.sysenter_eip,
        rip: env.host_rip,
        rsp: env.host_rsp,
    }
}

/// The execution-control area: every control class folded against its
/// capability MSR value, and the control-register shadows mirroring the
/// current CR0 and CR4.
pub open spec fn spec_control_area(s: CpuSnapshot) -> ControlArea {
    ControlArea {
        pin_based: spec_adjust_vmx_controls(PINBASED_CTL_REQUESTED, s.pin_based_caps),
        primary_processor_based: spec_adjust_vmx_controls(
            PRIMARY_CTL_REQUESTED,
            s.processor_based_caps,
        ),
        secondary_processor_based: spec_adjust_vmx_controls(
            SECONDARY_CTL_REQUESTED,
            s.processor_based_caps2,
        ),
        vmentry: spec_adjust_vmx_controls(ENTRY_CTL_REQUESTED, s.entry_caps),
        vmexit: spec_adjust_vmx_controls(EXIT_CTL_REQUESTED, s.exit_caps),
        cr0_read_shadow: s.cr0,
        cr4_read_shadow: s.cr4,
    }
}

/// What the host writes and runs before VMXON: CR4 with VMXE set, the
/// feature-control value to write back when the firmware left it unlocked,
/// and both control registers folded against their fixup MSRs. The CR4
/// fixup applies after VMXE is set, as the enable sequence does.
#[derive(Debug)]
pub struct VmxEnablePlan {
    /// CR4 with the VMX-enable bit set.
    pub cr4_vmx_enabled: u64,
    /// The value to write to IA32_FEATURE_CONTROL, when its lock bit was
    /// clear: the current value with lock and VMXON-outside-SMX set.
    pub feature_control_write: Option<u64>,
    /// CR0 folded against IA32_VMX_CR0_FIXED0/FIXED1.
    pub adjusted_cr0: u64,
    /// CR4, VMXE included, folded against IA32_VMX_CR4_FIXED0/FIXED1.
    pub adjusted_cr4: u64,
}

/// The enable plan a snapshot leads to.
pub open spec fn spec_enable_plan(s: CpuSnapshot) -> VmxEnablePlan {
    VmxEnablePlan {
        cr4_vmx_enabled: s.cr4 | CR4_VMX_ENABLE,
        feature_control_write: if s.feature_control & FEATURE_CONTROL_LOCK == 0 {
            Some(s.feature_control | FEATURE_CONTROL_LOCK | FEATURE_CONTROL_VMXON_OUTSIDE_SMX)
        } else {
            None
        },
        adjusted_cr0: spec_cr_fixup(s.cr0, s.cr0_fixed0, s.cr0_fixed1),
        adjusted_cr4: spec_cr_fixup(s.cr4 | CR4_VMX_ENABLE, s.cr4_fixed0, s.cr4_fixed1),
    }
}

/// Everything the host must carry out to enter and launch the guest on one
/// processor, in order: the enable plan, then VMXON, VMCLEAR and VMPTRLD on
/// the stamped regions, then the three field groups into the VMCS, then
/// VMLAUNCH.
#[derive(Debug)]
pub struct LaunchPlan {
    /// Control-register and feature-control writes before VMXON.
    pub enable: VmxEnablePlan,
    /// The guest-state area.
    pub guest: GuestArea,
    /// The host-state area.
    pub host: HostArea,
    /// The execution, entry and exit controls with the register shadows.
    pub controls: ControlArea,
}

/// The launch plan a context, snapshot and host environment lead to.
pub open spec fn spec_launch_plan(ctx: Context, s: CpuSnapshot, env: HostResources) -> LaunchPlan {
    LaunchPlan {
        enable: spec_enable_plan(s),
        guest: spec_guest_area(ctx, s),
        host: spec_host_area(s, env),
        controls: spec_control_area(s),
    }
}

/// The error `run` stops with, checked in order: an unsupported vendor, a
/// processor without VMX, a firmware lock without VMXON-outside-SMX
/// permission, and a region whose physical address came back zero.
pub open spec fn spec_run_error(
    vendor: Seq<u8>,
    feature_ecx: u32,
    s: CpuSnapshot,
    env: HostResources,
) -> Option<HypervisorError> {
    if vendor != spec_genuine_intel() {
        Some(HypervisorError::CpuUnsupported)
    } else if feature_ecx & CPUID_ECX_VMX == 0 {
        Some(HypervisorError::VmxUnsupported)
    } else if s.feature_control & FEATURE_CONTROL_LOCK != 0 && s.feature_control
        & FEATURE_CONTROL_VMXON_OUTSIDE_SMX == 0 {
        Some(HypervisorError::VmxBiosLock)
    } else if env.vmxon_pa == 0 {
        Some(HypervisorError::VirtualToPhysicalAddressFailed)
    } else if env.vmcs_pa == 0 {
        Some(HypervisorError::VirtualToPhysicalAddressFailed)
    } else {
        None
    }
}

/// The selectors the guest area unpacks all index into the snapshot's GDT
/// (or are null), and the GDT is small enough for its clone to be
/// addressable through a masked task-register selector.
pub open spec fn spec_snapshot_wf(ctx: Context, s: CpuSnapshot) -> bool {
    &&& 1 <= s.gdt@.len() <= 31
    &&& ctx.seg_cs as int / 8 < s.gdt@.len()
    &&& ctx.seg_ss as int / 8 < s.gdt@.len()
    &&& ctx.seg_ds as int / 8 < s.gdt@.len()
    &&& ctx.seg_es as int / 8 < s.gdt@.len()
    &&& ctx.seg_fs as int / 8 < s.gdt@.len()
    &&& ctx.seg_gs as int / 8 < s.gdt@.len()
    &&& s.ldtr as int / 8 < s.gdt@.len()
    &&& s.tr as int / 8 < s.gdt@.len()
}

/// One logical processor's VMX state: its regions with their physical
/// addresses, the shadow register block, the synthesized host GDT, and the
/// context captured at bootstrap. Each processor owns its own exclusively.
pub struct Vmx {
    /// The VMXON region.
    pub vmxon_region: Vmxon,
    /// Its physical address once translated.
    pub vmxon_region_physical_address: u64,
    /// The VMCS region.
    pub vmcs_region: Vmcs,
    /// Its physical address once translated.
    pub vmcs_region_physical_address: u64,
    /// The shadow register block the trampoline and handlers share.
    pub registers: GuestRegisters,
    /// Whether the first VMLAUNCH succeeded; VMRESUME continues afterward.
    pub launched: bool,
    /// The host GDT clone with its appended TSS descriptor.
    pub host_gdt: HostGdt,
    /// The context captured on this processor at bootstrap.
    pub context: Context,
}

impl Vmx {
    /// A fresh per-processor state around a captured context: zeroed
    /// regions, zeroed shadow registers, an empty host GDT, not launched.
    pub fn new(context: Context) -> (r: Result<Vmx, HypervisorError>)
        ensures
            r matches Ok(v) && v.context == context && v.launched == false
                && v.vmxon_region_physical_address == 0 && v.vmcs_region_physical_address == 0
                && v.registers == GuestRegisters::spec_zeroed() && v.vmxon_region.revision_id == 0
                && v.vmcs_region.revision_id == 0 && v.vmxon_region.data@ == Seq::<u8>::new(
                crate::vmcs::REGION_DATA_SIZE as nat,
                |i: int| 0u8,
            ) && v.vmcs_region.data@ == Seq::<u8>::new(
                crate::vmcs::REGION_DATA_SIZE as nat,
                |i: int| 0u8,
            ) && v.host_gdt.gdt@ == Seq::<u64>::empty() && v.host_gdt.tr == 0
                && v.host_gdt.tss.0@ == Seq::<u8>::new(
                crate::gdt::TSS_LENGTH as nat,
                |i: int| 0u8,
            ),
    {
        Ok(
            Vmx {
                vmxon_region: Vmxon::new(),
                vmxon_region_physical_address: 0,
                vmcs_region: Vmcs::new(),
                vmcs_region_physical_address: 0,
                registers: GuestRegisters::default(),
                launched: false,
                host_gdt: HostGdt::new(),
                context,
            },
        )
    }

    /// Checks that the processor's vendor string is "GenuineIntel".
    pub fn has_intel_cpu(vendor: &Vec<u8>) -> (r: Result<(), HypervisorError>)
        ensures
            r is Ok <==> vendor@ == spec_genuine_intel(),
            r is Err ==> r == Err::<(), HypervisorError>(HypervisorError::CpuUnsupported),
    {
        if vendor.len() != 12 {
            return Err(HypervisorError::CpuUnsupported);
        }
        if vendor[0] == 0x47u8 && vendor[1] == 0x65u8 && vendor[2] == 0x6Eu8
            && vendor[3] == 0x75u8 && vendor[4] == 0x69u8 && vendor[5]
            == 0x6Eu8 && vendor[6] == 0x65u8 && vendor[7] == 0x49u8 && vendor[8] == 0x6Eu8 && vendor[9] == 0x74u8 && vendor[10] == 0x65u8 && vendor[11] == 0x6Cu8 {
            proof {
                assert(vendor@ =~= spec_genuine_intel());
            }
            Ok(())
        } else {
            Err(HypervisorError::CpuUnsupported)
        }
    }

    /// Checks CPUID.1:ECX.VMX: the processor supports Virtual Machine
    /// Extensions.
    pub fn has_vmx_support(feature_ecx: u32) -> (r: Result<(), HypervisorError>)
        ensures
            r is Ok <==> feature_ecx & CPUID_ECX_VMX != 0,
            r is Err ==> r == Err::<(), HypervisorError>(HypervisorError::VmxUnsupported),
    {
        if feature_ecx & CPUID_ECX_VMX != 0 {
            Ok(())
        } else {
            Err(HypervisorError::VmxUnsupported)
        }
    }

    /// Decides what IA32_FEATURE_CONTROL needs: if the lock bit is clear,
    /// the value to write back (the current value with lock and
    /// VMXON-outside-SMX set); if it is locked with VMXON outside SMX
    /// permitted, nothing; if it is locked without, the firmware forbids
    /// VMXON and the error says so.
    pub fn set_lock_bit(feature_control: u64) -> (r: Result<Option<u64>, HypervisorError>)
        ensures
            feature_control & FEATURE_CONTROL_LOCK == 0 ==> r == Ok::<_, HypervisorError>(
                Some(
                    feature_control | FEATURE_CONTROL_LOCK | FEATURE_CONTROL_VMXON_OUTSIDE_SMX,
                ),
            ),
            feature_control & FEATURE_CONTROL_LOCK != 0 && feature_control
                & FEATURE_CONTROL_VMXON_OUTSIDE_SMX == 0 ==> r == Err::<Option<u64>, _>(
                HypervisorError::VmxBiosLock,
            ),
            feature_control & FEATURE_CONTROL_LOCK != 0 && feature_control
                & FEATURE_CONTROL_VMXON_OUTSIDE_SMX != 0 ==> r == Ok::<_, HypervisorError>(
                None::<u64>,
            ),
    {
        if feature_control & FEATURE_CONTROL_LOCK == 0 {
            Ok(Some(feature_control | FEATURE_CONTROL_LOCK | FEATURE_CONTROL_VMXON_OUTSIDE_SMX))
        } else if feature_control & FEATURE_CONTROL_VMXON_OUTSIDE_SMX == 0 {
            Err(HypervisorError::VmxBiosLock)
        } else {
            Ok(None)
        }
    }

    /// CR0 with the bits IA32_VMX_CR0_FIXED0 requires set and the bits
    /// IA32_VMX_CR0_FIXED1 forbids cleared.
    pub fn set_cr0_bits(cr0: u64, fixed0: u64, fixed1: u64) -> (r: u64)
        ensures
            r == spec_cr_fixup(cr0, fixed0, fixed1),
    {
        (cr0 | fixed0) & fixed1
    }

    /// CR4 with the bits IA32_VMX_CR4_FIXED0 requires set and the bits
    /// IA32_VMX_CR4_FIXED1 forbids cleared.
    pub fn set_cr4_bits(cr4: u64, fixed0: u64, fixed1: u64) -> (r: u64)
        ensures
            r == spec_cr_fixup(cr4, fixed0, fixed1),
    {
        (cr4 | fixed0) & fixed1
    }

    /// Folds both control registers against their fixup MSRs.
    pub fn adjust_control_registers(s: &CpuSnapshot, cr4: u64) -> (r: (u64, u64))
        ensures
            r.0 == spec_cr_fixup(s.cr0, s.cr0_fixed0, s.cr0_fixed1),
            r.1 == spec_cr_fixup(cr4, s.cr4_fixed0, s.cr4_fixed1),
    {
        (Vmx::set_cr0_bits(s.cr0, s.cr0_fixed0, s.cr0_fixed1), Vmx::set_cr4_bits(
            cr4,
            s.cr4_fixed0,
            s.cr4_fixed1,
        ))
    }

    /// Records the VMXON region's physical address and stamps the region
    /// with the VMCS revision identifier, bit 31 clear. A zero physical
    /// address means translation failed and nothing changes.
    pub fn init_vmxon_region(&mut self, pa: u64, vmx_basic: u64) -> (r: Result<
        (),
        HypervisorError,
    >)
        ensures
            pa == 0 ==> r == Err::<(), HypervisorError>(
                HypervisorError::VirtualToPhysicalAddressFailed,
            ) && *final(self) == *old(self),
            pa != 0 ==> r == Ok::<(), HypervisorError>(()) && *final(self) == (Vmx {
                vmxon_region: Vmxon {
                    revision_id: spec_vmcs_revision_id(vmx_basic),
                    ..old(self).vmxon_region
                },
                vmxon_region_physical_address: pa,
                ..*old(self)
            }),
    {
        if pa == 0 {
            return Err(HypervisorError::VirtualToPhysicalAddressFailed);
        }
        self.vmxon_region_physical_address = pa;
        self.vmxon_region.set_revision_id(vmx_basic);
        Ok(())
    }

    /// Records the VMCS region's physical address and stamps the region
    /// with the VMCS revision identifier, bit 31 clear. A zero physical
    /// address means translation failed and nothing changes.
    pub fn init_vmcs_region(&mut self, pa: u64, vmx_basic: u64) -> (r: Result<(), HypervisorError>)
        ensures
            pa == 0 ==> r == Err::<(), HypervisorError>(
                HypervisorError::VirtualToPhysicalAddressFailed,
            ) && *final(self) == *old(self),
            pa != 0 ==> r == Ok::<(), HypervisorError>(()) && *final(self) == (Vmx {
                vmcs_region: Vmcs {
                    revision_id: spec_vmcs_revision_id(vmx_basic),
                    ..old(self).vmcs_region
                },
                vmcs_region_physical_address: pa,
                ..*old(self)
            }),
    {
        if pa == 0 {
            return Err(HypervisorError::VirtualToPhysicalAddressFailed);
        }
        self.vmcs_region_physical_address = pa;
        self.vmcs_region.set_revision_id(vmx_basic);
        Ok(())
    }

    /// Computes the enable plan and stamps the VMXON region: the firmware
    /// lock is checked, CR4 gains VMXE, both control registers are folded
    /// against their fixup MSRs, and the region takes the revision
    /// identifier with its physical address recorded.
    pub fn enable_vmx_operation(&mut self, s: &CpuSnapshot, env: &HostResources) -> (r: Result<
        VmxEnablePlan,
        HypervisorError,
    >)
        ensures
            s.feature_control & FEATURE_CONTROL_LOCK != 0 && s.feature_control
                & FEATURE_CONTROL_VMXON_OUTSIDE_SMX == 0 ==> r == Err::<VmxEnablePlan, _>(
                HypervisorError::VmxBiosLock,
            ) && *final(self) == *old(self),
            !(s.feature_control & FEATURE_CONTROL_LOCK != 0 && s.feature_control
                & FEATURE_CONTROL_VMXON_OUTSIDE_SMX == 0) && env.vmxon_pa == 0 ==> r == Err::<
                VmxEnablePlan,
                _,
            >(HypervisorError::VirtualToPhysicalAddressFailed) && *final(self) == *old(self),
            !(s.feature_control & FEATURE_CONTROL_LOCK != 0 && s.feature_control
                & FEATURE_CONTROL_VMXON_OUTSIDE_SMX == 0) && env.vmxon_pa != 0 ==> r == Ok::<
                _,
                HypervisorError,
            >(spec_enable_plan(*s)) && *final(self) == (Vmx {
                vmxon_region: Vmxon {
                    revision_id: spec_vmcs_revision_id(s.vmx_basic),
                    ..old(self).vmxon_region
                },
                vmxon_region_physical_address: env.vmxon_pa,
                ..*old(self)
            }),
    {
        let feature_control_write = Vmx::set_lock_bit(s.feature_control)?;
        let cr4_vmx_enabled = s.cr4 | CR4_VMX_ENABLE;
        let (adjusted_cr0, adjusted_cr4) = Vmx::adjust_control_registers(s, cr4_vmx_enabled);
        self.init_vmxon_region(env.vmxon_pa, s.vmx_basic)?;
        Ok(VmxEnablePlan { cr4_vmx_enabled, feature_control_write, adjusted_cr0, adjusted_cr4 })
    }

    /// Computes the guest-state area from the captured context and the
    /// snapshot, and seeds the shadow register block with the context's
    /// general-purpose registers.
    pub fn init_guest_register_state(&mut self, s: &CpuSnapshot) -> (r: GuestArea)
        requires
            spec_snapshot_wf(old(self).context, *s),
        ensures
            r == spec_guest_area(old(self).context, *s),
            *final(self) == (Vmx {
                registers: spec_registers_from_context(old(self).context, old(self).registers),
                ..*old(self)
            }),
    {
        let entries = gdt_entries_from_raw(&s.gdt);
        let gdt = entries.as_slice();

        let cs = unpack_gdt_entry(gdt, self.context.seg_cs);
        let ss = unpack_gdt_entry(gdt, self.context.seg_ss);
        let ds = unpack_gdt_entry(gdt, self.context.seg_ds);
        let es = unpack_gdt_entry(gdt, self.context.seg_es);
        let fs = unpack_gdt_entry(gdt, self.context.seg_fs);
        let gs = unpack_gdt_entry(gdt, self.context.seg_gs);
        let ldtr = unpack_gdt_entry(gdt, s.ldtr);
        let tr = unpack_gdt_entry(gdt, s.tr);

        let area = GuestArea {
            cr0: s.cr0,
            cr3: s.cr3,
            cr4: s.cr4,
            dr7: self.context.dr7,
            rsp: self.context.rsp,
            rip: self.context.rip,
            rflags: self.context.e_flags,
            cs,
            ss,
            ds,
            es,
            fs: UnpackedGdtEntry { base: s.fs_base, ..fs },
            gs: UnpackedGdtEntry { base: s.gs_base, ..gs },
            ldtr,
            tr,
            gdtr_base: s.gdtr_base,
            gdtr_limit: s.gdtr_limit,
            idtr_base: s.idtr_base,
            idtr_limit: s.idtr_limit,
            debugctl: s.debugctl,
            sysenter_cs: s.sysenter_cs,
            sysenter_esp: s.sysenter_esp,
            sysenter_eip: s.sysenter_eip,
            link_pointer: 0xFFFF_FFFF_FFFF_FFFFu64,
        };

        self.registers.rax = self.context.rax;
        self.registers.rbx = self.context.rbx;
        self.registers.rcx = self.context.rcx;
        self.registers.rdx = self.context.rdx;
        self.registers.rdi = self.context.rdi;
        self.registers.rsi = self.context.rsi;
        self.registers.rbp = self.context.rbp;
        self.registers.r8 = self.context.r8;
        self.registers.r9 = self.context.r9;
        self.registers.r10 = self.context.r10;
        self.registers.r11 = self.context.r11;
        self.registers.r12 = self.context.r12;
        self.registers.r13 = self.context.r13;
        self.registers.r14 = self.context.r14;
        self.registers.r15 = self.context.r15;

        area
    }

    /// Synthesizes the host GDT (the current table plus a TSS descriptor)
    /// and computes the host-state area. Every selector written has its RPL
    /// and TI bits cleared by the 0xF8 mask, and TR selects the appended
    /// descriptor, so CS and TR never reach the VMCS as zero on a machine
    /// whose CS index is non-zero.
    pub fn init_host_register_state(&mut self, s: &CpuSnapshot, env: &HostResources) -> (r:
        HostArea)
        requires
            1 <= s.gdt@.len() <= 31,
        ensures
            r == spec_host_area(*s, *env),
            spec_host_gdt_ok(final(self).host_gdt, s.gdt@, env.tss_base),
            final(self).host_gdt.cs == s.cs && final(self).host_gdt.ss == s.ss,
            final(self).host_gdt.ds == s.ds && final(self).host_gdt.es == s.es,
            final(self).host_gdt.fs == s.fs && final(self).host_gdt.gs == s.gs,
            final(self).host_gdt.tss == old(self).host_gdt.tss,
            *final(self) == (Vmx { host_gdt: final(self).host_gdt, ..*old(self) }),
            r.tr == final(self).host_gdt.tr & 0xF8 && r.tr != 0,
            r.cs & 0x7 == 0 && r.ss & 0x7 == 0 && r.ds & 0x7 == 0 && r.es & 0x7 == 0 && r.fs & 0x7
                == 0 && r.gs & 0x7 == 0 && r.tr & 0x7 == 0,
    {
        self.host_gdt.initialize_from_current(&s.gdt, s.cs, s.ss, s.ds, s.es, s.fs, s.gs,
            env.tss_base);

        let area = HostArea {
            cr0: s.cr0,
            cr3: s.cr3,
            cr4: s.cr4,
            cs: s.cs & 0xF8,
            ss: s.ss & 0xF8,
            ds: s.ds & 0xF8,
            es: s.es & 0xF8,
            fs: s.fs & 0xF8,
            gs: s.gs & 0xF8,
            tr: self.host_gdt.tr & 0xF8,
            fs_base: s.fs_base,
            gs_base: s.gs_base,
            tr_base: env.tss_base,
            gdtr_base: env.gdt_base,
            idtr_base: s.idtr_base,
            sysenter_cs: s.sysenter_cs,
            sysenter_esp: s.sysenter_esp,
            sysenter_eip: s.sysenter_eip,
            rip: env.host_rip,
            rsp: env.host_rsp,
        };
        proof {
            lemma_selector_mask_clears_low_bits(s.cs);
            lemma_selector_mask_clears_low_bits(s.ss);
            lemma_selector_mask_clears_low_bits(s.ds);
            lemma_selector_mask_clears_low_bits(s.es);
            lemma_selector_mask_clears_low_bits(s.fs);
            lemma_selector_mask_clears_low_bits(s.gs);
            lemma_selector_mask_clears_low_bits(self.host_gdt.tr);
        }
        area
    }

    /// Computes the execution, entry and exit controls by folding the
    /// requested values against the capability MSRs, with the TRUE variants
    /// already chosen by the snapshot, and mirrors CR0 and CR4 into the
    /// read shadows.
    pub fn init_vmcs_control_values(&self, s: &CpuSnapshot) -> (r: ControlArea)
        ensures
            r == spec_control_area(*s),
    {
        ControlArea {
            pin_based: adjust_vmx_controls(PINBASED_CTL_REQUESTED, s.pin_based_caps),
            primary_processor_based: adjust_vmx_controls(
                PRIMARY_CTL_REQUESTED,
                s.processor_based_caps,
            ),
            secondary_processor_based: adjust_vmx_controls(
                SECONDARY_CTL_REQUESTED,
                s.processor_based_caps2,
            ),
            vmentry: adjust_vmx_controls(ENTRY_CTL_REQUESTED, s.entry_caps),
            vmexit: adjust_vmx_controls(EXIT_CTL_REQUESTED, s.exit_caps),
            cr0_read_shadow: s.cr0,
            cr4_read_shadow: s.cr4,
        }
    }

    /// Takes one processor from probing to a complete launch plan: checks
    /// the vendor and VMX support, decides the feature-control write,
    /// folds the control registers, stamps both regions with the revision
    /// identifier, records their physical addresses, synthesizes the host
    /// GDT, seeds the shadow registers from the captured context, and
    /// computes the three VMCS field groups. On any error nothing changes
    /// and the error says which step refused.
    pub fn run(&mut self, identity: &CpuIdentity, s: &CpuSnapshot, env: &HostResources) -> (r:
        Result<LaunchPlan, HypervisorError>)
        requires
            spec_snapshot_wf(old(self).context, *s),
        ensures
            spec_run_error(identity.vendor@, identity.feature_ecx, *s, *env) matches Some(e) ==> r
                == Err::<LaunchPlan, HypervisorError>(e) && *final(self) == *old(self),
            spec_run_error(identity.vendor@, identity.feature_ecx, *s, *env) is None ==> {
                &&& r == Ok::<LaunchPlan, HypervisorError>(
                    spec_launch_plan(old(self).context, *s, *env),
                )
                &&& final(self).vmxon_region_physical_address == env.vmxon_pa
                &&& final(self).vmcs_region_physical_address == env.vmcs_pa
                &&& final(self).vmxon_region.revision_id == spec_vmcs_revision_id(s.vmx_basic)
                &&& final(self).vmcs_region.revision_id == spec_vmcs_revision_id(s.vmx_basic)
                &&& final(self).registers == spec_registers_from_context(
                    old(self).context,
                    old(self).registers,
                )
                &&& spec_host_gdt_ok(final(self).host_gdt, s.gdt@, env.tss_base)
                &&& final(self).host_gdt.tss == old(self).host_gdt.tss
                &&& final(self).context == old(self).context
                &&& final(self).launched == old(self).launched
            },
    {
        Vmx::has_intel_cpu(&identity.vendor)?;
        Vmx::has_vmx_support(identity.feature_ecx)?;
        let _feature_control_write = Vmx::set_lock_bit(s.feature_control)?;
        if env.vmxon_pa == 0 {
            return Err(HypervisorError::VirtualToPhysicalAddressFailed);
        }
        if env.vmcs_pa == 0 {
            return Err(HypervisorError::VirtualToPhysicalAddressFailed);
        }

        let enable = self.enable_vmx_operation(s, env)?;
        self.init_vmcs_region(env.vmcs_pa, s.vmx_basic)?;
        let guest = self.init_guest_register_state(s);
        let host = self.init_host_register_state(s, env);
        let controls = self.init_vmcs_control_values(s);

        Ok(LaunchPlan { enable, guest, host, controls })
    }

    /// Records a VM-exit: the guest's RIP, RSP and RFLAGS read from the
    /// VMCS replace the shadow values (the VMCS is authoritative for
    /// them), and the processor counts as launched, so the next entry uses
    /// VMRESUME.
    pub fn record_vm_exit(&mut self, rip: u64, rsp: u64, rflags: u64)
        ensures
            *final(self) == (Vmx {
                registers: GuestRegisters { rip, rsp, rflags, ..old(self).registers },
                launched: true,
                ..*old(self)
            }),
    {
        self.registers.rip = rip;
        self.registers.rsp = rsp;
        self.registers.rflags = rflags;
        self.launched = true;
    }
}

/// Masking a selector with 0xF8 clears its RPL and TI bits: the low three
/// bits of every host selector field are zero.
pub proof fn lemma_selector_mask_clears_low_bits(s: u16)
    ensures
        (s & 0xF8) & 0x7 == 0,
{
    assert((s & 0xF8) & 0x7 == 0) by (bit_vector);
}

/// After the control-register fixup, every bit the FIXED0 MSR requires is
/// set and every bit the FIXED1 MSR forbids is clear. The first part asks
/// that the MSRs are consistent (a required bit is also a permitted bit),
/// which holds of the fixup MSRs the manual defines.
pub proof fn lemma_cr_fixup_monotone(cr: u64, fixed0: u64, fixed1: u64)
    requires
        fixed0 & !fixed1 == 0,
    ensures
        spec_cr_fixup(cr, fixed0, fixed1) & fixed1 == spec_cr_fixup(cr, fixed0, fixed1),
        spec_cr_fixup(cr, fixed0, fixed1) | fixed0 == spec_cr_fixup(cr, fixed0, fixed1),
{
    assert(fixed0 & !fixed1 == 0 ==> ((cr | fixed0) & fixed1) & fixed1 == ((cr | fixed0) & fixed1)
        && ((cr | fixed0) & fixed1) | fixed0 == ((cr | fixed0) & fixed1)) by (bit_vector);
}

} // verus!
