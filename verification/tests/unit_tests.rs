use hypervisor::controls::{
    adjust_vmx_controls, vmx_capability_msr, VmxControl, IA32_VMX_PINBASED_CTLS,
    IA32_VMX_PROCBASED_CTLS2, IA32_VMX_TRUE_ENTRY_CTLS, IA32_VMX_TRUE_EXIT_CTLS,
    IA32_VMX_TRUE_PINBASED_CTLS, IA32_VMX_TRUE_PROCBASED_CTLS,
};
use hypervisor::events::EventInjection;
use hypervisor::gdt::{
    gdt_entry_from_raw, task_segment_descriptor, unpack_gdt_entry, GdtEntry, HostGdt,
};
use hypervisor::paging::{eptp_value, make_entry, PageTables};
use hypervisor::vmcs::{get_vmcs_revision_id, vm_succeed, Vmcs, Vmxon};
use hypervisor::vmerror::{
    EptViolationExitQualification, ExceptionInterrupt, VmExitInterruptionInformation,
    VmInstructionError, VmxBasicExitReason,
};
use hypervisor::HypervisorError;

fn caps(allowed0: u32, allowed1: u32) -> u64 {
    ((allowed1 as u64) << 32) | (allowed0 as u64)
}

#[test]
fn adjust_sets_required_and_clears_forbidden_bits() {
    // allowed0 forces bits 1 and 4; allowed1 permits bits 0..8 only.
    let capabilities = caps(0x12, 0xFF);
    let adjusted = adjust_vmx_controls(0x300, capabilities);
    // The request above bit 8 is forbidden and dropped; forced bits appear.
    assert_eq!(adjusted, 0x12);
    // A permitted requested bit survives alongside the forced ones.
    let adjusted = adjust_vmx_controls(0x41, capabilities);
    assert_eq!(adjusted, 0x53);
    // The invariant of the adjustment, on concrete values.
    assert_eq!(adjusted | 0x12, adjusted);
    assert_eq!(adjusted & !0xFFu64, 0);
}

#[test]
fn capability_msr_uses_true_variants_when_basic_bit55_set() {
    let with_true = 1u64 << 55;
    assert_eq!(
        vmx_capability_msr(VmxControl::PinBased, with_true),
        IA32_VMX_TRUE_PINBASED_CTLS
    );
    assert_eq!(
        vmx_capability_msr(VmxControl::PinBased, 0),
        IA32_VMX_PINBASED_CTLS
    );
    assert_eq!(
        vmx_capability_msr(VmxControl::ProcessorBased, with_true),
        IA32_VMX_TRUE_PROCBASED_CTLS
    );
    assert_eq!(
        vmx_capability_msr(VmxControl::VmExit, with_true),
        IA32_VMX_TRUE_EXIT_CTLS
    );
    assert_eq!(
        vmx_capability_msr(VmxControl::VmEntry, with_true),
        IA32_VMX_TRUE_ENTRY_CTLS
    );
    // The secondary processor-based controls have no TRUE variant.
    assert_eq!(
        vmx_capability_msr(VmxControl::ProcessorBased2, with_true),
        IA32_VMX_PROCBASED_CTLS2
    );
    assert_eq!(
        vmx_capability_msr(VmxControl::ProcessorBased2, 0),
        IA32_VMX_PROCBASED_CTLS2
    );
}

#[test]
fn unpack_reassembles_base_limit_and_access_rights() {
    let null = GdtEntry {
        limit_low: 0,
        base_low: 0,
        base_middle: 0,
        access: 0,
        granularity: 0,
        base_high: 0,
    };
    let entry = GdtEntry {
        limit_low: 0xFFFF,
        base_low: 0x3456,
        base_middle: 0x12,
        access: 0x9B,
        granularity: 0xAF,
        base_high: 0x78,
    };
    let gdt = [null, entry];
    let unpacked = unpack_gdt_entry(&gdt, 8);
    assert_eq!(unpacked.selector, 8);
    assert_eq!(unpacked.base, 0x7812_3456);
    assert_eq!(unpacked.limit, 0xF_FFFF);
    assert_eq!(unpacked.access_rights, 0xA09B);
    assert_eq!(unpacked.access_rights & 0x10000, 0);
}

#[test]
fn unpack_selector_zero_is_unusable() {
    let null = GdtEntry {
        limit_low: 0,
        base_low: 0,
        base_middle: 0,
        access: 0,
        granularity: 0,
        base_high: 0,
    };
    let gdt = [null];
    let unpacked = unpack_gdt_entry(&gdt, 0);
    assert_ne!(unpacked.access_rights & 0x10000, 0);
    assert_eq!(unpacked.base, 0);
    assert_eq!(unpacked.limit, 0);
    assert_eq!(unpacked.selector, 0);
    // The low selector bits (RPL) do not escape the null index either.
    let unpacked = unpack_gdt_entry(&gdt, 3);
    assert_ne!(unpacked.access_rights & 0x10000, 0);
}

#[test]
fn unpack_non_present_entry_is_unusable() {
    let null = GdtEntry {
        limit_low: 0,
        base_low: 0,
        base_middle: 0,
        access: 0,
        granularity: 0,
        base_high: 0,
    };
    let absent = GdtEntry {
        limit_low: 0x10,
        base_low: 0,
        base_middle: 0,
        access: 0x1B,
        granularity: 0,
        base_high: 0,
    };
    let gdt = [null, absent];
    let unpacked = unpack_gdt_entry(&gdt, 8);
    assert_ne!(unpacked.access_rights & 0x10000, 0);
}

#[test]
fn gdt_entry_from_raw_splits_fields() {
    let entry = gdt_entry_from_raw(0x00CF_9B00_0000_FFFF);
    assert_eq!(entry.limit_low, 0xFFFF);
    assert_eq!(entry.base_low, 0);
    assert_eq!(entry.base_middle, 0);
    assert_eq!(entry.access, 0x9B);
    assert_eq!(entry.granularity, 0xCF);
    assert_eq!(entry.base_high, 0);
}

#[test]
fn tss_descriptor_packs_base_and_access_byte() {
    assert_eq!(task_segment_descriptor(0x1234_5678), 0x1200_8934_5678_0067);
    // Base bits above 32 do not fit the 8-byte descriptor.
    assert_eq!(
        task_segment_descriptor(0xFFFF_0000_1234_5678),
        0x1200_8934_5678_0067
    );
}

#[test]
fn host_gdt_appends_tss_descriptor_and_selects_it() {
    let mut host_gdt = HostGdt::new();
    let current = vec![0u64, 0x00CF_9B00_0000_FFFF, 0x00CF_9300_0000_FFFF];
    host_gdt.initialize_from_current(&current, 0x10, 0x18, 0x18, 0x18, 0x18, 0x18, 0x4000);
    assert_eq!(host_gdt.gdt.len(), 4);
    assert_eq!(host_gdt.gdt[..3], current[..]);
    assert_eq!(host_gdt.gdt[3], task_segment_descriptor(0x4000));
    assert_eq!(host_gdt.gdtr_limit, 4 * 8 - 1);
    assert_eq!(host_gdt.tr, 3 * 8);
    assert_eq!(host_gdt.cs, 0x10);
    assert_ne!(host_gdt.tr & 0xF8, 0);
}

#[test]
fn identity_map_covers_every_two_mebibyte_page() {
    let mut tables = PageTables::new();
    let pd_pfns: Vec<u64> = (0..512u64).map(|i| 0x100 + i).collect();
    tables.build_identity(0x42, &pd_pfns);

    assert_eq!(tables.pml4.len(), 512);
    assert_eq!(tables.pml4[0], make_entry(0x42, true, true, false));
    assert_eq!(tables.pml4[1], 0);
    assert_eq!(tables.pdpt.len(), 512);
    assert_eq!(tables.pdpt[5], make_entry(0x105, true, true, false));
    assert_eq!(tables.pd.len(), 512);
    for (i, j) in [(0usize, 0usize), (0, 1), (1, 2), (511, 511)] {
        let entry = tables.pd[i][j];
        let pa = ((i * 512 + j) as u64) * 0x20_0000;
        assert_eq!(entry & 0x1, 0x1, "present");
        assert_eq!(entry & 0x2, 0x2, "writable");
        assert_eq!(entry & 0x80, 0x80, "large");
        assert_eq!((entry >> 12) & 0xFF_FFFF_FFFF, pa >> 12, "pfn");
    }
    assert_eq!(tables.pd[1][2], 0x4040_0083);
}

#[test]
fn eptp_encodes_walk_length_and_write_back() {
    assert_eq!(eptp_value(1), 0x101E);
    assert_eq!(eptp_value(0x42), 0x4201E);
}

#[test]
fn revision_id_clears_bit_31() {
    assert_eq!(get_vmcs_revision_id(0xFFFF_FFFF_FFFF_FFFF), 0x7FFF_FFFF);
    assert_eq!(get_vmcs_revision_id(0x8000_0001), 1);

    let mut vmxon = Vmxon::new();
    vmxon.set_revision_id(0xDEAD_0000_8000_0007);
    assert_eq!(vmxon.revision_id & 0x8000_0000, 0);
    assert_eq!(vmxon.revision_id, 0x8000_0007 & 0x7FFF_FFFF);

    let mut vmcs = Vmcs::new();
    vmcs.set_revision_id(0x11);
    assert_eq!(vmcs.revision_id, 0x11);
    assert_eq!(vmcs.data.len(), 4092);
}

#[test]
fn vm_succeed_classifies_rflags() {
    assert_eq!(vm_succeed(0, 0), Ok(()));
    assert_eq!(vm_succeed(0x40, 7), Err(HypervisorError::VmFailValid(7)));
    assert_eq!(vm_succeed(0x1, 0), Err(HypervisorError::VmFailInvalid));
    // ZF wins over CF, as the instruction conventions read it first.
    assert_eq!(vm_succeed(0x41, 4), Err(HypervisorError::VmFailValid(4)));
    assert_eq!(vm_succeed(0x2, 0), Ok(()));
}

#[test]
fn breakpoint_injection_packs_interruption_info() {
    let bp = EventInjection::vmentry_inject_bp();
    assert_eq!(bp.interruption_info(), 0x8000_0603);
    assert!(!bp.deliver_error_code);

    let gp = EventInjection::vmentry_inject_gp(0x18);
    assert_eq!(gp.interruption_info(), 0x8000_0B0D);
    assert_eq!(gp.error_code, 0x18);
    assert!(gp.deliver_error_code);

    let pf = EventInjection::vmentry_inject_pf(0x2);
    assert_eq!(pf.interruption_info(), 0x8000_0B0E);
    assert_eq!(pf.error_code, 0x2);
}

#[test]
fn interruption_information_requires_valid_bit_and_clear_reserved_bits() {
    let parsed = VmExitInterruptionInformation::from_u32(0x8000_0B0D).unwrap();
    assert_eq!(parsed.vector, 13);
    assert_eq!(parsed.interruption_type, 3);
    assert!(parsed.error_code_valid);
    assert!(!parsed.nmi_unblocking);

    assert!(VmExitInterruptionInformation::from_u32(0x0000_0603).is_none());
    assert!(VmExitInterruptionInformation::from_u32(0x8010_0603).is_none());
}

#[test]
fn exit_reason_classification_follows_the_basic_reason_table() {
    assert_eq!(
        VmxBasicExitReason::from_u32(10),
        Some(VmxBasicExitReason::Cpuid)
    );
    assert_eq!(
        VmxBasicExitReason::from_u32(31),
        Some(VmxBasicExitReason::Rdmsr)
    );
    assert_eq!(
        VmxBasicExitReason::from_u32(32),
        Some(VmxBasicExitReason::Wrmsr)
    );
    assert_eq!(
        VmxBasicExitReason::from_u32(0),
        Some(VmxBasicExitReason::ExceptionOrNmi)
    );
    assert_eq!(
        VmxBasicExitReason::from_u32(48),
        Some(VmxBasicExitReason::EptViolation)
    );
    assert_eq!(VmxBasicExitReason::from_u32(35), None);
    assert_eq!(VmxBasicExitReason::from_u32(70), None);
}

#[test]
fn instruction_error_classification_skips_undefined_numbers() {
    assert_eq!(
        VmInstructionError::from_u32(5),
        Some(VmInstructionError::VmresumeNonLaunchedVmcs)
    );
    assert_eq!(
        VmInstructionError::from_u32(28),
        Some(VmInstructionError::InvalidOperandInveptInvvpid)
    );
    assert_eq!(VmInstructionError::from_u32(14), None);
    assert_eq!(VmInstructionError::from_u32(0), None);
}

#[test]
fn exception_vector_classification_skips_reserved_vectors() {
    assert_eq!(
        ExceptionInterrupt::from_u32(3),
        Some(ExceptionInterrupt::Breakpoint)
    );
    assert_eq!(
        ExceptionInterrupt::from_u32(14),
        Some(ExceptionInterrupt::PageFault)
    );
    assert_eq!(ExceptionInterrupt::from_u32(15), None);
    assert_eq!(ExceptionInterrupt::from_u32(22), None);
}

#[test]
fn ept_violation_qualification_decodes_access_and_permission_bits() {
    let q = EptViolationExitQualification::from_exit_qualification(0x1);
    assert!(q.read_access);
    assert!(!q.write_access);
    assert!(!q.execute_access);
    assert!(!q.readable);

    let q = EptViolationExitQualification::from_exit_qualification(0x1AA);
    assert!(!q.read_access);
    assert!(q.write_access);
    assert!(q.readable);
    assert!(q.executable);
    assert!(q.valid_guest_linear_address);
    assert!(q.caused_by_translation);
}
