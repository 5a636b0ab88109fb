use hypervisor::gdt::task_segment_descriptor;
use hypervisor::registers::Context;
use hypervisor::vcpu::Vcpu;
use hypervisor::vmcs::{CpuSnapshot, HostResources};
use hypervisor::vmx::{CpuIdentity, Vmx};
use hypervisor::HypervisorError;

fn intel_identity() -> CpuIdentity {
    CpuIdentity {
        vendor: b"GenuineIntel".to_vec(),
        feature_ecx: 0x20,
    }
}

fn context() -> Context {
    Context {
        seg_cs: 0x10,
        seg_ds: 0x18,
        seg_es: 0x18,
        seg_fs: 0x18,
        seg_gs: 0x18,
        seg_ss: 0x18,
        e_flags: 0x202,
        dr7: 0x400,
        rax: 1,
        rbx: 2,
        rcx: 3,
        rdx: 4,
        rdi: 5,
        rsi: 6,
        rbp: 7,
        r8: 8,
        r9: 9,
        r10: 10,
        r11: 11,
        r12: 12,
        r13: 13,
        r14: 14,
        r15: 15,
        rsp: 0x7000,
        rip: 0x401000,
    }
}

fn snapshot() -> CpuSnapshot {
    CpuSnapshot {
        cr0: 0x8005_0033,
        cr3: 0x1AB000,
        cr4: 0x350EF8,
        gdt: vec![
            0,
            0x00CF_9B00_0000_FFFF,
            0x00AF_9B00_0000_FFFF,
            0x00CF_9300_0000_FFFF,
            0x0000_8B40_2000_0067,
        ],
        gdtr_base: 0xFFFF_8000_0000_1000,
        gdtr_limit: 0x27,
        idtr_base: 0xFFFF_8000_0000_2000,
        idtr_limit: 0xFFF,
        cs: 0x10,
        ss: 0x18,
        ds: 0x18,
        es: 0x18,
        fs: 0x18,
        gs: 0x18,
        ldtr: 0,
        tr: 0x20,
        fs_base: 0x1234_0000,
        gs_base: 0x5678_0000,
        debugctl: 0,
        sysenter_cs: 0,
        sysenter_esp: 0,
        sysenter_eip: 0,
        feature_control: 0x5,
        vmx_basic: 0x00DA_0400_8000_0004,
        cr0_fixed0: 0x8000_0021,
        cr0_fixed1: 0xFFFF_FFFF,
        cr4_fixed0: 0x2000,
        cr4_fixed1: 0x3F_FFFF,
        pin_based_caps: 0x0000_007F_0000_0016,
        processor_based_caps: 0xFFF9_FFFE_0401_E172,
        processor_based_caps2: 0x0015_37FF_0000_0000,
        exit_caps: 0x01FF_FFFF_0003_6DFF,
        entry_caps: 0x0003_FFFF_0000_11FF,
    }
}

fn resources() -> HostResources {
    HostResources {
        vmxon_pa: 0x10_0000,
        vmcs_pa: 0x20_0000,
        tss_base: 0x3000,
        gdt_base: 0x4000,
        host_rip: 0xFFFF_F800_1234_0000,
        host_rsp: 0xFFFF_F800_5678_0000,
    }
}

#[test]
fn cold_start_produces_a_complete_launch_plan() {
    let mut vmx = Vmx::new(context()).unwrap();
    let plan = vmx
        .run(&intel_identity(), &snapshot(), &resources())
        .unwrap();

    // CR4 gains VMXE before the fixup.
    assert_eq!(plan.enable.cr4_vmx_enabled, 0x350EF8 | 0x2000);
    // The firmware already locked with VMXON-outside-SMX: nothing to write.
    assert_eq!(plan.enable.feature_control_write, None);
    // Control-register fixups.
    assert_eq!(plan.enable.adjusted_cr0, (0x8005_0033 | 0x8000_0021) & 0xFFFF_FFFF);
    assert_eq!(
        plan.enable.adjusted_cr4,
        ((0x350EF8u64 | 0x2000) | 0x2000) & 0x3F_FFFF
    );

    // Both regions carry the revision identifier with bit 31 clear.
    assert_eq!(vmx.vmxon_region.revision_id, 0x8000_0004u32 & 0x7FFF_FFFF);
    assert_eq!(vmx.vmcs_region.revision_id, 0x4);
    assert_eq!(vmx.vmxon_region.revision_id & 0x8000_0000, 0);
    assert_eq!(vmx.vmxon_region_physical_address, 0x10_0000);
    assert_eq!(vmx.vmcs_region_physical_address, 0x20_0000);

    // The guest begins exactly where the capture returned.
    assert_eq!(plan.guest.rip, 0x401000);
    assert_eq!(plan.guest.rsp, 0x7000);
    assert_eq!(plan.guest.rflags, 0x202);
    assert_eq!(plan.guest.dr7, 0x400);
    assert_eq!(plan.guest.cr3, 0x1AB000);
    assert_eq!(plan.guest.link_pointer, u64::MAX);
    // CS unpacked from GDT entry 2 of the snapshot.
    assert_eq!(plan.guest.cs.selector, 0x10);
    assert_eq!(plan.guest.cs.base, 0);
    assert_eq!(plan.guest.cs.access_rights, 0xA09B);
    // FS base comes from the MSR, not the GDT.
    assert_eq!(plan.guest.fs.base, 0x1234_0000);
    // The null LDTR is unusable.
    assert_ne!(plan.guest.ldtr.access_rights & 0x10000, 0);
    // TR unpacked from the system descriptor at index 4.
    assert_eq!(plan.guest.tr.base, 0x40_2000);
    assert_eq!(plan.guest.tr.limit, 0x67);

    // Host selectors are masked; TR selects the appended TSS descriptor.
    assert_eq!(plan.host.cs, 0x10);
    assert_eq!(plan.host.ss, 0x18);
    assert_eq!(plan.host.tr, 5 * 8);
    assert_eq!(plan.host.tr & 0x7, 0);
    assert_ne!(plan.host.tr, 0);
    assert_eq!(plan.host.tr_base, 0x3000);
    assert_eq!(plan.host.gdtr_base, 0x4000);
    assert_eq!(plan.host.rip, 0xFFFF_F800_1234_0000);
    assert_eq!(plan.host.rsp, 0xFFFF_F800_5678_0000);

    // The host GDT clone ends with the TSS descriptor.
    assert_eq!(vmx.host_gdt.gdt.len(), 6);
    assert_eq!(vmx.host_gdt.gdt[5], task_segment_descriptor(0x3000));
    assert_eq!(vmx.host_gdt.gdtr_limit, 6 * 8 - 1);

    // The shadow registers carry the captured general-purpose registers.
    assert_eq!(vmx.registers.rax, 1);
    assert_eq!(vmx.registers.r15, 15);
    assert_eq!(vmx.registers.rip, 0);

    // Controls: the secondary controls bit survives adjustment because the
    // capability MSR permits it, and the forced pin-based bits appear.
    assert_eq!(plan.controls.primary_processor_based & 0x8000_0000, 0x8000_0000);
    assert_eq!(plan.controls.pin_based, 0x16);
    assert_eq!(plan.controls.cr0_read_shadow, 0x8005_0033);
    assert_eq!(plan.controls.cr4_read_shadow, 0x350EF8);
    // Entry controls keep IA-32e mode guest; exit controls keep the 64-bit
    // host address space.
    assert_eq!(plan.controls.vmentry & 0x200, 0x200);
    assert_eq!(plan.controls.vmexit & 0x200, 0x200);
}

#[test]
fn unlocked_feature_control_is_written_back_locked() {
    let mut vmx = Vmx::new(context()).unwrap();
    let mut s = snapshot();
    s.feature_control = 0;
    let plan = vmx.run(&intel_identity(), &s, &resources()).unwrap();
    assert_eq!(plan.enable.feature_control_write, Some(0x5));
}

#[test]
fn unsupported_vendor_changes_nothing() {
    let mut vmx = Vmx::new(context()).unwrap();
    let identity = CpuIdentity {
        vendor: b"AuthenticAMD".to_vec(),
        feature_ecx: 0x20,
    };
    let r = vmx.run(&identity, &snapshot(), &resources());
    assert_eq!(r.unwrap_err(), HypervisorError::CpuUnsupported);
    // No state was touched: regions unstamped, registers untouched.
    assert_eq!(vmx.vmxon_region.revision_id, 0);
    assert_eq!(vmx.vmxon_region_physical_address, 0);
    assert_eq!(vmx.registers.rax, 0);
    assert_eq!(vmx.host_gdt.gdt.len(), 0);
}

#[test]
fn missing_vmx_support_is_refused() {
    let mut vmx = Vmx::new(context()).unwrap();
    let identity = CpuIdentity {
        vendor: b"GenuineIntel".to_vec(),
        feature_ecx: 0,
    };
    assert_eq!(
        vmx.run(&identity, &snapshot(), &resources()).unwrap_err(),
        HypervisorError::VmxUnsupported
    );
}

#[test]
fn bios_lock_without_vmxon_permission_is_refused() {
    let mut vmx = Vmx::new(context()).unwrap();
    let mut s = snapshot();
    s.feature_control = 0x1;
    assert_eq!(
        vmx.run(&intel_identity(), &s, &resources()).unwrap_err(),
        HypervisorError::VmxBiosLock
    );
}

#[test]
fn zero_physical_address_is_refused() {
    let mut vmx = Vmx::new(context()).unwrap();
    let mut env = resources();
    env.vmxon_pa = 0;
    assert_eq!(
        vmx.run(&intel_identity(), &snapshot(), &env).unwrap_err(),
        HypervisorError::VirtualToPhysicalAddressFailed
    );
    let mut env = resources();
    env.vmcs_pa = 0;
    assert_eq!(
        vmx.run(&intel_identity(), &snapshot(), &env).unwrap_err(),
        HypervisorError::VirtualToPhysicalAddressFailed
    );
}

#[test]
fn probes_answer_for_the_machine_they_see() {
    assert!(Vmx::has_intel_cpu(&b"GenuineIntel".to_vec()).is_ok());
    assert_eq!(
        Vmx::has_intel_cpu(&b"AuthenticAMD".to_vec()).unwrap_err(),
        HypervisorError::CpuUnsupported
    );
    assert_eq!(
        Vmx::has_intel_cpu(&b"Genuine".to_vec()).unwrap_err(),
        HypervisorError::CpuUnsupported
    );
    assert!(Vmx::has_vmx_support(0xFFFF_FFFF).is_ok());
    assert_eq!(
        Vmx::has_vmx_support(!0x20).unwrap_err(),
        HypervisorError::VmxUnsupported
    );
}

#[test]
fn lock_bit_decision_matches_the_firmware_state() {
    assert_eq!(Vmx::set_lock_bit(0), Ok(Some(0x5)));
    assert_eq!(Vmx::set_lock_bit(0x8), Ok(Some(0xD)));
    assert_eq!(Vmx::set_lock_bit(0x1), Err(HypervisorError::VmxBiosLock));
    assert_eq!(Vmx::set_lock_bit(0x5), Ok(None));
}

#[test]
fn control_register_fixups_are_monotone_on_real_msr_values() {
    let fixed0 = 0x8000_0021u64;
    let fixed1 = 0xFFFF_FFFFu64;
    let adjusted = Vmx::set_cr0_bits(0x11, fixed0, fixed1);
    assert_eq!(adjusted, 0x8000_0031);
    assert_eq!(adjusted & fixed1, adjusted);
    assert_eq!(adjusted | fixed0, adjusted);

    let adjusted = Vmx::set_cr4_bits(0x40_0000, 0x2000, 0x3F_FFFF);
    assert_eq!(adjusted, 0x2000);
    assert_eq!(adjusted & 0x3F_FFFF, adjusted);
    assert_eq!(adjusted | 0x2000, adjusted);
}

#[test]
fn vm_exit_record_updates_the_authoritative_registers() {
    let mut vmx = Vmx::new(context()).unwrap();
    vmx.record_vm_exit(0x402000, 0x6FF8, 0x246);
    assert!(vmx.launched);
    assert_eq!(vmx.registers.rip, 0x402000);
    assert_eq!(vmx.registers.rsp, 0x6FF8);
    assert_eq!(vmx.registers.rflags, 0x246);
}

#[test]
fn vcpu_starts_with_zeroed_regions() {
    let vcpu = Vcpu::new().unwrap();
    assert_eq!(vcpu.vmxon.revision_id, 0);
    assert_eq!(vcpu.vmcs.revision_id, 0);
    assert_eq!(vcpu.vmxon_physical_address, 0);
    assert_eq!(vcpu.vmcs_physical_address, 0);
    assert_eq!(vcpu.vmxon.data.len(), 4092);
}
