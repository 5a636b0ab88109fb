use hypervisor::events::EventInjection;
use hypervisor::hooks::{Hook, HookManager, HookType, InlineHook};
use hypervisor::registers::GuestRegisters;
use hypervisor::vmexit::{
    apply_cpuid_result, apply_msr_read, VmExit, VmExitAction, VmExitInfo,
};
use hypervisor::HypervisorError;

fn exit_info(exit_reason: u64) -> VmExitInfo {
    VmExitInfo {
        exit_reason,
        instruction_len: 2,
        instruction_error: 0,
        interruption_info: 0,
        interruption_error_code: 0,
        exit_qualification: 0,
        guest_physical_address: 0,
    }
}

fn function_hook(handler: u64) -> Hook {
    Hook {
        hook_type: HookType::Function {
            inline_hook: InlineHook { handler },
        },
    }
}

#[test]
fn cpuid_exit_emulates_with_guest_leaf_and_subleaf() {
    let vmexit = VmExit::new();
    let mut registers = GuestRegisters::default();
    registers.rax = 1;
    registers.rcx = 0;
    let hooks = HookManager::new();

    let disposition = vmexit
        .handle_vmexit(&mut registers, &exit_info(10), &hooks)
        .unwrap();
    assert_eq!(
        disposition.action,
        VmExitAction::EmulateCpuid { leaf: 1, subleaf: 0 }
    );
    assert!(disposition.advance_rip);

    // The host runs CPUID(1, 0) and hands the result back.
    apply_cpuid_result(&mut registers, 0x000906EA, 0x00100800, 0x7FFAFBBF, 0xBFEBFBFF);
    assert_eq!(registers.rax, 0x000906EA);
    assert_eq!(registers.rbx, 0x00100800);
    assert_eq!(registers.rcx, 0x7FFAFBBF);
    assert_eq!(registers.rdx, 0xBFEBFBFF);

    let new_rip = VmExit::advance_guest_rip(&mut registers, 2);
    assert_eq!(registers.rip, 2);
    assert_eq!(new_rip, 2);
}

#[test]
fn rdmsr_exit_reads_the_msr_the_guest_named() {
    let vmexit = VmExit::new();
    let mut registers = GuestRegisters::default();
    registers.rcx = 0xC000_0100;
    let hooks = HookManager::new();

    let disposition = vmexit
        .handle_vmexit(&mut registers, &exit_info(31), &hooks)
        .unwrap();
    assert_eq!(disposition.action, VmExitAction::ReadMsr { index: 0xC000_0100 });
    assert!(disposition.advance_rip);

    apply_msr_read(&mut registers, 0x1234_5678_9ABC_DEF0);
    assert_eq!(registers.rax, 0x9ABC_DEF0);
    assert_eq!(registers.rdx, 0x1234_5678);
}

#[test]
fn wrmsr_exit_assembles_the_value_from_edx_eax() {
    let vmexit = VmExit::new();
    let mut registers = GuestRegisters::default();
    registers.rcx = 0x1D9;
    registers.rax = 0xFFFF_FFFF_AAAA_BBBB;
    registers.rdx = 0x1111_2222_CCCC_DDDD;
    let hooks = HookManager::new();

    let disposition = vmexit
        .handle_vmexit(&mut registers, &exit_info(32), &hooks)
        .unwrap();
    assert_eq!(
        disposition.action,
        VmExitAction::WriteMsr {
            index: 0x1D9,
            value: 0xCCCC_DDDD_AAAA_BBBB,
        }
    );
    assert!(disposition.advance_rip);
}

#[test]
fn unknown_exit_reason_is_an_error() {
    let vmexit = VmExit::new();
    let mut registers = GuestRegisters::default();
    let hooks = HookManager::new();
    assert_eq!(
        vmexit.handle_vmexit(&mut registers, &exit_info(35), &hooks),
        Err(HypervisorError::UnknownVmExitReason)
    );
}

#[test]
fn classified_exit_without_handler_is_an_error() {
    let vmexit = VmExit::new();
    let mut registers = GuestRegisters::default();
    let hooks = HookManager::new();
    // HLT is a defined basic exit reason but the dispatcher has no handler.
    assert_eq!(
        vmexit.handle_vmexit(&mut registers, &exit_info(12), &hooks),
        Err(HypervisorError::UnhandledVmExit(12))
    );
}

#[test]
fn undefined_instruction_error_number_is_an_error() {
    let vmexit = VmExit::new();
    let mut registers = GuestRegisters::default();
    let hooks = HookManager::new();
    let mut info = exit_info(10);
    info.instruction_error = 14;
    assert_eq!(
        vmexit.handle_vmexit(&mut registers, &info, &hooks),
        Err(HypervisorError::UnknownVmInstructionError)
    );
    // A defined error number is tolerated and the exit is still handled.
    info.instruction_error = 5;
    assert!(vmexit.handle_vmexit(&mut registers, &info, &hooks).is_ok());
}

#[test]
fn general_protection_fault_is_reinjected_with_its_error_code() {
    let vmexit = VmExit::new();
    let mut registers = GuestRegisters::default();
    let hooks = HookManager::new();
    let mut info = exit_info(0);
    info.interruption_info = 0x8000_0B0D;
    info.interruption_error_code = 0x18;

    let disposition = vmexit.handle_vmexit(&mut registers, &info, &hooks).unwrap();
    match disposition.action {
        VmExitAction::InjectEvent { event } => {
            assert_eq!(event.vector, 13);
            assert_eq!(event.interruption_type, 3);
            assert!(event.deliver_error_code);
            assert_eq!(event.error_code, 0x18);
            assert_eq!(event.interruption_info(), 0x8000_0B0D);
        }
        other => panic!("expected injection, got {:?}", other),
    }
    assert!(!disposition.advance_rip);
}

#[test]
fn page_fault_is_reinjected_with_its_error_code() {
    let vmexit = VmExit::new();
    let mut registers = GuestRegisters::default();
    let hooks = HookManager::new();
    let mut info = exit_info(0);
    info.interruption_info = 0x8000_0B0E;
    info.interruption_error_code = 0x2;
    info.exit_qualification = 0x2;

    let disposition = vmexit.handle_vmexit(&mut registers, &info, &hooks).unwrap();
    assert_eq!(
        disposition.action,
        VmExitAction::InjectEvent {
            event: EventInjection::vmentry_inject_pf(0x2)
        }
    );
    assert!(!disposition.advance_rip);
}

#[test]
fn breakpoint_with_hook_redirects_rip_to_the_handler() {
    let vmexit = VmExit::new();
    let mut registers = GuestRegisters::default();
    registers.rip = 0xDEAD_BEEF;
    let mut hooks = HookManager::new();
    hooks.register(0xDEAD_BEEF, function_hook(0xCAFE));

    let mut info = exit_info(0);
    info.interruption_info = 0x8000_0603;

    let disposition = vmexit.handle_vmexit(&mut registers, &info, &hooks).unwrap();
    assert_eq!(disposition.action, VmExitAction::RedirectRip { handler: 0xCAFE });
    assert!(!disposition.advance_rip);
    assert_eq!(registers.rip, 0xCAFE);
}

#[test]
fn breakpoint_without_hook_reinjects_the_breakpoint() {
    let vmexit = VmExit::new();
    let mut registers = GuestRegisters::default();
    registers.rip = 0xDEAD_BEEF;
    let hooks = HookManager::new();

    let mut info = exit_info(0);
    info.interruption_info = 0x8000_0603;

    let disposition = vmexit.handle_vmexit(&mut registers, &info, &hooks).unwrap();
    match disposition.action {
        VmExitAction::InjectEvent { event } => {
            assert_eq!(event.vector, 3);
            assert_eq!(event.interruption_type, 6);
            assert!(!event.deliver_error_code);
            // valid = 1, vector = 3.
            assert_eq!(event.interruption_info() & 0x8000_0000, 0x8000_0000);
            assert_eq!(event.interruption_info() & 0xFF, 3);
        }
        other => panic!("expected injection, got {:?}", other),
    }
    assert!(!disposition.advance_rip);
    assert_eq!(registers.rip, 0xDEAD_BEEF);
}

#[test]
fn breakpoint_with_zero_handler_or_page_hook_reinjects() {
    let vmexit = VmExit::new();
    let mut info = exit_info(0);
    info.interruption_info = 0x8000_0603;

    let mut registers = GuestRegisters::default();
    registers.rip = 0x1000;
    let mut hooks = HookManager::new();
    hooks.register(0x1000, function_hook(0));
    let disposition = vmexit.handle_vmexit(&mut registers, &info, &hooks).unwrap();
    assert!(matches!(disposition.action, VmExitAction::InjectEvent { .. }));
    assert_eq!(registers.rip, 0x1000);

    let mut hooks = HookManager::new();
    hooks.register(
        0x1000,
        Hook {
            hook_type: HookType::Page,
        },
    );
    let disposition = vmexit.handle_vmexit(&mut registers, &info, &hooks).unwrap();
    assert!(matches!(disposition.action, VmExitAction::InjectEvent { .. }));
}

#[test]
fn invalid_interruption_information_is_fatal() {
    let vmexit = VmExit::new();
    let mut registers = GuestRegisters::default();
    let hooks = HookManager::new();
    let mut info = exit_info(0);
    // Valid bit clear.
    info.interruption_info = 0x0000_0603;
    let disposition = vmexit.handle_vmexit(&mut registers, &info, &hooks).unwrap();
    assert_eq!(disposition.action, VmExitAction::ExitHypervisor);
    assert!(!disposition.advance_rip);

    // A reserved vector fails structural validation of the vector.
    info.interruption_info = 0x8000_030F;
    let disposition = vmexit.handle_vmexit(&mut registers, &info, &hooks).unwrap();
    assert_eq!(disposition.action, VmExitAction::ExitHypervisor);
}

#[test]
fn ept_violation_grants_the_attempted_access_without_advancing() {
    let vmexit = VmExit::new();
    let mut registers = GuestRegisters::default();
    let hooks = HookManager::new();
    let mut info = exit_info(48);
    info.exit_qualification = 0x1;
    info.guest_physical_address = 0x1000;

    let disposition = vmexit.handle_vmexit(&mut registers, &info, &hooks).unwrap();
    assert_eq!(
        disposition.action,
        VmExitAction::AdjustEptPermissions {
            guest_physical_address: 0x1000,
            allow_read: true,
            allow_write: false,
            allow_execute: false,
        }
    );
    assert!(!disposition.advance_rip);
}

#[test]
fn advance_guest_rip_wraps_at_the_top_of_the_address_space() {
    let mut registers = GuestRegisters::default();
    registers.rip = u64::MAX;
    let new_rip = VmExit::advance_guest_rip(&mut registers, 1);
    assert_eq!(new_rip, 0);
    registers.rip = 0x401000;
    let new_rip = VmExit::advance_guest_rip(&mut registers, 3);
    assert_eq!(new_rip, 0x401003);
}

#[test]
fn exit_hypervisor_promises_nothing_of_the_registers() {
    let mut registers = GuestRegisters::default();
    registers.rbx = 7;
    registers.rcx = 9;
    let before = registers;
    VmExit::exit_hypervisor(&mut registers);
    assert_eq!(registers, before);
}

#[test]
fn find_hook_returns_the_first_registration() {
    let mut hooks = HookManager::new();
    hooks.register(0x1000, function_hook(0x11));
    hooks.register(0x2000, function_hook(0x22));
    hooks.register(0x1000, function_hook(0x33));

    let found = hooks.find_hook_by_address(0x1000).unwrap();
    assert_eq!(*found, function_hook(0x11));
    let found = hooks.find_hook_by_address(0x2000).unwrap();
    assert_eq!(*found, function_hook(0x22));
    assert!(hooks.find_hook_by_address(0x3000).is_none());
}
