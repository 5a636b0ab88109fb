//! The exception/NMI exit sub-dispatch.
//!
//! Page faults and general-protection faults are re-injected so the guest
//! sees its ordinary exception; breakpoints consult the hook manager and
//! either bounce the guest to the hook's handler or re-inject the
//! breakpoint; everything else is fatal and tears the hypervisor down on
//! this processor.

use vstd::prelude::*;

use crate::error::HypervisorError;
use crate::events::EventInjection;
use crate::hooks::{Hook, HookManager, HookType, spec_find_hook};
use crate::registers::GuestRegisters;
use crate::vmerror::{
    ExceptionInterrupt, VmExitInterruptionInformation, spec_exception_from_u32,
    spec_interruption_info_fields, spec_interruption_info_valid,
};
use crate::vmexit::{VmExitAction, VmExitDisposition, VmExitInfo};

verus! {

/// The disposition a breakpoint exit ends in, and the register block it
/// leaves: a function hook with a non-zero handler rewrites the guest RIP
/// to the handler; anything else re-injects the breakpoint. Neither path
/// advances the guest RIP.
pub open spec fn spec_handle_breakpoint(regs: GuestRegisters, hooks: Seq<(u64, Hook)>) -> (Result<
    VmExitDisposition,
    HypervisorError,
>, GuestRegisters) {
    match spec_find_hook(hooks, regs.rip) {
        Some(hook) => match hook.hook_type {
            HookType::Function { inline_hook } => if inline_hook.handler != 0 {
                (
                    Ok(
                        VmExitDisposition {
                            action: VmExitAction::RedirectRip { handler: inline_hook.handler },
                            advance_rip: false,
                        },
                    ),
                    GuestRegisters { rip: inline_hook.handler, ..regs },
                )
            } else {
                (Ok(spec_inject_bp_disposition()), regs)
            },
            HookType::Page => (Ok(spec_inject_bp_disposition()), regs),
        },
        None => (Ok(spec_inject_bp_disposition()), regs),
    }
}

/// The disposition that re-injects a breakpoint: vector 3 as a software
/// exception, no RIP advancement.
pub open spec fn spec_inject_bp_disposition() -> VmExitDisposition {
    VmExitDisposition {
        action: VmExitAction::InjectEvent {
            event: EventInjection {
                vector: 3u8,
                interruption_type: 6u8,
                deliver_error_code: false,
                error_code: 0u32,
            },
        },
        advance_rip: false,
    }
}

/// The disposition that re-injects a hardware exception with its error
/// code, no RIP advancement.
pub open spec fn spec_inject_hw_disposition(vector: u8, error_code: u32) -> VmExitDisposition {
    VmExitDisposition {
        action: VmExitAction::InjectEvent {
            event: EventInjection {
                vector,
                interruption_type: 3u8,
                deliver_error_code: true,
                error_code,
            },
        },
        advance_rip: false,
    }
}

/// The disposition that tears the hypervisor down on this processor.
pub open spec fn spec_exit_disposition() -> VmExitDisposition {
    VmExitDisposition { action: VmExitAction::ExitHypervisor, advance_rip: false }
}

/// The disposition an exception/NMI exit ends in, and the register block
/// it leaves. Interruption information that fails structural validation,
/// a reserved vector, and any vector without a handler are fatal. A page
/// fault or general-protection fault is re-injected with the error code
/// the exit saved; a breakpoint goes through the hook manager.
pub open spec fn spec_handle_exception(
    regs: GuestRegisters,
    info: VmExitInfo,
    hooks: Seq<(u64, Hook)>,
) -> (Result<VmExitDisposition, HypervisorError>, GuestRegisters) {
    let word = (info.interruption_info & 0xFFFF_FFFF) as u32;
    if !spec_interruption_info_valid(word) {
        (Ok(spec_exit_disposition()), regs)
    } else {
        let fields = spec_interruption_info_fields(word);
        match spec_exception_from_u32(fields.vector as u32) {
            Some(ExceptionInterrupt::PageFault) => (
                Ok(
                    spec_inject_hw_disposition(
                        14u8,
                        (info.interruption_error_code & 0xFFFF_FFFF) as u32,
                    ),
                ),
                regs,
            ),
            Some(ExceptionInterrupt::GeneralProtectionFault) => (
                Ok(
                    spec_inject_hw_disposition(
                        13u8,
                        (info.interruption_error_code & 0xFFFF_FFFF) as u32,
                    ),
                ),
                regs,
            ),
            Some(ExceptionInterrupt::Breakpoint) => spec_handle_breakpoint(regs, hooks),
            Some(_) => (Ok(spec_exit_disposition()), regs),
            None => (Ok(spec_exit_disposition()), regs),
        }
    }
}

/// Services a breakpoint exit: if the hook manager holds a function hook
/// for the guest RIP with a non-zero handler, the guest RIP is rewritten to
/// that handler, with no event injected and no RIP advancement; otherwise
/// the breakpoint is re-injected so ordinary debugger semantics hold.
pub fn handle_breakpoint_exception(registers: &mut GuestRegisters, hook_manager: &HookManager) -> (
    r: Result<VmExitDisposition, HypervisorError>)
    ensures
        r == spec_handle_breakpoint(*old(registers), hook_manager.hooks@).0,
        *final(registers) == spec_handle_breakpoint(*old(registers), hook_manager.hooks@).1,
{
    let found = hook_manager.find_hook_by_address(registers.rip);
    match found {
        Some(hook) => match hook.hook_type {
            HookType::Function { inline_hook } => {
                let handler = inline_hook.handler_address();
                if handler != 0 {
                    registers.rip = handler;
                    Ok(
                        VmExitDisposition {
                            action: VmExitAction::RedirectRip { handler },
                            advance_rip: false,
                        },
                    )
                } else {
                    Ok(
                        VmExitDisposition {
                            action: VmExitAction::InjectEvent {
                                event: EventInjection::vmentry_inject_bp(),
                            },
                            advance_rip: false,
                        },
                    )
                }
            },
            HookType::Page => Ok(
                VmExitDisposition {
                    action: VmExitAction::InjectEvent { event: EventInjection::vmentry_inject_bp() },
                    advance_rip: false,
                },
            ),
        },
        None => Ok(
            VmExitDisposition {
                action: VmExitAction::InjectEvent { event: EventInjection::vmentry_inject_bp() },
                advance_rip: false,
            },
        ),
    }
}

/// Sub-dispatches an exception/NMI exit: re-injects page faults and
/// general-protection faults with their error codes, services breakpoints
/// through the hook manager, and treats structurally invalid interruption
/// information, reserved vectors and unhandled vectors as fatal.
pub fn handle_exception(
    registers: &mut GuestRegisters,
    info: &VmExitInfo,
    hook_manager: &HookManager,
) -> (r: Result<VmExitDisposition, HypervisorError>)
    ensures
        r == spec_handle_exception(*old(registers), *info, hook_manager.hooks@).0,
        *final(registers) == spec_handle_exception(*old(registers), *info, hook_manager.hooks@).1,
{
    let word: u32 = #[verifier::truncate] ((info.interruption_info & 0xFFFF_FFFF) as u32);
    let parsed = VmExitInterruptionInformation::from_u32(word);
    match parsed {
        None => Ok(
            VmExitDisposition { action: VmExitAction::ExitHypervisor, advance_rip: false },
        ),
        Some(interruption_info) => {
            let error_code: u32 = #[verifier::truncate] ((info.interruption_error_code
                & 0xFFFF_FFFF) as u32);
            match ExceptionInterrupt::from_u32(interruption_info.vector as u32) {
                Some(ExceptionInterrupt::PageFault) => Ok(
                    VmExitDisposition {
                        action: VmExitAction::InjectEvent {
                            event: EventInjection::vmentry_inject_pf(error_code),
                        },
                        advance_rip: false,
                    },
                ),
                Some(ExceptionInterrupt::GeneralProtectionFault) => Ok(
                    VmExitDisposition {
                        action: VmExitAction::InjectEvent {
                            event: EventInjection::vmentry_inject_gp(error_code),
                        },
                        advance_rip: false,
                    },
                ),
                Some(ExceptionInterrupt::Breakpoint) => handle_breakpoint_exception(
                    registers,
                    hook_manager,
                ),
                Some(_) => Ok(
                    VmExitDisposition { action: VmExitAction::ExitHypervisor, advance_rip: false },
                ),
                None => Ok(
                    VmExitDisposition { action: VmExitAction::ExitHypervisor, advance_rip: false },
                ),
            }
        },
    }
}

/// A breakpoint exit at a guest RIP for which the hook manager holds a
/// function hook with a non-zero handler rewrites the guest RIP to that
/// handler: nothing is injected and the RIP is not advanced.
pub proof fn lemma_breakpoint_hook_redirects(
    regs: GuestRegisters,
    hooks: Seq<(u64, Hook)>,
    handler: u64,
)
    requires
        spec_find_hook(hooks, regs.rip) == Some(
            Hook { hook_type: HookType::Function { inline_hook: crate::hooks::InlineHook { handler } } },
        ),
        handler != 0,
    ensures
        spec_handle_breakpoint(regs, hooks).0 == Ok::<VmExitDisposition, HypervisorError>(
            VmExitDisposition {
                action: VmExitAction::RedirectRip { handler },
                advance_rip: false,
            },
        ),
        spec_handle_breakpoint(regs, hooks).1 == (GuestRegisters { rip: handler, ..regs }),
{
}

/// A breakpoint exit at a guest RIP with no registered hook re-injects the
/// breakpoint: vector 3, software exception, valid bit set, and the RIP is
/// neither rewritten nor advanced.
pub proof fn lemma_breakpoint_miss_reinjects(regs: GuestRegisters, hooks: Seq<(u64, Hook)>)
    requires
        spec_find_hook(hooks, regs.rip) is None,
    ensures
        spec_handle_breakpoint(regs, hooks).0 == Ok::<VmExitDisposition, HypervisorError>(
            spec_inject_bp_disposition(),
        ),
        spec_handle_breakpoint(regs, hooks).1 == regs,
        ({
            let d = spec_inject_bp_disposition();
            d.action matches VmExitAction::InjectEvent { event }
                && crate::events::spec_interruption_info(
                event.vector,
                event.interruption_type,
                event.deliver_error_code,
            ) & 0x8000_0000u32 != 0 && event.vector == 3
        }),
{
    let d = spec_inject_bp_disposition();
    assert(d.action matches VmExitAction::InjectEvent { event } && event.vector == 3);
    assert(crate::events::spec_interruption_info(3u8, 6u8, false) & 0x8000_0000u32 != 0) by {
        assert((3u32 | ((6u32 & 0x7) << 8) | 0u32 | 0x8000_0000u32) & 0x8000_0000u32 != 0)
            by (bit_vector);
    }
}

} // verus!
