//! The VM-exit dispatcher.
//!
//! On a VM-exit the trampoline saves the guest's general-purpose registers
//! into the shadow block and hands the dispatcher the exit information read
//! from the VMCS. The dispatcher classifies the basic exit reason and
//! decides what the host must do: emulate CPUID or an MSR access, inject
//! an event, bounce the guest to a hook handler, adjust nested-paging
//! permissions, or tear the hypervisor down. Unless the decision says
//! otherwise, the guest RIP then advances past the exiting instruction.

use vstd::prelude::*;

use crate::error::HypervisorError;
use crate::events::EventInjection;
use crate::exception::{handle_exception, spec_handle_exception};
use crate::hooks::{Hook, HookManager};
use crate::registers::GuestRegisters;
use crate::vmerror::{
    VmInstructionError, VmxBasicExitReason, spec_basic_exit_reason_from_u32,
    spec_ept_violation_fields, spec_vm_instruction_error_from_u32,
};

verus! {

/// What the exit trampoline does after the dispatcher returns: keep
/// running the guest, or leave VMX operation on this processor.
#[derive(Clone, Copy, PartialEq, Eq, Structural, Debug)]
pub enum VmExitType {
    ExitHypervisor,
    IncrementRIP,
    Continue,
}

/// The exit information the host reads from the VMCS for one VM-exit,
/// handed to the dispatcher as plain values.
#[derive(Clone, Copy, PartialEq, Eq, Structural, Debug)]
pub struct VmExitInfo {
    /// The exit-reason field; its low 16 bits are the basic exit reason.
    pub exit_reason: u64,
    /// The VM-exit instruction length.
    pub instruction_len: u64,
    /// The VM-instruction error field; zero when none was recorded.
    pub instruction_error: u64,
    /// The VM-exit interruption information.
    pub interruption_info: u64,
    /// The VM-exit interruption error code.
    pub interruption_error_code: u64,
    /// The exit qualification.
    pub exit_qualification: u64,
    /// The guest-physical address of an EPT violation.
    pub guest_physical_address: u64,
}

/// What the host must do for one VM-exit before resuming the guest.
#[derive(Clone, Copy, PartialEq, Eq, Structural, Debug)]
pub enum VmExitAction {
    /// Execute CPUID with the guest's leaf and subleaf and write the result
    /// back into the shadow registers.
    EmulateCpuid { leaf: u64, subleaf: u64 },
    /// Read the model-specific register and place it in the guest's
    /// EDX:EAX.
    ReadMsr { index: u32 },
    /// Write the model-specific register with the guest's EDX:EAX.
    WriteMsr { index: u32, value: u64 },
    /// Write the event into the VM-entry interruption-information field.
    InjectEvent { event: EventInjection },
    /// Write the handler address into the VMCS guest RIP; the shadow RIP
    /// already holds it.
    RedirectRip { handler: u64 },
    /// Grant the attempted access in the nested paging structures and
    /// retry the faulting instruction.
    AdjustEptPermissions {
        guest_physical_address: u64,
        allow_read: bool,
        allow_write: bool,
        allow_execute: bool,
    },
    /// Leave VMX operation on this processor and resume the captured host
    /// context.
    ExitHypervisor,
}

/// The dispatcher's decision for one VM-exit: the action, and whether the
/// guest RIP advances past the exiting instruction.
#[derive(Clone, Copy, PartialEq, Eq, Structural, Debug)]
pub struct VmExitDisposition {
    /// What the host does before resuming.
    pub action: VmExitAction,
    /// Whether the guest RIP advances by the exit instruction length.
    pub advance_rip: bool,
}

/// Whether a recorded VM-instruction error number is acceptable: zero
/// means none was recorded, anything else must be a number the manual
/// defines.
pub open spec fn spec_instruction_error_ok(error: u64) -> bool {
    error == 0 || spec_vm_instruction_error_from_u32((error & 0xFFFF_FFFF) as u32) is Some
}

/// The decision the dispatcher takes for an exit, and the register block
/// it leaves. An unclassifiable exit reason or instruction error is an
/// error; CPUID and MSR accesses are emulated and advance the guest RIP;
/// exceptions sub-dispatch through the exception handler; an EPT violation
/// grants the attempted access and retries; every other classified reason
/// has no handler and is an error.
pub open spec fn spec_handle_vmexit(
    regs: GuestRegisters,
    info: VmExitInfo,
    hooks: Seq<(u64, Hook)>,
) -> (Result<VmExitDisposition, HypervisorError>, GuestRegisters) {
    let basic = (info.exit_reason & 0xFFFF) as u32;
    match spec_basic_exit_reason_from_u32(basic) {
        None => (Err(HypervisorError::UnknownVmExitReason), regs),
        Some(reason) => if !spec_instruction_error_ok(info.instruction_error) {
            (Err(HypervisorError::UnknownVmInstructionError), regs)
        } else {
            match reason {
                VmxBasicExitReason::Cpuid => (
                    Ok(
                        VmExitDisposition {
                            action: VmExitAction::EmulateCpuid {
                                leaf: regs.rax,
                                subleaf: regs.rcx,
                            },
                            advance_rip: true,
                        },
                    ),
                    regs,
                ),
                VmxBasicExitReason::Rdmsr => (
                    Ok(
                        VmExitDisposition {
                            action: VmExitAction::ReadMsr {
                                index: (regs.rcx & 0xFFFF_FFFF) as u32,
                            },
                            advance_rip: true,
                        },
                    ),
                    regs,
                ),
                VmxBasicExitReason::Wrmsr => (
                    Ok(
                        VmExitDisposition {
                            action: VmExitAction::WriteMsr {
                                index: (regs.rcx & 0xFFFF_FFFF) as u32,
                                value: ((regs.rdx & 0xFFFF_FFFF) << 32) | (regs.rax & 0xFFFF_FFFF),
                            },
                            advance_rip: true,
                        },
                    ),
                    regs,
                ),
                VmxBasicExitReason::ExceptionOrNmi => spec_handle_exception(regs, info, hooks),
                VmxBasicExitReason::EptViolation => (
                    Ok(
                        VmExitDisposition {
                            action: VmExitAction::AdjustEptPermissions {
                                guest_physical_address: info.guest_physical_address,
                                allow_read: spec_ept_violation_fields(
                                    info.exit_qualification,
                                ).read_access,
                                allow_write: spec_ept_violation_fields(
                                    info.exit_qualification,
                                ).write_access,
                                allow_execute: spec_ept_violation_fields(
                                    info.exit_qualification,
                                ).execute_access,
                            },
                            advance_rip: false,
                        },
                    ),
                    regs,
                ),
                _ => (Err(HypervisorError::UnhandledVmExit(basic as u64)), regs),
            }
        },
    }
}

/// A VM exit: transfers control from the guest to the host. Its methods
/// decide how the guest's execution continues.
pub struct VmExit;

impl VmExit {
    /// A dispatcher instance.
    pub fn new() -> (r: VmExit)
        ensures
            r == (VmExit {  }),
    {
        VmExit {  }
    }

    /// Classifies one VM-exit and decides what the host does before the
    /// guest resumes.
    ///
    /// The guest RIP advances exactly for the pass-through emulations
    /// (CPUID and the MSR accesses): event injection re-delivers the
    /// faulting instruction, a hook rewrites the RIP to its handler, and a
    /// granted EPT access retries the same instruction.
    pub fn handle_vmexit(
        &self,
        registers: &mut GuestRegisters,
        info: &VmExitInfo,
        hook_manager: &HookManager,
    ) -> (r: Result<VmExitDisposition, HypervisorError>)
        ensures
            r == spec_handle_vmexit(*old(registers), *info, hook_manager.hooks@).0,
            *final(registers) == spec_handle_vmexit(*old(registers), *info,
                hook_manager.hooks@).1,
            r matches Ok(d) ==> (d.advance_rip <==> (d.action matches VmExitAction::EmulateCpuid {
                ..
            } || d.action matches VmExitAction::ReadMsr { .. }
                || d.action matches VmExitAction::WriteMsr { .. })),
    {
        proof {
            lemma_disposition_advance(*old(registers), *info, hook_manager.hooks@);
        }
        let basic: u32 = #[verifier::truncate] ((info.exit_reason & 0xFFFF) as u32);
        let classified = VmxBasicExitReason::from_u32(basic);
        match classified {
            None => Err(HypervisorError::UnknownVmExitReason),
            Some(reason) => {
                if info.instruction_error != 0 {
                    let error_number: u32 = #[verifier::truncate] ((info.instruction_error
                        & 0xFFFF_FFFF) as u32);
                    if VmInstructionError::from_u32(error_number).is_none() {
                        return Err(HypervisorError::UnknownVmInstructionError);
                    }
                }
                match reason {
                    VmxBasicExitReason::Cpuid => Ok(
                        VmExitDisposition {
                            action: VmExitAction::EmulateCpuid {
                                leaf: registers.rax,
                                subleaf: registers.rcx,
                            },
                            advance_rip: true,
                        },
                    ),
                    VmxBasicExitReason::Rdmsr => Ok(
                        VmExitDisposition {
                            action: VmExitAction::ReadMsr {
                                index: #[verifier::truncate] ((registers.rcx & 0xFFFF_FFFF) as u32),
                            },
                            advance_rip: true,
                        },
                    ),
                    VmxBasicExitReason::Wrmsr => Ok(
                        VmExitDisposition {
                            action: VmExitAction::WriteMsr {
                                index: #[verifier::truncate] ((registers.rcx & 0xFFFF_FFFF) as u32),
                                value: ((registers.rdx & 0xFFFF_FFFF) << 32) | (registers.rax
                                    & 0xFFFF_FFFF),
                            },
                            advance_rip: true,
                        },
                    ),
                    VmxBasicExitReason::ExceptionOrNmi => handle_exception(
                        registers,
                        info,
                        hook_manager,
                    ),
                    VmxBasicExitReason::EptViolation => {
                        let qualification =
                            crate::vmerror::EptViolationExitQualification::from_exit_qualification(
                            info.exit_qualification,
                        );
                        Ok(
                            VmExitDisposition {
                                action: VmExitAction::AdjustEptPermissions {
                                    guest_physical_address: info.guest_physical_address,
                                    allow_read: qualification.read_access,
                                    allow_write: qualification.write_access,
                                    allow_execute: qualification.execute_access,
                                },
                                advance_rip: false,
                            },
                        )
                    },
                    _ => Err(HypervisorError::UnhandledVmExit(basic as u64)),
                }
            },
        }
    }

    /// Advances the guest's shadow RIP past the instruction that caused the
    /// exit, wrapping at the top of the address space, and returns the new
    /// RIP for the host to write back to the VMCS.
    pub fn advance_guest_rip(registers: &mut GuestRegisters, instruction_len: u64) -> (r: u64)
        ensures
            final(registers).rip as int == (old(registers).rip + instruction_len) % 0x1_0000_0000_0000_0000,
            old(registers).rip + instruction_len <= u64::MAX ==> final(registers).rip == old(
                registers,
            ).rip + instruction_len,
            r == final(registers).rip,
            *final(registers) == (GuestRegisters { rip: final(registers).rip, ..*old(registers) }),
    {
        let new_rip = registers.rip.wrapping_add(instruction_len);
        registers.rip = new_rip;
        new_rip
    }

    /// Ends VMX operation on this processor: control returns through the
    /// host RIP and RSP captured at launch, and nothing is promised of the
    /// general-purpose registers the bootstrap sees, so the shadow block is
    /// left untouched.
    pub fn exit_hypervisor(registers: &mut GuestRegisters)
        ensures
            *final(registers) == *old(registers),
    {
    }
}

/// Writes a CPUID result into the shadow registers the guest reads it
/// from: RAX, RBX, RCX and RDX, zero-extended.
pub fn apply_cpuid_result(registers: &mut GuestRegisters, eax: u32, ebx: u32, ecx: u32, edx: u32)
    ensures
        *final(registers) == old(registers).spec_with_cpuid_result(eax, ebx, ecx, edx),
{
    registers.rax = eax as u64;
    registers.rbx = ebx as u64;
    registers.rcx = ecx as u64;
    registers.rdx = edx as u64;
}

/// Writes a model-specific register value into the shadow registers as
/// RDMSR leaves it: the low half in RAX, the high half in RDX.
pub fn apply_msr_read(registers: &mut GuestRegisters, value: u64)
    ensures
        *final(registers) == old(registers).spec_with_msr_result(value),
{
    registers.rax = value & 0xFFFF_FFFF;
    registers.rdx = value >> 32;
}

/// The dispatcher advances the guest RIP exactly when the exit is a
/// pass-through emulation: CPUID or an MSR access. Injection, a hook
/// redirect, a granted EPT access and hypervisor teardown never advance
/// it.
pub proof fn lemma_disposition_advance(
    regs: GuestRegisters,
    info: VmExitInfo,
    hooks: Seq<(u64, Hook)>,
)
    ensures
        spec_handle_vmexit(regs, info, hooks).0 matches Ok(d) ==> (d.advance_rip <==> (
        d.action matches VmExitAction::EmulateCpuid { .. } || d.action
            matches VmExitAction::ReadMsr { .. } || d.action matches VmExitAction::WriteMsr {
            ..
        })),
{
}

} // verus!
