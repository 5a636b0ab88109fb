//! Register images shared between guest mode and the handlers.

use vstd::prelude::*;

verus! {

/// The shadow block of the guest's general-purpose registers plus RIP, RSP
/// and RFLAGS.
///
/// RIP, RSP and RFLAGS are authoritative in the VMCS; the general-purpose
/// registers are authoritative here, because the VMCS does not store them.
/// The exit trampoline fills the block on VM-exit and restores it on
/// VMRESUME, in the fixed order the fields are declared in: this layout is
/// the contract between the assembly stub and the dispatcher.
#[derive(Clone, Copy, PartialEq, Eq, Structural, Debug)]
pub struct GuestRegisters {
    pub rax: u64,
    pub rbx: u64,
    pub rcx: u64,
    pub rdx: u64,
    pub rdi: u64,
    pub rsi: u64,
    pub rbp: u64,
    pub r8: u64,
    pub r9: u64,
    pub r10: u64,
    pub r11: u64,
    pub r12: u64,
    pub r13: u64,
    pub r14: u64,
    pub r15: u64,
    pub rip: u64,
    pub rsp: u64,
    pub rflags: u64,
}

impl Default for GuestRegisters {
    /// Every register zero.
    fn default() -> (r: GuestRegisters)
        ensures
            r == GuestRegisters::spec_zeroed(),
    {
        GuestRegisters {
            rax: 0,
            rbx: 0,
            rcx: 0,
            rdx: 0,
            rdi: 0,
            rsi: 0,
            rbp: 0,
            r8: 0,
            r9: 0,
            r10: 0,
            r11: 0,
            r12: 0,
            r13: 0,
            r14: 0,
            r15: 0,
            rip: 0,
            rsp: 0,
            rflags: 0,
        }
    }
}

impl GuestRegisters {
    /// The all-zero register block.
    pub open spec fn spec_zeroed() -> GuestRegisters {
        GuestRegisters {
            rax: 0,
            rbx: 0,
            rcx: 0,
            rdx: 0,
            rdi: 0,
            rsi: 0,
            rbp: 0,
            r8: 0,
            r9: 0,
            r10: 0,
            r11: 0,
            r12: 0,
            r13: 0,
            r14: 0,
            r15: 0,
            rip: 0,
            rsp: 0,
            rflags: 0,
        }
    }

    /// The same block with only the general-purpose registers that CPUID
    /// writes (RAX, RBX, RCX, RDX) replaced.
    pub open spec fn spec_with_cpuid_result(
        self,
        eax: u32,
        ebx: u32,
        ecx: u32,
        edx: u32,
    ) -> GuestRegisters {
        GuestRegisters {
            rax: eax as u64,
            rbx: ebx as u64,
            rcx: ecx as u64,
            rdx: edx as u64,
            ..self
        }
    }

    /// The same block with RAX and RDX holding the low and high halves of a
    /// model-specific register value, as RDMSR leaves them.
    pub open spec fn spec_with_msr_result(self, value: u64) -> GuestRegisters {
        GuestRegisters { rax: value & 0xFFFF_FFFF, rdx: value >> 32, ..self }
    }
}

/// The execution context captured on a logical processor before entering
/// VMX operation. It seeds the guest state so that the virtual machine
/// begins executing exactly where the capture returned.
#[derive(Clone, Copy, PartialEq, Eq, Structural, Debug)]
pub struct Context {
    /// Captured segment selectors.
    pub seg_cs: u16,
    pub seg_ds: u16,
    pub seg_es: u16,
    pub seg_fs: u16,
    pub seg_gs: u16,
    pub seg_ss: u16,
    /// Captured RFLAGS.
    pub e_flags: u64,
    /// Captured debug register 7.
    pub dr7: u64,
    /// Captured general-purpose registers.
    pub rax: u64,
    pub rbx: u64,
    pub rcx: u64,
    pub rdx: u64,
    pub rdi: u64,
    pub rsi: u64,
    pub rbp: u64,
    pub r8: u64,
    pub r9: u64,
    pub r10: u64,
    pub r11: u64,
    pub r12: u64,
    pub r13: u64,
    pub r14: u64,
    pub r15: u64,
    /// Captured stack pointer and instruction pointer.
    pub rsp: u64,
    pub rip: u64,
}

} // verus!
