//! Error taxonomy of the hypervisor core.

use vstd::prelude::*;

verus! {

/// Everything that can go wrong while bringing a logical processor into VMX
/// operation or while handling a VM-exit.
///
/// Setup errors (`CpuUnsupported` through `VmFailInvalid`) surface before or
/// during the entry sequence; the dispatcher errors surface afterwards and
/// make the exit trampoline tear VMX down on the affected processor.
#[derive(Clone, Copy, PartialEq, Eq, Structural, Debug)]
pub enum HypervisorError {
    /// The processor vendor is not "GenuineIntel".
    CpuUnsupported,
    /// CPUID.1:ECX.VMX is clear: no Virtual Machine Extensions.
    VmxUnsupported,
    /// IA32_FEATURE_CONTROL is locked without VMXON-outside-SMX permission.
    VmxBiosLock,
    /// The physically contiguous allocator refused a region.
    AllocationFailed,
    /// Virtual-to-physical translation returned zero.
    VirtualToPhysicalAddressFailed,
    /// A VMX instruction failed with a valid current VMCS; the payload is
    /// the VM-instruction-error number read from the VMCS.
    VmFailValid(u64),
    /// A VMX instruction failed without a valid current VMCS.
    VmFailInvalid,
    /// The exit reason read from the VMCS is not a basic exit reason.
    UnknownVmExitReason,
    /// The VM-instruction-error number read from the VMCS is not one the
    /// manual defines.
    UnknownVmInstructionError,
    /// The exit reason is recognized but the dispatcher has no handler for
    /// it; the payload is the basic exit reason.
    UnhandledVmExit(u64),
}

} // verus!
