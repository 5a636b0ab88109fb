//! Capability-aware adjustment of VMX execution, entry and exit controls.
//!
//! Every control word written to the VMCS must agree with the capability
//! MSRs: the low half of a capability MSR (`allowed0`) lists bits the
//! processor forces to 1, the high half (`allowed1`) lists bits it permits.
//! `adjust_vmx_controls` folds a requested value against those halves.

use vstd::prelude::*;

verus! {

/// MSR index of IA32_VMX_BASIC.
pub const IA32_VMX_BASIC: u32 = 0x480;
/// MSR index of IA32_VMX_PINBASED_CTLS.
pub const IA32_VMX_PINBASED_CTLS: u32 = 0x481;
/// MSR index of IA32_VMX_PROCBASED_CTLS.
pub const IA32_VMX_PROCBASED_CTLS: u32 = 0x482;
/// MSR index of IA32_VMX_EXIT_CTLS.
pub const IA32_VMX_EXIT_CTLS: u32 = 0x483;
/// MSR index of IA32_VMX_ENTRY_CTLS.
pub const IA32_VMX_ENTRY_CTLS: u32 = 0x484;
/// MSR index of IA32_VMX_PROCBASED_CTLS2; it has no TRUE variant.
pub const IA32_VMX_PROCBASED_CTLS2: u32 = 0x48B;
/// MSR index of IA32_VMX_TRUE_PINBASED_CTLS.
pub const IA32_VMX_TRUE_PINBASED_CTLS: u32 = 0x48D;
/// MSR index of IA32_VMX_TRUE_PROCBASED_CTLS.
pub const IA32_VMX_TRUE_PROCBASED_CTLS: u32 = 0x48E;
/// MSR index of IA32_VMX_TRUE_EXIT_CTLS.
pub const IA32_VMX_TRUE_EXIT_CTLS: u32 = 0x48F;
/// MSR index of IA32_VMX_TRUE_ENTRY_CTLS.
pub const IA32_VMX_TRUE_ENTRY_CTLS: u32 = 0x490;

/// Primary processor-based controls: activate the secondary controls.
pub const PRIMARY_CTL_REQUESTED: u64 = 0x8000_0000;
/// Secondary controls: enable RDTSCP, INVPCID and XSAVES/XRSTORS.
pub const SECONDARY_CTL_REQUESTED: u64 = 0x0010_1008;
/// VM-entry controls: the guest runs in IA-32e mode.
pub const ENTRY_CTL_REQUESTED: u64 = 0x200;
/// VM-exit controls: the host runs in 64-bit address space.
pub const EXIT_CTL_REQUESTED: u64 = 0x200;
/// Pin-based controls: nothing requested; external interrupts reach the guest.
pub const PINBASED_CTL_REQUESTED: u64 = 0;

/// The class of VMX control being adjusted; each class has its own
/// capability MSR.
#[derive(Clone, Copy, PartialEq, Eq, Structural, Debug)]
pub enum VmxControl {
    PinBased,
    ProcessorBased,
    ProcessorBased2,
    VmExit,
    VmEntry,
}

/// Bit 55 of IA32_VMX_BASIC: the TRUE capability MSRs exist.
pub open spec fn spec_true_controls_supported(vmx_basic: u64) -> bool {
    vmx_basic & 0x0080_0000_0000_0000 != 0
}

/// The capability MSR that governs a control class, given whether the TRUE
/// variants exist. The secondary processor-based class has no TRUE variant.
pub open spec fn spec_capability_msr(control: VmxControl, true_supported: bool) -> u32 {
    match control {
        VmxControl::PinBased => if true_supported {
            IA32_VMX_TRUE_PINBASED_CTLS
        } else {
            IA32_VMX_PINBASED_CTLS
        },
        VmxControl::ProcessorBased => if true_supported {
            IA32_VMX_TRUE_PROCBASED_CTLS
        } else {
            IA32_VMX_PROCBASED_CTLS
        },
        VmxControl::VmExit => if true_supported {
            IA32_VMX_TRUE_EXIT_CTLS
        } else {
            IA32_VMX_EXIT_CTLS
        },
        VmxControl::VmEntry => if true_supported {
            IA32_VMX_TRUE_ENTRY_CTLS
        } else {
            IA32_VMX_ENTRY_CTLS
        },
        VmxControl::ProcessorBased2 => IA32_VMX_PROCBASED_CTLS2,
    }
}

/// Picks the capability MSR for a control class from the IA32_VMX_BASIC
/// value: the TRUE variant when IA32_VMX_BASIC bit 55 is set, except for the
/// secondary processor-based controls which have none.
pub fn vmx_capability_msr(control: VmxControl, vmx_basic: u64) -> (r: u32)
    ensures
        r == spec_capability_msr(control, spec_true_controls_supported(vmx_basic)),
{
    let true_supported: bool = vmx_basic & 0x0080_0000_0000_0000 != 0;
    match control {
        VmxControl::PinBased => if true_supported {
            IA32_VMX_TRUE_PINBASED_CTLS
        } else {
            IA32_VMX_PINBASED_CTLS
        },
        VmxControl::ProcessorBased => if true_supported {
            IA32_VMX_TRUE_PROCBASED_CTLS
        } else {
            IA32_VMX_PROCBASED_CTLS
        },
        VmxControl::VmExit => if true_supported {
            IA32_VMX_TRUE_EXIT_CTLS
        } else {
            IA32_VMX_EXIT_CTLS
        },
        VmxControl::VmEntry => if true_supported {
            IA32_VMX_TRUE_ENTRY_CTLS
        } else {
            IA32_VMX_ENTRY_CTLS
        },
        VmxControl::ProcessorBased2 => IA32_VMX_PROCBASED_CTLS2,
    }
}

/// The bits the capability MSR forces to 1: its low 32 bits.
pub open spec fn spec_allowed0(capabilities: u64) -> u32 {
    capabilities as u32
}

/// The bits the capability MSR permits: its high 32 bits.
pub open spec fn spec_allowed1(capabilities: u64) -> u32 {
    (capabilities >> 32) as u32
}

/// The effective control value: `(requested | allowed0) & allowed1`,
/// zero-extended to 64 bits.
pub open spec fn spec_adjust_vmx_controls(requested: u64, capabilities: u64) -> u64 {
    ((requested as u32 | spec_allowed0(capabilities)) & spec_allowed1(capabilities)) as u64
}

/// Folds a requested control value against a capability MSR value: every bit
/// the MSR forces to 1 is set, every bit it forbids is cleared, and the
/// request decides the rest.
pub fn adjust_vmx_controls(requested: u64, capabilities: u64) -> (r: u64)
    requires
        requested <= u32::MAX,
    ensures
        r == spec_adjust_vmx_controls(requested, capabilities),
{
    let requested32: u32 = requested as u32;
    let allowed0: u32 = #[verifier::truncate] (capabilities as u32);
    let allowed1: u32 = (capabilities >> 32) as u32;
    ((requested32 | allowed0) & allowed1) as u64
}

/// For every request, the adjusted control respects the capability MSR:
/// every forced bit is set (`(result | allowed0) == result`) and no
/// forbidden bit is set (`(result & !allowed1) == 0`). The first part asks
/// that the MSR is consistent: a bit it forces must also be one it permits,
/// which holds of every capability MSR the manual defines.
pub proof fn lemma_adjust_respects_capabilities(requested: u64, capabilities: u64)
    requires
        spec_allowed0(capabilities) & !spec_allowed1(capabilities) == 0,
    ensures
        spec_adjust_vmx_controls(requested, capabilities) as u32 | spec_allowed0(capabilities)
            == spec_adjust_vmx_controls(requested, capabilities) as u32,
        spec_adjust_vmx_controls(requested, capabilities) as u32 & !spec_allowed1(capabilities)
            == 0,
        spec_adjust_vmx_controls(requested, capabilities) <= u32::MAX,
{
    assert((capabilities as u32) & !((capabilities >> 32) as u32) == 0 ==> {
        let r = ((requested as u32 | capabilities as u32) & ((capabilities >> 32) as u32));
        (r | capabilities as u32) == r && (r & !((capabilities >> 32) as u32)) == 0
    }) by (bit_vector);
    assert(spec_adjust_vmx_controls(requested, capabilities) == (((requested as u32
        | capabilities as u32) & ((capabilities >> 32) as u32)) as u64));
}

} // verus!
