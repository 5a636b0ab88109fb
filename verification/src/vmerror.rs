//! Classification of VM-exit reasons, VM-instruction errors, exit
//! interruption information and EPT-violation qualifications.

use vstd::prelude::*;

verus! {

/// The basic VM-exit reasons of the VMX appendix on basic exit reasons,
/// carried in the low 16 bits of the exit-reason field.
#[derive(Clone, Copy, PartialEq, Eq, Structural, Debug)]
pub enum VmxBasicExitReason {
    ExceptionOrNmi,
    ExternalInterrupt,
    TripleFault,
    InitSignal,
    StartupIpi,
    IoSystemManagementInterrupt,
    OtherSmi,
    InterruptWindow,
    NmiWindow,
    TaskSwitch,
    Cpuid,
    Getsec,
    Hlt,
    Invd,
    Invlpg,
    Rdpmc,
    Rdtsc,
    Rsm,
    Vmcall,
    Vmclear,
    Vmlaunch,
    Vmptrld,
    Vmptrst,
    Vmread,
    Vmresume,
    Vmwrite,
    Vmxoff,
    Vmxon,
    ControlRegisterAccesses,
    MovDr,
    IoInstruction,
    Rdmsr,
    Wrmsr,
    VmEntryFailureInvalidGuestState,
    VmEntryFailureMsrLoading,
    Mwait,
    MonitorTrapFlag,
    Monitor,
    Pause,
    VmEntryFailureMachineCheckEvent,
    TprBelowThreshold,
    ApicAccess,
    VirtualizedEoi,
    AccessToGdtrOrIdtr,
    AccessToLdtrOrTr,
    EptViolation,
    EptMisconfiguration,
    Invept,
    Rdtscp,
    VmxPreemptionTimerExpired,
    Invvpid,
    WbinvdOrWbnoinvd,
    Xsetbv,
    ApicWrite,
    Rdrand,
    Invpcid,
    Vmfunc,
    Encls,
    Rdseed,
    PageModificationLogFull,
    Xsaves,
    Xrstors,
    SppRelatedEvent,
    Umwait,
    Tpause,
    Loadiwkey,
}

/// The basic exit reason a 16-bit reason number names, if any.
pub open spec fn spec_basic_exit_reason_from_u32(value: u32) -> Option<VmxBasicExitReason> {
    match value {
        0u32 => Some(VmxBasicExitReason::ExceptionOrNmi),
        1u32 => Some(VmxBasicExitReason::ExternalInterrupt),
        2u32 => Some(VmxBasicExitReason::TripleFault),
        3u32 => Some(VmxBasicExitReason::InitSignal),
        4u32 => Some(VmxBasicExitReason::StartupIpi),
        5u32 => Some(VmxBasicExitReason::IoSystemManagementInterrupt),
        6u32 => Some(VmxBasicExitReason::OtherSmi),
        7u32 => Some(VmxBasicExitReason::InterruptWindow),
        8u32 => Some(VmxBasicExitReason::NmiWindow),
        9u32 => Some(VmxBasicExitReason::TaskSwitch),
        10u32 => Some(VmxBasicExitReason::Cpuid),
        11u32 => Some(VmxBasicExitReason::Getsec),
        12u32 => Some(VmxBasicExitReason::Hlt),
        13u32 => Some(VmxBasicExitReason::Invd),
        14u32 => Some(VmxBasicExitReason::Invlpg),
        15u32 => Some(VmxBasicExitReason::Rdpmc),
        16u32 => Some(VmxBasicExitReason::Rdtsc),
        17u32 => Some(VmxBasicExitReason::Rsm),
        18u32 => Some(VmxBasicExitReason::Vmcall),
        19u32 => Some(VmxBasicExitReason::Vmclear),
        20u32 => Some(VmxBasicExitReason::Vmlaunch),
        21u32 => Some(VmxBasicExitReason::Vmptrld),
        22u32 => Some(VmxBasicExitReason::Vmptrst),
        23u32 => Some(VmxBasicExitReason::Vmread),
        24u32 => Some(VmxBasicExitReason::Vmresume),
        25u32 => Some(VmxBasicExitReason::Vmwrite),
        26u32 => Some(VmxBasicExitReason::Vmxoff),
        27u32 => Some(VmxBasicExitReason::Vmxon),
        28u32 => Some(VmxBasicExitReason::ControlRegisterAccesses),
        29u32 => Some(VmxBasicExitReason::MovDr),
        30u32 => Some(VmxBasicExitReason::IoInstruction),
        31u32 => Some(VmxBasicExitReason::Rdmsr),
        32u32 => Some(VmxBasicExitReason::Wrmsr),
        33u32 => Some(VmxBasicExitReason::VmEntryFailureInvalidGuestState),
        34u32 => Some(VmxBasicExitReason::VmEntryFailureMsrLoading),
        36u32 => Some(VmxBasicExitReason::Mwait),
        37u32 => Some(VmxBasicExitReason::MonitorTrapFlag),
        39u32 => Some(VmxBasicExitReason::Monitor),
        40u32 => Some(VmxBasicExitReason::Pause),
        41u32 => Some(VmxBasicExitReason::VmEntryFailureMachineCheckEvent),
        43u32 => Some(VmxBasicExitReason::TprBelowThreshold),
        44u32 => Some(VmxBasicExitReason::ApicAccess),
        45u32 => Some(VmxBasicExitReason::VirtualizedEoi),
        46u32 => Some(VmxBasicExitReason::AccessToGdtrOrIdtr),
        47u32 => Some(VmxBasicExitReason::AccessToLdtrOrTr),
        48u32 => Some(VmxBasicExitReason::EptViolation),
        49u32 => Some(VmxBasicExitReason::EptMisconfiguration),
        50u32 => Some(VmxBasicExitReason::Invept),
        51u32 => Some(VmxBasicExitReason::Rdtscp),
        52u32 => Some(VmxBasicExitReason::VmxPreemptionTimerExpired),
        53u32 => Some(VmxBasicExitReason::Invvpid),
        54u32 => Some(VmxBasicExitReason::WbinvdOrWbnoinvd),
        55u32 => Some(VmxBasicExitReason::Xsetbv),
        56u32 => Some(VmxBasicExitReason::ApicWrite),
        57u32 => Some(VmxBasicExitReason::Rdrand),
        58u32 => Some(VmxBasicExitReason::Invpcid),
        59u32 => Some(VmxBasicExitReason::Vmfunc),
        60u32 => Some(VmxBasicExitReason::Encls),
        61u32 => Some(VmxBasicExitReason::Rdseed),
        62u32 => Some(VmxBasicExitReason::PageModificationLogFull),
        63u32 => Some(VmxBasicExitReason::Xsaves),
        64u32 => Some(VmxBasicExitReason::Xrstors),
        66u32 => Some(VmxBasicExitReason::SppRelatedEvent),
        67u32 => Some(VmxBasicExitReason::Umwait),
        68u32 => Some(VmxBasicExitReason::Tpause),
        69u32 => Some(VmxBasicExitReason::Loadiwkey),
        _ => None,
    }
}

impl VmxBasicExitReason {
    /// Classifies a basic exit-reason number; numbers the manual leaves
    /// undefined yield `None`.
    pub fn from_u32(value: u32) -> (r: Option<VmxBasicExitReason>)
        ensures
            r == spec_basic_exit_reason_from_u32(value),
    {
        match value {
            0u32 => Some(VmxBasicExitReason::ExceptionOrNmi),
            1u32 => Some(VmxBasicExitReason::ExternalInterrupt),
            2u32 => Some(VmxBasicExitReason::TripleFault),
            3u32 => Some(VmxBasicExitReason::InitSignal),
            4u32 => Some(VmxBasicExitReason::StartupIpi),
            5u32 => Some(VmxBasicExitReason::IoSystemManagementInterrupt),
            6u32 => Some(VmxBasicExitReason::OtherSmi),
            7u32 => Some(VmxBasicExitReason::InterruptWindow),
            8u32 => Some(VmxBasicExitReason::NmiWindow),
            9u32 => Some(VmxBasicExitReason::TaskSwitch),
            10u32 => Some(VmxBasicExitReason::Cpuid),
            11u32 => Some(VmxBasicExitReason::Getsec),
            12u32 => Some(VmxBasicExitReason::Hlt),
            13u32 => Some(VmxBasicExitReason::Invd),
            14u32 => Some(VmxBasicExitReason::Invlpg),
            15u32 => Some(VmxBasicExitReason::Rdpmc),
            16u32 => Some(VmxBasicExitReason::Rdtsc),
            17u32 => Some(VmxBasicExitReason::Rsm),
            18u32 => Some(VmxBasicExitReason::Vmcall),
            19u32 => Some(VmxBasicExitReason::Vmclear),
            20u32 => Some(VmxBasicExitReason::Vmlaunch),
            21u32 => Some(VmxBasicExitReason::Vmptrld),
            22u32 => Some(VmxBasicExitReason::Vmptrst),
            23u32 => Some(VmxBasicExitReason::Vmread),
            24u32 => Some(VmxBasicExitReason::Vmresume),
            25u32 => Some(VmxBasicExitReason::Vmwrite),
            26u32 => Some(VmxBasicExitReason::Vmxoff),
            27u32 => Some(VmxBasicExitReason::Vmxon),
            28u32 => Some(VmxBasicExitReason::ControlRegisterAccesses),
            29u32 => Some(VmxBasicExitReason::MovDr),
            30u32 => Some(VmxBasicExitReason::IoInstruction),
            31u32 => Some(VmxBasicExitReason::Rdmsr),
            32u32 => Some(VmxBasicExitReason::Wrmsr),
            33u32 => Some(VmxBasicExitReason::VmEntryFailureInvalidGuestState),
            34u32 => Some(VmxBasicExitReason::VmEntryFailureMsrLoading),
            36u32 => Some(VmxBasicExitReason::Mwait),
            37u32 => Some(VmxBasicExitReason::MonitorTrapFlag),
            39u32 => Some(VmxBasicExitReason::Monitor),
            40u32 => Some(VmxBasicExitReason::Pause),
            41u32 => Some(VmxBasicExitReason::VmEntryFailureMachineCheckEvent),
            43u32 => Some(VmxBasicExitReason::TprBelowThreshold),
            44u32 => Some(VmxBasicExitReason::ApicAccess),
            45u32 => Some(VmxBasicExitReason::VirtualizedEoi),
            46u32 => Some(VmxBasicExitReason::AccessToGdtrOrIdtr),
            47u32 => Some(VmxBasicExitReason::AccessToLdtrOrTr),
            48u32 => Some(VmxBasicExitReason::EptViolation),
            49u32 => Some(VmxBasicExitReason::EptMisconfiguration),
            50u32 => Some(VmxBasicExitReason::Invept),
            51u32 => Some(VmxBasicExitReason::Rdtscp),
            52u32 => Some(VmxBasicExitReason::VmxPreemptionTimerExpired),
            53u32 => Some(VmxBasicExitReason::Invvpid),
            54u32 => Some(VmxBasicExitReason::WbinvdOrWbnoinvd),
            55u32 => Some(VmxBasicExitReason::Xsetbv),
            56u32 => Some(VmxBasicExitReason::ApicWrite),
            57u32 => Some(VmxBasicExitReason::Rdrand),
            58u32 => Some(VmxBasicExitReason::Invpcid),
            59u32 => Some(VmxBasicExitReason::Vmfunc),
            60u32 => Some(VmxBasicExitReason::Encls),
            61u32 => Some(VmxBasicExitReason::Rdseed),
            62u32 => Some(VmxBasicExitReason::PageModificationLogFull),
            63u32 => Some(VmxBasicExitReason::Xsaves),
            64u32 => Some(VmxBasicExitReason::Xrstors),
            66u32 => Some(VmxBasicExitReason::SppRelatedEvent),
            67u32 => Some(VmxBasicExitReason::Umwait),
            68u32 => Some(VmxBasicExitReason::Tpause),
            69u32 => Some(VmxBasicExitReason::Loadiwkey),
            _ => None,
        }
    }
}

/// The VM-instruction error numbers the manual defines; read from the
/// VM-instruction-error field after a VMX instruction fails with a valid
/// current VMCS.
#[derive(Clone, Copy, PartialEq, Eq, Structural, Debug)]
pub enum VmInstructionError {
    VmcallInVmxRoot,
    VmclearInvalidAddress,
    VmclearVmxonPointer,
    VmlaunchNonClearVmcs,
    VmresumeNonLaunchedVmcs,
    VmresumeAfterVmxoff,
    VmentryInvalidControlFields,
    VmentryInvalidHostState,
    VmptrldInvalidAddress,
    VmptrldVmxonPointer,
    VmptrldIncorrectRevision,
    VmreadVmwriteUnsupportedComponent,
    VmwriteReadOnlyComponent,
    VmxonInVmxRoot,
    VmentryInvalidExecutivePointer,
    VmentryNonLaunchedExecutive,
    VmentryExecutiveNotVmxonPointer,
    VmcallNonClearVmcs,
    VmcallInvalidExitControls,
    VmcallIncorrectMsegRevision,
    VmxoffDualMonitor,
    VmcallInvalidSmmFeatures,
    VmentryInvalidExecutiveControls,
    VmentryEventsBlockedByMovSs,
    InvalidOperandInveptInvvpid,
}

/// The VM-instruction error a number names, if any; 0 means no error was
/// recorded and is not an error number.
pub open spec fn spec_vm_instruction_error_from_u32(value: u32) -> Option<VmInstructionError> {
    match value {
        1u32 => Some(VmInstructionError::VmcallInVmxRoot),
        2u32 => Some(VmInstructionError::VmclearInvalidAddress),
        3u32 => Some(VmInstructionError::VmclearVmxonPointer),
        4u32 => Some(VmInstructionError::VmlaunchNonClearVmcs),
        5u32 => Some(VmInstructionError::VmresumeNonLaunchedVmcs),
        6u32 => Some(VmInstructionError::VmresumeAfterVmxoff),
        7u32 => Some(VmInstructionError::VmentryInvalidControlFields),
        8u32 => Some(VmInstructionError::VmentryInvalidHostState),
        9u32 => Some(VmInstructionError::VmptrldInvalidAddress),
        10u32 => Some(VmInstructionError::VmptrldVmxonPointer),
        11u32 => Some(VmInstructionError::VmptrldIncorrectRevision),
        12u32 => Some(VmInstructionError::VmreadVmwriteUnsupportedComponent),
        13u32 => Some(VmInstructionError::VmwriteReadOnlyComponent),
        15u32 => Some(VmInstructionError::VmxonInVmxRoot),
        16u32 => Some(VmInstructionError::VmentryInvalidExecutivePointer),
        17u32 => Some(VmInstructionError::VmentryNonLaunchedExecutive),
        18u32 => Some(VmInstructionError::VmentryExecutiveNotVmxonPointer),
        19u32 => Some(VmInstructionError::VmcallNonClearVmcs),
        20u32 => Some(VmInstructionError::VmcallInvalidExitControls),
        22u32 => Some(VmInstructionError::VmcallIncorrectMsegRevision),
        23u32 => Some(VmInstructionError::VmxoffDualMonitor),
        24u32 => Some(VmInstructionError::VmcallInvalidSmmFeatures),
        25u32 => Some(VmInstructionError::VmentryInvalidExecutiveControls),
        26u32 => Some(VmInstructionError::VmentryEventsBlockedByMovSs),
        28u32 => Some(VmInstructionError::InvalidOperandInveptInvvpid),
        _ => None,
    }
}

impl VmInstructionError {
    /// Classifies a VM-instruction error number; numbers the manual leaves
    /// undefined yield `None`.
    pub fn from_u32(value: u32) -> (r: Option<VmInstructionError>)
        ensures
            r == spec_vm_instruction_error_from_u32(value),
    {
        match value {
            1u32 => Some(VmInstructionError::VmcallInVmxRoot),
            2u32 => Some(VmInstructionError::VmclearInvalidAddress),
            3u32 => Some(VmInstructionError::VmclearVmxonPointer),
            4u32 => Some(VmInstructionError::VmlaunchNonClearVmcs),
            5u32 => Some(VmInstructionError::VmresumeNonLaunchedVmcs),
            6u32 => Some(VmInstructionError::VmresumeAfterVmxoff),
            7u32 => Some(VmInstructionError::VmentryInvalidControlFields),
            8u32 => Some(VmInstructionError::VmentryInvalidHostState),
            9u32 => Some(VmInstructionError::VmptrldInvalidAddress),
            10u32 => Some(VmInstructionError::VmptrldVmxonPointer),
            11u32 => Some(VmInstructionError::VmptrldIncorrectRevision),
            12u32 => Some(VmInstructionError::VmreadVmwriteUnsupportedComponent),
            13u32 => Some(VmInstructionError::VmwriteReadOnlyComponent),
            15u32 => Some(VmInstructionError::VmxonInVmxRoot),
            16u32 => Some(VmInstructionError::VmentryInvalidExecutivePointer),
            17u32 => Some(VmInstructionError::VmentryNonLaunchedExecutive),
            18u32 => Some(VmInstructionError::VmentryExecutiveNotVmxonPointer),
            19u32 => Some(VmInstructionError::VmcallNonClearVmcs),
            20u32 => Some(VmInstructionError::VmcallInvalidExitControls),
            22u32 => Some(VmInstructionError::VmcallIncorrectMsegRevision),
            23u32 => Some(VmInstructionError::VmxoffDualMonitor),
            24u32 => Some(VmInstructionError::VmcallInvalidSmmFeatures),
            25u32 => Some(VmInstructionError::VmentryInvalidExecutiveControls),
            26u32 => Some(VmInstructionError::VmentryEventsBlockedByMovSs),
            28u32 => Some(VmInstructionError::InvalidOperandInveptInvvpid),
            _ => None,
        }
    }
}

/// The exception and interrupt vectors the architecture defines for the
/// exception/NMI exit sub-dispatch.
#[derive(Clone, Copy, PartialEq, Eq, Structural, Debug)]
pub enum ExceptionInterrupt {
    DivideError,
    Debug,
    NonMaskableInterrupt,
    Breakpoint,
    Overflow,
    BoundRangeExceeded,
    InvalidOpcode,
    DeviceNotAvailable,
    DoubleFault,
    CoprocessorSegmentOverrun,
    InvalidTss,
    SegmentNotPresent,
    StackSegmentFault,
    GeneralProtectionFault,
    PageFault,
    FloatingPointError,
    AlignmentCheck,
    MachineCheck,
    SimdException,
    VirtualizationException,
    ControlProtectionException,
}

/// The exception a vector number names, if any; 15 and vectors above 21
/// are reserved.
pub open spec fn spec_exception_from_u32(value: u32) -> Option<ExceptionInterrupt> {
    match value {
        0u32 => Some(ExceptionInterrupt::DivideError),
        1u32 => Some(ExceptionInterrupt::Debug),
        2u32 => Some(ExceptionInterrupt::NonMaskableInterrupt),
        3u32 => Some(ExceptionInterrupt::Breakpoint),
        4u32 => Some(ExceptionInterrupt::Overflow),
        5u32 => Some(ExceptionInterrupt::BoundRangeExceeded),
        6u32 => Some(ExceptionInterrupt::InvalidOpcode),
        7u32 => Some(ExceptionInterrupt::DeviceNotAvailable),
        8u32 => Some(ExceptionInterrupt::DoubleFault),
        9u32 => Some(ExceptionInterrupt::CoprocessorSegmentOverrun),
        10u32 => Some(ExceptionInterrupt::InvalidTss),
        11u32 => Some(ExceptionInterrupt::SegmentNotPresent),
        12u32 => Some(ExceptionInterrupt::StackSegmentFault),
        13u32 => Some(ExceptionInterrupt::GeneralProtectionFault),
        14u32 => Some(ExceptionInterrupt::PageFault),
        16u32 => Some(ExceptionInterrupt::FloatingPointError),
        17u32 => Some(ExceptionInterrupt::AlignmentCheck),
        18u32 => Some(ExceptionInterrupt::MachineCheck),
        19u32 => Some(ExceptionInterrupt::SimdException),
        20u32 => Some(ExceptionInterrupt::VirtualizationException),
        21u32 => Some(ExceptionInterrupt::ControlProtectionException),
        _ => None,
    }
}

impl ExceptionInterrupt {
    /// Classifies an exception vector; reserved vectors yield `None`.
    pub fn from_u32(value: u32) -> (r: Option<ExceptionInterrupt>)
        ensures
            r == spec_exception_from_u32(value),
    {
        match value {
            0u32 => Some(ExceptionInterrupt::DivideError),
            1u32 => Some(ExceptionInterrupt::Debug),
            2u32 => Some(ExceptionInterrupt::NonMaskableInterrupt),
            3u32 => Some(ExceptionInterrupt::Breakpoint),
            4u32 => Some(ExceptionInterrupt::Overflow),
            5u32 => Some(ExceptionInterrupt::BoundRangeExceeded),
            6u32 => Some(ExceptionInterrupt::InvalidOpcode),
            7u32 => Some(ExceptionInterrupt::DeviceNotAvailable),
            8u32 => Some(ExceptionInterrupt::DoubleFault),
            9u32 => Some(ExceptionInterrupt::CoprocessorSegmentOverrun),
            10u32 => Some(ExceptionInterrupt::InvalidTss),
            11u32 => Some(ExceptionInterrupt::SegmentNotPresent),
            12u32 => Some(ExceptionInterrupt::StackSegmentFault),
            13u32 => Some(ExceptionInterrupt::GeneralProtectionFault),
            14u32 => Some(ExceptionInterrupt::PageFault),
            16u32 => Some(ExceptionInterrupt::FloatingPointError),
            17u32 => Some(ExceptionInterrupt::AlignmentCheck),
            18u32 => Some(ExceptionInterrupt::MachineCheck),
            19u32 => Some(ExceptionInterrupt::SimdException),
            20u32 => Some(ExceptionInterrupt::VirtualizationException),
            21u32 => Some(ExceptionInterrupt::ControlProtectionException),
            _ => None,
        }
    }
}

/// The VM-exit interruption information written by the processor on an
/// exception or NMI exit: vector in bits 0..8, interruption type in bits
/// 8..11, error-code-valid in bit 11, NMI unblocking in bit 12, valid in
/// bit 31; bits 13..31 are reserved and must be zero.
#[derive(Clone, Copy, PartialEq, Eq, Structural, Debug)]
pub struct VmExitInterruptionInformation {
    /// The vector of the interrupt or exception.
    pub vector: u8,
    /// The interruption type.
    pub interruption_type: u8,
    /// Whether the exit saved an error code.
    pub error_code_valid: bool,
    /// NMI unblocking due to IRET.
    pub nmi_unblocking: bool,
}

/// Structural validity of an interruption-information word: the valid bit
/// is set and the reserved bits 13..31 are clear.
pub open spec fn spec_interruption_info_valid(value: u32) -> bool {
    value & 0x8000_0000 != 0 && value & 0x7FFF_E000 == 0
}

/// The fields packed in an interruption-information word.
pub open spec fn spec_interruption_info_fields(value: u32) -> VmExitInterruptionInformation {
    VmExitInterruptionInformation {
        vector: (value & 0xFF) as u8,
        interruption_type: ((value >> 8) & 0x7) as u8,
        error_code_valid: value & 0x800 != 0,
        nmi_unblocking: value & 0x1000 != 0,
    }
}

impl VmExitInterruptionInformation {
    /// Parses the interruption-information word; a word without the valid
    /// bit, or with reserved bits set, fails structural validation and
    /// yields `None`.
    pub fn from_u32(value: u32) -> (r: Option<VmExitInterruptionInformation>)
        ensures
            r is Some <==> spec_interruption_info_valid(value),
            spec_interruption_info_valid(value) ==> r == Some(
                spec_interruption_info_fields(value),
            ),
    {
        if value & 0x8000_0000u32 != 0 && value & 0x7FFF_E000u32 == 0 {
            Some(
                VmExitInterruptionInformation {
                    vector: (value & 0xFF) as u8,
                    interruption_type: ((value >> 8) & 0x7) as u8,
                    error_code_valid: value & 0x800 != 0,
                    nmi_unblocking: value & 0x1000 != 0,
                },
            )
        } else {
            None
        }
    }
}

/// The exit qualification of an EPT violation, decoded bit by bit.
#[derive(Clone, Copy, PartialEq, Eq, Structural, Debug)]
pub struct EptViolationExitQualification {
    /// The violation was caused by a data read.
    pub read_access: bool,
    /// The violation was caused by a data write.
    pub write_access: bool,
    /// The violation was caused by an instruction fetch.
    pub execute_access: bool,
    /// The page would have been readable.
    pub readable: bool,
    /// The page would have been writable.
    pub writable: bool,
    /// The page would have been executable.
    pub executable: bool,
    /// The guest-linear-address field is valid.
    pub valid_guest_linear_address: bool,
    /// The violation occurred during the translation of the linear address
    /// itself, not during an access to a paging structure.
    pub caused_by_translation: bool,
}

/// The fields packed in an EPT-violation exit qualification.
pub open spec fn spec_ept_violation_fields(q: u64) -> EptViolationExitQualification {
    EptViolationExitQualification {
        read_access: q & 0x1 != 0,
        write_access: q & 0x2 != 0,
        execute_access: q & 0x4 != 0,
        readable: q & 0x8 != 0,
        writable: q & 0x10 != 0,
        executable: q & 0x20 != 0,
        valid_guest_linear_address: q & 0x80 != 0,
        caused_by_translation: q & 0x100 != 0,
    }
}

impl EptViolationExitQualification {
    /// Decodes the exit qualification of an EPT violation.
    pub fn from_exit_qualification(q: u64) -> (r: EptViolationExitQualification)
        ensures
            r == spec_ept_violation_fields(q),
    {
        EptViolationExitQualification {
            read_access: q & 0x1 != 0,
            write_access: q & 0x2 != 0,
            execute_access: q & 0x4 != 0,
            readable: q & 0x8 != 0,
            writable: q & 0x10 != 0,
            executable: q & 0x20 != 0,
            valid_guest_linear_address: q & 0x80 != 0,
            caused_by_translation: q & 0x100 != 0,
        }
    }
}

} // verus!
