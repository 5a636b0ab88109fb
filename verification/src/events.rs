//! Event injection into the guest.
//!
//! An injected event is a write of the VM-entry interruption-information
//! field, together with the VM-entry exception error code when the vector
//! delivers one. The field packs the vector in bits 0..8, the interruption
//! type in bits 8..11, the error-code-valid flag in bit 11, and the valid
//! flag in bit 31.

use vstd::prelude::*;

verus! {

/// Interruption type of a hardware exception (#PF, #GP and the like).
pub const INTERRUPTION_TYPE_HARDWARE_EXCEPTION: u8 = 3;

/// Interruption type of a software exception (#BP, #OF).
pub const INTERRUPTION_TYPE_SOFTWARE_EXCEPTION: u8 = 6;

/// The vector of a breakpoint exception.
pub const VECTOR_BREAKPOINT: u8 = 3;

/// The vector of a general-protection fault.
pub const VECTOR_GENERAL_PROTECTION: u8 = 13;

/// The vector of a page fault.
pub const VECTOR_PAGE_FAULT: u8 = 14;

/// An event to deliver to the guest on the next VM entry: the vector, the
/// interruption type, and the error code when one accompanies the vector.
#[derive(Clone, Copy, PartialEq, Eq, Structural, Debug)]
pub struct EventInjection {
    /// The exception vector.
    pub vector: u8,
    /// The interruption type the VMX encoding defines.
    pub interruption_type: u8,
    /// Whether an error code is delivered with the event.
    pub deliver_error_code: bool,
    /// The error code pushed on the guest's stack when delivered.
    pub error_code: u32,
}

/// The VM-entry interruption-information word for a vector, an
/// interruption type (its low 3 bits) and the error-code-valid flag, with
/// the valid bit set.
pub open spec fn spec_interruption_info(vector: u8, interruption_type: u8, deliver: bool) -> u32 {
    (vector as u32) | (((interruption_type as u32) & 0x7) << 8) | (if deliver {
        0x800u32
    } else {
        0u32
    }) | 0x8000_0000u32
}

impl EventInjection {
    /// A page fault re-injected with the error code the guest would have
    /// seen: vector 14, hardware exception.
    pub fn vmentry_inject_pf(error_code: u32) -> (r: EventInjection)
        ensures
            r == (EventInjection {
                vector: VECTOR_PAGE_FAULT,
                interruption_type: INTERRUPTION_TYPE_HARDWARE_EXCEPTION,
                deliver_error_code: true,
                error_code,
            }),
    {
        EventInjection {
            vector: VECTOR_PAGE_FAULT,
            interruption_type: INTERRUPTION_TYPE_HARDWARE_EXCEPTION,
            deliver_error_code: true,
            error_code,
        }
    }

    /// A general-protection fault re-injected with its error code: vector
    /// 13, hardware exception.
    pub fn vmentry_inject_gp(error_code: u32) -> (r: EventInjection)
        ensures
            r == (EventInjection {
                vector: VECTOR_GENERAL_PROTECTION,
                interruption_type: INTERRUPTION_TYPE_HARDWARE_EXCEPTION,
                deliver_error_code: true,
                error_code,
            }),
    {
        EventInjection {
            vector: VECTOR_GENERAL_PROTECTION,
            interruption_type: INTERRUPTION_TYPE_HARDWARE_EXCEPTION,
            deliver_error_code: true,
            error_code,
        }
    }

    /// A breakpoint delivered to the guest: vector 3, software exception,
    /// no error code.
    pub fn vmentry_inject_bp() -> (r: EventInjection)
        ensures
            r == (EventInjection {
                vector: VECTOR_BREAKPOINT,
                interruption_type: INTERRUPTION_TYPE_SOFTWARE_EXCEPTION,
                deliver_error_code: false,
                error_code: 0,
            }),
    {
        EventInjection {
            vector: VECTOR_BREAKPOINT,
            interruption_type: INTERRUPTION_TYPE_SOFTWARE_EXCEPTION,
            deliver_error_code: false,
            error_code: 0,
        }
    }

    /// Packs the event into the VM-entry interruption-information word:
    /// vector in bits 0..8, type in bits 8..11, error-code-valid in bit 11,
    /// valid in bit 31.
    pub fn interruption_info(&self) -> (r: u32)
        ensures
            r == spec_interruption_info(self.vector, self.interruption_type,
                self.deliver_error_code),
            r & 0x8000_0000u32 != 0,
            r & 0xFF == self.vector,
    {
        let vector32: u32 = self.vector as u32;
        let type32: u32 = ((self.interruption_type as u32) & 0x7) << 8;
        let deliver32: u32 = if self.deliver_error_code {
            0x800u32
        } else {
            0u32
        };
        let r: u32 = vector32 | type32 | deliver32 | 0x8000_0000u32;
        proof {
            let v = self.vector;
            let it = self.interruption_type;
            let t = type32;
            let d = deliver32;
            assert(t & 0xF8FF == 0) by (bit_vector)
                requires
                    t == ((it as u32) & 0x7) << 8,
            ;
            assert((v as u32 | t | d | 0x8000_0000u32) & 0x8000_0000u32 != 0 && (v as u32 | t | d
                | 0x8000_0000u32) & 0xFF == v as u32) by (bit_vector)
                requires
                    t & 0xF8FF == 0 && (d == 0 || d == 0x800),
            ;
        }
        r
    }
}

} // verus!
