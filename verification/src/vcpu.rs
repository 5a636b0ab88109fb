//! A virtual processor's regions.

use vstd::prelude::*;

use crate::error::HypervisorError;
use crate::vmcs::{Vmcs, Vmxon};

verus! {

/// The per-processor pair of VMXON and VMCS regions with their physical
/// addresses.
pub struct Vcpu {
    /// The VMXON region.
    pub vmxon: Vmxon,
    /// The physical address of the VMXON region; zero until translated.
    pub vmxon_physical_address: u64,
    /// The VMCS region.
    pub vmcs: Vmcs,
    /// The physical address of the VMCS region; zero until translated.
    pub vmcs_physical_address: u64,
}

impl Vcpu {
    /// A virtual processor with zeroed regions and untranslated addresses.
    pub fn new() -> (r: Result<Vcpu, HypervisorError>)
        ensures
            r matches Ok(v) && v.vmxon.revision_id == 0 && v.vmcs.revision_id == 0
                && v.vmxon_physical_address == 0 && v.vmcs_physical_address == 0
                && v.vmxon.data@ == Seq::<u8>::new(
                crate::vmcs::REGION_DATA_SIZE as nat,
                |i: int| 0u8,
            ) && v.vmcs.data@ == Seq::<u8>::new(crate::vmcs::REGION_DATA_SIZE as nat, |i: int| 0u8),
    {
        Ok(
            Vcpu {
                vmxon: Vmxon::new(),
                vmxon_physical_address: 0,
                vmcs: Vmcs::new(),
                vmcs_physical_address: 0,
            },
        )
    }

}

} // verus!
