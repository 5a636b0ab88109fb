//! Core of a hardware-assisted hypervisor for Intel VT-x.
//!
//! The crate holds the logic of the hypervisor as verified functions over
//! plain values: capability probing, control-register fixup, VMCS field
//! computation, descriptor-table parsing, identity page-table construction,
//! and the VM-exit dispatcher. Everything that must touch hardware or the
//! host operating system (privileged instructions, physical allocation,
//! address translation) is left to the surrounding driver, which reads the
//! machine state into the snapshot types defined here, calls the verified
//! functions, and carries out the actions they return.

pub mod controls;
pub mod error;
pub mod exception;
pub mod events;
pub mod gdt;
pub mod hooks;
pub mod paging;
pub mod registers;
pub mod vcpu;
pub mod vmcs;
pub mod vmerror;
pub mod vmexit;
pub mod vmx;

pub use error::HypervisorError;
