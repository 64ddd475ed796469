//! The earliest-boot layer of a bare-metal RISC-V kernel, verified against
//! an explicit machine model.
//!
//! Before any scheduler, virtual memory or trap handling exists, this layer
//! brings the machine from "freshly loaded by firmware" to "diagnostics
//! available, uninitialized memory zeroed" and hands every failure path to
//! one non-returning termination point. The world it can observe — modeled
//! RAM, the firmware console transcript, the shutdown-request count and the
//! halt flag — is the explicit [`machine::Machine`] state that every
//! operation takes; its contracts state exactly which bytes each phase
//! leaves where.

pub mod boot;
pub mod console;
pub mod fault;
pub mod logging;
pub mod machine;
pub mod sbi;
