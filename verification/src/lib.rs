//! Privilege-context core of a RISC-V machine-mode firmware layer.
//!
//! A hart (hardware thread) running this firmware hosts one guest operating
//! system in supervisor mode.  This crate models how the hart's execution
//! state is represented while the guest runs, and how control is exchanged
//! between the two privilege levels: the register-image records
//! ([`SupervisorContext`], [`MachineContext`]), the transition engine that
//! crosses the machine/supervisor boundary in both directions, and the hart
//! lifecycle wrapper that builds the first supervisor context and reports the
//! terminal [`Operation`].

pub mod context;
pub mod hart;
pub mod transition;

pub use context::{MachineContext, SupervisorContext};
pub use hart::{Hart, Operation};
pub use transition::{enter_supervisor, return_to_machine, MachineState, PrivilegeMode, RegisterFile};
