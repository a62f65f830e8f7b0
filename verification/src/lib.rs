//! A calling layer for the RISC-V Supervisor Binary Interface (SBI).
//!
//! Privileged software asks firmware for services through a single trapping
//! instruction.  This crate verifies the call marshaling protocol around that
//! trap: how extension and function identifiers and up to three scalar
//! arguments are packed into machine registers, and how the two-word
//! `(error, value)` result — or the legacy convention's single word — is
//! unpacked, all stated and proved against an explicit register model.
//!
//! The trap itself is a capability ([`trap::TrapExecutor`]): a target
//! implements it with the real trapping instruction, and a test harness with
//! the scripted handler in [`substitute`].

pub mod calls;
pub mod services;
pub mod substitute;
pub mod trap;
