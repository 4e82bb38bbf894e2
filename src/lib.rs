//! Configuration model and handle lifecycle for a RISC-V machine emulator.
//!
//! The emulator itself is a native engine. This library decides everything
//! that can be decided before and after a call into it: how a partially
//! specified configuration is completed with architectural reset values,
//! which memory accesses a live handle admits, and how the engine's run
//! outcomes are classified.

pub mod constants;
pub mod configuration;
pub mod machine;
