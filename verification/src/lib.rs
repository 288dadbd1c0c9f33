//! A verified core for an Intel 8080 emulator.
//!
//! The machine is modelled by a ghost `CpuView`; every instruction has a
//! spec-level transition function, and the executable interpreter is proved
//! to follow those transitions exactly, cycle counts and all.

pub mod emulate8080;
pub mod i8080;
pub mod laws;
pub mod model;
