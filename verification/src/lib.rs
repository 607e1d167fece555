//! A virtual machine for the CHIP-8 instruction set and the host that drives
//! it, with contracts that Verus proves.
//!
//! `machine` holds the mathematical model of the machine and the meaning of
//! each instruction; `processor` holds the machine itself, whose functions are
//! proved against that model; `emulator` holds the host that turns requests and
//! timer ticks into steps of the machine; `theorems` states what follows.

pub mod application;
pub mod emulator;
pub mod error;
pub mod font;
pub mod instruction;
pub mod keys;
pub mod machine;
pub mod processor;
pub mod settings;
pub mod sprite;
pub mod theorems;
