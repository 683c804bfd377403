//! Emulation core for an ARM7TDMI-class processor: a register and status-word
//! file, a segmented memory bus, decoders and executors for the 32-bit and the
//! 16-bit instruction sets, and the fetch-decode-execute step that ties them
//! together.
//!
//! Every module states its behavior as a contract over a mathematical view of
//! the machine: `psr` owns the status word's bit layout, `register` the
//! register file, `bus` the address-range dispatch over the five backing
//! stores, `thumb_op` the classification of 16-bit words into the nineteen
//! formats with its round-trip guarantee, `thumb_exec` and `arm_op` the
//! execution semantics of the two instruction sets, and `cpu` the step that
//! fetches, decodes and executes atomically: a step that reports a fault
//! leaves the machine exactly as it was.

pub mod common;
pub mod psr;
pub mod register;
pub mod bus;
pub mod thumb_op;
pub mod cpu;
pub mod thumb_exec;
pub mod arm_op;
