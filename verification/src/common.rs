//! The fault taxonomy shared by the bus, the decoders and the execution step,
//! and the collaborator interface for memory-mapped peripherals.

use vstd::prelude::*;

verus! {

/// A recoverable failure of a single fetch, decode, bus access or register
/// access. A step that returns one of these leaves the machine state as it
/// was before the step.
#[derive(Clone, Copy, Debug, PartialEq, Eq, Structural)]
pub enum Fault {
    /// The address matches no declared region of the address map.
    InvalidAddress,
    /// The address falls in a declared region whose backing is owned by an
    /// outside collaborator (boot ROM, cartridge, peripheral registers).
    UnimplementedRegion,
    /// No decoder case matches the instruction word; carries the raw bits.
    UnknownInstruction(u32),
    /// A register index outside the architectural range.
    InvalidRegisterIndex,
}

/// Interface for memory-mapped collaborators, left for users of the core to
/// implement; the core itself only declares it.
pub trait IO {
    fn write(&mut self, addr: u16, val: u8);

    fn read(&mut self, addr: u16) -> u8;

    fn update(&mut self, tick: u8);
}

} // verus!
