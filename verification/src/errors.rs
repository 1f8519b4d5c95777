use vstd::prelude::*;

verus! {

/// The two ways emulation can refuse to go on: an image without the iNES
/// magic at load time, and an opcode byte outside the published table at
/// run time.
#[derive(PartialEq, Eq, Copy, Clone, Debug, Structural)]
pub enum EmulationError {
    InvalidRom,
    UndefinedOpcode,
}

} // verus!
