use vstd::prelude::*;

verus! {

/// The error kinds that the machine and its commitment pipeline can report.
#[derive(Clone, Copy, Debug, PartialEq, Eq, Structural)]
pub enum VMError {
    /// A memory access lies beyond the bus capacity.
    OutOfBounds,
    /// A register id outside the fixed register set was used.
    UnknownRegister,
    /// A tick was attempted on a machine that has already halted.
    Halted,
    /// Fetching an instruction word from memory failed.
    MemoryReadError,
    /// The opcode bits of an instruction word name no known opcode.
    OpcodeDoesNotExist,
    /// An addition could not be carried out.
    AddInstructionFail,
    /// The source of a two-byte copy could not be read.
    CopyInstructionFail,
    /// Arithmetic or the program counter left the 16-bit range.
    Overflow,
    /// The configured commitment capacity is missing or too small.
    ConfigError,
}

impl VMError {
    pub open spec fn spec_message(self) -> Seq<char> {
        match self {
            VMError::UnknownRegister => "Unknown Register"@,
            VMError::OutOfBounds => "Memory access is out of bounds"@,
            VMError::Halted => "Cannot use a Halted machine"@,
            VMError::MemoryReadError => "Memory read failed"@,
            _ => "Else"@,
        }
    }

    /// A short human-readable description of the error.
    pub fn message(&self) -> (r: &'static str)
        ensures
            r@ == self.spec_message(),
    {
        match self {
            VMError::UnknownRegister => "Unknown Register",
            VMError::OutOfBounds => "Memory access is out of bounds",
            VMError::Halted => "Cannot use a Halted machine",
            VMError::MemoryReadError => "Memory read failed",
            _ => "Else",
        }
    }
}

} // verus!
