use vstd::prelude::*;

verus! {

/// Failures surfaced by the emulator core.
#[derive(Debug, Clone, Copy, PartialEq, Eq, Structural)]
pub enum AyyError {
    /// The opcode bytes matched no decoder pattern.
    DecoderFailure { opcode: u8, address: u16 },
    /// The opcode is one of the eleven illegal SM83 opcodes.
    IllegalOpcode { opcode: u8 },
    /// The operand shape of an instruction did not fit its handler.
    InvalidHandler,
    /// IF had no serviceable bit set.
    UnknownIrqVector { vector: u8 },
    /// A write hit ROM or the mapped boot ROM.
    WriteToReadOnlyMemory { address: u16, data: u8 },
    /// A write hit cartridge RAM while it was disabled.
    WriteToDisabledExternalRam { address: u16, data: u8 },
    /// The mapper could not satisfy the address.
    OutOfBoundsMemoryAccess { address: u16 },
    /// The cartridge header names a mapper that is not emulated.
    UnsupportedCartridge { kind: u8 },
}

impl AyyError {
    /// Errors that the core recovers from locally: the step is dropped with a warning.
    pub open spec fn is_recoverable_spec(self) -> bool {
        match self {
            AyyError::WriteToReadOnlyMemory { .. } => true,
            AyyError::WriteToDisabledExternalRam { .. } => true,
            AyyError::OutOfBoundsMemoryAccess { .. } => true,
            _ => false,
        }
    }

    pub fn is_recoverable(&self) -> (r: bool)
        ensures
            r == self.is_recoverable_spec(),
    {
        match self {
            AyyError::WriteToReadOnlyMemory { .. } => true,
            AyyError::WriteToDisabledExternalRam { .. } => true,
            AyyError::OutOfBoundsMemoryAccess { .. } => true,
            _ => false,
        }
    }
}

} // verus!
