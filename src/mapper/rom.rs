use vstd::prelude::*;
use crate::error::AyyError;
use crate::mapper::{byte_at, is_rom_addr};

verus! {

/// A cartridge without a bank controller: 32 KiB of ROM, no RAM.
#[derive(Clone)]
pub struct Rom {
    memory: Vec<u8>,
}

impl Rom {
    pub closed spec fn image(&self) -> Seq<u8> {
        self.memory@
    }

    pub open spec fn read_spec(&self, addr: u16) -> Result<u8, AyyError> {
        if is_rom_addr(addr) {
            byte_at(self.image(), addr as int, addr)
        } else {
            Err(AyyError::OutOfBoundsMemoryAccess { address: addr })
        }
    }

    pub fn new(memory: Vec<u8>) -> (r: Rom)
        ensures
            r.image() == memory@,
    {
        Rom { memory }
    }

    pub fn read(&self, addr: u16) -> (r: Result<u8, AyyError>)
        ensures
            r == self.read_spec(addr),
    {
        if addr <= 0x7fff && (addr as usize) < self.memory.len() {
            Ok(self.memory[addr as usize])
        } else {
            Err(AyyError::OutOfBoundsMemoryAccess { address: addr })
        }
    }

    /// Every write is refused: the cartridge holds only ROM.
    pub fn write(&mut self, addr: u16, data: u8) -> (r: Result<(), AyyError>)
        ensures
            *final(self) == *old(self),
            r == Err::<(), AyyError>(AyyError::WriteToReadOnlyMemory { address: addr, data }),
    {
        Err(AyyError::WriteToReadOnlyMemory { address: addr, data })
    }

    pub fn current_rom_bank(&self) -> (r: u16)
        ensures
            r == 0,
    {
        0
    }

    pub fn current_ram_bank(&self) -> (r: u8)
        ensures
            r == 0,
    {
        0
    }
}

} // verus!
