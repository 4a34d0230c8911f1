use vstd::prelude::*;
use crate::error::AyyError;
use crate::mapper::{
    banked_ram_index, banked_rom_index, byte_at, fetch, is_ram_addr, store, zeroed, RAM_BANK_SIZE,
    ROM_BANK_SIZE,
};

verus! {

/// ROM images above this size use the secondary register as the upper ROM bank bits.
pub const MBC1_LARGE_ROM: usize = 0x80000;

/// The MBC1 bank controller.
#[derive(Clone)]
pub struct Mbc1 {
    pub rom: Vec<u8>,
    pub ram: Vec<u8>,
    /// Low five bits of the ROM bank, never zero.
    pub bank_low: u8,
    /// The 2-bit secondary register.
    pub bank_high: u8,
    pub ram_enabled: bool,
    /// false: ROM banking mode; true: RAM banking mode.
    pub banking_mode: bool,
}

impl Mbc1 {
    pub open spec fn wf(&self) -> bool {
        1 <= self.bank_low <= 31 && self.bank_high <= 3
    }

    pub open spec fn rom_bank_spec(&self) -> u16 {
        if !self.banking_mode && self.rom@.len() > MBC1_LARGE_ROM {
            (self.bank_high as int * 32 + self.bank_low as int) as u16
        } else {
            self.bank_low as u16
        }
    }

    pub open spec fn ram_bank_spec(&self) -> u8 {
        if self.banking_mode {
            self.bank_high
        } else {
            0
        }
    }

    pub open spec fn read_spec(&self, addr: u16) -> Result<u8, AyyError> {
        if addr <= 0x7fff {
            byte_at(self.rom@, banked_rom_index(addr, self.rom_bank_spec() as int), addr)
        } else if is_ram_addr(addr) && self.ram_enabled {
            byte_at(self.ram@, banked_ram_index(addr, self.ram_bank_spec() as int), addr)
        } else {
            Err(AyyError::OutOfBoundsMemoryAccess { address: addr })
        }
    }

    pub fn new(memory: Vec<u8>) -> (r: Mbc1)
        ensures
            r.wf(),
            r.rom@ == memory@,
            r.ram@ == Seq::new(RAM_BANK_SIZE as nat, |i: int| 0u8),
            r.bank_low == 1 && r.bank_high == 0,
            !r.ram_enabled && !r.banking_mode,
    {
        Mbc1 {
            rom: memory,
            ram: zeroed(RAM_BANK_SIZE),
            bank_low: 1,
            bank_high: 0,
            ram_enabled: false,
            banking_mode: false,
        }
    }

    pub fn current_rom_bank(&self) -> (r: u16)
        requires
            self.wf(),
        ensures
            r == self.rom_bank_spec(),
    {
        if !self.banking_mode && self.rom.len() > MBC1_LARGE_ROM {
            self.bank_high as u16 * 32 + self.bank_low as u16
        } else {
            self.bank_low as u16
        }
    }

    pub fn current_ram_bank(&self) -> (r: u8)
        ensures
            r == self.ram_bank_spec(),
    {
        if self.banking_mode {
            self.bank_high
        } else {
            0
        }
    }

    pub fn read(&self, addr: u16) -> (r: Result<u8, AyyError>)
        requires
            self.wf(),
        ensures
            r == self.read_spec(addr),
    {
        if addr <= 0x3fff {
            fetch(&self.rom, addr as usize, addr)
        } else if addr <= 0x7fff {
            let bank = self.current_rom_bank() as usize;
            fetch(&self.rom, (addr as usize - 0x4000) + bank * ROM_BANK_SIZE, addr)
        } else if 0xa000 <= addr && addr <= 0xbfff && self.ram_enabled {
            let bank = self.current_ram_bank() as usize;
            fetch(&self.ram, (addr as usize - 0xa000) + bank * RAM_BANK_SIZE, addr)
        } else {
            Err(AyyError::OutOfBoundsMemoryAccess { address: addr })
        }
    }

    /// Control-register writes in 0x0000..0x7fff, RAM writes in 0xa000..0xbfff.
    /// How a write of `data` at `addr` relates the controller before and after, and its result.
    pub open spec fn write_post(&self, post: &Mbc1, addr: u16, data: u8, r: Result<(), AyyError>) -> bool {
        &&& (post.wf())
        &&& (post.rom@ == self.rom@)
        &&& (addr <= 0x1fff ==> r is Ok && *post == (Mbc1 {
            ram_enabled: data & 0x0f == 0x0a,
            ..*self
        }))
        &&& (0x2000 <= addr <= 0x3fff ==> r is Ok && *post == (Mbc1 {
            bank_low: if data & 0x1f == 0 { 1 } else { data & 0x1f },
            ..*self
        }))
        &&& (0x4000 <= addr <= 0x5fff ==> r is Ok && *post == (Mbc1 {
            bank_high: data & 0x03,
            ..*self
        }))
        &&& (0x6000 <= addr <= 0x7fff ==> r is Ok && *post == (Mbc1 {
            banking_mode: data & 0x01 == 1,
            ..*self
        }))
        &&& (is_ram_addr(addr) && !self.ram_enabled ==> *post == *self && r
            == Err::<(), AyyError>(AyyError::WriteToDisabledExternalRam { address: addr, data }))
        &&& (is_ram_addr(addr) && self.ram_enabled ==> {
            let idx = banked_ram_index(addr, self.ram_bank_spec() as int);
            &&& post.bank_low == self.bank_low
            &&& post.bank_high == self.bank_high
            &&& post.ram_enabled == self.ram_enabled
            &&& post.banking_mode == self.banking_mode
            &&& idx < self.ram@.len() ==> r is Ok && post.ram@ == self.ram@.update(
                idx,
                data,
            )
            &&& idx >= self.ram@.len() ==> r == Err::<(), AyyError>(
                AyyError::OutOfBoundsMemoryAccess { address: addr },
            ) && post.ram@ == self.ram@
        })
        &&& (0x8000 <= addr < 0xa000 || addr > 0xbfff ==> *post == *self && r == Err::<
            (),
            AyyError,
        >(AyyError::WriteToReadOnlyMemory { address: addr, data }))
    }

    pub fn write(&mut self, addr: u16, data: u8) -> (r: Result<(), AyyError>)
        requires
            old(self).wf(),
        ensures
            old(self).write_post(&*final(self), addr, data, r),
    {
        if addr <= 0x1fff {
            self.ram_enabled = data & 0x0f == 0x0a;
            Ok(())
        } else if addr <= 0x3fff {
            let low = data & 0x1f;
            assert(low <= 31) by (bit_vector)
                requires low == data & 0x1f;
            self.bank_low = if low == 0 { 1 } else { low };
            Ok(())
        } else if addr <= 0x5fff {
            let high = data & 0x03;
            assert(high <= 3) by (bit_vector)
                requires high == data & 0x03;
            self.bank_high = high;
            Ok(())
        } else if addr <= 0x7fff {
            self.banking_mode = data & 0x01 == 1;
            Ok(())
        } else if 0xa000 <= addr && addr <= 0xbfff {
            if self.ram_enabled {
                let bank = self.current_ram_bank() as usize;
                store(&mut self.ram, (addr as usize - 0xa000) + bank * RAM_BANK_SIZE, addr, data)
            } else {
                Err(AyyError::WriteToDisabledExternalRam { address: addr, data })
            }
        } else {
            Err(AyyError::WriteToReadOnlyMemory { address: addr, data })
        }
    }
}

} // verus!
