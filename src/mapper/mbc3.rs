use vstd::prelude::*;
use crate::error::AyyError;
use crate::mapper::{
    banked_ram_index, banked_rom_index, byte_at, fetch, is_ram_addr, store, zeroed, RAM_BANK_SIZE,
    ROM_BANK_SIZE,
};

verus! {

/// The MBC3 bank controller. The real-time clock is not emulated: selecting one of its
/// registers maps a register that reads as zero.
#[derive(Clone)]
pub struct Mbc3 {
    pub rom: Vec<u8>,
    pub ram: Vec<u8>,
    /// 7-bit ROM bank, never zero.
    pub rom_bank: u16,
    pub ram_bank: u8,
    pub ram_enabled: bool,
    pub rtc_mapped: bool,
}

impl Mbc3 {
    pub open spec fn wf(&self) -> bool {
        1 <= self.rom_bank <= 127 && self.ram_bank <= 3
    }

    pub open spec fn read_spec(&self, addr: u16) -> Result<u8, AyyError> {
        if addr <= 0x7fff {
            byte_at(self.rom@, banked_rom_index(addr, self.rom_bank as int), addr)
        } else if is_ram_addr(addr) && self.rtc_mapped {
            Ok(0)
        } else if is_ram_addr(addr) && self.ram_enabled {
            byte_at(self.ram@, banked_ram_index(addr, self.ram_bank as int), addr)
        } else {
            Ok(0)
        }
    }

    pub fn new(memory: Vec<u8>) -> (r: Mbc3)
        ensures
            r.wf(),
            r.rom@ == memory@,
            r.ram@ == Seq::new((4 * RAM_BANK_SIZE) as nat, |i: int| 0u8),
            r.rom_bank == 1 && r.ram_bank == 0,
            !r.ram_enabled && !r.rtc_mapped,
    {
        Mbc3 {
            rom: memory,
            ram: zeroed(4 * RAM_BANK_SIZE),
            rom_bank: 1,
            ram_bank: 0,
            ram_enabled: false,
            rtc_mapped: false,
        }
    }

    pub fn current_rom_bank(&self) -> (r: u16)
        ensures
            r == self.rom_bank,
    {
        self.rom_bank
    }

    pub fn current_ram_bank(&self) -> (r: u8)
        ensures
            r == self.ram_bank,
    {
        self.ram_bank
    }

    pub fn read(&self, addr: u16) -> (r: Result<u8, AyyError>)
        requires
            self.wf(),
        ensures
            r == self.read_spec(addr),
    {
        if addr <= 0x3fff {
            fetch(&self.rom, addr as usize, addr)
        } else if addr <= 0x7fff {
            fetch(&self.rom, (addr as usize - 0x4000) + self.rom_bank as usize * ROM_BANK_SIZE, addr)
        } else if 0xa000 <= addr && addr <= 0xbfff && self.rtc_mapped {
            Ok(0)
        } else if 0xa000 <= addr && addr <= 0xbfff && self.ram_enabled {
            fetch(&self.ram, (addr as usize - 0xa000) + self.ram_bank as usize * RAM_BANK_SIZE, addr)
        } else {
            Ok(0)
        }
    }

    /// Control-register writes in 0x0000..0x7fff, RAM writes in 0xa000..0xbfff; other
    /// addresses and writes to disabled RAM are ignored.
    /// How a write of `data` at `addr` relates the controller before and after, and its result.
    pub open spec fn write_post(&self, post: &Mbc3, addr: u16, data: u8, r: Result<(), AyyError>) -> bool {
        &&& (post.wf())
        &&& (post.rom@ == self.rom@)
        &&& (addr <= 0x1fff ==> r is Ok && *post == (Mbc3 {
            ram_enabled: data & 0x0f == 0x0a,
            ..*self
        }))
        &&& (0x2000 <= addr <= 0x3fff ==> r is Ok && *post == (Mbc3 {
            rom_bank: if data & 0x7f == 0 { 1 } else { (data & 0x7f) as u16 },
            ..*self
        }))
        &&& (0x4000 <= addr <= 0x5fff && data <= 3 ==> r is Ok && *post == (Mbc3 {
            ram_bank: data,
            rtc_mapped: false,
            ..*self
        }))
        &&& (0x4000 <= addr <= 0x5fff && data > 3 ==> r is Ok && *post == (Mbc3 {
            rtc_mapped: true,
            ..*self
        }))
        &&& (0x6000 <= addr <= 0x7fff ==> r is Ok && *post == *self)
        &&& (is_ram_addr(addr) && !self.ram_enabled ==> r is Ok && *post == *self)
        &&& (is_ram_addr(addr) && self.ram_enabled ==> {
            let idx = banked_ram_index(addr, self.ram_bank as int);
            &&& post.rom_bank == self.rom_bank
            &&& post.ram_bank == self.ram_bank
            &&& post.ram_enabled == self.ram_enabled
            &&& post.rtc_mapped == self.rtc_mapped
            &&& idx < self.ram@.len() ==> r is Ok && post.ram@ == self.ram@.update(
                idx,
                data,
            )
            &&& idx >= self.ram@.len() ==> r == Err::<(), AyyError>(
                AyyError::OutOfBoundsMemoryAccess { address: addr },
            ) && post.ram@ == self.ram@
        })
        &&& (0x8000 <= addr < 0xa000 || addr > 0xbfff ==> r is Ok && *post == *self)
    }

    pub fn write(&mut self, addr: u16, data: u8) -> (r: Result<(), AyyError>)
        requires
            old(self).wf(),
        ensures
            old(self).write_post(&*final(self), addr, data, r),
    {
        if addr <= 0x1fff {
            self.ram_enabled = data & 0x0f == 0x0a;
            Ok(())
        } else if addr <= 0x3fff {
            let bank = data & 0x7f;
            assert(bank <= 127) by (bit_vector)
                requires bank == data & 0x7f;
            self.rom_bank = if bank == 0 { 1 } else { bank as u16 };
            Ok(())
        } else if addr <= 0x5fff {
            if data <= 3 {
                self.rtc_mapped = false;
                self.ram_bank = data;
            } else {
                self.rtc_mapped = true;
            }
            Ok(())
        } else if addr <= 0x7fff {
            Ok(())
        } else if 0xa000 <= addr && addr <= 0xbfff {
            if self.ram_enabled {
                let idx = (addr as usize - 0xa000) + self.ram_bank as usize * RAM_BANK_SIZE;
                store(&mut self.ram, idx, addr, data)
            } else {
                Ok(())
            }
        } else {
            Ok(())
        }
    }
}

} // verus!
