use vstd::prelude::*;
use crate::error::AyyError;
use crate::mapper::{
    banked_ram_index, banked_rom_index, byte_at, fetch, is_ram_addr, store, zeroed, RAM_BANK_SIZE,
    ROM_BANK_SIZE,
};

verus! {

/// The MBC5 bank controller, optionally with a rumble motor driven by bit 3 of the
/// RAM bank register.
#[derive(Clone)]
pub struct Mbc5 {
    pub rom: Vec<u8>,
    pub ram: Vec<u8>,
    /// 9-bit ROM bank; bank 0 is a legal selection.
    pub rom_bank: u16,
    /// 4-bit RAM bank.
    pub ram_bank: u8,
    pub ram_enabled: bool,
    pub allow_rumble: bool,
    /// Whether the rumble motor is currently asked to run.
    pub rumble: bool,
}

impl Mbc5 {
    pub open spec fn wf(&self) -> bool {
        self.rom_bank <= 0x1ff && self.ram_bank <= 0x0f
    }

    pub open spec fn read_spec(&self, addr: u16) -> Result<u8, AyyError> {
        if addr <= 0x7fff {
            byte_at(self.rom@, banked_rom_index(addr, self.rom_bank as int), addr)
        } else if is_ram_addr(addr) && self.ram_enabled {
            byte_at(self.ram@, banked_ram_index(addr, self.ram_bank as int), addr)
        } else {
            Ok(0)
        }
    }

    pub fn new(memory: Vec<u8>) -> (r: Mbc5)
        ensures
            r.wf(),
            r.rom@ == memory@,
            r.ram@ == Seq::new((4 * RAM_BANK_SIZE) as nat, |i: int| 0u8),
            r.rom_bank == 1 && r.ram_bank == 0,
            !r.ram_enabled && !r.allow_rumble && !r.rumble,
    {
        Mbc5 {
            rom: memory,
            ram: zeroed(4 * RAM_BANK_SIZE),
            rom_bank: 1,
            ram_bank: 0,
            ram_enabled: false,
            allow_rumble: false,
            rumble: false,
        }
    }

    pub fn with_rumble(memory: Vec<u8>) -> (r: Mbc5)
        ensures
            r.wf(),
            r.rom@ == memory@,
            r.ram@ == Seq::new((4 * RAM_BANK_SIZE) as nat, |i: int| 0u8),
            r.rom_bank == 1 && r.ram_bank == 0,
            !r.ram_enabled && r.allow_rumble && !r.rumble,
    {
        let mut m = Mbc5::new(memory);
        m.allow_rumble = true;
        m
    }

    pub fn current_rom_bank(&self) -> (r: u16)
        ensures
            r == self.rom_bank,
    {
        self.rom_bank
    }

    pub fn current_ram_bank(&self) -> (r: u8)
        ensures
            r == self.ram_bank,
    {
        self.ram_bank
    }

    pub fn read(&self, addr: u16) -> (r: Result<u8, AyyError>)
        requires
            self.wf(),
        ensures
            r == self.read_spec(addr),
    {
        if addr <= 0x3fff {
            fetch(&self.rom, addr as usize, addr)
        } else if addr <= 0x7fff {
            fetch(&self.rom, (addr as usize - 0x4000) + self.rom_bank as usize * ROM_BANK_SIZE, addr)
        } else if 0xa000 <= addr && addr <= 0xbfff && self.ram_enabled {
            fetch(&self.ram, (addr as usize - 0xa000) + self.ram_bank as usize * RAM_BANK_SIZE, addr)
        } else {
            Ok(0)
        }
    }

    /// Control-register writes in 0x0000..0x5fff, RAM writes in 0xa000..0xbfff; other
    /// addresses and writes to disabled RAM are ignored.
    /// How a write of `data` at `addr` relates the controller before and after, and its result.
    pub open spec fn write_post(&self, post: &Mbc5, addr: u16, data: u8, r: Result<(), AyyError>) -> bool {
        &&& (post.wf())
        &&& (post.rom@ == self.rom@)
        &&& (addr <= 0x1fff ==> r is Ok && *post == (Mbc5 {
            ram_enabled: data & 0x0f == 0x0a,
            ..*self
        }))
        &&& (0x2000 <= addr <= 0x2fff ==> r is Ok && *post == (Mbc5 {
            rom_bank: ((self.rom_bank / 256) * 256 + data) as u16,
            ..*self
        }))
        &&& (0x3000 <= addr <= 0x3fff ==> r is Ok && *post == (Mbc5 {
            rom_bank: ((self.rom_bank % 256) + (data % 2) * 256) as u16,
            ..*self
        }))
        &&& (0x4000 <= addr <= 0x5fff ==> r is Ok && *post == (Mbc5 {
            ram_bank: data & 0x0f,
            rumble: if self.allow_rumble { data & 0x08 != 0 } else { self.rumble },
            ..*self
        }))
        &&& (0x6000 <= addr <= 0x7fff ==> r is Ok && *post == *self)
        &&& (is_ram_addr(addr) && !self.ram_enabled ==> r is Ok && *post == *self)
        &&& (is_ram_addr(addr) && self.ram_enabled ==> {
            let idx = banked_ram_index(addr, self.ram_bank as int);
            &&& post.rom_bank == self.rom_bank
            &&& post.ram_bank == self.ram_bank
            &&& post.ram_enabled == self.ram_enabled
            &&& post.allow_rumble == self.allow_rumble
            &&& post.rumble == self.rumble
            &&& idx < self.ram@.len() ==> r is Ok && post.ram@ == self.ram@.update(
                idx,
                data,
            )
            &&& idx >= self.ram@.len() ==> r == Err::<(), AyyError>(
                AyyError::OutOfBoundsMemoryAccess { address: addr },
            ) && post.ram@ == self.ram@
        })
        &&& (0x8000 <= addr < 0xa000 || addr > 0xbfff ==> r is Ok && *post == *self)
    }

    pub fn write(&mut self, addr: u16, data: u8) -> (r: Result<(), AyyError>)
        requires
            old(self).wf(),
        ensures
            old(self).write_post(&*final(self), addr, data, r),
    {
        if addr <= 0x1fff {
            self.ram_enabled = data & 0x0f == 0x0a;
            Ok(())
        } else if addr <= 0x2fff {
            self.rom_bank = (self.rom_bank / 256) * 256 + data as u16;
            Ok(())
        } else if addr <= 0x3fff {
            self.rom_bank = (self.rom_bank % 256) + (data % 2) as u16 * 256;
            Ok(())
        } else if addr <= 0x5fff {
            let bank = data & 0x0f;
            assert(bank <= 15) by (bit_vector)
                requires bank == data & 0x0f;
            self.ram_bank = bank;
            if self.allow_rumble {
                self.rumble = data & 0x08 != 0;
            }
            Ok(())
        } else if addr <= 0x7fff {
            Ok(())
        } else if 0xa000 <= addr && addr <= 0xbfff {
            if self.ram_enabled {
                let idx = (addr as usize - 0xa000) + self.ram_bank as usize * RAM_BANK_SIZE;
                store(&mut self.ram, idx, addr, data)
            } else {
                Ok(())
            }
        } else {
            Ok(())
        }
    }
}

} // verus!
