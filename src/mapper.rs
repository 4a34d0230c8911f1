use vstd::prelude::*;
use crate::error::AyyError;
use crate::mapper::mbc1::Mbc1;
use crate::mapper::mbc3::Mbc3;
use crate::mapper::mbc5::Mbc5;
use crate::mapper::rom::Rom;

pub mod mbc1;
pub mod mbc3;
pub mod mbc5;
pub mod rom;

verus! {

/// Size of one switchable ROM bank.
pub const ROM_BANK_SIZE: usize = 0x4000;
/// Size of one external RAM bank.
pub const RAM_BANK_SIZE: usize = 0x2000;
/// First address of cartridge external RAM.
pub const EXTERNAL_RAM_START: u16 = 0xa000;
/// Last address of cartridge external RAM.
pub const EXTERNAL_RAM_END: u16 = 0xbfff;

pub open spec fn is_rom_addr(addr: u16) -> bool {
    addr <= 0x7fff
}

pub open spec fn is_ram_addr(addr: u16) -> bool {
    EXTERNAL_RAM_START <= addr <= EXTERNAL_RAM_END
}

/// The byte at `idx` of `mem`, or an out-of-bounds failure naming `addr`.
pub open spec fn byte_at(mem: Seq<u8>, idx: int, addr: u16) -> Result<u8, AyyError> {
    if 0 <= idx < mem.len() {
        Ok(mem[idx])
    } else {
        Err(AyyError::OutOfBoundsMemoryAccess { address: addr })
    }
}

/// Offset into the ROM image of `addr` when bank `bank` is mapped in the switchable slot.
pub open spec fn banked_rom_index(addr: u16, bank: int) -> int {
    if addr < 0x4000 {
        addr as int
    } else {
        (addr as int - 0x4000) + bank * ROM_BANK_SIZE
    }
}

/// Offset into cartridge RAM of `addr` when RAM bank `bank` is mapped.
pub open spec fn banked_ram_index(addr: u16, bank: int) -> int {
    (addr as int - EXTERNAL_RAM_START) + bank * RAM_BANK_SIZE
}

fn fetch(mem: &Vec<u8>, idx: usize, addr: u16) -> (r: Result<u8, AyyError>)
    ensures
        r == byte_at(mem@, idx as int, addr),
{
    if idx < mem.len() {
        Ok(mem[idx])
    } else {
        Err(AyyError::OutOfBoundsMemoryAccess { address: addr })
    }
}

fn store(mem: &mut Vec<u8>, idx: usize, addr: u16, data: u8) -> (r: Result<(), AyyError>)
    ensures
        idx < old(mem)@.len() ==> r is Ok && final(mem)@ == old(mem)@.update(idx as int, data),
        idx >= old(mem)@.len() ==> r == Err::<(), AyyError>(
            AyyError::OutOfBoundsMemoryAccess { address: addr },
        ) && final(mem)@ == old(mem)@,
{
    if idx < mem.len() {
        mem.set(idx, data);
        Ok(())
    } else {
        Err(AyyError::OutOfBoundsMemoryAccess { address: addr })
    }
}

pub(crate) fn zeroed(n: usize) -> (r: Vec<u8>)
    ensures
        r@ == Seq::new(n as nat, |i: int| 0u8),
{
    let mut v: Vec<u8> = Vec::with_capacity(n);
    while v.len() < n
        invariant
            v.len() <= n,
            forall|i: int| 0 <= i < v.len() ==> v@[i] == 0u8,
        decreases n - v.len(),
    {
        v.push(0);
    }
    assert(v@ =~= Seq::new(n as nat, |i: int| 0u8));
    v
}

/// The cartridge mapper chosen at load time.
#[derive(Clone)]
pub enum Cartridge {
    Rom(Rom),
    Mbc1(Mbc1),
    Mbc3(Mbc3),
    Mbc5(Mbc5),
}

impl Cartridge {
    pub open spec fn wf(&self) -> bool {
        match self {
            Cartridge::Rom(_) => true,
            Cartridge::Mbc1(m) => m.wf(),
            Cartridge::Mbc3(m) => m.wf(),
            Cartridge::Mbc5(m) => m.wf(),
        }
    }

    /// The ROM image.
    pub open spec fn image(&self) -> Seq<u8> {
        match self {
            Cartridge::Rom(m) => m.image(),
            Cartridge::Mbc1(m) => m.rom@,
            Cartridge::Mbc3(m) => m.rom@,
            Cartridge::Mbc5(m) => m.rom@,
        }
    }

    /// The external RAM contents (empty for a plain ROM).
    pub open spec fn ram_view(&self) -> Seq<u8> {
        match self {
            Cartridge::Rom(_) => Seq::empty(),
            Cartridge::Mbc1(m) => m.ram@,
            Cartridge::Mbc3(m) => m.ram@,
            Cartridge::Mbc5(m) => m.ram@,
        }
    }

    /// The bank mapped into 0x4000..0x7fff.
    pub open spec fn slot_bank(&self) -> int {
        match self {
            Cartridge::Rom(_) => 1,
            Cartridge::Mbc1(m) => m.rom_bank_spec() as int,
            Cartridge::Mbc3(m) => m.rom_bank as int,
            Cartridge::Mbc5(m) => m.rom_bank as int,
        }
    }

    pub open spec fn rom_bank_spec(&self) -> u16 {
        match self {
            Cartridge::Rom(_) => 0,
            Cartridge::Mbc1(m) => m.rom_bank_spec(),
            Cartridge::Mbc3(m) => m.rom_bank,
            Cartridge::Mbc5(m) => m.rom_bank,
        }
    }

    pub open spec fn ram_bank_spec(&self) -> u8 {
        match self {
            Cartridge::Rom(_) => 0,
            Cartridge::Mbc1(m) => m.ram_bank_spec(),
            Cartridge::Mbc3(m) => m.ram_bank,
            Cartridge::Mbc5(m) => m.ram_bank,
        }
    }

    pub open spec fn read_spec(&self, addr: u16) -> Result<u8, AyyError> {
        match self {
            Cartridge::Rom(m) => m.read_spec(addr),
            Cartridge::Mbc1(m) => m.read_spec(addr),
            Cartridge::Mbc3(m) => m.read_spec(addr),
            Cartridge::Mbc5(m) => m.read_spec(addr),
        }
    }

    /// `other` is `self` with, at most, its external RAM replaced.
    pub open spec fn same_but_ram(&self, other: &Cartridge) -> bool {
        match (self, other) {
            (Cartridge::Rom(a), Cartridge::Rom(b)) => a.image() == b.image(),
            (Cartridge::Mbc1(a), Cartridge::Mbc1(b)) => a.rom@ == b.rom@ && a.bank_low == b.bank_low
                && a.bank_high == b.bank_high && a.ram_enabled == b.ram_enabled && a.banking_mode
                == b.banking_mode,
            (Cartridge::Mbc3(a), Cartridge::Mbc3(b)) => a.rom@ == b.rom@ && a.rom_bank == b.rom_bank
                && a.ram_bank == b.ram_bank && a.ram_enabled == b.ram_enabled && a.rtc_mapped
                == b.rtc_mapped,
            (Cartridge::Mbc5(a), Cartridge::Mbc5(b)) => a.rom@ == b.rom@ && a.rom_bank == b.rom_bank
                && a.ram_bank == b.ram_bank && a.ram_enabled == b.ram_enabled && a.allow_rumble
                == b.allow_rumble && a.rumble == b.rumble,
            _ => false,
        }
    }

    /// How a write of `data` at `addr` relates the mapper before and after, and its result.
    pub open spec fn write_rel(&self, post: &Cartridge, addr: u16, data: u8, r: Result<(), AyyError>) -> bool {
        &&& post.wf()
        &&& post.image() == self.image()
        &&& match (self, post) {
            (Cartridge::Rom(a), Cartridge::Rom(b)) => a == b,
            (Cartridge::Mbc1(a), Cartridge::Mbc1(b)) => a.write_post(b, addr, data, r),
            (Cartridge::Mbc3(a), Cartridge::Mbc3(b)) => a.write_post(b, addr, data, r),
            (Cartridge::Mbc5(a), Cartridge::Mbc5(b)) => a.write_post(b, addr, data, r),
            _ => false,
        }
        &&& is_rom_addr(addr) ==> post.read_spec(addr) == byte_at(
            post.image(),
            banked_rom_index(addr, post.slot_bank()),
            addr,
        )
        &&& addr < 0x4000 ==> post.read_spec(addr) == self.read_spec(addr)
        &&& *self is Rom ==> *post == *self && r == Err::<(), AyyError>(
            AyyError::WriteToReadOnlyMemory { address: addr, data },
        )
        &&& is_ram_addr(addr) && !(*self is Rom) ==> post.rom_bank_spec() == self.rom_bank_spec()
            && post.ram_bank_spec() == self.ram_bank_spec()
    }

    pub fn read(&self, addr: u16) -> (r: Result<u8, AyyError>)
        requires
            self.wf(),
        ensures
            r == self.read_spec(addr),
    {
        match self {
            Cartridge::Rom(m) => m.read(addr),
            Cartridge::Mbc1(m) => m.read(addr),
            Cartridge::Mbc3(m) => m.read(addr),
            Cartridge::Mbc5(m) => m.read(addr),
        }
    }

    /// A write never changes the ROM image. After a write into ROM space, a read of
    /// that address yields the image byte under the (possibly new) bank latches; in the
    /// fixed bank 0x0000..0x3fff it yields what it yielded before.
    pub fn write(&mut self, addr: u16, data: u8) -> (r: Result<(), AyyError>)
        requires
            old(self).wf(),
        ensures
            old(self).write_rel(&*final(self), addr, data, r),
    {
        match self {
            Cartridge::Rom(m) => m.write(addr, data),
            Cartridge::Mbc1(m) => m.write(addr, data),
            Cartridge::Mbc3(m) => m.write(addr, data),
            Cartridge::Mbc5(m) => m.write(addr, data),
        }
    }

    pub fn current_rom_bank(&self) -> (r: u16)
        requires
            self.wf(),
        ensures
            r == self.rom_bank_spec(),
    {
        match self {
            Cartridge::Rom(m) => m.current_rom_bank(),
            Cartridge::Mbc1(m) => m.current_rom_bank(),
            Cartridge::Mbc3(m) => m.current_rom_bank(),
            Cartridge::Mbc5(m) => m.current_rom_bank(),
        }
    }

    pub fn current_ram_bank(&self) -> (r: u8)
        ensures
            r == self.ram_bank_spec(),
    {
        match self {
            Cartridge::Rom(m) => m.current_ram_bank(),
            Cartridge::Mbc1(m) => m.current_ram_bank(),
            Cartridge::Mbc3(m) => m.current_ram_bank(),
            Cartridge::Mbc5(m) => m.current_ram_bank(),
        }
    }

    /// The external RAM as raw bytes, for battery-backed saves.
    pub fn dump_ram(&self) -> (r: Vec<u8>)
        ensures
            r@ == self.ram_view(),
    {
        match self {
            Cartridge::Rom(_) => Vec::new(),
            Cartridge::Mbc1(m) => m.ram.clone(),
            Cartridge::Mbc3(m) => m.ram.clone(),
            Cartridge::Mbc5(m) => m.ram.clone(),
        }
    }

    /// Replaces the external RAM; a plain ROM has none and ignores it.
    pub fn load_ram(&mut self, ram: Vec<u8>)
        requires
            old(self).wf(),
        ensures
            final(self).wf(),
            old(self).same_but_ram(&*final(self)),
            final(self).ram_view() == if *old(self) is Rom { Seq::<u8>::empty() } else { ram@ },
    {
        match self {
            Cartridge::Rom(_) => {},
            Cartridge::Mbc1(m) => m.ram = ram,
            Cartridge::Mbc3(m) => m.ram = ram,
            Cartridge::Mbc5(m) => m.ram = ram,
        }
    }

    pub fn name(&self) -> (r: String)
        ensures
            self is Rom ==> r@ == "ROM"@,
            self is Mbc1 ==> r@ == "MBC1"@,
            self is Mbc3 ==> r@ == "MBC3"@,
            self is Mbc5 && !self->Mbc5_0.allow_rumble ==> r@ == "MBC5"@,
            self is Mbc5 && self->Mbc5_0.allow_rumble ==> r@ == "MBC5+RUMBLE"@,
    {
        match self {
            Cartridge::Rom(_) => "ROM".to_owned(),
            Cartridge::Mbc1(_) => "MBC1".to_owned(),
            Cartridge::Mbc3(_) => "MBC3".to_owned(),
            Cartridge::Mbc5(m) => if m.allow_rumble {
                "MBC5+RUMBLE".to_owned()
            } else {
                "MBC5".to_owned()
            },
        }
    }
}

/// Loading back the RAM that was dumped leaves every observable part of the mapper as it
/// was: each read, and both bank numbers.
pub proof fn lemma_ram_round_trip(before: Cartridge, after: Cartridge)
    requires
        before.wf(),
        before.same_but_ram(&after),
        after.ram_view() == before.ram_view(),
    ensures
        forall|a: u16| after.read_spec(a) == before.read_spec(a),
        after.rom_bank_spec() == before.rom_bank_spec(),
        after.ram_bank_spec() == before.ram_bank_spec(),
{
}

/// A write of any byte into ROM space leaves the ROM image as it was; a later read of the
/// written address yields the image byte under the bank latches that the write may have
/// moved, and in the fixed bank 0x0000..0x3fff the very byte it yielded before.
pub proof fn lemma_rom_write_keeps_rom(
    before: Cartridge,
    after: Cartridge,
    addr: u16,
    data: u8,
    r: Result<(), AyyError>,
)
    requires
        before.wf(),
        before.write_rel(&after, addr, data, r),
        is_rom_addr(addr),
    ensures
        after.image() == before.image(),
        after.read_spec(addr) == byte_at(before.image(), banked_rom_index(addr, after.slot_bank()), addr),
        addr < 0x4000 ==> after.read_spec(addr) == before.read_spec(addr),
        forall|b: u16| b < 0x4000 ==> #[trigger] after.read_spec(b) == before.read_spec(b),
        before is Rom ==> forall|b: u16| #[trigger] after.read_spec(b) == before.read_spec(b),
{
}

} // verus!
