use vstd::prelude::*;
use crate::mapper::zeroed;

verus! {

/// Background palette index register.
pub const BACKGROUND_PALETTE_INDEX_REGISTER: u16 = 0xff68;
/// Background palette data port.
pub const BACKGROUND_PALETTE_DATA_REGISTER: u16 = 0xff69;
/// Object palette index register.
pub const OBJECT_PALETTE_INDEX_REGISTER: u16 = 0xff6a;
/// Object palette data port.
pub const OBJECT_PALETTE_DATA_REGISTER: u16 = 0xff6b;
/// Bytes in each palette memory.
pub const PALETTE_MEMORY_SIZE: usize = 64;

/// The two 64-byte colour palette memories of the colour console, each behind an
/// auto-incrementing index register.
pub struct Cram {
    background_palette: Vec<u8>,
    object_palette: Vec<u8>,
    bg_auto_increment: bool,
    obj_auto_increment: bool,
    bg_address: u8,
    obj_address: u8,
}

impl Cram {
    pub closed spec fn bg(&self) -> Seq<u8> {
        self.background_palette@
    }

    pub closed spec fn obj(&self) -> Seq<u8> {
        self.object_palette@
    }

    pub closed spec fn bg_index(&self) -> u8 {
        self.bg_address
    }

    pub closed spec fn obj_index(&self) -> u8 {
        self.obj_address
    }

    pub closed spec fn bg_auto(&self) -> bool {
        self.bg_auto_increment
    }

    pub closed spec fn obj_auto(&self) -> bool {
        self.obj_auto_increment
    }

    pub open spec fn wf(&self) -> bool {
        &&& self.bg().len() == PALETTE_MEMORY_SIZE
        &&& self.obj().len() == PALETTE_MEMORY_SIZE
        &&& self.bg_index() < 64
        &&& self.obj_index() < 64
    }

    pub open spec fn read_spec(&self, addr: u16) -> u8 {
        if addr == BACKGROUND_PALETTE_INDEX_REGISTER {
            (if self.bg_auto() { 0x80int } else { 0 } + self.bg_index()) as u8
        } else if addr == OBJECT_PALETTE_INDEX_REGISTER {
            (if self.obj_auto() { 0x80int } else { 0 } + self.obj_index()) as u8
        } else if addr == BACKGROUND_PALETTE_DATA_REGISTER {
            self.bg()[self.bg_index() as int]
        } else if addr == OBJECT_PALETTE_DATA_REGISTER {
            self.obj()[self.obj_index() as int]
        } else {
            0xff
        }
    }

    /// The little-endian 15-bit colour at byte `index` of background palette `slot`.
    pub open spec fn color_spec(mem: Seq<u8>, slot: u8, index: u8) -> u16 {
        (mem[slot * 8 + index + 1] as int * 256 + mem[slot * 8 + index] as int) as u16
    }

    pub fn new() -> (r: Cram)
        ensures
            r.wf(),
            r.bg() == Seq::new(64, |i: int| 0u8),
            r.obj() == Seq::new(64, |i: int| 0u8),
            r.bg_index() == 0 && r.obj_index() == 0 && !r.bg_auto() && !r.obj_auto(),
    {
        Cram {
            background_palette: zeroed(PALETTE_MEMORY_SIZE),
            object_palette: zeroed(PALETTE_MEMORY_SIZE),
            bg_auto_increment: false,
            obj_auto_increment: false,
            bg_address: 0,
            obj_address: 0,
        }
    }

    /// The colour at byte `index` (0, 2, 4 or 6) of background palette `slot`.
    pub fn fetch_bg(&self, slot: u8, index: u8) -> (r: u16)
        requires
            self.wf(),
            slot < 8,
            index <= 6,
        ensures
            r == Cram::color_spec(self.bg(), slot, index),
    {
        let base = (slot * 8 + index) as usize;
        self.background_palette[base + 1] as u16 * 256 + self.background_palette[base] as u16
    }

    /// The colour at byte `index` (0, 2, 4 or 6) of object palette `slot`.
    pub fn fetch_obj(&self, slot: u8, index: u8) -> (r: u16)
        requires
            self.wf(),
            slot < 8,
            index <= 6,
        ensures
            r == Cram::color_spec(self.obj(), slot, index),
    {
        let base = (slot * 8 + index) as usize;
        self.object_palette[base + 1] as u16 * 256 + self.object_palette[base] as u16
    }

    pub fn read(&self, addr: u16) -> (r: u8)
        requires
            self.wf(),
        ensures
            r == self.read_spec(addr),
    {
        if addr == BACKGROUND_PALETTE_INDEX_REGISTER {
            (if self.bg_auto_increment { 0x80u8 } else { 0u8 }) + self.bg_address
        } else if addr == OBJECT_PALETTE_INDEX_REGISTER {
            (if self.obj_auto_increment { 0x80u8 } else { 0u8 }) + self.obj_address
        } else if addr == BACKGROUND_PALETTE_DATA_REGISTER {
            self.background_palette[self.bg_address as usize]
        } else if addr == OBJECT_PALETTE_DATA_REGISTER {
            self.object_palette[self.obj_address as usize]
        } else {
            0xff
        }
    }

    /// Index writes set the address and the auto-increment bit; data writes store at the
    /// address and, with auto-increment, advance it modulo 64.
    /// How a write of `data` at `addr` relates the palette memories before and after.
    pub open spec fn write_rel(&self, post: &Cram, addr: u16, data: u8) -> bool {
        &&& post.wf()
        &&& (addr == BACKGROUND_PALETTE_INDEX_REGISTER ==> post.bg_index() == data % 64
                && post.bg_auto() == (data >= 0x80) && post.bg() == self.bg()
                && post.obj() == self.obj() && post.obj_index() == self.obj_index() && post.obj_auto() == self.obj_auto())
        &&& (addr == OBJECT_PALETTE_INDEX_REGISTER ==> post.obj_index() == data % 64
                && post.obj_auto() == (data >= 0x80) && post.bg() == self.bg()
                && post.obj() == self.obj() && post.bg_index() == self.bg_index() && post.bg_auto() == self.bg_auto())
        &&& (addr == BACKGROUND_PALETTE_DATA_REGISTER ==> post.bg() == self.bg().update(
                self.bg_index() as int,
                data,
            ) && post.bg_index() == (if self.bg_auto() {
                (self.bg_index() + 1) % 64
            } else {
                self.bg_index() as int
            }) && post.obj() == self.obj() && post.obj_index() == self.obj_index() && post.bg_auto() == self.bg_auto() && post.obj_auto()
                == self.obj_auto())
        &&& (addr == OBJECT_PALETTE_DATA_REGISTER ==> post.obj() == self.obj().update(
                self.obj_index() as int,
                data,
            ) && post.obj_index() == (if self.obj_auto() {
                (self.obj_index() + 1) % 64
            } else {
                self.obj_index() as int
            }) && post.bg() == self.bg() && post.bg_index() == self.bg_index() && post.bg_auto() == self.bg_auto() && post.obj_auto()
                == self.obj_auto())
        &&& (addr < BACKGROUND_PALETTE_INDEX_REGISTER || addr > OBJECT_PALETTE_DATA_REGISTER
                ==> *post == *self)
    }

    pub fn write(&mut self, addr: u16, data: u8)
        requires
            old(self).wf(),
        ensures
            old(self).write_rel(&*final(self), addr, data),
    {
        if addr == BACKGROUND_PALETTE_INDEX_REGISTER {
            self.bg_auto_increment = data >= 0x80;
            self.bg_address = data % 64;
        } else if addr == OBJECT_PALETTE_INDEX_REGISTER {
            self.obj_auto_increment = data >= 0x80;
            self.obj_address = data % 64;
        } else if addr == BACKGROUND_PALETTE_DATA_REGISTER {
            let a = self.bg_address as usize;
            self.background_palette.set(a, data);
            if self.bg_auto_increment {
                self.bg_address = (self.bg_address + 1) % 64;
            }
        } else if addr == OBJECT_PALETTE_DATA_REGISTER {
            let a = self.obj_address as usize;
            self.object_palette.set(a, data);
            if self.obj_auto_increment {
                self.obj_address = (self.obj_address + 1) % 64;
            }
        }
    }
}

} // verus!
