use vstd::prelude::*;
use crate::cram::{Cram, BACKGROUND_PALETTE_INDEX_REGISTER, OBJECT_PALETTE_DATA_REGISTER};
use crate::error::AyyError;
use crate::gameboy::Mode;
use crate::irq::JOYPAD_BIT;
use crate::joypad::{Button, Joypad};
use crate::mapper::{zeroed, Cartridge};
use crate::state::State;

verus! {

pub const JOYPAD_REGISTER: u16 = 0xff00;
pub const DIV_REGISTER: u16 = 0xff04;
pub const TIMA_REGISTER: u16 = 0xff05;
pub const TMA_REGISTER: u16 = 0xff06;
pub const TAC_REGISTER: u16 = 0xff07;
pub const INTERRUPT_FLAGS_REGISTER: u16 = 0xff0f;
pub const LCD_CONTROL_REGISTER: u16 = 0xff40;
pub const LCD_STATUS_REGISTER: u16 = 0xff41;
pub const SCROLL_Y_REGISTER: u16 = 0xff42;
pub const SCROLL_X_REGISTER: u16 = 0xff43;
pub const SCANLINE_Y_REGISTER: u16 = 0xff44;
pub const SCANLINE_Y_COMPARE_REGISTER: u16 = 0xff45;
pub const OAM_DMA_REGISTER: u16 = 0xff46;
pub const BG_PALETTE_REGISTER: u16 = 0xff47;
pub const OBJ0_PALETTE_REGISTER: u16 = 0xff48;
pub const OBJ1_PALETTE_REGISTER: u16 = 0xff49;
pub const WINDOW_Y_REGISTER: u16 = 0xff4a;
pub const WINDOW_X_REGISTER: u16 = 0xff4b;
pub const DOUBLE_SPEED_SWITCH_REGISTER: u16 = 0xff4d;
pub const VRAM_BANK_SELECT_REGISTER: u16 = 0xff4f;
pub const BOOTROM_MAPPER_REGISTER: u16 = 0xff50;
pub const HDMA_SRC_HIGH_REGISTER: u16 = 0xff51;
pub const HDMA_SRC_LOW_REGISTER: u16 = 0xff52;
pub const HDMA_DST_HIGH_REGISTER: u16 = 0xff53;
pub const HDMA_DST_LOW_REGISTER: u16 = 0xff54;
pub const HDMA_LENGTH_MODE_START_REGISTER: u16 = 0xff55;
pub const WRAM_BANK_SELECT_REGISTER: u16 = 0xff70;
pub const INTERRUPT_ENABLE_REGISTER: u16 = 0xffff;
pub const VRAM_START: u16 = 0x8000;
pub const OAM_ADDRESS: u16 = 0xfe00;
/// Bytes copied by one OAM DMA transfer.
pub const OAM_SIZE: u16 = 0xa0;

/// `x` reduced to 16 bits.
pub open spec fn wrap16(x: int) -> u16 {
    (x % 0x10000) as u16
}

/// The canonical address of `addr`: 0xe000..0xfdff echoes 0xc000..0xddff.
pub open spec fn unecho(addr: u16) -> u16 {
    if 0xe000 <= addr <= 0xfdff {
        (addr - 0x2000) as u16
    } else {
        addr
    }
}

/// The 16-bit address space and everything routed through it.
pub struct Mmu {
    pub cartridge: Cartridge,
    pub joypad: Joypad,
    pub cgb_cram: Cram,
    pub cgb_double_speed: bool,
    pub cgb_prepare_speed_switch: bool,
    /// Backing store of the whole address space; VRAM bank 0 and WRAM bank 1 on DMG.
    pub memory: Vec<u8>,
    pub cgb_vram_bank1: Vec<u8>,
    /// WRAM banks 1 to 7 of the colour console, 0x1000 bytes each.
    pub cgb_wram_banks: Vec<u8>,
    pub cgb_hdma_src: u16,
    pub cgb_hdma_dst: u16,
    pub cgb_hdma_transfer_length: u16,
    pub cgb_hdma_started: bool,
    pub cgb_hdma_is_hblank_mode: bool,
    pub bootrom: Vec<u8>,
    pub mode: Mode,
    pub last_ppu_state: State,
    /// The 16-bit divider counter; DIV is its high byte.
    pub div_counter: u16,
}

impl Mmu {
    pub open spec fn wf(&self) -> bool {
        &&& self.memory@.len() == 0x10000
        &&& self.cgb_vram_bank1@.len() == 0x2000
        &&& self.cgb_wram_banks@.len() == 0x7000
        &&& self.cartridge.wf()
        &&& self.cgb_cram.wf()
        &&& self.cgb_hdma_transfer_length <= 0x800
        &&& self.cgb_hdma_transfer_length % 16 == 0
        &&& self.cgb_hdma_src <= 0xfff0
        &&& self.cgb_hdma_src % 16 == 0
        &&& 0x8000 <= self.cgb_hdma_dst <= 0x9ff0
        &&& self.cgb_hdma_dst % 16 == 0
    }

    pub open spec fn mem(&self, addr: int) -> u8 {
        self.memory@[addr]
    }

    pub open spec fn bootrom_mapped(&self) -> bool {
        self.mem(BOOTROM_MAPPER_REGISTER as int) == 0
    }

    /// Whether `addr` is served by the boot ROM while it is mapped.
    pub open spec fn in_bootrom(&self, addr: u16) -> bool {
        &&& self.bootrom_mapped()
        &&& (addr as int) < self.bootrom@.len()
        &&& match self.mode {
            Mode::Dmg => addr <= 0xff,
            Mode::Cgb => addr < 0x100 || (0x200 <= addr && addr <= 0x8ff),
        }
    }

    pub open spec fn vram_bank_spec(&self) -> u8 {
        if self.mode == Mode::Cgb {
            self.mem(VRAM_BANK_SELECT_REGISTER as int) % 2
        } else {
            0
        }
    }

    pub open spec fn wram_bank_spec(&self) -> u8 {
        if self.mode == Mode::Cgb {
            if self.mem(WRAM_BANK_SELECT_REGISTER as int) % 8 == 0 {
                1
            } else {
                self.mem(WRAM_BANK_SELECT_REGISTER as int) % 8
            }
        } else {
            0
        }
    }

    pub open spec fn wram_index(&self, addr: u16) -> int {
        (self.wram_bank_spec() - 1) * 0x1000 + (addr - 0xd000)
    }

    pub open spec fn hdma_status(&self) -> u8 {
        if self.cgb_hdma_started {
            ((self.cgb_hdma_transfer_length / 16 + 127) % 128) as u8
        } else {
            0xff
        }
    }

    /// What a CPU read of `addr` yields.
    pub open spec fn read_spec(&self, addr0: u16) -> Result<u8, AyyError> {
        let addr = unecho(addr0);
        if addr <= 0x7fff && self.in_bootrom(addr) {
            Ok(self.bootrom@[addr as int])
        } else if addr <= 0x7fff || (0xa000 <= addr && addr <= 0xbfff) {
            self.cartridge.read_spec(addr)
        } else if 0x8000 <= addr && addr <= 0x9fff && self.vram_bank_spec() == 1 {
            Ok(self.cgb_vram_bank1@[addr - 0x8000])
        } else if 0xd000 <= addr && addr <= 0xdfff && self.wram_bank_spec() > 0 {
            Ok(self.cgb_wram_banks@[self.wram_index(addr)])
        } else if addr == JOYPAD_REGISTER {
            Ok(self.joypad.read_spec(self.mem(addr as int)))
        } else if addr == DIV_REGISTER {
            Ok((self.div_counter / 256) as u8)
        } else if addr == LCD_STATUS_REGISTER {
            Ok(((self.mem(addr as int) / 4) * 4 + self.last_ppu_state.mode_bits()) as u8)
        } else if addr == DOUBLE_SPEED_SWITCH_REGISTER && self.mode == Mode::Cgb {
            Ok((if self.cgb_double_speed { 0x80int } else { 0 } + if self.cgb_prepare_speed_switch {
                1int
            } else {
                0
            }) as u8)
        } else if addr == HDMA_LENGTH_MODE_START_REGISTER && self.mode == Mode::Cgb {
            Ok(self.hdma_status())
        } else if BACKGROUND_PALETTE_INDEX_REGISTER <= addr && addr <= OBJECT_PALETTE_DATA_REGISTER
            && self.mode == Mode::Cgb {
            Ok(self.cgb_cram.read_spec(addr))
        } else {
            Ok(self.mem(addr as int))
        }
    }

    /// A read whose mapper failures are recovered locally as 0xff.
    pub open spec fn read_or_ff(&self, addr: u16) -> u8 {
        match self.read_spec(addr) {
            Ok(v) => v,
            Err(_) => 0xff,
        }
    }

    pub fn new(bootrom: Vec<u8>, cartridge: Cartridge, mode: Mode) -> (r: Mmu)
        requires
            cartridge.wf(),
        ensures
            r.wf(),
            r.memory@ == Seq::new(0x10000, |i: int| 0u8),
            r.cartridge == cartridge,
            r.bootrom@ == bootrom@,
            r.mode == mode,
            r.div_counter == 0,
            !r.cgb_double_speed && !r.cgb_prepare_speed_switch && !r.cgb_hdma_started,
            r.last_ppu_state == State::OamScan,
    {
        Mmu {
            cartridge,
            joypad: Joypad::new(),
            cgb_cram: Cram::new(),
            cgb_double_speed: false,
            cgb_prepare_speed_switch: false,
            memory: zeroed(0x10000),
            cgb_vram_bank1: zeroed(0x2000),
            cgb_wram_banks: zeroed(0x7000),
            cgb_hdma_src: 0,
            cgb_hdma_dst: 0x8000,
            cgb_hdma_transfer_length: 0,
            cgb_hdma_started: false,
            cgb_hdma_is_hblank_mode: false,
            bootrom,
            mode,
            last_ppu_state: State::OamScan,
            div_counter: 0,
        }
    }

    pub fn is_bootrom_mapped(&self) -> (r: bool)
        requires
            self.wf(),
        ensures
            r == self.bootrom_mapped(),
    {
        self.memory[BOOTROM_MAPPER_REGISTER as usize] == 0
    }

    pub fn current_vram_bank(&self) -> (r: u8)
        requires
            self.wf(),
        ensures
            r == self.vram_bank_spec(),
    {
        if self.mode == Mode::Cgb {
            self.memory[VRAM_BANK_SELECT_REGISTER as usize] % 2
        } else {
            0
        }
    }

    /// The WRAM bank at 0xd000..0xdfff: 1 to 7 on CGB (0 selects 1), 0 (the backing
    /// store) on DMG.
    pub fn current_wram_bank(&self) -> (r: u8)
        requires
            self.wf(),
        ensures
            r == self.wram_bank_spec(),
            self.mode == Mode::Cgb ==> 1 <= r <= 7,
    {
        if self.mode == Mode::Cgb {
            let bank = self.memory[WRAM_BANK_SELECT_REGISTER as usize] % 8;
            if bank == 0 {
                1
            } else {
                bank
            }
        } else {
            0
        }
    }

    pub fn cache_ppu_state(&mut self, state: State)
        ensures
            *final(self) == (Mmu { last_ppu_state: state, ..*old(self) }),
    {
        self.last_ppu_state = state;
    }

    pub fn read(&self, addr0: u16) -> (r: Result<u8, AyyError>)
        requires
            self.wf(),
        ensures
            r == self.read_spec(addr0),
    {
        let addr = if 0xe000 <= addr0 && addr0 <= 0xfdff {
            addr0 - 0x2000
        } else {
            addr0
        };
        if addr <= 0x7fff && self.memory[BOOTROM_MAPPER_REGISTER as usize] == 0
            && (addr as usize) < self.bootrom.len() && match self.mode {
            Mode::Dmg => addr <= 0xff,
            Mode::Cgb => addr < 0x100 || (0x200 <= addr && addr <= 0x8ff),
        } {
            Ok(self.bootrom[addr as usize])
        } else if addr <= 0x7fff || (0xa000 <= addr && addr <= 0xbfff) {
            self.cartridge.read(addr)
        } else if 0x8000 <= addr && addr <= 0x9fff && self.current_vram_bank() == 1 {
            Ok(self.cgb_vram_bank1[(addr - 0x8000) as usize])
        } else if 0xd000 <= addr && addr <= 0xdfff && self.current_wram_bank() > 0 {
            let bank = self.current_wram_bank() as usize;
            Ok(self.cgb_wram_banks[(bank - 1) * 0x1000 + (addr - 0xd000) as usize])
        } else if addr == JOYPAD_REGISTER {
            Ok(self.joypad.as_u8(self.memory[addr as usize]))
        } else if addr == DIV_REGISTER {
            Ok((self.div_counter / 256) as u8)
        } else if addr == LCD_STATUS_REGISTER {
            Ok((self.memory[addr as usize] / 4) * 4 + self.last_ppu_state.as_u8())
        } else if addr == DOUBLE_SPEED_SWITCH_REGISTER && self.mode == Mode::Cgb {
            Ok((if self.cgb_double_speed { 0x80u8 } else { 0u8 }) + (if self.cgb_prepare_speed_switch {
                1u8
            } else {
                0u8
            }))
        } else if addr == HDMA_LENGTH_MODE_START_REGISTER && self.mode == Mode::Cgb {
            if self.cgb_hdma_started {
                Ok(((self.cgb_hdma_transfer_length / 16 + 127) % 128) as u8)
            } else {
                Ok(0xff)
            }
        } else if BACKGROUND_PALETTE_INDEX_REGISTER <= addr && addr <= OBJECT_PALETTE_DATA_REGISTER
            && self.mode == Mode::Cgb {
            Ok(self.cgb_cram.read(addr))
        } else {
            Ok(self.memory[addr as usize])
        }
    }

    /// A read for I/O paths that must not fail: mapper failures read as 0xff.
    pub fn read_unchecked(&self, addr: u16) -> (r: u8)
        requires
            self.wf(),
        ensures
            r == self.read_or_ff(addr),
    {
        match self.read(addr) {
            Ok(v) => v,
            Err(_) => 0xff,
        }
    }

    /// Little-endian 16-bit read of `addr` and `addr + 1` (wrapping).
    pub fn read16(&self, addr: u16) -> (r: Result<u16, AyyError>)
        requires
            self.wf(),
        ensures
            self.read_spec(addr) is Err ==> r == Err::<u16, AyyError>(self.read_spec(addr)->Err_0),
            self.read_spec(addr) is Ok && self.read_spec(addr.wrapping_add(1)) is Err ==> r == Err::<
                u16,
                AyyError,
            >(self.read_spec(addr.wrapping_add(1))->Err_0),
            self.read_spec(addr) is Ok && self.read_spec(addr.wrapping_add(1)) is Ok ==> r == Ok::<
                u16,
                AyyError,
            >(
                (self.read_spec(addr.wrapping_add(1))->Ok_0 as int * 256 + self.read_spec(
                    addr,
                )->Ok_0 as int) as u16,
            ),
    {
        let lo = self.read(addr)?;
        let hi = self.read(addr.wrapping_add(1))?;
        Ok(hi as u16 * 256 + lo as u16)
    }

    /// A byte of VRAM from the given bank, bypassing bank selection.
    pub fn read_from_vram(&self, addr: u16, bank: u8) -> (r: u8)
        requires
            self.wf(),
            0x8000 <= addr <= 0x9fff || (bank == 0 && 0xfe00 <= addr <= 0xfe9f),
        ensures
            bank == 0 ==> r == self.mem(addr as int),
            bank != 0 ==> r == self.cgb_vram_bank1@[addr - 0x8000],
    {
        if bank == 0 {
            self.memory[addr as usize]
        } else {
            self.cgb_vram_bank1[(addr - 0x8000) as usize]
        }
    }

    /// What OAM holds after a DMA transfer from page `page`: byte `i` of OAM is the byte
    /// read at `page * 0x100 + i`.
    pub open spec fn dma_memory(&self, page: u8) -> Seq<u8> {
        Seq::new(
            0x10000,
            |i: int|
                if OAM_ADDRESS <= i < OAM_ADDRESS + OAM_SIZE {
                    self.read_or_ff((page as int * 256 + (i - OAM_ADDRESS)) as u16)
                } else if i == OAM_DMA_REGISTER {
                    page
                } else {
                    self.mem(i)
                },
        )
    }

    /// The VRAM byte at `addr` of the selected bank.
    pub open spec fn vram_byte(&self, addr: int) -> u8 {
        if self.vram_bank_spec() == 1 {
            self.cgb_vram_bank1@[addr - 0x8000]
        } else {
            self.mem(addr)
        }
    }

    /// `post` is `self` after `len` bytes read from `src` were stored at `dst` in the
    /// selected VRAM bank; all else unchanged but the HDMA registers.
    pub open spec fn block_copied(&self, post: &Mmu, src: u16, dst: u16, len: u16) -> bool {
        &&& post.wf()
        &&& post.cartridge == self.cartridge && post.joypad == self.joypad
        &&& post.cgb_cram == self.cgb_cram && post.mode == self.mode
        &&& post.bootrom == self.bootrom && post.div_counter == self.div_counter
        &&& post.last_ppu_state == self.last_ppu_state
        &&& post.cgb_double_speed == self.cgb_double_speed
        &&& post.cgb_prepare_speed_switch == self.cgb_prepare_speed_switch
        &&& post.cgb_wram_banks == self.cgb_wram_banks
        &&& post.vram_bank_spec() == self.vram_bank_spec()
        &&& forall|a: int|
            0x8000 <= a <= 0x9fff ==> #[trigger] post.vram_byte(a) == if dst <= a < dst + len {
                self.read_or_ff(wrap16(src + (a - dst)))
            } else {
                self.vram_byte(a)
            }
        &&& self.vram_bank_spec() == 1 ==> post.memory == self.memory
        &&& self.vram_bank_spec() == 0 ==> post.cgb_vram_bank1 == self.cgb_vram_bank1
            && forall|a: int| 0 <= a < 0x10000 && !(0x8000 <= a <= 0x9fff) ==> #[trigger] post.mem(a) == self.mem(a)
    }

    /// How a little-endian 16-bit write relates the MMU before and after: the low byte is
    /// written at `addr`, then, if that succeeded, the high byte at `addr + 1`.
    pub open spec fn write16_rel(&self, post: &Mmu, addr: u16, data: u16, r: Result<(), AyyError>) -> bool {
        exists|mid: Mmu, r1: Result<(), AyyError>|
            {
                &&& mid.wf()
                &&& #[trigger] self.write_rel(&mid, addr, (data % 256) as u8, r1)
                &&& r1 is Err ==> r == r1 && *post == mid
                &&& r1 is Ok ==> mid.write_rel(post, addr.wrapping_add(1), (data / 256) as u8, r)
            }
    }

    /// How a CPU write of `data` at `addr0` relates the MMU before and after, and its result.
    #[verifier::opaque]
    pub open spec fn write_rel(&self, post: &Mmu, addr0: u16, data: u8, r: Result<(), AyyError>) -> bool {
        let addr = unecho(addr0);
        let cgb = self.mode == Mode::Cgb;
        if addr <= 0x7fff && self.in_bootrom(addr) {
            *post == *self && r is Ok
        } else if addr <= 0x7fff || (0xa000 <= addr && addr <= 0xbfff) {
            *post == (Mmu { cartridge: post.cartridge, ..*self }) && self.cartridge.write_rel(
                &post.cartridge,
                addr,
                data,
                r,
            )
        } else if 0x8000 <= addr && addr <= 0x9fff && self.vram_bank_spec() == 1 {
            r is Ok && *post == (Mmu { cgb_vram_bank1: post.cgb_vram_bank1, ..*self })
                && post.cgb_vram_bank1@ == self.cgb_vram_bank1@.update(addr - 0x8000, data)
        } else if 0xd000 <= addr && addr <= 0xdfff && self.wram_bank_spec() > 0 {
            r is Ok && *post == (Mmu { cgb_wram_banks: post.cgb_wram_banks, ..*self })
                && post.cgb_wram_banks@ == self.cgb_wram_banks@.update(self.wram_index(addr), data)
        } else if addr == DIV_REGISTER {
            r is Ok && *post == (Mmu { div_counter: 0, ..*self })
        } else if addr == OAM_DMA_REGISTER {
            r is Ok && *post == (Mmu { memory: post.memory, ..*self }) && post.memory@
                == self.dma_memory(data)
        } else if addr == BOOTROM_MAPPER_REGISTER {
            r is Ok && *post == (Mmu { memory: post.memory, ..*self }) && post.memory@
                == self.memory@.update(addr as int, 1)
        } else if addr == DOUBLE_SPEED_SWITCH_REGISTER && cgb {
            r is Ok && *post == (Mmu { cgb_prepare_speed_switch: data % 2 == 1, ..*self })
        } else if addr == HDMA_SRC_HIGH_REGISTER && cgb {
            r is Ok && *post == (Mmu {
                cgb_hdma_src: (data as int * 256 + self.cgb_hdma_src % 256) as u16,
                ..*self
            })
        } else if addr == HDMA_SRC_LOW_REGISTER && cgb {
            r is Ok && *post == (Mmu {
                cgb_hdma_src: ((self.cgb_hdma_src / 256) * 256 + (data / 16) * 16) as u16,
                ..*self
            })
        } else if addr == HDMA_DST_HIGH_REGISTER && cgb {
            r is Ok && *post == (Mmu {
                cgb_hdma_dst: (0x8000 + (data % 32) * 256 + self.cgb_hdma_dst % 256) as u16,
                ..*self
            })
        } else if addr == HDMA_DST_LOW_REGISTER && cgb {
            r is Ok && *post == (Mmu {
                cgb_hdma_dst: ((self.cgb_hdma_dst / 256) * 256 + (data / 16) * 16) as u16,
                ..*self
            })
        } else if addr == HDMA_LENGTH_MODE_START_REGISTER && cgb {
            r is Ok && if data < 0x80 && self.cgb_hdma_started && self.cgb_hdma_is_hblank_mode {
                *post == (Mmu { cgb_hdma_started: false, ..*self })
            } else if data >= 0x80 {
                *post == (Mmu {
                    cgb_hdma_transfer_length: ((data % 128 + 1) * 16) as u16,
                    cgb_hdma_started: true,
                    cgb_hdma_is_hblank_mode: true,
                    ..*self
                })
            } else {
                &&& self.block_copied(
                    post,
                    self.cgb_hdma_src,
                    self.cgb_hdma_dst,
                    ((data % 128 + 1) * 16) as u16,
                )
                &&& !post.cgb_hdma_started && !post.cgb_hdma_is_hblank_mode
                &&& post.cgb_hdma_transfer_length == 0
            }
        } else if BACKGROUND_PALETTE_INDEX_REGISTER <= addr && addr <= OBJECT_PALETTE_DATA_REGISTER
            && cgb {
            r is Ok && *post == (Mmu { cgb_cram: post.cgb_cram, ..*self })
                && self.cgb_cram.write_rel(&post.cgb_cram, addr, data)
        } else {
            r is Ok && *post == (Mmu { memory: post.memory, ..*self }) && post.memory@
                == self.memory@.update(addr as int, data)
        }
    }

    /// Copies `len` bytes read from `src` (wrapping) into the selected VRAM bank at `dst`;
    /// bytes that would land past 0x9fff are dropped.
    #[verifier::rlimit(30)]
    fn copy_block(&mut self, src: u16, dst: u16, len: u16)
        requires
            old(self).wf(),
            0x8000 <= dst <= 0x9ff0,
            len <= 0x800,
        ensures
            old(self).block_copied(&*final(self), src, dst, len),
            final(self).cgb_hdma_src == old(self).cgb_hdma_src,
            final(self).cgb_hdma_dst == old(self).cgb_hdma_dst,
            final(self).cgb_hdma_transfer_length == old(self).cgb_hdma_transfer_length,
            final(self).cgb_hdma_started == old(self).cgb_hdma_started,
            final(self).cgb_hdma_is_hblank_mode == old(self).cgb_hdma_is_hblank_mode,
    {
        let mut buf: Vec<u8> = Vec::new();
        let mut i: u16 = 0;
        while i < len
            invariant
                self.wf(),
                i <= len,
                buf@.len() == i,
                forall|j: int| 0 <= j < i ==> buf@[j] == self.read_or_ff(wrap16(src + j)),
            decreases len - i,
        {
            buf.push(self.read_unchecked(src.wrapping_add(i)));
            i = i + 1;
        }
        let bank1 = self.current_vram_bank() == 1;
        let ghost pre = *self;
        let mut j: u16 = 0;
        while j < len
            invariant
                self.wf(),
                pre.wf(),
                j <= len,
                0x8000 <= dst <= 0x9ff0,
                len <= 0x800,
                buf@.len() == len,
                bank1 == (pre.vram_bank_spec() == 1),
                forall|k: int| 0 <= k < len ==> buf@[k] == pre.read_or_ff(wrap16(src + k)),
                self.vram_bank_spec() == pre.vram_bank_spec(),
                *self == (Mmu { memory: self.memory, cgb_vram_bank1: self.cgb_vram_bank1, ..pre }),
                bank1 ==> self.memory == pre.memory,
                !bank1 ==> self.cgb_vram_bank1 == pre.cgb_vram_bank1,
                forall|a: int|
                    0 <= a < 0x10000 && !(0x8000 <= a <= 0x9fff) ==> #[trigger] self.mem(a) == pre.mem(a),
                forall|a: int|
                    0x8000 <= a <= 0x9fff ==> #[trigger] self.vram_byte(a) == if dst <= a < dst + j {
                        pre.read_or_ff(wrap16(src + (a - dst)))
                    } else {
                        pre.vram_byte(a)
                    },
            decreases len - j,
        {
            let a = dst as usize + j as usize;
            let ghost prev = *self;
            if a <= 0x9fff {
                if bank1 {
                    self.cgb_vram_bank1.set(a - 0x8000, buf[j as usize]);
                } else {
                    self.memory.set(a, buf[j as usize]);
                }
            }
            proof {
                assert(self.mem(VRAM_BANK_SELECT_REGISTER as int) == prev.mem(VRAM_BANK_SELECT_REGISTER as int));
                assert forall|b: int| 0 <= b < 0x10000 && !(0x8000 <= b <= 0x9fff) implies #[trigger] self.mem(b) == pre.mem(b) by {
                    assert(self.mem(b) == prev.mem(b));
                }
                assert forall|b: int| 0x8000 <= b <= 0x9fff implies #[trigger] self.vram_byte(b) == if dst <= b < dst + j + 1 {
                    pre.read_or_ff(wrap16(src + (b - dst)))
                } else {
                    pre.vram_byte(b)
                } by {
                    if b != a {
                        assert(self.vram_byte(b) == prev.vram_byte(b));
                    }
                }
            }
            j = j + 1;
        }
    }

    /// OAM DMA: copies the 160 bytes at `page * 0x100` into OAM.
    #[verifier::rlimit(30)]
    fn start_dma_transfer(&mut self, page: u8)
        requires
            old(self).wf(),
        ensures
            *final(self) == (Mmu { memory: final(self).memory, ..*old(self) }),
            final(self).memory@ == old(self).dma_memory(page),
    {
        let src: u16 = page as u16 * 256;
        let mut buf: Vec<u8> = Vec::new();
        let mut i: u16 = 0;
        while i < OAM_SIZE
            invariant
                self.wf(),
                i <= OAM_SIZE,
                src == page as int * 256,
                buf@.len() == i,
                forall|j: int| 0 <= j < i ==> buf@[j] == self.read_or_ff((src + j) as u16),
            decreases OAM_SIZE - i,
        {
            buf.push(self.read_unchecked(src + i));
            i = i + 1;
        }
        let ghost pre = *self;
        let mut j: u16 = 0;
        while j < OAM_SIZE
            invariant
                self.wf(),
                j <= OAM_SIZE,
                src == page as int * 256,
                buf@.len() == OAM_SIZE,
                forall|k: int| 0 <= k < OAM_SIZE ==> buf@[k] == pre.read_or_ff((src + k) as u16),
                *self == (Mmu { memory: self.memory, ..pre }),
                forall|a: int|
                    0 <= a < 0x10000 ==> #[trigger] self.mem(a) == if OAM_ADDRESS <= a < OAM_ADDRESS + j {
                        pre.read_or_ff((src + (a - OAM_ADDRESS)) as u16)
                    } else {
                        pre.mem(a)
                    },
            decreases OAM_SIZE - j,
        {
            let ghost prev = *self;
            self.memory.set((OAM_ADDRESS + j) as usize, buf[j as usize]);
            proof {
                assert forall|a: int| 0 <= a < 0x10000 implies #[trigger] self.mem(a) == if OAM_ADDRESS <= a < OAM_ADDRESS + j + 1 {
                    pre.read_or_ff((src + (a - OAM_ADDRESS)) as u16)
                } else {
                    pre.mem(a)
                } by {
                    if a != OAM_ADDRESS + j {
                        assert(self.mem(a) == prev.mem(a));
                    }
                }
            }
            j = j + 1;
        }
        let ghost prev = *self;
        self.memory.set(OAM_DMA_REGISTER as usize, page);
        assert forall|a: int| 0 <= a < 0x10000 implies #[trigger] self.memory@[a] == pre.dma_memory(page)[a] by {
            if a != OAM_DMA_REGISTER {
                assert(self.mem(a) == prev.mem(a));
            }
        }
        assert(self.memory@ =~= pre.dma_memory(page));
    }

    #[verifier::rlimit(30)]
    pub fn write(&mut self, addr0: u16, data: u8) -> (r: Result<(), AyyError>)
        requires
            old(self).wf(),
        ensures
            final(self).wf(),
            old(self).write_rel(&*final(self), addr0, data, r),
    {
        reveal(Mmu::write_rel);
        let addr = if 0xe000 <= addr0 && addr0 <= 0xfdff {
            addr0 - 0x2000
        } else {
            addr0
        };
        let cgb = self.mode == Mode::Cgb;
        if addr <= 0x7fff && self.memory[BOOTROM_MAPPER_REGISTER as usize] == 0
            && (addr as usize) < self.bootrom.len() && match self.mode {
            Mode::Dmg => addr <= 0xff,
            Mode::Cgb => addr < 0x100 || (0x200 <= addr && addr <= 0x8ff),
        } {
            Ok(())
        } else if addr <= 0x7fff || (0xa000 <= addr && addr <= 0xbfff) {
            self.cartridge.write(addr, data)
        } else if 0x8000 <= addr && addr <= 0x9fff && self.current_vram_bank() == 1 {
            self.cgb_vram_bank1.set((addr - 0x8000) as usize, data);
            Ok(())
        } else if 0xd000 <= addr && addr <= 0xdfff && self.current_wram_bank() > 0 {
            let bank = self.current_wram_bank() as usize;
            self.cgb_wram_banks.set((bank - 1) * 0x1000 + (addr - 0xd000) as usize, data);
            Ok(())
        } else if addr == DIV_REGISTER {
            self.div_counter = 0;
            Ok(())
        } else if addr == OAM_DMA_REGISTER {
            self.start_dma_transfer(data);
            Ok(())
        } else if addr == BOOTROM_MAPPER_REGISTER {
            self.memory.set(addr as usize, 1);
            Ok(())
        } else if addr == DOUBLE_SPEED_SWITCH_REGISTER && cgb {
            self.cgb_prepare_speed_switch = data % 2 == 1;
            Ok(())
        } else if addr == HDMA_SRC_HIGH_REGISTER && cgb {
            self.cgb_hdma_src = data as u16 * 256 + self.cgb_hdma_src % 256;
            Ok(())
        } else if addr == HDMA_SRC_LOW_REGISTER && cgb {
            self.cgb_hdma_src = (self.cgb_hdma_src / 256) * 256 + (data / 16) as u16 * 16;
            Ok(())
        } else if addr == HDMA_DST_HIGH_REGISTER && cgb {
            self.cgb_hdma_dst = 0x8000 + (data % 32) as u16 * 256 + self.cgb_hdma_dst % 256;
            Ok(())
        } else if addr == HDMA_DST_LOW_REGISTER && cgb {
            self.cgb_hdma_dst = (self.cgb_hdma_dst / 256) * 256 + (data / 16) as u16 * 16;
            Ok(())
        } else if addr == HDMA_LENGTH_MODE_START_REGISTER && cgb {
            self.start_hdma_transfer(data);
            Ok(())
        } else if BACKGROUND_PALETTE_INDEX_REGISTER <= addr && addr <= OBJECT_PALETTE_DATA_REGISTER
            && cgb {
            self.cgb_cram.write(addr, data);
            Ok(())
        } else {
            self.memory.set(addr as usize, data);
            Ok(())
        }
    }

    /// A write to 0xff55: cancels a running HBlank transfer, arms a new HBlank transfer,
    /// or performs a general-purpose transfer at once.
    #[verifier::rlimit(30)]
    fn start_hdma_transfer(&mut self, data: u8)
        requires
            old(self).wf(),
            old(self).mode == Mode::Cgb,
        ensures
            final(self).wf(),
            old(self).write_rel(&*final(self), HDMA_LENGTH_MODE_START_REGISTER, data, Ok(())),
    {
        reveal(Mmu::write_rel);
        if data < 0x80 && self.cgb_hdma_started && self.cgb_hdma_is_hblank_mode {
            self.cgb_hdma_started = false;
        } else if data >= 0x80 {
            self.cgb_hdma_transfer_length = (data as u16 % 128 + 1) * 16;
            self.cgb_hdma_started = true;
            self.cgb_hdma_is_hblank_mode = true;
        } else {
            let len = (data as u16 % 128 + 1) * 16;
            let src = self.cgb_hdma_src;
            let dst = self.cgb_hdma_dst;
            let ghost pre = *self;
            self.copy_block(src, dst, len);
            let ghost mid = *self;
            self.cgb_hdma_transfer_length = 0;
            self.cgb_hdma_started = false;
            self.cgb_hdma_is_hblank_mode = false;
            assert(self.vram_bank_spec() == mid.vram_bank_spec());
            assert forall|a: int| 0x8000 <= a <= 0x9fff implies #[trigger] self.vram_byte(a) == mid.vram_byte(a) by {}
            assert forall|a: int| 0 <= a < 0x10000 implies #[trigger] self.mem(a) == mid.mem(a) by {}
        }
    }

    /// A write for I/O paths that must not fail: failures are dropped.
    pub fn write_unchecked(&mut self, addr: u16, data: u8)
        requires
            old(self).wf(),
        ensures
            final(self).wf(),
            exists|r: Result<(), AyyError>| old(self).write_rel(&*final(self), addr, data, r),
    {
        let r = self.write(addr, data);
    }

    /// Little-endian 16-bit write: the low byte at `addr`, then the high byte at
    /// `addr + 1` (wrapping), stopping at the first failure.
    #[verifier::rlimit(30)]
    pub fn write16(&mut self, addr: u16, data: u16) -> (r: Result<(), AyyError>)
        requires
            old(self).wf(),
        ensures
            final(self).wf(),
            old(self).write16_rel(&*final(self), addr, data, r),
    {
        let ghost pre = *self;
        let r1 = self.write(addr, (data % 256) as u8);
        let ghost mid = *self;
        match r1 {
            Ok(()) => {
                let r = self.write(addr.wrapping_add(1), (data / 256) as u8);
                assert(pre.write_rel(&mid, addr, (data % 256) as u8, r1));
                r
            },
            Err(e) => {
                assert(pre.write_rel(&mid, addr, (data % 256) as u8, r1));
                Err(e)
            },
        }
    }

    /// Performs an armed speed switch (on STOP): toggles double speed and disarms.
    pub fn enable_pending_speed_switch(&mut self)
        ensures
            old(self).cgb_prepare_speed_switch ==> *final(self) == (Mmu {
                cgb_double_speed: !old(self).cgb_double_speed,
                cgb_prepare_speed_switch: false,
                ..*old(self)
            }),
            !old(self).cgb_prepare_speed_switch ==> *final(self) == *old(self),
    {
        if self.cgb_prepare_speed_switch {
            self.cgb_double_speed = !self.cgb_double_speed;
            self.cgb_prepare_speed_switch = false;
        }
    }

    /// On HBlank, an armed HBlank transfer moves its next 16 bytes and advances; it ends
    /// when no bytes are left.
    #[verifier::rlimit(30)]
    pub fn tick_hdma(&mut self)
        requires
            old(self).wf(),
        ensures
            final(self).wf(),
            !(old(self).cgb_hdma_started && old(self).cgb_hdma_is_hblank_mode && old(self).last_ppu_state
                == State::HBlank) ==> *final(self) == *old(self),
            old(self).cgb_hdma_started && old(self).cgb_hdma_is_hblank_mode && old(self).last_ppu_state
                == State::HBlank ==> {
                let len = old(self).cgb_hdma_transfer_length;
                let n: u16 = if len > 16 { 16 } else { len };
                &&& old(self).block_copied(&*final(self), old(self).cgb_hdma_src, old(self).cgb_hdma_dst, n)
                &&& final(self).cgb_hdma_transfer_length == len - n
                &&& final(self).cgb_hdma_src == if old(self).cgb_hdma_src <= 0xfff0 - n {
                    (old(self).cgb_hdma_src + n) as u16
                } else {
                    0xfff0u16
                }
                &&& final(self).cgb_hdma_dst == if old(self).cgb_hdma_dst <= 0x9ff0 - n {
                    (old(self).cgb_hdma_dst + n) as u16
                } else {
                    0x9ff0u16
                }
                &&& final(self).cgb_hdma_started == (len - n != 0)
                &&& final(self).cgb_hdma_is_hblank_mode == (len - n != 0)
            },
    {
        if self.cgb_hdma_started && self.cgb_hdma_is_hblank_mode && self.last_ppu_state == State::HBlank {
            let length = if self.cgb_hdma_transfer_length > 0x10 {
                0x10
            } else {
                self.cgb_hdma_transfer_length
            };
            let src = self.cgb_hdma_src;
            let dst = self.cgb_hdma_dst;
            self.copy_block(src, dst, length);
            let ghost mid = *self;
            self.cgb_hdma_transfer_length = self.cgb_hdma_transfer_length - length;
            self.cgb_hdma_src = if src <= 0xfff0 - length { src + length } else { 0xfff0 };
            self.cgb_hdma_dst = if dst <= 0x9ff0 - length { dst + length } else { 0x9ff0 };
            if self.cgb_hdma_transfer_length == 0 {
                self.cgb_hdma_started = false;
                self.cgb_hdma_is_hblank_mode = false;
            }
            assert(self.vram_bank_spec() == mid.vram_bank_spec());
            assert forall|a: int| 0x8000 <= a <= 0x9fff implies #[trigger] self.vram_byte(a) == mid.vram_byte(a) by {}
            assert forall|a: int| 0 <= a < 0x10000 implies #[trigger] self.mem(a) == mid.mem(a) by {}
        }
    }

    /// Records a button change. A button that goes from released to pressed while its row
    /// is selected (some bit of the joypad read-back falls) raises the joypad interrupt.
    #[verifier::rlimit(30)]
    pub fn update_button(&mut self, button: Button, pressed: bool)
        requires
            old(self).wf(),
        ensures
            final(self).wf(),
            ({
                let sel = old(self).mem(JOYPAD_REGISTER as int);
                let pad = old(self).joypad.with_button(button, pressed);
                let fell = old(self).joypad.read_spec(sel) & !pad.read_spec(sel) & 0x0f;
                let iflags = old(self).mem(INTERRUPT_FLAGS_REGISTER as int);
                &&& final(self).joypad == pad
                &&& fell != 0 ==> *final(self) == (Mmu { joypad: pad, memory: final(self).memory, ..*old(self) })
                    && final(self).memory@ == old(self).memory@.update(
                    INTERRUPT_FLAGS_REGISTER as int,
                    iflags | JOYPAD_BIT,
                )
                &&& fell == 0 ==> *final(self) == (Mmu { joypad: pad, ..*old(self) })
            }),
    {
        let sel = self.memory[JOYPAD_REGISTER as usize];
        let before = self.joypad.as_u8(sel);
        self.joypad.update_button(button, pressed);
        let after = self.joypad.as_u8(sel);
        if before & !after & 0x0f != 0 {
            let iflags = self.memory[INTERRUPT_FLAGS_REGISTER as usize];
            self.memory.set(INTERRUPT_FLAGS_REGISTER as usize, iflags | JOYPAD_BIT);
        }
    }
}

/// An OAM DMA started by writing `page` to 0xff46 copies exactly the 160 bytes at
/// `page * 0x100` into 0xfe00..0xfea0 and changes no other byte but the register itself.
pub proof fn lemma_oam_dma(before: Mmu, after: Mmu, page: u8, r: Result<(), AyyError>)
    requires
        before.wf(),
        before.write_rel(&after, OAM_DMA_REGISTER, page, r),
    ensures
        r is Ok,
        forall|i: int| 0 <= i < OAM_SIZE ==> #[trigger] after.mem(OAM_ADDRESS + i) == before.read_or_ff(
            (page as int * 256 + i) as u16,
        ),
        forall|a: int|
            0 <= a < 0x10000 && !(OAM_ADDRESS <= a < OAM_ADDRESS + OAM_SIZE) && a != OAM_DMA_REGISTER
                ==> #[trigger] after.mem(a) == before.mem(a),
        after.cartridge == before.cartridge && after.cgb_vram_bank1 == before.cgb_vram_bank1
            && after.cgb_wram_banks == before.cgb_wram_banks,
{
    reveal(Mmu::write_rel);
    assert forall|i: int| 0 <= i < OAM_SIZE implies #[trigger] after.mem(OAM_ADDRESS + i) == before.read_or_ff(
        (page as int * 256 + i) as u16,
    ) by {
        assert(after.memory@[OAM_ADDRESS + i] == before.dma_memory(page)[OAM_ADDRESS + i]);
    }
    assert forall|a: int|
        0 <= a < 0x10000 && !(OAM_ADDRESS <= a < OAM_ADDRESS + OAM_SIZE) && a != OAM_DMA_REGISTER
            implies #[trigger] after.mem(a) == before.mem(a) by {
        assert(after.memory@[a] == before.dma_memory(page)[a]);
    }
}

} // verus!
