use vstd::prelude::*;
use crate::cpu::Cpu;
use crate::error::AyyError;
use crate::mapper::mbc1::Mbc1;
use crate::mapper::mbc3::Mbc3;
use crate::mapper::mbc5::Mbc5;
use crate::mapper::rom::Rom;
use crate::mapper::Cartridge;
use crate::mmu::Mmu;
use crate::ppu::{phase_duration, Ppu};
use crate::mmu::SCANLINE_Y_REGISTER;
use crate::state::State;
use crate::timer::Timer;

verus! {

/// Header byte holding the colour-support flag.
pub const CGB_FLAG_ADDRESS: usize = 0x143;
/// Header byte holding the cartridge type.
pub const CARTRIDGE_TYPE_ADDRESS: usize = 0x147;
/// Most T-cycles `run_frame` spends without the PPU completing a frame.
pub const FRAME_BUDGET: usize = 70224;

/// Console variant being emulated.
#[derive(Debug, Clone, Copy, PartialEq, Eq, Structural)]
pub enum Mode {
    Dmg,
    Cgb,
}

/// The variant a cartridge asks for: CGB for flag 0xc0 (CGB only) and 0x80 (CGB enhanced).
pub open spec fn mode_for(cgb_flag: u8) -> Mode {
    if cgb_flag == 0xc0 || cgb_flag == 0x80 {
        Mode::Cgb
    } else {
        Mode::Dmg
    }
}

/// Which mapper a cartridge type byte selects: 0 flat ROM, 1 MBC1, 3 MBC3, 5 MBC5, 6 MBC5
/// with rumble; none for types that are not emulated.
pub open spec fn mapper_for(kind: u8) -> Option<u8> {
    if kind == 0x00 {
        Some(0u8)
    } else if 0x01 <= kind <= 0x03 {
        Some(1u8)
    } else if 0x0f <= kind <= 0x13 {
        Some(3u8)
    } else if 0x19 <= kind <= 0x1b {
        Some(5u8)
    } else if 0x1c <= kind <= 0x1e {
        Some(6u8)
    } else {
        None
    }
}

pub fn mode_from_header(cgb_flag: u8) -> (r: Mode)
    ensures
        r == mode_for(cgb_flag),
{
    if cgb_flag == 0xc0 || cgb_flag == 0x80 {
        Mode::Cgb
    } else {
        Mode::Dmg
    }
}

/// The whole console: processor, address space, picture unit and timer.
pub struct GameBoy {
    pub cpu: Cpu,
    pub mmu: Mmu,
    pub ppu: Ppu,
    pub timer: Timer,
    pub mode: Mode,
}

impl GameBoy {
    pub open spec fn wf(&self) -> bool {
        &&& self.cpu.wf()
        &&& self.mmu.wf()
        &&& self.ppu.wf()
        &&& self.ppu.pending_cycles() < phase_duration(self.ppu.state)
        &&& self.timer.wf()
    }

    /// Builds a console for `cartridge`, whose header chooses the variant and the mapper,
    /// starting in `bootrom`.
    #[verifier::rlimit(30)]
    pub fn new(bootrom: Vec<u8>, cartridge: Vec<u8>) -> (r: Result<GameBoy, AyyError>)
        requires
            cartridge@.len() > CARTRIDGE_TYPE_ADDRESS,
        ensures
            mapper_for(cartridge@[CARTRIDGE_TYPE_ADDRESS as int]) is None ==> r == Err::<GameBoy, AyyError>(
                AyyError::UnsupportedCartridge { kind: cartridge@[CARTRIDGE_TYPE_ADDRESS as int] },
            ),
            mapper_for(cartridge@[CARTRIDGE_TYPE_ADDRESS as int]) matches Some(m) ==> r matches Ok(gb) && {
                &&& gb.wf()
                &&& gb.mode == mode_for(cartridge@[CGB_FLAG_ADDRESS as int])
                &&& gb.mmu.mode == gb.mode
                &&& gb.mmu.bootrom@ == bootrom@
                &&& gb.mmu.cartridge.image() == cartridge@
                &&& (m == 0 <==> gb.mmu.cartridge is Rom)
                &&& (m == 1 <==> gb.mmu.cartridge is Mbc1)
                &&& (m == 3 <==> gb.mmu.cartridge is Mbc3)
                &&& (m == 5 || m == 6 <==> gb.mmu.cartridge is Mbc5)
                &&& gb.mmu.cartridge is Mbc5 ==> (gb.mmu.cartridge->Mbc5_0.allow_rumble <==> m == 6)
            },
    {
        let mode = mode_from_header(cartridge[CGB_FLAG_ADDRESS]);
        let kind = cartridge[CARTRIDGE_TYPE_ADDRESS];
        let cart = if kind == 0x00 {
            Cartridge::Rom(Rom::new(cartridge))
        } else if 0x01 <= kind && kind <= 0x03 {
            Cartridge::Mbc1(Mbc1::new(cartridge))
        } else if 0x0f <= kind && kind <= 0x13 {
            Cartridge::Mbc3(Mbc3::new(cartridge))
        } else if 0x19 <= kind && kind <= 0x1b {
            Cartridge::Mbc5(Mbc5::new(cartridge))
        } else if 0x1c <= kind && kind <= 0x1e {
            Cartridge::Mbc5(Mbc5::with_rumble(cartridge))
        } else {
            return Err(AyyError::UnsupportedCartridge { kind });
        };
        let mmu = Mmu::new(bootrom, cart, mode);
        Ok(GameBoy { cpu: Cpu::new(), mmu, ppu: Ppu::new(mode), timer: Timer::new(), mode })
    }

    /// Runs steps until the PPU completes a frame, or until a frame's worth of T-cycles
    /// has passed without one (the LCD may be off). Each step's T-cycles go to the timer,
    /// and to the PPU halved in double speed. Recoverable failures drop the step they
    /// occur in; any other failure stops the run and is returned. Returns whether a frame
    /// was completed: LY then stands wrapped at 0 at the start of OAM scan.
    #[verifier::rlimit(60)]
    pub fn run_frame(&mut self) -> (r: Result<bool, AyyError>)
        requires
            old(self).wf(),
        ensures
            final(self).wf(),
            r matches Err(e) ==> !e.is_recoverable_spec(),
            r == Ok::<bool, AyyError>(true) ==> final(self).mmu.mem(SCANLINE_Y_REGISTER as int) == 0
                && final(self).ppu.state == State::OamScan,
    {
        let mut spent: usize = 0;
        let mut steps: usize = 0;
        while spent < FRAME_BUDGET && steps < FRAME_BUDGET
            invariant
                self.wf(),
                spent <= FRAME_BUDGET + 24,
                steps <= FRAME_BUDGET,
            decreases FRAME_BUDGET - steps,
        {
            steps = steps + 1;
            let cycles = match self.cpu.tick(&mut self.mmu, &mut self.timer) {
                Ok(c) => c,
                Err(e) => {
                    if e.is_recoverable() {
                        0
                    } else {
                        return Err(e);
                    }
                },
            };
            let relative = if self.mmu.cgb_double_speed {
                cycles / 2
            } else {
                cycles
            };
            self.timer.tick(&mut self.mmu, cycles);
            let new_frame = self.ppu.tick_state(&mut self.mmu, relative);
            spent = spent + cycles;
            if new_frame {
                return Ok(true);
            }
        }
        Ok(false)
    }
}

} // verus!
