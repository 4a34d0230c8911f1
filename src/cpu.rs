use vstd::prelude::*;
use crate::error::AyyError;
use crate::handlers::lift;
use crate::irq::{highest_priority, Ime, Vector};
use crate::mmu::{Mmu, INTERRUPT_ENABLE_REGISTER, INTERRUPT_FLAGS_REGISTER};
use crate::registers::{Register, Registers, CARRY, HALF_CARRY, SUBTRACT, ZERO};
use crate::handlers::Handlers;
use crate::sm83::{AddressingMode, Instruction, Opcode, Operand, Sm83};
use crate::timer::Timer;

verus! {

/// IME after `EI`: the enable is armed, not yet in effect.
pub open spec fn ime_after_ei(ime: Ime) -> Ime {
    Ime { enable_pending: true, ..ime }
}

/// IME after `DI`: cleared at once, with any armed enable.
pub open spec fn ime_after_di(ime: Ime) -> Ime {
    Ime { enabled: false, enable_pending: false }
}

/// IME at the interrupt check that opens each step: an armed enable takes effect.
pub open spec fn ime_at_check(ime: Ime) -> Ime {
    if ime.enable_pending {
        Ime { enabled: true, enable_pending: false }
    } else {
        ime
    }
}

/// IE & IF, restricted to the five sources.
pub open spec fn pending_of(mmu: Mmu) -> u8 {
    mmu.mem(INTERRUPT_ENABLE_REGISTER as int) & mmu.mem(INTERRUPT_FLAGS_REGISTER as int) & 0x1f
}

/// Whether the interrupt check services an interrupt: one is pending and IME is on once
/// an armed enable has taken effect.
pub open spec fn services(cpu: Cpu, mmu: Mmu) -> bool {
    pending_of(mmu) != 0 && ime_at_check(cpu.ime).enabled
}

/// The processor after an interrupt check that services nothing: an armed enable takes
/// effect, and a pending interrupt ends HALT.
pub open spec fn after_check(cpu: Cpu, mmu: Mmu) -> Cpu {
    if pending_of(mmu) == 0 {
        Cpu { ime: ime_at_check(cpu.ime), ..cpu }
    } else {
        Cpu { ime: ime_at_check(cpu.ime), halted: false, ..cpu }
    }
}

/// Servicing the highest-priority pending interrupt: PC is pushed; if the push succeeds,
/// PC jumps to the vector, its IF bit is cleared and IME is off; 20 T-cycles are billed.
/// HALT ends either way.
pub open spec fn service_post(oc: Cpu, fc: Cpu, om: Mmu, fm: Mmu, r: Result<usize, AyyError>) -> bool {
    let v = highest_priority(pending_of(om))->Some_0;
    let sp = oc.registers.sp.wrapping_sub(2);
    exists|mid: Mmu, w: Result<(), AyyError>|
        {
            &&& #[trigger] om.write16_rel(&mid, sp, oc.registers.pc, w)
            &&& r == lift(w, 20)
            &&& w is Err ==> fm == mid && fc == (Cpu {
                registers: Registers { sp, ..oc.registers },
                ime: ime_at_check(oc.ime),
                halted: false,
                ..oc
            })
            &&& w is Ok ==> fm == (Mmu { memory: fm.memory, ..mid }) && fm.memory@ == mid.memory@.update(
                INTERRUPT_FLAGS_REGISTER as int,
                om.mem(INTERRUPT_FLAGS_REGISTER as int) & !v.bit_spec(),
            ) && fc == (Cpu {
                registers: Registers { sp, pc: v.address_spec(), ..oc.registers },
                ime: Ime { enabled: false, enable_pending: false },
                halted: false,
                ..oc
            })
        }
}

/// The SM83 processor state.
pub struct Cpu {
    pub sm83: Sm83,
    pub registers: Registers,
    /// T-cycles executed so far (wrapping).
    pub cycles: usize,
    pub ime: Ime,
    pub halted: bool,
}

/// The address an operand designates in memory, if it designates one.
pub open spec fn operand_addr(regs: Registers, op: Operand) -> Option<u16> {
    match op {
        Operand::Reg8(r, m) => if m != AddressingMode::Direct {
            Some((0xff00 + regs.get8(r)) as u16)
        } else {
            None
        },
        Operand::Reg16(r, m) => if m != AddressingMode::Direct {
            Some(regs.get16(r))
        } else {
            None
        },
        Operand::Imm8(n, m) => if m != AddressingMode::Direct {
            Some((0xff00 + n) as u16)
        } else {
            None
        },
        Operand::Imm16(nn, m) => if m != AddressingMode::Direct {
            Some(nn)
        } else {
            None
        },
        _ => None,
    }
}

/// Whether `op` names an 8-bit value: an 8-bit register, an immediate byte, or a memory byte.
pub open spec fn is_byte_operand(op: Operand) -> bool {
    match op {
        Operand::Reg8(r, m) => r.is_8bit() && (m == AddressingMode::Direct || r == Register::C),
        Operand::Reg16(r, m) => m != AddressingMode::Direct && (r == Register::BC || r == Register::DE || r == Register::HL),
        Operand::Imm8(_, _) => true,
        Operand::Imm16(_, m) => m != AddressingMode::Direct,
        _ => false,
    }
}

/// Whether `op` names a byte that can be written: an 8-bit register or a memory byte.
pub open spec fn is_writable_byte(op: Operand) -> bool {
    is_byte_operand(op) && !(op matches Operand::Imm8(_, AddressingMode::Direct))
}

/// The byte an operand yields when read.
pub open spec fn byte_value(regs: Registers, mmu: &Mmu, op: Operand) -> Result<u8, AyyError> {
    match operand_addr(regs, op) {
        Some(a) => mmu.read_spec(a),
        None => match op {
            Operand::Reg8(r, _) => Ok(regs.get8(r)),
            Operand::Imm8(n, _) => Ok(n),
            _ => Err(AyyError::InvalidHandler),
        },
    }
}

impl Cpu {
    pub open spec fn wf(&self) -> bool {
        self.registers.wf()
    }

    pub fn new() -> (r: Cpu)
        ensures
            r.wf(),
            r.registers == Registers::new_spec(),
            r.cycles == 0,
            !r.ime.enabled && !r.ime.enable_pending,
            !r.halted,
    {
        Cpu {
            sm83: Sm83::new(),
            registers: Registers::new(),
            cycles: 0,
            ime: Ime { enabled: false, enable_pending: false },
            halted: false,
        }
    }

    pub fn read_register(&self, register: Register) -> (r: u8)
        requires
            register.is_8bit(),
        ensures
            r == self.registers.get8(register),
    {
        self.registers.read(register)
    }

    pub fn read_register16(&self, register: Register) -> (r: u16)
        requires
            register.is_16bit(),
        ensures
            r == self.registers.get16(register),
    {
        self.registers.read16(register)
    }

    /// Writes an 8-bit register; F keeps only its high nibble.
    pub fn write_register(&mut self, register: Register, data: u8)
        requires
            old(self).wf(),
            register.is_8bit(),
        ensures
            final(self).wf(),
            *final(self) == (Cpu { registers: old(self).registers.set8(register, data), ..*old(self) }),
    {
        self.registers.write(register, data);
    }

    /// Writes a 16-bit register; AF keeps only the high nibble of F.
    pub fn write_register16(&mut self, register: Register, value: u16)
        requires
            old(self).wf(),
            register.is_16bit(),
        ensures
            final(self).wf(),
            *final(self) == (Cpu { registers: old(self).registers.set16(register, value), ..*old(self) }),
    {
        self.registers.write16(register, value);
    }

    pub fn read_flag(&self, mask: u8) -> (r: bool)
        ensures
            r == self.registers.flag(mask),
    {
        self.registers.f & mask != 0
    }

    pub fn update_flag(&mut self, mask: u8, value: bool)
        requires
            old(self).wf(),
            mask == ZERO || mask == SUBTRACT || mask == HALF_CARRY || mask == CARRY,
        ensures
            final(self).wf(),
            final(self).registers.flag(mask) == value,
            *final(self) == (Cpu {
                registers: Registers { f: final(self).registers.f, ..old(self).registers },
                ..*old(self)
            }),
    {
        self.registers.update_flag(mask, value);
    }

    pub fn set_flag(&mut self, mask: u8)
        requires
            old(self).wf(),
            mask == ZERO || mask == SUBTRACT || mask == HALF_CARRY || mask == CARRY,
        ensures
            final(self).wf(),
            final(self).registers.flag(mask),
            *final(self) == (Cpu {
                registers: Registers { f: final(self).registers.f, ..old(self).registers },
                ..*old(self)
            }),
    {
        self.registers.update_flag(mask, true);
    }

    pub fn clear_flag(&mut self, mask: u8)
        requires
            old(self).wf(),
            mask == ZERO || mask == SUBTRACT || mask == HALF_CARRY || mask == CARRY,
        ensures
            final(self).wf(),
            !final(self).registers.flag(mask),
            *final(self) == (Cpu {
                registers: Registers { f: final(self).registers.f, ..old(self).registers },
                ..*old(self)
            }),
    {
        self.registers.update_flag(mask, false);
    }

    /// Pushes `value`: SP drops by two and the value is written little-endian there.
    pub fn push_stack(&mut self, mmu: &mut Mmu, value: u16) -> (r: Result<(), AyyError>)
        requires
            old(self).wf(),
            old(mmu).wf(),
        ensures
            final(self).wf(),
            final(mmu).wf(),
            *final(self) == (Cpu {
                registers: Registers { sp: old(self).registers.sp.wrapping_sub(2), ..old(self).registers },
                ..*old(self)
            }),
            old(mmu).write16_rel(&*final(mmu), final(self).registers.sp, value, r),
    {
        self.registers.sp = self.registers.sp.wrapping_sub(2);
        mmu.write16(self.registers.sp, value)
    }

    /// Pops a little-endian word at SP; SP rises by two when both reads succeed.
    pub fn pop_stack(&mut self, mmu: &Mmu) -> (r: Result<u16, AyyError>)
        requires
            old(self).wf(),
            mmu.wf(),
        ensures
            final(self).wf(),
            r is Err ==> *final(self) == *old(self),
            r is Ok ==> *final(self) == (Cpu {
                registers: Registers { sp: old(self).registers.sp.wrapping_add(2), ..old(self).registers },
                ..*old(self)
            }),
            ({
                let sp = old(self).registers.sp;
                let lo = mmu.read_spec(sp);
                let hi = mmu.read_spec(sp.wrapping_add(1));
                &&& lo is Err ==> r == Err::<u16, AyyError>(lo->Err_0)
                &&& lo is Ok && hi is Err ==> r == Err::<u16, AyyError>(hi->Err_0)
                &&& lo is Ok && hi is Ok ==> r == Ok::<u16, AyyError>((hi->Ok_0 as int * 256 + lo->Ok_0 as int) as u16)
            }),
    {
        let value = mmu.read16(self.registers.sp)?;
        self.registers.sp = self.registers.sp.wrapping_add(2);
        Ok(value)
    }

    /// `EI` arms the enable (`delayed`); `RETI` enables at once.
    pub fn enable_interrupts(&mut self, delayed: bool)
        ensures
            delayed ==> *final(self) == (Cpu { ime: ime_after_ei(old(self).ime), ..*old(self) }),
            !delayed ==> *final(self) == (Cpu { ime: Ime { enabled: true, ..old(self).ime }, ..*old(self) }),
    {
        if delayed {
            self.ime.enable_pending = true;
        } else {
            self.ime.enabled = true;
        }
    }

    pub fn disable_interrupts(&mut self)
        ensures
            *final(self) == (Cpu { ime: ime_after_di(old(self).ime), ..*old(self) }),
    {
        self.ime.enabled = false;
        self.ime.enable_pending = false;
    }

    pub fn interrupt_master_raised(&self) -> (r: bool)
        ensures
            r == self.ime.enabled,
    {
        self.ime.enabled
    }

    pub fn elapsed_cycles(&self) -> (r: usize)
        ensures
            r == self.cycles,
    {
        self.cycles
    }

    pub fn reset_cycles(&mut self, to: usize)
        ensures
            *final(self) == (Cpu { cycles: to, ..*old(self) }),
    {
        self.cycles = to;
    }

    /// The interrupt check that opens each step. An armed enable takes effect first.
    /// If some source is both enabled in IE and flagged in IF, the CPU leaves HALT; and
    /// if IME is then on, the highest-priority source is serviced: PC is pushed, PC jumps
    /// to its vector, its IF bit is cleared and IME is turned off. Returns the T-cycles
    /// the dispatch took: 20, or 0 when nothing was serviced.
    #[verifier::rlimit(30)]
    pub fn handle_interrupts(&mut self, mmu: &mut Mmu) -> (r: Result<usize, AyyError>)
        requires
            old(self).wf(),
            old(mmu).wf(),
        ensures
            final(self).wf(),
            final(mmu).wf(),
            !services(*old(self), *old(mmu)) ==> r == Ok::<usize, AyyError>(0usize) && *final(self)
                == after_check(*old(self), *old(mmu)) && *final(mmu) == *old(mmu),
            services(*old(self), *old(mmu)) ==> service_post(*old(self), *final(self), *old(mmu), *final(mmu), r),
    {
        if self.ime.enable_pending {
            self.ime.enabled = true;
            self.ime.enable_pending = false;
        }
        let ie = mmu.memory[INTERRUPT_ENABLE_REGISTER as usize];
        let iflags = mmu.memory[INTERRUPT_FLAGS_REGISTER as usize];
        let pending = ie & iflags & 0x1f;
        if pending == 0 {
            return Ok(0);
        }
        self.halted = false;
        if !self.ime.enabled {
            return Ok(0);
        }
        assert(pending & 0x1f == ie & iflags & 0x1f) by (bit_vector)
            requires pending == ie & iflags & 0x1f;
        let vector = match Vector::from_flags(ie & 0x1f, iflags) {
            Ok(v) => v,
            Err(e) => {
                assert(crate::irq::highest_priority((ie & 0x1f) & iflags) is Some) by {
                    assert((ie & 0x1f) & iflags == pending) by (bit_vector)
                        requires pending == ie & iflags & 0x1f;
                    assert(pending != 0 ==> (pending & 0x01 != 0 || pending & 0x02 != 0 || pending & 0x04 != 0 || pending & 0x08 != 0 || pending & 0x10 != 0)) by (bit_vector)
                        requires pending == ie & iflags & 0x1f;
                }
                return Err(e);
            },
        };
        assert((ie & 0x1f) & iflags == pending) by (bit_vector)
            requires pending == ie & iflags & 0x1f;
        let pc = self.registers.pc;
        let w = self.push_stack(mmu, pc);
        let result = match w {
            Ok(()) => {
                self.registers.pc = vector.to_address();
                let bit = vector.to_bit();
                mmu.memory.set(INTERRUPT_FLAGS_REGISTER as usize, iflags & !bit);
                self.ime.enabled = false;
                Ok(20)
            },
            Err(e) => Err(e),
        };
        assert(result == lift(w, 20));
        result
    }

    /// Reads the byte an operand names.
    pub fn read_byte(&self, mmu: &Mmu, op: Operand) -> (r: Result<u8, AyyError>)
        requires
            mmu.wf(),
            is_byte_operand(op),
        ensures
            r == byte_value(self.registers, mmu, op),
    {
        match op {
            Operand::Reg8(reg, mode) => {
                if mode == AddressingMode::Direct {
                    Ok(self.registers.read(reg))
                } else {
                    mmu.read(0xff00 + self.registers.read(reg) as u16)
                }
            },
            Operand::Reg16(reg, _) => mmu.read(self.registers.read16(reg)),
            Operand::Imm8(n, mode) => {
                if mode == AddressingMode::Direct {
                    Ok(n)
                } else {
                    mmu.read(0xff00 + n as u16)
                }
            },
            Operand::Imm16(nn, _) => mmu.read(nn),
            _ => Err(AyyError::InvalidHandler),
        }
    }

    /// Writes `v` to the register or memory byte an operand names.
    #[verifier::rlimit(30)]
    pub fn write_byte(&mut self, mmu: &mut Mmu, op: Operand, v: u8) -> (r: Result<(), AyyError>)
        requires
            old(self).wf(),
            old(mmu).wf(),
            is_writable_byte(op),
        ensures
            final(self).wf(),
            final(mmu).wf(),
            operand_addr(old(self).registers, op) matches Some(a) ==> *final(self) == *old(self)
                && old(mmu).write_rel(&*final(mmu), a, v, r),
            operand_addr(old(self).registers, op) is None ==> r is Ok && *final(mmu) == *old(mmu)
                && *final(self) == (Cpu { registers: old(self).registers.set8(op->Reg8_0, v), ..*old(self) }),
    {
        match op {
            Operand::Reg8(reg, mode) => {
                if mode == AddressingMode::Direct {
                    self.registers.write(reg, v);
                    Ok(())
                } else {
                    mmu.write(0xff00 + self.registers.read(reg) as u16, v)
                }
            },
            Operand::Reg16(reg, _) => mmu.write(self.registers.read16(reg), v),
            Operand::Imm8(n, _) => mmu.write(0xff00 + n as u16, v),
            Operand::Imm16(nn, _) => mmu.write(nn, v),
            _ => Err(AyyError::InvalidHandler),
        }
    }

    /// Runs the handler of a decoded instruction; returns its T-cycles.
    #[verifier::rlimit(100)]
    fn execute(&mut self, mmu: &mut Mmu, timer: &mut Timer, ins: &Instruction) -> (r: Result<usize, AyyError>)
        requires
            old(self).wf(),
            old(mmu).wf(),
        ensures
            final(self).wf(),
            final(mmu).wf(),
            *final(timer) == *old(timer),
            r is Ok ==> r->Ok_0 == ins.cycles.0 || r->Ok_0 == crate::handlers::cycles_for(*ins, false),
            crate::handlers::exec_post(*old(self), *final(self), *old(mmu), *final(mmu), *ins, r),
            final(self).cycles == old(self).cycles,
    {
        match ins.opcode {
            Opcode::Ld | Opcode::Ldh => Handlers::load(self, mmu, ins),
            Opcode::Push => Handlers::push(self, mmu, ins),
            Opcode::Pop => Handlers::pop(self, mmu, ins),
            Opcode::Ei | Opcode::Di => Handlers::handle_interrupt(self, ins),
            Opcode::Nop => Handlers::nop(ins),
            Opcode::Add => Handlers::add(self, mmu, ins),
            Opcode::Adc => Handlers::add_with_carry(self, mmu, ins),
            Opcode::Sub => Handlers::sub(self, mmu, ins),
            Opcode::Sbc => Handlers::sub_with_carry(self, mmu, ins),
            Opcode::And => Handlers::and(self, mmu, ins),
            Opcode::Xor => Handlers::xor(self, mmu, ins),
            Opcode::Or => Handlers::or(self, mmu, ins),
            Opcode::Cp => Handlers::compare(self, mmu, ins),
            Opcode::Inc => Handlers::increment(self, mmu, ins),
            Opcode::Dec => Handlers::decrement(self, mmu, ins),
            Opcode::Daa => Handlers::decimal_adjust_accumulator(self, ins),
            Opcode::Halt => Handlers::halt(self, ins),
            Opcode::Stop => Handlers::stop(mmu, timer, ins),
            Opcode::Jp | Opcode::Jr | Opcode::Call => Handlers::jump(self, mmu, ins),
            Opcode::Rst => Handlers::restart(self, mmu, ins),
            Opcode::Ret | Opcode::Reti => Handlers::ret(self, mmu, ins),
            Opcode::Cpl | Opcode::Scf | Opcode::Ccf => Handlers::complement(self, ins),
            Opcode::Bit => Handlers::test_bit(self, mmu, ins),
            Opcode::Res => Handlers::reset_bit(self, mmu, ins),
            Opcode::SetBit => Handlers::set_bit(self, mmu, ins),
            Opcode::Rl | Opcode::Rla | Opcode::Rlc | Opcode::Rlca => Handlers::rotate_left(self, mmu, ins),
            Opcode::Rr | Opcode::Rra | Opcode::Rrc | Opcode::Rrca => Handlers::rotate_right(self, mmu, ins),
            Opcode::Sla => Handlers::shift_left(self, mmu, ins),
            Opcode::Sra | Opcode::Srl => Handlers::shift_right(self, mmu, ins),
            Opcode::Swap => Handlers::swap(self, mmu, ins),
        }
    }

    /// One step. The interrupt check comes first; servicing an interrupt takes the whole
    /// step (20 T-cycles). Otherwise a halted CPU idles for 4 T-cycles, and a running one
    /// decodes the instruction at PC, moves PC past it and runs its handler, as
    /// `exec_post` states per opcode. Returns the T-cycles consumed, which are also added
    /// to the cycle counter.
    #[verifier::rlimit(100)]
    pub fn tick(&mut self, mmu: &mut Mmu, timer: &mut Timer) -> (r: Result<usize, AyyError>)
        requires
            old(self).wf(),
            old(mmu).wf(),
        ensures
            final(self).wf(),
            final(mmu).wf(),
            *final(timer) == *old(timer),
            r is Ok ==> r->Ok_0 <= 24,
            r is Ok ==> final(self).cycles == old(self).cycles.wrapping_add(r->Ok_0),
            services(*old(self), *old(mmu)) ==> service_post(
                *old(self),
                Cpu { cycles: old(self).cycles, ..*final(self) },
                *old(mmu),
                *final(mmu),
                r,
            ),
            ({
                let pre = after_check(*old(self), *old(mmu));
                let pc = pre.registers.pc;
                let decoded = crate::sm83::decode_at(&*old(mmu), pc);
                let next = Cpu {
                    registers: Registers { pc: pc.wrapping_add(decoded->Ok_0.length as u16), ..pre.registers },
                    ..pre
                };
                &&& !services(*old(self), *old(mmu)) && pre.halted ==> r == Ok::<usize, AyyError>(4usize)
                    && *final(self) == (Cpu { cycles: old(self).cycles.wrapping_add(4), ..pre }) && *final(mmu)
                    == *old(mmu)
                &&& !services(*old(self), *old(mmu)) && !pre.halted && decoded is Err ==> r == Err::<
                    usize,
                    AyyError,
                >(decoded->Err_0) && *final(self) == pre && *final(mmu) == *old(mmu)
                &&& !services(*old(self), *old(mmu)) && !pre.halted && decoded is Ok ==> crate::handlers::exec_post(
                    next,
                    Cpu { cycles: old(self).cycles, ..*final(self) },
                    *old(mmu),
                    *final(mmu),
                    decoded->Ok_0,
                    r,
                )
            }),
    {
        let irq = self.handle_interrupts(mmu)?;
        if irq > 0 {
            self.cycles = self.cycles.wrapping_add(irq);
            return Ok(irq);
        }
        if self.halted {
            self.cycles = self.cycles.wrapping_add(4);
            return Ok(4);
        }
        let ins = self.sm83.decode(mmu, self.registers.pc)?;
        proof {
            crate::sm83::lemma_decoded_cycles(
                ins,
                mmu.read_or_ff(self.registers.pc),
                mmu.read_or_ff(self.registers.pc.wrapping_add(1)),
                mmu.read_or_ff(self.registers.pc.wrapping_add(2)),
            );
        }
        self.registers.pc = self.registers.pc.wrapping_add(ins.length as u16);
        let cycles = self.execute(mmu, timer, &ins)?;
        self.cycles = self.cycles.wrapping_add(cycles);
        Ok(cycles)
    }
}

/// `EI` takes effect one instruction late: IME is still off right after it, on at the
/// interrupt check of the next step, and still on at the check of the step after that
/// when that next instruction (a NOP) leaves IME alone.
pub proof fn lemma_ei_delay(ime: Ime)
    requires
        !ime.enabled,
    ensures
        !ime_after_ei(ime).enabled,
        ime_at_check(ime_after_ei(ime)).enabled,
        ime_at_check(ime_at_check(ime_after_ei(ime))).enabled,
{
}

} // verus!
