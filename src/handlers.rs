use vstd::prelude::*;
use crate::alu::{
    add16, add16_spec, add8, add8_spec, add_sp, add_sp_spec, bit_set, daa, daa_spec, dec8, dec8_spec,
    flags, flags_of, inc8, inc8_spec, shift, shift_spec, sub8, sub8_spec, test_bit as alu_test_bit,
    Shift,
};
use crate::cpu::{byte_value, is_byte_operand, is_writable_byte, operand_addr, Cpu};
use crate::error::AyyError;
use crate::mmu::Mmu;
use crate::timer::Timer;
use crate::registers::{Register, Registers, CARRY, HALF_CARRY, SUBTRACT, ZERO};
use crate::sm83::{AddressingMode, Condition, Instruction, Opcode, Operand};

verus! {

pub open spec fn is_alu_kind(k: Opcode) -> bool {
    k == Opcode::Add || k == Opcode::Adc || k == Opcode::Sub || k == Opcode::Sbc || k == Opcode::And
        || k == Opcode::Xor || k == Opcode::Or || k == Opcode::Cp
}

/// Registers after accumulator operation `kind` with operand `b`.
pub open spec fn alu8_regs(kind: Opcode, regs: Registers, b: u8) -> Registers {
    let a = regs.a;
    let c = regs.flag(CARRY);
    if kind == Opcode::Add {
        Registers { a: add8_spec(a, b, false).0, f: add8_spec(a, b, false).1, ..regs }
    } else if kind == Opcode::Adc {
        Registers { a: add8_spec(a, b, c).0, f: add8_spec(a, b, c).1, ..regs }
    } else if kind == Opcode::Sub {
        Registers { a: sub8_spec(a, b, false).0, f: sub8_spec(a, b, false).1, ..regs }
    } else if kind == Opcode::Sbc {
        Registers { a: sub8_spec(a, b, c).0, f: sub8_spec(a, b, c).1, ..regs }
    } else if kind == Opcode::And {
        Registers { a: a & b, f: flags_of(a & b == 0, false, true, false), ..regs }
    } else if kind == Opcode::Xor {
        Registers { a: a ^ b, f: flags_of(a ^ b == 0, false, false, false), ..regs }
    } else if kind == Opcode::Or {
        Registers { a: a | b, f: flags_of(a | b == 0, false, false, false), ..regs }
    } else {
        Registers { f: sub8_spec(a, b, false).1, ..regs }
    }
}

/// Whether `cond` holds under the flags of `regs`.
pub open spec fn cond_holds(regs: Registers, cond: Condition) -> bool {
    match cond {
        Condition::Always => true,
        Condition::NZ => !regs.flag(ZERO),
        Condition::Z => regs.flag(ZERO),
        Condition::NC => !regs.flag(CARRY),
        Condition::C => regs.flag(CARRY),
    }
}

/// The cycles an instruction takes when its branch is (or is not) taken.
pub open spec fn cycles_for(ins: Instruction, taken: bool) -> usize {
    if taken {
        ins.cycles.0
    } else {
        match ins.cycles.1 {
            Some(n) => n,
            None => ins.cycles.0,
        }
    }
}

/// A write's outcome as a handler result taking `n` cycles.
pub open spec fn lift(w: Result<(), AyyError>, n: usize) -> Result<usize, AyyError> {
    match w {
        Ok(_) => Ok(n),
        Err(e) => Err(e),
    }
}

/// How an operand moves HL after its access: +1 for (HL+), -1 for (HL-).
pub open spec fn hl_delta(op: Operand) -> int {
    match op {
        Operand::Reg16(Register::HL, AddressingMode::IndirectIncrement) => 1,
        Operand::Reg16(Register::HL, AddressingMode::IndirectDecrement) => -1,
        _ => 0,
    }
}

/// `regs` with HL moved by `d` (wrapping).
pub open spec fn adjust_hl(regs: Registers, d: int) -> Registers {
    if d == 0 {
        regs
    } else {
        regs.set16(Register::HL, ((regs.get16(Register::HL) + d + 0x10000) % 0x10000) as u16)
    }
}

/// Whether `ins` is a byte load this executor handles.
pub open spec fn is_byte_load(ins: Instruction) -> bool {
    &&& ins.opcode == Opcode::Ld || ins.opcode == Opcode::Ldh
    &&& ins.lhs is Some && is_writable_byte(ins.lhs->Some_0)
    &&& ins.rhs is Some && is_byte_operand(ins.rhs->Some_0)
    &&& hl_delta(ins.lhs->Some_0) == 0 || hl_delta(ins.rhs->Some_0) == 0
}

/// The little-endian word of a successful pair of reads.
pub open spec fn word_of(lo: Result<u8, AyyError>, hi: Result<u8, AyyError>) -> Result<u16, AyyError> {
    match lo {
        Err(e) => Err(e),
        Ok(l) => match hi {
            Err(e) => Err(e),
            Ok(h) => Ok((h as int * 256 + l as int) as u16),
        },
    }
}

/// The word popped from the stack of `regs`.
pub open spec fn stack_word(regs: Registers, mmu: &Mmu) -> Result<u16, AyyError> {
    word_of(mmu.read_spec(regs.sp), mmu.read_spec(regs.sp.wrapping_add(1)))
}

pub open spec fn is_wide_target(r: Register) -> bool {
    r == Register::BC || r == Register::DE || r == Register::HL || r == Register::SP
}

pub open spec fn is_stack_pair(r: Register) -> bool {
    r == Register::BC || r == Register::DE || r == Register::HL || r == Register::AF
}

/// The rotate / shift an opcode performs.
pub open spec fn shift_kind(k: Opcode) -> Shift {
    match k {
        Opcode::Rlca | Opcode::Rlc => Shift::Rlc,
        Opcode::Rrca | Opcode::Rrc => Shift::Rrc,
        Opcode::Rla | Opcode::Rl => Shift::Rl,
        Opcode::Rra | Opcode::Rr => Shift::Rr,
        Opcode::Sla => Shift::Sla,
        Opcode::Sra => Shift::Sra,
        Opcode::Swap => Shift::Swap,
        _ => Shift::Srl,
    }
}

pub open spec fn is_accumulator_rotate(k: Opcode) -> bool {
    k == Opcode::Rlca || k == Opcode::Rrca || k == Opcode::Rla || k == Opcode::Rra
}

pub open spec fn is_prefixed_shift(k: Opcode) -> bool {
    k == Opcode::Rlc || k == Opcode::Rrc || k == Opcode::Rl || k == Opcode::Rr || k == Opcode::Sla
        || k == Opcode::Sra || k == Opcode::Swap || k == Opcode::Srl
}

/// The byte after RES (`set` false) or SET (`set` true) of bit `n`.
pub open spec fn change_bit_spec(v: u8, n: u8, set: bool) -> u8 {
    if set {
        v | (1u8 << n)
    } else {
        v & !(1u8 << n)
    }
}

/// What `load_byte` does to the processor and the address space, and what it returns.
pub open spec fn load_byte_post(oc: Cpu, fc: Cpu, om: Mmu, fm: Mmu, ins: Instruction, r: Result<usize, AyyError>) -> bool {
    &&& (r is Ok ==> r->Ok_0 == ins.cycles.0 || r->Ok_0 == cycles_for(ins, false))
    &&& (fc.wf())
    &&& (fm.wf())
    &&& (!is_byte_load(ins) ==> r == Err::<usize, AyyError>(AyyError::InvalidHandler)
            && fc == oc && fm == om)
    &&& (is_byte_load(ins) ==> match byte_value(oc.registers, &om, ins.rhs->Some_0) {
            Err(e) => r == Err::<usize, AyyError>(e) && fc == oc && fm == om,
            Ok(v) => {
                let regs = oc.registers;
                let dst = ins.lhs->Some_0;
                let d = hl_delta(dst) + hl_delta(ins.rhs->Some_0);
                &&& operand_addr(regs, dst) is Some ==> exists|w: Result<(), AyyError>|
                    om.write_rel(&fm, operand_addr(regs, dst)->Some_0, v, w) && r
                        == #[trigger] lift(w, ins.cycles.0) && (w is Ok ==> fc == (Cpu {
                        registers: adjust_hl(regs, d),
                        ..oc
                    })) && (w is Err ==> fc == oc)
                &&& operand_addr(regs, dst) is None ==> r == Ok::<usize, AyyError>(ins.cycles.0)
                    && fm == om && fc == (Cpu {
                    registers: adjust_hl(regs.set8(dst->Reg8_0, v), d),
                    ..oc
                })
            },
        })
}

/// What `load_wide` does to the processor and the address space, and what it returns.
pub open spec fn load_wide_post(oc: Cpu, fc: Cpu, om: Mmu, fm: Mmu, ins: Instruction, r: Result<usize, AyyError>) -> bool {
    &&& (r is Ok ==> r->Ok_0 == ins.cycles.0 || r->Ok_0 == cycles_for(ins, false))
    &&& (fc.wf())
    &&& (fm.wf())
    &&& (({
            let regs = oc.registers;
            let ld = ins.opcode == Opcode::Ld;
            &&& ld && ins.lhs is Some && ins.lhs->Some_0 is Reg16 && ins.lhs->Some_0->Reg16_1
                == AddressingMode::Direct && is_wide_target(ins.lhs->Some_0->Reg16_0) && ins.rhs
                is Some && ins.rhs->Some_0 is Imm16 && ins.rhs->Some_0->Imm16_1 == AddressingMode::Direct
                ==> r == Ok::<usize, AyyError>(ins.cycles.0) && fm == om && fc
                == (Cpu {
                registers: regs.set16(ins.lhs->Some_0->Reg16_0, ins.rhs->Some_0->Imm16_0),
                ..oc
            })
            &&& ld && ins.lhs == Some(Operand::Reg16(Register::SP, AddressingMode::Direct)) && ins.rhs
                == Some(Operand::Reg16(Register::HL, AddressingMode::Direct)) ==> r == Ok::<
                usize,
                AyyError,
            >(ins.cycles.0) && fm == om && fc == (Cpu {
                registers: Registers { sp: regs.get16(Register::HL), ..regs },
                ..oc
            })
            &&& ld && ins.lhs == Some(Operand::Reg16(Register::HL, AddressingMode::Direct)) && ins.rhs
                is Some && ins.rhs->Some_0 is DisplacedReg16 && ins.rhs->Some_0->DisplacedReg16_0
                == Register::SP ==> {
                let res = add_sp_spec(regs.sp, ins.rhs->Some_0->DisplacedReg16_1);
                r == Ok::<usize, AyyError>(ins.cycles.0) && fm == om && fc
                    == (Cpu {
                    registers: Registers { f: res.1, ..regs.set16(Register::HL, res.0) },
                    ..oc
                })
            }
            &&& ld && ins.lhs is Some && ins.lhs->Some_0 is Imm16 && ins.lhs->Some_0->Imm16_1
                != AddressingMode::Direct && ins.rhs == Some(
                Operand::Reg16(Register::SP, AddressingMode::Direct),
            ) ==> fc == oc && exists|w: Result<(), AyyError>|
                om.write16_rel(&fm, ins.lhs->Some_0->Imm16_0, regs.sp, w) && r
                    == #[trigger] lift(w, ins.cycles.0)
        }))
}

/// What `accumulate` does to the processor, and what it returns.
pub open spec fn accumulate_post(oc: Cpu, fc: Cpu, mmu: &Mmu, ins: Instruction, r: Result<usize, AyyError>) -> bool {
    &&& (r is Ok ==> r->Ok_0 == ins.cycles.0 || r->Ok_0 == cycles_for(ins, false))
    &&& (fc.wf())
    &&& (({
        let valid = is_alu_kind(ins.opcode) && ins.lhs == a_direct() && ins.rhs is Some
            && is_byte_operand(ins.rhs->Some_0);
        &&& !valid ==> r == Err::<usize, AyyError>(AyyError::InvalidHandler) && fc == oc
        &&& valid ==> match byte_value(oc.registers, mmu, ins.rhs->Some_0) {
            Err(e) => r == Err::<usize, AyyError>(e) && fc == oc,
            Ok(b) => r == Ok::<usize, AyyError>(ins.cycles.0) && fc == (Cpu {
                registers: alu8_regs(ins.opcode, oc.registers, b),
                ..oc
            }),
        }
    }))
}

/// What `inc_dec_wide` does to the processor, and what it returns.
pub open spec fn inc_dec_wide_post(oc: Cpu, fc: Cpu, ins: Instruction, r: Result<usize, AyyError>) -> bool {
    &&& (r is Ok ==> r->Ok_0 == ins.cycles.0 || r->Ok_0 == cycles_for(ins, false))
    &&& (fc.wf())
    &&& ((ins.opcode == Opcode::Inc || ins.opcode == Opcode::Dec) && ins.lhs is Some
        && ins.lhs->Some_0 is Reg16 && ins.lhs->Some_0->Reg16_1 == AddressingMode::Direct
        && ins.lhs->Some_0->Reg16_0.is_16bit() ==> {
        let rr = ins.lhs->Some_0->Reg16_0;
        let v = oc.registers.get16(rr);
        let n = if ins.opcode == Opcode::Inc { (v + 1) % 0x10000 } else { (v + 0xffff) % 0x10000 };
        r == Ok::<usize, AyyError>(ins.cycles.0) && fc == (Cpu {
            registers: oc.registers.set16(rr, n as u16),
            ..oc
        })
    })
    &&& (!((ins.opcode == Opcode::Inc || ins.opcode == Opcode::Dec) && ins.lhs is Some
        && ins.lhs->Some_0 is Reg16 && ins.lhs->Some_0->Reg16_1 == AddressingMode::Direct
        && ins.lhs->Some_0->Reg16_0.is_16bit()) ==> r == Err::<usize, AyyError>(AyyError::InvalidHandler)
        && fc == oc)
}

/// What `inc_dec_byte` does to the processor and the address space, and what it returns.
pub open spec fn inc_dec_byte_post(oc: Cpu, fc: Cpu, om: Mmu, fm: Mmu, ins: Instruction, r: Result<usize, AyyError>) -> bool {
    &&& (r is Ok ==> r->Ok_0 == ins.cycles.0 || r->Ok_0 == cycles_for(ins, false))
    &&& (fc.wf())
    &&& (fm.wf())
    &&& (!((ins.opcode == Opcode::Inc || ins.opcode == Opcode::Dec) && ins.lhs is Some
        && is_writable_byte(ins.lhs->Some_0)) ==> r == Err::<usize, AyyError>(AyyError::InvalidHandler)
        && fc == oc && fm == om)
    &&& ((ins.opcode == Opcode::Inc || ins.opcode == Opcode::Dec) && ins.lhs is Some
        && is_writable_byte(ins.lhs->Some_0) ==> match byte_value(
        oc.registers,
        &om,
        ins.lhs->Some_0,
    ) {
        Err(e) => r == Err::<usize, AyyError>(e) && fc == oc && fm == om,
        Ok(b) => {
            let c = oc.registers.flag(CARRY);
            let res = if ins.opcode == Opcode::Inc { inc8_spec(b, c) } else { dec8_spec(b, c) };
            let regs = Registers { f: res.1, ..oc.registers };
            let op = ins.lhs->Some_0;
            &&& operand_addr(oc.registers, op) is Some ==> fc == (Cpu { registers: regs, ..oc })
                && exists|w: Result<(), AyyError>|
                om.write_rel(&fm, operand_addr(oc.registers, op)->Some_0, res.0, w)
                    && r == #[trigger] lift(w, ins.cycles.0)
            &&& operand_addr(oc.registers, op) is None ==> r == Ok::<usize, AyyError>(ins.cycles.0)
                && fm == om && fc == (Cpu { registers: regs.set8(op->Reg8_0, res.0), ..oc })
        },
    })
}

/// What `change_bit` does to the processor and the address space, and what it returns.
pub open spec fn change_bit_post(oc: Cpu, fc: Cpu, om: Mmu, fm: Mmu, ins: Instruction, r: Result<usize, AyyError>) -> bool {
    &&& (r is Ok ==> r->Ok_0 == ins.cycles.0 || r->Ok_0 == cycles_for(ins, false))
    &&& (fc.wf())
    &&& (fm.wf())
    &&& ((ins.opcode == Opcode::Res || ins.opcode == Opcode::SetBit) && ins.lhs is Some && ins.lhs->Some_0 is Bit
        && ins.lhs->Some_0->Bit_0 < 8 && ins.rhs is Some && is_writable_byte(ins.rhs->Some_0) ==> {
        let regs = oc.registers;
        let op = ins.rhs->Some_0;
        match byte_value(regs, &om, op) {
            Err(e) => r == Err::<usize, AyyError>(e) && fc == oc && fm == om,
            Ok(v) => {
                let nv = change_bit_spec(v, ins.lhs->Some_0->Bit_0, ins.opcode == Opcode::SetBit);
                &&& operand_addr(regs, op) is Some ==> fc == oc && exists|w: Result<(), AyyError>|
                    om.write_rel(&fm, operand_addr(regs, op)->Some_0, nv, w)
                        && r == #[trigger] lift(w, ins.cycles.0)
                &&& operand_addr(regs, op) is None ==> r == Ok::<usize, AyyError>(ins.cycles.0)
                    && fm == om && fc == (Cpu {
                    registers: regs.set8(op->Reg8_0, nv),
                    ..oc
                })
            },
        }
    })
}

/// What `shift_rotate` does to the processor and the address space, and what it returns.
pub open spec fn shift_rotate_post(oc: Cpu, fc: Cpu, om: Mmu, fm: Mmu, ins: Instruction, r: Result<usize, AyyError>) -> bool {
    &&& (r is Ok ==> r->Ok_0 == ins.cycles.0 || r->Ok_0 == cycles_for(ins, false))
    &&& (fc.wf())
    &&& (fm.wf())
    &&& (is_accumulator_rotate(ins.opcode) ==> {
        let regs = oc.registers;
        let res = shift_spec(shift_kind(ins.opcode), regs.a, regs.flag(CARRY));
        r == Ok::<usize, AyyError>(ins.cycles.0) && fm == om && fc == (Cpu {
            registers: Registers { a: res.0, f: flags_of(false, false, false, res.1), ..regs },
            ..oc
        })
    })
    &&& (is_prefixed_shift(ins.opcode) && ins.lhs is Some && is_writable_byte(ins.lhs->Some_0) ==> {
        let regs = oc.registers;
        let op = ins.lhs->Some_0;
        match byte_value(regs, &om, op) {
            Err(e) => r == Err::<usize, AyyError>(e) && fc == oc && fm == om,
            Ok(v) => {
                let res = shift_spec(shift_kind(ins.opcode), v, regs.flag(CARRY));
                let fregs = Registers { f: flags_of(res.0 == 0, false, false, res.1), ..regs };
                &&& operand_addr(regs, op) is Some ==> fc == (Cpu { registers: fregs, ..oc }) && exists|w: Result<(), AyyError>|
                    om.write_rel(&fm, operand_addr(regs, op)->Some_0, res.0, w)
                        && r == #[trigger] lift(w, ins.cycles.0)
                &&& operand_addr(regs, op) is None ==> r == Ok::<usize, AyyError>(ins.cycles.0)
                    && fm == om && fc == (Cpu { registers: fregs.set8(op->Reg8_0, res.0), ..oc })
            },
        }
    })
}

/// Whether the first operand is a 16-bit register (INC rr / DEC rr).
pub open spec fn has_wide_target(ins: Instruction) -> bool {
    ins.lhs matches Some(Operand::Reg16(_, AddressingMode::Direct))
}

/// What `add` does to the processor, and what it returns.
pub open spec fn add_post(oc: Cpu, fc: Cpu, mmu: &Mmu, ins: Instruction, r: Result<usize, AyyError>) -> bool {
    &&& (r is Ok ==> r->Ok_0 == ins.cycles.0 || r->Ok_0 == cycles_for(ins, false))
    &&& (fc.wf())
    &&& (ins.opcode == Opcode::Add && ins.lhs == Some(Operand::Reg16(Register::HL, AddressingMode::Direct))
        && ins.rhs is Some && ins.rhs->Some_0 is Reg16 && ins.rhs->Some_0->Reg16_1
        == AddressingMode::Direct && ins.rhs->Some_0->Reg16_0.is_16bit() ==> {
        let rr = ins.rhs->Some_0->Reg16_0;
        let regs = oc.registers;
        let res = add16_spec(regs.get16(Register::HL), regs.get16(rr), regs.flag(ZERO));
        r == Ok::<usize, AyyError>(ins.cycles.0) && fc == (Cpu {
            registers: Registers { f: res.1, ..regs.set16(Register::HL, res.0) },
            ..oc
        })
    })
    &&& (ins.opcode == Opcode::Add && ins.lhs == Some(Operand::Reg16(Register::SP, AddressingMode::Direct))
        && ins.rhs is Some && ins.rhs->Some_0 is Offset ==> {
        let e = ins.rhs->Some_0->Offset_0;
        let regs = oc.registers;
        let res = add_sp_spec(regs.sp, e);
        r == Ok::<usize, AyyError>(ins.cycles.0) && fc == (Cpu {
            registers: Registers { sp: res.0, f: res.1, ..regs },
            ..oc
        })
    })
    &&& (ins.lhs == a_direct() ==> {
        let valid = is_alu_kind(ins.opcode) && ins.rhs is Some && is_byte_operand(ins.rhs->Some_0);
        &&& !valid ==> r == Err::<usize, AyyError>(AyyError::InvalidHandler) && fc == oc
        &&& valid ==> match byte_value(oc.registers, mmu, ins.rhs->Some_0) {
            Err(e) => r == Err::<usize, AyyError>(e) && fc == oc,
            Ok(b) => r == Ok::<usize, AyyError>(ins.cycles.0) && fc == (Cpu {
                registers: alu8_regs(ins.opcode, oc.registers, b),
                ..oc
            }),
        }
    })
}

/// What `pop` does to the processor, and what it returns.
pub open spec fn pop_post(oc: Cpu, fc: Cpu, mmu: &Mmu, ins: Instruction, r: Result<usize, AyyError>) -> bool {
    &&& (r is Ok ==> r->Ok_0 == ins.cycles.0 || r->Ok_0 == cycles_for(ins, false))
    &&& (fc.wf())
    &&& (ins.opcode == Opcode::Pop && ins.lhs is Some && ins.lhs->Some_0 is Reg16 && ins.lhs->Some_0->Reg16_1
        == AddressingMode::Direct && is_stack_pair(ins.lhs->Some_0->Reg16_0) ==> {
        let regs = oc.registers;
        match stack_word(regs, mmu) {
            Err(e) => r == Err::<usize, AyyError>(e) && fc == oc,
            Ok(v) => r == Ok::<usize, AyyError>(ins.cycles.0) && fc == (Cpu {
                registers: Registers { sp: regs.sp.wrapping_add(2), ..regs }.set16(ins.lhs->Some_0->Reg16_0, v),
                ..oc
            }),
        }
    })
}

/// What `ret` does to the processor, and what it returns.
pub open spec fn ret_post(oc: Cpu, fc: Cpu, mmu: &Mmu, ins: Instruction, r: Result<usize, AyyError>) -> bool {
    &&& (r is Ok ==> r->Ok_0 == ins.cycles.0 || r->Ok_0 == cycles_for(ins, false))
    &&& (fc.wf())
    &&& (({
        let regs = oc.registers;
        let popped = Registers { sp: regs.sp.wrapping_add(2), ..regs };
        &&& ins.opcode == Opcode::Reti ==> match stack_word(regs, mmu) {
            Err(e) => r == Err::<usize, AyyError>(e) && fc == oc,
            Ok(v) => r == Ok::<usize, AyyError>(ins.cycles.0) && fc == (Cpu {
                registers: Registers { pc: v, ..popped },
                ime: crate::irq::Ime { enabled: true, ..oc.ime },
                ..oc
            }),
        }
        &&& ins.opcode == Opcode::Ret && ins.lhs is Some && ins.lhs->Some_0 is Conditional ==> {
            let taken = cond_holds(regs, ins.lhs->Some_0->Conditional_0);
            &&& !taken ==> r == Ok::<usize, AyyError>(cycles_for(ins, false)) && fc == oc
            &&& taken ==> match stack_word(regs, mmu) {
                Err(e) => r == Err::<usize, AyyError>(e) && fc == oc,
                Ok(v) => r == Ok::<usize, AyyError>(ins.cycles.0) && fc == (Cpu {
                    registers: Registers { pc: v, ..popped },
                    ..oc
                }),
            }
        }
    }))
}

/// What `test_bit` does to the processor, and what it returns.
pub open spec fn test_bit_post(oc: Cpu, fc: Cpu, mmu: &Mmu, ins: Instruction, r: Result<usize, AyyError>) -> bool {
    &&& (r is Ok ==> r->Ok_0 == ins.cycles.0 || r->Ok_0 == cycles_for(ins, false))
    &&& (fc.wf())
    &&& (ins.opcode == Opcode::Bit && ins.lhs is Some && ins.lhs->Some_0 is Bit && ins.lhs->Some_0->Bit_0 < 8
        && ins.rhs is Some && is_byte_operand(ins.rhs->Some_0) ==> {
        let regs = oc.registers;
        match byte_value(regs, mmu, ins.rhs->Some_0) {
            Err(e) => r == Err::<usize, AyyError>(e) && fc == oc,
            Ok(v) => r == Ok::<usize, AyyError>(ins.cycles.0) && fc == (Cpu {
                registers: Registers {
                    f: flags_of(!bit_set(v, ins.lhs->Some_0->Bit_0), false, true, regs.flag(CARRY)),
                    ..regs
                },
                ..oc
            }),
        }
    })
}

/// What `push` does to the processor and the address space, and what it returns.
pub open spec fn push_post(oc: Cpu, fc: Cpu, om: Mmu, fm: Mmu, ins: Instruction, r: Result<usize, AyyError>) -> bool {
    &&& (r is Ok ==> r->Ok_0 == ins.cycles.0 || r->Ok_0 == cycles_for(ins, false))
    &&& (fc.wf())
    &&& (fm.wf())
    &&& (ins.opcode == Opcode::Push && ins.lhs is Some && ins.lhs->Some_0 is Reg16 && ins.lhs->Some_0->Reg16_1
        == AddressingMode::Direct && is_stack_pair(ins.lhs->Some_0->Reg16_0) ==> {
        let regs = oc.registers;
        let sp = regs.sp.wrapping_sub(2);
        &&& fc == (Cpu { registers: Registers { sp, ..regs }, ..oc })
        &&& exists|w: Result<(), AyyError>|
            om.write16_rel(&fm, sp, regs.get16(ins.lhs->Some_0->Reg16_0), w) && r
                == #[trigger] lift(w, ins.cycles.0)
    })
}

/// What `jump` does to the processor and the address space, and what it returns.
pub open spec fn jump_post(oc: Cpu, fc: Cpu, om: Mmu, fm: Mmu, ins: Instruction, r: Result<usize, AyyError>) -> bool {
    &&& (r is Ok ==> r->Ok_0 == ins.cycles.0 || r->Ok_0 == cycles_for(ins, false))
    &&& (fc.wf())
    &&& (fm.wf())
    &&& ((ins.opcode == Opcode::Jp || ins.opcode == Opcode::Jr || ins.opcode == Opcode::Call)
        && ins.lhs is Some && ins.lhs->Some_0 is Conditional && ins.rhs is Some ==> {
        let regs = oc.registers;
        let taken = cond_holds(regs, ins.lhs->Some_0->Conditional_0);
        let target = ins.rhs->Some_0;
        &&& !taken ==> r == Ok::<usize, AyyError>(cycles_for(ins, false)) && fc == oc
            && fm == om
        &&& taken && ins.opcode == Opcode::Jp && target is Imm16 ==> r == Ok::<usize, AyyError>(
            ins.cycles.0,
        ) && fm == om && fc == (Cpu {
            registers: Registers { pc: target->Imm16_0, ..regs },
            ..oc
        })
        &&& taken && ins.opcode == Opcode::Jp && target == Operand::Reg16(
            Register::HL,
            AddressingMode::Direct,
        ) ==> r == Ok::<usize, AyyError>(ins.cycles.0) && fm == om && fc
            == (Cpu { registers: Registers { pc: regs.get16(Register::HL), ..regs }, ..oc })
        &&& taken && ins.opcode == Opcode::Jr && target is Offset ==> r == Ok::<usize, AyyError>(
            ins.cycles.0,
        ) && fm == om && fc == (Cpu {
            registers: Registers {
                pc: ((regs.pc + target->Offset_0 + 0x10000) % 0x10000) as u16,
                ..regs
            },
            ..oc
        })
        &&& taken && ins.opcode == Opcode::Call && target is Imm16 ==> {
            let sp = regs.sp.wrapping_sub(2);
            exists|w: Result<(), AyyError>|
                om.write16_rel(&fm, sp, regs.pc, w) && r == #[trigger] lift(
                    w,
                    ins.cycles.0,
                ) && (w is Ok ==> fc == (Cpu {
                    registers: Registers { sp, pc: target->Imm16_0, ..regs },
                    ..oc
                })) && (w is Err ==> fc == (Cpu {
                    registers: Registers { sp, ..regs },
                    ..oc
                }))
        }
    })
}

/// What `restart` does to the processor and the address space, and what it returns.
pub open spec fn restart_post(oc: Cpu, fc: Cpu, om: Mmu, fm: Mmu, ins: Instruction, r: Result<usize, AyyError>) -> bool {
    &&& (r is Ok ==> r->Ok_0 == ins.cycles.0 || r->Ok_0 == cycles_for(ins, false))
    &&& (fc.wf())
    &&& (fm.wf())
    &&& (ins.opcode == Opcode::Rst && ins.lhs is Some && ins.lhs->Some_0 is Imm8 ==> {
        let regs = oc.registers;
        let sp = regs.sp.wrapping_sub(2);
        exists|w: Result<(), AyyError>|
            om.write16_rel(&fm, sp, regs.pc, w) && r == #[trigger] lift(w, ins.cycles.0)
                && (w is Ok ==> fc == (Cpu {
                registers: Registers { sp, pc: ins.lhs->Some_0->Imm8_0 as u16, ..regs },
                ..oc
            })) && (w is Err ==> fc == (Cpu { registers: Registers { sp, ..regs }, ..oc }))
    })
}

/// What `decimal_adjust_accumulator` does to the processor, and what it returns.
pub open spec fn decimal_adjust_accumulator_post(oc: Cpu, fc: Cpu, ins: Instruction, r: Result<usize, AyyError>) -> bool {
    &&& (r is Ok ==> r->Ok_0 == ins.cycles.0 || r->Ok_0 == cycles_for(ins, false))
    &&& (fc.wf())
    &&& (r == Ok::<usize, AyyError>(ins.cycles.0))
    &&& (({
        let regs = oc.registers;
        let res = daa_spec(regs.a, regs.flag(SUBTRACT), regs.flag(HALF_CARRY), regs.flag(CARRY));
        fc == (Cpu { registers: Registers { a: res.0, f: res.1, ..regs }, ..oc })
    }))
}

/// What `complement` does to the processor, and what it returns.
pub open spec fn complement_post(oc: Cpu, fc: Cpu, ins: Instruction, r: Result<usize, AyyError>) -> bool {
    &&& (r is Ok ==> r->Ok_0 == ins.cycles.0 || r->Ok_0 == cycles_for(ins, false))
    &&& (fc.wf())
    &&& (({
        let regs = oc.registers;
        let z = regs.flag(ZERO);
        let c = regs.flag(CARRY);
        &&& ins.opcode == Opcode::Cpl ==> r == Ok::<usize, AyyError>(ins.cycles.0) && fc == (Cpu {
            registers: Registers { a: !regs.a, f: flags_of(z, true, true, c), ..regs },
            ..oc
        })
        &&& ins.opcode == Opcode::Scf ==> r == Ok::<usize, AyyError>(ins.cycles.0) && fc == (Cpu {
            registers: Registers { f: flags_of(z, false, false, true), ..regs },
            ..oc
        })
        &&& ins.opcode == Opcode::Ccf ==> r == Ok::<usize, AyyError>(ins.cycles.0) && fc == (Cpu {
            registers: Registers { f: flags_of(z, false, false, !c), ..regs },
            ..oc
        })
        &&& !(ins.opcode == Opcode::Cpl || ins.opcode == Opcode::Scf || ins.opcode == Opcode::Ccf)
            ==> r == Err::<usize, AyyError>(AyyError::InvalidHandler) && fc == oc
    }))
}

/// What `handle_interrupt` does to the processor, and what it returns.
pub open spec fn handle_interrupt_post(oc: Cpu, fc: Cpu, ins: Instruction, r: Result<usize, AyyError>) -> bool {
    &&& (r is Ok ==> r->Ok_0 == ins.cycles.0 || r->Ok_0 == cycles_for(ins, false))
    &&& (ins.opcode == Opcode::Ei ==> r == Ok::<usize, AyyError>(ins.cycles.0) && fc == (Cpu {
        ime: crate::cpu::ime_after_ei(oc.ime),
        ..oc
    }))
    &&& (ins.opcode == Opcode::Di ==> r == Ok::<usize, AyyError>(ins.cycles.0) && fc == (Cpu {
        ime: crate::cpu::ime_after_di(oc.ime),
        ..oc
    }))
    &&& (ins.opcode != Opcode::Ei && ins.opcode != Opcode::Di ==> r == Err::<usize, AyyError>(
        AyyError::InvalidHandler,
    ) && fc == oc)
}

/// What `halt` does to the processor, and what it returns.
pub open spec fn halt_post(oc: Cpu, fc: Cpu, ins: Instruction, r: Result<usize, AyyError>) -> bool {
    &&& (r is Ok ==> r->Ok_0 == ins.cycles.0 || r->Ok_0 == cycles_for(ins, false))
    &&& (r == Ok::<usize, AyyError>(ins.cycles.0))
    &&& (fc == (Cpu { halted: true, ..oc }))
}

/// What executing the decoded `ins` does to the processor and the address space, by
/// opcode, and what it returns.
pub open spec fn exec_post(oc: Cpu, fc: Cpu, om: Mmu, fm: Mmu, ins: Instruction, r: Result<usize, AyyError>) -> bool {
    match ins.opcode {
        Opcode::Ld | Opcode::Ldh => if is_byte_load(ins) {
            load_byte_post(oc, fc, om, fm, ins, r)
        } else {
            load_wide_post(oc, fc, om, fm, ins, r)
        },
        Opcode::Push => push_post(oc, fc, om, fm, ins, r),
        Opcode::Pop => fm == om && pop_post(oc, fc, &om, ins, r),
        Opcode::Ei | Opcode::Di => fm == om && handle_interrupt_post(oc, fc, ins, r),
        Opcode::Nop => fm == om && fc == oc && r == Ok::<usize, AyyError>(ins.cycles.0),
        Opcode::Add => fm == om && add_post(oc, fc, &om, ins, r),
        Opcode::Adc | Opcode::Sub | Opcode::Sbc | Opcode::And | Opcode::Xor | Opcode::Or | Opcode::Cp => fm
            == om && accumulate_post(oc, fc, &om, ins, r),
        Opcode::Inc | Opcode::Dec => if has_wide_target(ins) {
            fm == om && inc_dec_wide_post(oc, fc, ins, r)
        } else {
            inc_dec_byte_post(oc, fc, om, fm, ins, r)
        },
        Opcode::Daa => fm == om && decimal_adjust_accumulator_post(oc, fc, ins, r),
        Opcode::Halt => fm == om && halt_post(oc, fc, ins, r),
        Opcode::Stop => fc == oc && r == Ok::<usize, AyyError>(ins.cycles.0) && fm == if om.cgb_prepare_speed_switch {
            Mmu { div_counter: 0, cgb_double_speed: !om.cgb_double_speed, cgb_prepare_speed_switch: false, ..om }
        } else {
            Mmu { div_counter: 0, ..om }
        },
        Opcode::Jp | Opcode::Jr | Opcode::Call => jump_post(oc, fc, om, fm, ins, r),
        Opcode::Rst => restart_post(oc, fc, om, fm, ins, r),
        Opcode::Ret | Opcode::Reti => fm == om && ret_post(oc, fc, &om, ins, r),
        Opcode::Cpl | Opcode::Scf | Opcode::Ccf => fm == om && complement_post(oc, fc, ins, r),
        Opcode::Bit => fm == om && test_bit_post(oc, fc, &om, ins, r),
        Opcode::Res | Opcode::SetBit => change_bit_post(oc, fc, om, fm, ins, r),
        _ => shift_rotate_post(oc, fc, om, fm, ins, r),
    }
}

pub open spec fn a_direct() -> Option<Operand> {
    Some(Operand::Reg8(Register::A, AddressingMode::Direct))
}

/// The opcode handlers of the executor.
pub struct Handlers {}

impl Handlers {
    fn check(regs: &Registers, cond: Condition) -> (r: bool)
        ensures
            r == cond_holds(*regs, cond),
    {
        match cond {
            Condition::Always => true,
            Condition::NZ => regs.f & ZERO == 0,
            Condition::Z => regs.f & ZERO != 0,
            Condition::NC => regs.f & CARRY == 0,
            Condition::C => regs.f & CARRY != 0,
        }
    }

    fn taken_cycles(ins: &Instruction, taken: bool) -> (r: usize)
        ensures
            r == cycles_for(*ins, taken),
    {
        if taken {
            ins.cycles.0
        } else {
            match ins.cycles.1 {
                Some(n) => n,
                None => ins.cycles.0,
            }
        }
    }

    /// ADD, ADC, SUB, SBC, AND, XOR, OR and CP on A with a byte operand.
    #[verifier::rlimit(30)]
    fn accumulate(cpu: &mut Cpu, mmu: &Mmu, ins: &Instruction) -> (r: Result<usize, AyyError>)
        requires
            old(cpu).wf(),
            mmu.wf(),
        ensures
            final(cpu).cycles == old(cpu).cycles,
            accumulate_post(*old(cpu), *final(cpu), mmu, *ins, r),
    {
        let kind = ins.opcode;
        if !(kind == Opcode::Add || kind == Opcode::Adc || kind == Opcode::Sub || kind == Opcode::Sbc
            || kind == Opcode::And || kind == Opcode::Xor || kind == Opcode::Or || kind == Opcode::Cp) {
            return Err(AyyError::InvalidHandler);
        }
        match (ins.lhs, ins.rhs) {
            (Some(Operand::Reg8(Register::A, AddressingMode::Direct)), Some(src)) => {
                if !Handlers::byte_operand(src) {
                    return Err(AyyError::InvalidHandler);
                }
                let b = cpu.read_byte(mmu, src)?;
                let a = cpu.registers.a;
                let c = cpu.registers.f & CARRY != 0;
                let (res, f) = if kind == Opcode::Add {
                    add8(a, b, false)
                } else if kind == Opcode::Adc {
                    add8(a, b, c)
                } else if kind == Opcode::Sub || kind == Opcode::Cp {
                    sub8(a, b, false)
                } else if kind == Opcode::Sbc {
                    sub8(a, b, c)
                } else if kind == Opcode::And {
                    (a & b, flags(a & b == 0, false, true, false))
                } else if kind == Opcode::Xor {
                    (a ^ b, flags(a ^ b == 0, false, false, false))
                } else {
                    (a | b, flags(a | b == 0, false, false, false))
                };
                if kind != Opcode::Cp {
                    cpu.registers.a = res;
                }
                cpu.registers.f = f;
                Ok(ins.cycles.0)
            },
            _ => Err(AyyError::InvalidHandler),
        }
    }

    /// Runtime test of `is_byte_operand`.
    pub fn byte_operand(op: Operand) -> (r: bool)
        ensures
            r == is_byte_operand(op),
    {
        match op {
            Operand::Reg8(r, m) => {
                let eight = match r {
                    Register::A | Register::B | Register::C | Register::D | Register::E | Register::H
                    | Register::L | Register::F => true,
                    _ => false,
                };
                eight && (m == AddressingMode::Direct || r == Register::C)
            },
            Operand::Reg16(r, m) => m != AddressingMode::Direct && (r == Register::BC || r
                == Register::DE || r == Register::HL),
            Operand::Imm8(_, _) => true,
            Operand::Imm16(_, m) => m != AddressingMode::Direct,
            _ => false,
        }
    }

    /// ADD HL, rr and ADD SP, e; other ADD forms go to `accumulate`.
    #[verifier::rlimit(30)]
    pub fn add(cpu: &mut Cpu, mmu: &Mmu, ins: &Instruction) -> (r: Result<usize, AyyError>)
        requires
            old(cpu).wf(),
            mmu.wf(),
        ensures
            final(cpu).cycles == old(cpu).cycles,
            add_post(*old(cpu), *final(cpu), mmu, *ins, r),
    {
        match (ins.lhs, ins.rhs) {
            (
                Some(Operand::Reg16(Register::HL, AddressingMode::Direct)),
                Some(Operand::Reg16(rr, AddressingMode::Direct)),
            ) => {
                if ins.opcode != Opcode::Add || !Handlers::wide(rr) {
                    return Err(AyyError::InvalidHandler);
                }
                let hl = cpu.registers.read16(Register::HL);
                let v = cpu.registers.read16(rr);
                let (res, f) = add16(hl, v, cpu.registers.f & ZERO != 0);
                cpu.registers.write16(Register::HL, res);
                cpu.registers.f = f;
                Ok(ins.cycles.0)
            },
            (Some(Operand::Reg16(Register::SP, AddressingMode::Direct)), Some(Operand::Offset(e))) => {
                if ins.opcode != Opcode::Add {
                    return Err(AyyError::InvalidHandler);
                }
                let (res, f) = add_sp(cpu.registers.sp, e);
                cpu.registers.sp = res;
                cpu.registers.f = f;
                Ok(ins.cycles.0)
            },
            _ => Handlers::accumulate(cpu, mmu, ins),
        }
    }

    /// Runtime test of `Register::is_16bit`.
    pub fn wide(r: Register) -> (b: bool)
        ensures
            b == r.is_16bit(),
    {
        match r {
            Register::AF | Register::BC | Register::DE | Register::HL | Register::SP | Register::PC => true,
            _ => false,
        }
    }

    /// INC and DEC of a 16-bit register; the flags are untouched.
    #[verifier::rlimit(30)]
    fn inc_dec_wide(cpu: &mut Cpu, ins: &Instruction) -> (r: Result<usize, AyyError>)
        requires
            old(cpu).wf(),
        ensures
            final(cpu).cycles == old(cpu).cycles,
            inc_dec_wide_post(*old(cpu), *final(cpu), *ins, r),
    {
        if ins.opcode != Opcode::Inc && ins.opcode != Opcode::Dec {
            return Err(AyyError::InvalidHandler);
        }
        match ins.lhs {
            Some(Operand::Reg16(rr, AddressingMode::Direct)) => {
                if !Handlers::wide(rr) {
                    return Err(AyyError::InvalidHandler);
                }
                let v = cpu.registers.read16(rr);
                let n = if ins.opcode == Opcode::Inc {
                    v.wrapping_add(1)
                } else {
                    v.wrapping_sub(1)
                };
                cpu.registers.write16(rr, n);
                Ok(ins.cycles.0)
            },
            _ => Err(AyyError::InvalidHandler),
        }
    }

    /// INC and DEC of a register or memory byte: Z, N and H from the result, C kept.
    #[verifier::rlimit(50)]
    fn inc_dec_byte(cpu: &mut Cpu, mmu: &mut Mmu, ins: &Instruction) -> (r: Result<usize, AyyError>)
        requires
            old(cpu).wf(),
            old(mmu).wf(),
        ensures
            final(cpu).cycles == old(cpu).cycles,
            inc_dec_byte_post(*old(cpu), *final(cpu), *old(mmu), *final(mmu), *ins, r),
    {
        if ins.opcode != Opcode::Inc && ins.opcode != Opcode::Dec {
            return Err(AyyError::InvalidHandler);
        }
        let inc = ins.opcode == Opcode::Inc;
        let op = match ins.lhs {
            Some(op) => op,
            None => {
                return Err(AyyError::InvalidHandler);
            },
        };
        if !Handlers::byte_operand(op) || matches!(op, Operand::Imm8(_, AddressingMode::Direct)) {
            return Err(AyyError::InvalidHandler);
        }
        let b = cpu.read_byte(mmu, op)?;
        let c = cpu.registers.f & CARRY != 0;
        let (res, f) = if inc {
            inc8(b, c)
        } else {
            dec8(b, c)
        };
        let ghost old_regs = cpu.registers;
        let ghost old_mmu = *mmu;
        cpu.registers.f = f;
        assert(operand_addr(cpu.registers, op) == operand_addr(old_regs, op));
        let w = cpu.write_byte(mmu, op, res);
        let result = match w {
            Ok(()) => Ok(ins.cycles.0),
            Err(e) => Err(e),
        };
        proof {
            if operand_addr(old_regs, op) is Some {
                assert(old_mmu.write_rel(&*mmu, operand_addr(old_regs, op)->Some_0, res, w));
                assert(result == lift(w, ins.cycles.0));
            }
        }
        result
    }

    /// DAA: decimal adjust of A after a BCD addition or subtraction.
    #[verifier::rlimit(30)]
    pub fn decimal_adjust_accumulator(cpu: &mut Cpu, ins: &Instruction) -> (r: Result<usize, AyyError>)
        requires
            old(cpu).wf(),
        ensures
            final(cpu).cycles == old(cpu).cycles,
            decimal_adjust_accumulator_post(*old(cpu), *final(cpu), *ins, r),
    {
        let f = cpu.registers.f;
        let (a, nf) = daa(cpu.registers.a, f & SUBTRACT != 0, f & HALF_CARRY != 0, f & CARRY != 0);
        cpu.registers.a = a;
        cpu.registers.f = nf;
        Ok(ins.cycles.0)
    }

    /// CPL (A complemented, N and H set), SCF (C set) and CCF (C flipped); SCF and CCF
    /// clear N and H. Z is kept.
    #[verifier::rlimit(30)]
    pub fn complement(cpu: &mut Cpu, ins: &Instruction) -> (r: Result<usize, AyyError>)
        requires
            old(cpu).wf(),
        ensures
            final(cpu).cycles == old(cpu).cycles,
            complement_post(*old(cpu), *final(cpu), *ins, r),
    {
        let z = cpu.registers.f & ZERO != 0;
        let c = cpu.registers.f & CARRY != 0;
        if ins.opcode == Opcode::Cpl {
            cpu.registers.a = !cpu.registers.a;
            cpu.registers.f = flags(z, true, true, c);
        } else if ins.opcode == Opcode::Scf {
            cpu.registers.f = flags(z, false, false, true);
        } else if ins.opcode == Opcode::Ccf {
            cpu.registers.f = flags(z, false, false, !c);
        } else {
            return Err(AyyError::InvalidHandler);
        }
        Ok(ins.cycles.0)
    }

    /// EI arms the interrupt enable; DI clears it at once.
    pub fn handle_interrupt(cpu: &mut Cpu, ins: &Instruction) -> (r: Result<usize, AyyError>)
        ensures
            final(cpu).cycles == old(cpu).cycles,
            handle_interrupt_post(*old(cpu), *final(cpu), *ins, r),
    {
        if ins.opcode == Opcode::Ei {
            cpu.enable_interrupts(true);
        } else if ins.opcode == Opcode::Di {
            cpu.disable_interrupts();
        } else {
            return Err(AyyError::InvalidHandler);
        }
        Ok(ins.cycles.0)
    }

    /// HALT: the CPU idles until an interrupt is pending.
    pub fn halt(cpu: &mut Cpu, ins: &Instruction) -> (r: Result<usize, AyyError>)
        ensures
            final(cpu).cycles == old(cpu).cycles,
            halt_post(*old(cpu), *final(cpu), *ins, r),
    {
        cpu.halted = true;
        Ok(ins.cycles.0)
    }

    fn step_hl(cpu: &mut Cpu, op: Operand)
        requires
            old(cpu).wf(),
        ensures
            final(cpu).cycles == old(cpu).cycles,
            final(cpu).wf(),
            *final(cpu) == (Cpu { registers: adjust_hl(old(cpu).registers, hl_delta(op)), ..*old(cpu) }),
    {
        match op {
            Operand::Reg16(Register::HL, AddressingMode::IndirectIncrement) => {
                let hl = cpu.registers.read16(Register::HL);
                cpu.registers.write16(Register::HL, hl.wrapping_add(1));
            },
            Operand::Reg16(Register::HL, AddressingMode::IndirectDecrement) => {
                let hl = cpu.registers.read16(Register::HL);
                cpu.registers.write16(Register::HL, hl.wrapping_sub(1));
            },
            _ => {},
        }
    }

    /// LD and LDH: byte loads go to `load_byte`, 16-bit loads to `load_wide`.
    #[verifier::rlimit(30)]
    pub fn load(cpu: &mut Cpu, mmu: &mut Mmu, ins: &Instruction) -> (r: Result<usize, AyyError>)
        requires
            old(cpu).wf(),
            old(mmu).wf(),
        ensures
            final(cpu).cycles == old(cpu).cycles,
            r is Ok ==> r->Ok_0 == ins.cycles.0 || r->Ok_0 == cycles_for(*ins, false),
            final(cpu).wf(),
            final(mmu).wf(),
            is_byte_load(*ins) ==> load_byte_post(*old(cpu), *final(cpu), *old(mmu), *final(mmu), *ins, r),
            !is_byte_load(*ins) ==> load_wide_post(*old(cpu), *final(cpu), *old(mmu), *final(mmu), *ins, r),
    {
        if Handlers::byte_load(ins) {
            Handlers::load_byte(cpu, mmu, ins)
        } else {
            Handlers::load_wide(cpu, mmu, ins)
        }
    }

    /// Byte loads: LD between registers, immediates and memory (including (C), (a8) and
    /// (a16) forms, and LDH); an (HL+) or (HL-) operand moves HL after the access.
    #[verifier::rlimit(50)]
    fn load_byte(cpu: &mut Cpu, mmu: &mut Mmu, ins: &Instruction) -> (r: Result<usize, AyyError>)
        requires
            old(cpu).wf(),
            old(mmu).wf(),
        ensures
            final(cpu).cycles == old(cpu).cycles,
            load_byte_post(*old(cpu), *final(cpu), *old(mmu), *final(mmu), *ins, r),
    {
        if ins.opcode != Opcode::Ld && ins.opcode != Opcode::Ldh {
            return Err(AyyError::InvalidHandler);
        }
        let (dst, src) = match (ins.lhs, ins.rhs) {
            (Some(d), Some(s)) => (d, s),
            _ => {
                return Err(AyyError::InvalidHandler);
            },
        };
        if !Handlers::byte_operand(dst) || matches!(dst, Operand::Imm8(_, AddressingMode::Direct))
            || !Handlers::byte_operand(src) {
            return Err(AyyError::InvalidHandler);
        }
        let moves_dst = matches!(dst, Operand::Reg16(Register::HL, AddressingMode::IndirectIncrement))
            || matches!(dst, Operand::Reg16(Register::HL, AddressingMode::IndirectDecrement));
        let moves_src = matches!(src, Operand::Reg16(Register::HL, AddressingMode::IndirectIncrement))
            || matches!(src, Operand::Reg16(Register::HL, AddressingMode::IndirectDecrement));
        if moves_dst && moves_src {
            return Err(AyyError::InvalidHandler);
        }
        let v = cpu.read_byte(mmu, src)?;
        let ghost old_regs = cpu.registers;
        let ghost old_mmu = *mmu;
        let w = cpu.write_byte(mmu, dst, v);
        let result = match w {
            Ok(()) => {
                Handlers::step_hl(cpu, dst);
                Handlers::step_hl(cpu, src);
                Ok(ins.cycles.0)
            },
            Err(e) => Err(e),
        };
        proof {
            if operand_addr(old_regs, dst) is Some {
                assert(old_mmu.write_rel(&*mmu, operand_addr(old_regs, dst)->Some_0, v, w));
                assert(result == lift(w, ins.cycles.0));
            }
        }
        result
    }

    /// 16-bit loads: LD rr, d16; LD SP, HL; LD HL, SP+e (flags as ADD SP, e); LD (a16), SP.
    #[verifier::rlimit(30)]
    fn load_wide(cpu: &mut Cpu, mmu: &mut Mmu, ins: &Instruction) -> (r: Result<usize, AyyError>)
        requires
            old(cpu).wf(),
            old(mmu).wf(),
        ensures
            final(cpu).cycles == old(cpu).cycles,
            load_wide_post(*old(cpu), *final(cpu), *old(mmu), *final(mmu), *ins, r),
    {
        if ins.opcode != Opcode::Ld {
            return Err(AyyError::InvalidHandler);
        }
        match (ins.lhs, ins.rhs) {
            (Some(Operand::Reg16(rr, AddressingMode::Direct)), Some(Operand::Imm16(nn, AddressingMode::Direct))) => {
                if !(rr == Register::BC || rr == Register::DE || rr == Register::HL || rr == Register::SP) {
                    return Err(AyyError::InvalidHandler);
                }
                cpu.registers.write16(rr, nn);
                Ok(ins.cycles.0)
            },
            (
                Some(Operand::Reg16(Register::SP, AddressingMode::Direct)),
                Some(Operand::Reg16(Register::HL, AddressingMode::Direct)),
            ) => {
                cpu.registers.sp = cpu.registers.read16(Register::HL);
                Ok(ins.cycles.0)
            },
            (
                Some(Operand::Reg16(Register::HL, AddressingMode::Direct)),
                Some(Operand::DisplacedReg16(Register::SP, e, _)),
            ) => {
                let (res, f) = add_sp(cpu.registers.sp, e);
                cpu.registers.write16(Register::HL, res);
                cpu.registers.f = f;
                Ok(ins.cycles.0)
            },
            (Some(Operand::Imm16(nn, mode)), Some(Operand::Reg16(Register::SP, AddressingMode::Direct))) => {
                if mode == AddressingMode::Direct {
                    return Err(AyyError::InvalidHandler);
                }
                let w = mmu.write16(nn, cpu.registers.sp);
                let result = match w {
                    Ok(()) => Ok(ins.cycles.0),
                    Err(e) => Err(e),
                };
                assert(result == lift(w, ins.cycles.0));
                result
            },
            _ => Err(AyyError::InvalidHandler),
        }
    }

    /// PUSH rr: SP drops by two and rr is stored there.
    #[verifier::rlimit(30)]
    pub fn push(cpu: &mut Cpu, mmu: &mut Mmu, ins: &Instruction) -> (r: Result<usize, AyyError>)
        requires
            old(cpu).wf(),
            old(mmu).wf(),
        ensures
            final(cpu).cycles == old(cpu).cycles,
            push_post(*old(cpu), *final(cpu), *old(mmu), *final(mmu), *ins, r),
    {
        match ins.lhs {
            Some(Operand::Reg16(rr, AddressingMode::Direct)) => {
                if ins.opcode != Opcode::Push || !(rr == Register::BC || rr == Register::DE || rr
                    == Register::HL || rr == Register::AF) {
                    return Err(AyyError::InvalidHandler);
                }
                let v = cpu.registers.read16(rr);
                let w = cpu.push_stack(mmu, v);
                let result = match w {
                    Ok(()) => Ok(ins.cycles.0),
                    Err(e) => Err(e),
                };
                assert(result == lift(w, ins.cycles.0));
                result
            },
            _ => Err(AyyError::InvalidHandler),
        }
    }

    /// POP rr: the word at SP goes to rr (the low nibble of F dropped for AF), SP rises by two.
    #[verifier::rlimit(30)]
    pub fn pop(cpu: &mut Cpu, mmu: &Mmu, ins: &Instruction) -> (r: Result<usize, AyyError>)
        requires
            old(cpu).wf(),
            mmu.wf(),
        ensures
            final(cpu).cycles == old(cpu).cycles,
            pop_post(*old(cpu), *final(cpu), mmu, *ins, r),
    {
        match ins.lhs {
            Some(Operand::Reg16(rr, AddressingMode::Direct)) => {
                if ins.opcode != Opcode::Pop || !(rr == Register::BC || rr == Register::DE || rr
                    == Register::HL || rr == Register::AF) {
                    return Err(AyyError::InvalidHandler);
                }
                let v = cpu.pop_stack(mmu)?;
                cpu.registers.write16(rr, v);
                Ok(ins.cycles.0)
            },
            _ => Err(AyyError::InvalidHandler),
        }
    }

    /// JP nn, JP HL, JR e and CALL nn, each under its condition. Not taken: nothing changes
    /// and the shorter cycle count is reported. Taken: PC moves to the target; CALL first
    /// pushes the address of the next instruction.
    #[verifier::rlimit(30)]
    pub fn jump(cpu: &mut Cpu, mmu: &mut Mmu, ins: &Instruction) -> (r: Result<usize, AyyError>)
        requires
            old(cpu).wf(),
            old(mmu).wf(),
        ensures
            final(cpu).cycles == old(cpu).cycles,
            jump_post(*old(cpu), *final(cpu), *old(mmu), *final(mmu), *ins, r),
    {
        let c = match ins.lhs {
            Some(Operand::Conditional(c)) => c,
            _ => {
                return Err(AyyError::InvalidHandler);
            },
        };
        let target = match ins.rhs {
            Some(t) => t,
            None => {
                return Err(AyyError::InvalidHandler);
            },
        };
        if !(ins.opcode == Opcode::Jp || ins.opcode == Opcode::Jr || ins.opcode == Opcode::Call) {
            return Err(AyyError::InvalidHandler);
        }
        if !Handlers::check(&cpu.registers, c) {
            return Ok(Handlers::taken_cycles(ins, false));
        }
        match (ins.opcode, target) {
            (Opcode::Jp, Operand::Imm16(nn, _)) => {
                cpu.registers.pc = nn;
                Ok(ins.cycles.0)
            },
            (Opcode::Jp, Operand::Reg16(Register::HL, AddressingMode::Direct)) => {
                cpu.registers.pc = cpu.registers.read16(Register::HL);
                Ok(ins.cycles.0)
            },
            (Opcode::Jr, Operand::Offset(e)) => {
                cpu.registers.pc = ((cpu.registers.pc as i32 + e as i32 + 0x10000) % 0x10000) as u16;
                Ok(ins.cycles.0)
            },
            (Opcode::Call, Operand::Imm16(nn, _)) => {
                let pc = cpu.registers.pc;
                let w = cpu.push_stack(mmu, pc);
                let result = match w {
                    Ok(()) => {
                        cpu.registers.pc = nn;
                        Ok(ins.cycles.0)
                    },
                    Err(e) => Err(e),
                };
                assert(result == lift(w, ins.cycles.0));
                result
            },
            _ => Err(AyyError::InvalidHandler),
        }
    }

    /// RST n: pushes PC and jumps to n.
    #[verifier::rlimit(30)]
    pub fn restart(cpu: &mut Cpu, mmu: &mut Mmu, ins: &Instruction) -> (r: Result<usize, AyyError>)
        requires
            old(cpu).wf(),
            old(mmu).wf(),
        ensures
            final(cpu).cycles == old(cpu).cycles,
            restart_post(*old(cpu), *final(cpu), *old(mmu), *final(mmu), *ins, r),
    {
        match ins.lhs {
            Some(Operand::Imm8(n, _)) => {
                if ins.opcode != Opcode::Rst {
                    return Err(AyyError::InvalidHandler);
                }
                let pc = cpu.registers.pc;
                let w = cpu.push_stack(mmu, pc);
                let result = match w {
                    Ok(()) => {
                        cpu.registers.pc = n as u16;
                        Ok(ins.cycles.0)
                    },
                    Err(e) => Err(e),
                };
                assert(result == lift(w, ins.cycles.0));
                result
            },
            _ => Err(AyyError::InvalidHandler),
        }
    }

    /// RET (under its condition) and RETI: PC is popped; RETI also sets IME at once.
    #[verifier::rlimit(30)]
    pub fn ret(cpu: &mut Cpu, mmu: &Mmu, ins: &Instruction) -> (r: Result<usize, AyyError>)
        requires
            old(cpu).wf(),
            mmu.wf(),
        ensures
            final(cpu).cycles == old(cpu).cycles,
            ret_post(*old(cpu), *final(cpu), mmu, *ins, r),
    {
        if ins.opcode == Opcode::Reti {
            let v = cpu.pop_stack(mmu)?;
            cpu.registers.pc = v;
            cpu.enable_interrupts(false);
            return Ok(ins.cycles.0);
        }
        let c = match ins.lhs {
            Some(Operand::Conditional(c)) => c,
            _ => {
                return Err(AyyError::InvalidHandler);
            },
        };
        if ins.opcode != Opcode::Ret {
            return Err(AyyError::InvalidHandler);
        }
        if !Handlers::check(&cpu.registers, c) {
            return Ok(Handlers::taken_cycles(ins, false));
        }
        let v = cpu.pop_stack(mmu)?;
        cpu.registers.pc = v;
        Ok(ins.cycles.0)
    }

    /// BIT n: Z is set when bit n of the operand is clear; N cleared, H set, C kept.
    #[verifier::rlimit(30)]
    pub fn test_bit(cpu: &mut Cpu, mmu: &Mmu, ins: &Instruction) -> (r: Result<usize, AyyError>)
        requires
            old(cpu).wf(),
            mmu.wf(),
        ensures
            final(cpu).cycles == old(cpu).cycles,
            test_bit_post(*old(cpu), *final(cpu), mmu, *ins, r),
    {
        match (ins.lhs, ins.rhs) {
            (Some(Operand::Bit(n)), Some(src)) => {
                if ins.opcode != Opcode::Bit || n >= 8 || !Handlers::byte_operand(src) {
                    return Err(AyyError::InvalidHandler);
                }
                let v = cpu.read_byte(mmu, src)?;
                let c = cpu.registers.f & CARRY != 0;
                cpu.registers.f = flags(!alu_test_bit(v, n), false, true, c);
                Ok(ins.cycles.0)
            },
            _ => Err(AyyError::InvalidHandler),
        }
    }

    /// RES n and SET n on a register or memory byte; flags untouched.
    #[verifier::rlimit(50)]
    fn change_bit(cpu: &mut Cpu, mmu: &mut Mmu, ins: &Instruction) -> (r: Result<usize, AyyError>)
        requires
            old(cpu).wf(),
            old(mmu).wf(),
        ensures
            final(cpu).cycles == old(cpu).cycles,
            change_bit_post(*old(cpu), *final(cpu), *old(mmu), *final(mmu), *ins, r),
    {
        match (ins.lhs, ins.rhs) {
            (Some(Operand::Bit(n)), Some(op)) => {
                if !(ins.opcode == Opcode::Res || ins.opcode == Opcode::SetBit) || n >= 8
                    || !Handlers::byte_operand(op) || matches!(op, Operand::Imm8(_, AddressingMode::Direct)) {
                    return Err(AyyError::InvalidHandler);
                }
                let v = cpu.read_byte(mmu, op)?;
                let nv = if ins.opcode == Opcode::SetBit {
                    v | (1u8 << n)
                } else {
                    v & !(1u8 << n)
                };
                let ghost old_regs = cpu.registers;
                let ghost old_mmu = *mmu;
                let w = cpu.write_byte(mmu, op, nv);
                let result = match w {
                    Ok(()) => Ok(ins.cycles.0),
                    Err(e) => Err(e),
                };
                proof {
                    if operand_addr(old_regs, op) is Some {
                        assert(old_mmu.write_rel(&*mmu, operand_addr(old_regs, op)->Some_0, nv, w));
                        assert(result == lift(w, ins.cycles.0));
                    }
                }
                result
            },
            _ => Err(AyyError::InvalidHandler),
        }
    }

    /// RLCA, RRCA, RLA and RRA on A (Z always cleared), and the prefixed RLC, RRC, RL, RR,
    /// SLA, SRA, SWAP and SRL on a register or memory byte (Z from the result); N and H
    /// cleared, C from the bit shifted out.
    #[verifier::rlimit(50)]
    fn shift_rotate(cpu: &mut Cpu, mmu: &mut Mmu, ins: &Instruction) -> (r: Result<usize, AyyError>)
        requires
            old(cpu).wf(),
            old(mmu).wf(),
        ensures
            final(cpu).cycles == old(cpu).cycles,
            shift_rotate_post(*old(cpu), *final(cpu), *old(mmu), *final(mmu), *ins, r),
    {
        let kind = match ins.opcode {
            Opcode::Rlca | Opcode::Rlc => Shift::Rlc,
            Opcode::Rrca | Opcode::Rrc => Shift::Rrc,
            Opcode::Rla | Opcode::Rl => Shift::Rl,
            Opcode::Rra | Opcode::Rr => Shift::Rr,
            Opcode::Sla => Shift::Sla,
            Opcode::Sra => Shift::Sra,
            Opcode::Swap => Shift::Swap,
            Opcode::Srl => Shift::Srl,
            _ => {
                return Err(AyyError::InvalidHandler);
            },
        };
        let c = cpu.registers.f & CARRY != 0;
        if ins.opcode == Opcode::Rlca || ins.opcode == Opcode::Rrca || ins.opcode == Opcode::Rla
            || ins.opcode == Opcode::Rra {
            let (res, out) = shift(kind, cpu.registers.a, c);
            cpu.registers.a = res;
            cpu.registers.f = flags(false, false, false, out);
            return Ok(ins.cycles.0);
        }
        let op = match ins.lhs {
            Some(op) => op,
            None => {
                return Err(AyyError::InvalidHandler);
            },
        };
        if !Handlers::byte_operand(op) || matches!(op, Operand::Imm8(_, AddressingMode::Direct)) {
            return Err(AyyError::InvalidHandler);
        }
        let v = cpu.read_byte(mmu, op)?;
        let (res, out) = shift(kind, v, c);
        let ghost old_regs = cpu.registers;
        let ghost old_mmu = *mmu;
        cpu.registers.f = flags(res == 0, false, false, out);
        assert(operand_addr(cpu.registers, op) == operand_addr(old_regs, op));
        let w = cpu.write_byte(mmu, op, res);
        let result = match w {
            Ok(()) => Ok(ins.cycles.0),
            Err(e) => Err(e),
        };
        proof {
            if operand_addr(old_regs, op) is Some {
                assert(old_mmu.write_rel(&*mmu, operand_addr(old_regs, op)->Some_0, res, w));
                assert(result == lift(w, ins.cycles.0));
            }
        }
        result
    }

    /// Runtime test of `is_byte_load`.
    pub fn byte_load(ins: &Instruction) -> (r: bool)
        ensures
            r == is_byte_load(*ins),
    {
        if ins.opcode != Opcode::Ld && ins.opcode != Opcode::Ldh {
            return false;
        }
        match (ins.lhs, ins.rhs) {
            (Some(dst), Some(src)) => {
                let moves_dst = matches!(dst, Operand::Reg16(Register::HL, AddressingMode::IndirectIncrement))
                    || matches!(dst, Operand::Reg16(Register::HL, AddressingMode::IndirectDecrement));
                let moves_src = matches!(src, Operand::Reg16(Register::HL, AddressingMode::IndirectIncrement))
                    || matches!(src, Operand::Reg16(Register::HL, AddressingMode::IndirectDecrement));
                Handlers::byte_operand(dst) && !matches!(dst, Operand::Imm8(_, AddressingMode::Direct))
                    && Handlers::byte_operand(src) && !(moves_dst && moves_src)
            },
            _ => false,
        }
    }

    /// ADC A, x: A plus the operand plus the carry flag.
    pub fn add_with_carry(cpu: &mut Cpu, mmu: &Mmu, ins: &Instruction) -> (r: Result<usize, AyyError>)
        requires
            old(cpu).wf(),
            mmu.wf(),
            ins.opcode == Opcode::Adc,
        ensures
            final(cpu).cycles == old(cpu).cycles,
            accumulate_post(*old(cpu), *final(cpu), mmu, *ins, r),
    {
        Handlers::accumulate(cpu, mmu, ins)
    }

    /// SUB A, x: A minus the operand.
    pub fn sub(cpu: &mut Cpu, mmu: &Mmu, ins: &Instruction) -> (r: Result<usize, AyyError>)
        requires
            old(cpu).wf(),
            mmu.wf(),
            ins.opcode == Opcode::Sub,
        ensures
            final(cpu).cycles == old(cpu).cycles,
            accumulate_post(*old(cpu), *final(cpu), mmu, *ins, r),
    {
        Handlers::accumulate(cpu, mmu, ins)
    }

    /// SBC A, x: A minus the operand minus the carry flag.
    pub fn sub_with_carry(cpu: &mut Cpu, mmu: &Mmu, ins: &Instruction) -> (r: Result<usize, AyyError>)
        requires
            old(cpu).wf(),
            mmu.wf(),
            ins.opcode == Opcode::Sbc,
        ensures
            final(cpu).cycles == old(cpu).cycles,
            accumulate_post(*old(cpu), *final(cpu), mmu, *ins, r),
    {
        Handlers::accumulate(cpu, mmu, ins)
    }

    /// AND A, x.
    pub fn and(cpu: &mut Cpu, mmu: &Mmu, ins: &Instruction) -> (r: Result<usize, AyyError>)
        requires
            old(cpu).wf(),
            mmu.wf(),
            ins.opcode == Opcode::And,
        ensures
            final(cpu).cycles == old(cpu).cycles,
            accumulate_post(*old(cpu), *final(cpu), mmu, *ins, r),
    {
        Handlers::accumulate(cpu, mmu, ins)
    }

    /// XOR A, x.
    pub fn xor(cpu: &mut Cpu, mmu: &Mmu, ins: &Instruction) -> (r: Result<usize, AyyError>)
        requires
            old(cpu).wf(),
            mmu.wf(),
            ins.opcode == Opcode::Xor,
        ensures
            final(cpu).cycles == old(cpu).cycles,
            accumulate_post(*old(cpu), *final(cpu), mmu, *ins, r),
    {
        Handlers::accumulate(cpu, mmu, ins)
    }

    /// OR A, x.
    pub fn or(cpu: &mut Cpu, mmu: &Mmu, ins: &Instruction) -> (r: Result<usize, AyyError>)
        requires
            old(cpu).wf(),
            mmu.wf(),
            ins.opcode == Opcode::Or,
        ensures
            final(cpu).cycles == old(cpu).cycles,
            accumulate_post(*old(cpu), *final(cpu), mmu, *ins, r),
    {
        Handlers::accumulate(cpu, mmu, ins)
    }

    /// CP A, x: the flags of SUB, A kept.
    pub fn compare(cpu: &mut Cpu, mmu: &Mmu, ins: &Instruction) -> (r: Result<usize, AyyError>)
        requires
            old(cpu).wf(),
            mmu.wf(),
            ins.opcode == Opcode::Cp,
        ensures
            final(cpu).cycles == old(cpu).cycles,
            accumulate_post(*old(cpu), *final(cpu), mmu, *ins, r),
    {
        Handlers::accumulate(cpu, mmu, ins)
    }

    /// RL, RLA, RLC and RLCA.
    pub fn rotate_left(cpu: &mut Cpu, mmu: &mut Mmu, ins: &Instruction) -> (r: Result<usize, AyyError>)
        requires
            old(cpu).wf(),
            old(mmu).wf(),
            ins.opcode == Opcode::Rl || ins.opcode == Opcode::Rla || ins.opcode == Opcode::Rlc || ins.opcode == Opcode::Rlca,
        ensures
            final(cpu).cycles == old(cpu).cycles,
            shift_rotate_post(*old(cpu), *final(cpu), *old(mmu), *final(mmu), *ins, r),
    {
        Handlers::shift_rotate(cpu, mmu, ins)
    }

    /// RR, RRA, RRC and RRCA.
    pub fn rotate_right(cpu: &mut Cpu, mmu: &mut Mmu, ins: &Instruction) -> (r: Result<usize, AyyError>)
        requires
            old(cpu).wf(),
            old(mmu).wf(),
            ins.opcode == Opcode::Rr || ins.opcode == Opcode::Rra || ins.opcode == Opcode::Rrc || ins.opcode == Opcode::Rrca,
        ensures
            final(cpu).cycles == old(cpu).cycles,
            shift_rotate_post(*old(cpu), *final(cpu), *old(mmu), *final(mmu), *ins, r),
    {
        Handlers::shift_rotate(cpu, mmu, ins)
    }

    /// SLA.
    pub fn shift_left(cpu: &mut Cpu, mmu: &mut Mmu, ins: &Instruction) -> (r: Result<usize, AyyError>)
        requires
            old(cpu).wf(),
            old(mmu).wf(),
            ins.opcode == Opcode::Sla,
        ensures
            final(cpu).cycles == old(cpu).cycles,
            shift_rotate_post(*old(cpu), *final(cpu), *old(mmu), *final(mmu), *ins, r),
    {
        Handlers::shift_rotate(cpu, mmu, ins)
    }

    /// SRA and SRL.
    pub fn shift_right(cpu: &mut Cpu, mmu: &mut Mmu, ins: &Instruction) -> (r: Result<usize, AyyError>)
        requires
            old(cpu).wf(),
            old(mmu).wf(),
            ins.opcode == Opcode::Sra || ins.opcode == Opcode::Srl,
        ensures
            final(cpu).cycles == old(cpu).cycles,
            shift_rotate_post(*old(cpu), *final(cpu), *old(mmu), *final(mmu), *ins, r),
    {
        Handlers::shift_rotate(cpu, mmu, ins)
    }

    /// SWAP.
    pub fn swap(cpu: &mut Cpu, mmu: &mut Mmu, ins: &Instruction) -> (r: Result<usize, AyyError>)
        requires
            old(cpu).wf(),
            old(mmu).wf(),
            ins.opcode == Opcode::Swap,
        ensures
            final(cpu).cycles == old(cpu).cycles,
            shift_rotate_post(*old(cpu), *final(cpu), *old(mmu), *final(mmu), *ins, r),
    {
        Handlers::shift_rotate(cpu, mmu, ins)
    }

    /// RES n: clears bit n of the operand.
    pub fn reset_bit(cpu: &mut Cpu, mmu: &mut Mmu, ins: &Instruction) -> (r: Result<usize, AyyError>)
        requires
            old(cpu).wf(),
            old(mmu).wf(),
            ins.opcode == Opcode::Res,
        ensures
            final(cpu).cycles == old(cpu).cycles,
            change_bit_post(*old(cpu), *final(cpu), *old(mmu), *final(mmu), *ins, r),
    {
        Handlers::change_bit(cpu, mmu, ins)
    }

    /// SET n: sets bit n of the operand.
    pub fn set_bit(cpu: &mut Cpu, mmu: &mut Mmu, ins: &Instruction) -> (r: Result<usize, AyyError>)
        requires
            old(cpu).wf(),
            old(mmu).wf(),
            ins.opcode == Opcode::SetBit,
        ensures
            final(cpu).cycles == old(cpu).cycles,
            change_bit_post(*old(cpu), *final(cpu), *old(mmu), *final(mmu), *ins, r),
    {
        Handlers::change_bit(cpu, mmu, ins)
    }

    /// INC of a 16-bit register or of a register or memory byte.
    pub fn increment(cpu: &mut Cpu, mmu: &mut Mmu, ins: &Instruction) -> (r: Result<usize, AyyError>)
        requires
            old(cpu).wf(),
            old(mmu).wf(),
            ins.opcode == Opcode::Inc,
        ensures
            final(cpu).cycles == old(cpu).cycles,
            has_wide_target(*ins) ==> inc_dec_wide_post(*old(cpu), *final(cpu), *ins, r) && *final(mmu) == *old(mmu),
            !has_wide_target(*ins) ==> inc_dec_byte_post(*old(cpu), *final(cpu), *old(mmu), *final(mmu), *ins, r),
    {
        if matches!(ins.lhs, Some(Operand::Reg16(_, AddressingMode::Direct))) {
            Handlers::inc_dec_wide(cpu, ins)
        } else {
            Handlers::inc_dec_byte(cpu, mmu, ins)
        }
    }

    /// DEC of a 16-bit register or of a register or memory byte.
    pub fn decrement(cpu: &mut Cpu, mmu: &mut Mmu, ins: &Instruction) -> (r: Result<usize, AyyError>)
        requires
            old(cpu).wf(),
            old(mmu).wf(),
            ins.opcode == Opcode::Dec,
        ensures
            final(cpu).cycles == old(cpu).cycles,
            has_wide_target(*ins) ==> inc_dec_wide_post(*old(cpu), *final(cpu), *ins, r) && *final(mmu) == *old(mmu),
            !has_wide_target(*ins) ==> inc_dec_byte_post(*old(cpu), *final(cpu), *old(mmu), *final(mmu), *ins, r),
    {
        if matches!(ins.lhs, Some(Operand::Reg16(_, AddressingMode::Direct))) {
            Handlers::inc_dec_wide(cpu, ins)
        } else {
            Handlers::inc_dec_byte(cpu, mmu, ins)
        }
    }

    /// NOP: nothing changes.
    pub fn nop(ins: &Instruction) -> (r: Result<usize, AyyError>)
        ensures
            r == Ok::<usize, AyyError>(ins.cycles.0),
    {
        Ok(ins.cycles.0)
    }

    /// STOP: clears the divider and performs an armed speed switch.
    pub fn stop(mmu: &mut Mmu, timer: &mut Timer, ins: &Instruction) -> (r: Result<usize, AyyError>)
        ensures
            r == Ok::<usize, AyyError>(ins.cycles.0),
            *final(timer) == *old(timer),
            old(mmu).cgb_prepare_speed_switch ==> *final(mmu) == (Mmu {
                div_counter: 0,
                cgb_double_speed: !old(mmu).cgb_double_speed,
                cgb_prepare_speed_switch: false,
                ..*old(mmu)
            }),
            !old(mmu).cgb_prepare_speed_switch ==> *final(mmu) == (Mmu { div_counter: 0, ..*old(mmu) }),
    {
        timer.reset_divider(mmu);
        mmu.enable_pending_speed_switch();
        Ok(ins.cycles.0)
    }
}

} // verus!
