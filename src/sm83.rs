use vstd::prelude::*;
use crate::error::AyyError;
use crate::mmu::Mmu;
use crate::registers::Register;

verus! {

/// How an operand reaches its value.
#[derive(Debug, Clone, Copy, PartialEq, Eq, Structural)]
pub enum AddressingMode {
    Direct,
    Indirect,
    /// Indirect, then the register is incremented.
    IndirectIncrement,
    /// Indirect, then the register is decremented.
    IndirectDecrement,
}

/// Branch conditions; `Always` always holds.
#[derive(Debug, Clone, Copy, PartialEq, Eq, Structural)]
pub enum Condition {
    Always,
    NZ,
    Z,
    NC,
    C,
}

#[derive(Debug, Clone, Copy, PartialEq, Eq, Structural)]
pub enum Operand {
    Reg8(Register, AddressingMode),
    Reg16(Register, AddressingMode),
    Imm8(u8, AddressingMode),
    Imm16(u16, AddressingMode),
    Conditional(Condition),
    DisplacedReg16(Register, i8, AddressingMode),
    Offset(i8),
    Bit(u8),
}

#[derive(Debug, Clone, Copy, PartialEq, Eq, Structural)]
pub enum Opcode {
    Nop,
    Ld,
    Inc,
    Dec,
    Rlc,
    Rrc,
    Swap,
    Rr,
    Srl,
    Bit,
    Res,
    SetBit,
    Jp,
    Jr,
    Call,
    Ret,
    Rst,
    Push,
    Pop,
    Add,
    Adc,
    Sub,
    Sbc,
    And,
    Xor,
    Or,
    Cp,
    Reti,
    Halt,
    Stop,
    Di,
    Ei,
    Ldh,
    Rl,
    Sla,
    Sra,
    Ccf,
    Scf,
    Cpl,
    Daa,
    Rra,
    Rla,
    Rrca,
    Rlca,
}

/// A decoded instruction: kind, operands, byte length, and T-cycles as (taken, not taken).
#[derive(Debug, Clone, Copy)]
pub struct Instruction {
    pub opcode: Opcode,
    pub lhs: Option<Operand>,
    pub rhs: Option<Operand>,
    pub length: usize,
    pub cycles: (usize, Option<usize>),
}

/// The eleven opcodes with no instruction.
pub open spec fn is_illegal(op: u8) -> bool {
    op == 0xd3 || op == 0xdb || op == 0xdd || op == 0xe3 || op == 0xe4 || op == 0xeb || op == 0xec
        || op == 0xed || op == 0xf4 || op == 0xfc || op == 0xfd
}

/// The 8-bit operand of a 3-bit register field: B C D E H L (HL) A.
pub open spec fn r8_spec(bits: u8) -> Operand {
    if bits == 0 {
        Operand::Reg8(Register::B, AddressingMode::Direct)
    } else if bits == 1 {
        Operand::Reg8(Register::C, AddressingMode::Direct)
    } else if bits == 2 {
        Operand::Reg8(Register::D, AddressingMode::Direct)
    } else if bits == 3 {
        Operand::Reg8(Register::E, AddressingMode::Direct)
    } else if bits == 4 {
        Operand::Reg8(Register::H, AddressingMode::Direct)
    } else if bits == 5 {
        Operand::Reg8(Register::L, AddressingMode::Direct)
    } else if bits == 6 {
        Operand::Reg16(Register::HL, AddressingMode::Indirect)
    } else {
        Operand::Reg8(Register::A, AddressingMode::Direct)
    }
}

/// The 16-bit register of a 2-bit field: BC DE HL SP, or AF in place of SP for PUSH / POP.
pub open spec fn r16_spec(bits: u8, af: bool) -> Register {
    if bits == 0 {
        Register::BC
    } else if bits == 1 {
        Register::DE
    } else if bits == 2 {
        Register::HL
    } else if af {
        Register::AF
    } else {
        Register::SP
    }
}

/// The condition of a 2-bit field: NZ Z NC C.
pub open spec fn cond_spec(bits: u8) -> Condition {
    if bits == 0 {
        Condition::NZ
    } else if bits == 1 {
        Condition::Z
    } else if bits == 2 {
        Condition::NC
    } else {
        Condition::C
    }
}

/// The accumulator operation of a 3-bit field: ADD ADC SUB SBC AND XOR OR CP.
pub open spec fn alu_spec(bits: u8) -> Opcode {
    if bits == 0 {
        Opcode::Add
    } else if bits == 1 {
        Opcode::Adc
    } else if bits == 2 {
        Opcode::Sub
    } else if bits == 3 {
        Opcode::Sbc
    } else if bits == 4 {
        Opcode::And
    } else if bits == 5 {
        Opcode::Xor
    } else if bits == 6 {
        Opcode::Or
    } else {
        Opcode::Cp
    }
}

/// The prefixed rotate / shift of a 3-bit field: RLC RRC RL RR SLA SRA SWAP SRL.
pub open spec fn rot_spec(bits: u8) -> Opcode {
    if bits == 0 {
        Opcode::Rlc
    } else if bits == 1 {
        Opcode::Rrc
    } else if bits == 2 {
        Opcode::Rl
    } else if bits == 3 {
        Opcode::Rr
    } else if bits == 4 {
        Opcode::Sla
    } else if bits == 5 {
        Opcode::Sra
    } else if bits == 6 {
        Opcode::Swap
    } else {
        Opcode::Srl
    }
}

pub fn r8(bits: u8) -> (r: Operand)
    ensures
        r == r8_spec(bits),
{
    if bits == 0 {
        Operand::Reg8(Register::B, AddressingMode::Direct)
    } else if bits == 1 {
        Operand::Reg8(Register::C, AddressingMode::Direct)
    } else if bits == 2 {
        Operand::Reg8(Register::D, AddressingMode::Direct)
    } else if bits == 3 {
        Operand::Reg8(Register::E, AddressingMode::Direct)
    } else if bits == 4 {
        Operand::Reg8(Register::H, AddressingMode::Direct)
    } else if bits == 5 {
        Operand::Reg8(Register::L, AddressingMode::Direct)
    } else if bits == 6 {
        Operand::Reg16(Register::HL, AddressingMode::Indirect)
    } else {
        Operand::Reg8(Register::A, AddressingMode::Direct)
    }
}

pub fn r16(bits: u8, af: bool) -> (r: Register)
    ensures
        r == r16_spec(bits, af),
{
    if bits == 0 {
        Register::BC
    } else if bits == 1 {
        Register::DE
    } else if bits == 2 {
        Register::HL
    } else if af {
        Register::AF
    } else {
        Register::SP
    }
}

pub fn cond(bits: u8) -> (r: Condition)
    ensures
        r == cond_spec(bits),
{
    if bits == 0 {
        Condition::NZ
    } else if bits == 1 {
        Condition::Z
    } else if bits == 2 {
        Condition::NC
    } else {
        Condition::C
    }
}

pub fn alu(bits: u8) -> (r: Opcode)
    ensures
        r == alu_spec(bits),
{
    if bits == 0 {
        Opcode::Add
    } else if bits == 1 {
        Opcode::Adc
    } else if bits == 2 {
        Opcode::Sub
    } else if bits == 3 {
        Opcode::Sbc
    } else if bits == 4 {
        Opcode::And
    } else if bits == 5 {
        Opcode::Xor
    } else if bits == 6 {
        Opcode::Or
    } else {
        Opcode::Cp
    }
}

pub fn rot(bits: u8) -> (r: Opcode)
    ensures
        r == rot_spec(bits),
{
    if bits == 0 {
        Opcode::Rlc
    } else if bits == 1 {
        Opcode::Rrc
    } else if bits == 2 {
        Opcode::Rl
    } else if bits == 3 {
        Opcode::Rr
    } else if bits == 4 {
        Opcode::Sla
    } else if bits == 5 {
        Opcode::Sra
    } else if bits == 6 {
        Opcode::Swap
    } else {
        Opcode::Srl
    }
}

/// The signed reading of a byte.
pub open spec fn signed_spec(b: u8) -> i8 {
    if b < 128 {
        b as i8
    } else {
        (b as int - 256) as i8
    }
}

pub open spec fn mk_spec(
    opcode: Opcode,
    lhs: Option<Operand>,
    rhs: Option<Operand>,
    length: usize,
    taken: usize,
    not_taken: Option<usize>,
) -> Instruction {
    Instruction { opcode, lhs, rhs, length, cycles: (taken, not_taken) }
}

/// The instruction that opcode `op` (from the 0xcb-prefixed table when `prefixed`) denotes,
/// given the two bytes `b1`, `b2` that follow it. The opcode is split into the fields
/// x (bits 7-6), y (bits 5-3), z (bits 2-0), p (bits 5-4) and q (bit 3).
pub open spec fn decode_spec(op: u8, prefixed: bool, b1: u8, b2: u8) -> Result<Instruction, AyyError> {
    let x = op / 64;
    let y = (op / 8) % 8;
    let z = op % 8;
    let p = y / 2;
    let q = y % 2;
    let imm16 = (b2 as int * 256 + b1 as int) as u16;
    let e = signed_spec(b1);
    let a = Operand::Reg8(Register::A, AddressingMode::Direct);
    let hl = Operand::Reg16(Register::HL, AddressingMode::Direct);
    if prefixed {
        let t: usize = if z == 6 { if x == 1 { 12 } else { 16 } } else { 8 };
        if x == 0 {
            Ok(mk_spec(rot_spec(y), Some(r8_spec(z)), None, 2, t, None))
        } else {
            let kind = if x == 1 { Opcode::Bit } else if x == 2 { Opcode::Res } else { Opcode::SetBit };
            Ok(mk_spec(kind, Some(Operand::Bit(y)), Some(r8_spec(z)), 2, t, None))
        }
    } else if is_illegal(op) {
        Err(AyyError::IllegalOpcode { opcode: op })
    } else if x == 0 {
        if z == 0 {
            if y == 0 {
                Ok(mk_spec(Opcode::Nop, None, None, 1, 4, None))
            } else if y == 1 {
                Ok(mk_spec(Opcode::Ld, Some(Operand::Imm16(imm16, AddressingMode::Indirect)), Some(Operand::Reg16(Register::SP, AddressingMode::Direct)), 3, 20, None))
            } else if y == 2 {
                Ok(mk_spec(Opcode::Stop, Some(Operand::Imm8(b1, AddressingMode::Direct)), None, 2, 4, None))
            } else if y == 3 {
                Ok(mk_spec(Opcode::Jr, Some(Operand::Conditional(Condition::Always)), Some(Operand::Offset(e)), 2, 12, None))
            } else {
                Ok(mk_spec(Opcode::Jr, Some(Operand::Conditional(cond_spec((y - 4) as u8))), Some(Operand::Offset(e)), 2, 12, Some(8)))
            }
        } else if z == 1 {
            if q == 0 {
                Ok(mk_spec(Opcode::Ld, Some(Operand::Reg16(r16_spec(p, false), AddressingMode::Direct)), Some(Operand::Imm16(imm16, AddressingMode::Direct)), 3, 12, None))
            } else {
                Ok(mk_spec(Opcode::Add, Some(hl), Some(Operand::Reg16(r16_spec(p, false), AddressingMode::Direct)), 1, 8, None))
            }
        } else if z == 2 {
            let mem = if p == 0 {
                Operand::Reg16(Register::BC, AddressingMode::Indirect)
            } else if p == 1 {
                Operand::Reg16(Register::DE, AddressingMode::Indirect)
            } else if p == 2 {
                Operand::Reg16(Register::HL, AddressingMode::IndirectIncrement)
            } else {
                Operand::Reg16(Register::HL, AddressingMode::IndirectDecrement)
            };
            if q == 0 {
                Ok(mk_spec(Opcode::Ld, Some(mem), Some(a), 1, 8, None))
            } else {
                Ok(mk_spec(Opcode::Ld, Some(a), Some(mem), 1, 8, None))
            }
        } else if z == 3 {
            Ok(mk_spec(if q == 0 { Opcode::Inc } else { Opcode::Dec }, Some(Operand::Reg16(r16_spec(p, false), AddressingMode::Direct)), None, 1, 8, None))
        } else if z == 4 || z == 5 {
            Ok(mk_spec(if z == 4 { Opcode::Inc } else { Opcode::Dec }, Some(r8_spec(y)), None, 1, if y == 6 { 12 } else { 4 }, None))
        } else if z == 6 {
            Ok(mk_spec(Opcode::Ld, Some(r8_spec(y)), Some(Operand::Imm8(b1, AddressingMode::Direct)), 2, if y == 6 { 12 } else { 8 }, None))
        } else {
            let kind = if y == 0 { Opcode::Rlca } else if y == 1 { Opcode::Rrca } else if y == 2 { Opcode::Rla } else if y == 3 { Opcode::Rra } else if y == 4 { Opcode::Daa } else if y == 5 { Opcode::Cpl } else if y == 6 { Opcode::Scf } else { Opcode::Ccf };
            Ok(mk_spec(kind, None, None, 1, 4, None))
        }
    } else if x == 1 {
        if op == 0x76 {
            Ok(mk_spec(Opcode::Halt, None, None, 1, 4, None))
        } else {
            Ok(mk_spec(Opcode::Ld, Some(r8_spec(y)), Some(r8_spec(z)), 1, if y == 6 || z == 6 { 8 } else { 4 }, None))
        }
    } else if x == 2 {
        Ok(mk_spec(alu_spec(y), Some(a), Some(r8_spec(z)), 1, if z == 6 { 8 } else { 4 }, None))
    } else if z == 0 {
        if y < 4 {
            Ok(mk_spec(Opcode::Ret, Some(Operand::Conditional(cond_spec(y))), None, 1, 20, Some(8)))
        } else if y == 4 {
            Ok(mk_spec(Opcode::Ldh, Some(Operand::Imm8(b1, AddressingMode::Indirect)), Some(a), 2, 12, None))
        } else if y == 5 {
            Ok(mk_spec(Opcode::Add, Some(Operand::Reg16(Register::SP, AddressingMode::Direct)), Some(Operand::Offset(e)), 2, 16, None))
        } else if y == 6 {
            Ok(mk_spec(Opcode::Ldh, Some(a), Some(Operand::Imm8(b1, AddressingMode::Indirect)), 2, 12, None))
        } else {
            Ok(mk_spec(Opcode::Ld, Some(hl), Some(Operand::DisplacedReg16(Register::SP, e, AddressingMode::Direct)), 2, 12, None))
        }
    } else if z == 1 {
        if q == 0 {
            Ok(mk_spec(Opcode::Pop, Some(Operand::Reg16(r16_spec(p, true), AddressingMode::Direct)), None, 1, 12, None))
        } else if p == 0 {
            Ok(mk_spec(Opcode::Ret, Some(Operand::Conditional(Condition::Always)), None, 1, 16, None))
        } else if p == 1 {
            Ok(mk_spec(Opcode::Reti, None, None, 1, 16, None))
        } else if p == 2 {
            Ok(mk_spec(Opcode::Jp, Some(Operand::Conditional(Condition::Always)), Some(hl), 1, 4, None))
        } else {
            Ok(mk_spec(Opcode::Ld, Some(Operand::Reg16(Register::SP, AddressingMode::Direct)), Some(hl), 1, 8, None))
        }
    } else if z == 2 {
        if y < 4 {
            Ok(mk_spec(Opcode::Jp, Some(Operand::Conditional(cond_spec(y))), Some(Operand::Imm16(imm16, AddressingMode::Direct)), 3, 16, Some(12)))
        } else if y == 4 {
            Ok(mk_spec(Opcode::Ld, Some(Operand::Reg8(Register::C, AddressingMode::Indirect)), Some(a), 1, 8, None))
        } else if y == 5 {
            Ok(mk_spec(Opcode::Ld, Some(Operand::Imm16(imm16, AddressingMode::Indirect)), Some(a), 3, 16, None))
        } else if y == 6 {
            Ok(mk_spec(Opcode::Ld, Some(a), Some(Operand::Reg8(Register::C, AddressingMode::Indirect)), 1, 8, None))
        } else {
            Ok(mk_spec(Opcode::Ld, Some(a), Some(Operand::Imm16(imm16, AddressingMode::Indirect)), 3, 16, None))
        }
    } else if z == 3 {
        if y == 0 {
            Ok(mk_spec(Opcode::Jp, Some(Operand::Conditional(Condition::Always)), Some(Operand::Imm16(imm16, AddressingMode::Direct)), 3, 16, None))
        } else if y == 6 {
            Ok(mk_spec(Opcode::Di, None, None, 1, 4, None))
        } else if y == 7 {
            Ok(mk_spec(Opcode::Ei, None, None, 1, 4, None))
        } else {
            Err(AyyError::DecoderFailure { opcode: op, address: 0 })
        }
    } else if z == 4 {
        Ok(mk_spec(Opcode::Call, Some(Operand::Conditional(cond_spec(y))), Some(Operand::Imm16(imm16, AddressingMode::Direct)), 3, 24, Some(12)))
    } else if z == 5 {
        if q == 0 {
            Ok(mk_spec(Opcode::Push, Some(Operand::Reg16(r16_spec(p, true), AddressingMode::Direct)), None, 1, 16, None))
        } else {
            Ok(mk_spec(Opcode::Call, Some(Operand::Conditional(Condition::Always)), Some(Operand::Imm16(imm16, AddressingMode::Direct)), 3, 24, None))
        }
    } else if z == 6 {
        Ok(mk_spec(alu_spec(y), Some(a), Some(Operand::Imm8(b1, AddressingMode::Direct)), 2, 8, None))
    } else {
        Ok(mk_spec(Opcode::Rst, Some(Operand::Imm8((y * 8) as u8, AddressingMode::Direct)), None, 1, 16, None))
    }
}

pub fn signed(b: u8) -> (r: i8)
    ensures
        r == signed_spec(b),
{
    if b < 128 {
        b as i8
    } else {
        (b as i16 - 256) as i8
    }
}

fn mk(
    opcode: Opcode,
    lhs: Option<Operand>,
    rhs: Option<Operand>,
    length: usize,
    taken: usize,
    not_taken: Option<usize>,
) -> (r: Instruction)
    ensures
        r == mk_spec(opcode, lhs, rhs, length, taken, not_taken),
{
    Instruction { opcode, lhs, rhs, length, cycles: (taken, not_taken) }
}

pub fn is_illegal_opcode(op: u8) -> (r: bool)
    ensures
        r == is_illegal(op),
{
    op == 0xd3 || op == 0xdb || op == 0xdd || op == 0xe3 || op == 0xe4 || op == 0xeb || op == 0xec
        || op == 0xed || op == 0xf4 || op == 0xfc || op == 0xfd
}

/// Decodes opcode `op` with its two following bytes.
pub fn decode_opcode(op: u8, prefixed: bool, b1: u8, b2: u8) -> (r: Result<Instruction, AyyError>)
    ensures
        r == decode_spec(op, prefixed, b1, b2),
{
    let x: u8 = op / 64;
    let y: u8 = (op / 8) % 8;
    let z: u8 = op % 8;
    let p: u8 = y / 2;
    let q: u8 = y % 2;
    let imm16 = b2 as u16 * 256 + b1 as u16;
    let e = signed(b1);
    let a = Operand::Reg8(Register::A, AddressingMode::Direct);
    let hl = Operand::Reg16(Register::HL, AddressingMode::Direct);
    if prefixed {
        let t: usize = if z == 6 { if x == 1 { 12 } else { 16 } } else { 8 };
        if x == 0 {
            Ok(mk(rot(y), Some(r8(z)), None, 2, t, None))
        } else {
            let kind = if x == 1 { Opcode::Bit } else if x == 2 { Opcode::Res } else { Opcode::SetBit };
            Ok(mk(kind, Some(Operand::Bit(y)), Some(r8(z)), 2, t, None))
        }
    } else if is_illegal_opcode(op) {
        Err(AyyError::IllegalOpcode { opcode: op })
    } else if x == 0 {
        if z == 0 {
            if y == 0 {
                Ok(mk(Opcode::Nop, None, None, 1, 4, None))
            } else if y == 1 {
                Ok(mk(Opcode::Ld, Some(Operand::Imm16(imm16, AddressingMode::Indirect)), Some(Operand::Reg16(Register::SP, AddressingMode::Direct)), 3, 20, None))
            } else if y == 2 {
                Ok(mk(Opcode::Stop, Some(Operand::Imm8(b1, AddressingMode::Direct)), None, 2, 4, None))
            } else if y == 3 {
                Ok(mk(Opcode::Jr, Some(Operand::Conditional(Condition::Always)), Some(Operand::Offset(e)), 2, 12, None))
            } else {
                Ok(mk(Opcode::Jr, Some(Operand::Conditional(cond(y - 4))), Some(Operand::Offset(e)), 2, 12, Some(8)))
            }
        } else if z == 1 {
            if q == 0 {
                Ok(mk(Opcode::Ld, Some(Operand::Reg16(r16(p, false), AddressingMode::Direct)), Some(Operand::Imm16(imm16, AddressingMode::Direct)), 3, 12, None))
            } else {
                Ok(mk(Opcode::Add, Some(hl), Some(Operand::Reg16(r16(p, false), AddressingMode::Direct)), 1, 8, None))
            }
        } else if z == 2 {
            let mem = if p == 0 {
                Operand::Reg16(Register::BC, AddressingMode::Indirect)
            } else if p == 1 {
                Operand::Reg16(Register::DE, AddressingMode::Indirect)
            } else if p == 2 {
                Operand::Reg16(Register::HL, AddressingMode::IndirectIncrement)
            } else {
                Operand::Reg16(Register::HL, AddressingMode::IndirectDecrement)
            };
            if q == 0 {
                Ok(mk(Opcode::Ld, Some(mem), Some(a), 1, 8, None))
            } else {
                Ok(mk(Opcode::Ld, Some(a), Some(mem), 1, 8, None))
            }
        } else if z == 3 {
            Ok(mk(if q == 0 { Opcode::Inc } else { Opcode::Dec }, Some(Operand::Reg16(r16(p, false), AddressingMode::Direct)), None, 1, 8, None))
        } else if z == 4 || z == 5 {
            Ok(mk(if z == 4 { Opcode::Inc } else { Opcode::Dec }, Some(r8(y)), None, 1, if y == 6 { 12 } else { 4 }, None))
        } else if z == 6 {
            Ok(mk(Opcode::Ld, Some(r8(y)), Some(Operand::Imm8(b1, AddressingMode::Direct)), 2, if y == 6 { 12 } else { 8 }, None))
        } else {
            let kind = if y == 0 { Opcode::Rlca } else if y == 1 { Opcode::Rrca } else if y == 2 { Opcode::Rla } else if y == 3 { Opcode::Rra } else if y == 4 { Opcode::Daa } else if y == 5 { Opcode::Cpl } else if y == 6 { Opcode::Scf } else { Opcode::Ccf };
            Ok(mk(kind, None, None, 1, 4, None))
        }
    } else if x == 1 {
        if op == 0x76 {
            Ok(mk(Opcode::Halt, None, None, 1, 4, None))
        } else {
            Ok(mk(Opcode::Ld, Some(r8(y)), Some(r8(z)), 1, if y == 6 || z == 6 { 8 } else { 4 }, None))
        }
    } else if x == 2 {
        Ok(mk(alu(y), Some(a), Some(r8(z)), 1, if z == 6 { 8 } else { 4 }, None))
    } else if z == 0 {
        if y < 4 {
            Ok(mk(Opcode::Ret, Some(Operand::Conditional(cond(y))), None, 1, 20, Some(8)))
        } else if y == 4 {
            Ok(mk(Opcode::Ldh, Some(Operand::Imm8(b1, AddressingMode::Indirect)), Some(a), 2, 12, None))
        } else if y == 5 {
            Ok(mk(Opcode::Add, Some(Operand::Reg16(Register::SP, AddressingMode::Direct)), Some(Operand::Offset(e)), 2, 16, None))
        } else if y == 6 {
            Ok(mk(Opcode::Ldh, Some(a), Some(Operand::Imm8(b1, AddressingMode::Indirect)), 2, 12, None))
        } else {
            Ok(mk(Opcode::Ld, Some(hl), Some(Operand::DisplacedReg16(Register::SP, e, AddressingMode::Direct)), 2, 12, None))
        }
    } else if z == 1 {
        if q == 0 {
            Ok(mk(Opcode::Pop, Some(Operand::Reg16(r16(p, true), AddressingMode::Direct)), None, 1, 12, None))
        } else if p == 0 {
            Ok(mk(Opcode::Ret, Some(Operand::Conditional(Condition::Always)), None, 1, 16, None))
        } else if p == 1 {
            Ok(mk(Opcode::Reti, None, None, 1, 16, None))
        } else if p == 2 {
            Ok(mk(Opcode::Jp, Some(Operand::Conditional(Condition::Always)), Some(hl), 1, 4, None))
        } else {
            Ok(mk(Opcode::Ld, Some(Operand::Reg16(Register::SP, AddressingMode::Direct)), Some(hl), 1, 8, None))
        }
    } else if z == 2 {
        if y < 4 {
            Ok(mk(Opcode::Jp, Some(Operand::Conditional(cond(y))), Some(Operand::Imm16(imm16, AddressingMode::Direct)), 3, 16, Some(12)))
        } else if y == 4 {
            Ok(mk(Opcode::Ld, Some(Operand::Reg8(Register::C, AddressingMode::Indirect)), Some(a), 1, 8, None))
        } else if y == 5 {
            Ok(mk(Opcode::Ld, Some(Operand::Imm16(imm16, AddressingMode::Indirect)), Some(a), 3, 16, None))
        } else if y == 6 {
            Ok(mk(Opcode::Ld, Some(a), Some(Operand::Reg8(Register::C, AddressingMode::Indirect)), 1, 8, None))
        } else {
            Ok(mk(Opcode::Ld, Some(a), Some(Operand::Imm16(imm16, AddressingMode::Indirect)), 3, 16, None))
        }
    } else if z == 3 {
        if y == 0 {
            Ok(mk(Opcode::Jp, Some(Operand::Conditional(Condition::Always)), Some(Operand::Imm16(imm16, AddressingMode::Direct)), 3, 16, None))
        } else if y == 6 {
            Ok(mk(Opcode::Di, None, None, 1, 4, None))
        } else if y == 7 {
            Ok(mk(Opcode::Ei, None, None, 1, 4, None))
        } else {
            Err(AyyError::DecoderFailure { opcode: op, address: 0 })
        }
    } else if z == 4 {
        Ok(mk(Opcode::Call, Some(Operand::Conditional(cond(y))), Some(Operand::Imm16(imm16, AddressingMode::Direct)), 3, 24, Some(12)))
    } else if z == 5 {
        if q == 0 {
            Ok(mk(Opcode::Push, Some(Operand::Reg16(r16(p, true), AddressingMode::Direct)), None, 1, 16, None))
        } else {
            Ok(mk(Opcode::Call, Some(Operand::Conditional(Condition::Always)), Some(Operand::Imm16(imm16, AddressingMode::Direct)), 3, 24, None))
        }
    } else if z == 6 {
        Ok(mk(alu(y), Some(a), Some(Operand::Imm8(b1, AddressingMode::Direct)), 2, 8, None))
    } else {
        Ok(mk(Opcode::Rst, Some(Operand::Imm8(y * 8, AddressingMode::Direct)), None, 1, 16, None))
    }
}

/// The instruction stored at `pc`: the opcode byte, or the byte after a 0xcb prefix, with
/// the bytes that follow as immediates; unreadable bytes read as 0xff.
pub open spec fn decode_at(mmu: &Mmu, pc: u16) -> Result<Instruction, AyyError> {
    let op = mmu.read_or_ff(pc);
    let b1 = mmu.read_or_ff(pc.wrapping_add(1));
    let b2 = mmu.read_or_ff(pc.wrapping_add(2));
    if op == 0xcb {
        decode_spec(b1, true, 0, 0)
    } else {
        decode_spec(op, false, b1, b2)
    }
}

/// The instruction decoder.
pub struct Sm83 {}

impl Sm83 {
    pub fn new() -> Sm83 {
        Sm83 {}
    }

    /// Decodes the instruction at `pc`: the opcode byte, or the byte after a 0xcb prefix,
    /// with the bytes that follow as immediates. Unreadable bytes read as 0xff.
    pub fn decode(&self, mmu: &Mmu, pc: u16) -> (r: Result<Instruction, AyyError>)
        requires
            mmu.wf(),
        ensures
            r == decode_at(mmu, pc),
    {
        let op = mmu.read_unchecked(pc);
        let b1 = mmu.read_unchecked(pc.wrapping_add(1));
        if op == 0xcb {
            decode_opcode(b1, true, 0, 0)
        } else {
            let b2 = mmu.read_unchecked(pc.wrapping_add(2));
            decode_opcode(op, false, b1, b2)
        }
    }
}

/// Every decoded instruction is 1 to 3 bytes long and takes at most 24 T-cycles, taken
/// or not.
pub proof fn lemma_decode_bounds(op: u8, prefixed: bool, b1: u8, b2: u8)
    ensures
        decode_spec(op, prefixed, b1, b2) matches Ok(ins) ==> 1 <= ins.length <= 3 && ins.cycles.0
            <= 24 && (ins.cycles.1 matches Some(n) ==> n <= 24),
{
}

/// Apart from the 0xcb prefix itself, only the eleven illegal opcodes fail to decode;
/// every prefixed opcode decodes.
pub proof fn lemma_decode_total(op: u8, b1: u8, b2: u8)
    ensures
        op != 0xcb ==> (decode_spec(op, false, b1, b2) is Err <==> is_illegal(op)),
        decode_spec(op, true, b1, b2) is Ok,
{
    let x = op / 64;
    let y = (op / 8) % 8;
    let z = op % 8;
    assert(x <= 3);
    if x == 3 && z == 3 && 1 <= y <= 5 {
        assert(op == 0xc0 + y * 8 + 3) by (nonlinear_arith)
            requires x == op / 64, y == (op / 8) % 8, z == op % 8, x == 3, z == 3;
        assert(op == 0xcb || is_illegal(op));
    }
}

pub(crate) proof fn lemma_decoded_cycles(ins: Instruction, op: u8, b1: u8, b2: u8)
    requires
        (op == 0xcb && Ok::<Instruction, AyyError>(ins) == decode_spec(b1, true, 0, 0)) || (op != 0xcb
            && Ok::<Instruction, AyyError>(ins) == decode_spec(op, false, b1, b2)),
    ensures
        ins.cycles.0 <= 24,
        ins.cycles.1 matches Some(n) ==> n <= 24,
{
    lemma_decode_bounds(b1, true, 0, 0);
    lemma_decode_bounds(op, false, b1, b2);
}

} // verus!
