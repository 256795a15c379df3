//! Instructions and their decoder.
//!
//! An instruction is an opcode byte followed by up to four more bytes: a
//! ModR/M byte with its displacement, or an immediate. The decoder reads
//! the opcode byte and the bytes after it and gives the instruction, or
//! says why there is none.

use vstd::prelude::*;
use vstd::std_specs::convert::TryFromSpecImpl;
use crate::error::VmError;
use crate::modrm::{
    decode_operand, decode_operand_from_single_mod_rm_opcode, decode_operands,
    decode_operands_from_mod_rm_opcode, displacement_len, opcode_is_8bit, operand_len, reg_field,
    rm_field, Operand,
};
use crate::register::Register;
use crate::word::{
    lemma_byte_fields, lemma_join_bytes, lemma_signed_casts, make_word, signed_byte, signed_word,
};

verus! {

/// The instruction families, each named by the first opcode byte of its
/// range.
#[allow(non_camel_case_types)]
#[derive(Debug, PartialEq, Eq, Clone, Copy, Hash)]
pub enum Opcode {
    /// 90: no operation.
    NOOP,
    /// 50-57: push a word register.
    PUSH,
    /// 58-5F: pop a word register.
    POP,
    /// B0-BF: move an immediate to a register.
    MOV_IMM,
    /// 88-8B: move between a register and a register or memory.
    MOV_REG_MEM,
    /// A0-A3: move between the accumulator and a direct address.
    MOV_ACC_MEM,
    /// 00-03: add.
    ADD,
    /// 04: add an immediate byte to AL.
    ADD_ACC_8,
    /// 05: add an immediate word to AX.
    ADD_ACC_16,
    /// 28-2B: subtract.
    SUB,
    /// 2C: subtract an immediate byte from AL.
    SUB_ACC_8,
    /// 2D: subtract an immediate word from AX.
    SUB_ACC_16,
    /// 40-47: increment a word register.
    INC,
    /// 48-4F: decrement a word register.
    DEC,
    /// F6: multiply or divide by a byte operand.
    MUL_DIV_8,
    /// F7: multiply or divide by a word operand.
    MUL_DIV_16,
    /// 20-23: bitwise and.
    AND,
    /// 24: and an immediate byte into AL.
    AND_ACC_8,
    /// 25: and an immediate word into AX.
    AND_ACC_16,
    /// 08-0B: bitwise or.
    OR,
    /// 0C: or an immediate byte into AL.
    OR_ACC_8,
    /// 0D: or an immediate word into AX.
    OR_ACC_16,
    /// E9: jump by a signed word.
    JMP,
    /// EA: jump to a segment and offset.
    JMP_FAR,
    /// EB: jump by a signed byte.
    JMP_SHORT,
    /// 74: jump by a signed byte if ZERO is set.
    JZ,
    /// 75: jump by a signed byte if ZERO is clear.
    JNZ,
}

impl Opcode {
    /// The family that an opcode byte belongs to, if it belongs to one.
    pub open spec fn classify(byte: u8) -> Option<Opcode> {
        if byte <= 0x03 {
            Some(Opcode::ADD)
        } else if byte == 0x04 {
            Some(Opcode::ADD_ACC_8)
        } else if byte == 0x05 {
            Some(Opcode::ADD_ACC_16)
        } else if 0x08 <= byte <= 0x0B {
            Some(Opcode::OR)
        } else if byte == 0x0C {
            Some(Opcode::OR_ACC_8)
        } else if byte == 0x0D {
            Some(Opcode::OR_ACC_16)
        } else if 0x20 <= byte <= 0x23 {
            Some(Opcode::AND)
        } else if byte == 0x24 {
            Some(Opcode::AND_ACC_8)
        } else if byte == 0x25 {
            Some(Opcode::AND_ACC_16)
        } else if 0x28 <= byte <= 0x2B {
            Some(Opcode::SUB)
        } else if byte == 0x2C {
            Some(Opcode::SUB_ACC_8)
        } else if byte == 0x2D {
            Some(Opcode::SUB_ACC_16)
        } else if 0x40 <= byte <= 0x47 {
            Some(Opcode::INC)
        } else if 0x48 <= byte <= 0x4F {
            Some(Opcode::DEC)
        } else if 0x50 <= byte <= 0x57 {
            Some(Opcode::PUSH)
        } else if 0x58 <= byte <= 0x5F {
            Some(Opcode::POP)
        } else if byte == 0x74 {
            Some(Opcode::JZ)
        } else if byte == 0x75 {
            Some(Opcode::JNZ)
        } else if 0x88 <= byte <= 0x8B {
            Some(Opcode::MOV_REG_MEM)
        } else if byte == 0x90 {
            Some(Opcode::NOOP)
        } else if 0xA0 <= byte <= 0xA3 {
            Some(Opcode::MOV_ACC_MEM)
        } else if 0xB0 <= byte <= 0xBF {
            Some(Opcode::MOV_IMM)
        } else if byte == 0xE9 {
            Some(Opcode::JMP)
        } else if byte == 0xEA {
            Some(Opcode::JMP_FAR)
        } else if byte == 0xEB {
            Some(Opcode::JMP_SHORT)
        } else if byte == 0xF6 {
            Some(Opcode::MUL_DIV_8)
        } else if byte == 0xF7 {
            Some(Opcode::MUL_DIV_16)
        } else {
            None
        }
    }

    /// The first opcode byte of the family's range.
    pub open spec fn spec_first_byte(self) -> u8 {
        match self {
            Opcode::NOOP => 0x90,
            Opcode::PUSH => 0x50,
            Opcode::POP => 0x58,
            Opcode::MOV_IMM => 0xB0,
            Opcode::MOV_REG_MEM => 0x88,
            Opcode::MOV_ACC_MEM => 0xA0,
            Opcode::ADD => 0x00,
            Opcode::ADD_ACC_8 => 0x04,
            Opcode::ADD_ACC_16 => 0x05,
            Opcode::SUB => 0x28,
            Opcode::SUB_ACC_8 => 0x2C,
            Opcode::SUB_ACC_16 => 0x2D,
            Opcode::INC => 0x40,
            Opcode::DEC => 0x48,
            Opcode::MUL_DIV_8 => 0xF6,
            Opcode::MUL_DIV_16 => 0xF7,
            Opcode::AND => 0x20,
            Opcode::AND_ACC_8 => 0x24,
            Opcode::AND_ACC_16 => 0x25,
            Opcode::OR => 0x08,
            Opcode::OR_ACC_8 => 0x0C,
            Opcode::OR_ACC_16 => 0x0D,
            Opcode::JMP => 0xE9,
            Opcode::JMP_FAR => 0xEA,
            Opcode::JMP_SHORT => 0xEB,
            Opcode::JZ => 0x74,
            Opcode::JNZ => 0x75,
        }
    }

    /// The first opcode byte of the family's range.
    #[verifier::when_used_as_spec(spec_first_byte)]
    pub fn first_byte(self) -> (byte: u8)
        ensures
            byte == self.spec_first_byte(),
            Opcode::classify(byte) == Some(self),
    {
        match self {
            Opcode::NOOP => 0x90,
            Opcode::PUSH => 0x50,
            Opcode::POP => 0x58,
            Opcode::MOV_IMM => 0xB0,
            Opcode::MOV_REG_MEM => 0x88,
            Opcode::MOV_ACC_MEM => 0xA0,
            Opcode::ADD => 0x00,
            Opcode::ADD_ACC_8 => 0x04,
            Opcode::ADD_ACC_16 => 0x05,
            Opcode::SUB => 0x28,
            Opcode::SUB_ACC_8 => 0x2C,
            Opcode::SUB_ACC_16 => 0x2D,
            Opcode::INC => 0x40,
            Opcode::DEC => 0x48,
            Opcode::MUL_DIV_8 => 0xF6,
            Opcode::MUL_DIV_16 => 0xF7,
            Opcode::AND => 0x20,
            Opcode::AND_ACC_8 => 0x24,
            Opcode::AND_ACC_16 => 0x25,
            Opcode::OR => 0x08,
            Opcode::OR_ACC_8 => 0x0C,
            Opcode::OR_ACC_16 => 0x0D,
            Opcode::JMP => 0xE9,
            Opcode::JMP_FAR => 0xEA,
            Opcode::JMP_SHORT => 0xEB,
            Opcode::JZ => 0x74,
            Opcode::JNZ => 0x75,
        }
    }
}

impl TryFrom<u8> for Opcode {
    type Error = VmError;

    fn try_from(value: u8) -> (r: Result<Self, Self::Error>) {
        if value <= 0x03 {
            Ok(Opcode::ADD)
        } else if value == 0x04 {
            Ok(Opcode::ADD_ACC_8)
        } else if value == 0x05 {
            Ok(Opcode::ADD_ACC_16)
        } else if 0x08 <= value && value <= 0x0B {
            Ok(Opcode::OR)
        } else if value == 0x0C {
            Ok(Opcode::OR_ACC_8)
        } else if value == 0x0D {
            Ok(Opcode::OR_ACC_16)
        } else if 0x20 <= value && value <= 0x23 {
            Ok(Opcode::AND)
        } else if value == 0x24 {
            Ok(Opcode::AND_ACC_8)
        } else if value == 0x25 {
            Ok(Opcode::AND_ACC_16)
        } else if 0x28 <= value && value <= 0x2B {
            Ok(Opcode::SUB)
        } else if value == 0x2C {
            Ok(Opcode::SUB_ACC_8)
        } else if value == 0x2D {
            Ok(Opcode::SUB_ACC_16)
        } else if 0x40 <= value && value <= 0x47 {
            Ok(Opcode::INC)
        } else if 0x48 <= value && value <= 0x4F {
            Ok(Opcode::DEC)
        } else if 0x50 <= value && value <= 0x57 {
            Ok(Opcode::PUSH)
        } else if 0x58 <= value && value <= 0x5F {
            Ok(Opcode::POP)
        } else if value == 0x74 {
            Ok(Opcode::JZ)
        } else if value == 0x75 {
            Ok(Opcode::JNZ)
        } else if 0x88 <= value && value <= 0x8B {
            Ok(Opcode::MOV_REG_MEM)
        } else if value == 0x90 {
            Ok(Opcode::NOOP)
        } else if 0xA0 <= value && value <= 0xA3 {
            Ok(Opcode::MOV_ACC_MEM)
        } else if 0xB0 <= value && value <= 0xBF {
            Ok(Opcode::MOV_IMM)
        } else if value == 0xE9 {
            Ok(Opcode::JMP)
        } else if value == 0xEA {
            Ok(Opcode::JMP_FAR)
        } else if value == 0xEB {
            Ok(Opcode::JMP_SHORT)
        } else if value == 0xF6 {
            Ok(Opcode::MUL_DIV_8)
        } else if value == 0xF7 {
            Ok(Opcode::MUL_DIV_16)
        } else {
            Err(VmError::InvalidOpcode(value))
        }
    }
}

impl TryFromSpecImpl<u8> for Opcode {
    open spec fn obeys_try_from_spec() -> bool {
        true
    }

    open spec fn try_from_spec(value: u8) -> Result<Self, Self::Error> {
        match Opcode::classify(value) {
            Some(opcode) => Ok(opcode),
            None => Err(VmError::InvalidOpcode(value)),
        }
    }
}

/// One side of a move between the accumulator and a direct address.
#[derive(Debug, PartialEq, Eq, Clone, Copy, Hash)]
pub enum MovMemOperand {
    Register(Register),
    MemoryPtr(u16),
}

/// A decoded instruction. Two-operand forms hold destination, source and
/// the width bit of their opcode, which is true for byte operands. The
/// decoder keeps that bit in agreement with the operands (`width_agrees`);
/// execution goes by the width of the register operand.
///
/// Relative jumps hold their offset as a signed number: the bytes of the
/// encoding are read in two's complement, and the offset counts from the
/// address of the jump itself.
#[derive(Debug, PartialEq, Eq, Clone, Copy, Hash)]
pub enum Instruction {
    Noop,
    MovImm8(Register, u8),
    MovImm16(Register, u16),
    Mov(Operand, Operand, bool),
    MovAccMem(MovMemOperand, MovMemOperand),
    Push(Register),
    Pop(Register),
    Add(Operand, Operand, bool),
    AddAcc8(u8),
    AddAcc16(u16),
    Sub(Operand, Operand, bool),
    SubAcc8(u8),
    SubAcc16(u16),
    Inc(Register),
    Dec(Register),
    Mul8(Operand),
    Mul16(Operand),
    Div8(Operand),
    Div16(Operand),
    And(Operand, Operand, bool),
    AndAcc8(u8),
    AndAcc16(u16),
    Or(Operand, Operand, bool),
    OrAcc8(u8),
    OrAcc16(u16),
    JmpShort(i8),
    JmpNear(i16),
    JmpFar(u16, u16),
    Jz(i8),
    Jnz(i8),
}

/// How many bytes after the opcode byte the encoding takes: a ModR/M
/// byte with its displacement, or an immediate. Zero for a byte that is
/// no opcode.
pub open spec fn operand_bytes(opcode: u8, bytes: Seq<u8>) -> nat {
    match Opcode::classify(opcode) {
        None => 0,
        Some(family) => match family {
            Opcode::NOOP | Opcode::PUSH | Opcode::POP | Opcode::INC | Opcode::DEC => 0,
            Opcode::MOV_IMM => if (opcode / 8) % 2 == 0 {
                1
            } else {
                2
            },
            Opcode::MOV_REG_MEM
            | Opcode::ADD
            | Opcode::SUB
            | Opcode::AND
            | Opcode::OR
            | Opcode::MUL_DIV_8
            | Opcode::MUL_DIV_16 => operand_len(bytes),
            Opcode::ADD_ACC_8
            | Opcode::SUB_ACC_8
            | Opcode::AND_ACC_8
            | Opcode::OR_ACC_8
            | Opcode::JMP_SHORT
            | Opcode::JZ
            | Opcode::JNZ => 1,
            Opcode::MOV_ACC_MEM
            | Opcode::ADD_ACC_16
            | Opcode::SUB_ACC_16
            | Opcode::AND_ACC_16
            | Opcode::OR_ACC_16
            | Opcode::JMP => 2,
            Opcode::JMP_FAR => 4,
        },
    }
}

/// The instruction that an opcode byte of the given family and the bytes
/// after it encode, for bytes that hold the whole encoding.
pub open spec fn decode_family(family: Opcode, opcode: u8, bytes: Seq<u8>) -> Instruction
    recommends
        Opcode::classify(opcode) == Some(family),
        operand_bytes(opcode, bytes) <= bytes.len(),
{
    let code = (opcode % 8) as u8;
    let word = make_word(bytes[0], bytes[1]);
    let operands = decode_operands(opcode, bytes).unwrap();
    let accumulator = if opcode_is_8bit(opcode) {
        Register::AL
    } else {
        Register::AX
    };
    match family {
        Opcode::NOOP => Instruction::Noop,
        Opcode::PUSH => Instruction::Push(Register::from_code(code, false).unwrap()),
        Opcode::POP => Instruction::Pop(Register::from_code(code, false).unwrap()),
        Opcode::INC => Instruction::Inc(Register::from_code(code, false).unwrap()),
        Opcode::DEC => Instruction::Dec(Register::from_code(code, false).unwrap()),
        Opcode::MOV_IMM => if (opcode / 8) % 2 == 0 {
            Instruction::MovImm8(Register::from_code(code, true).unwrap(), bytes[0])
        } else {
            Instruction::MovImm16(Register::from_code(code, false).unwrap(), word)
        },
        Opcode::MOV_REG_MEM => Instruction::Mov(operands.0, operands.1, operands.2),
        Opcode::ADD => Instruction::Add(operands.0, operands.1, operands.2),
        Opcode::SUB => Instruction::Sub(operands.0, operands.1, operands.2),
        Opcode::AND => Instruction::And(operands.0, operands.1, operands.2),
        Opcode::OR => Instruction::Or(operands.0, operands.1, operands.2),
        // In the accumulator moves a clear direction bit makes the register
        // the destination.
        Opcode::MOV_ACC_MEM => if (opcode / 2) % 2 == 0 {
            Instruction::MovAccMem(
                MovMemOperand::Register(accumulator),
                MovMemOperand::MemoryPtr(word),
            )
        } else {
            Instruction::MovAccMem(
                MovMemOperand::MemoryPtr(word),
                MovMemOperand::Register(accumulator),
            )
        },
        Opcode::ADD_ACC_8 => Instruction::AddAcc8(bytes[0]),
        Opcode::ADD_ACC_16 => Instruction::AddAcc16(word),
        Opcode::SUB_ACC_8 => Instruction::SubAcc8(bytes[0]),
        Opcode::SUB_ACC_16 => Instruction::SubAcc16(word),
        Opcode::AND_ACC_8 => Instruction::AndAcc8(bytes[0]),
        Opcode::AND_ACC_16 => Instruction::AndAcc16(word),
        Opcode::OR_ACC_8 => Instruction::OrAcc8(bytes[0]),
        Opcode::OR_ACC_16 => Instruction::OrAcc16(word),
        Opcode::MUL_DIV_8 => if reg_field(bytes[0]) == 6 {
            Instruction::Div8(decode_operand(bytes, true).unwrap())
        } else {
            Instruction::Mul8(decode_operand(bytes, true).unwrap())
        },
        Opcode::MUL_DIV_16 => if reg_field(bytes[0]) == 6 {
            Instruction::Div16(decode_operand(bytes, false).unwrap())
        } else {
            Instruction::Mul16(decode_operand(bytes, false).unwrap())
        },
        Opcode::JMP => Instruction::JmpNear(signed_word(word)),
        Opcode::JMP_FAR => Instruction::JmpFar(make_word(bytes[2], bytes[3]), word),
        Opcode::JMP_SHORT => Instruction::JmpShort(signed_byte(bytes[0])),
        Opcode::JZ => Instruction::Jz(signed_byte(bytes[0])),
        Opcode::JNZ => Instruction::Jnz(signed_byte(bytes[0])),
    }
}

/// What an opcode byte and the bytes after it decode to: the instruction;
/// `InvalidOpcode` for a byte that is no opcode; `MemoryBounds` where the
/// bytes end before the encoding does.
pub open spec fn decode(opcode: u8, bytes: Seq<u8>) -> Result<Instruction, VmError> {
    match Opcode::classify(opcode) {
        None => Err(VmError::InvalidOpcode(opcode)),
        Some(family) => if bytes.len() < operand_bytes(opcode, bytes) {
            Err(VmError::MemoryBounds)
        } else {
            Ok(decode_family(family, opcode, bytes))
        },
    }
}

impl Instruction {
    /// The number of bytes that the instruction's encoding takes, opcode
    /// byte included.
    pub open spec fn size(self) -> nat {
        match self {
            Instruction::Noop
            | Instruction::Push(_)
            | Instruction::Pop(_)
            | Instruction::Inc(_)
            | Instruction::Dec(_) => 1,
            Instruction::MovImm8(_, _)
            | Instruction::AddAcc8(_)
            | Instruction::SubAcc8(_)
            | Instruction::AndAcc8(_)
            | Instruction::OrAcc8(_)
            | Instruction::JmpShort(_)
            | Instruction::Jz(_)
            | Instruction::Jnz(_) => 2,
            Instruction::MovImm16(_, _)
            | Instruction::MovAccMem(_, _)
            | Instruction::AddAcc16(_)
            | Instruction::SubAcc16(_)
            | Instruction::AndAcc16(_)
            | Instruction::OrAcc16(_)
            | Instruction::JmpNear(_) => 3,
            Instruction::JmpFar(_, _) => 5,
            Instruction::Mov(dest, src, _)
            | Instruction::Add(dest, src, _)
            | Instruction::Sub(dest, src, _)
            | Instruction::And(dest, src, _)
            | Instruction::Or(dest, src, _) => 2 + dest.displacement_len() + src.displacement_len(),
            Instruction::Mul8(operand)
            | Instruction::Mul16(operand)
            | Instruction::Div8(operand)
            | Instruction::Div16(operand) => 2 + operand.displacement_len(),
        }
    }

    /// Whether the instruction has a shape that execution accepts: a
    /// two-operand form names at most one memory operand, and a move
    /// between accumulator and memory has a register on one side and an
    /// address on the other.
    pub open spec fn well_formed(self) -> bool {
        match self {
            Instruction::Mov(dest, src, _)
            | Instruction::Add(dest, src, _)
            | Instruction::Sub(dest, src, _)
            | Instruction::And(dest, src, _)
            | Instruction::Or(dest, src, _) => !(dest is Memory && src is Memory),
            Instruction::MovAccMem(dest, src) => (dest is Register && src is MemoryPtr) || (dest
                is MemoryPtr && src is Register),
            _ => true,
        }
    }

    /// The register that the instruction names as the place of its
    /// result, if it names one. Registers that an instruction writes by
    /// its nature (SP for the stack, AX and DX for products and
    /// quotients, IP for jumps, the flags) are not named and not meant.
    pub open spec fn destination_register(self) -> Option<Register> {
        match self {
            Instruction::MovImm8(register, _)
            | Instruction::MovImm16(register, _)
            | Instruction::Pop(register)
            | Instruction::Inc(register)
            | Instruction::Dec(register)
            | Instruction::MovAccMem(MovMemOperand::Register(register), _)
            | Instruction::Mov(Operand::Register(register), _, _)
            | Instruction::Add(Operand::Register(register), _, _)
            | Instruction::Sub(Operand::Register(register), _, _)
            | Instruction::And(Operand::Register(register), _, _)
            | Instruction::Or(Operand::Register(register), _, _) => Some(register),
            _ => None,
        }
    }

    /// Whether the width bit that a two-operand instruction carries
    /// agrees with the width of its register operand. Instructions of
    /// other forms carry no width bit.
    pub open spec fn width_agrees(self) -> bool {
        match self {
            Instruction::Mov(dest, src, is_8bit)
            | Instruction::Add(dest, src, is_8bit)
            | Instruction::Sub(dest, src, is_8bit)
            | Instruction::And(dest, src, is_8bit)
            | Instruction::Or(dest, src, is_8bit) => {
                &&& dest matches Operand::Register(register) ==> register.is_8bit() == is_8bit
                &&& src matches Operand::Register(register) ==> register.is_8bit() == is_8bit
            },
            _ => true,
        }
    }

    /// Decodes one instruction from its opcode byte and the bytes that
    /// follow it. Bytes past the end of the encoding are not read.
    pub fn from_bytes(opcode_byte: u8, memory_slice: &[u8]) -> (r: Result<Self, VmError>)
        ensures
            r == decode(opcode_byte, memory_slice@),
            r is Ok <==> Opcode::classify(opcode_byte) is Some && operand_bytes(
                opcode_byte,
                memory_slice@,
            ) <= memory_slice@.len(),
            r is Err ==> r == Err::<Self, VmError>(
                if Opcode::classify(opcode_byte) is None {
                    VmError::InvalidOpcode(opcode_byte)
                } else {
                    VmError::MemoryBounds
                },
            ),
            r matches Ok(instruction) ==> instruction.size() == 1 + operand_bytes(
                opcode_byte,
                memory_slice@,
            ) && instruction.well_formed(),
    {
        proof {
            if decode(opcode_byte, memory_slice@) is Ok {
                lemma_decode_consumes_size(opcode_byte, memory_slice@, memory_slice@);
                lemma_decoded_is_well_formed(opcode_byte, memory_slice@);
            }
        }
        let opcode = match Opcode::try_from(opcode_byte) {
            Ok(opcode) => opcode,
            Err(e) => {
                return Err(e);
            },
        };
        proof {
            lemma_byte_fields(opcode_byte);
            if memory_slice@.len() >= 2 {
                lemma_join_bytes(memory_slice@[0], memory_slice@[1]);
            }
            if memory_slice@.len() >= 4 {
                lemma_join_bytes(memory_slice@[2], memory_slice@[3]);
            }
        }

        match opcode {
            Opcode::NOOP => Ok(Self::Noop),
            Opcode::MOV_IMM => {
                let bits_8 = (opcode_byte & 0b0000_1000) == 0;
                let reg_bits = opcode_byte & 0b0000_0111;
                let reg = Register::from_register_code(reg_bits, bits_8)?;

                if bits_8 {
                    if memory_slice.len() < 1 {
                        return Err(VmError::MemoryBounds);
                    }
                    Ok(Self::MovImm8(reg, memory_slice[0]))
                } else {
                    let val = read_word(memory_slice, 0)?;
                    Ok(Self::MovImm16(reg, val))
                }
            },
            Opcode::MOV_REG_MEM => {
                let operands = decode_operands_from_mod_rm_opcode(opcode_byte, memory_slice)?;
                Ok(Self::Mov(operands.0, operands.1, operands.2))
            },
            Opcode::MOV_ACC_MEM => {
                let is_reg_target = opcode_byte & 0b0000_0010 == 0;
                let is_8_bit = opcode_byte & 0b0000_0001 == 0;

                let register = if is_8_bit {
                    Register::AL
                } else {
                    Register::AX
                };

                let mem_ptr = read_word(memory_slice, 0)?;
                if is_reg_target {
                    Ok(
                        Self::MovAccMem(
                            MovMemOperand::Register(register),
                            MovMemOperand::MemoryPtr(mem_ptr),
                        ),
                    )
                } else {
                    Ok(
                        Self::MovAccMem(
                            MovMemOperand::MemoryPtr(mem_ptr),
                            MovMemOperand::Register(register),
                        ),
                    )
                }
            },
            Opcode::PUSH => {
                Ok(Self::Push(Register::from_register_code(opcode_byte & 0b0000_0111, false)?))
            },
            Opcode::POP => {
                Ok(Self::Pop(Register::from_register_code(opcode_byte & 0b0000_0111, false)?))
            },
            Opcode::ADD => {
                let operands = decode_operands_from_mod_rm_opcode(opcode_byte, memory_slice)?;
                Ok(Self::Add(operands.0, operands.1, operands.2))
            },
            Opcode::ADD_ACC_8 => Ok(Self::AddAcc8(read_byte(memory_slice, 0)?)),
            Opcode::ADD_ACC_16 => Ok(Self::AddAcc16(read_word(memory_slice, 0)?)),
            Opcode::SUB => {
                let operands = decode_operands_from_mod_rm_opcode(opcode_byte, memory_slice)?;
                Ok(Self::Sub(operands.0, operands.1, operands.2))
            },
            Opcode::SUB_ACC_8 => Ok(Self::SubAcc8(read_byte(memory_slice, 0)?)),
            Opcode::SUB_ACC_16 => Ok(Self::SubAcc16(read_word(memory_slice, 0)?)),
            Opcode::INC => {
                let reg_bits = opcode_byte & 0b0000_0111;
                Ok(Self::Inc(Register::from_register_code(reg_bits, false)?))
            },
            Opcode::DEC => {
                let reg_bits = opcode_byte & 0b0000_0111;
                Ok(Self::Dec(Register::from_register_code(reg_bits, false)?))
            },
            Opcode::AND => {
                let operands = decode_operands_from_mod_rm_opcode(opcode_byte, memory_slice)?;
                Ok(Self::And(operands.0, operands.1, operands.2))
            },
            Opcode::AND_ACC_8 => Ok(Self::AndAcc8(read_byte(memory_slice, 0)?)),
            Opcode::AND_ACC_16 => Ok(Self::AndAcc16(read_word(memory_slice, 0)?)),
            Opcode::OR => {
                let operands = decode_operands_from_mod_rm_opcode(opcode_byte, memory_slice)?;
                Ok(Self::Or(operands.0, operands.1, operands.2))
            },
            Opcode::OR_ACC_8 => Ok(Self::OrAcc8(read_byte(memory_slice, 0)?)),
            Opcode::OR_ACC_16 => Ok(Self::OrAcc16(read_word(memory_slice, 0)?)),
            Opcode::MUL_DIV_8 => {
                let operand = decode_operand_from_single_mod_rm_opcode(memory_slice, true)?;
                proof {
                    lemma_byte_fields(memory_slice@[0]);
                }
                if memory_slice[0] & 0b0011_1000 == 0b0011_0000 {
                    Ok(Self::Div8(operand))
                } else {
                    Ok(Self::Mul8(operand))
                }
            },
            Opcode::MUL_DIV_16 => {
                let operand = decode_operand_from_single_mod_rm_opcode(memory_slice, false)?;
                proof {
                    lemma_byte_fields(memory_slice@[0]);
                }
                if memory_slice[0] & 0b0011_1000 == 0b0011_0000 {
                    Ok(Self::Div16(operand))
                } else {
                    Ok(Self::Mul16(operand))
                }
            },
            Opcode::JMP => {
                let offset = read_word(memory_slice, 0)?;
                proof {
                    lemma_signed_casts(0, offset);
                }
                Ok(Self::JmpNear(offset as i16))
            },
            Opcode::JMP_FAR => {
                let offset = read_word(memory_slice, 0)?;
                let segment = read_word(memory_slice, 2)?;
                Ok(Self::JmpFar(segment, offset))
            },
            Opcode::JMP_SHORT => Ok(Self::JmpShort(read_signed_byte(memory_slice)?)),
            Opcode::JZ => Ok(Self::Jz(read_signed_byte(memory_slice)?)),
            Opcode::JNZ => Ok(Self::Jnz(read_signed_byte(memory_slice)?)),
        }
    }

    /// The length of the instruction's encoding in bytes, opcode byte
    /// included.
    pub fn get_instr_size(&self) -> (size: u16)
        ensures
            size == self.size(),
    {
        match self {
            Self::Noop | Self::Push(_) | Self::Pop(_) | Self::Inc(_) | Self::Dec(_) => 1,
            Self::MovImm8(..)
            | Self::AddAcc8(_)
            | Self::SubAcc8(_)
            | Self::AndAcc8(_)
            | Self::OrAcc8(_)
            | Self::JmpShort(_)
            | Self::Jz(_)
            | Self::Jnz(_) => 2,
            Self::MovImm16(..)
            | Self::MovAccMem(_, _)
            | Self::AddAcc16(_)
            | Self::SubAcc16(_)
            | Self::AndAcc16(_)
            | Self::OrAcc16(_)
            | Self::JmpNear(_) => 3,
            Self::JmpFar(..) => 5,
            Self::Mov(operand1, operand2, _)
            | Self::Add(operand1, operand2, _)
            | Self::Sub(operand1, operand2, _)
            | Self::And(operand1, operand2, _)
            | Self::Or(operand1, operand2, _) => 2 + displacement_size(operand1)
                + displacement_size(operand2),
            Self::Mul8(operand) | Self::Mul16(operand) | Self::Div8(operand) | Self::Div16(
                operand,
            ) => 2 + displacement_size(operand),
        }
    }
}

/// The displacement bytes that an operand adds to its instruction.
fn displacement_size(operand: &Operand) -> (size: u16)
    ensures
        size == operand.displacement_len(),
{
    match operand {
        Operand::Memory(address) => address.displacement_size as u16,
        Operand::Register(_) => 0,
    }
}

/// The immediate byte at `at`.
fn read_byte(bytes: &[u8], at: usize) -> (r: Result<u8, VmError>)
    requires
        at < 8,
    ensures
        r == if at < bytes@.len() {
            Ok::<u8, VmError>(bytes@[at as int])
        } else {
            Err(VmError::MemoryBounds)
        },
{
    if bytes.len() <= at {
        return Err(VmError::MemoryBounds);
    }
    Ok(bytes[at])
}

/// The immediate byte that follows the opcode, read as a signed number.
fn read_signed_byte(bytes: &[u8]) -> (r: Result<i8, VmError>)
    ensures
        r == if 0 < bytes@.len() {
            Ok::<i8, VmError>(signed_byte(bytes@[0]))
        } else {
            Err(VmError::MemoryBounds)
        },
{
    let byte = read_byte(bytes, 0)?;
    proof {
        lemma_signed_casts(byte, 0);
    }
    Ok(byte as i8)
}

/// The immediate word at `at`, low byte first.
fn read_word(bytes: &[u8], at: usize) -> (r: Result<u16, VmError>)
    requires
        at < 8,
    ensures
        r == if at + 1 < bytes@.len() {
            Ok::<u16, VmError>(make_word(bytes@[at as int], bytes@[at + 1]))
        } else {
            Err(VmError::MemoryBounds)
        },
{
    if bytes.len() <= at + 1 {
        return Err(VmError::MemoryBounds);
    }
    proof {
        lemma_join_bytes(bytes@[at as int], bytes@[at + 1]);
    }
    Ok(((bytes[at + 1] as u16) << 8) | (bytes[at] as u16))
}

/// The size of a decoded instruction is the number of bytes that its
/// decoding consumed: the opcode byte and `operand_bytes` more. Bytes
/// after those have no part in the result.
pub proof fn lemma_decode_consumes_size(opcode: u8, bytes: Seq<u8>, other: Seq<u8>)
    requires
        decode(opcode, bytes) is Ok,
        other.len() >= operand_bytes(opcode, bytes),
        forall|i: int| 0 <= i < operand_bytes(opcode, bytes) ==> other[i] == bytes[i],
    ensures
        decode(opcode, bytes).unwrap().size() == 1 + operand_bytes(opcode, bytes),
        1 <= decode(opcode, bytes).unwrap().size() <= 5,
        decode(opcode, other) == decode(opcode, bytes),
{
    lemma_decoded_operands(opcode, bytes);
    lemma_decoded_operands(opcode, other);
}

/// What decoding gives is fit to run: it has a shape that execution
/// accepts, its width bit agrees with its registers, and the register it
/// names as destination is one of the eight that a register code can
/// select, so never IP, the flags or a segment register.
pub proof fn lemma_decoded_is_well_formed(opcode: u8, bytes: Seq<u8>)
    requires
        decode(opcode, bytes) is Ok,
    ensures
        decode(opcode, bytes).unwrap().well_formed(),
        decode(opcode, bytes).unwrap().width_agrees(),
        decode(opcode, bytes).unwrap().destination_register() matches Some(register)
            ==> register.is_general(),
{
    lemma_decoded_operands(opcode, bytes);
}

/// The register codes inside an opcode byte and a ModR/M byte are three
/// bits wide, so each selects a register.
proof fn lemma_decoded_operands(opcode: u8, bytes: Seq<u8>)
    ensures
        Register::from_code((opcode % 8) as u8, true) is Some,
        Register::from_code((opcode % 8) as u8, false) is Some,
        Register::from_code((opcode % 8) as u8, true).unwrap().is_8bit(),
        !Register::from_code((opcode % 8) as u8, false).unwrap().is_8bit(),
        Register::from_code((opcode % 8) as u8, true).unwrap().is_general(),
        Register::from_code((opcode % 8) as u8, false).unwrap().is_general(),
        bytes.len() > 0 ==> {
            &&& Register::from_code(reg_field(bytes[0]), true) is Some
            &&& Register::from_code(reg_field(bytes[0]), false) is Some
            &&& Register::from_code(rm_field(bytes[0]), true) is Some
            &&& Register::from_code(rm_field(bytes[0]), false) is Some
            &&& displacement_len(bytes[0]) <= 2
        },
{
    Register::lemma_from_code_width((opcode % 8) as u8, true);
    Register::lemma_from_code_width((opcode % 8) as u8, false);
    if bytes.len() > 0 {
        Register::lemma_from_code_width(reg_field(bytes[0]), true);
        Register::lemma_from_code_width(reg_field(bytes[0]), false);
        Register::lemma_from_code_width(rm_field(bytes[0]), true);
        Register::lemma_from_code_width(rm_field(bytes[0]), false);
    }
}

} // verus!
