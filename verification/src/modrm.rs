//! The ModR/M byte: operands of the instructions that name a register and
//! a register-or-memory operand.
//!
//! Bits 7-6 of the byte are the mode, bits 5-3 a register code, bits 2-0
//! the register-or-memory selector. A displacement of zero, one or two
//! bytes follows.

use vstd::prelude::*;
use crate::error::VmError;
use crate::register::Register;
use crate::word::{lemma_byte_fields, lemma_join_bytes, make_word};

verus! {

/// A memory operand: the sum of an optional base register, an optional
/// index register and a displacement, with the number of bytes that the
/// displacement took in the instruction.
#[derive(Debug, PartialEq, Eq, Clone, Copy, Hash)]
pub struct MemAddress {
    pub base: Option<Register>,
    pub index: Option<Register>,
    pub displacement: u16,
    pub displacement_size: u8,
}

impl Default for MemAddress {
    fn default() -> (address: Self)
        ensures
            address == (MemAddress {
                base: None,
                index: None,
                displacement: 0,
                displacement_size: 0,
            }),
    {
        MemAddress { base: None, index: None, displacement: 0, displacement_size: 0 }
    }
}

/// An operand: a register, or a place in memory.
#[derive(Debug, PartialEq, Eq, Clone, Copy, Hash)]
pub enum Operand {
    Register(Register),
    Memory(MemAddress),
}

impl Operand {
    /// The number of displacement bytes that the operand adds to its
    /// instruction.
    pub open spec fn displacement_len(self) -> nat {
        match self {
            Operand::Register(_) => 0,
            Operand::Memory(address) => address.displacement_size as nat,
        }
    }
}

/// The mode field of a ModR/M byte.
pub open spec fn mod_field(modrm: u8) -> u8 {
    modrm / 64
}

/// The register field of a ModR/M byte.
pub open spec fn reg_field(modrm: u8) -> u8 {
    ((modrm / 8) % 8) as u8
}

/// The register-or-memory field of a ModR/M byte.
pub open spec fn rm_field(modrm: u8) -> u8 {
    (modrm % 8) as u8
}

/// Whether an opcode works on bytes: its lowest bit is clear.
pub open spec fn opcode_is_8bit(opcode: u8) -> bool {
    opcode % 2 == 0
}

/// Whether the register-or-memory operand is the destination: the
/// opcode's second bit is clear.
pub open spec fn opcode_rm_is_dest(opcode: u8) -> bool {
    (opcode / 2) % 2 == 0
}

/// How many displacement bytes follow a ModR/M byte. Mode 00 with
/// selector 110 is a direct address of two bytes.
pub open spec fn displacement_len(modrm: u8) -> nat {
    if mod_field(modrm) == 0 {
        if rm_field(modrm) == 6 {
            2
        } else {
            0
        }
    } else if mod_field(modrm) == 1 {
        1
    } else if mod_field(modrm) == 2 {
        2
    } else {
        0
    }
}

/// The base register that a register-or-memory selector names.
pub open spec fn address_base(rm: u8) -> Option<Register> {
    if rm == 0 || rm == 1 || rm == 7 {
        Some(Register::BX)
    } else if rm == 2 || rm == 3 {
        Some(Register::BP)
    } else {
        None
    }
}

/// The index register that a register-or-memory selector names.
pub open spec fn address_index(rm: u8) -> Option<Register> {
    if rm == 0 || rm == 2 || rm == 4 {
        Some(Register::SI)
    } else if rm == 1 || rm == 3 || rm == 5 {
        Some(Register::DI)
    } else {
        None
    }
}

/// How many bytes a ModR/M byte and its displacement take, for bytes that
/// start at the ModR/M byte. Where even that byte is missing the answer
/// is one: the byte itself.
pub open spec fn operand_len(bytes: Seq<u8>) -> nat {
    if bytes.len() == 0 {
        1
    } else {
        1 + displacement_len(bytes[0])
    }
}

/// Whether the bytes hold a whole ModR/M byte with its displacement.
pub open spec fn is_complete(bytes: Seq<u8>) -> bool {
    operand_len(bytes) <= bytes.len()
}

/// The displacement that follows the ModR/M byte: one byte widened with
/// zeros, or two bytes with the low byte first.
pub open spec fn displacement(bytes: Seq<u8>) -> u16
    recommends
        is_complete(bytes),
{
    if displacement_len(bytes[0]) == 0 {
        0
    } else if displacement_len(bytes[0]) == 1 {
        bytes[1] as u16
    } else {
        make_word(bytes[1], bytes[2])
    }
}

/// The operand that the mode and selector fields name: a register in mode
/// 11, else a memory address.
pub open spec fn rm_operand(bytes: Seq<u8>, is_8bit: bool) -> Operand
    recommends
        is_complete(bytes),
{
    if mod_field(bytes[0]) == 3 {
        Operand::Register(Register::from_code(rm_field(bytes[0]), is_8bit).unwrap())
    } else {
        Operand::Memory(
            MemAddress {
                base: address_base(rm_field(bytes[0])),
                index: address_index(rm_field(bytes[0])),
                displacement: displacement(bytes),
                displacement_size: displacement_len(bytes[0]) as u8,
            },
        )
    }
}

/// The operand that the register field names.
pub open spec fn reg_operand(modrm: u8, is_8bit: bool) -> Operand {
    Operand::Register(Register::from_code(reg_field(modrm), is_8bit).unwrap())
}

/// The single operand of a one-operand instruction, for bytes that start
/// at the ModR/M byte.
pub open spec fn decode_operand(bytes: Seq<u8>, is_8bit: bool) -> Result<Operand, VmError> {
    if is_complete(bytes) {
        Ok(rm_operand(bytes, is_8bit))
    } else {
        Err(VmError::MemoryBounds)
    }
}

/// Destination, source and width of a two-operand instruction, for bytes
/// that start at the ModR/M byte. The width is true for byte operands.
pub open spec fn decode_operands(opcode: u8, bytes: Seq<u8>) -> Result<
    (Operand, Operand, bool),
    VmError,
> {
    let is_8bit = opcode_is_8bit(opcode);
    if !is_complete(bytes) {
        Err(VmError::MemoryBounds)
    } else if opcode_rm_is_dest(opcode) {
        Ok((rm_operand(bytes, is_8bit), reg_operand(bytes[0], is_8bit), is_8bit))
    } else {
        Ok((reg_operand(bytes[0], is_8bit), rm_operand(bytes, is_8bit), is_8bit))
    }
}

/// Decodes the register-or-memory operand of a one-operand instruction.
/// `mem_slice` starts at the ModR/M byte; the register field is left to
/// the caller, who reads it as a sub-opcode.
pub fn decode_operand_from_single_mod_rm_opcode(mem_slice: &[u8], is_8_bit: bool) -> (r: Result<
    Operand,
    VmError,
>)
    ensures
        r == decode_operand(mem_slice@, is_8_bit),
        r is Ok <==> is_complete(mem_slice@),
        r is Err ==> r == Err::<Operand, VmError>(VmError::MemoryBounds),
{
    if mem_slice.len() < 1 {
        return Err(VmError::MemoryBounds);
    }
    let modrm_byte = mem_slice[0];
    let mod_bits = modrm_byte >> 6;
    let rm_bits = modrm_byte & 0b0000_0111;
    proof {
        lemma_byte_fields(modrm_byte);
    }

    if mod_bits == 0b11 {
        let rm = Register::from_register_code(rm_bits, is_8_bit)?;
        return Ok(Operand::Register(rm));
    }
    let displacement_size = if mod_bits == 0 && rm_bits == 0b110 {
        2
    } else {
        mod_bits
    };
    let (base_reg, index_reg) = match rm_bits {
        0b000 => (Some(Register::BX), Some(Register::SI)),
        0b001 => (Some(Register::BX), Some(Register::DI)),
        0b010 => (Some(Register::BP), Some(Register::SI)),
        0b011 => (Some(Register::BP), Some(Register::DI)),
        0b100 => (None, Some(Register::SI)),
        0b101 => (None, Some(Register::DI)),
        0b110 => (None, None),
        _ => (Some(Register::BX), None),
    };
    if mem_slice.len() < 1 + displacement_size as usize {
        return Err(VmError::MemoryBounds);
    }
    let displacement = if displacement_size == 0 {
        0
    } else if displacement_size == 1 {
        mem_slice[1] as u16
    } else {
        proof {
            lemma_join_bytes(mem_slice@[1], mem_slice@[2]);
        }
        ((mem_slice[2] as u16) << 8) | (mem_slice[1] as u16)
    };

    Ok(
        Operand::Memory(
            MemAddress { base: base_reg, index: index_reg, displacement, displacement_size },
        ),
    )
}

/// Decodes the two operands of an instruction with a ModR/M byte.
/// `mem_slice` starts at the ModR/M byte. The result is destination,
/// source, and whether the operands are bytes.
pub fn decode_operands_from_mod_rm_opcode(opcode_byte: u8, mem_slice: &[u8]) -> (r: Result<
    (Operand, Operand, bool),
    VmError,
>)
    ensures
        r == decode_operands(opcode_byte, mem_slice@),
        r is Ok <==> is_complete(mem_slice@),
        r is Err ==> r == Err::<(Operand, Operand, bool), VmError>(VmError::MemoryBounds),
{
    let is_rm_target = opcode_byte & 0b0000_0010 == 0;
    let is_8_bit = opcode_byte & 0b0000_0001 == 0;
    proof {
        lemma_byte_fields(opcode_byte);
    }

    let rm_operand = decode_operand_from_single_mod_rm_opcode(mem_slice, is_8_bit)?;
    let modrm_byte = mem_slice[0];
    let reg_bits = (modrm_byte & 0b0011_1000) >> 3;
    proof {
        lemma_byte_fields(modrm_byte);
    }
    let reg = Register::from_register_code(reg_bits, is_8_bit)?;

    if is_rm_target {
        Ok((rm_operand, Operand::Register(reg), is_8_bit))
    } else {
        Ok((Operand::Register(reg), rm_operand, is_8_bit))
    }
}

/// Mode 00 with selector 110 names a direct address: no base, no index,
/// and the two bytes after the ModR/M byte as the address.
pub proof fn lemma_direct_address(bytes: Seq<u8>, is_8bit: bool)
    requires
        bytes.len() >= 1,
        mod_field(bytes[0]) == 0,
        rm_field(bytes[0]) == 6,
    ensures
        operand_len(bytes) == 3,
        rm_operand(bytes, is_8bit) == Operand::Memory(
            MemAddress {
                base: None,
                index: None,
                displacement: make_word(bytes[1], bytes[2]),
                displacement_size: 2,
            },
        ),
{
}

} // verus!
