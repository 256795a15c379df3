//! Register names, the three-bit register codes, and the flag bits.

use vstd::prelude::*;
use crate::error::VmError;

verus! {

/// The architectural registers: fourteen words, then the eight byte views
/// onto the halves of AX, CX, DX and BX. A byte view names a half of its
/// word register; it has no storage of its own.
#[derive(Debug, PartialEq, Clone, Copy, Eq, Hash, PartialOrd, Ord)]
pub enum Register {
    AX,
    CX,
    DX,
    BX,
    SP,
    BP,
    SI,
    DI,
    CS,
    DS,
    SS,
    ES,
    IP,
    F,
    AL,
    CL,
    DL,
    BL,
    AH,
    CH,
    DH,
    BH,
}

/// How many word registers the register file holds.
pub const REGISTER_COUNT: usize = 14;

impl Register {
    /// Whether the register is the low byte of a word register.
    pub open spec fn is_low(self) -> bool {
        self is AL || self is CL || self is DL || self is BL
    }

    /// Whether the register is the high byte of a word register.
    pub open spec fn is_high(self) -> bool {
        self is AH || self is CH || self is DH || self is BH
    }

    /// Whether the register is a byte view.
    pub open spec fn spec_is_8bit(&self) -> bool {
        self.is_low() || self.is_high()
    }

    /// The word register that stores this register: the register itself,
    /// or for a byte view the word it is a half of.
    pub open spec fn backing(self) -> Register {
        match self {
            Register::AL | Register::AH => Register::AX,
            Register::CL | Register::CH => Register::CX,
            Register::DL | Register::DH => Register::DX,
            Register::BL | Register::BH => Register::BX,
            _ => self,
        }
    }

    /// The cell of the register file that stores this register.
    pub open spec fn slot(self) -> int {
        match self.backing() {
            Register::AX => 0,
            Register::CX => 1,
            Register::DX => 2,
            Register::BX => 3,
            Register::SP => 4,
            Register::BP => 5,
            Register::SI => 6,
            Register::DI => 7,
            Register::CS => 8,
            Register::DS => 9,
            Register::SS => 10,
            Register::ES => 11,
            Register::IP => 12,
            _ => 13,
        }
    }

    /// The register that a three-bit code selects at the given width, if
    /// the code is one.
    pub open spec fn from_code(code: u8, bits_8: bool) -> Option<Register> {
        if bits_8 {
            match code {
                0 => Some(Register::AL),
                1 => Some(Register::CL),
                2 => Some(Register::DL),
                3 => Some(Register::BL),
                4 => Some(Register::AH),
                5 => Some(Register::CH),
                6 => Some(Register::DH),
                7 => Some(Register::BH),
                _ => None,
            }
        } else {
            match code {
                0 => Some(Register::AX),
                1 => Some(Register::CX),
                2 => Some(Register::DX),
                3 => Some(Register::BX),
                4 => Some(Register::SP),
                5 => Some(Register::BP),
                6 => Some(Register::SI),
                7 => Some(Register::DI),
                _ => None,
            }
        }
    }

    /// Whether a three-bit code can select this register: the eight
    /// general-purpose words and the eight byte views.
    pub open spec fn is_general(self) -> bool {
        self.slot() < 8
    }

    #[verifier::when_used_as_spec(spec_is_8bit)]
    pub fn is_8bit(&self) -> (r: bool)
        ensures
            r == self.spec_is_8bit(),
    {
        matches!(
            self,
            Register::AL
                | Register::AH
                | Register::BL
                | Register::BH
                | Register::CL
                | Register::CH
                | Register::DL
                | Register::DH
        )
    }

    /// Looks a register up by its three-bit code. Codes above seven select
    /// nothing and are handed back in the error.
    pub fn from_register_code(code: u8, bits_8: bool) -> (r: Result<Register, VmError>)
        ensures
            r == match Register::from_code(code, bits_8) {
                Some(reg) => Ok::<Register, VmError>(reg),
                None => Err(VmError::InvalidRegisterCode(code)),
            },
            r is Ok <==> code < 8,
    {
        match (code, bits_8) {
            (0, false) => Ok(Register::AX),
            (1, false) => Ok(Register::CX),
            (2, false) => Ok(Register::DX),
            (3, false) => Ok(Register::BX),
            (4, false) => Ok(Register::SP),
            (5, false) => Ok(Register::BP),
            (6, false) => Ok(Register::SI),
            (7, false) => Ok(Register::DI),
            (0, true) => Ok(Register::AL),
            (1, true) => Ok(Register::CL),
            (2, true) => Ok(Register::DL),
            (3, true) => Ok(Register::BL),
            (4, true) => Ok(Register::AH),
            (5, true) => Ok(Register::CH),
            (6, true) => Ok(Register::DH),
            (7, true) => Ok(Register::BH),
            _ => Err(VmError::InvalidRegisterCode(code)),
        }
    }

    /// A register selected by a code is general-purpose, and is a byte view
    /// exactly when the code was read at byte width.
    pub proof fn lemma_from_code_width(code: u8, bits_8: bool)
        requires
            code < 8,
        ensures
            Register::from_code(code, bits_8) is Some,
            Register::from_code(code, bits_8).unwrap().is_8bit() == bits_8,
            Register::from_code(code, bits_8).unwrap().is_general(),
    {
    }
}

/// The named bits of the flags word.
#[derive(Debug, PartialEq, Clone, Copy, Eq, Hash)]
pub enum Flag {
    CARRY,
    PARITY,
    AUXILIARY,
    ZERO,
    SIGN,
    TRAP,
    INTERRUPT,
    DIRECTION,
    OVERFLOW,
}

impl Flag {
    /// The flags word in which this flag's bit alone is set.
    pub open spec fn spec_mask(self) -> u16 {
        match self {
            Flag::CARRY => 0x0001,
            Flag::PARITY => 0x0004,
            Flag::AUXILIARY => 0x0010,
            Flag::ZERO => 0x0040,
            Flag::SIGN => 0x0080,
            Flag::TRAP => 0x0100,
            Flag::INTERRUPT => 0x0200,
            Flag::DIRECTION => 0x0400,
            Flag::OVERFLOW => 0x0800,
        }
    }

    #[verifier::when_used_as_spec(spec_mask)]
    pub fn mask(self) -> (m: u16)
        ensures
            m == self.spec_mask(),
    {
        match self {
            Flag::CARRY => 0x0001,
            Flag::PARITY => 0x0004,
            Flag::AUXILIARY => 0x0010,
            Flag::ZERO => 0x0040,
            Flag::SIGN => 0x0080,
            Flag::TRAP => 0x0100,
            Flag::INTERRUPT => 0x0200,
            Flag::DIRECTION => 0x0400,
            Flag::OVERFLOW => 0x0800,
        }
    }
}

} // verus!
