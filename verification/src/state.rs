//! The machine's state as a mathematical value: the fourteen register
//! words and the bytes of memory, with the reads and writes that the
//! executable machine is held to.

use vstd::prelude::*;
use crate::memory::MEMORY_SIZE;
use crate::modrm::MemAddress;
use crate::register::{Flag, Register, REGISTER_COUNT};
use crate::word::{
    high_byte, lemma_join_bytes, lemma_split_word, low_byte, with_high_byte, with_low_byte,
};

verus! {

/// The state of a machine: one word for each word register, in the order
/// of `Register::slot`, and the bytes of the linear memory.
pub struct MachineState {
    pub regs: Seq<u16>,
    pub mem: Seq<u8>,
}

impl MachineState {
    /// Whether the state has a machine's fourteen registers.
    pub open spec fn has_registers(self) -> bool {
        self.regs.len() == REGISTER_COUNT
    }

    /// Whether the state has the shape of a machine: fourteen registers
    /// and `MEMORY_SIZE` bytes.
    pub open spec fn wf(self) -> bool {
        self.has_registers() && self.mem.len() == MEMORY_SIZE
    }

    /// The value of a register. A byte view reads its half of the backing
    /// word, widened with zeros.
    pub open spec fn get(self, register: Register) -> u16 {
        let word = self.regs[register.slot()];
        if register.is_low() {
            low_byte(word) as u16
        } else if register.is_high() {
            high_byte(word) as u16
        } else {
            word
        }
    }

    /// The state after a register is written. A byte view takes the low
    /// byte of `value` and leaves the other half of its word alone.
    pub open spec fn set(self, register: Register, value: u16) -> MachineState {
        let word = self.regs[register.slot()];
        let stored = if register.is_low() {
            with_low_byte(word, value)
        } else if register.is_high() {
            with_high_byte(word, value)
        } else {
            value
        };
        MachineState { regs: self.regs.update(register.slot(), stored), mem: self.mem }
    }

    /// The state with other bytes in memory.
    pub open spec fn with_mem(self, mem: Seq<u8>) -> MachineState {
        MachineState { regs: self.regs, mem }
    }

    /// Whether a flag is set: its bit of the flags word is not zero.
    pub open spec fn flag(self, flag: Flag) -> bool {
        self.get(Register::F) & flag.mask() != 0
    }

    /// The state after a flag is set or cleared.
    pub open spec fn set_flag(self, flag: Flag, value: bool) -> MachineState {
        let word = self.get(Register::F);
        if value {
            self.set(Register::F, word | flag.mask())
        } else {
            self.set(Register::F, word & !flag.mask())
        }
    }

    /// The state after ZERO is set from a result: set exactly when the
    /// result is zero.
    pub open spec fn update_zero_flag(self, value: u16) -> MachineState {
        self.set_flag(Flag::ZERO, value == 0)
    }

    /// The address that a memory operand names: displacement plus base
    /// plus index, modulo 2^16.
    pub open spec fn effective_address(self, address: MemAddress) -> u16 {
        let base = match address.base {
            Some(register) => self.get(register) as int,
            None => 0,
        };
        let index = match address.index {
            Some(register) => self.get(register) as int,
            None => 0,
        };
        ((address.displacement + base + index) % 0x1_0000) as u16
    }

    /// A word register is its high byte view shifted up by eight, or-ed
    /// with its low byte view: AX from AH and AL, and so for CX, DX, BX.
    pub proof fn lemma_word_from_halves(self, low: Register, high: Register)
        requires
            low.is_low(),
            high.is_high(),
            low.backing() == high.backing(),
        ensures
            self.get(low.backing()) == (self.get(high) << 8) | self.get(low),
            self.get(low.backing()) == self.get(high) * 256 + self.get(low),
            self.get(low) < 256,
            self.get(high) < 256,
    {
        let word = self.regs[low.slot()];
        lemma_join_bytes(low_byte(word), high_byte(word));
    }

    /// Reading a register that was just written gives the value back: the
    /// whole value for a word register, its low byte for a byte view.
    pub proof fn lemma_get_after_set(self, register: Register, value: u16)
        requires
            self.has_registers(),
        ensures
            self.set(register, value).has_registers(),
            self.set(register, value).mem == self.mem,
            self.set(register, value).get(register) == if register.is_8bit() {
                low_byte(value) as u16
            } else {
                value
            },
    {
    }

    /// Writing a byte view leaves the other half of its word unchanged,
    /// and writing any register leaves every register with another
    /// backing word unchanged.
    pub proof fn lemma_set_keeps_others(self, register: Register, value: u16, other: Register)
        requires
            self.has_registers(),
            other.backing() != register.backing() || (register.is_low() && other.is_high()) || (
            register.is_high() && other.is_low()),
        ensures
            self.set(register, value).get(other) == self.get(other),
    {
    }

    /// Writing a register the value it holds changes nothing.
    pub proof fn lemma_set_same(self, register: Register)
        requires
            self.has_registers(),
        ensures
            self.set(register, self.get(register)) == self,
    {
        let word = self.regs[register.slot()];
        lemma_split_word(word);
        assert(self.set(register, self.get(register)).regs =~= self.regs);
    }

    /// A flag that was just written reads as written, and every other
    /// flag reads as before.
    pub proof fn lemma_flag_after_set(self, flag: Flag, value: bool, other: Flag)
        requires
            self.has_registers(),
        ensures
            self.set_flag(flag, value).has_registers(),
            self.set_flag(flag, value).flag(flag) == value,
            other != flag ==> self.set_flag(flag, value).flag(other) == self.flag(other),
            self.set_flag(flag, value).mem == self.mem,
            forall|register: Register|
                register.slot() != Register::F.slot() ==> #[trigger] self.set_flag(
                    flag,
                    value,
                ).get(register) == self.get(register),
    {
        let word = self.get(Register::F);
        let m = flag.mask();
        let n = other.mask();
        assert(m != 0);
        assert((word | m) & m != 0 && (word & !m) & m == 0) by (bit_vector)
            requires
                m != 0,
        ;
        if other != flag {
            lemma_masks_disjoint(flag, other);
            assert((word | m) & n == word & n && (word & !m) & n == word & n) by (bit_vector)
                requires
                    m & n == 0,
            ;
        }
    }
}

/// Two different flags share no bit.
pub proof fn lemma_masks_disjoint(a: Flag, b: Flag)
    requires
        a != b,
    ensures
        a.mask() & b.mask() == 0,
{
    assert(0x0001u16 & 0x0004u16 == 0 && 0x0001u16 & 0x0010u16 == 0 && 0x0001u16 & 0x0040u16 == 0
        && 0x0001u16 & 0x0080u16 == 0 && 0x0001u16 & 0x0100u16 == 0 && 0x0001u16 & 0x0200u16 == 0
        && 0x0001u16 & 0x0400u16 == 0 && 0x0001u16 & 0x0800u16 == 0 && 0x0004u16 & 0x0010u16 == 0
        && 0x0004u16 & 0x0040u16 == 0 && 0x0004u16 & 0x0080u16 == 0 && 0x0004u16 & 0x0100u16 == 0
        && 0x0004u16 & 0x0200u16 == 0 && 0x0004u16 & 0x0400u16 == 0 && 0x0004u16 & 0x0800u16 == 0
        && 0x0010u16 & 0x0040u16 == 0 && 0x0010u16 & 0x0080u16 == 0 && 0x0010u16 & 0x0100u16 == 0
        && 0x0010u16 & 0x0200u16 == 0 && 0x0010u16 & 0x0400u16 == 0 && 0x0010u16 & 0x0800u16 == 0
        && 0x0040u16 & 0x0080u16 == 0 && 0x0040u16 & 0x0100u16 == 0 && 0x0040u16 & 0x0200u16 == 0
        && 0x0040u16 & 0x0400u16 == 0 && 0x0040u16 & 0x0800u16 == 0 && 0x0080u16 & 0x0100u16 == 0
        && 0x0080u16 & 0x0200u16 == 0 && 0x0080u16 & 0x0400u16 == 0 && 0x0080u16 & 0x0800u16 == 0
        && 0x0100u16 & 0x0200u16 == 0 && 0x0100u16 & 0x0400u16 == 0 && 0x0100u16 & 0x0800u16 == 0
        && 0x0200u16 & 0x0400u16 == 0 && 0x0200u16 & 0x0800u16 == 0 && 0x0400u16 & 0x0800u16 == 0)
        by (bit_vector);
    assert(forall|x: u16, y: u16| x & y == y & x) by (bit_vector);
}

} // verus!
