//! What each instruction does to a machine state, as mathematics: the
//! state it leads to, whether it jumps, and when it cannot run.

use vstd::prelude::*;
use crate::error::VmError;
use crate::instruction::{
    decode, lemma_decode_consumes_size, lemma_decoded_is_well_formed, Instruction, MovMemOperand,
};
use crate::memory::{lemma_store_then_read_word, store_word, word_at, MEMORY_SIZE};
use crate::modrm::{MemAddress, Operand};
use crate::register::{Flag, Register};
use crate::state::MachineState;
use crate::word::{lemma_split_word, low_byte, wrapping_offset};

verus! {

/// The two-operand operations that share one way of reading and writing
/// their operands.
#[derive(Debug, PartialEq, Eq, Clone, Copy)]
pub enum BinaryOp {
    /// The source replaces the destination.
    Mov,
    /// Sum modulo 2^16.
    Add,
    /// Difference modulo 2^16.
    Sub,
    /// Bitwise and.
    And,
    /// Bitwise or.
    Or,
}

impl BinaryOp {
    /// The operation on two words.
    pub open spec fn apply(self, lhs: u16, rhs: u16) -> u16 {
        match self {
            BinaryOp::Mov => rhs,
            BinaryOp::Add => wrapping_offset(lhs, rhs as int),
            BinaryOp::Sub => wrapping_offset(lhs, -(rhs as int)),
            BinaryOp::And => lhs & rhs,
            BinaryOp::Or => lhs | rhs,
        }
    }
}

/// A value cut to the operand width: its low byte for byte operands.
pub open spec fn narrow(value: u16, is_8bit: bool) -> u16 {
    if is_8bit {
        low_byte(value) as u16
    } else {
        value
    }
}

/// The width of a two-operand instruction, true for bytes: that of its
/// register operand, the destination where both are registers.
pub open spec fn operands_are_8bit(dest: Operand, src: Operand) -> bool {
    match dest {
        Operand::Register(register) => register.is_8bit(),
        Operand::Memory(_) => match src {
            Operand::Register(register) => register.is_8bit(),
            Operand::Memory(_) => false,
        },
    }
}

/// Whether a byte, or a word, at `ptr` lies inside the memory.
pub open spec fn in_bounds(ptr: int, is_8bit: bool) -> bool {
    if is_8bit {
        0 <= ptr < MEMORY_SIZE
    } else {
        0 <= ptr && ptr + 1 < MEMORY_SIZE
    }
}

/// The byte at `ptr` widened with zeros, or the word at `ptr`.
pub open spec fn load(mem: Seq<u8>, ptr: int, is_8bit: bool) -> u16 {
    if is_8bit {
        mem[ptr] as u16
    } else {
        word_at(mem, ptr)
    }
}

/// The memory after the low byte of `value`, or all of `value`, is stored
/// at `ptr`.
pub open spec fn store(mem: Seq<u8>, ptr: int, is_8bit: bool, value: u16) -> Seq<u8> {
    if is_8bit {
        mem.update(ptr, low_byte(value))
    } else {
        store_word(mem, ptr, value)
    }
}

impl MachineState {
    /// Whether an operand can be read and written at the given width: a
    /// register always, memory where the access lies inside it.
    pub open spec fn operand_in_bounds(self, operand: Operand, is_8bit: bool) -> bool {
        match operand {
            Operand::Register(_) => true,
            Operand::Memory(address) => in_bounds(self.effective_address(address) as int, is_8bit),
        }
    }

    /// The value of an operand: the register, or the byte or word at the
    /// effective address.
    pub open spec fn read_operand(self, operand: Operand, is_8bit: bool) -> u16 {
        match operand {
            Operand::Register(register) => self.get(register),
            Operand::Memory(address) => load(
                self.mem,
                self.effective_address(address) as int,
                is_8bit,
            ),
        }
    }

    /// The state after an operand is written.
    pub open spec fn write_operand(self, operand: Operand, is_8bit: bool, value: u16)
        -> MachineState {
        match operand {
            Operand::Register(register) => self.set(register, value),
            Operand::Memory(address) => self.with_mem(
                store(self.mem, self.effective_address(address) as int, is_8bit, value),
            ),
        }
    }

    /// The result of a two-operand operation: the operation on the values
    /// of destination and source, cut to the operand width.
    pub open spec fn binary_result(self, op: BinaryOp, dest: Operand, src: Operand) -> u16 {
        let is_8bit = operands_are_8bit(dest, src);
        narrow(op.apply(self.read_operand(dest, is_8bit), self.read_operand(src, is_8bit)), is_8bit)
    }

    /// The state after a two-operand operation stored its result in the
    /// destination. Flags are not touched here.
    pub open spec fn apply_binary(self, op: BinaryOp, dest: Operand, src: Operand)
        -> MachineState {
        self.write_operand(dest, operands_are_8bit(dest, src), self.binary_result(op, dest, src))
    }

    /// The result of an operation between a register and an immediate,
    /// cut to the register's width.
    pub open spec fn immediate_result(self, op: BinaryOp, register: Register, value: u16) -> u16 {
        narrow(op.apply(self.get(register), value), register.is_8bit())
    }

    /// For the instructions that set ZERO, the result that they compute
    /// and store; `None` for the others.
    pub open spec fn result_of(self, instruction: Instruction) -> Option<u16> {
        match instruction {
            Instruction::Add(dest, src, _) => Some(self.binary_result(BinaryOp::Add, dest, src)),
            Instruction::Sub(dest, src, _) => Some(self.binary_result(BinaryOp::Sub, dest, src)),
            Instruction::And(dest, src, _) => Some(self.binary_result(BinaryOp::And, dest, src)),
            Instruction::Or(dest, src, _) => Some(self.binary_result(BinaryOp::Or, dest, src)),
            Instruction::AddAcc8(value) => Some(
                self.immediate_result(BinaryOp::Add, Register::AL, value as u16),
            ),
            Instruction::AddAcc16(value) => Some(
                self.immediate_result(BinaryOp::Add, Register::AX, value),
            ),
            Instruction::SubAcc8(value) => Some(
                self.immediate_result(BinaryOp::Sub, Register::AL, value as u16),
            ),
            Instruction::SubAcc16(value) => Some(
                self.immediate_result(BinaryOp::Sub, Register::AX, value),
            ),
            Instruction::AndAcc8(value) => Some(
                self.immediate_result(BinaryOp::And, Register::AL, value as u16),
            ),
            Instruction::AndAcc16(value) => Some(
                self.immediate_result(BinaryOp::And, Register::AX, value),
            ),
            Instruction::OrAcc8(value) => Some(
                self.immediate_result(BinaryOp::Or, Register::AL, value as u16),
            ),
            Instruction::OrAcc16(value) => Some(
                self.immediate_result(BinaryOp::Or, Register::AX, value),
            ),
            Instruction::Inc(register) => Some(wrapping_offset(self.get(register), 1)),
            Instruction::Dec(register) => Some(wrapping_offset(self.get(register), -1)),
            _ => None,
        }
    }

    /// The register, other than flags, that receives the result of an
    /// instruction with an immediate or implied operand.
    pub open spec fn result_register(instruction: Instruction) -> Register {
        match instruction {
            Instruction::AddAcc8(_)
            | Instruction::SubAcc8(_)
            | Instruction::AndAcc8(_)
            | Instruction::OrAcc8(_) => Register::AL,
            Instruction::Inc(register) | Instruction::Dec(register) => register,
            _ => Register::AX,
        }
    }

    /// The divisor or multiplier of a one-operand instruction. The byte
    /// forms read a byte of memory and widen it with zeros; a register
    /// reads at its own width.
    pub open spec fn factor(self, instruction: Instruction) -> u16 {
        match instruction {
            Instruction::Mul8(operand) | Instruction::Div8(operand) => self.read_operand(
                operand,
                true,
            ),
            Instruction::Mul16(operand) | Instruction::Div16(operand) => self.read_operand(
                operand,
                false,
            ),
            _ => 0,
        }
    }

    /// The double word that DX and AX hold together, DX the high half.
    pub open spec fn dx_ax(self) -> int {
        self.get(Register::DX) * 0x1_0000 + self.get(Register::AX)
    }

    /// Where IP points after a jump by a signed offset.
    pub open spec fn relative_target(self, offset: int) -> u16 {
        wrapping_offset(self.get(Register::IP), offset)
    }

    /// Whether the instruction sets IP itself: every unconditional jump,
    /// and a conditional jump whose condition holds.
    pub open spec fn jumps(self, instruction: Instruction) -> bool {
        match instruction {
            Instruction::JmpShort(_) | Instruction::JmpNear(_) | Instruction::JmpFar(_, _) => true,
            Instruction::Jz(_) => self.flag(Flag::ZERO),
            Instruction::Jnz(_) => !self.flag(Flag::ZERO),
            _ => false,
        }
    }

    /// Why the instruction cannot run in this state, if it cannot: an
    /// access outside the memory, or a zero divisor.
    pub open spec fn fault(self, instruction: Instruction) -> Option<VmError> {
        let in_memory = match instruction {
            Instruction::Mov(dest, src, _)
            | Instruction::Add(dest, src, _)
            | Instruction::Sub(dest, src, _)
            | Instruction::And(dest, src, _)
            | Instruction::Or(dest, src, _) => self.operand_in_bounds(
                dest,
                operands_are_8bit(dest, src),
            ) && self.operand_in_bounds(src, operands_are_8bit(dest, src)),
            Instruction::MovAccMem(MovMemOperand::Register(register), MovMemOperand::MemoryPtr(ptr))
            | Instruction::MovAccMem(
                MovMemOperand::MemoryPtr(ptr),
                MovMemOperand::Register(register),
            ) => in_bounds(ptr as int, register.is_8bit()),
            Instruction::Push(_) => in_bounds(
                wrapping_offset(self.get(Register::SP), -2) as int,
                false,
            ),
            Instruction::Pop(_) => in_bounds(self.get(Register::SP) as int, false),
            Instruction::Mul8(operand) | Instruction::Div8(operand) => self.operand_in_bounds(
                operand,
                true,
            ),
            Instruction::Mul16(operand) | Instruction::Div16(operand) => self.operand_in_bounds(
                operand,
                false,
            ),
            _ => true,
        };
        if !in_memory {
            Some(VmError::MemoryBounds)
        } else if (instruction is Div8 || instruction is Div16) && self.factor(instruction) == 0 {
            Some(VmError::DivideByZero)
        } else {
            None
        }
    }

    /// The state after the instruction ran. IP moves only where the
    /// instruction is a jump that is taken, or names IP as a register.
    pub open spec fn execute(self, instruction: Instruction) -> MachineState {
        match instruction {
            Instruction::Noop => self,
            Instruction::MovImm8(register, value) => self.set(register, value as u16),
            Instruction::MovImm16(register, value) => self.set(register, value),
            Instruction::Mov(dest, src, _) => self.apply_binary(BinaryOp::Mov, dest, src),
            Instruction::MovAccMem(
                MovMemOperand::Register(register),
                MovMemOperand::MemoryPtr(ptr),
            ) => self.set(register, load(self.mem, ptr as int, register.is_8bit())),
            Instruction::MovAccMem(
                MovMemOperand::MemoryPtr(ptr),
                MovMemOperand::Register(register),
            ) => self.with_mem(
                store(self.mem, ptr as int, register.is_8bit(), self.get(register)),
            ),
            Instruction::MovAccMem(_, _) => self,
            Instruction::Push(register) => {
                let lowered = self.set(Register::SP, wrapping_offset(self.get(Register::SP), -2));
                lowered.with_mem(
                    store_word(
                        lowered.mem,
                        lowered.get(Register::SP) as int,
                        lowered.get(register),
                    ),
                )
            },
            Instruction::Pop(register) => {
                let loaded = self.set(register, word_at(self.mem, self.get(Register::SP) as int));
                loaded.set(Register::SP, wrapping_offset(loaded.get(Register::SP), 2))
            },
            Instruction::Add(dest, src, _) => self.apply_binary(
                BinaryOp::Add,
                dest,
                src,
            ).update_zero_flag(self.binary_result(BinaryOp::Add, dest, src)),
            Instruction::Sub(dest, src, _) => self.apply_binary(
                BinaryOp::Sub,
                dest,
                src,
            ).update_zero_flag(self.binary_result(BinaryOp::Sub, dest, src)),
            Instruction::And(dest, src, _) => self.apply_binary(
                BinaryOp::And,
                dest,
                src,
            ).update_zero_flag(self.binary_result(BinaryOp::And, dest, src)),
            Instruction::Or(dest, src, _) => self.apply_binary(
                BinaryOp::Or,
                dest,
                src,
            ).update_zero_flag(self.binary_result(BinaryOp::Or, dest, src)),
            Instruction::AddAcc8(_)
            | Instruction::AddAcc16(_)
            | Instruction::SubAcc8(_)
            | Instruction::SubAcc16(_)
            | Instruction::AndAcc8(_)
            | Instruction::AndAcc16(_)
            | Instruction::OrAcc8(_)
            | Instruction::OrAcc16(_)
            | Instruction::Inc(_)
            | Instruction::Dec(_) => {
                let result = self.result_of(instruction).unwrap();
                self.set(MachineState::result_register(instruction), result).update_zero_flag(
                    result,
                )
            },
            Instruction::Mul8(_) => self.set(
                Register::AX,
                ((self.get(Register::AL) * self.factor(instruction)) % 0x1_0000) as u16,
            ),
            Instruction::Mul16(_) => {
                let product = self.get(Register::AX) * self.factor(instruction);
                self.set(Register::AX, (product % 0x1_0000) as u16).set(
                    Register::DX,
                    (product / 0x1_0000) as u16,
                )
            },
            Instruction::Div8(_) => {
                let dividend = self.get(Register::AX) as int;
                let divisor = self.factor(instruction) as int;
                self.set(Register::AL, (dividend / divisor) as u16).set(
                    Register::AH,
                    (dividend % divisor) as u16,
                )
            },
            Instruction::Div16(_) => {
                let divisor = self.factor(instruction) as int;
                self.set(Register::AX, ((self.dx_ax() / divisor) % 0x1_0000) as u16).set(
                    Register::DX,
                    (self.dx_ax() % divisor) as u16,
                )
            },
            Instruction::JmpShort(offset) => self.set(
                Register::IP,
                self.relative_target(offset as int),
            ),
            Instruction::JmpNear(offset) => self.set(
                Register::IP,
                self.relative_target(offset as int),
            ),
            Instruction::JmpFar(segment, offset) => self.set(Register::CS, segment).set(
                Register::IP,
                offset,
            ),
            Instruction::Jz(offset) | Instruction::Jnz(offset) => if self.jumps(instruction) {
                self.set(Register::IP, self.relative_target(offset as int))
            } else {
                self
            },
        }
    }

    /// The state after the instruction ran and IP moved on: past the
    /// instruction, unless the instruction jumped.
    pub open spec fn advance(self, instruction: Instruction) -> MachineState {
        let after = self.execute(instruction);
        if self.jumps(instruction) {
            after
        } else {
            after.set(
                Register::IP,
                wrapping_offset(after.get(Register::IP), instruction.size() as int),
            )
        }
    }

    /// The instruction at IP: the byte there is the opcode, the bytes
    /// from there to the end of memory are its operands.
    #[verifier::opaque]
    pub open spec fn fetch(self) -> Result<Instruction, VmError> {
        let ip = self.get(Register::IP) as int;
        if ip < MEMORY_SIZE {
            decode(self.mem[ip], self.mem.subrange(ip + 1, MEMORY_SIZE as int))
        } else {
            Err(VmError::MemoryBounds)
        }
    }

    /// Why the machine cannot take a step from this state, if it cannot:
    /// no instruction decodes at IP, or the instruction cannot run.
    pub open spec fn step_fault(self) -> Option<VmError> {
        match self.fetch() {
            Err(e) => Some(e),
            Ok(instruction) => self.fault(instruction),
        }
    }

    /// The state after one step: fetch, execute, move IP on.
    pub open spec fn step(self) -> MachineState {
        self.advance(self.fetch().unwrap())
    }
}

impl MachineState {
    /// Where a taken jump leaves IP: at the offset from the jump's own
    /// address for a relative jump, at the given offset for a far jump.
    pub open spec fn jump_target(self, instruction: Instruction) -> u16 {
        match instruction {
            Instruction::JmpShort(offset) | Instruction::Jz(offset) | Instruction::Jnz(offset) =>
                self.relative_target(offset as int),
            Instruction::JmpNear(offset) => self.relative_target(offset as int),
            Instruction::JmpFar(_, offset) => offset,
            _ => self.get(Register::IP),
        }
    }

    /// After an instruction that does not jump, IP has moved on by the
    /// instruction's size; after one that jumps, IP is the jump's target.
    /// So IP has moved on by the size exactly when the instruction did
    /// not jump, unless it jumped to the very next instruction. This
    /// holds of every instruction that does not name IP as the register
    /// of its result.
    pub proof fn lemma_ip_after_advance(self, instruction: Instruction)
        requires
            self.has_registers(),
            instruction.destination_register() != Some(Register::IP),
        ensures
            !self.jumps(instruction) ==> self.advance(instruction).get(Register::IP)
                == wrapping_offset(self.get(Register::IP), instruction.size() as int),
            self.jumps(instruction) ==> self.advance(instruction).get(Register::IP)
                == self.jump_target(instruction),
            self.jump_target(instruction) != wrapping_offset(
                self.get(Register::IP),
                instruction.size() as int,
            ) ==> (self.advance(instruction).get(Register::IP) == wrapping_offset(
                self.get(Register::IP),
                instruction.size() as int,
            ) <==> !self.jumps(instruction)),
    {
        self.lemma_execute_keeps_registers(instruction);
        let after = self.execute(instruction);
        if !self.jumps(instruction) {
            after.lemma_get_after_set(
                Register::IP,
                wrapping_offset(after.get(Register::IP), instruction.size() as int),
            );
        }
    }

    /// Writing an operand other than the register IP leaves IP alone.
    proof fn lemma_write_keeps_ip(self, operand: Operand, is_8bit: bool, value: u16)
        requires
            self.has_registers(),
            operand != Operand::Register(Register::IP),
        ensures
            self.write_operand(operand, is_8bit, value).has_registers(),
            self.write_operand(operand, is_8bit, value).get(Register::IP) == self.get(
                Register::IP,
            ),
    {
        if let Operand::Register(register) = operand {
            self.lemma_get_after_set(register, value);
            self.lemma_set_keeps_others(register, value, Register::IP);
        }
    }

    /// Setting ZERO leaves IP alone.
    proof fn lemma_zero_flag_keeps_ip(self, value: u16)
        requires
            self.has_registers(),
        ensures
            self.update_zero_flag(value).has_registers(),
            self.update_zero_flag(value).get(Register::IP) == self.get(Register::IP),
    {
        self.lemma_flag_after_set(Flag::ZERO, value == 0, Flag::ZERO);
    }

    /// Writing two registers, neither of them IP, leaves IP alone.
    proof fn lemma_two_sets_keep_ip(self, first: Register, a: u16, second: Register, b: u16)
        requires
            self.has_registers(),
            first != Register::IP,
            second != Register::IP,
        ensures
            self.set(first, a).set(second, b).has_registers(),
            self.set(first, a).set(second, b).get(Register::IP) == self.get(Register::IP),
    {
        self.lemma_get_after_set(first, a);
        self.lemma_set_keeps_others(first, a, Register::IP);
        self.set(first, a).lemma_get_after_set(second, b);
        self.set(first, a).lemma_set_keeps_others(second, b, Register::IP);
    }

    /// Execution leaves a state with fourteen registers. A jump that is
    /// taken leaves IP at its target, and an instruction that neither
    /// jumps nor names IP as the register of its result leaves IP where
    /// it was.
    pub proof fn lemma_execute_keeps_registers(self, instruction: Instruction)
        requires
            self.has_registers(),
        ensures
            self.execute(instruction).has_registers(),
            self.jumps(instruction) ==> self.execute(instruction).get(Register::IP)
                == self.jump_target(instruction),
            !self.jumps(instruction) && instruction.destination_register() != Some(Register::IP)
                ==> self.execute(instruction).get(Register::IP) == self.get(Register::IP),
    {
        let named_ip = instruction.destination_register() == Some(Register::IP);
        match instruction {
            Instruction::Noop => {},
            Instruction::MovImm8(register, value) => {
                self.lemma_get_after_set(register, value as u16);
                if !named_ip {
                    self.lemma_set_keeps_others(register, value as u16, Register::IP);
                }
            },
            Instruction::MovImm16(register, value) => {
                self.lemma_get_after_set(register, value);
                if !named_ip {
                    self.lemma_set_keeps_others(register, value, Register::IP);
                }
            },
            Instruction::Mov(dest, src, _) => {
                self.lemma_binary_keeps_ip(BinaryOp::Mov, dest, src);
            },
            Instruction::Add(dest, src, _) => {
                self.lemma_binary_keeps_ip(BinaryOp::Add, dest, src);
                self.apply_binary(BinaryOp::Add, dest, src).lemma_zero_flag_keeps_ip(
                    self.binary_result(BinaryOp::Add, dest, src),
                );
            },
            Instruction::Sub(dest, src, _) => {
                self.lemma_binary_keeps_ip(BinaryOp::Sub, dest, src);
                self.apply_binary(BinaryOp::Sub, dest, src).lemma_zero_flag_keeps_ip(
                    self.binary_result(BinaryOp::Sub, dest, src),
                );
            },
            Instruction::And(dest, src, _) => {
                self.lemma_binary_keeps_ip(BinaryOp::And, dest, src);
                self.apply_binary(BinaryOp::And, dest, src).lemma_zero_flag_keeps_ip(
                    self.binary_result(BinaryOp::And, dest, src),
                );
            },
            Instruction::Or(dest, src, _) => {
                self.lemma_binary_keeps_ip(BinaryOp::Or, dest, src);
                self.apply_binary(BinaryOp::Or, dest, src).lemma_zero_flag_keeps_ip(
                    self.binary_result(BinaryOp::Or, dest, src),
                );
            },
            Instruction::MovAccMem(
                MovMemOperand::Register(register),
                MovMemOperand::MemoryPtr(ptr),
            ) => {
                let value = load(self.mem, ptr as int, register.is_8bit());
                self.lemma_get_after_set(register, value);
                if !named_ip {
                    self.lemma_set_keeps_others(register, value, Register::IP);
                }
            },
            Instruction::MovAccMem(_, _) => {},
            Instruction::Push(_) => {
                let top = wrapping_offset(self.get(Register::SP), -2);
                self.lemma_get_after_set(Register::SP, top);
                self.lemma_set_keeps_others(Register::SP, top, Register::IP);
            },
            Instruction::Pop(register) => {
                let value = word_at(self.mem, self.get(Register::SP) as int);
                let loaded = self.set(register, value);
                self.lemma_get_after_set(register, value);
                let top = wrapping_offset(loaded.get(Register::SP), 2);
                loaded.lemma_get_after_set(Register::SP, top);
                if !named_ip {
                    self.lemma_two_sets_keep_ip(register, value, Register::SP, top);
                }
            },
            Instruction::AddAcc8(_)
            | Instruction::AddAcc16(_)
            | Instruction::SubAcc8(_)
            | Instruction::SubAcc16(_)
            | Instruction::AndAcc8(_)
            | Instruction::AndAcc16(_)
            | Instruction::OrAcc8(_)
            | Instruction::OrAcc16(_)
            | Instruction::Inc(_)
            | Instruction::Dec(_) => {
                let result = self.result_of(instruction).unwrap();
                let register = MachineState::result_register(instruction);
                self.lemma_get_after_set(register, result);
                self.set(register, result).lemma_zero_flag_keeps_ip(result);
                if !named_ip {
                    self.lemma_set_keeps_others(register, result, Register::IP);
                }
            },
            Instruction::Mul8(_) => {
                let product = self.get(Register::AL) * self.factor(instruction);
                let product = (product % 0x1_0000) as u16;
                self.lemma_get_after_set(Register::AX, product);
                self.lemma_set_keeps_others(Register::AX, product, Register::IP);
            },
            Instruction::Mul16(_) => {
                let product = self.get(Register::AX) * self.factor(instruction);
                self.lemma_two_sets_keep_ip(
                    Register::AX,
                    (product % 0x1_0000) as u16,
                    Register::DX,
                    (product / 0x1_0000) as u16,
                );
            },
            Instruction::Div8(_) => {
                let dividend = self.get(Register::AX) as int;
                let divisor = self.factor(instruction) as int;
                self.lemma_two_sets_keep_ip(
                    Register::AL,
                    (dividend / divisor) as u16,
                    Register::AH,
                    (dividend % divisor) as u16,
                );
            },
            Instruction::Div16(_) => {
                let divisor = self.factor(instruction) as int;
                self.lemma_two_sets_keep_ip(
                    Register::AX,
                    ((self.dx_ax() / divisor) % 0x1_0000) as u16,
                    Register::DX,
                    (self.dx_ax() % divisor) as u16,
                );
            },
            Instruction::JmpShort(offset) => {
                self.lemma_get_after_set(Register::IP, self.relative_target(offset as int));
            },
            Instruction::JmpNear(offset) => {
                self.lemma_get_after_set(Register::IP, self.relative_target(offset as int));
            },
            Instruction::JmpFar(segment, offset) => {
                self.lemma_get_after_set(Register::CS, segment);
                self.set(Register::CS, segment).lemma_get_after_set(Register::IP, offset);
            },
            Instruction::Jz(offset) | Instruction::Jnz(offset) => {
                self.lemma_get_after_set(Register::IP, self.relative_target(offset as int));
            },
        }
    }

    /// A two-operand operation whose destination is not the register IP
    /// leaves IP alone.
    proof fn lemma_binary_keeps_ip(self, op: BinaryOp, dest: Operand, src: Operand)
        requires
            self.has_registers(),
        ensures
            self.apply_binary(op, dest, src).has_registers(),
            dest != Operand::Register(Register::IP) ==> self.apply_binary(op, dest, src).get(
                Register::IP,
            ) == self.get(Register::IP),
    {
        let is_8bit = operands_are_8bit(dest, src);
        let result = self.binary_result(op, dest, src);
        if dest != Operand::Register(Register::IP) {
            self.lemma_write_keeps_ip(dest, is_8bit, result);
        } else {
            self.lemma_get_after_set(Register::IP, result);
        }
    }

    /// An instruction that runs leaves a state with the shape of a
    /// machine, and so does the move of IP past it.
    pub proof fn lemma_execute_keeps_shape(self, instruction: Instruction)
        requires
            self.wf(),
            self.fault(instruction) is None,
        ensures
            self.execute(instruction).wf(),
            self.advance(instruction).wf(),
    {
        self.lemma_execute_keeps_registers(instruction);
        let after = self.execute(instruction);
        after.lemma_get_after_set(
            Register::IP,
            wrapping_offset(after.get(Register::IP), instruction.size() as int),
        );
        assert(after.mem.len() == self.mem.len());
    }

    /// An instruction that decodes at IP lies inside the memory, has a
    /// shape that execution accepts, and names no register as destination
    /// but the eight that a register code can select.
    pub proof fn lemma_fetched_is_well_formed(self)
        requires
            self.wf(),
            self.fetch() is Ok,
        ensures
            self.get(Register::IP) + self.fetch().unwrap().size() <= MEMORY_SIZE,
            self.fetch().unwrap().well_formed(),
            self.fetch().unwrap().width_agrees(),
            self.fetch().unwrap().destination_register() matches Some(register)
                ==> register.is_general(),
    {
        reveal(MachineState::fetch);
        let ip = self.get(Register::IP) as int;
        let rest = self.mem.subrange(ip + 1, MEMORY_SIZE as int);
        lemma_decoded_is_well_formed(self.mem[ip], rest);
        lemma_decode_consumes_size(self.mem[ip], rest, rest);
    }

    /// A step from a state in which an instruction decodes at IP leaves
    /// IP just past that instruction, unless the instruction jumped;
    /// then it leaves IP at the jump's target.
    pub proof fn lemma_step_moves_ip(self)
        requires
            self.wf(),
            self.fetch() is Ok,
        ensures
            !self.jumps(self.fetch().unwrap()) ==> self.step().get(Register::IP) == self.get(
                Register::IP,
            ) + self.fetch().unwrap().size(),
            self.jumps(self.fetch().unwrap()) ==> self.step().get(Register::IP)
                == self.jump_target(self.fetch().unwrap()),
    {
        self.lemma_fetched_is_well_formed();
        self.lemma_ip_after_advance(self.fetch().unwrap());
    }

    /// After an addition, subtraction, and, or, increment or decrement,
    /// in the two-operand form or with an immediate, ZERO is set exactly
    /// when the result is zero.
    pub proof fn lemma_zero_flag_tells_result(self, instruction: Instruction)
        requires
            self.has_registers(),
            self.result_of(instruction) is Some,
        ensures
            self.execute(instruction).flag(Flag::ZERO) == (self.result_of(instruction).unwrap()
                == 0),
    {
        let result = self.result_of(instruction).unwrap();
        let stored = match instruction {
            Instruction::Add(dest, src, _) => self.apply_binary(BinaryOp::Add, dest, src),
            Instruction::Sub(dest, src, _) => self.apply_binary(BinaryOp::Sub, dest, src),
            Instruction::And(dest, src, _) => self.apply_binary(BinaryOp::And, dest, src),
            Instruction::Or(dest, src, _) => self.apply_binary(BinaryOp::Or, dest, src),
            _ => self.set(MachineState::result_register(instruction), result),
        };
        assert(self.execute(instruction) == stored.update_zero_flag(result));
        stored.lemma_flag_after_set(Flag::ZERO, result == 0, Flag::ZERO);
    }

    /// A push and then a pop of the same register leave every register
    /// as it was, SP among them, and leave the memory changed only in
    /// the two bytes below the old top of stack, which hold the value
    /// pushed. The pop cannot fault where the push did not.
    pub proof fn lemma_push_then_pop(self, register: Register)
        requires
            self.wf(),
            self.fault(Instruction::Push(register)) is None,
        ensures
            self.get(Register::SP) >= 2,
            self.execute(Instruction::Push(register)).fault(Instruction::Pop(register)) is None,
            self.execute(Instruction::Push(register)).execute(Instruction::Pop(register)).regs
                == self.regs,
            self.execute(Instruction::Push(register)).execute(Instruction::Pop(register)).mem
                == store_word(
                self.mem,
                self.get(Register::SP) - 2,
                self.execute(Instruction::Push(register)).get(register),
            ),
            register.backing() != Register::SP ==> self.execute(Instruction::Push(register)).get(
                register,
            ) == self.get(register),
    {
        let top = wrapping_offset(self.get(Register::SP), -2);
        let lowered = self.set(Register::SP, top);
        let value = lowered.get(register);
        let pushed = self.execute(Instruction::Push(register));
        assert(pushed == lowered.with_mem(store_word(self.mem, top as int, value)));
        lemma_store_then_read_word(self.mem, top as int, value);
        assert(word_at(pushed.mem, pushed.get(Register::SP) as int) == value);
        lowered.lemma_set_same(register);
        let loaded = pushed.set(register, value);
        assert(loaded.regs == lowered.regs);
        let popped = pushed.execute(Instruction::Pop(register));
        assert(popped == loaded.set(Register::SP, wrapping_offset(top, 2)));
        assert(popped.regs =~= self.regs);
    }

    /// A move from a register to memory and then back from the same
    /// address gives the register the value it had, and changes nothing
    /// in the state that the first move left. The second move cannot
    /// fault where the first did not.
    pub proof fn lemma_store_then_load(
        self,
        address: MemAddress,
        register: Register,
        is_8bit: bool,
    )
        requires
            self.wf(),
            self.fault(
                Instruction::Mov(Operand::Memory(address), Operand::Register(register), is_8bit),
            ) is None,
        ensures
            ({
                let stored = self.execute(
                    Instruction::Mov(
                        Operand::Memory(address),
                        Operand::Register(register),
                        is_8bit,
                    ),
                );
                let back = Instruction::Mov(
                    Operand::Register(register),
                    Operand::Memory(address),
                    is_8bit,
                );
                &&& stored.regs == self.regs
                &&& stored.fault(back) is None
                &&& stored.execute(back) == stored
                &&& stored.execute(back).get(register) == self.get(register)
            }),
    {
        let ptr = self.effective_address(address) as int;
        let value = self.get(register);
        let stored = self.execute(
            Instruction::Mov(Operand::Memory(address), Operand::Register(register), is_8bit),
        );
        let word = self.regs[register.slot()];
        lemma_split_word(word);
        lemma_split_word(value);
        assert(narrow(value, register.is_8bit()) == value);
        assert(stored == self.with_mem(store(self.mem, ptr, register.is_8bit(), value)));
        if !register.is_8bit() {
            lemma_store_then_read_word(self.mem, ptr, value);
        }
        assert(load(stored.mem, ptr, register.is_8bit()) == value);
        self.lemma_set_same(register);
    }
}

} // verus!
