//! The execution engine: runs one decoded instruction on the machine.

use vstd::prelude::*;
use crate::error::VmError;
use crate::instruction::{Instruction, MovMemOperand};
use crate::machine::Machine;
use crate::memory::MEMORY_SIZE;
use crate::modrm::Operand;
use crate::register::{Flag, Register};
use crate::semantics::{in_bounds, load, narrow, operands_are_8bit, store, BinaryOp};
use crate::word::lemma_split_word;

verus! {

/// The operation on two words.
fn compute(op: BinaryOp, lhs: u16, rhs: u16) -> (result: u16)
    ensures
        result == op.apply(lhs, rhs),
{
    match op {
        BinaryOp::Mov => rhs,
        BinaryOp::Add => lhs.wrapping_add(rhs),
        BinaryOp::Sub => lhs.wrapping_sub(rhs),
        BinaryOp::And => lhs & rhs,
        BinaryOp::Or => lhs | rhs,
    }
}

/// A value cut to the operand width.
fn narrowed(value: u16, is_8bit: bool) -> (result: u16)
    ensures
        result == narrow(value, is_8bit),
{
    proof {
        lemma_split_word(value);
    }
    if is_8bit {
        value & 0x00FF
    } else {
        value
    }
}

/// Whether a byte, or a word, at `ptr` lies inside the memory.
fn access_in_bounds(ptr: usize, is_8bit: bool) -> (ok: bool)
    ensures
        ok == in_bounds(ptr as int, is_8bit),
{
    if is_8bit {
        ptr < MEMORY_SIZE
    } else {
        ptr < MEMORY_SIZE - 1
    }
}

impl Machine {
    /// The byte at `ptr` widened with zeros, or the word at `ptr`.
    fn read_memory(&self, ptr: usize, is_8bit: bool) -> (value: u16)
        requires
            in_bounds(ptr as int, is_8bit),
        ensures
            value == load(self@.mem, ptr as int, is_8bit),
    {
        if is_8bit {
            self.memory().read_byte(ptr) as u16
        } else {
            self.memory().read_word(ptr)
        }
    }

    /// Stores the low byte of `value`, or all of `value`, at `ptr`.
    fn write_memory(&mut self, ptr: usize, is_8bit: bool, value: u16)
        requires
            in_bounds(ptr as int, is_8bit),
        ensures
            final(self)@ == old(self)@.with_mem(store(old(self)@.mem, ptr as int, is_8bit, value)),
    {
        proof {
            lemma_split_word(value);
        }
        if is_8bit {
            self.memory_mut().write_byte(ptr, (value & 0x00FF) as u8);
        } else {
            self.memory_mut().write_word(ptr, value);
        }
    }

    /// The value of an operand at the given width.
    fn read_operand(&self, operand: Operand, is_8bit: bool) -> (value: u16)
        requires
            self@.operand_in_bounds(operand, is_8bit),
        ensures
            value == self@.read_operand(operand, is_8bit),
    {
        match operand {
            Operand::Register(register) => self.get_register(register),
            Operand::Memory(address) => {
                let ptr = self.get_ptr_from_mem_address(address);
                self.read_memory(ptr, is_8bit)
            },
        }
    }

    /// Whether an operand can be accessed at the given width.
    fn operand_in_bounds(&self, operand: Operand, is_8bit: bool) -> (ok: bool)
        ensures
            ok == self@.operand_in_bounds(operand, is_8bit),
    {
        match operand {
            Operand::Register(_) => true,
            Operand::Memory(address) => access_in_bounds(
                self.get_ptr_from_mem_address(address),
                is_8bit,
            ),
        }
    }

    /// Reads destination and source, applies the operation, cuts the
    /// result to the operand width and stores it in the destination.
    /// Gives back both inputs and the result.
    pub(crate) fn apply_binary_op(&mut self, dest: Operand, src: Operand, op: BinaryOp) -> (r: (
        u16,
        u16,
        u16,
    ))
        requires
            !(dest is Memory && src is Memory),
            old(self)@.operand_in_bounds(dest, operands_are_8bit(dest, src)),
            old(self)@.operand_in_bounds(src, operands_are_8bit(dest, src)),
        ensures
            final(self)@ == old(self)@.apply_binary(op, dest, src),
            r.0 == old(self)@.read_operand(dest, operands_are_8bit(dest, src)),
            r.1 == old(self)@.read_operand(src, operands_are_8bit(dest, src)),
            r.2 == old(self)@.binary_result(op, dest, src),
    {
        match (dest, src) {
            (Operand::Register(dest_reg), Operand::Register(src_reg)) => {
                let lhs = self.get_register(dest_reg);
                let rhs = self.get_register(src_reg);
                let result = narrowed(compute(op, lhs, rhs), dest_reg.is_8bit());
                self.set_register(dest_reg, result);

                (lhs, rhs, result)
            },
            (Operand::Register(dest_reg), Operand::Memory(mem_addr)) => {
                let ptr = self.get_ptr_from_mem_address(mem_addr);
                let lhs = self.get_register(dest_reg);
                let rhs = self.read_memory(ptr, dest_reg.is_8bit());
                let result = narrowed(compute(op, lhs, rhs), dest_reg.is_8bit());
                self.set_register(dest_reg, result);

                (lhs, rhs, result)
            },
            (Operand::Memory(mem_addr), Operand::Register(src_reg)) => {
                let ptr = self.get_ptr_from_mem_address(mem_addr);
                let lhs = self.read_memory(ptr, src_reg.is_8bit());
                let rhs = self.get_register(src_reg);
                let result = narrowed(compute(op, lhs, rhs), src_reg.is_8bit());
                self.write_memory(ptr, src_reg.is_8bit(), result);

                (lhs, rhs, result)
            },
            (Operand::Memory(_), Operand::Memory(_)) => (0, 0, 0),
        }
    }

    /// An operation between a register and an immediate: the result, cut
    /// to the register's width, goes to the register and decides ZERO.
    fn apply_immediate_op(&mut self, register: Register, value: u16, op: BinaryOp)
        ensures
            final(self)@ == old(self)@.set(
                register,
                old(self)@.immediate_result(op, register, value),
            ).update_zero_flag(old(self)@.immediate_result(op, register, value)),
    {
        let result = narrowed(compute(op, self.get_register(register), value), register.is_8bit());
        self.set_register(register, result);
        self.update_zero_flag(result);
    }

    /// Moves IP by a signed offset, modulo 2^16.
    fn jump_by(&mut self, offset: i16)
        ensures
            final(self)@ == old(self)@.set(
                Register::IP,
                old(self)@.relative_target(offset as int),
            ),
    {
        let ip = self.get_register(Register::IP);
        self.set_register(Register::IP, ip.wrapping_add_signed(offset));
    }

    /// Says whether the instruction can run in the current state, and if
    /// not, why: `MemoryBounds` for an access outside the memory,
    /// `DivideByZero` for a division by zero. The machine is not changed.
    pub fn check_instruction(&self, instruction: Instruction) -> (r: Result<(), VmError>)
        ensures
            r == match self@.fault(instruction) {
                None => Ok::<(), VmError>(()),
                Some(e) => Err(e),
            },
    {
        let in_memory = match instruction {
            Instruction::Mov(dest, src, _)
            | Instruction::Add(dest, src, _)
            | Instruction::Sub(dest, src, _)
            | Instruction::And(dest, src, _)
            | Instruction::Or(dest, src, _) => {
                let is_8bit = match (dest, src) {
                    (Operand::Register(register), _) => register.is_8bit(),
                    (Operand::Memory(_), Operand::Register(register)) => register.is_8bit(),
                    (Operand::Memory(_), Operand::Memory(_)) => false,
                };
                self.operand_in_bounds(dest, is_8bit) && self.operand_in_bounds(src, is_8bit)
            },
            Instruction::MovAccMem(MovMemOperand::Register(register), MovMemOperand::MemoryPtr(ptr))
            | Instruction::MovAccMem(
                MovMemOperand::MemoryPtr(ptr),
                MovMemOperand::Register(register),
            ) => access_in_bounds(ptr as usize, register.is_8bit()),
            Instruction::Push(_) => access_in_bounds(
                self.get_register(Register::SP).wrapping_sub(2) as usize,
                false,
            ),
            Instruction::Pop(_) => access_in_bounds(
                self.get_register(Register::SP) as usize,
                false,
            ),
            Instruction::Mul8(operand) | Instruction::Div8(operand) => self.operand_in_bounds(
                operand,
                true,
            ),
            Instruction::Mul16(operand) | Instruction::Div16(operand) => self.operand_in_bounds(
                operand,
                false,
            ),
            _ => true,
        };
        if !in_memory {
            return Err(VmError::MemoryBounds);
        }
        let divides_by_zero = match instruction {
            Instruction::Div8(operand) => self.read_operand(operand, true) == 0,
            Instruction::Div16(operand) => self.read_operand(operand, false) == 0,
            _ => false,
        };
        if divides_by_zero {
            Err(VmError::DivideByZero)
        } else {
            Ok(())
        }
    }

    /// Moves between a register and a direct address.
    fn run_mov_acc_mem(&mut self, dest: MovMemOperand, src: MovMemOperand)
        requires
            Instruction::MovAccMem(dest, src).well_formed(),
            old(self)@.fault(Instruction::MovAccMem(dest, src)) is None,
        ensures
            final(self)@ == old(self)@.execute(Instruction::MovAccMem(dest, src)),
    {
        match (dest, src) {
            (MovMemOperand::Register(reg), MovMemOperand::MemoryPtr(ptr)) => {
                let value = self.read_memory(ptr as usize, reg.is_8bit());
                self.set_register(reg, value);
            },
            (MovMemOperand::MemoryPtr(ptr), MovMemOperand::Register(reg)) => {
                let value = self.get_register(reg);
                self.write_memory(ptr as usize, reg.is_8bit(), value);
            },
            (_, _) => {},
        }
    }

    /// Lowers SP by two and stores the register at the new top of stack.
    fn run_push(&mut self, reg: Register)
        requires
            old(self)@.fault(Instruction::Push(reg)) is None,
        ensures
            final(self)@ == old(self)@.execute(Instruction::Push(reg)),
    {
        proof {
            self.lemma_view_wf();
        }
        let top = self.get_register(Register::SP).wrapping_sub(2);
        self.set_register(Register::SP, top);
        let value = self.get_register(reg);
        self.write_memory(top as usize, false, value);
    }

    /// Loads the register from the top of stack and raises SP by two.
    fn run_pop(&mut self, reg: Register)
        requires
            old(self)@.fault(Instruction::Pop(reg)) is None,
        ensures
            final(self)@ == old(self)@.execute(Instruction::Pop(reg)),
    {
        let value = self.read_memory(self.get_register(Register::SP) as usize, false);
        self.set_register(reg, value);
        let sp = self.get_register(Register::SP).wrapping_add(2);
        self.set_register(Register::SP, sp);
    }

    /// Adds a signed one to a register, modulo 2^16, and sets ZERO from
    /// the sum.
    fn run_step_register(&mut self, reg: Register, up: bool)
        ensures
            final(self)@ == old(self)@.execute(
                if up {
                    Instruction::Inc(reg)
                } else {
                    Instruction::Dec(reg)
                },
            ),
    {
        let value = self.get_register(reg);
        let result = if up {
            value.wrapping_add(1)
        } else {
            value.wrapping_sub(1)
        };
        self.set_register(reg, result);
        self.update_zero_flag(result);
    }

    /// AX := AL times a byte operand.
    fn run_mul8(&mut self, mlt_src: Operand)
        requires
            old(self)@.fault(Instruction::Mul8(mlt_src)) is None,
        ensures
            final(self)@ == old(self)@.execute(Instruction::Mul8(mlt_src)),
    {
        let multiplier = self.read_operand(mlt_src, true);
        let al = self.get_register(Register::AL);
        proof {
            self@.lemma_word_from_halves(Register::AL, Register::AH);
            assert(al * multiplier <= 255 * 0xFFFF) by (nonlinear_arith)
                requires
                    al <= 255,
                    multiplier <= 0xFFFF,
            ;
        }
        let product: u32 = (al as u32) * (multiplier as u32);

        self.set_register(Register::AX, (product % 0x1_0000) as u16);
    }

    /// DX:AX := AX times a word operand.
    fn run_mul16(&mut self, mlt_src: Operand)
        requires
            old(self)@.fault(Instruction::Mul16(mlt_src)) is None,
        ensures
            final(self)@ == old(self)@.execute(Instruction::Mul16(mlt_src)),
    {
        let multiplier = self.read_operand(mlt_src, false);
        let ax = self.get_register(Register::AX);
        proof {
            assert(ax * multiplier <= 0xFFFF * 0xFFFF) by (nonlinear_arith)
                requires
                    ax <= 0xFFFF,
                    multiplier <= 0xFFFF,
            ;
        }
        let product: u32 = (ax as u32) * (multiplier as u32);

        self.set_register(Register::AX, (product % 0x1_0000) as u16);
        self.set_register(Register::DX, (product / 0x1_0000) as u16);
    }

    /// Divides AX by a byte operand: quotient to AL, remainder to AH.
    fn run_div8(&mut self, div_src: Operand)
        requires
            old(self)@.fault(Instruction::Div8(div_src)) is None,
        ensures
            final(self)@ == old(self)@.execute(Instruction::Div8(div_src)),
    {
        let dividend = self.get_register(Register::AX);
        let divisor = self.read_operand(div_src, true);

        let quotient = dividend / divisor;
        let remainder = dividend % divisor;

        self.set_register(Register::AL, quotient);
        self.set_register(Register::AH, remainder);
    }

    /// Divides DX:AX by a word operand: quotient to AX, remainder to DX.
    fn run_div16(&mut self, div_src: Operand)
        requires
            old(self)@.fault(Instruction::Div16(div_src)) is None,
        ensures
            final(self)@ == old(self)@.execute(Instruction::Div16(div_src)),
    {
        let dividend: u32 = (self.get_register(Register::DX) as u32) * 0x1_0000
            + self.get_register(Register::AX) as u32;
        let divisor = self.read_operand(div_src, false);

        let quotient = dividend / divisor as u32;
        let remainder = dividend % divisor as u32;

        self.set_register(Register::AX, (quotient % 0x1_0000) as u16);
        self.set_register(Register::DX, remainder as u16);
    }

    /// A two-operand operation that sets ZERO from its result.
    fn run_arithmetic(&mut self, dest: Operand, src: Operand, op: BinaryOp)
        requires
            !(dest is Memory && src is Memory),
            old(self)@.operand_in_bounds(dest, operands_are_8bit(dest, src)),
            old(self)@.operand_in_bounds(src, operands_are_8bit(dest, src)),
        ensures
            final(self)@ == old(self)@.apply_binary(op, dest, src).update_zero_flag(
                old(self)@.binary_result(op, dest, src),
            ),
    {
        let (_, _, result) = self.apply_binary_op(dest, src, op);
        self.update_zero_flag(result);
    }

    /// Runs one instruction. The result says whether the instruction set
    /// IP itself, as every jump that is taken does; where it is false the
    /// caller moves IP past the instruction.
    pub fn run_instruction(&mut self, instruction: Instruction) -> (jumped: bool)
        requires
            instruction.well_formed(),
            old(self)@.fault(instruction) is None,
        ensures
            final(self)@ == old(self)@.execute(instruction),
            jumped == old(self)@.jumps(instruction),
            old(self)@.result_of(instruction) matches Some(result) ==> final(self)@.flag(
                Flag::ZERO,
            ) == (result == 0),
    {
        proof {
            self.lemma_view_wf();
            if self@.result_of(instruction) is Some {
                self@.lemma_zero_flag_tells_result(instruction);
            }
        }
        match instruction {
            Instruction::Noop => false,
            Instruction::MovImm8(register, val) => {
                self.set_register(register, val as u16);
                false
            },
            Instruction::MovImm16(register, val) => {
                self.set_register(register, val);
                false
            },
            Instruction::Mov(dest, src, _) => {
                self.apply_binary_op(dest, src, BinaryOp::Mov);
                false
            },
            Instruction::MovAccMem(dest, src) => {
                self.run_mov_acc_mem(dest, src);
                false
            },
            Instruction::Push(reg) => {
                self.run_push(reg);
                false
            },
            Instruction::Pop(reg) => {
                self.run_pop(reg);
                false
            },
            Instruction::Add(dest, src, _) => {
                self.run_arithmetic(dest, src, BinaryOp::Add);
                false
            },
            Instruction::AddAcc8(val) => {
                self.apply_immediate_op(Register::AL, val as u16, BinaryOp::Add);
                false
            },
            Instruction::AddAcc16(val) => {
                self.apply_immediate_op(Register::AX, val, BinaryOp::Add);
                false
            },
            Instruction::Sub(dest, src, _) => {
                self.run_arithmetic(dest, src, BinaryOp::Sub);
                false
            },
            Instruction::SubAcc8(val) => {
                self.apply_immediate_op(Register::AL, val as u16, BinaryOp::Sub);
                false
            },
            Instruction::SubAcc16(val) => {
                self.apply_immediate_op(Register::AX, val, BinaryOp::Sub);
                false
            },
            Instruction::Inc(reg) => {
                self.run_step_register(reg, true);
                false
            },
            Instruction::Dec(reg) => {
                self.run_step_register(reg, false);
                false
            },
            Instruction::And(dest, src, _) => {
                self.run_arithmetic(dest, src, BinaryOp::And);
                false
            },
            Instruction::AndAcc8(val) => {
                self.apply_immediate_op(Register::AL, val as u16, BinaryOp::And);
                false
            },
            Instruction::AndAcc16(val) => {
                self.apply_immediate_op(Register::AX, val, BinaryOp::And);
                false
            },
            Instruction::Or(dest, src, _) => {
                self.run_arithmetic(dest, src, BinaryOp::Or);
                false
            },
            Instruction::OrAcc8(val) => {
                self.apply_immediate_op(Register::AL, val as u16, BinaryOp::Or);
                false
            },
            Instruction::OrAcc16(val) => {
                self.apply_immediate_op(Register::AX, val, BinaryOp::Or);
                false
            },
            Instruction::Mul8(mlt_src) => {
                self.run_mul8(mlt_src);
                false
            },
            Instruction::Mul16(mlt_src) => {
                self.run_mul16(mlt_src);
                false
            },
            Instruction::Div8(div_src) => {
                self.run_div8(div_src);
                false
            },
            Instruction::Div16(div_src) => {
                self.run_div16(div_src);
                false
            },
            Instruction::JmpNear(offset) => {
                self.jump_by(offset);
                true
            },
            Instruction::JmpFar(segment, offset) => {
                self.set_register(Register::CS, segment);
                self.set_register(Register::IP, offset);
                true
            },
            Instruction::Jz(offset) => {
                if self.get_flag(Flag::ZERO) {
                    self.jump_by(offset as i16);
                    true
                } else {
                    false
                }
            },
            Instruction::Jnz(offset) => {
                if !self.get_flag(Flag::ZERO) {
                    self.jump_by(offset as i16);
                    true
                } else {
                    false
                }
            },
            Instruction::JmpShort(offset) => {
                self.jump_by(offset as i16);
                true
            },
        }
    }
}

} // verus!
