//! The machine: register file, flags and linear memory, with the loader
//! and the step loop's single step.

use vstd::prelude::*;
use vstd::slice::slice_subrange;
use crate::error::VmError;
use crate::instruction::Instruction;
use crate::memory::{LinearMemory, MEMORY_SIZE};
use crate::modrm::MemAddress;
use crate::register::{Flag, Register, REGISTER_COUNT};
use crate::state::MachineState;
use crate::word::{lemma_merge_byte, lemma_split_word};

verus! {

/// A virtual CPU: fourteen word registers and a linear memory.
pub struct Machine {
    memory: LinearMemory,
    registers: [u16; REGISTER_COUNT],
}

/// The state in which a machine starts: memory and registers zero, but
/// for a stack pointer of 1024.
pub open spec fn initial_state() -> MachineState {
    MachineState {
        regs: Seq::new(
            REGISTER_COUNT as nat,
            |i: int|
                if i == Register::SP.slot() {
                    1024u16
                } else {
                    0u16
                },
        ),
        mem: Seq::new(MEMORY_SIZE as nat, |i: int| 0u8),
    }
}

/// A machine starts well-formed, with SP at 1024, every other register
/// at zero and so every flag clear.
pub proof fn lemma_initial_state()
    ensures
        initial_state().wf(),
        initial_state().get(Register::SP) == 1024,
        forall|register: Register|
            register.backing() != Register::SP ==> #[trigger] initial_state().get(register) == 0,
        forall|flag: Flag| !#[trigger] initial_state().flag(flag),
{
    assert(forall|mask: u16| 0u16 & mask == 0) by (bit_vector);
}

/// The cell of the register file that stores a register.
fn slot_of(register: Register) -> (slot: usize)
    ensures
        slot == register.slot(),
        slot < REGISTER_COUNT,
{
    match register {
        Register::AX | Register::AL | Register::AH => 0,
        Register::CX | Register::CL | Register::CH => 1,
        Register::DX | Register::DL | Register::DH => 2,
        Register::BX | Register::BL | Register::BH => 3,
        Register::SP => 4,
        Register::BP => 5,
        Register::SI => 6,
        Register::DI => 7,
        Register::CS => 8,
        Register::DS => 9,
        Register::SS => 10,
        Register::ES => 11,
        Register::IP => 12,
        Register::F => 13,
    }
}

impl View for Machine {
    type V = MachineState;

    closed spec fn view(&self) -> MachineState {
        MachineState { regs: self.registers@, mem: self.memory@ }
    }
}

impl Machine {
    /// The state of a machine has fourteen registers and `MEMORY_SIZE`
    /// bytes.
    pub proof fn lemma_view_wf(&self)
        ensures
            self@.wf(),
    {
    }

    /// Copies a program to the start of memory. The rest of memory and
    /// the registers stay as they are.
    pub fn load_program_bytes(&mut self, program: &[u8])
        requires
            program@.len() <= MEMORY_SIZE,
        ensures
            final(self)@ == old(self)@.with_mem(
                program@ + old(self)@.mem.subrange(program@.len() as int, MEMORY_SIZE as int),
            ),
    {
        let mut i: usize = 0;
        while i < program.len()
            invariant
                i <= program@.len() <= MEMORY_SIZE,
                self.registers == old(self).registers,
                self.memory@.len() == MEMORY_SIZE,
                forall|j: int| 0 <= j < i ==> self.memory@[j] == program@[j],
                forall|j: int| i <= j < MEMORY_SIZE ==> self.memory@[j] == old(self).memory@[j],
            decreases program@.len() - i,
        {
            self.memory.write_byte(i, program[i]);
            i += 1;
        }
        assert(self.memory@ =~= program@ + old(self).memory@.subrange(
            program@.len() as int,
            MEMORY_SIZE as int,
        ));
    }

    /// Copies a program to the start of memory if it fits, and fails with
    /// `ProgramTooLarge` if it is longer than the memory. A machine that
    /// cannot hold the program is not changed.
    pub fn try_load_program_bytes(&mut self, program: &[u8]) -> (r: Result<(), VmError>)
        ensures
            program@.len() <= MEMORY_SIZE ==> r is Ok && final(self)@ == old(self)@.with_mem(
                program@ + old(self)@.mem.subrange(program@.len() as int, MEMORY_SIZE as int),
            ),
            program@.len() > MEMORY_SIZE ==> r == Err::<(), VmError>(VmError::ProgramTooLarge)
                && final(self)@ == old(self)@,
    {
        if program.len() > MEMORY_SIZE {
            return Err(VmError::ProgramTooLarge);
        }
        self.load_program_bytes(program);
        Ok(())
    }

    /// Decodes the instruction at IP. Fails with `MemoryBounds` where IP
    /// or the end of the instruction lies outside the memory, and with
    /// `InvalidOpcode` where the byte at IP is no opcode.
    pub fn fetch(&self) -> (r: Result<Instruction, VmError>)
        ensures
            r == self@.fetch(),
    {
        reveal(MachineState::fetch);
        let ip = self.get_register(Register::IP) as usize;
        if ip >= MEMORY_SIZE {
            return Err(VmError::MemoryBounds);
        }
        let opcode_byte = self.memory.read_byte(ip);
        Instruction::from_bytes(opcode_byte, slice_subrange(&self.memory.data, ip + 1, MEMORY_SIZE))
    }

    /// Runs an instruction, then moves IP past it unless it jumped.
    fn advance(&mut self, instruction: Instruction)
        requires
            instruction.well_formed(),
            old(self)@.fault(instruction) is None,
        ensures
            final(self)@ == old(self)@.advance(instruction),
    {
        let jumped = self.run_instruction(instruction);
        if !jumped {
            let ip = self.get_register(Register::IP);
            self.set_register(Register::IP, ip.wrapping_add(instruction.get_instr_size()));
        }
    }

    /// Takes one step: fetches the instruction at IP, runs it, and moves
    /// IP past it unless it jumped. Afterwards IP is the target of the
    /// jump if the instruction jumped, and else has grown by exactly the
    /// instruction's size.
    pub fn step(&mut self)
        requires
            old(self)@.step_fault() is None,
        ensures
            final(self)@ == old(self)@.step(),
            final(self)@.get(Register::IP) == if old(self)@.jumps(old(self)@.fetch().unwrap()) {
                old(self)@.jump_target(old(self)@.fetch().unwrap()) as int
            } else {
                old(self)@.get(Register::IP) + old(self)@.fetch().unwrap().size()
            },
    {
        proof {
            self.lemma_view_wf();
            self@.lemma_fetched_is_well_formed();
            self@.lemma_step_moves_ip();
        }
        if let Ok(instruction) = self.fetch() {
            self.advance(instruction);
        }
    }

    /// Takes one step if the machine can, and says why where it cannot:
    /// the error of `fetch`, or that of `check_instruction` on the
    /// instruction fetched. A machine that cannot step is not changed.
    pub fn try_step(&mut self) -> (r: Result<(), VmError>)
        ensures
            match old(self)@.step_fault() {
                None => r is Ok && final(self)@ == old(self)@.step(),
                Some(e) => r == Err::<(), VmError>(e) && final(self)@ == old(self)@,
            },
    {
        let instruction = self.fetch()?;
        self.check_instruction(instruction)?;
        proof {
            self.lemma_view_wf();
            self@.lemma_fetched_is_well_formed();
        }
        self.advance(instruction);
        Ok(())
    }

    /// The address that a memory operand names in the current registers.
    pub fn get_ptr_from_mem_address(&self, mem_addr: MemAddress) -> (ptr: usize)
        ensures
            ptr == self@.effective_address(mem_addr),
    {
        let base: u32 = match mem_addr.base {
            Some(base_reg) => self.get_register(base_reg) as u32,
            None => 0,
        };
        let index: u32 = match mem_addr.index {
            Some(index_reg) => self.get_register(index_reg) as u32,
            None => 0,
        };
        let ptr: u32 = (mem_addr.displacement as u32 + base + index) % 0x1_0000;

        ptr as usize
    }

    /// Sets ZERO exactly when `value` is zero.
    pub fn update_zero_flag(&mut self, value: u16)
        ensures
            final(self)@ == old(self)@.update_zero_flag(value),
    {
        self.set_flag(Flag::ZERO, value == 0);
    }

    pub fn get_flag(&self, flag: Flag) -> (value: bool)
        ensures
            value == self@.flag(flag),
    {
        self.get_register(Register::F) & flag.mask() != 0
    }

    pub fn set_flag(&mut self, flag: Flag, value: bool)
        ensures
            final(self)@ == old(self)@.set_flag(flag, value),
    {
        let mut flag_reg = self.get_register(Register::F);
        let mask = flag.mask();
        if value {
            flag_reg |= mask;
        } else {
            flag_reg &= !mask;
        }
        self.set_register(Register::F, flag_reg);
    }

    pub fn get_register(&self, register: Register) -> (value: u16)
        ensures
            value == self@.get(register),
    {
        let word = self.registers[slot_of(register)];
        proof {
            lemma_split_word(word);
        }
        match register {
            Register::AH | Register::BH | Register::CH | Register::DH => (word & 0xFF00) >> 8,
            Register::AL | Register::BL | Register::CL | Register::DL => word & 0x00FF,
            _ => word,
        }
    }

    pub fn set_register(&mut self, register: Register, value: u16)
        ensures
            final(self)@ == old(self)@.set(register, value),
    {
        let slot = slot_of(register);
        let word = self.registers[slot];
        proof {
            lemma_merge_byte(word, value);
        }
        let stored = match register {
            Register::AH | Register::BH | Register::CH | Register::DH => (word & 0x00FF) | ((value
                & 0x00FF) << 8),
            Register::AL | Register::BL | Register::CL | Register::DL => (word & 0xFF00) | (value
                & 0x00FF),
            _ => value,
        };
        self.registers[slot] = stored;
    }

    pub fn memory(&self) -> (memory: &LinearMemory)
        ensures
            memory@ == self@.mem,
    {
        &self.memory
    }

    pub fn memory_mut(&mut self) -> (memory: &mut LinearMemory)
        ensures
            memory@ == old(self)@.mem,
            final(self)@ == old(self)@.with_mem(final(memory)@),
    {
        &mut self.memory
    }
}

impl Default for Machine {
    fn default() -> (machine: Self)
        ensures
            machine@ == initial_state(),
    {
        let mut machine = Self { memory: LinearMemory::default(), registers: [0;REGISTER_COUNT] };

        machine.set_register(Register::SP, 1024);
        assert(machine@.regs =~= initial_state().regs);

        machine
    }
}

} // verus!
