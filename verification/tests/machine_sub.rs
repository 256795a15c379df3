use nvm::Machine;
use nvm::instruction::Instruction;
use nvm::modrm::{MemAddress, Operand};
use nvm::register::{Flag, Register};

#[test]
fn test_sub_acc_8() {
    let mut machine = Machine::default();
    machine.set_register(Register::AL, 0x0A);
    // SUB AL, 0x02
    machine.run_instruction(Instruction::SubAcc8(0x02));

    assert_eq!(machine.get_register(Register::AL), 0x0A - 0x02);
}

#[test]
fn test_sub_acc_8_wrapping() {
    let mut machine = Machine::default();
    machine.set_register(Register::AL, 0x00);
    // SUB AL, 0x02
    machine.run_instruction(Instruction::SubAcc8(0x02));

    assert_eq!(machine.get_register(Register::AL), 0xFE);
}

#[test]
fn test_sub_acc_16() {
    let mut machine = Machine::default();
    machine.set_register(Register::AX, 0x2211);
    // SUB AX, 0x2211
    machine.run_instruction(Instruction::SubAcc16(0x1122));

    assert_eq!(machine.get_register(Register::AX), 0x2211 - 0x1122);
}

#[test]
fn test_sub_acc_16_wrapping() {
    let mut machine = Machine::default();
    machine.set_register(Register::AX, 0x3333);
    // SUB AX, 0x2211
    machine.run_instruction(Instruction::SubAcc16(0x3335));

    assert_eq!(machine.get_register(Register::AX), 0xFFFE);
}

#[test]
fn test_sub_8bit_reg_to_mem() {
    let mut machine = Machine::default();
    machine.set_register(Register::BX, 0x11);
    machine.set_register(Register::SI, 0x22);
    machine.set_register(Register::AL, 0x22);
    machine.memory_mut().data[(0x11 + 0x22) as usize] = 0x55;
    // SUB [BX + SI], AL
    machine.run_instruction(Instruction::Sub(
        Operand::Memory(MemAddress {
            base: Some(Register::BX),
            index: Some(Register::SI),
            displacement: 0,
            displacement_size: 0,
        }),
        Operand::Register(Register::AL),
        true,
    ));

    assert_eq!(machine.memory().data[0x11 + 0x22], 0x55 - 0x22);
}

#[test]
fn test_sub_8bit_reg_to_mem_wrapping() {
    let mut machine = Machine::default();
    machine.set_register(Register::BX, 0x11);
    machine.set_register(Register::SI, 0x22);
    machine.set_register(Register::AL, 0x02);
    machine.memory_mut().data[(0x11 + 0x22) as usize] = 0x00;
    // SUB [BX + SI], AL
    machine.run_instruction(Instruction::Sub(
        Operand::Memory(MemAddress {
            base: Some(Register::BX),
            index: Some(Register::SI),
            displacement: 0,
            displacement_size: 0,
        }),
        Operand::Register(Register::AL),
        true,
    ));

    assert_eq!(machine.memory().data[0x11 + 0x22], 0xFE);
}

#[test]
fn test_sub_16bit_reg_to_mem() {
    let mut machine = Machine::default();
    machine.set_register(Register::BX, 0x11);
    machine.set_register(Register::SI, 0x22);
    machine.set_register(Register::AX, 0x1111);
    machine.memory_mut().data[(0x11 + 0x22) as usize] = 0x22;
    machine.memory_mut().data[(0x11 + 0x22 + 1) as usize] = 0x44;
    // SUB [BX + SI], AX
    machine.run_instruction(Instruction::Sub(
        Operand::Memory(MemAddress {
            base: Some(Register::BX),
            index: Some(Register::SI),
            displacement: 0,
            displacement_size: 0,
        }),
        Operand::Register(Register::AX),
        false,
    ));

    assert_eq!(machine.memory().read_word(0x11 + 0x22), 0x4422 - 0x1111);
}

#[test]
fn test_sub_16bit_reg_to_mem_wrapping() {
    let mut machine = Machine::default();
    machine.set_register(Register::BX, 0x11);
    machine.set_register(Register::SI, 0x22);
    machine.set_register(Register::AX, 0x1113);
    machine.memory_mut().data[(0x11 + 0x22) as usize] = 0x11;
    machine.memory_mut().data[(0x11 + 0x22 + 1) as usize] = 0x11;
    // SUB [BX + SI], AX
    machine.run_instruction(Instruction::Sub(
        Operand::Memory(MemAddress {
            base: Some(Register::BX),
            index: Some(Register::SI),
            displacement: 0,
            displacement_size: 0,
        }),
        Operand::Register(Register::AX),
        false,
    ));

    assert_eq!(machine.memory().read_word(0x11 + 0x22), 0xFFFE);
}

#[test]
fn test_sub_mem_to_8bit_reg() {
    let mut machine = Machine::default();
    machine.set_register(Register::BX, 0x11);
    machine.set_register(Register::SI, 0x22);
    machine.set_register(Register::AL, 0x22);
    machine.memory_mut().data[(0x11 + 0x22) as usize] = 0x11;
    // SUB AL, [BX + SI]
    machine.run_instruction(Instruction::Sub(
        Operand::Register(Register::AL),
        Operand::Memory(MemAddress {
            base: Some(Register::BX),
            index: Some(Register::SI),
            displacement: 0,
            displacement_size: 0,
        }),
        true,
    ));

    assert_eq!(machine.get_register(Register::AL), 0x22 - 0x11);
}

#[test]
fn test_sub_mem_to_8bit_reg_wrapping() {
    let mut machine = Machine::default();
    machine.set_register(Register::BX, 0x11);
    machine.set_register(Register::SI, 0x22);
    machine.set_register(Register::AL, 0x00);
    machine.memory_mut().data[(0x11 + 0x22) as usize] = 0x02;
    // SUB AL, [BX + SI]
    machine.run_instruction(Instruction::Sub(
        Operand::Register(Register::AL),
        Operand::Memory(MemAddress {
            base: Some(Register::BX),
            index: Some(Register::SI),
            displacement: 0,
            displacement_size: 0,
        }),
        true,
    ));

    assert_eq!(machine.get_register(Register::AL), 0xFE);
}

#[test]
fn test_sub_mem_to_16bit_reg() {
    let mut machine = Machine::default();
    machine.set_register(Register::BX, 0x11);
    machine.set_register(Register::SI, 0x22);
    machine.set_register(Register::AX, 0x2233);
    machine.memory_mut().data[(0x11 + 0x22) as usize] = 0x11;
    // SUB AX, [BX + SI]
    machine.run_instruction(Instruction::Sub(
        Operand::Register(Register::AX),
        Operand::Memory(MemAddress {
            base: Some(Register::BX),
            index: Some(Register::SI),
            displacement: 0,
            displacement_size: 0,
        }),
        false,
    ));

    assert_eq!(machine.get_register(Register::AX), 0x2233 - 0x11);
}

#[test]
fn test_sub_mem_to_16bit_reg_wrapping() {
    let mut machine = Machine::default();
    machine.set_register(Register::BX, 0x11);
    machine.set_register(Register::SI, 0x22);
    machine.set_register(Register::AX, 0x3333);
    machine.memory_mut().data[(0x11 + 0x22) as usize] = 0x35;
    machine.memory_mut().data[(0x11 + 0x22 + 1) as usize] = 0x33;
    // SUB AX, [BX + SI]
    machine.run_instruction(Instruction::Sub(
        Operand::Register(Register::AX),
        Operand::Memory(MemAddress {
            base: Some(Register::BX),
            index: Some(Register::SI),
            displacement: 0,
            displacement_size: 0,
        }),
        false,
    ));

    assert_eq!(machine.get_register(Register::AX), 0xFFFE);
}

#[test]
fn test_sub_mem_to_16bit_reg_1byte_displacement() {
    let mut machine = Machine::default();
    machine.set_register(Register::BX, 0x11);
    machine.set_register(Register::SI, 0x22);
    machine.set_register(Register::AX, 0x2233);
    machine.memory_mut().data[(0x11 + 0x22 + 0x33) as usize] = 0x11;
    // SUB AX, [BX + SI]
    machine.run_instruction(Instruction::Sub(
        Operand::Register(Register::AX),
        Operand::Memory(MemAddress {
            base: Some(Register::BX),
            index: Some(Register::SI),
            displacement: 0x33,
            displacement_size: 1,
        }),
        false,
    ));

    assert_eq!(machine.get_register(Register::AX), 0x2233 - 0x11);
}

#[test]
fn test_sub_mem_to_16bit_reg_2byte_displacement() {
    let mut machine = Machine::default();
    machine.set_register(Register::BX, 0x11);
    machine.set_register(Register::SI, 0x22);
    machine.set_register(Register::AX, 0x2233);
    machine.memory_mut().data[(0x11 + 0x22 + 0x3333) as usize] = 0x11;
    // SUB AX, [BX + SI]
    machine.run_instruction(Instruction::Sub(
        Operand::Register(Register::AX),
        Operand::Memory(MemAddress {
            base: Some(Register::BX),
            index: Some(Register::SI),
            displacement: 0x3333,
            displacement_size: 2,
        }),
        false,
    ));

    assert_eq!(machine.get_register(Register::AX), 0x2233 - 0x11);
}

#[test]
fn test_sub_8bit_reg_to_8bit_reg() {
    let mut machine = Machine::default();
    machine.set_register(Register::CL, 0x11);
    machine.set_register(Register::AL, 0x22);
    // SUB AL, CL
    machine.run_instruction(Instruction::Sub(
        Operand::Register(Register::AL),
        Operand::Register(Register::CL),
        true,
    ));

    assert_eq!(machine.get_register(Register::AL), 0x22 - 0x11);
}

#[test]
fn test_sub_8bit_reg_to_8bit_reg_wrapping() {
    let mut machine = Machine::default();
    machine.set_register(Register::CL, 0x24);
    machine.set_register(Register::AL, 0x22);
    // SUB AL, CL
    machine.run_instruction(Instruction::Sub(
        Operand::Register(Register::AL),
        Operand::Register(Register::CL),
        true,
    ));

    assert_eq!(machine.get_register(Register::AL), 0xFE);
}

#[test]
fn test_sub_16bit_reg_to_16bit_reg() {
    let mut machine = Machine::default();
    machine.set_register(Register::CX, 0x11);
    machine.set_register(Register::AX, 0x2233);
    // SUB AX, CX
    machine.run_instruction(Instruction::Sub(
        Operand::Register(Register::AX),
        Operand::Register(Register::CX),
        false,
    ));

    assert_eq!(machine.get_register(Register::AX), 0x2233 - 0x11);
}

#[test]
fn test_sub_16bit_reg_to_16bit_reg_wrapping() {
    let mut machine = Machine::default();
    machine.set_register(Register::CX, 0x3335);
    machine.set_register(Register::AX, 0x3333);
    // SUB AX, CX
    machine.run_instruction(Instruction::Sub(
        Operand::Register(Register::AX),
        Operand::Register(Register::CX),
        false,
    ));

    assert_eq!(machine.get_register(Register::AX), 0xFFFE);
}

#[test]
fn test_dec_reg() {
    let mut machine = Machine::default();
    machine.set_register(Register::AX, 0x0100);
    machine.set_register(Register::CX, 0x01);
    // DEC AX
    // DEC CX
    machine.run_instruction(Instruction::Dec(Register::AX));
    machine.run_instruction(Instruction::Dec(Register::CX));

    assert_eq!(machine.get_register(Register::AX), 0xFF);
    assert_eq!(machine.get_register(Register::CX), 0x0000);
}

#[test]
fn test_dec_reg_wrapping() {
    let mut machine = Machine::default();
    machine.set_register(Register::AX, 0x0000);
    // DEC AX
    machine.run_instruction(Instruction::Dec(Register::AX));

    assert_eq!(machine.get_register(Register::AX), 0xFFFF);
}

#[test]
fn test_sub_updating_flags_true() {
    let mut machine = Machine::default();
    machine.set_register(Register::AX, 0x01);
    machine.run_instruction(Instruction::Sub(
        Operand::Register(Register::AX),
        Operand::Register(Register::AX),
        false,
    ));

    assert!(machine.get_flag(Flag::ZERO));
}

#[test]
fn test_sub_updating_flags_false() {
    let mut machine = Machine::default();
    machine.set_register(Register::AX, 0x11);
    machine.set_register(Register::CX, 0x01);
    machine.run_instruction(Instruction::Sub(
        Operand::Register(Register::AX),
        Operand::Register(Register::CX),
        false,
    ));

    assert!(!machine.get_flag(Flag::ZERO));
}

#[test]
fn test_sub_acc_8bit_updating_flags_true() {
    let mut machine = Machine::default();
    machine.set_register(Register::AX, 0x01);
    machine.run_instruction(Instruction::SubAcc8(1));

    assert!(machine.get_flag(Flag::ZERO));
}

#[test]
fn test_sub_acc_8bit_updating_flags_false() {
    let mut machine = Machine::default();
    machine.set_register(Register::AX, 0x10);
    machine.run_instruction(Instruction::SubAcc8(1));

    assert!(!machine.get_flag(Flag::ZERO));
}

#[test]
fn test_sub_acc_16bit_updating_flags_true() {
    let mut machine = Machine::default();
    machine.set_register(Register::AX, 0x01);
    machine.run_instruction(Instruction::SubAcc16(1));

    assert!(machine.get_flag(Flag::ZERO));
}

#[test]
fn test_sub_acc_16bit_updating_flags_false() {
    let mut machine = Machine::default();
    machine.set_register(Register::AX, 0x10);
    machine.run_instruction(Instruction::SubAcc16(1));

    assert!(!machine.get_flag(Flag::ZERO));
}

#[test]
fn test_dec_updating_flags_true() {
    let mut machine = Machine::default();
    machine.set_register(Register::AX, 0x01);
    machine.run_instruction(Instruction::Dec(Register::AX));

    assert!(machine.get_flag(Flag::ZERO));
}

#[test]
fn test_dec_updating_flags_false() {
    let mut machine = Machine::default();
    machine.set_register(Register::AX, 0x10);
    machine.run_instruction(Instruction::Dec(Register::AX));

    assert!(!machine.get_flag(Flag::ZERO));
}
