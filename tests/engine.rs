use emu6502::cpu::{CpuConfig, CPU, DEFAULT_RESET_ADDRESS, DEFAULT_STACK_POINTER};
use emu6502::error::ExecutionError;
use emu6502::memory::{Memory, MAX_MEM};
use emu6502::opcode::{AddressingMode, Instruction, Mnemonic, OpCode};
use emu6502::status::{Flag, ProcessorStatus};

fn program(bytes: &[u8]) -> (CPU, Memory) {
    let cpu = CPU::new();
    let mut mem = Memory::initialise();
    for (i, b) in bytes.iter().enumerate() {
        mem.write(cpu.pc as usize + i, *b).unwrap();
    }
    (cpu, mem)
}

#[test]
fn lda_immediate_uses_exactly_two_cycles() {
    let (mut cpu, mut mem) = program(&[0xA9, 0x2A]);
    let mut budget: u32 = 2;
    assert_eq!(cpu.execute(&mut budget, &mut mem), Ok(()));
    assert_eq!(cpu.a, 0x2A);
    assert_eq!(budget, 0);
    assert_eq!(cpu.pc, 0xFF02);
}

#[test]
fn lda_zero_page_uses_exactly_three_cycles() {
    let (mut cpu, mut mem) = program(&[0xA5, 0x2A]);
    mem.write(0x2A, 0x45).unwrap();
    let mut budget: u32 = 3;
    assert_eq!(cpu.execute(&mut budget, &mut mem), Ok(()));
    assert_eq!(cpu.a, 0x45);
    assert_eq!(budget, 0);
}

#[test]
fn lda_zero_page_x_uses_exactly_four_cycles() {
    let (mut cpu, mut mem) = program(&[0xB5, 0x2A]);
    cpu.x = 1;
    mem.write(0x2B, 0x45).unwrap();
    let mut budget: u32 = 4;
    assert_eq!(cpu.execute(&mut budget, &mut mem), Ok(()));
    assert_eq!(cpu.a, 0x45);
    assert_eq!(budget, 0);
}

#[test]
fn lda_zero_page_x_wraps_within_zero_page() {
    let (mut cpu, mut mem) = program(&[0xB5, 0x80]);
    cpu.x = 0xFF;
    mem.write(0x7F, 0x11).unwrap();
    mem.write(0x17F, 0x22).unwrap();
    assert_eq!(cpu.execute(&mut 4, &mut mem), Ok(()));
    assert_eq!(cpu.a, 0x11);
}

#[test]
fn jsr_pushes_return_address_and_jumps() {
    let (mut cpu, mut mem) = program(&[0x20, 0x34, 0x12]);
    let mut budget: u32 = 6;
    assert_eq!(cpu.execute(&mut budget, &mut mem), Ok(()));
    assert_eq!(cpu.pc, 0x1234);
    assert_eq!(cpu.sp, 0xFD);
    assert_eq!(budget, 0);
    // The program counter after the opcode fetch was 0xFF01; less one is 0xFF00.
    assert_eq!(mem.get(0x1FF), Ok(0xFF));
    assert_eq!(mem.get(0x1FE), Ok(0x00));
}

#[test]
fn jsr_with_full_stack_overflows() {
    let (mut cpu, mut mem) = program(&[0x20, 0x34, 0x12]);
    cpu.sp = 1;
    let mut budget: u32 = 6;
    assert_eq!(cpu.execute(&mut budget, &mut mem), Err(ExecutionError::StackOverflow));
    assert_eq!(cpu.sp, 1);
    assert_eq!(budget, 2);
    assert_eq!(mem.get(0x101), Ok(0));
}

#[test]
fn zero_flag_is_cleared_by_a_later_nonzero_load() {
    let (mut cpu, mut mem) = program(&[0xA9, 0x00, 0xA9, 0x05]);
    assert_eq!(cpu.execute(&mut 2, &mut mem), Ok(()));
    assert!(cpu.status.contains(Flag::Zero));
    assert_eq!(cpu.execute(&mut 2, &mut mem), Ok(()));
    assert!(!cpu.status.contains(Flag::Zero));
    assert_eq!(cpu.a, 5);
}

#[test]
fn negative_flag_is_cleared_by_a_later_positive_load() {
    let (mut cpu, mut mem) = program(&[0xA9, 0x80, 0xA9, 0x7F]);
    assert_eq!(cpu.execute(&mut 4, &mut mem), Ok(()));
    assert!(!cpu.status.contains(Flag::Negative));
    assert!(!cpu.status.contains(Flag::Zero));
}

#[test]
fn zero_budget_fetches_nothing() {
    let (mut cpu, mut mem) = program(&[0xA9, 0x2A]);
    let before = cpu;
    let mut budget: u32 = 0;
    assert_eq!(cpu.execute(&mut budget, &mut mem), Ok(()));
    assert_eq!(cpu, before);
    assert_eq!(budget, 0);
}

#[test]
fn short_budget_completes_instruction_and_reports_exhaustion() {
    let (mut cpu, mut mem) = program(&[0xA9, 0x2A, 0xA9, 0x01]);
    let mut budget: u32 = 3;
    assert_eq!(cpu.execute(&mut budget, &mut mem), Err(ExecutionError::BudgetExhausted));
    assert_eq!(cpu.a, 0x01);
    assert_eq!(budget, 0);
    assert_eq!(cpu.pc, 0xFF04);
}

#[test]
fn unimplemented_opcode_is_reported_after_one_cycle() {
    let (mut cpu, mut mem) = program(&[0xEA]);
    let mut budget: u32 = 10;
    assert_eq!(cpu.execute(&mut budget, &mut mem), Err(ExecutionError::UnimplementedOpcode(0xEA)));
    assert_eq!(budget, 9);
    assert_eq!(cpu.pc, 0xFF01);
}

#[test]
fn decode_is_total_and_inverts_encode() {
    for b in 0..=255u8 {
        let op = OpCode::decode(b);
        assert_eq!(op.encode(), b);
        let known = matches!(b, 0xA9 | 0xA5 | 0xB5 | 0x20);
        assert_eq!(op.instruction().is_some(), known);
        assert_eq!(OpCode::from(b), op);
        assert_eq!(u8::from(op), b);
    }
    assert_eq!(OpCode::decode(0x00), OpCode::Unimplemented(0x00));
}

#[test]
fn decode_table_rows() {
    assert_eq!(
        OpCode::LdaIm.instruction(),
        Some(Instruction { mnemonic: Mnemonic::Lda, mode: AddressingMode::Immediate, cycles: 2 })
    );
    assert_eq!(
        OpCode::LdaZp.instruction(),
        Some(Instruction { mnemonic: Mnemonic::Lda, mode: AddressingMode::ZeroPage, cycles: 3 })
    );
    assert_eq!(
        OpCode::LdaZpX.instruction(),
        Some(Instruction { mnemonic: Mnemonic::Lda, mode: AddressingMode::ZeroPageX, cycles: 4 })
    );
    assert_eq!(
        OpCode::Jsr.instruction(),
        Some(Instruction { mnemonic: Mnemonic::Jsr, mode: AddressingMode::Absolute, cycles: 6 })
    );
    assert_eq!(OpCode::Unimplemented(0xFF).instruction(), None);
}

#[test]
fn memory_starts_zeroed_and_refuses_out_of_range() {
    let mut mem = Memory::initialise();
    assert_eq!(mem.get(0), Ok(0));
    assert_eq!(mem.get(MAX_MEM - 1), Ok(0));
    assert_eq!(mem.get(MAX_MEM), Err(ExecutionError::OutOfBoundsAddress(MAX_MEM)));
    assert_eq!(mem.write(MAX_MEM, 1), Err(ExecutionError::OutOfBoundsAddress(MAX_MEM)));
    assert_eq!(mem.write(0x1234, 7), Ok(()));
    assert_eq!(mem.get(0x1234), Ok(7));
    assert_eq!(mem.read(0x1234), 7);
}

#[test]
fn construction_follows_configuration() {
    let cpu = CPU::new();
    assert_eq!(cpu.pc, DEFAULT_RESET_ADDRESS);
    assert_eq!(cpu.sp, DEFAULT_STACK_POINTER);
    assert_eq!(cpu.a, 0);
    assert_eq!(cpu.status, ProcessorStatus::empty());
    let cfg = CpuConfig { reset_address: 0xFFFC, initial_sp: 0x80 };
    let cpu = CPU::with_config(cfg);
    assert_eq!(cpu.pc, 0xFFFC);
    assert_eq!(cpu.sp, 0x80);
    assert_eq!(CpuConfig::default().reset_address, 0xFF00);
}

#[test]
fn status_flags_set_and_clear_independently() {
    let mut s = ProcessorStatus::empty();
    s.set(Flag::Carry, true);
    s.set(Flag::Overflow, true);
    assert_eq!(s.bits, 0b0100_0001);
    s.recompute_zero_negative(0);
    assert_eq!(s.bits, 0b0100_0011);
    s.recompute_zero_negative(0xFF);
    assert_eq!(s.bits, 0b1100_0001);
    s.set(Flag::Carry, false);
    assert!(!s.contains(Flag::Carry));
    assert!(s.contains(Flag::Overflow));
}
