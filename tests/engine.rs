use nes6502::constant::{ADDRESS_BRK, ADDRESS_TEST_PROGRAM, PC_ADDRESS_RESET, PRG_ROM_ADDRESS};
use nes6502::cpu6502::{Clocked, Cpu6502};
use nes6502::mem::Mem;
use nes6502::model::CpuError;
use nes6502::opcode::{AddressingMode, OpcodeEntry, OpcodeTable, Operation};
use nes6502::stack::{get_sp_offset, Stacked};

fn row(opcode: Operation, address_mode: AddressingMode, cycle: u8) -> OpcodeEntry {
    OpcodeEntry { opcode, address_mode, cycle, extra_cycle: false }
}

fn table() -> OpcodeTable {
    let mut t = OpcodeTable::new();
    t.set(0x00, row(Operation::BRK, AddressingMode::Implied, 7));
    t.set(0xA9, row(Operation::LDA, AddressingMode::Immediate, 2));
    t.set(0xA2, row(Operation::LDX, AddressingMode::Immediate, 2));
    t.set(0xA0, row(Operation::LDY, AddressingMode::Immediate, 2));
    t.set(0xB5, row(Operation::LDA, AddressingMode::ZeroPageX, 4));
    t.set(0xB1, row(Operation::LDA, AddressingMode::IndirectY, 5));
    t.set(0xA1, row(Operation::LDA, AddressingMode::IndirectX, 6));
    t.set(0xBD, row(Operation::LDA, AddressingMode::AbsoluteX, 4));
    t.set(0x8D, row(Operation::STA, AddressingMode::Absolute, 4));
    t.set(0x85, row(Operation::STA, AddressingMode::ZeroPage, 3));
    t.set(0xAA, row(Operation::TAX, AddressingMode::Implied, 2));
    t.set(0xE8, row(Operation::INX, AddressingMode::Implied, 2));
    t.set(0xCA, row(Operation::DEX, AddressingMode::Implied, 2));
    t.set(0xE6, row(Operation::INC, AddressingMode::ZeroPage, 5));
    t.set(0x0A, row(Operation::ASL, AddressingMode::Accumulator, 2));
    t.set(0x4C, row(Operation::JMP, AddressingMode::Absolute, 3));
    t.set(0x6C, row(Operation::JMP, AddressingMode::Indirect, 5));
    t.set(0x48, row(Operation::PHA, AddressingMode::Implied, 3));
    t.set(0x68, row(Operation::PLA, AddressingMode::Implied, 4));
    t.set(0x29, row(Operation::AND, AddressingMode::Immediate, 2));
    t.set(0x38, row(Operation::SEC, AddressingMode::Implied, 2));
    t.set(0xEA, row(Operation::NOP, AddressingMode::Implied, 2));
    t
}

fn engine() -> Cpu6502 {
    Cpu6502::new(table())
}

#[test]
fn zero_and_negative_flags() {
    let mut cpu = engine();
    cpu.update_zero_and_negative_flags(0x00);
    assert!(cpu.registers.zero);
    assert!(!cpu.registers.negative);
    cpu.update_zero_and_negative_flags(0x80);
    assert!(!cpu.registers.zero);
    assert!(cpu.registers.negative);
    cpu.update_zero_and_negative_flags(0x7F);
    assert!(!cpu.registers.zero);
    assert!(!cpu.registers.negative);
}

#[test]
fn is_negative_reads_high_bit() {
    let cpu = engine();
    assert!(cpu.is_negative(0xFF));
    assert!(cpu.is_negative(0x80));
    assert!(!cpu.is_negative(0x7F));
    assert!(!cpu.is_negative(0x00));
}

#[test]
fn accumulator_flags_follow_a() {
    let mut cpu = engine();
    cpu.registers.a = 0x90;
    cpu.update_accumulator_flags();
    assert!(cpu.registers.negative);
    assert!(!cpu.registers.zero);
}

#[test]
fn load_accumulator_then_break() {
    let mut cpu = engine();
    cpu.load_program(vec![0xA9, 0x01, 0x00]).unwrap();
    assert_eq!(cpu.registers.pc, PRG_ROM_ADDRESS);
    cpu.run().unwrap();
    assert_eq!(cpu.registers.a, 0x01);
    assert_eq!(cpu.registers.pc, PRG_ROM_ADDRESS + 2);
    assert_eq!(cpu.debugger.trace.len(), 2);
    assert_eq!(cpu.debugger.trace[1].instr.opcode, Operation::BRK);
    assert_eq!(cpu.instr.unwrap().opcode, Operation::LDA);
    assert_eq!(cpu.clocked(), Ok(false));
}

#[test]
fn bounded_run_three_straight_line_steps() {
    let mut cpu = engine();
    cpu.load_program(vec![0xA9, 0x05, 0xAA, 0xE8, 0x00]).unwrap();
    assert_eq!(cpu.bounded_run(3), Ok(true));
    assert_eq!(cpu.registers.a, 5);
    assert_eq!(cpu.registers.x, 6);
    assert_eq!(cpu.registers.pc, PRG_ROM_ADDRESS + 4);
    assert_eq!(cpu.debugger.trace.len(), 3);
    assert_eq!(cpu.bounded_run(3), Ok(false));
    assert_eq!(cpu.registers.pc, PRG_ROM_ADDRESS + 4);
}

#[test]
fn bounded_run_stops_early_on_break() {
    let mut cpu = engine();
    cpu.load_program(vec![0xA9, 0x05, 0x00, 0xE8]).unwrap();
    assert_eq!(cpu.bounded_run(3), Ok(false));
    assert_eq!(cpu.registers.x, 0);
}

#[test]
fn bounded_run_zero_steps_changes_nothing() {
    let mut cpu = engine();
    cpu.load_program(vec![0xA9, 0x05, 0x00]).unwrap();
    assert_eq!(cpu.bounded_run(0), Ok(true));
    assert_eq!(cpu.registers.a, 0);
    assert_eq!(cpu.registers.pc, PRG_ROM_ADDRESS);
}

#[test]
fn push_pop_reverse_across_wrap() {
    let mut cpu = engine();
    cpu.registers.sp = 0x02;
    let bytes = [10u8, 20, 30, 40, 50, 60];
    for b in bytes {
        cpu.push_stack(b);
    }
    assert_eq!(cpu.registers.sp, 0xFC);
    let mut out = Vec::new();
    for _ in 0..bytes.len() {
        out.push(cpu.pop_stack());
    }
    assert_eq!(out, vec![60, 50, 40, 30, 20, 10]);
    assert_eq!(cpu.registers.sp, 0x02);
}

#[test]
fn push_writes_then_decrements() {
    let mut cpu = engine();
    cpu.registers.sp = 0x00;
    cpu.push_stack(0xAB);
    assert_eq!(cpu.mapper[0x0100], 0xAB);
    assert_eq!(cpu.registers.sp, 0xFF);
    assert_eq!(cpu.pop_stack(), 0xAB);
    assert_eq!(cpu.registers.sp, 0x00);
}

#[test]
fn push16_pop16_round_trip() {
    for (sp, v) in [(0xFDu8, 0x1234u16), (0x00, 0xFFFF), (0x01, 0x0000), (0x80, 0xA55A)] {
        let mut cpu = engine();
        cpu.registers.sp = sp;
        cpu.push_stack16(v);
        assert_eq!(cpu.registers.sp, sp.wrapping_sub(2));
        assert_eq!(cpu.pop_stack16(), v);
        assert_eq!(cpu.registers.sp, sp);
    }
}

#[test]
fn push16_puts_low_byte_on_top() {
    let mut cpu = engine();
    cpu.registers.sp = 0xFD;
    cpu.push_stack16(0xBEEF);
    assert_eq!(cpu.mapper[0x01FD], 0xBE);
    assert_eq!(cpu.mapper[0x01FC], 0xEF);
    assert_eq!(cpu.pop_stack(), 0xEF);
}

#[test]
fn reads_below_0x2000_are_mirrored() {
    let mut cpu = engine();
    cpu.mem_write(0x0005, 7);
    assert_eq!(cpu.mem_read(0x0005), 7);
    assert_eq!(cpu.mem_read(0x0805), 7);
    assert_eq!(cpu.mem_read(0x1005), 7);
    assert_eq!(cpu.mem_read(0x1805), 7);
    cpu.mem_write(0x0805, 9);
    assert_eq!(cpu.mapper[0x0805], 9);
    assert_eq!(cpu.mem_read(0x0805), 7);
    cpu.mem_write(0x2005, 11);
    assert_eq!(cpu.mem_read(0x2005), 11);
    assert_eq!(cpu.mem_read(0x0005), 7);
}

#[test]
fn word_write_then_read() {
    let mut cpu = engine();
    cpu.mem_write_u16(0x3000, 0xBEEF);
    assert_eq!(cpu.mem_read_u16(0x3000), 0xBEEF);
    assert_eq!(cpu.mapper[0x3000], 0xEF);
    assert_eq!(cpu.mapper[0x3001], 0xBE);
    cpu.mem_write_u16(0x0010, 0x0102);
    assert_eq!(cpu.mem_read_u16(0x0010), 0x0102);
    cpu.mem_write_u16(0xFFFE, 0xCAFE);
    assert_eq!(cpu.mem_read_u16(0xFFFE), 0xCAFE);
}

#[test]
fn word_at_top_wraps_to_zero() {
    let mut cpu = engine();
    cpu.mem_write_u16(0xFFFF, 0x1234);
    assert_eq!(cpu.mapper[0xFFFF], 0x34);
    assert_eq!(cpu.mapper[0x0000], 0x12);
    assert_eq!(cpu.mem_read_u16(0xFFFF), 0x1234);
}

#[test]
fn status_byte_layout() {
    let mut cpu = engine();
    cpu.registers.carry = true;
    cpu.registers.negative = true;
    assert_eq!(cpu.status_register_byte(true), 0xB1);
    assert_eq!(cpu.status_register_byte(false), 0xA1);
    cpu.set_status_register_from_byte(0xFF);
    assert_eq!(cpu.status_register_byte(false), 0xEF);
    cpu.set_status_register_from_byte(0x30);
    assert_eq!(cpu.status_register_byte(false), 0x20);
}

#[test]
fn status_round_trip() {
    for bits in 0u8..64 {
        let mut cpu = engine();
        cpu.registers.carry = bits & 1 != 0;
        cpu.registers.zero = bits & 2 != 0;
        cpu.registers.interrupt_disabled = bits & 4 != 0;
        cpu.registers.decimal = bits & 8 != 0;
        cpu.registers.overflow = bits & 16 != 0;
        cpu.registers.negative = bits & 32 != 0;
        let before = cpu.registers;
        for ctx in [true, false] {
            let b = cpu.status_register_byte(ctx);
            let mut other = engine();
            other.set_status_register_from_byte(b);
            let r = other.registers;
            assert_eq!(r.carry, before.carry);
            assert_eq!(r.zero, before.zero);
            assert_eq!(r.interrupt_disabled, before.interrupt_disabled);
            assert_eq!(r.decimal, before.decimal);
            assert_eq!(r.overflow, before.overflow);
            assert_eq!(r.negative, before.negative);
        }
    }
}

#[test]
fn uniform_accessor() {
    let mut cpu = engine();
    cpu.registers.a = 3;
    assert_eq!(cpu.read_write_target(None), 3);
    cpu.store_write_target(9, None);
    assert_eq!(cpu.registers.a, 9);
    cpu.store_write_target(4, Some(0x0801));
    assert_eq!(cpu.mapper[0x0801], 4);
    assert_eq!(cpu.read_write_target(Some(0x0801)), 0);
    cpu.store_write_target(5, Some(0x4000));
    assert_eq!(cpu.read_write_target(Some(0x4000)), 5);
}

#[test]
fn missing_table_row_is_decode_error() {
    let mut cpu = engine();
    cpu.load_program(vec![0xFF]).unwrap();
    assert_eq!(cpu.clocked(), Err(CpuError::Decode(0xFF)));
    assert_eq!(cpu.registers.pc, PRG_ROM_ADDRESS);
    assert!(cpu.debugger.trace.is_empty());
    assert_eq!(cpu.run(), Err(CpuError::Decode(0xFF)));
}

#[test]
fn missing_handler_is_dispatch_error() {
    let mut cpu = engine();
    cpu.load_program(vec![0x0A, 0x00]).unwrap();
    assert_eq!(cpu.bounded_run(2), Err(CpuError::Dispatch(Operation::ASL)));
    assert_eq!(cpu.registers.pc, PRG_ROM_ADDRESS + 1);
}

#[test]
fn oversized_program_is_load_error() {
    let mut cpu = engine();
    assert_eq!(cpu.load_program(vec![0xEA; 0x8001]), Err(CpuError::Load(0x8001)));
    assert_eq!(cpu.mapper[0x8000], 0);
    assert_eq!(cpu.load_test_program(vec![0xEA; 0x8001]), Err(CpuError::Load(0x8001)));
    assert_eq!(cpu.load_program(vec![0xEA; 0x8000]), Ok(()));
    assert_eq!(cpu.registers.pc, PRG_ROM_ADDRESS);
}

#[test]
fn test_load_path_skips_reset() {
    let mut cpu = engine();
    cpu.registers.a = 7;
    cpu.registers.pc = 0x1234;
    cpu.load_test_program(vec![0xA9, 0x02, 0x00]).unwrap();
    assert_eq!(cpu.mem_read_u16(ADDRESS_TEST_PROGRAM), PRG_ROM_ADDRESS);
    assert_eq!(cpu.mem_read_u16(PC_ADDRESS_RESET), 0);
    assert_eq!(cpu.registers.a, 7);
    assert_eq!(cpu.registers.pc, 0x1234);
    assert_eq!(cpu.mapper[0x8001], 0x02);
}

#[test]
fn reset_clears_a_and_x_only() {
    let mut cpu = engine();
    cpu.mem_write_u16(PC_ADDRESS_RESET, 0x9000);
    cpu.registers.a = 1;
    cpu.registers.x = 2;
    cpu.registers.y = 3;
    cpu.registers.carry = true;
    cpu.reset();
    assert_eq!(cpu.registers.a, 0);
    assert_eq!(cpu.registers.x, 0);
    assert_eq!(cpu.registers.y, 3);
    assert!(cpu.registers.carry);
    assert_eq!(cpu.registers.pc, 0x9000);
    assert!(cpu.instr.is_none());
}

#[test]
fn pending_cycles_accumulate() {
    let mut cpu = engine();
    cpu.load_program(vec![0xA9, 0x01, 0x85, 0x10, 0x00]).unwrap();
    assert_eq!(cpu.bounded_run(2), Ok(true));
    assert_eq!(cpu.clocks_to_pause, 3);
    assert_eq!(cpu.mapper[0x10], 1);
}

#[test]
fn zero_page_x_wraps_in_page() {
    let mut cpu = engine();
    cpu.mem_write(0x0004, 0x42);
    cpu.load_program(vec![0xA2, 0x05, 0xB5, 0xFF, 0x00]).unwrap();
    cpu.run().unwrap();
    assert_eq!(cpu.registers.a, 0x42);
    assert_eq!(cpu.instr.unwrap().write_target, Some(0x0004));
    assert_eq!(cpu.instr.unwrap().mode_args, 0x00FF);
}

#[test]
fn indirect_modes_chase_zero_page_pointers() {
    let mut cpu = engine();
    cpu.mem_write(0x0020, 0x00);
    cpu.mem_write(0x0021, 0x30);
    cpu.mem_write(0x3003, 0x77);
    cpu.mem_write(0x3000, 0x66);
    cpu.load_program(vec![0xA0, 0x03, 0xB1, 0x20, 0xA2, 0x10, 0xA1, 0x10, 0x00]).unwrap();
    assert_eq!(cpu.bounded_run(2), Ok(true));
    assert_eq!(cpu.registers.a, 0x77);
    assert_eq!(cpu.bounded_run(2), Ok(true));
    assert_eq!(cpu.registers.a, 0x66);
}

#[test]
fn absolute_store_and_indexed_load() {
    let mut cpu = engine();
    cpu.load_program(vec![0xA9, 0x99, 0x8D, 0x05, 0x40, 0xA2, 0x02, 0xA9, 0x00, 0xBD, 0x03, 0x40, 0x00])
        .unwrap();
    cpu.run().unwrap();
    assert_eq!(cpu.mapper[0x4005], 0x99);
    assert_eq!(cpu.registers.a, 0x99);
    assert!(cpu.registers.negative);
}

#[test]
fn jump_to_terminal_address_ends_run() {
    let mut cpu = engine();
    cpu.load_program(vec![0x4C, 0xFE, 0xFF]).unwrap();
    cpu.run().unwrap();
    assert_eq!(cpu.registers.pc, ADDRESS_BRK);
}

#[test]
fn indirect_jump() {
    let mut cpu = engine();
    cpu.mem_write_u16(0x5000, 0x8010);
    let mut program = vec![0x6C, 0x00, 0x50];
    program.resize(0x10, 0xEA);
    program.extend([0xA9, 0x3C, 0x00]);
    cpu.load_program(program).unwrap();
    cpu.run().unwrap();
    assert_eq!(cpu.registers.a, 0x3C);
    assert_eq!(cpu.registers.pc, 0x8012);
}

#[test]
fn stack_handlers_and_flags() {
    let mut cpu = engine();
    cpu.registers.sp = 0xFD;
    cpu.load_program(vec![0xA9, 0x81, 0x48, 0xA9, 0x00, 0x68, 0x29, 0x0F, 0x38, 0xCA, 0xE6, 0x30, 0x00])
        .unwrap();
    cpu.run().unwrap();
    assert_eq!(cpu.registers.sp, 0xFD);
    assert_eq!(cpu.registers.a, 0x01);
    assert!(cpu.registers.carry);
    assert_eq!(cpu.registers.x, 0xFF);
    assert_eq!(cpu.mapper[0x30], 1);
    assert!(!cpu.registers.zero);
    assert!(!cpu.registers.negative);
}

#[test]
fn stack_slot_address() {
    assert_eq!(get_sp_offset(0x00), 0x0100);
    assert_eq!(get_sp_offset(0x10), 0x0110);
    assert_eq!(get_sp_offset(0xFF), 0x01FF);
}

#[test]
fn default_engine_has_no_rows() {
    let mut cpu = Cpu6502::default();
    assert_eq!(cpu.mapper.len(), 0x10000);
    assert_eq!(cpu.clocked(), Err(CpuError::Decode(0x00)));
    let t = OpcodeTable::new();
    assert_eq!(t.get(0xA9), None);
    assert_eq!(table().get(0xA9), Some(row(Operation::LDA, AddressingMode::Immediate, 2)));
}

fn control_table() -> OpcodeTable {
    let mut t = table();
    t.set(0xD0, row(Operation::BNE, AddressingMode::Relative, 2));
    t.set(0xF0, row(Operation::BEQ, AddressingMode::Relative, 2));
    t.set(0xC9, row(Operation::CMP, AddressingMode::Immediate, 2));
    t.set(0xE0, row(Operation::CPX, AddressingMode::Immediate, 2));
    t.set(0x20, row(Operation::JSR, AddressingMode::Absolute, 6));
    t.set(0x60, row(Operation::RTS, AddressingMode::Implied, 6));
    t
}

#[test]
fn backward_branch_counts_down() {
    let mut cpu = Cpu6502::new(control_table());
    // LDX #3; loop: DEX; BNE loop; BRK
    cpu.load_program(vec![0xA2, 0x03, 0xCA, 0xD0, 0xFD, 0x00]).unwrap();
    cpu.run().unwrap();
    assert_eq!(cpu.registers.x, 0);
    assert!(cpu.registers.zero);
    assert_eq!(cpu.registers.pc, PRG_ROM_ADDRESS + 5);
    assert_eq!(cpu.debugger.trace.len(), 1 + 2 * 3 + 1);
}

#[test]
fn forward_branch_is_relative_to_next_instruction() {
    let mut cpu = Cpu6502::new(control_table());
    // LDA #0; BEQ +2; LDA #9; BRK (skipped pair); BRK
    cpu.load_program(vec![0xA9, 0x00, 0xF0, 0x02, 0xA9, 0x09, 0x00]).unwrap();
    cpu.run().unwrap();
    assert_eq!(cpu.registers.a, 0);
    assert_eq!(cpu.registers.pc, PRG_ROM_ADDRESS + 6);
}

#[test]
fn compare_sets_carry_zero_negative() {
    let mut cpu = Cpu6502::new(control_table());
    cpu.load_program(vec![0xA9, 0x10, 0xC9, 0x10, 0x00]).unwrap();
    cpu.run().unwrap();
    assert!(cpu.registers.carry && cpu.registers.zero && !cpu.registers.negative);
    let mut cpu = Cpu6502::new(control_table());
    cpu.load_program(vec![0xA2, 0x01, 0xE0, 0x02, 0x00]).unwrap();
    cpu.run().unwrap();
    assert!(!cpu.registers.carry && !cpu.registers.zero && cpu.registers.negative);
}

#[test]
fn subroutine_call_and_return() {
    let mut cpu = Cpu6502::new(control_table());
    cpu.registers.sp = 0xFD;
    // JSR $8006; LDX #7; BRK; (pad) sub: LDA #4; RTS
    cpu.load_program(vec![0x20, 0x06, 0x80, 0xA2, 0x07, 0x00, 0xA9, 0x04, 0x60]).unwrap();
    assert_eq!(cpu.bounded_run(1), Ok(true));
    assert_eq!(cpu.registers.pc, 0x8006);
    assert_eq!(cpu.registers.sp, 0xFB);
    assert_eq!(cpu.mapper[0x01FD], 0x80);
    assert_eq!(cpu.mapper[0x01FC], 0x02);
    cpu.run().unwrap();
    assert_eq!(cpu.registers.a, 4);
    assert_eq!(cpu.registers.x, 7);
    assert_eq!(cpu.registers.sp, 0xFD);
    assert_eq!(cpu.registers.pc, PRG_ROM_ADDRESS + 5);
}

#[test]
fn run_at_terminal_address_changes_nothing() {
    let mut cpu = engine();
    cpu.registers.pc = ADDRESS_BRK;
    cpu.clocks_to_pause = 3;
    assert_eq!(cpu.run(), Ok(()));
    assert_eq!(cpu.registers.pc, ADDRESS_BRK);
    assert_eq!(cpu.clocks_to_pause, 3);
    assert!(cpu.debugger.trace.is_empty());
    assert!(cpu.instr.is_none());
}

#[test]
fn bounded_run_keeps_last_instruction() {
    let mut cpu = engine();
    cpu.load_program(vec![0xEA, 0xEA, 0xEA]).unwrap();
    assert_eq!(cpu.bounded_run(3), Ok(true));
    assert_eq!(cpu.registers.pc, PRG_ROM_ADDRESS + 3);
    assert_eq!(cpu.instr.unwrap().opcode, Operation::NOP);
    assert_eq!(cpu.registers.a, 0);
    assert_eq!(cpu.registers.x, 0);
}

#[test]
fn run_spends_pending_cycles() {
    let mut cpu = engine();
    cpu.load_program(vec![0xA9, 0x01, 0xEA, 0x00]).unwrap();
    cpu.clocks_to_pause = 5;
    cpu.run().unwrap();
    // 5 - 1 + 1 (LDA) - 1 + 1 (NOP) - 1 before the break
    assert_eq!(cpu.clocks_to_pause, 4);
}

#[test]
fn default_engine_registers_are_zero() {
    let cpu = Cpu6502::default();
    assert_eq!(cpu.registers.a, 0);
    assert_eq!(cpu.registers.pc, 0);
    assert!(!cpu.registers.carry);
    assert_eq!(cpu.clocks_to_pause, 0);
}
