use nes_cpu::cpu::{CPU, PROGRAM_BASE, RESET_VECTOR, STACK_RESET};
use nes_cpu::error::CpuError;
use nes_cpu::flags::{CpuFlags, Flag, POWER_UP_STATUS};
use nes_cpu::opcodes::{AddressMode, OpCode, OpcodeCatalog};

fn standard() -> OpcodeCatalog {
    OpcodeCatalog::standard().expect("the standard catalog has no duplicate codes")
}

#[test]
fn test_lda() {
    let mut cpu = CPU::new();
    let _ = cpu.interpret(vec![0xa9, 0x05, 0x00]);
    assert_eq!(cpu.register_a, 0x05);
    assert!(cpu.status.bits & 0b0000_0010 == 0b00);
    assert!(cpu.status.bits & 0b1000_0000 == 0);
}

#[test]
fn test_lda_ccr() {
    let mut cpu = CPU::new();
    let _ = cpu.interpret(vec![0xa9, 0x00, 0x00]);
    assert!(cpu.status.bits & 0b0000_0010 == 0b10);
}

#[test]
fn test_5_ops_working_together() {
    let mut cpu = CPU::new();
    let _ = cpu.interpret(vec![0xa9, 0xc0, 0xaa, 0xe8, 0x00]);

    assert_eq!(cpu.register_x, 0xc1)
}

#[test]
fn test_inx_overflow() {
    let mut cpu = CPU::new();
    cpu.register_x = 0xff;
    let _ = cpu.interpret(vec![0xe8, 0xe8, 0x00]);

    assert_eq!(cpu.register_x, 1)
}

#[test]
fn new_cpu_is_zeroed() {
    let cpu = CPU::new();
    assert_eq!(cpu.register_a, 0);
    assert_eq!(cpu.register_x, 0);
    assert_eq!(cpu.register_y, 0);
    assert_eq!(cpu.program_counter, 0);
    assert_eq!(cpu.stack_pointer, STACK_RESET);
    assert_eq!(cpu.status.bits, 0);
    assert_eq!(cpu.mem_read(0x1234), 0);
    assert_eq!(cpu.mem_read(0xFFFF), 0);
}

#[test]
fn interpret_returns_ok_on_brk() {
    let mut cpu = CPU::new();
    assert_eq!(cpu.interpret(vec![0xa9, 0x05, 0x00]), Ok(()));
    assert_eq!(cpu.program_counter, 0x8003);
}

#[test]
fn lda_negative_sets_negative_and_keeps_other_flags() {
    let mut cpu = CPU::new();
    cpu.status.set(Flag::Carry);
    cpu.status.set(Flag::Overflow);
    let before = cpu.status.bits;
    assert_eq!(cpu.interpret(vec![0xa9, 0x80, 0x00]), Ok(()));
    assert_eq!(cpu.register_a, 0x80);
    assert!(cpu.status.test(Flag::Negative));
    assert!(!cpu.status.test(Flag::Zero));
    assert_eq!(cpu.status.bits & !0b1000_0010, before & !0b1000_0010);
}

#[test]
fn lda_zero_clears_negative_set_before() {
    let mut cpu = CPU::new();
    cpu.status.set(Flag::Negative);
    cpu.status.set(Flag::Carry);
    assert_eq!(cpu.interpret(vec![0xa9, 0x00, 0x00]), Ok(()));
    assert!(cpu.status.test(Flag::Zero));
    assert!(!cpu.status.test(Flag::Negative));
    assert!(cpu.status.test(Flag::Carry));
}

#[test]
fn tax_sets_flags_as_lda_of_the_same_value() {
    for v in [0x00u8, 0x01, 0x7f, 0x80, 0xc0, 0xff] {
        let mut by_lda = CPU::new();
        assert_eq!(by_lda.interpret(vec![0xa9, v, 0x00]), Ok(()));

        let mut by_tax = CPU::new();
        by_tax.register_a = v;
        assert_eq!(by_tax.interpret(vec![0xaa, 0x00]), Ok(()));

        assert_eq!(by_tax.register_x, v);
        assert_eq!(by_tax.register_a, v);
        assert_eq!(by_tax.status.bits, by_lda.status.bits);
    }
}

#[test]
fn inx_wraps_to_zero_with_zero_set() {
    let mut cpu = CPU::new();
    cpu.register_x = 0xff;
    assert_eq!(cpu.interpret(vec![0xe8, 0x00]), Ok(()));
    assert_eq!(cpu.register_x, 0x00);
    assert!(cpu.status.test(Flag::Zero));
    assert!(!cpu.status.test(Flag::Negative));
}

#[test]
fn load_and_run_from_reset() {
    let catalog = standard();
    let mut cpu = CPU::new();
    cpu.register_x = 0x33;
    assert_eq!(cpu.load_and_run(vec![0xa9, 0xc0, 0xaa, 0xe8, 0x00], &catalog), Ok(()));
    assert_eq!(cpu.register_a, 0xc0);
    assert_eq!(cpu.register_x, 0xc1);
    assert!(cpu.status.test(Flag::Negative));
    assert!(!cpu.status.test(Flag::Zero));
    assert_eq!(cpu.program_counter, 0x8005);
}

#[test]
fn load_writes_program_and_reset_vector() {
    let mut cpu = CPU::new();
    assert_eq!(cpu.load(vec![1, 2, 3]), Ok(()));
    assert_eq!(cpu.mem_read(0x8000), 1);
    assert_eq!(cpu.mem_read(0x8001), 2);
    assert_eq!(cpu.mem_read(0x8002), 3);
    assert_eq!(cpu.mem_read(0x8003), 0);
    assert_eq!(cpu.mem_read(0xFFFC), 0x00);
    assert_eq!(cpu.mem_read(0xFFFD), 0x80);
    assert_eq!(cpu.mem_read_u16(RESET_VECTOR), PROGRAM_BASE);
    assert_eq!(cpu.program_counter, 0x8000);
}

#[test]
fn load_then_reset_starts_at_base_for_any_length() {
    for len in [0usize, 1, 2, 0x100, 0x7FFC, 0x7FFE, 0x8000] {
        let mut cpu = CPU::new();
        cpu.program_counter = 0x1234;
        cpu.register_a = 9;
        cpu.stack_pointer = 0;
        assert_eq!(cpu.load(vec![0xEA; len]), Ok(()));
        cpu.reset();
        assert_eq!(cpu.program_counter, 0x8000);
        assert_eq!(cpu.register_a, 0);
        assert_eq!(cpu.stack_pointer, STACK_RESET);
        assert_eq!(cpu.status.bits, POWER_UP_STATUS);
    }
}

#[test]
fn load_refuses_program_too_large() {
    let mut cpu = CPU::new();
    cpu.program_counter = 0x1234;
    assert_eq!(cpu.load(vec![0xEA; 0x8001]), Err(CpuError::ProgramTooLarge));
    assert_eq!(cpu.program_counter, 0x1234);
    assert_eq!(cpu.mem_read(0x8000), 0);
    assert_eq!(cpu.mem_read(0xFFFC), 0);
}

#[test]
fn load_and_run_refuses_program_too_large() {
    let catalog = standard();
    let mut cpu = CPU::new();
    assert_eq!(
        cpu.load_and_run(vec![0xEA; 0x8001], &catalog),
        Err(CpuError::ProgramTooLarge)
    );
}

#[test]
fn unknown_opcode_stops_without_rollback() {
    let mut cpu = CPU::new();
    assert_eq!(
        cpu.interpret(vec![0xa9, 0x05, 0xaa, 0xff, 0xe8, 0x00]),
        Err(CpuError::UnknownOpcode(0xff))
    );
    assert_eq!(cpu.register_a, 0x05);
    assert_eq!(cpu.register_x, 0x05);
    assert_eq!(cpu.program_counter, 0x8004);
}

#[test]
fn cataloged_but_unhandled_opcode_is_unimplemented() {
    let mut cpu = CPU::new();
    assert_eq!(
        cpu.interpret(vec![0xa9, 0x07, 0xea, 0x00]),
        Err(CpuError::Unimplemented(0xea))
    );
    assert_eq!(cpu.register_a, 0x07);
    assert_eq!(cpu.program_counter, 0x8003);
}

#[test]
fn handler_asking_address_of_implied_mode_fails() {
    let entries = vec![
        OpCode::new(0x00, "BRK", 1, 7, AddressMode::NoneAddress),
        OpCode::new(0xA9, "LDA", 2, 2, AddressMode::NoneAddress),
    ];
    let catalog = OpcodeCatalog::from_entries(&entries).unwrap();
    let mut cpu = CPU::new();
    assert_eq!(
        cpu.load_and_run(vec![0xa9, 0x05, 0x00], &catalog),
        Err(CpuError::UnsupportedAddressingMode)
    );
    assert_eq!(cpu.register_a, 0);
}

#[test]
fn step_reports_brk() {
    let catalog = standard();
    let mut cpu = CPU::new();
    cpu.load(vec![0xe8, 0x00]).unwrap();
    cpu.reset();
    assert_eq!(cpu.step(&catalog), Ok(false));
    assert_eq!(cpu.register_x, 1);
    assert_eq!(cpu.program_counter, 0x8001);
    assert_eq!(cpu.step(&catalog), Ok(true));
    assert_eq!(cpu.program_counter, 0x8002);
}

#[test]
fn lda_zero_page_and_absolute_modes() {
    let catalog = standard();
    let mut cpu = CPU::new();
    cpu.mem_write(0x0042, 0x11);
    cpu.mem_write(0x1234, 0x22);
    cpu.mem_write(0x1244, 0x33);
    cpu.load(vec![0xa5, 0x42, 0xaa, 0xad, 0x34, 0x12, 0x00]).unwrap();
    cpu.reset();
    assert_eq!(cpu.run(&catalog), Ok(()));
    assert_eq!(cpu.register_x, 0x11);
    assert_eq!(cpu.register_a, 0x22);
    assert_eq!(cpu.program_counter, 0x8007);

    let mut cpu = CPU::new();
    cpu.mem_write(0x1244, 0x33);
    cpu.load(vec![0xe8, 0xbd, 0x43, 0x12, 0x00]).unwrap();
    cpu.reset();
    assert_eq!(cpu.run(&catalog), Ok(()));
    assert_eq!(cpu.register_a, 0x33);
}

#[test]
fn adc_adds_with_carry_and_sets_flags() {
    let catalog = standard();

    let mut cpu = CPU::new();
    cpu.load(vec![0xa9, 0x50, 0x69, 0x50, 0x00]).unwrap();
    cpu.reset();
    assert_eq!(cpu.run(&catalog), Ok(()));
    assert_eq!(cpu.register_a, 0xa0);
    assert!(cpu.status.test(Flag::Overflow));
    assert!(!cpu.status.test(Flag::Carry));
    assert!(cpu.status.test(Flag::Negative));
    assert!(!cpu.status.test(Flag::Zero));

    let mut cpu = CPU::new();
    cpu.load(vec![0xa9, 0xff, 0x69, 0x01, 0x00]).unwrap();
    cpu.reset();
    assert_eq!(cpu.run(&catalog), Ok(()));
    assert_eq!(cpu.register_a, 0x00);
    assert!(cpu.status.test(Flag::Carry));
    assert!(cpu.status.test(Flag::Zero));
    assert!(!cpu.status.test(Flag::Overflow));
    assert!(!cpu.status.test(Flag::Negative));

    let mut cpu = CPU::new();
    cpu.mem_write(0x0010, 0x02);
    cpu.load(vec![0xa9, 0x03, 0x65, 0x10, 0x00]).unwrap();
    cpu.reset();
    cpu.status.set(Flag::Carry);
    assert_eq!(cpu.run(&catalog), Ok(()));
    assert_eq!(cpu.register_a, 0x06);
    assert!(!cpu.status.test(Flag::Carry));

    let mut cpu = CPU::new();
    cpu.load(vec![0xa9, 0x90, 0x69, 0x90, 0x00]).unwrap();
    cpu.reset();
    assert_eq!(cpu.run(&catalog), Ok(()));
    assert_eq!(cpu.register_a, 0x20);
    assert!(cpu.status.test(Flag::Carry));
    assert!(cpu.status.test(Flag::Overflow));
}

#[test]
fn immediate_address_is_program_counter() {
    let mut cpu = CPU::new();
    cpu.program_counter = 0x4321;
    assert_eq!(cpu.get_operand_address(&AddressMode::Immediate), Ok(0x4321));
}

#[test]
fn zero_page_indexed_wraps_within_page_zero() {
    let mut cpu = CPU::new();
    cpu.program_counter = 0x0200;
    cpu.mem_write(0x0200, 0xF0);
    cpu.register_x = 0x20;
    cpu.register_y = 0x0F;
    assert_eq!(cpu.get_operand_address(&AddressMode::ZeroPage), Ok(0x00F0));
    assert_eq!(cpu.get_operand_address(&AddressMode::ZeroPageX), Ok(0x0010));
    assert_eq!(cpu.get_operand_address(&AddressMode::ZeroPageY), Ok(0x00FF));
}

#[test]
fn absolute_indexed_wraps_sixteen_bits() {
    let mut cpu = CPU::new();
    cpu.program_counter = 0x0300;
    cpu.mem_write_u16(0x0300, 0xFFF0);
    cpu.register_x = 0x20;
    cpu.register_y = 0x05;
    assert_eq!(cpu.get_operand_address(&AddressMode::Absolute), Ok(0xFFF0));
    assert_eq!(cpu.get_operand_address(&AddressMode::AbsoluteX), Ok(0x0010));
    assert_eq!(cpu.get_operand_address(&AddressMode::AbsoluteY), Ok(0xFFF5));
}

#[test]
fn indirect_x_reads_pointer_in_page_zero() {
    let mut cpu = CPU::new();
    cpu.program_counter = 0x0400;
    cpu.mem_write(0x0400, 0x20);
    cpu.register_x = 0x04;
    cpu.mem_write(0x0024, 0x74);
    cpu.mem_write(0x0025, 0x20);
    assert_eq!(cpu.get_operand_address(&AddressMode::IndirectX), Ok(0x2074));
}

#[test]
fn indirect_x_pointer_wraps_and_high_byte_wraps() {
    let mut cpu = CPU::new();
    cpu.program_counter = 0x0400;
    cpu.mem_write(0x0400, 0xF0);
    cpu.register_x = 0x0F;
    cpu.mem_write(0x00FF, 0x34);
    cpu.mem_write(0x0100, 0x99);
    cpu.mem_write(0x0000, 0x12);
    assert_eq!(cpu.get_operand_address(&AddressMode::IndirectX), Ok(0x1234));

    cpu.register_x = 0x20;
    cpu.mem_write(0x0010, 0xCD);
    cpu.mem_write(0x0011, 0xAB);
    assert_eq!(cpu.get_operand_address(&AddressMode::IndirectX), Ok(0xABCD));
}

#[test]
fn indirect_y_adds_y_to_word_from_page_zero() {
    let mut cpu = CPU::new();
    cpu.program_counter = 0x0400;
    cpu.mem_write(0x0400, 0x86);
    cpu.mem_write(0x0086, 0x28);
    cpu.mem_write(0x0087, 0x40);
    cpu.register_y = 0x10;
    assert_eq!(cpu.get_operand_address(&AddressMode::IndirectY), Ok(0x4038));
}

#[test]
fn indirect_y_high_byte_wraps_and_sum_crosses_pages() {
    let mut cpu = CPU::new();
    cpu.program_counter = 0x0400;
    cpu.mem_write(0x0400, 0xFF);
    cpu.mem_write(0x00FF, 0xF0);
    cpu.mem_write(0x0100, 0x77);
    cpu.mem_write(0x0000, 0x00);
    cpu.register_y = 0x20;
    assert_eq!(cpu.get_operand_address(&AddressMode::IndirectY), Ok(0x0110));

    cpu.mem_write(0x0000, 0xFF);
    cpu.mem_write(0x00FF, 0xFF);
    cpu.register_y = 0x02;
    assert_eq!(cpu.get_operand_address(&AddressMode::IndirectY), Ok(0x0001));
}

#[test]
fn implied_mode_has_no_operand_address() {
    let cpu = CPU::new();
    assert_eq!(
        cpu.get_operand_address(&AddressMode::NoneAddress),
        Err(CpuError::UnsupportedAddressingMode)
    );
}

#[test]
fn words_are_little_endian_and_wrap_at_end_of_memory() {
    let mut cpu = CPU::new();
    cpu.mem_write_u16(0x1000, 0xBEEF);
    assert_eq!(cpu.mem_read(0x1000), 0xEF);
    assert_eq!(cpu.mem_read(0x1001), 0xBE);
    assert_eq!(cpu.mem_read_u16(0x1000), 0xBEEF);

    cpu.mem_write_u16(0xFFFF, 0x1234);
    assert_eq!(cpu.mem_read(0xFFFF), 0x34);
    assert_eq!(cpu.mem_read(0x0000), 0x12);
    assert_eq!(cpu.mem_read_u16(0xFFFF), 0x1234);
}

#[test]
fn accessors_read_and_write_registers() {
    let mut cpu = CPU::new();
    cpu.set_register_a(1);
    cpu.set_register_x(2);
    cpu.set_register_y(3);
    cpu.set_program_counter(0x1234);
    cpu.set_stack_pointer(0x40);
    cpu.set_status(CpuFlags::from_bits_truncate(0b1000_0001));
    assert_eq!(cpu.register_a(), 1);
    assert_eq!(cpu.register_x(), 2);
    assert_eq!(cpu.register_y(), 3);
    assert_eq!(cpu.program_counter(), 0x1234);
    assert_eq!(cpu.stack_pointer(), 0x40);
    assert_eq!(cpu.status().bits(), 0b1000_0001);
    assert_eq!(cpu.register_x, 2);
}

#[test]
fn handlers_called_directly() {
    let mut cpu = CPU::new();
    cpu.program_counter = 0x0200;
    cpu.mem_write(0x0200, 0x80);
    assert_eq!(cpu.lda(&AddressMode::Immediate), Ok(()));
    assert_eq!(cpu.register_a, 0x80);
    assert!(cpu.status.test(Flag::Negative));
    cpu.tax();
    assert_eq!(cpu.register_x, 0x80);
    cpu.register_x = 0xff;
    cpu.inx();
    assert_eq!(cpu.register_x, 0);
    assert!(cpu.status.test(Flag::Zero));
    assert_eq!(cpu.adc(&AddressMode::NoneAddress), Err(CpuError::UnsupportedAddressingMode));
    assert_eq!(cpu.adc(&AddressMode::Immediate), Ok(()));
    assert_eq!(cpu.register_a, 0x00);
    assert!(cpu.status.test(Flag::Carry));
    assert!(cpu.status.test(Flag::Overflow));
}
