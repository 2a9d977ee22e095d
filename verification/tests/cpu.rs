use nes_core::bus::Bus;
use nes_core::cartridge::Rom;
use nes_core::cpu::{find_opcode, AddressingMode, Mem, Status, CPU};
use nes_core::flags::{CpuFlags, Flag};

/// An iNES image: two program banks that hold `program` at 0x8000, the
/// given vectors, and one character bank.
fn image(program: &[u8], reset: u16, nmi: u16) -> Vec<u8> {
    let mut raw = vec![0x4E, 0x45, 0x53, 0x1A, 0x02, 0x01, 0x01, 0x00];
    raw.extend_from_slice(&[0u8; 8]);
    let mut prg = vec![0u8; 0x8000];
    prg[..program.len()].copy_from_slice(program);
    prg[0x7FFA] = (nmi & 0xff) as u8;
    prg[0x7FFB] = (nmi >> 8) as u8;
    prg[0x7FFC] = (reset & 0xff) as u8;
    prg[0x7FFD] = (reset >> 8) as u8;
    raw.extend_from_slice(&prg);
    raw.extend_from_slice(&[0u8; 0x2000]);
    raw
}

fn test_rom(program: Vec<u8>) -> Rom {
    Rom::new(&image(&program, 0x8000, 0x8000)).unwrap()
}

/// A processor after reset, about to run `program` from 0x8000.
fn cpu_with(program: Vec<u8>) -> CPU {
    let mut cpu = CPU::new(Bus::new(test_rom(program)));
    cpu.reset();
    cpu
}

fn has(cpu: &CPU, flag: Flag) -> bool {
    cpu.register_p.contains(flag)
}

#[test]
fn test_0xa9_lda_immediate_load_data() {
    let bus = Bus::new(test_rom(vec![0xa9, 0x05, 0x00]));
    let mut cpu = CPU::new(bus);
    cpu.reset();

    cpu.run();

    assert_eq!(cpu.register_a, 5);
    assert!(cpu.register_p.bits() & 0b0000_0010 == 0b00);
    assert!(cpu.register_p.bits() & 0b1000_0000 == 0);
}

#[test]
fn test_0xaa_tax_move_a_to_x() {
    let bus = Bus::new(test_rom(vec![0xaa, 0x00]));
    let mut cpu = CPU::new(bus);
    cpu.reset();
    cpu.register_a = 10;

    cpu.run();

    assert_eq!(cpu.register_x, 10)
}

#[test]
fn test_5_ops_working_together() {
    let bus = Bus::new(test_rom(vec![0xa9, 0xc0, 0xaa, 0xe8, 0x00]));
    let mut cpu = CPU::new(bus);
    cpu.reset();

    cpu.run();

    assert_eq!(cpu.register_x, 0xc1)
}

#[test]
fn test_inx_overflow() {
    let bus = Bus::new(test_rom(vec![0xe8, 0xe8, 0x00]));
    let mut cpu = CPU::new(bus);
    cpu.reset();
    cpu.register_x = 0xff;

    cpu.run();

    assert_eq!(cpu.register_x, 1)
}

#[test]
fn test_lda_from_memory() {
    let bus = Bus::new(test_rom(vec![0xa5, 0x10, 0x00]));
    let mut cpu = CPU::new(bus);
    cpu.reset();
    cpu.mem_write(0x10, 0x55);

    cpu.run();

    assert_eq!(cpu.register_a, 0x55);
}

#[test]
fn new_leaves_the_program_counter_at_zero() {
    let cpu = CPU::new(Bus::new(test_rom(vec![0x00])));
    assert_eq!(cpu.program_counter, 0);
    assert_eq!(cpu.stack_pointer, 0xfd);
    assert_eq!(cpu.register_p.bits(), 0b0010_0100);
    assert_eq!((cpu.register_a, cpu.register_x, cpu.register_y), (0, 0, 0));
}

#[test]
fn reset_clears_registers_and_reads_the_vector() {
    let mut cpu = CPU::new(Bus::new(Rom::new(&image(&[0x00], 0x9234, 0x8000)).unwrap()));
    cpu.register_a = 1;
    cpu.register_x = 2;
    cpu.register_y = 3;
    cpu.stack_pointer = 0x10;
    cpu.register_p = CpuFlags::from_bits_truncate(0xff);
    cpu.reset();
    assert_eq!((cpu.register_a, cpu.register_x, cpu.register_y), (0, 0, 0));
    assert_eq!(cpu.stack_pointer, 0xfd);
    assert_eq!(cpu.register_p.bits(), 0b0010_0100);
    assert_eq!(cpu.program_counter, 0x9234);
}

#[test]
fn step_walks_through_lda_tax_inx() {
    let mut cpu = cpu_with(vec![0xa9, 0xc0, 0xaa, 0xe8, 0x00]);
    assert_eq!(cpu.step(), Status::Running);
    assert_eq!(cpu.register_a, 0xc0);
    assert_eq!(cpu.program_counter, 0x8002);
    assert_eq!(cpu.step(), Status::Running);
    assert_eq!(cpu.register_x, 0xc0);
    assert_eq!(cpu.step(), Status::Running);
    assert_eq!(cpu.register_x, 0xc1);
    assert_eq!(cpu.step(), Status::Halted);
    assert_eq!(cpu.program_counter, 0x8005);
}

#[test]
fn run_counts_the_cycles_of_each_instruction() {
    // LDA #5 (2), STA $10 (3), INC $10 (5), BRK (7)
    let mut cpu = cpu_with(vec![0xa9, 0x05, 0x85, 0x10, 0xe6, 0x10, 0x00]);
    assert_eq!(cpu.run(), Status::Halted);
    assert_eq!(cpu.bus.cycles, 17);
    assert_eq!(cpu.mem_read(0x10), 6);
}

#[test]
fn lda_sets_zero_and_negative_from_the_value() {
    for v in 0..=255u8 {
        let mut cpu = cpu_with(vec![0xa9, v, 0x00]);
        cpu.run();
        assert_eq!(cpu.register_a, v);
        assert_eq!(has(&cpu, Flag::Zero), v == 0);
        assert_eq!(has(&cpu, Flag::Negative), v >= 0x80);
    }
}

#[test]
fn adc_adds_with_carry_for_all_operands() {
    for a in (0..=255u8).step_by(5) {
        for b in 0..=255u8 {
            for c in 0..2u16 {
                let mut cpu = cpu_with(vec![0x69, b, 0x00]);
                cpu.register_a = a;
                cpu.register_p.set(Flag::Carry, c == 1);
                cpu.step();
                let sum = a as u16 + b as u16 + c;
                let signed = (a as i8) as i16 + (b as i8) as i16 + c as i16;
                assert_eq!(cpu.register_a, (sum % 256) as u8);
                assert_eq!(has(&cpu, Flag::Carry), sum > 255);
                assert_eq!(has(&cpu, Flag::Overflow), signed < -128 || signed > 127);
            }
        }
    }
}

#[test]
fn adc_overflow_of_two_positive_numbers() {
    let mut cpu = cpu_with(vec![0x69, 0x50, 0x00]);
    cpu.register_a = 0x50;
    cpu.register_p.remove(Flag::Carry);
    cpu.run();
    assert_eq!(cpu.register_a, 0xa0);
    assert!(!has(&cpu, Flag::Carry));
    assert!(has(&cpu, Flag::Overflow));
    assert!(has(&cpu, Flag::Negative));
}

#[test]
fn sbc_subtracts_with_borrow() {
    // SEC; SBC #$10 on A = $50
    let mut cpu = cpu_with(vec![0x38, 0xe9, 0x10, 0x00]);
    cpu.register_a = 0x50;
    cpu.run();
    assert_eq!(cpu.register_a, 0x40);
    assert!(has(&cpu, Flag::Carry));
    assert!(!has(&cpu, Flag::Overflow));
    // CLC; SBC #$01 on A = $00 borrows twice
    let mut cpu = cpu_with(vec![0x18, 0xe9, 0x01, 0x00]);
    cpu.register_a = 0x00;
    cpu.run();
    assert_eq!(cpu.register_a, 0xfe);
    assert!(!has(&cpu, Flag::Carry));
    assert!(has(&cpu, Flag::Negative));
    // $80 - $01 leaves the signed range
    let mut cpu = cpu_with(vec![0x38, 0xe9, 0x01, 0x00]);
    cpu.register_a = 0x80;
    cpu.run();
    assert_eq!(cpu.register_a, 0x7f);
    assert!(has(&cpu, Flag::Overflow));
}

#[test]
fn cmp_sets_carry_zero_and_negative() {
    for a in (0..=255u8).step_by(3) {
        for b in 0..=255u8 {
            let mut cpu = cpu_with(vec![0xc9, b, 0x00]);
            cpu.register_a = a;
            cpu.step();
            assert_eq!(has(&cpu, Flag::Carry), a >= b);
            assert_eq!(has(&cpu, Flag::Zero), a == b);
            assert_eq!(has(&cpu, Flag::Negative), a.wrapping_sub(b) & 0x80 != 0);
            assert_eq!(cpu.register_a, a);
        }
    }
}

#[test]
fn cpx_and_cpy_compare_their_registers() {
    let mut cpu = cpu_with(vec![0xe0, 0x10, 0xc0, 0x30, 0x00]);
    cpu.register_x = 0x20;
    cpu.register_y = 0x20;
    cpu.step();
    assert!(has(&cpu, Flag::Carry));
    assert!(!has(&cpu, Flag::Zero));
    cpu.step();
    assert!(!has(&cpu, Flag::Carry));
    assert!(has(&cpu, Flag::Negative));
}

#[test]
fn rol_then_ror_restores_byte_and_carry() {
    for v in 0..=255u8 {
        for c in [false, true] {
            let mut cpu = cpu_with(vec![0x2a, 0x6a, 0x00]);
            cpu.register_a = v;
            cpu.register_p.set(Flag::Carry, c);
            cpu.step();
            assert_eq!(cpu.register_a, (v << 1) | (c as u8));
            assert_eq!(has(&cpu, Flag::Carry), v & 0x80 != 0);
            cpu.step();
            assert_eq!(cpu.register_a, v);
            assert_eq!(has(&cpu, Flag::Carry), c);
        }
    }
}

#[test]
fn rol_and_ror_on_memory() {
    // ROL $10 ; ROR $11
    let mut cpu = cpu_with(vec![0x26, 0x10, 0x66, 0x11, 0x00]);
    cpu.mem_write(0x10, 0b1000_0001);
    cpu.mem_write(0x11, 0b0000_0011);
    cpu.register_p.insert(Flag::Carry);
    cpu.step();
    assert_eq!(cpu.mem_read(0x10), 0b0000_0011);
    assert!(has(&cpu, Flag::Carry));
    cpu.step();
    assert_eq!(cpu.mem_read(0x11), 0b1000_0001);
    assert!(has(&cpu, Flag::Carry));
    assert!(has(&cpu, Flag::Negative));
}

#[test]
fn asl_and_lsr_shift_into_carry() {
    let mut cpu = cpu_with(vec![0x0a, 0x4a, 0x4a, 0x00]);
    cpu.register_a = 0b1100_0001;
    cpu.step();
    assert_eq!(cpu.register_a, 0b1000_0010);
    assert!(has(&cpu, Flag::Carry));
    cpu.step();
    assert_eq!(cpu.register_a, 0b0100_0001);
    assert!(!has(&cpu, Flag::Carry));
    cpu.step();
    assert_eq!(cpu.register_a, 0b0010_0000);
    assert!(has(&cpu, Flag::Carry));
}

#[test]
fn lsr_on_memory_clears_carry_when_bit_0_is_clear() {
    let mut cpu = cpu_with(vec![0x46, 0x10, 0x00]);
    cpu.mem_write(0x10, 0b0000_0010);
    cpu.register_p.insert(Flag::Carry);
    cpu.step();
    assert_eq!(cpu.mem_read(0x10), 1);
    assert!(!has(&cpu, Flag::Carry));
}

#[test]
fn asl_on_memory() {
    let mut cpu = cpu_with(vec![0x0e, 0x00, 0x02, 0x00]);
    cpu.mem_write(0x0200, 0x81);
    cpu.step();
    assert_eq!(cpu.mem_read(0x0200), 0x02);
    assert!(has(&cpu, Flag::Carry));
    assert!(!has(&cpu, Flag::Zero));
}

#[test]
fn inx_256_times_is_the_identity() {
    let mut program = vec![0xe8; 256];
    program.push(0x00);
    let mut cpu = cpu_with(program);
    cpu.register_x = 0x37;
    assert_eq!(cpu.run(), Status::Halted);
    assert_eq!(cpu.register_x, 0x37);
}

#[test]
fn increments_and_decrements_wrap() {
    // INY, DEX, DEY, INC $10, DEC $11
    let mut cpu = cpu_with(vec![0xc8, 0xca, 0x88, 0xe6, 0x10, 0xc6, 0x11, 0x00]);
    cpu.register_y = 0xff;
    cpu.register_x = 0x00;
    cpu.mem_write(0x10, 0xff);
    cpu.mem_write(0x11, 0x00);
    cpu.step();
    assert_eq!(cpu.register_y, 0);
    assert!(has(&cpu, Flag::Zero));
    cpu.step();
    assert_eq!(cpu.register_x, 0xff);
    assert!(has(&cpu, Flag::Negative));
    cpu.step();
    assert_eq!(cpu.register_y, 0xff);
    cpu.step();
    assert_eq!(cpu.mem_read(0x10), 0);
    assert!(has(&cpu, Flag::Zero));
    cpu.step();
    assert_eq!(cpu.mem_read(0x11), 0xff);
}

#[test]
fn push_then_pop_is_the_identity() {
    for v in [0x00u8, 0x01, 0x7f, 0x80, 0xff] {
        // PHA; LDA #0; PLA
        let mut cpu = cpu_with(vec![0x48, 0xa9, 0x00, 0x68, 0x00]);
        cpu.register_a = v;
        cpu.step();
        assert_eq!(cpu.stack_pointer, 0xfc);
        assert_eq!(cpu.mem_read(0x01fd), v);
        cpu.step();
        cpu.step();
        assert_eq!(cpu.register_a, v);
        assert_eq!(cpu.stack_pointer, 0xfd);
        assert_eq!(has(&cpu, Flag::Zero), v == 0);
    }
}

#[test]
fn stack_pointer_wraps_round() {
    let mut cpu = cpu_with(vec![0x48, 0x68, 0x00]);
    cpu.stack_pointer = 0x00;
    cpu.register_a = 0x42;
    cpu.step();
    assert_eq!(cpu.stack_pointer, 0xff);
    assert_eq!(cpu.mem_read(0x0100), 0x42);
    cpu.register_a = 0;
    cpu.step();
    assert_eq!(cpu.stack_pointer, 0x00);
    assert_eq!(cpu.register_a, 0x42);
}

#[test]
fn php_sets_break_bits_and_plp_clears_them() {
    // PHP; PLP
    let mut cpu = cpu_with(vec![0x08, 0x28, 0x00]);
    cpu.register_p = CpuFlags::from_bits_truncate(0b1100_0011);
    cpu.step();
    assert_eq!(cpu.mem_read(0x01fd), 0b1111_0011);
    assert_eq!(cpu.register_p.bits(), 0b1100_0011);
    cpu.mem_write(0x01fd, 0b1111_1111);
    cpu.step();
    assert_eq!(cpu.register_p.bits(), 0b1100_1111);
}

#[test]
fn jmp_indirect_wraps_within_the_page() {
    // The pointer is the last byte of a page of work RAM: the target's
    // high byte comes from 0x0700, not from 0x0800.
    let mut cpu = cpu_with(vec![0x6c, 0xff, 0x07]);
    cpu.mem_write(0x07ff, 0x00);
    cpu.mem_write(0x0700, 0x30);
    cpu.mem_write(0x0000, 0x40);
    assert_eq!(cpu.step(), Status::Running);
    assert_eq!(cpu.program_counter, 0x3000);
    assert_eq!(cpu.bus.cycles, 5);
    // The same with the pointer in the cartridge, at 0x90ff.
    let mut program = vec![0u8; 0x4000];
    program[0] = 0x6c;
    program[1] = 0xff;
    program[2] = 0x90;
    program[0x10ff] = 0x00;
    program[0x1000] = 0xa0;
    program[0x1100] = 0x50;
    let mut cpu = cpu_with(program);
    assert_eq!(cpu.step(), Status::Running);
    assert_eq!(cpu.program_counter, 0xa000);
}

#[test]
fn jmp_indirect_off_the_page_end_reads_the_next_byte() {
    let mut cpu = cpu_with(vec![0x6c, 0x20, 0x01, 0x00]);
    cpu.mem_write(0x0120, 0x34);
    cpu.mem_write(0x0121, 0x12);
    cpu.step();
    assert_eq!(cpu.program_counter, 0x1234);
}

#[test]
fn jmp_absolute_sets_the_program_counter() {
    let mut cpu = cpu_with(vec![0x4c, 0x34, 0x12]);
    cpu.step();
    assert_eq!(cpu.program_counter, 0x1234);
    assert_eq!(cpu.bus.cycles, 3);
}

#[test]
fn jsr_and_rts_return_behind_the_call() {
    // 8000: JSR $8005 ; 8003: LDA #1 ; 8005: LDX #7 ; 8007: RTS
    let mut program = vec![0x20, 0x05, 0x80, 0xa9, 0x01, 0xa2, 0x07, 0x60];
    program.push(0x00);
    let mut cpu = cpu_with(program);
    cpu.step();
    assert_eq!(cpu.program_counter, 0x8005);
    assert_eq!(cpu.stack_pointer, 0xfb);
    assert_eq!(cpu.mem_read(0x01fd), 0x80);
    assert_eq!(cpu.mem_read(0x01fc), 0x02);
    cpu.step();
    assert_eq!(cpu.register_x, 7);
    cpu.step();
    assert_eq!(cpu.program_counter, 0x8003);
    assert_eq!(cpu.stack_pointer, 0xfd);
    cpu.step();
    assert_eq!(cpu.register_a, 1);
}

#[test]
fn rti_pops_status_then_program_counter() {
    let mut cpu = cpu_with(vec![0x40]);
    cpu.stack_pointer = 0xfa;
    cpu.mem_write(0x01fb, 0b1101_0001);
    cpu.mem_write(0x01fc, 0x21);
    cpu.mem_write(0x01fd, 0x43);
    cpu.step();
    assert_eq!(cpu.register_p.bits(), 0b1110_0001);
    assert_eq!(cpu.program_counter, 0x4321);
    assert_eq!(cpu.stack_pointer, 0xfd);
}

#[test]
fn branches_go_forward_and_backward() {
    // 8000: LDX #3 ; 8002: DEX ; 8003: BNE $8002 ; 8005: BRK
    let mut cpu = cpu_with(vec![0xa2, 0x03, 0xca, 0xd0, 0xfd, 0x00]);
    assert_eq!(cpu.run(), Status::Halted);
    assert_eq!(cpu.register_x, 0);
    assert_eq!(cpu.program_counter, 0x8006);
    // BEQ +2 taken over an LDA
    let mut cpu = cpu_with(vec![0xf0, 0x02, 0xa9, 0x09, 0x00]);
    cpu.register_p.insert(Flag::Zero);
    cpu.step();
    assert_eq!(cpu.program_counter, 0x8004);
    // not taken: the displacement is skipped
    let mut cpu = cpu_with(vec![0xf0, 0x02, 0xa9, 0x09, 0x00]);
    cpu.register_p.remove(Flag::Zero);
    cpu.step();
    assert_eq!(cpu.program_counter, 0x8002);
}

#[test]
fn each_branch_tests_its_flag() {
    let cases: [(u8, Flag, bool); 8] = [
        (0xd0, Flag::Zero, false),
        (0xf0, Flag::Zero, true),
        (0x10, Flag::Negative, false),
        (0x30, Flag::Negative, true),
        (0x50, Flag::Overflow, false),
        (0x70, Flag::Overflow, true),
        (0x90, Flag::Carry, false),
        (0xb0, Flag::Carry, true),
    ];
    for (code, flag, when) in cases {
        for value in [false, true] {
            let mut cpu = cpu_with(vec![code, 0x10, 0x00]);
            cpu.register_p.set(flag, value);
            cpu.step();
            let expected = if value == when { 0x8012 } else { 0x8002 };
            assert_eq!(cpu.program_counter, expected);
        }
    }
}

#[test]
fn bit_copies_bits_7_and_6_of_the_operand() {
    let mut cpu = cpu_with(vec![0x24, 0x10, 0x2c, 0x00, 0x02, 0x00]);
    cpu.mem_write(0x10, 0b1100_0000);
    cpu.mem_write(0x0200, 0b0000_0001);
    cpu.register_a = 0b0000_0001;
    cpu.step();
    assert!(has(&cpu, Flag::Zero));
    assert!(has(&cpu, Flag::Negative));
    assert!(has(&cpu, Flag::Overflow));
    cpu.step();
    assert!(!has(&cpu, Flag::Zero));
    assert!(!has(&cpu, Flag::Negative));
    assert!(!has(&cpu, Flag::Overflow));
}

#[test]
fn logic_instructions_combine_with_the_accumulator() {
    // AND #$0f ; ORA #$80 ; EOR #$ff
    let mut cpu = cpu_with(vec![0x29, 0x0f, 0x09, 0x80, 0x49, 0xff, 0x00]);
    cpu.register_a = 0x3c;
    cpu.step();
    assert_eq!(cpu.register_a, 0x0c);
    cpu.step();
    assert_eq!(cpu.register_a, 0x8c);
    assert!(has(&cpu, Flag::Negative));
    cpu.step();
    assert_eq!(cpu.register_a, 0x73);
}

#[test]
fn flag_instructions_set_and_clear() {
    // SEC SED SEI CLC CLD CLI CLV
    let mut cpu = cpu_with(vec![0x38, 0xf8, 0x78, 0x18, 0xd8, 0x58, 0xb8, 0x00]);
    cpu.register_p = CpuFlags::from_bits_truncate(0b0100_0000);
    cpu.step();
    cpu.step();
    cpu.step();
    assert_eq!(cpu.register_p.bits(), 0b0100_1101);
    cpu.step();
    cpu.step();
    cpu.step();
    cpu.step();
    assert_eq!(cpu.register_p.bits(), 0);
}

#[test]
fn transfers_copy_registers() {
    // TAY TSX TXA TXS TYA
    let mut cpu = cpu_with(vec![0xa8, 0xba, 0x8a, 0x9a, 0x98, 0x00]);
    cpu.register_a = 0x80;
    cpu.step();
    assert_eq!(cpu.register_y, 0x80);
    assert!(has(&cpu, Flag::Negative));
    cpu.step();
    assert_eq!(cpu.register_x, 0xfd);
    cpu.step();
    assert_eq!(cpu.register_a, 0xfd);
    cpu.register_x = 0x00;
    cpu.register_p.remove(Flag::Zero);
    cpu.step();
    assert_eq!(cpu.stack_pointer, 0x00);
    assert!(!has(&cpu, Flag::Zero));
    cpu.step();
    assert_eq!(cpu.register_a, 0x80);
}

#[test]
fn stores_write_registers() {
    // STA $10 ; STX $0200 ; STY $11
    let mut cpu = cpu_with(vec![0x85, 0x10, 0x8e, 0x00, 0x02, 0x84, 0x11, 0x00]);
    cpu.register_a = 1;
    cpu.register_x = 2;
    cpu.register_y = 3;
    let flags = cpu.register_p.bits();
    cpu.run();
    assert_eq!(cpu.mem_read(0x10), 1);
    assert_eq!(cpu.mem_read(0x0200), 2);
    assert_eq!(cpu.mem_read(0x11), 3);
    assert_eq!(cpu.register_p.bits(), flags);
}

#[test]
fn addressing_modes_find_their_operands() {
    // zero page,X wraps within the zero page
    let mut cpu = cpu_with(vec![0xb5, 0xf0, 0x00]);
    cpu.register_x = 0x20;
    cpu.mem_write(0x10, 0x77);
    cpu.step();
    assert_eq!(cpu.register_a, 0x77);
    // zero page,Y
    let mut cpu = cpu_with(vec![0xb6, 0x05, 0x00]);
    cpu.register_y = 0x03;
    cpu.mem_write(0x08, 0x66);
    cpu.step();
    assert_eq!(cpu.register_x, 0x66);
    // absolute,X
    let mut cpu = cpu_with(vec![0xbd, 0xf0, 0x01, 0x00]);
    cpu.register_x = 0x20;
    cpu.mem_write(0x0210, 0x55);
    cpu.step();
    assert_eq!(cpu.register_a, 0x55);
    // absolute,Y wraps at the top of memory
    let mut cpu = cpu_with(vec![0xb9, 0xff, 0xff, 0x00]);
    cpu.register_y = 0x11;
    cpu.mem_write(0x0010, 0x44);
    cpu.step();
    assert_eq!(cpu.register_a, 0x44);
    // (indirect,X): the pointer's high byte wraps within the zero page
    let mut cpu = cpu_with(vec![0xa1, 0xfe, 0x00]);
    cpu.register_x = 0x01;
    cpu.mem_write(0xff, 0x34);
    cpu.mem_write(0x00, 0x02);
    cpu.mem_write(0x0234, 0x33);
    cpu.step();
    assert_eq!(cpu.register_a, 0x33);
    // (indirect),Y
    let mut cpu = cpu_with(vec![0xb1, 0xff, 0x00]);
    cpu.register_y = 0x04;
    cpu.mem_write(0xff, 0x30);
    cpu.mem_write(0x00, 0x02);
    cpu.mem_write(0x0234, 0x22);
    cpu.step();
    assert_eq!(cpu.register_a, 0x22);
}

#[test]
fn program_counter_moves_past_the_operand() {
    let mut cpu = cpu_with(vec![0xad, 0x00, 0x02, 0xa5, 0x10, 0xea, 0x00]);
    cpu.step();
    assert_eq!(cpu.program_counter, 0x8003);
    cpu.step();
    assert_eq!(cpu.program_counter, 0x8005);
    cpu.step();
    assert_eq!(cpu.program_counter, 0x8006);
}

#[test]
fn unknown_opcode_is_a_fault() {
    let mut cpu = cpu_with(vec![0xea, 0x02, 0x00]);
    assert_eq!(cpu.run(), Status::Fault { code: 0x02, pc: 0x8001 });
    assert_eq!(cpu.program_counter, 0x8002);
    assert_eq!(cpu.bus.cycles, 2);
}

#[test]
fn load_writes_the_program_at_0x0600() {
    let mut cpu = cpu_with(vec![0x00]);
    cpu.load(vec![0xa9, 0x05, 0x00]);
    assert_eq!(cpu.mem_read(0x0600), 0xa9);
    assert_eq!(cpu.mem_read(0x0601), 0x05);
    assert_eq!(cpu.mem_read(0x0602), 0x00);
    assert_eq!(cpu.mem_read(0x05ff), 0x00);
}

#[test]
fn load_and_run_starts_at_the_reset_vector() {
    let rom = Rom::new(&image(&[0x00], 0x0600, 0x8000)).unwrap();
    let mut cpu = CPU::new(Bus::new(rom));
    assert_eq!(cpu.load_and_run(vec![0xa9, 0x05, 0xaa, 0x00]), Status::Halted);
    assert_eq!(cpu.register_a, 5);
    assert_eq!(cpu.register_x, 5);
    assert_eq!(cpu.program_counter, 0x0604);
}

#[test]
fn run_with_callback_calls_back_after_each_instruction() {
    let mut cpu = cpu_with(vec![0xa9, 0x01, 0xe8, 0xe8, 0x00]);
    let mut seen: Vec<u16> = Vec::new();
    let status = cpu.run_with_callback(|cpu| seen.push(cpu.program_counter));
    assert_eq!(status, Status::Halted);
    assert_eq!(seen, vec![0x8002, 0x8003, 0x8004, 0x8005]);
}

#[test]
fn run_with_callback_lets_the_callback_change_the_processor() {
    let mut cpu = cpu_with(vec![0xe8, 0xe8, 0x00]);
    cpu.run_with_callback(|cpu| cpu.register_y = cpu.register_x);
    assert_eq!(cpu.register_y, 2);
}

#[test]
fn run_with_callback_stops_on_a_fault_without_calling_back() {
    let mut cpu = cpu_with(vec![0xff]);
    let mut calls = 0;
    let status = cpu.run_with_callback(|_| calls += 1);
    assert_eq!(status, Status::Fault { code: 0xff, pc: 0x8000 });
    assert_eq!(calls, 0);
}

#[test]
fn mem_read_u16_is_little_endian_and_wraps() {
    let mut cpu = cpu_with(vec![0x00]);
    cpu.mem_write_u16(0x0010, 0xbeef);
    assert_eq!(cpu.mem_read(0x0010), 0xef);
    assert_eq!(cpu.mem_read(0x0011), 0xbe);
    assert_eq!(cpu.mem_read_u16(0x0010), 0xbeef);
    // The high byte of the word at 0xffff is at 0x0000.
    cpu.mem_write(0x0000, 0x12);
    let rom_byte = cpu.mem_read(0xffff);
    assert_eq!(cpu.mem_read_u16(0xffff), 0x1200 | rom_byte as u16);
}

#[test]
fn table_holds_the_documented_instructions() {
    let known = (0..=255u8).filter(|b| find_opcode(*b).is_some()).count();
    assert_eq!(known, 151);
    let lda = find_opcode(0xa9).unwrap();
    assert_eq!((lda.code, lda.mnemonic, lda.len, lda.cycles), (0xa9, "LDA", 2, 2));
    assert_eq!(lda.mode, AddressingMode::Immediate);
    let sta = find_opcode(0x9d).unwrap();
    assert_eq!((sta.mnemonic, sta.len, sta.cycles), ("STA", 3, 5));
    assert_eq!(sta.mode, AddressingMode::Absolute_X);
    let brk = find_opcode(0x00).unwrap();
    assert_eq!((brk.mnemonic, brk.len, brk.cycles), ("BRK", 1, 7));
    assert_eq!(brk.mode, AddressingMode::NoneAddressing);
    assert!(find_opcode(0x02).is_none());
    assert!(find_opcode(0xff).is_none());
    for b in 0..=255u8 {
        if let Some(op) = find_opcode(b) {
            assert_eq!(op.code, b);
            assert!(op.len >= 1 && op.len <= 3);
        }
    }
}

#[test]
fn flags_insert_remove_and_set() {
    let mut p = CpuFlags::from_bits_truncate(0);
    p.insert(Flag::Carry);
    p.insert(Flag::Negative);
    assert_eq!(p.bits(), 0b1000_0001);
    assert!(p.contains(Flag::Carry));
    assert!(!p.contains(Flag::Zero));
    p.remove(Flag::Carry);
    assert_eq!(p.bits(), 0b1000_0000);
    p.set(Flag::Overflow, true);
    p.set(Flag::Negative, false);
    assert_eq!(p.bits(), 0b0100_0000);
    let masks: Vec<u8> = [
        Flag::Carry,
        Flag::Zero,
        Flag::InterruptDisable,
        Flag::Decimal,
        Flag::Break,
        Flag::Break2,
        Flag::Overflow,
        Flag::Negative,
    ]
    .iter()
    .map(|f| f.mask())
    .collect();
    assert_eq!(masks, vec![1, 2, 4, 8, 16, 32, 64, 128]);
}

#[test]
fn pending_interrupt_is_taken_before_the_next_fetch() {
    // 8000: LDA #$80 ; STA $2000 ; 8005: JMP $8005
    // 9000: LDA #$42 ; BRK
    let mut program = vec![0u8; 0x2000];
    program[..8].copy_from_slice(&[0xa9, 0x80, 0x8d, 0x00, 0x20, 0x4c, 0x05, 0x80]);
    program[0x1000..0x1003].copy_from_slice(&[0xa9, 0x42, 0x00]);
    let mut cpu = CPU::new(Bus::new(Rom::new(&image(&program, 0x8000, 0x9000)).unwrap()));
    cpu.reset();
    assert_eq!(cpu.run(), Status::Halted);
    assert_eq!(cpu.register_a, 0x42);
    assert_eq!(cpu.program_counter, 0x9003);
    assert_eq!(cpu.stack_pointer, 0xfa);
    assert_eq!(cpu.mem_read(0x01fd), 0x80);
    assert_eq!(cpu.mem_read(0x01fc), 0x05);
    assert_eq!(cpu.mem_read(0x01fb), 0xa4);
    assert!(has(&cpu, Flag::InterruptDisable));
    assert!(cpu.bus.poll_frame_status());
    assert!(!cpu.bus.poll_nmi_status());
    // Vertical blank starts 241 * 341 dots after power-on, a third of that
    // in processor cycles, rounded up to whole instructions.
    let until_vblank = (241 * 341 + 2) / 3;
    assert!(cpu.bus.cycles >= until_vblank + 2 + 2 + 7);
    assert!(cpu.bus.cycles < until_vblank + 3 + 2 + 2 + 7);
}

/// A processor fresh from `new`, with all of work RAM zero.
fn fresh_cpu(nmi: u16) -> CPU {
    CPU::new(Bus::new(Rom::new(&image(&[0x00], 0x8000, nmi)).unwrap()))
}

#[test]
fn callback_sees_the_indirect_jump_wrap_within_the_page() {
    let mut cpu = fresh_cpu(0x8000);
    cpu.load(vec![0x6c, 0xff, 0x02]);
    cpu.mem_write(0x02ff, 0x00);
    cpu.mem_write(0x0200, 0x07);
    cpu.mem_write(0x0300, 0x05);
    cpu.program_counter = 0x0600;
    let mut seen: Vec<u16> = Vec::new();
    let status = cpu.run_with_callback(|cpu| seen.push(cpu.program_counter));
    assert_eq!(seen[0], 0x0700);
    assert_eq!(status, Status::Halted);
    assert_eq!(cpu.program_counter, 0x0701);
    assert_eq!(seen, vec![0x0700, 0x0701]);
}

#[test]
fn callback_sees_the_registers_after_each_instruction() {
    let mut cpu = fresh_cpu(0x8000);
    cpu.load(vec![0xa9, 0xc0, 0xaa, 0xe8, 0x00]);
    cpu.program_counter = 0x0600;
    let mut seen: Vec<(u8, u8)> = Vec::new();
    cpu.run_with_callback(|cpu| seen.push((cpu.register_a, cpu.register_x)));
    assert_eq!(seen[..3], [(0xc0, 0x00), (0xc0, 0xc0), (0xc0, 0xc1)]);
    assert_eq!(seen.len(), 4);
    assert_eq!(cpu.register_a, 0xc0);
    assert_eq!(cpu.register_x, 0xc1);
}

#[test]
fn callback_runs_after_nop_and_after_brk() {
    let mut cpu = fresh_cpu(0x8000);
    // The INX behind the BRK is never reached.
    cpu.load(vec![0xea, 0x00, 0xe8]);
    cpu.program_counter = 0x0600;
    let mut seen: Vec<u16> = Vec::new();
    let status = cpu.run_with_callback(|cpu| seen.push(cpu.program_counter));
    assert_eq!(status, Status::Halted);
    assert_eq!(seen, vec![0x0601, 0x0602]);
    assert_eq!(cpu.register_x, 0);
}

#[test]
fn callback_sees_the_program_counter_moved_by_the_length() {
    let mut cpu = fresh_cpu(0x8000);
    // LDA $0200 (3 bytes), LDA $10 (2), INX (1), BRK (1)
    cpu.load(vec![0xad, 0x00, 0x02, 0xa5, 0x10, 0xe8, 0x00]);
    cpu.program_counter = 0x0600;
    let mut seen: Vec<u16> = Vec::new();
    cpu.run_with_callback(|cpu| seen.push(cpu.program_counter));
    assert_eq!(seen, vec![0x0603, 0x0605, 0x0606, 0x0607]);
}

#[test]
fn callback_runs_after_the_cycles_were_ticked() {
    let mut cpu = fresh_cpu(0x8000);
    // STA $0200 (4 cycles), INC $0200 (6), NOP (2), BRK (7)
    cpu.load(vec![0x8d, 0x00, 0x02, 0xee, 0x00, 0x02, 0xea, 0x00]);
    cpu.program_counter = 0x0600;
    cpu.register_a = 0x41;
    let mut seen: Vec<(u64, u16, u16, u8)> = Vec::new();
    cpu.run_with_callback(|cpu| {
        seen.push((cpu.bus.cycles, cpu.bus.ppu.scanline, cpu.bus.ppu.dot, cpu.bus.cpu_vram[0x0200]))
    });
    assert_eq!(seen, vec![(4, 0, 12, 0x41), (10, 0, 30, 0x42), (12, 0, 36, 0x42), (19, 0, 57, 0x42)]);
}

#[test]
fn callback_sees_call_and_return() {
    let mut cpu = fresh_cpu(0x8000);
    cpu.load(vec![0x20, 0x04, 0x06, 0x00, 0x60]);
    cpu.program_counter = 0x0600;
    let mut seen: Vec<(u16, u8, u8, u8)> = Vec::new();
    let status = cpu.run_with_callback(|cpu| {
        seen.push((
            cpu.program_counter,
            cpu.stack_pointer,
            cpu.bus.cpu_vram[0x01fd],
            cpu.bus.cpu_vram[0x01fc],
        ))
    });
    assert_eq!(status, Status::Halted);
    assert_eq!(seen[0], (0x0604, 0xfb, 0x06, 0x02));
    assert_eq!(seen[1], (0x0603, 0xfd, 0x06, 0x02));
    assert_eq!(seen.len(), 3);
    assert_eq!(cpu.program_counter, 0x0604);
}

#[test]
fn callback_sees_the_interrupt_taken_before_the_fetch() {
    for (p, s) in [(0x24u8, 0xfdu8), (0xd3, 0x01), (0xff, 0x00)] {
        let mut cpu = fresh_cpu(0x0700);
        cpu.load(vec![0xea, 0xea]);
        cpu.program_counter = 0x0600;
        cpu.register_p = CpuFlags::from_bits_truncate(p);
        cpu.stack_pointer = s;
        cpu.bus.ppu.nmi_pending = true;
        let mut seen: Vec<(u16, u8, bool, u64)> = Vec::new();
        let status = cpu.run_with_callback(|cpu| {
            seen.push((
                cpu.program_counter,
                cpu.stack_pointer,
                cpu.register_p.contains(Flag::InterruptDisable),
                cpu.bus.cycles,
            ))
        });
        // The routine at 0x0700 starts with a BRK: one fetch, at the vector.
        assert_eq!(status, Status::Halted);
        assert_eq!(seen, vec![(0x0701, s.wrapping_sub(3), true, 2 + 7)]);
        assert_eq!(cpu.mem_read(0x0100 + s as u16), 0x06);
        assert_eq!(cpu.mem_read(0x0100 + s.wrapping_sub(1) as u16), 0x00);
        assert_eq!(cpu.mem_read(0x0100 + s.wrapping_sub(2) as u16), (p & 0xef) | 0x20);
        assert!(!cpu.bus.ppu.nmi_pending);
    }
}

#[test]
fn fault_reports_the_byte_and_where_it_was_fetched() {
    let mut cpu = fresh_cpu(0x8000);
    cpu.load(vec![0xe8, 0x02, 0xe8]);
    cpu.program_counter = 0x0600;
    let mut calls = 0;
    let status = cpu.run_with_callback(|_| calls += 1);
    assert_eq!(status, Status::Fault { code: 0x02, pc: 0x0601 });
    // One call, after the INX; none for the byte that is no instruction,
    // which changed nothing but the program counter, moved past it.
    assert_eq!(calls, 1);
    assert_eq!(cpu.register_x, 1);
    assert_eq!(cpu.program_counter, 0x0602);
    assert_eq!(cpu.bus.cycles, 2);
    assert_eq!(cpu.stack_pointer, 0xfd);
}

#[test]
fn rol_then_ror_on_memory_restores_cell_and_carry() {
    for v in 0..=255u8 {
        for c in [false, true] {
            // ROL $10 ; ROR $10
            let mut cpu = cpu_with(vec![0x26, 0x10, 0x66, 0x10, 0x00]);
            cpu.mem_write(0x10, v);
            cpu.register_p.set(Flag::Carry, c);
            cpu.step();
            assert_eq!(cpu.mem_read(0x10), (v << 1) | (c as u8));
            assert_eq!(has(&cpu, Flag::Carry), v & 0x80 != 0);
            cpu.step();
            assert_eq!(cpu.mem_read(0x10), v);
            assert_eq!(has(&cpu, Flag::Carry), c);
        }
    }
}
