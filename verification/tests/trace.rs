use nes_core::bus::Bus;
use nes_core::cartridge::Rom;
use nes_core::cpu::{Mem, CPU};
use nes_core::trace::trace;

/// A processor on a cartridge with one program bank that holds `chunks`
/// at the given offsets, so that offset 0 shows at 0x8000 and at 0xC000.
fn machine(chunks: &[(usize, &[u8])]) -> CPU {
    let mut raw = vec![0x4E, 0x45, 0x53, 0x1A, 0x01, 0x01, 0x00, 0x00];
    raw.extend_from_slice(&[0u8; 8]);
    let mut prg = vec![0u8; 0x4000];
    for (offset, bytes) in chunks {
        prg[*offset..*offset + bytes.len()].copy_from_slice(bytes);
    }
    raw.extend_from_slice(&prg);
    raw.extend_from_slice(&[0u8; 0x2000]);
    CPU::new(Bus::new(Rom::new(&raw).unwrap()))
}

/// A processor with `program` in work RAM at 0x0064, about to run it.
fn ram_machine(program: &[u8]) -> CPU {
    let mut cpu = machine(&[]);
    for (i, byte) in program.iter().enumerate() {
        cpu.mem_write(0x0064 + i as u16, *byte);
    }
    cpu.program_counter = 0x0064;
    cpu
}

fn line(cpu: &CPU) -> String {
    trace(cpu).unwrap()
}

#[test]
fn trace_shows_address_bytes_name_operand_and_registers() {
    let mut cpu = ram_machine(&[0xa2, 0x01, 0xca, 0x88, 0x00]);
    cpu.register_a = 1;
    cpu.register_x = 2;
    cpu.register_y = 3;
    assert_eq!(
        "0064  A2 01     LDX #$01                        A:01 X:02 Y:03 P:24 SP:FD",
        line(&cpu)
    );
    cpu.step();
    assert_eq!(
        "0066  CA        DEX                             A:01 X:01 Y:03 P:24 SP:FD",
        line(&cpu)
    );
    cpu.step();
    assert_eq!(
        "0067  88        DEY                             A:01 X:00 Y:03 P:26 SP:FD",
        line(&cpu)
    );
}

#[test]
fn trace_shows_where_an_indirect_operand_leads() {
    // ORA ($33),Y
    let mut cpu = ram_machine(&[0x11, 0x33]);
    cpu.mem_write(0x33, 0x00);
    cpu.mem_write(0x34, 0x04);
    cpu.mem_write(0x0400, 0xaa);
    cpu.register_y = 0;
    assert_eq!(
        "0064  11 33     ORA ($33),Y = 0400 @ 0400 = AA  A:00 X:00 Y:00 P:24 SP:FD",
        line(&cpu)
    );
    cpu.register_y = 0x10;
    cpu.mem_write(0x0410, 0xbb);
    assert_eq!(
        "0064  11 33     ORA ($33),Y = 0400 @ 0410 = BB  A:00 X:00 Y:10 P:24 SP:FD",
        line(&cpu)
    );
}

#[test]
fn trace_follows_a_program_line_by_line() {
    let mut cpu = machine(&[
        (0x0000, &[0x4c, 0xf5, 0xc5]),
        (0x05f5, &[0xa2, 0x00, 0x86, 0x00, 0x86, 0x10, 0x86, 0x11, 0x20, 0x2d, 0xc7]),
        (0x072d, &[0xea, 0x38, 0xb0, 0x04]),
    ]);
    cpu.program_counter = 0xc000;
    let expected = [
        "C000  4C F5 C5  JMP $C5F5                       A:00 X:00 Y:00 P:24 SP:FD",
        "C5F5  A2 00     LDX #$00                        A:00 X:00 Y:00 P:24 SP:FD",
        "C5F7  86 00     STX $00 = 00                    A:00 X:00 Y:00 P:26 SP:FD",
        "C5F9  86 10     STX $10 = 00                    A:00 X:00 Y:00 P:26 SP:FD",
        "C5FB  86 11     STX $11 = 00                    A:00 X:00 Y:00 P:26 SP:FD",
        "C5FD  20 2D C7  JSR $C72D                       A:00 X:00 Y:00 P:26 SP:FD",
        "C72D  EA        NOP                             A:00 X:00 Y:00 P:26 SP:FB",
        "C72E  38        SEC                             A:00 X:00 Y:00 P:26 SP:FB",
        "C72F  B0 04     BCS $C735                       A:00 X:00 Y:00 P:27 SP:FB",
    ];
    for want in expected {
        assert_eq!(want, line(&cpu));
        cpu.step();
    }
    assert_eq!(cpu.program_counter, 0xc735);
}

#[test]
fn trace_writes_each_kind_of_operand() {
    let cases: [(&[u8], &str); 14] = [
        (&[0xa9, 0xff], "0064  A9 FF     LDA #$FF"),
        (&[0xa5, 0x10], "0064  A5 10     LDA $10 = 5A"),
        (&[0xb5, 0x0e], "0064  B5 0E     LDA $0E,X @ 10 = 5A"),
        (&[0xb6, 0x0d], "0064  B6 0D     LDX $0D,Y @ 10 = 5A"),
        (&[0xad, 0x34, 0x02], "0064  AD 34 02  LDA $0234 = 6B"),
        (&[0xbd, 0x32, 0x02], "0064  BD 32 02  LDA $0232,X @ 0234 = 6B"),
        (&[0xb9, 0x31, 0x02], "0064  B9 31 02  LDA $0231,Y @ 0234 = 6B"),
        (&[0xa1, 0x80], "0064  A1 80     LDA ($80,X) @ 82 = 0234 = 6B"),
        (&[0xb1, 0x82], "0064  B1 82     LDA ($82),Y = 0234 @ 0237 = 7C"),
        (&[0x6c, 0x82, 0x00], "0064  6C 82 00  JMP ($0082) = 0234"),
        (&[0x4c, 0x34, 0x12], "0064  4C 34 12  JMP $1234"),
        (&[0x0a], "0064  0A        ASL A"),
        (&[0xd0, 0xfe], "0064  D0 FE     BNE $0064"),
        (&[0x90, 0x7f], "0064  90 7F     BCC $00E5"),
    ];
    for (program, text) in cases {
        let mut cpu = ram_machine(program);
        cpu.register_x = 2;
        cpu.register_y = 3;
        cpu.mem_write(0x10, 0x5a);
        cpu.mem_write(0x82, 0x34);
        cpu.mem_write(0x83, 0x02);
        cpu.mem_write(0x0234, 0x6b);
        cpu.mem_write(0x0237, 0x7c);
        let want = format!("{:47} A:00 X:02 Y:03 P:24 SP:FD", text);
        assert_eq!(want, line(&cpu));
        assert_eq!(line(&cpu).len(), 73);
    }
}

#[test]
fn trace_wraps_pointers_like_the_processor() {
    // JMP ($07FF): the high byte comes from 0x0700.
    let mut cpu = ram_machine(&[0x6c, 0xff, 0x07]);
    cpu.mem_write(0x07ff, 0x00);
    cpu.mem_write(0x0700, 0x30);
    cpu.mem_write(0x0000, 0x40);
    assert!(line(&cpu).starts_with("0064  6C FF 07  JMP ($07FF) = 3000 "));
    // LDA ($FF,X) with X = 0: the pointer's high byte is at 0x00.
    let mut cpu = ram_machine(&[0xa1, 0xff]);
    cpu.mem_write(0xff, 0x34);
    cpu.mem_write(0x00, 0x02);
    cpu.mem_write(0x0234, 0x6b);
    assert!(line(&cpu).starts_with("0064  A1 FF     LDA ($FF,X) @ FF = 0234 = 6B "));
    // LDA $F0,X with X = 0x20 wraps within the zero page.
    let mut cpu = ram_machine(&[0xb5, 0xf0]);
    cpu.register_x = 0x20;
    cpu.mem_write(0x10, 0x5a);
    assert!(line(&cpu).starts_with("0064  B5 F0     LDA $F0,X @ 10 = 5A "));
}

#[test]
fn trace_knows_no_line_for_a_byte_that_is_no_instruction() {
    let cpu = ram_machine(&[0x02]);
    assert!(trace(&cpu).is_none());
}

#[test]
fn trace_changes_nothing() {
    // LDA $2002 ; LDA $4016 : both reads would change what they read.
    let mut cpu = ram_machine(&[0xad, 0x02, 0x20, 0xad, 0x16, 0x40]);
    cpu.bus.ppu.status = 0x80;
    cpu.bus.ppu.latch = true;
    cpu.bus.joypad1.button_status = 0x01;
    for _ in 0..3 {
        assert!(line(&cpu).starts_with("0064  AD 02 20  LDA $2002 = 80 "));
    }
    assert_eq!(cpu.bus.ppu.status, 0x80);
    assert!(cpu.bus.ppu.latch);
    assert_eq!(cpu.bus.cycles, 0);
    assert_eq!(cpu.program_counter, 0x0064);
    cpu.step();
    assert_eq!(cpu.register_a, 0x80);
    assert_eq!(cpu.bus.ppu.status, 0x00);
    for _ in 0..3 {
        assert!(line(&cpu).starts_with("0067  AD 16 40  LDA $4016 = 01 "));
    }
    assert_eq!(cpu.bus.joypad1.button_index, 0);
    cpu.step();
    assert_eq!(cpu.register_a, 0x01);
    assert_eq!(cpu.bus.joypad1.button_index, 1);
}
