use nes_core::bus::Bus;
use nes_core::cartridge::Rom;
use nes_core::cpu::Mem;
use nes_core::joypad::JoypadButton;

fn bus_with(prg_banks: u8) -> Bus {
    let mut raw = vec![0x4E, 0x45, 0x53, 0x1A, prg_banks, 0x01, 0x01, 0x00];
    raw.extend_from_slice(&[0u8; 8]);
    for i in 0..(prg_banks as usize * 0x4000) {
        raw.push((i % 253) as u8 + 1);
    }
    raw.extend_from_slice(&[0u8; 0x2000]);
    Bus::new(Rom::new(&raw).unwrap())
}

#[test]
fn new_bus_is_at_power_on() {
    let bus = bus_with(2);
    assert!(bus.cpu_vram.iter().all(|b| *b == 0));
    assert_eq!(bus.cycles, 0);
    assert!(!bus.frame_ready);
    assert_eq!(bus.joypad1.button_status, 0);
    assert_eq!(bus.rom.prg_rom.len(), 0x8000);
}

#[test]
fn work_ram_shows_four_times() {
    let mut bus = bus_with(2);
    bus.mem_write(0x0001, 0x11);
    bus.mem_write(0x0802, 0x22);
    bus.mem_write(0x1fff, 0x33);
    for base in [0x0000u16, 0x0800, 0x1000, 0x1800] {
        assert_eq!(bus.mem_read(base + 1), 0x11);
        assert_eq!(bus.mem_read(base + 2), 0x22);
        assert_eq!(bus.mem_read(base + 0x7ff), 0x33);
    }
    assert_eq!(bus.cpu_vram[1], 0x11);
    assert_eq!(bus.cpu_vram[0x7ff], 0x33);
}

#[test]
fn picture_unit_registers_show_every_eight_bytes() {
    let mut bus = bus_with(2);
    bus.mem_write(0x2008, 0x84);
    assert_eq!(bus.ppu.ctrl, 0x84);
    bus.mem_write(0x3ff9, 0x1e);
    assert_eq!(bus.ppu.mask, 0x1e);
    bus.mem_write(0x3ffe, 0x23);
    bus.mem_write(0x2006, 0x45);
    assert_eq!(bus.ppu.addr, 0x2345);
    bus.ppu.status = 0x80;
    assert_eq!(bus.mem_read(0x3ffa), 0x80);
    assert_eq!(bus.ppu.status, 0x00);
    assert_eq!(bus.mem_read(0x2000), 0);
}

#[test]
fn data_port_reaches_name_table_memory_through_the_bus() {
    let mut bus = bus_with(2);
    bus.mem_write(0x2006, 0x20);
    bus.mem_write(0x2006, 0x10);
    bus.mem_write(0x2007, 0xab);
    assert_eq!(bus.ppu.vram[0x10], 0xab);
    bus.mem_write(0x2006, 0x20);
    bus.mem_write(0x2006, 0x10);
    bus.mem_read(0x2007);
    assert_eq!(bus.mem_read(0x2007), 0xab);
}

#[test]
fn unmapped_addresses_read_zero_and_drop_writes() {
    let mut bus = bus_with(2);
    for addr in [0x4000u16, 0x4013, 0x4014, 0x4015, 0x4018, 0x401f, 0x4020, 0x5fff, 0x6000, 0x7fff] {
        if addr != 0x4014 {
            bus.mem_write(addr, 0x5a);
        }
        assert_eq!(bus.mem_read(addr), 0);
    }
    assert_eq!(bus.cycles, 0);
    assert!(bus.cpu_vram.iter().all(|b| *b == 0));
}

#[test]
fn program_window_reads_the_cartridge_and_drops_writes() {
    let mut bus = bus_with(2);
    assert_eq!(bus.mem_read(0x8000), 1);
    assert_eq!(bus.mem_read(0x8001), 2);
    assert_eq!(bus.mem_read(0xc000), (0x4000 % 253) as u8 + 1);
    bus.mem_write(0x8000, 0x99);
    assert_eq!(bus.mem_read(0x8000), 1);
    let mut small = bus_with(1);
    assert_eq!(small.mem_read(0xc000), 1);
    assert_eq!(small.mem_read(0xffff), small.mem_read(0xbfff));
}

#[test]
fn words_are_little_endian() {
    let mut bus = bus_with(2);
    bus.mem_write_u16(0x0100, 0x1234);
    assert_eq!(bus.mem_read(0x0100), 0x34);
    assert_eq!(bus.mem_read(0x0101), 0x12);
    assert_eq!(bus.mem_read_u16(0x0100), 0x1234);
    assert_eq!(bus.mem_read_u16(0x8000), 0x0201);
    // A word at the top of memory has its high byte at address 0.
    bus.mem_write(0x0000, 0x77);
    let low = bus.mem_read(0xffff) as u16;
    assert_eq!(bus.mem_read_u16(0xffff), 0x7700 | low);
    bus.mem_write_u16(0x1fff, 0xa1b2);
    assert_eq!(bus.cpu_vram[0x7ff], 0xb2);
    assert_eq!(bus.ppu.ctrl, 0xa1);
}

#[test]
fn joypads_are_read_at_their_ports_and_share_the_strobe() {
    let mut bus = bus_with(2);
    bus.joypad1.set_button_pressed_status(JoypadButton::ButtonA, true);
    bus.joypad1.set_button_pressed_status(JoypadButton::Select, true);
    bus.joypad2.set_button_pressed_status(JoypadButton::ButtonB, true);
    bus.mem_write(0x4016, 1);
    assert!(bus.joypad1.strobe && bus.joypad2.strobe);
    assert_eq!(bus.mem_read(0x4016), 1);
    assert_eq!(bus.mem_read(0x4016), 1);
    assert_eq!(bus.mem_read(0x4017), 0);
    bus.mem_write(0x4016, 0);
    let one: Vec<u8> = (0..9).map(|_| bus.mem_read(0x4016)).collect();
    let two: Vec<u8> = (0..9).map(|_| bus.mem_read(0x4017)).collect();
    assert_eq!(one, vec![1, 0, 1, 0, 0, 0, 0, 0, 1]);
    assert_eq!(two, vec![0, 1, 0, 0, 0, 0, 0, 0, 1]);
    // A write to the second port goes nowhere.
    bus.mem_write(0x4017, 1);
    assert!(!bus.joypad2.strobe);
}

#[test]
fn tick_runs_the_picture_unit_three_dots_per_cycle() {
    let mut bus = bus_with(2);
    bus.tick(10);
    assert_eq!(bus.cycles, 10);
    assert_eq!((bus.ppu.scanline, bus.ppu.dot), (0, 30));
    bus.tick(114);
    assert_eq!(bus.cycles, 124);
    assert_eq!((bus.ppu.scanline, bus.ppu.dot), (1, 31));
    bus.tick(0);
    assert_eq!(bus.cycles, 124);
    bus.cycles = u64::MAX;
    bus.tick(2);
    assert_eq!(bus.cycles, 1);
}

#[test]
fn vertical_blank_with_the_interrupt_enabled_completes_a_frame() {
    let mut bus = bus_with(2);
    bus.mem_write(0x2000, 0x80);
    // 241 * 341 = 82181 dots = 27393 cycles and 2 dots
    bus.tick(27393);
    assert!(!bus.frame_ready);
    assert!(!bus.poll_nmi_status());
    bus.tick(1);
    assert!(bus.frame_ready);
    assert!(bus.poll_frame_status());
    assert!(!bus.poll_frame_status());
    assert!(bus.poll_nmi_status());
    assert!(!bus.poll_nmi_status());
}

#[test]
fn vertical_blank_without_the_interrupt_completes_no_frame() {
    let mut bus = bus_with(2);
    bus.tick(27394);
    assert_eq!(bus.ppu.status & 0x80, 0x80);
    assert!(!bus.poll_frame_status());
    assert!(!bus.poll_nmi_status());
}

#[test]
fn sprite_transfer_copies_a_page_and_takes_513_cycles() {
    let mut bus = bus_with(2);
    for i in 0..256u16 {
        bus.mem_write(0x0200 + i, (i as u8) ^ 0xa5);
    }
    bus.mem_write(0x2003, 0x04);
    bus.mem_write(0x4014, 0x02);
    for i in 0..256usize {
        assert_eq!(bus.ppu.oam_data[(i + 4) % 256], (i as u8) ^ 0xa5);
    }
    assert_eq!(bus.ppu.oam_addr, 0x04);
    assert_eq!(bus.cycles, 513);
    assert_eq!((bus.ppu.scanline, bus.ppu.dot), (4, 175));
}

#[test]
fn sprite_transfer_from_the_cartridge() {
    let mut bus = bus_with(2);
    bus.mem_write(0x4014, 0x80);
    for i in 0..256usize {
        assert_eq!(bus.ppu.oam_data[i], (i % 253) as u8 + 1);
    }
}

#[test]
fn sprite_transfer_reads_change_what_they_read() {
    // Page 0x40 holds the controller ports: each read of 0x4016 shifts.
    let mut bus = bus_with(2);
    bus.joypad1.set_button_pressed_status(JoypadButton::ButtonB, true);
    bus.mem_write(0x4014, 0x40);
    assert_eq!(bus.ppu.oam_data[0x16], 0);
    assert_eq!(bus.joypad1.button_index, 1);
    assert_eq!(bus.joypad2.button_index, 1);
    assert_eq!(bus.mem_read(0x4016), 1);
}
