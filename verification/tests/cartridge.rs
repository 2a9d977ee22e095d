use nes_core::cartridge::{Mirroring, Rom, RomError};

fn header(prg_banks: u8, chr_banks: u8, flags6: u8, flags7: u8) -> Vec<u8> {
    let mut raw = vec![0x4E, 0x45, 0x53, 0x1A, prg_banks, chr_banks, flags6, flags7];
    raw.extend_from_slice(&[0u8; 8]);
    raw
}

/// An image whose program bytes count up from 1 and whose character bytes
/// count down from 0xff.
fn cart_image(prg_banks: u8, chr_banks: u8, flags6: u8, flags7: u8) -> Vec<u8> {
    let mut raw = header(prg_banks, chr_banks, flags6, flags7);
    if flags6 & 0x04 != 0 {
        raw.extend_from_slice(&[0xEE; 512]);
    }
    for i in 0..(prg_banks as usize * 0x4000) {
        raw.push((i % 251) as u8 + 1);
    }
    for i in 0..(chr_banks as usize * 0x2000) {
        raw.push(0xff - (i % 199) as u8);
    }
    raw
}

fn error_of(raw: &Vec<u8>) -> RomError {
    match Rom::new(raw) {
        Ok(_) => panic!("the image was accepted"),
        Err(e) => e,
    }
}

#[test]
fn image_without_the_tag_is_rejected() {
    let mut raw = cart_image(1, 1, 0, 0);
    raw[3] = 0x1B;
    assert_eq!(error_of(&raw), RomError::BadMagic);
    assert_eq!(error_of(&vec![0x4E, 0x45, 0x53]), RomError::BadMagic);
    assert_eq!(error_of(&Vec::new()), RomError::BadMagic);
}

#[test]
fn image_shorter_than_its_header_is_rejected() {
    assert_eq!(error_of(&vec![0x4E, 0x45, 0x53, 0x1A, 1, 1, 0, 0]), RomError::BadSize);
}

#[test]
fn image_of_another_version_is_rejected() {
    assert_eq!(error_of(&cart_image(1, 1, 0, 0x08)), RomError::UnsupportedVersion);
    assert_eq!(error_of(&cart_image(1, 1, 0, 0x04)), RomError::UnsupportedVersion);
    // The version is looked at before the mapper.
    assert_eq!(error_of(&cart_image(1, 1, 0x10, 0x08)), RomError::UnsupportedVersion);
}

#[test]
fn image_for_another_mapper_is_rejected() {
    assert_eq!(error_of(&cart_image(1, 1, 0x10, 0)), RomError::UnsupportedMapper);
    assert_eq!(error_of(&cart_image(1, 1, 0x00, 0x10)), RomError::UnsupportedMapper);
    assert_eq!(error_of(&cart_image(1, 1, 0x31, 0)), RomError::UnsupportedMapper);
}

#[test]
fn image_shorter_than_its_banks_is_rejected() {
    let mut raw = cart_image(2, 1, 0, 0);
    raw.pop();
    assert_eq!(error_of(&raw), RomError::BadSize);
    assert_eq!(error_of(&header(1, 0, 0, 0)), RomError::BadSize);
    let mut raw = cart_image(1, 0, 0x04, 0);
    raw.pop();
    assert_eq!(error_of(&raw), RomError::BadSize);
}

#[test]
fn banks_are_cut_out_of_the_image() {
    let raw = cart_image(2, 1, 0x01, 0);
    let rom = Rom::new(&raw).unwrap();
    assert_eq!(rom.prg_rom.len(), 0x8000);
    assert_eq!(rom.chr_rom.len(), 0x2000);
    assert_eq!(rom.prg_rom[..], raw[16..16 + 0x8000]);
    assert_eq!(rom.chr_rom[..], raw[16 + 0x8000..]);
    assert_eq!(rom.mapper, 0);
    assert!(!rom.chr_writable);
    assert_eq!(rom.screen_mirroring, Mirroring::Vertical);
}

#[test]
fn trailing_bytes_are_left_out() {
    let mut raw = cart_image(1, 1, 0, 0);
    raw.extend_from_slice(&[9, 9, 9]);
    let rom = Rom::new(&raw).unwrap();
    assert_eq!(rom.prg_rom.len(), 0x4000);
    assert_eq!(rom.chr_rom.len(), 0x2000);
    assert_eq!(rom.chr_rom[0x1fff], raw[16 + 0x4000 + 0x1fff]);
}

#[test]
fn trainer_is_skipped() {
    let raw = cart_image(1, 1, 0x04, 0);
    let rom = Rom::new(&raw).unwrap();
    assert_eq!(rom.prg_rom[0], 1);
    assert_eq!(rom.prg_rom[..], raw[16 + 512..16 + 512 + 0x4000]);
    assert_eq!(rom.chr_rom[0], 0xff);
}

#[test]
fn mirroring_comes_from_byte_6() {
    assert_eq!(Rom::new(&cart_image(1, 1, 0x00, 0)).unwrap().screen_mirroring, Mirroring::Horizontal);
    assert_eq!(Rom::new(&cart_image(1, 1, 0x01, 0)).unwrap().screen_mirroring, Mirroring::Vertical);
    assert_eq!(Rom::new(&cart_image(1, 1, 0x08, 0)).unwrap().screen_mirroring, Mirroring::FourScreen);
    assert_eq!(Rom::new(&cart_image(1, 1, 0x09, 0)).unwrap().screen_mirroring, Mirroring::FourScreen);
}

#[test]
fn one_program_bank_shows_twice() {
    let rom = Rom::new(&cart_image(1, 1, 0, 0)).unwrap();
    assert_eq!(rom.read_prg(0x8000), 1);
    assert_eq!(rom.read_prg(0x8001), 2);
    assert_eq!(rom.read_prg(0xc000), 1);
    assert_eq!(rom.read_prg(0xc001), 2);
    assert_eq!(rom.read_prg(0xffff), rom.prg_rom[0x3fff]);
    assert_eq!(rom.read_prg(0x7fff), 0);
}

#[test]
fn two_program_banks_fill_the_window() {
    let rom = Rom::new(&cart_image(2, 1, 0, 0)).unwrap();
    assert_eq!(rom.read_prg(0x8000), 1);
    assert_eq!(rom.read_prg(0xc000), rom.prg_rom[0x4000]);
    assert_eq!(rom.read_prg(0xc000), (0x4000 % 251) as u8 + 1);
    assert_eq!(rom.read_prg(0xffff), rom.prg_rom[0x7fff]);
}

#[test]
fn no_program_bank_reads_as_zero() {
    let rom = Rom::new(&cart_image(0, 1, 0, 0)).unwrap();
    assert_eq!(rom.prg_rom.len(), 0);
    assert_eq!(rom.read_prg(0x8000), 0);
    assert_eq!(rom.read_prg(0xffff), 0);
}

#[test]
fn character_rom_ignores_writes() {
    let mut rom = Rom::new(&cart_image(1, 1, 0, 0)).unwrap();
    assert_eq!(rom.read_chr(0), 0xff);
    assert_eq!(rom.read_chr(1), 0xfe);
    rom.write_chr(0, 0x12);
    assert_eq!(rom.read_chr(0), 0xff);
    assert_eq!(rom.read_chr(0x2000), 0);
}

#[test]
fn no_character_bank_means_character_ram() {
    let mut rom = Rom::new(&cart_image(1, 0, 0, 0)).unwrap();
    assert!(rom.chr_writable);
    assert_eq!(rom.chr_rom, vec![0u8; 0x2000]);
    rom.write_chr(0x1fff, 0x12);
    assert_eq!(rom.read_chr(0x1fff), 0x12);
    rom.write_chr(0x2000, 0x34);
    assert_eq!(rom.read_chr(0x2000), 0);
}
