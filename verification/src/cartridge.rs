//! The cartridge: program and character memory read from an iNES image.
use vstd::prelude::*;

verus! {

/// How the cartridge wires the picture unit's name tables.
#[derive(Clone, Copy, Debug, PartialEq, Eq, Structural)]
pub enum Mirroring {
    Vertical,
    Horizontal,
    FourScreen,
}

/// Why an image was rejected.
#[derive(Clone, Copy, Debug, PartialEq, Eq, Structural)]
pub enum RomError {
    /// The image does not start with the bytes `N`, `E`, `S`, 0x1A.
    BadMagic,
    /// The header names a format version other than 0.
    UnsupportedVersion,
    /// The header names a mapper other than 0.
    UnsupportedMapper,
    /// The image is shorter than its header, or than the banks the header
    /// announces.
    BadSize,
}

pub const HEADER_SIZE: usize = 16;

pub const TRAINER_SIZE: usize = 512;

pub const PRG_BANK_SIZE: usize = 0x4000;

pub const CHR_BANK_SIZE: usize = 0x2000;

/// What a cartridge holds, as plain values.
pub struct RomData {
    pub prg: Seq<u8>,
    pub chr: Seq<u8>,
    /// Whether `chr` is RAM on the board, which the picture unit may write.
    pub chr_writable: bool,
    pub mapper: u8,
    pub mirroring: Mirroring,
}

/// A cartridge.
pub struct Rom {
    pub prg_rom: Vec<u8>,
    pub chr_rom: Vec<u8>,
    pub chr_writable: bool,
    pub mapper: u8,
    pub screen_mirroring: Mirroring,
}

impl View for Rom {
    type V = RomData;

    open spec fn view(&self) -> RomData {
        RomData {
            prg: self.prg_rom@,
            chr: self.chr_rom@,
            chr_writable: self.chr_writable,
            mapper: self.mapper,
            mirroring: self.screen_mirroring,
        }
    }
}

/// Whether the image starts with the four bytes that mark the format.
pub open spec fn has_magic(raw: Seq<u8>) -> bool {
    raw.len() >= 4 && raw[0] == 0x4E && raw[1] == 0x45 && raw[2] == 0x53 && raw[3] == 0x1A
}

/// The mapper number: high nibble from byte 7, low nibble from the high
/// nibble of byte 6.
pub open spec fn header_mapper(flags6: u8, flags7: u8) -> u8 {
    (flags7 & 0xF0) | (flags6 >> 4)
}

/// The format version, bits 2 and 3 of byte 7.
pub open spec fn header_version(flags7: u8) -> u8 {
    (flags7 >> 2) & 0x03
}

/// Bit 3 of byte 6 selects four screens; otherwise bit 0 selects vertical
/// over horizontal.
pub open spec fn header_mirroring(flags6: u8) -> Mirroring {
    if flags6 & 0x08 != 0 {
        Mirroring::FourScreen
    } else if flags6 & 0x01 != 0 {
        Mirroring::Vertical
    } else {
        Mirroring::Horizontal
    }
}

/// Bit 2 of byte 6: a 512-byte trainer sits between header and program.
pub open spec fn header_has_trainer(flags6: u8) -> bool {
    flags6 & 0x04 != 0
}

/// Where the program banks start.
pub open spec fn prg_start(raw: Seq<u8>) -> int {
    if header_has_trainer(raw[6]) {
        HEADER_SIZE + TRAINER_SIZE
    } else {
        HEADER_SIZE as int
    }
}

/// Where the character banks start.
pub open spec fn chr_start(raw: Seq<u8>) -> int {
    prg_start(raw) + raw[4] * PRG_BANK_SIZE
}

/// Where the last announced bank ends.
pub open spec fn image_end(raw: Seq<u8>) -> int {
    chr_start(raw) + raw[5] * CHR_BANK_SIZE
}

/// The cartridge an image describes, or the first reason to reject it.
///
/// An image that announces no character bank describes a board with one
/// bank of character RAM, zeroed.
pub open spec fn parse_ines(raw: Seq<u8>) -> Result<RomData, RomError> {
    if !has_magic(raw) {
        Err(RomError::BadMagic)
    } else if raw.len() < HEADER_SIZE {
        Err(RomError::BadSize)
    } else if header_version(raw[7]) != 0 {
        Err(RomError::UnsupportedVersion)
    } else if header_mapper(raw[6], raw[7]) != 0 {
        Err(RomError::UnsupportedMapper)
    } else if raw.len() < image_end(raw) {
        Err(RomError::BadSize)
    } else {
        Ok(
            RomData {
                prg: raw.subrange(prg_start(raw), chr_start(raw)),
                chr: if raw[5] == 0 {
                    Seq::new(CHR_BANK_SIZE as nat, |i: int| 0u8)
                } else {
                    raw.subrange(chr_start(raw), image_end(raw))
                },
                chr_writable: raw[5] == 0,
                mapper: 0,
                mirroring: header_mirroring(raw[6]),
            },
        )
    }
}

/// The byte the processor sees at `addr` in the cartridge's program
/// window, 0x8000 to 0xFFFF. A single 16 KiB bank shows twice. Outside the
/// window, and where the program memory does not reach, the byte is 0.
pub open spec fn prg_byte(prg: Seq<u8>, addr: u16) -> u8 {
    if addr < 0x8000 {
        0
    } else {
        let offset = addr - 0x8000;
        let index = if prg.len() == PRG_BANK_SIZE {
            offset % (PRG_BANK_SIZE as int)
        } else {
            offset
        };
        if index < prg.len() {
            prg[index]
        } else {
            0
        }
    }
}

/// The byte the picture unit sees at `addr` in character memory, 0 where
/// the memory does not reach.
pub open spec fn chr_byte(chr: Seq<u8>, addr: u16) -> u8 {
    if addr < chr.len() {
        chr[addr as int]
    } else {
        0
    }
}

impl RomData {
    /// The cartridge after the picture unit wrote `data` at `addr`: only
    /// character RAM takes the write.
    pub open spec fn write_chr(self, addr: u16, data: u8) -> RomData {
        if self.chr_writable && addr < self.chr.len() {
            RomData { chr: self.chr.update(addr as int, data), ..self }
        } else {
            self
        }
    }
}

/// A copy of `len` bytes of `raw` from `start` on.
fn copy_range(raw: &Vec<u8>, start: usize, len: usize) -> (out: Vec<u8>)
    requires
        start + len <= raw.len(),
    ensures
        out@ == raw@.subrange(start as int, start + len),
{
    let mut out: Vec<u8> = Vec::new();
    let mut i: usize = 0;
    while i < len
        invariant
            i <= len,
            start + len <= raw.len(),
            out@ == raw@.subrange(start as int, start + i),
        decreases len - i,
    {
        out.push(raw[start + i]);
        i = i + 1;
    }
    out
}

/// `len` zero bytes.
fn zeroed(len: usize) -> (out: Vec<u8>)
    ensures
        out@ == Seq::new(len as nat, |i: int| 0u8),
{
    let mut out: Vec<u8> = Vec::new();
    let mut i: usize = 0;
    while i < len
        invariant
            i <= len,
            out@ == Seq::new(i as nat, |i: int| 0u8),
        decreases len - i,
    {
        out.push(0);
        i = i + 1;
    }
    out
}

impl Rom {
    /// Reads a cartridge from an iNES image.
    pub fn new(raw: &Vec<u8>) -> (result: Result<Rom, RomError>)
        ensures
            match parse_ines(raw@) {
                Ok(data) => result is Ok && result->Ok_0@ == data,
                Err(e) => result == Err::<Rom, RomError>(e),
            },
    {
        if raw.len() < 4 || raw[0] != 0x4E || raw[1] != 0x45 || raw[2] != 0x53 || raw[3] != 0x1A {
            return Err(RomError::BadMagic);
        }
        if raw.len() < HEADER_SIZE {
            return Err(RomError::BadSize);
        }
        let flags6: u8 = raw[6];
        let flags7: u8 = raw[7];
        if (flags7 >> 2) & 0x03 != 0 {
            return Err(RomError::UnsupportedVersion);
        }
        let mapper: u8 = (flags7 & 0xF0) | (flags6 >> 4);
        if mapper != 0 {
            return Err(RomError::UnsupportedMapper);
        }
        let screen_mirroring = if flags6 & 0x08 != 0 {
            Mirroring::FourScreen
        } else if flags6 & 0x01 != 0 {
            Mirroring::Vertical
        } else {
            Mirroring::Horizontal
        };
        let prg_len: usize = raw[4] as usize * PRG_BANK_SIZE;
        let chr_len: usize = raw[5] as usize * CHR_BANK_SIZE;
        let prg_at: usize = if flags6 & 0x04 != 0 {
            HEADER_SIZE + TRAINER_SIZE
        } else {
            HEADER_SIZE
        };
        let chr_at: usize = prg_at + prg_len;
        if raw.len() < chr_at + chr_len {
            return Err(RomError::BadSize);
        }
        let prg_rom = copy_range(raw, prg_at, prg_len);
        let chr_writable = raw[5] == 0;
        let chr_rom = if chr_writable {
            zeroed(CHR_BANK_SIZE)
        } else {
            copy_range(raw, chr_at, chr_len)
        };
        Ok(Rom { prg_rom, chr_rom, chr_writable, mapper, screen_mirroring })
    }

    /// The byte at `addr` of the program window.
    pub fn read_prg(&self, addr: u16) -> (data: u8)
        ensures
            data == prg_byte(self@.prg, addr),
    {
        if addr < 0x8000 {
            return 0;
        }
        let offset: usize = (addr - 0x8000) as usize;
        let index: usize = if self.prg_rom.len() == PRG_BANK_SIZE {
            offset % PRG_BANK_SIZE
        } else {
            offset
        };
        if index < self.prg_rom.len() {
            self.prg_rom[index]
        } else {
            0
        }
    }

    /// The byte at `addr` of character memory.
    pub fn read_chr(&self, addr: u16) -> (data: u8)
        ensures
            data == chr_byte(self@.chr, addr),
    {
        let index: usize = addr as usize;
        if index < self.chr_rom.len() {
            self.chr_rom[index]
        } else {
            0
        }
    }

    /// Stores `data` at `addr` of character memory where that is RAM.
    pub fn write_chr(&mut self, addr: u16, data: u8)
        ensures
            final(self)@ == old(self)@.write_chr(addr, data),
    {
        let index: usize = addr as usize;
        if self.chr_writable && index < self.chr_rom.len() {
            self.chr_rom.set(index, data);
        }
    }
}

} // verus!
