//! The picture unit as the processor sees it: eight registers, the memory
//! behind its data port, the sprite table, and the clock that raises the
//! vertical-blank interrupt. Nothing here draws.
use vstd::prelude::*;
use crate::cartridge::{chr_byte, Mirroring, Rom, RomData};

verus! {

pub const PPU_CTRL: u16 = 0x2000;

pub const PPU_MASK: u16 = 0x2001;

pub const PPU_STATUS: u16 = 0x2002;

pub const OAM_ADDR: u16 = 0x2003;

pub const OAM_DATA: u16 = 0x2004;

pub const PPU_SCROLL: u16 = 0x2005;

pub const PPU_ADDR: u16 = 0x2006;

pub const PPU_DATA: u16 = 0x2007;

/// Dots on a scanline.
pub const DOTS_PER_LINE: u16 = 341;

/// The scanline on which vertical blank starts.
pub const VBLANK_LINE: u16 = 241;

/// Scanlines in a frame.
pub const LINES_PER_FRAME: u16 = 262;

/// Bit 7 of the control register: raise an interrupt at vertical blank.
pub open spec fn nmi_enabled(ctrl: u8) -> bool {
    ctrl & 0x80 != 0
}

/// Bit 7 of the status register: the unit is in vertical blank.
pub open spec fn in_vblank(status: u8) -> bool {
    status & 0x80 != 0
}

/// Bit 2 of the control register selects how far the data port's address
/// moves after each access: down a row (32) or across (1).
pub open spec fn addr_step(ctrl: u8) -> int {
    if ctrl & 0x04 != 0 {
        32
    } else {
        1
    }
}

/// Where in name-table memory the address `a`, in 0x2000 to 0x3EFF, lands.
/// The four logical tables fold onto two with vertical or horizontal
/// mirroring and stay apart with four screens; 0x3000 and up repeat
/// 0x2000 and up.
pub open spec fn vram_index(mirroring: Mirroring, a: int) -> int {
    let offset = (a - 0x2000) % 0x1000;
    let table = offset / 0x400;
    let within = offset % 0x400;
    match mirroring {
        Mirroring::Vertical => (table % 2) * 0x400 + within,
        Mirroring::Horizontal => (table / 2) * 0x400 + within,
        Mirroring::FourScreen => offset,
    }
}

/// Where in the palette the address `a`, 0x3F00 or above, lands: the
/// palette repeats every 32 bytes, and entries 0x10, 0x14, 0x18, 0x1C are
/// the entries 16 below them.
pub open spec fn palette_index(a: int) -> int {
    let i = (a - 0x3F00) % 32;
    if i == 0x10 || i == 0x14 || i == 0x18 || i == 0x1C {
        i - 0x10
    } else {
        i
    }
}

/// The picture unit, as plain values.
pub struct PpuState {
    /// Name-table memory, 4 KiB.
    pub vram: Seq<u8>,
    /// The palette, 32 bytes.
    pub palette: Seq<u8>,
    /// The sprite table, 256 bytes.
    pub oam: Seq<u8>,
    pub oam_addr: u8,
    pub ctrl: u8,
    pub mask: u8,
    pub status: u8,
    pub scroll_x: u8,
    pub scroll_y: u8,
    /// The address behind the data port.
    pub addr: u16,
    /// Whether the next write to the scroll or address register is the
    /// second of its pair.
    pub latch: bool,
    /// What the data port returns on the next read below the palette.
    pub data_buffer: u8,
    pub scanline: u16,
    pub dot: u16,
    /// An interrupt was raised and the processor has not taken it yet.
    pub nmi_pending: bool,
}

impl PpuState {
    /// The memories have their sizes.
    pub open spec fn wf(self) -> bool {
        self.vram.len() == 4096 && self.palette.len() == 32 && self.oam.len() == 256
    }

    pub open spec fn power_on() -> PpuState {
        PpuState {
            vram: Seq::new(4096, |i: int| 0u8),
            palette: Seq::new(32, |i: int| 0u8),
            oam: Seq::new(256, |i: int| 0u8),
            oam_addr: 0,
            ctrl: 0,
            mask: 0,
            status: 0,
            scroll_x: 0,
            scroll_y: 0,
            addr: 0,
            latch: false,
            data_buffer: 0,
            scanline: 0,
            dot: 0,
            nmi_pending: false,
        }
    }

    /// The address behind the data port, folded into the unit's 16 KiB.
    pub open spec fn data_addr(self) -> int {
        self.addr as int % 0x4000
    }

    /// The address behind the data port after one access.
    pub open spec fn next_addr(self) -> u16 {
        ((self.data_addr() + addr_step(self.ctrl)) % 0x4000) as u16
    }

    /// What a read of register `reg` returns. Only the status, sprite data
    /// and data registers can be read; the others return 0.
    pub open spec fn read_value(self, reg: u16) -> u8 {
        if reg == PPU_STATUS {
            self.status
        } else if reg == OAM_DATA {
            self.oam[self.oam_addr as int]
        } else if reg == PPU_DATA {
            if self.data_addr() < 0x3F00 {
                self.data_buffer
            } else {
                self.palette[palette_index(self.data_addr())]
            }
        } else {
            0
        }
    }

    /// The unit after a read of register `reg`. Reading the status clears
    /// the vertical-blank bit and the write latch. Reading the data port
    /// refills the buffer from the address behind the port, unless that is
    /// in the palette, and moves the address on.
    pub open spec fn after_read(self, rom: RomData, reg: u16) -> PpuState {
        if reg == PPU_STATUS {
            PpuState { status: self.status & 0x7F, latch: false, ..self }
        } else if reg == PPU_DATA {
            let a = self.data_addr();
            PpuState {
                data_buffer: if a < 0x2000 {
                    chr_byte(rom.chr, a as u16)
                } else if a < 0x3F00 {
                    self.vram[vram_index(rom.mirroring, a)]
                } else {
                    self.data_buffer
                },
                addr: self.next_addr(),
                ..self
            }
        } else {
            self
        }
    }

    /// The unit after a write of `data` to register `reg`. The status
    /// register and anything that is no register ignore the write.
    pub open spec fn after_write(self, rom: RomData, reg: u16, data: u8) -> PpuState {
        if reg == PPU_CTRL {
            PpuState {
                ctrl: data,
                nmi_pending: self.nmi_pending || (!nmi_enabled(self.ctrl) && nmi_enabled(data)
                    && in_vblank(self.status)),
                ..self
            }
        } else if reg == PPU_MASK {
            PpuState { mask: data, ..self }
        } else if reg == OAM_ADDR {
            PpuState { oam_addr: data, ..self }
        } else if reg == OAM_DATA {
            PpuState {
                oam: self.oam.update(self.oam_addr as int, data),
                oam_addr: ((self.oam_addr + 1) % 256) as u8,
                ..self
            }
        } else if reg == PPU_SCROLL {
            if self.latch {
                PpuState { scroll_y: data, latch: false, ..self }
            } else {
                PpuState { scroll_x: data, latch: true, ..self }
            }
        } else if reg == PPU_ADDR {
            if self.latch {
                PpuState { addr: ((self.addr / 256) * 256 + data) as u16, latch: false, ..self }
            } else {
                PpuState {
                    addr: ((data % 0x40) * 256 + self.addr % 256) as u16,
                    latch: true,
                    ..self
                }
            }
        } else if reg == PPU_DATA {
            let a = self.data_addr();
            if a < 0x2000 {
                PpuState { addr: self.next_addr(), ..self }
            } else if a < 0x3F00 {
                PpuState {
                    vram: self.vram.update(vram_index(rom.mirroring, a), data),
                    addr: self.next_addr(),
                    ..self
                }
            } else {
                PpuState {
                    palette: self.palette.update(palette_index(a), data),
                    addr: self.next_addr(),
                    ..self
                }
            }
        } else {
            self
        }
    }

    /// The cartridge after a write of `data` to register `reg`: a write
    /// through the data port to an address below 0x2000 goes to character
    /// memory.
    pub open spec fn rom_after_write(self, rom: RomData, reg: u16, data: u8) -> RomData {
        if reg == PPU_DATA && self.data_addr() < 0x2000 {
            rom.write_chr(self.data_addr() as u16, data)
        } else {
            rom
        }
    }

    /// The unit after a transfer of 256 bytes into the sprite table. The
    /// first byte lands at the sprite address, the rest follow and wrap
    /// round; the sprite address ends where it began.
    pub open spec fn after_oam_dma(self, bytes: Seq<u8>) -> PpuState {
        PpuState { oam: Seq::new(256, |j: int| bytes[(j - self.oam_addr) % 256]), ..self }
    }

    /// The unit at the start of the next scanline. Line 241 starts
    /// vertical blank and raises the interrupt if the control register asks
    /// for it; after line 261 the frame starts over, vertical blank ends
    /// and an interrupt not yet taken is dropped. Both clear bit 6 of the
    /// status, the sprite-zero hit.
    pub open spec fn next_scanline(self) -> PpuState {
        if self.scanline >= LINES_PER_FRAME - 1 {
            PpuState {
                scanline: 0,
                dot: 0,
                status: self.status & 0x3F,
                nmi_pending: false,
                ..self
            }
        } else if self.scanline + 1 == VBLANK_LINE {
            PpuState {
                scanline: VBLANK_LINE,
                dot: 0,
                status: (self.status | 0x80) & 0xBF,
                nmi_pending: self.nmi_pending || nmi_enabled(self.ctrl),
                ..self
            }
        } else {
            PpuState { scanline: (self.scanline + 1) as u16, dot: 0, ..self }
        }
    }

    /// The unit one dot later.
    pub open spec fn next_dot(self) -> PpuState {
        if self.dot < DOTS_PER_LINE - 1 {
            PpuState { dot: (self.dot + 1) as u16, ..self }
        } else {
            self.next_scanline()
        }
    }

    /// The unit `n` dots later.
    pub open spec fn advance(self, n: nat) -> PpuState
        decreases n,
    {
        if n == 0 {
            self
        } else {
            self.next_dot().advance((n - 1) as nat)
        }
    }

    /// The unit after the processor took the pending interrupt, if any.
    pub open spec fn after_poll(self) -> PpuState {
        PpuState { nmi_pending: false, ..self }
    }
}

/// Dots that do not leave the scanline only move the dot counter.
pub proof fn lemma_advance_in_line(s: PpuState, k: nat)
    requires
        s.dot + k < DOTS_PER_LINE,
    ensures
        s.advance(k) == (PpuState { dot: (s.dot + k) as u16, ..s }),
    decreases k,
{
    if k > 0 {
        lemma_advance_in_line(s.next_dot(), (k - 1) as nat);
    }
}

/// Advancing by `a + b` dots is advancing by `a`, then by `b`.
pub proof fn lemma_advance_add(s: PpuState, a: nat, b: nat)
    ensures
        s.advance(a + b) == s.advance(a).advance(b),
    decreases a,
{
    if a > 0 {
        lemma_advance_add(s.next_dot(), (a - 1) as nat, b);
        assert((a + b - 1) as nat == (a - 1) as nat + b);
    }
}

/// The picture unit.
pub struct Ppu {
    pub vram: [u8; 4096],
    pub palette_table: [u8; 32],
    pub oam_data: [u8; 256],
    pub oam_addr: u8,
    pub ctrl: u8,
    pub mask: u8,
    pub status: u8,
    pub scroll_x: u8,
    pub scroll_y: u8,
    pub addr: u16,
    pub latch: bool,
    pub data_buffer: u8,
    pub scanline: u16,
    pub dot: u16,
    pub nmi_pending: bool,
}

impl View for Ppu {
    type V = PpuState;

    open spec fn view(&self) -> PpuState {
        PpuState {
            vram: self.vram@,
            palette: self.palette_table@,
            oam: self.oam_data@,
            oam_addr: self.oam_addr,
            ctrl: self.ctrl,
            mask: self.mask,
            status: self.status,
            scroll_x: self.scroll_x,
            scroll_y: self.scroll_y,
            addr: self.addr,
            latch: self.latch,
            data_buffer: self.data_buffer,
            scanline: self.scanline,
            dot: self.dot,
            nmi_pending: self.nmi_pending,
        }
    }
}

impl Ppu {
    /// The view of a picture unit is well formed.
    pub proof fn lemma_view_wf(&self)
        ensures
            self@.wf(),
    {
    }

    pub fn new() -> (ppu: Ppu)
        ensures
            ppu@ == PpuState::power_on(),
    {
        let ppu = Ppu {
            vram: [0u8;4096],
            palette_table: [0u8;32],
            oam_data: [0u8;256],
            oam_addr: 0,
            ctrl: 0,
            mask: 0,
            status: 0,
            scroll_x: 0,
            scroll_y: 0,
            addr: 0,
            latch: false,
            data_buffer: 0,
            scanline: 0,
            dot: 0,
            nmi_pending: false,
        };
        assert(ppu@.vram =~= PpuState::power_on().vram);
        assert(ppu@.palette =~= PpuState::power_on().palette);
        assert(ppu@.oam =~= PpuState::power_on().oam);
        ppu
    }

    /// Index into name-table memory for an address in 0x2000 to 0x3EFF.
    fn mirror_vram_addr(mirroring: Mirroring, a: u16) -> (index: usize)
        requires
            0x2000 <= a < 0x3F00,
        ensures
            index == vram_index(mirroring, a as int),
            index < 4096,
    {
        let offset: u16 = (a - 0x2000) % 0x1000;
        let table: u16 = offset / 0x400;
        let within: u16 = offset % 0x400;
        let index: u16 = match mirroring {
            Mirroring::Vertical => (table % 2) * 0x400 + within,
            Mirroring::Horizontal => (table / 2) * 0x400 + within,
            Mirroring::FourScreen => offset,
        };
        index as usize
    }

    /// Index into the palette for an address of 0x3F00 or above.
    fn mirror_palette_addr(a: u16) -> (index: usize)
        requires
            0x3F00 <= a < 0x4000,
        ensures
            index == palette_index(a as int),
            index < 32,
    {
        let i: u16 = (a - 0x3F00) % 32;
        if i == 0x10 || i == 0x14 || i == 0x18 || i == 0x1C {
            (i - 0x10) as usize
        } else {
            i as usize
        }
    }

    fn increment_vram_addr(&mut self)
        ensures
            final(self)@ == (PpuState { addr: old(self)@.next_addr(), ..old(self)@ }),
    {
        let step: u16 = if self.ctrl & 0x04 != 0 {
            32
        } else {
            1
        };
        self.addr = (self.addr % 0x4000 + step) % 0x4000;
    }

    /// The processor reads register `reg`.
    pub fn read_register(&mut self, reg: u16, rom: &Rom) -> (data: u8)
        ensures
            data == old(self)@.read_value(reg),
            final(self)@ == old(self)@.after_read(rom@, reg),
    {
        if reg == PPU_STATUS {
            let data: u8 = self.status;
            self.status = self.status & 0x7F;
            self.latch = false;
            data
        } else if reg == OAM_DATA {
            self.oam_data[self.oam_addr as usize]
        } else if reg == PPU_DATA {
            let a: u16 = self.addr % 0x4000;
            self.increment_vram_addr();
            if a < 0x2000 {
                let data: u8 = self.data_buffer;
                self.data_buffer = rom.read_chr(a);
                data
            } else if a < 0x3F00 {
                let data: u8 = self.data_buffer;
                let index: usize = Ppu::mirror_vram_addr(rom.screen_mirroring, a);
                self.data_buffer = self.vram[index];
                data
            } else {
                let index: usize = Ppu::mirror_palette_addr(a);
                self.palette_table[index]
            }
        } else {
            0
        }
    }

    /// What a read of register `reg` would return, without reading it.
    pub fn peek_register(&self, reg: u16) -> (data: u8)
        ensures
            data == self@.read_value(reg),
    {
        if reg == PPU_STATUS {
            self.status
        } else if reg == OAM_DATA {
            self.oam_data[self.oam_addr as usize]
        } else if reg == PPU_DATA {
            let a: u16 = self.addr % 0x4000;
            if a < 0x3F00 {
                self.data_buffer
            } else {
                let index: usize = Ppu::mirror_palette_addr(a);
                self.palette_table[index]
            }
        } else {
            0
        }
    }

    /// The processor writes `data` to register `reg`.
    pub fn write_register(&mut self, reg: u16, data: u8, rom: &mut Rom)
        ensures
            final(self)@ == old(self)@.after_write(old(rom)@, reg, data),
            final(rom)@ == old(self)@.rom_after_write(old(rom)@, reg, data),
    {
        if reg == PPU_CTRL {
            let was_enabled: bool = self.ctrl & 0x80 != 0;
            self.ctrl = data;
            if !was_enabled && data & 0x80 != 0 && self.status & 0x80 != 0 {
                self.nmi_pending = true;
            }
        } else if reg == PPU_MASK {
            self.mask = data;
        } else if reg == OAM_ADDR {
            self.oam_addr = data;
        } else if reg == OAM_DATA {
            let index: usize = self.oam_addr as usize;
            self.oam_data[index] = data;
            self.oam_addr = self.oam_addr.wrapping_add(1);
        } else if reg == PPU_SCROLL {
            if self.latch {
                self.scroll_y = data;
            } else {
                self.scroll_x = data;
            }
            self.latch = !self.latch;
        } else if reg == PPU_ADDR {
            if self.latch {
                self.addr = (self.addr / 256) * 256 + data as u16;
            } else {
                self.addr = (data as u16 % 0x40) * 256 + self.addr % 256;
            }
            self.latch = !self.latch;
        } else if reg == PPU_DATA {
            let a: u16 = self.addr % 0x4000;
            if a < 0x2000 {
                rom.write_chr(a, data);
            } else if a < 0x3F00 {
                let index: usize = Ppu::mirror_vram_addr(rom.screen_mirroring, a);
                self.vram[index] = data;
            } else {
                let index: usize = Ppu::mirror_palette_addr(a);
                self.palette_table[index] = data;
            }
            self.increment_vram_addr();
        }
    }

    /// Copies a page of 256 bytes into the sprite table, starting at the
    /// sprite address.
    pub fn write_oam_dma(&mut self, data: &[u8; 256])
        ensures
            final(self)@ == old(self)@.after_oam_dma(data@),
    {
        let start: u8 = self.oam_addr;
        let mut i: usize = 0;
        while i < 256
            invariant
                i <= 256,
                start == old(self).oam_addr,
                self.oam_addr == (start + i) % 256,
                self@ == (PpuState { oam: self@.oam, oam_addr: self.oam_addr, ..old(self)@ }),
                forall|k: int|
                    0 <= k < 256 ==> self.oam_data@[k] == if (k - start) % 256 < i {
                        data@[(k - start) % 256]
                    } else {
                        old(self).oam_data@[k]
                    },
            decreases 256 - i,
        {
            let index: usize = self.oam_addr as usize;
            self.oam_data[index] = data[i];
            self.oam_addr = self.oam_addr.wrapping_add(1);
            i = i + 1;
        }
        assert(self@.oam =~= old(self)@.after_oam_dma(data@).oam);
    }

    fn enter_next_scanline(&mut self)
        ensures
            final(self)@ == old(self)@.next_scanline(),
    {
        self.dot = 0;
        if self.scanline >= LINES_PER_FRAME - 1 {
            self.scanline = 0;
            self.status = self.status & 0x3F;
            self.nmi_pending = false;
        } else if self.scanline + 1 == VBLANK_LINE {
            self.scanline = VBLANK_LINE;
            self.status = (self.status | 0x80) & 0xBF;
            if self.ctrl & 0x80 != 0 {
                self.nmi_pending = true;
            }
        } else {
            self.scanline = self.scanline + 1;
        }
    }

    /// Runs the unit for `cycles` dots. Returns whether this raised an
    /// interrupt where none was pending.
    pub fn tick(&mut self, cycles: u32) -> (nmi_edge: bool)
        ensures
            final(self)@ == old(self)@.advance(cycles as nat),
            nmi_edge == (!old(self)@.nmi_pending && final(self)@.nmi_pending),
    {
        let was_pending: bool = self.nmi_pending;
        let mut left: u32 = cycles;
        while left > 0
            invariant
                self@.advance(left as nat) == old(self)@.advance(cycles as nat),
            decreases left,
        {
            let room: u32 = if self.dot < DOTS_PER_LINE - 1 {
                (DOTS_PER_LINE - 1 - self.dot) as u32
            } else {
                0
            };
            if left <= room {
                proof {
                    lemma_advance_in_line(self@, left as nat);
                }
                self.dot = self.dot + left as u16;
                left = 0;
            } else {
                proof {
                    let s = self@;
                    let t = PpuState { dot: (s.dot + room) as u16, ..s };
                    if room > 0 {
                        lemma_advance_in_line(s, room as nat);
                    }
                    lemma_advance_add(s, room as nat, (left - room) as nat);
                    assert(s.advance(room as nat) == t);
                    assert(t.next_dot() == s.next_scanline());
                }
                left = left - room - 1;
                self.enter_next_scanline();
            }
        }
        !was_pending && self.nmi_pending
    }

    /// Hands the pending interrupt, if any, to the processor.
    pub fn poll_nmi_status(&mut self) -> (pending: bool)
        ensures
            pending == old(self)@.nmi_pending,
            final(self)@ == old(self)@.after_poll(),
    {
        let pending: bool = self.nmi_pending;
        self.nmi_pending = false;
        pending
    }
}

} // verus!
