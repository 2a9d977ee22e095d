//! The processor's side of the memory bus: what each address leads to.
use vstd::prelude::*;
use crate::alu::lemma_word_masks;
use crate::cartridge::{prg_byte, Rom, RomData};
use crate::cpu::Mem;
use crate::joypad::Joypad;
use crate::ppu::{Ppu, PpuState};

verus! {

/// Where work RAM ends: 2 KiB, shown four times below this address.
pub const RAM_END: u16 = 0x2000;

/// Where the picture unit's registers end: eight of them, shown every
/// eight bytes from 0x2000 up to here.
pub const PPU_REGISTERS_END: u16 = 0x4000;

/// The register that starts a transfer into the sprite table.
pub const OAM_DMA: u16 = 0x4014;

pub const JOYPAD_1: u16 = 0x4016;

pub const JOYPAD_2: u16 = 0x4017;

/// Where the cartridge's program window starts.
pub const PRG_START: u16 = 0x8000;

/// The processor cycles that a transfer into the sprite table takes.
pub const OAM_DMA_CYCLES: u16 = 513;

/// Everything behind the bus, as plain values.
pub struct BusState {
    /// Work RAM, 2 KiB.
    pub ram: Seq<u8>,
    pub rom: RomData,
    pub ppu: PpuState,
    pub joypad1: Joypad,
    pub joypad2: Joypad,
    /// Processor cycles since power-on, modulo 2^64.
    pub cycles: u64,
    /// A frame was completed and the host has not fetched it yet.
    pub frame_ready: bool,
}

impl BusState {
    /// The memories have their sizes.
    pub open spec fn wf(self) -> bool {
        self.ram.len() == 2048 && self.ppu.wf()
    }

    pub open spec fn power_on(rom: RomData) -> BusState {
        BusState {
            ram: Seq::new(2048, |i: int| 0u8),
            rom,
            ppu: PpuState::power_on(),
            joypad1: Joypad::idle(),
            joypad2: Joypad::idle(),
            cycles: 0,
            frame_ready: false,
        }
    }

    /// The register of the picture unit that `addr`, in 0x2000 to 0x3FFF,
    /// leads to.
    pub open spec fn ppu_register(addr: u16) -> u16 {
        (0x2000 + addr % 8) as u16
    }

    /// What a read at `addr` returns. Addresses that lead nowhere, or to
    /// something that can only be written, return 0.
    #[verifier::opaque]
    pub open spec fn read_value(self, addr: u16) -> u8 {
        if addr < RAM_END {
            self.ram[addr as int % 0x800]
        } else if addr < PPU_REGISTERS_END {
            self.ppu.read_value(Self::ppu_register(addr))
        } else if addr == JOYPAD_1 {
            self.joypad1.read_value()
        } else if addr == JOYPAD_2 {
            self.joypad2.read_value()
        } else if addr >= PRG_START {
            prg_byte(self.rom.prg, addr)
        } else {
            0
        }
    }

    /// The state after a read at `addr`: only the picture unit and the
    /// controllers change when read.
    #[verifier::opaque]
    pub open spec fn after_read(self, addr: u16) -> BusState {
        if RAM_END <= addr < PPU_REGISTERS_END {
            BusState { ppu: self.ppu.after_read(self.rom, Self::ppu_register(addr)), ..self }
        } else if addr == JOYPAD_1 {
            BusState { joypad1: self.joypad1.after_read(), ..self }
        } else if addr == JOYPAD_2 {
            BusState { joypad2: self.joypad2.after_read(), ..self }
        } else {
            self
        }
    }

    /// The state after `n` bytes of page `page` were read for a transfer
    /// into the sprite table.
    pub open spec fn dma_state(self, page: u8, n: nat) -> BusState
        decreases n,
    {
        if n == 0 {
            self
        } else {
            self.dma_state(page, (n - 1) as nat).after_read((page * 256 + (n - 1)) as u16)
        }
    }

    /// Byte `k` of page `page` as a transfer into the sprite table reads
    /// it, after the `k` bytes before it.
    pub open spec fn dma_byte(self, page: u8, k: nat) -> u8 {
        self.dma_state(page, k).read_value((page * 256 + k) as u16)
    }

    /// The state after `cycles` processor cycles went by: the picture unit
    /// ran three dots for each, and a frame is ready if that raised its
    /// interrupt.
    #[verifier::opaque]
    pub open spec fn tick(self, cycles: u16) -> BusState {
        let ppu = self.ppu.advance(3 * cycles as nat);
        BusState {
            cycles: ((self.cycles + cycles) % 0x1_0000_0000_0000_0000) as u64,
            ppu,
            frame_ready: self.frame_ready || (!self.ppu.nmi_pending && ppu.nmi_pending),
            ..self
        }
    }

    /// The state after a write of `data` at `addr`. A write to 0x4014
    /// copies page `data` into the sprite table and takes 513 cycles; a
    /// write to 0x4016 reaches both controllers, which share the strobe.
    /// Writes to the cartridge's program window and to addresses that lead
    /// nowhere are dropped.
    #[verifier::opaque]
    pub open spec fn after_write(self, addr: u16, data: u8) -> BusState {
        if addr < RAM_END {
            BusState { ram: self.ram.update(addr as int % 0x800, data), ..self }
        } else if addr < PPU_REGISTERS_END {
            let reg = Self::ppu_register(addr);
            BusState {
                ppu: self.ppu.after_write(self.rom, reg, data),
                rom: self.ppu.rom_after_write(self.rom, reg, data),
                ..self
            }
        } else if addr == OAM_DMA {
            let s = self.dma_state(data, 256);
            let bytes = Seq::new(256, |k: int| self.dma_byte(data, k as nat));
            (BusState { ppu: s.ppu.after_oam_dma(bytes), ..s }).tick(OAM_DMA_CYCLES)
        } else if addr == JOYPAD_1 {
            BusState {
                joypad1: self.joypad1.after_write(data),
                joypad2: self.joypad2.after_write(data),
                ..self
            }
        } else {
            self
        }
    }

    /// The state after the processor took the pending interrupt, if any.
    pub open spec fn after_nmi_poll(self) -> BusState {
        BusState { ppu: self.ppu.after_poll(), ..self }
    }

    /// The state after the host fetched the completed frame, if any.
    pub open spec fn after_frame_poll(self) -> BusState {
        BusState { frame_ready: false, ..self }
    }
}

/// The bus, and everything behind it.
pub struct Bus {
    pub cpu_vram: [u8; 2048],
    pub rom: Rom,
    pub ppu: Ppu,
    pub joypad1: Joypad,
    pub joypad2: Joypad,
    pub cycles: u64,
    pub frame_ready: bool,
}

impl View for Bus {
    type V = BusState;

    open spec fn view(&self) -> BusState {
        BusState {
            ram: self.cpu_vram@,
            rom: self.rom@,
            ppu: self.ppu@,
            joypad1: self.joypad1,
            joypad2: self.joypad2,
            cycles: self.cycles,
            frame_ready: self.frame_ready,
        }
    }
}

impl Bus {
    /// The view of a bus is well formed.
    pub proof fn lemma_view_wf(&self)
        ensures
            self@.wf(),
    {
        self.ppu.lemma_view_wf();
    }

    /// The machine at power-on with `rom` in the slot.
    pub fn new(rom: Rom) -> (bus: Bus)
        ensures
            bus@ == BusState::power_on(rom@),
    {
        let bus = Bus {
            cpu_vram: [0u8;2048],
            rom,
            ppu: Ppu::new(),
            joypad1: Joypad::new(),
            joypad2: Joypad::new(),
            cycles: 0,
            frame_ready: false,
        };
        assert(bus@.ram =~= BusState::power_on(rom@).ram);
        bus
    }

    /// Lets `cycles` processor cycles go by.
    pub fn tick(&mut self, cycles: u16)
        ensures
            final(self)@ == old(self)@.tick(cycles),
    {
        reveal(BusState::tick);
        self.cycles = self.cycles.wrapping_add(cycles as u64);
        let nmi_edge: bool = self.ppu.tick(3 * (cycles as u32));
        if nmi_edge {
            self.frame_ready = true;
        }
    }

    /// Whether the picture unit raised its interrupt since the last poll.
    /// The interrupt is handed over: a second poll returns `false`.
    pub fn poll_nmi_status(&mut self) -> (pending: bool)
        ensures
            pending == old(self)@.ppu.nmi_pending,
            final(self)@ == old(self)@.after_nmi_poll(),
    {
        self.ppu.poll_nmi_status()
    }

    /// Whether a frame was completed since the last poll. The frame is
    /// handed over: a second poll returns `false`.
    pub fn poll_frame_status(&mut self) -> (ready: bool)
        ensures
            ready == old(self)@.frame_ready,
            final(self)@ == old(self)@.after_frame_poll(),
    {
        let ready: bool = self.frame_ready;
        self.frame_ready = false;
        ready
    }

    /// What a read at `addr` would return, without reading: nothing behind
    /// the bus changes.
    pub fn peek(&self, addr: u16) -> (data: u8)
        ensures
            data == self@.read_value(addr),
    {
        proof {
            reveal(BusState::read_value);
            lemma_word_masks(addr);
        }
        if addr < RAM_END {
            let mirror: u16 = addr & 0x07FF;
            self.cpu_vram[mirror as usize]
        } else if addr < PPU_REGISTERS_END {
            let reg: u16 = addr & 0x2007;
            self.ppu.peek_register(reg)
        } else if addr == JOYPAD_1 {
            self.joypad1.peek()
        } else if addr == JOYPAD_2 {
            self.joypad2.peek()
        } else if addr >= PRG_START {
            self.rom.read_prg(addr)
        } else {
            0
        }
    }

    /// Copies page `page` into the sprite table, byte by byte through the
    /// bus.
    fn oam_dma(&mut self, page: u8)
        ensures
            final(self)@ == old(self)@.after_write(OAM_DMA, page),
    {
        reveal(BusState::after_write);
        let mut buffer: [u8; 256] = [0u8;256];
        let base: u16 = (page as u16) * 256;
        let mut i: u16 = 0;
        while i < 256
            invariant
                i <= 256,
                base == page * 256,
                self@ == old(self)@.dma_state(page, i as nat),
                forall|k: int| 0 <= k < i ==> buffer@[k] == old(self)@.dma_byte(page, k as nat),
            decreases 256 - i,
        {
            let byte: u8 = self.mem_read(base + i);
            buffer[i as usize] = byte;
            i = i + 1;
        }
        assert(buffer@ =~= Seq::new(256, |k: int| old(self)@.dma_byte(page, k as nat)));
        self.ppu.write_oam_dma(&buffer);
        self.tick(OAM_DMA_CYCLES);
    }
}

impl Mem for Bus {
    type Model = BusState;

    open spec fn model(&self) -> BusState {
        self@
    }

    open spec fn read_value(m: BusState, addr: u16) -> u8 {
        m.read_value(addr)
    }

    open spec fn after_read(m: BusState, addr: u16) -> BusState {
        m.after_read(addr)
    }

    open spec fn after_write(m: BusState, addr: u16, data: u8) -> BusState {
        m.after_write(addr, data)
    }

    fn mem_read(&mut self, addr: u16) -> (data: u8) {
        proof {
            reveal(BusState::read_value);
            reveal(BusState::after_read);
            lemma_word_masks(addr);
        }
        if addr < RAM_END {
            let mirror: u16 = addr & 0x07FF;
            self.cpu_vram[mirror as usize]
        } else if addr < PPU_REGISTERS_END {
            let reg: u16 = addr & 0x2007;
            self.ppu.read_register(reg, &self.rom)
        } else if addr == JOYPAD_1 {
            self.joypad1.read()
        } else if addr == JOYPAD_2 {
            self.joypad2.read()
        } else if addr >= PRG_START {
            self.rom.read_prg(addr)
        } else {
            0
        }
    }

    fn mem_write(&mut self, addr: u16, data: u8) {
        proof {
            reveal(BusState::after_write);
            lemma_word_masks(addr);
        }
        if addr < RAM_END {
            let mirror: u16 = addr & 0x07FF;
            self.cpu_vram[mirror as usize] = data;
        } else if addr < PPU_REGISTERS_END {
            let reg: u16 = addr & 0x2007;
            self.ppu.write_register(reg, data, &mut self.rom);
        } else if addr == OAM_DMA {
            self.oam_dma(data);
        } else if addr == JOYPAD_1 {
            self.joypad1.write(data);
            self.joypad2.write(data);
        }
    }
}

} // verus!
