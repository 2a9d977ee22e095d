//! The processor and everything behind its bus as plain values, and what
//! each instruction does to them.
use vstd::prelude::*;
use crate::alu::{
    adc_carry, adc_overflow, adc_value, addr_add, branch_target, complement, dec_value,
    diff_value, high_byte, inc_value, low_bit, low_byte, rol_value, ror_value, shl_value,
    shr_value, sixth_bit, top_bit, word, zp_add,
};
use crate::bus::BusState;
use crate::cpu::{AddressingMode, Status};
use crate::flags::{CpuFlags, Flag};
use crate::opcodes::opcode_table;

verus! {

/// The page that holds the stack.
pub const STACK: u16 = 0x0100;

/// The stack pointer after a reset.
pub const STACK_RESET: u8 = 0xfd;

/// The status register after a reset: interrupts disabled, bit 5 set.
pub const STATUS_RESET: u8 = 0b0010_0100;

/// Where the address of the interrupt routine is kept.
pub const NMI_VECTOR: u16 = 0xFFFA;

/// Where the address of the program's entry point is kept.
pub const RESET_VECTOR: u16 = 0xFFFC;

/// The processor cycles charged for entering the interrupt routine.
pub const NMI_CYCLES: u16 = 2;

/// The steps after which `run` gives up.
pub const RUN_LIMIT: u64 = 0xFFFF_FFFF_FFFF_FFFF;

/// Where `load` puts a program.
pub const LOAD_BASE: u16 = 0x0600;

/// The registers of the processor, and the machine behind its bus.
pub struct CpuState {
    pub a: u8,
    pub x: u8,
    pub y: u8,
    pub p: CpuFlags,
    pub sp: u8,
    pub pc: u16,
    pub bus: BusState,
}

impl CpuState {
    /// The memories behind the bus have their sizes.
    pub open spec fn wf(self) -> bool {
        self.bus.wf()
    }

    /// The processor as it is built, before any reset.
    pub open spec fn power_on(bus: BusState) -> CpuState {
        CpuState {
            a: 0,
            x: 0,
            y: 0,
            p: CpuFlags { bits: STATUS_RESET },
            sp: STACK_RESET,
            pc: 0,
            bus,
        }
    }

    // ----- memory -----
    pub open spec fn read(self, addr: u16) -> u8 {
        self.bus.read_value(addr)
    }

    pub open spec fn after_read(self, addr: u16) -> CpuState {
        CpuState { bus: self.bus.after_read(addr), ..self }
    }

    pub open spec fn after_write(self, addr: u16, data: u8) -> CpuState {
        CpuState { bus: self.bus.after_write(addr, data), ..self }
    }

    /// The word at `addr`, low byte first, and the state after both reads.
    pub open spec fn read_u16(self, addr: u16) -> (u16, CpuState) {
        let mid = self.after_read(addr);
        let next = addr_add(addr, 1);
        (word(self.read(addr), mid.read(next)), mid.after_read(next))
    }

    /// The word whose low byte is at `addr` and whose high byte is at the
    /// next address of the zero page, and the state after both reads.
    pub open spec fn read_zero_page_u16(self, addr: u8) -> (u16, CpuState) {
        let mid = self.after_read(addr as u16);
        let next = zp_add(addr, 1) as u16;
        (word(self.read(addr as u16), mid.read(next)), mid.after_read(next))
    }

    // ----- stack -----
    /// The address the stack pointer `sp` stands for.
    pub open spec fn stack_addr(sp: u8) -> u16 {
        (STACK + sp) as u16
    }

    /// `data` is stored where the stack pointer points, and the pointer
    /// moves down.
    pub open spec fn push(self, data: u8) -> CpuState {
        CpuState { sp: dec_value(self.sp), ..self.after_write(Self::stack_addr(self.sp), data) }
    }

    /// The stack pointer moves up, and the byte it then points at is read.
    pub open spec fn pop(self) -> (u8, CpuState) {
        let sp = inc_value(self.sp);
        (self.read(Self::stack_addr(sp)), CpuState { sp, ..self.after_read(Self::stack_addr(sp)) })
    }

    /// The high byte is pushed first.
    pub open spec fn push_u16(self, data: u16) -> CpuState {
        self.push(high_byte(data)).push(low_byte(data))
    }

    /// The low byte is popped first.
    pub open spec fn pop_u16(self) -> (u16, CpuState) {
        let (lo, s1) = self.pop();
        let (hi, s2) = s1.pop();
        (word(lo, hi), s2)
    }

    // ----- flags and registers -----
    pub open spec fn with_flag(self, flag: Flag, on: bool) -> CpuState {
        CpuState { p: self.p.with(flag, on), ..self }
    }

    pub open spec fn with_pc(self, pc: u16) -> CpuState {
        CpuState { pc, ..self }
    }

    /// Zero is set iff `result` is 0, Negative iff its bit 7 is set.
    pub open spec fn with_zn(self, result: u8) -> CpuState {
        self.with_flag(Flag::Zero, result == 0).with_flag(Flag::Negative, top_bit(result))
    }

    pub open spec fn with_a(self, value: u8) -> CpuState {
        (CpuState { a: value, ..self }).with_zn(value)
    }

    pub open spec fn with_x(self, value: u8) -> CpuState {
        (CpuState { x: value, ..self }).with_zn(value)
    }

    pub open spec fn with_y(self, value: u8) -> CpuState {
        (CpuState { y: value, ..self }).with_zn(value)
    }

    // ----- operands -----
    /// The address of the operand, with the program counter at the byte
    /// after the opcode, and the state after the reads that finding it
    /// took. `NoneAddressing` has no operand address.
    #[verifier::opaque]
    pub open spec fn resolve(self, mode: AddressingMode) -> (u16, CpuState) {
        match mode {
            AddressingMode::Immediate => (self.pc, self),
            AddressingMode::ZeroPage => (self.read(self.pc) as u16, self.after_read(self.pc)),
            AddressingMode::ZeroPage_X => (
                zp_add(self.read(self.pc), self.x as int) as u16,
                self.after_read(self.pc),
            ),
            AddressingMode::ZeroPage_Y => (
                zp_add(self.read(self.pc), self.y as int) as u16,
                self.after_read(self.pc),
            ),
            AddressingMode::Absolute => self.read_u16(self.pc),
            AddressingMode::Absolute_X => {
                let (base, s) = self.read_u16(self.pc);
                (addr_add(base, self.x as int), s)
            },
            AddressingMode::Absolute_Y => {
                let (base, s) = self.read_u16(self.pc);
                (addr_add(base, self.y as int), s)
            },
            AddressingMode::Indirect_X => {
                let ptr = zp_add(self.read(self.pc), self.x as int);
                self.after_read(self.pc).read_zero_page_u16(ptr)
            },
            AddressingMode::Indirect_Y => {
                let (base, s) = self.after_read(self.pc).read_zero_page_u16(self.read(self.pc));
                (addr_add(base, self.y as int), s)
            },
            AddressingMode::NoneAddressing => (0, self),
        }
    }

    /// The address of the operand of an instruction whose operand bytes
    /// start at `at`, as found by looking at memory without reading it.
    pub open spec fn operand_address_at(self, mode: AddressingMode, at: u16) -> u16 {
        match mode {
            AddressingMode::Immediate => at,
            AddressingMode::ZeroPage => self.read(at) as u16,
            AddressingMode::ZeroPage_X => zp_add(self.read(at), self.x as int) as u16,
            AddressingMode::ZeroPage_Y => zp_add(self.read(at), self.y as int) as u16,
            AddressingMode::Absolute => self.peek_u16(at),
            AddressingMode::Absolute_X => addr_add(self.peek_u16(at), self.x as int),
            AddressingMode::Absolute_Y => addr_add(self.peek_u16(at), self.y as int),
            AddressingMode::Indirect_X => self.peek_zero_page_u16(
                zp_add(self.read(at), self.x as int),
            ),
            AddressingMode::Indirect_Y => addr_add(
                self.peek_zero_page_u16(self.read(at)),
                self.y as int,
            ),
            AddressingMode::NoneAddressing => 0,
        }
    }

    /// The word at `addr`, low byte first, as memory shows it without
    /// being read.
    pub open spec fn peek_u16(self, addr: u16) -> u16 {
        word(self.read(addr), self.read(addr_add(addr, 1)))
    }

    /// The word whose low byte is at `addr` and whose high byte is at the
    /// next address of the zero page, as memory shows it without being
    /// read.
    pub open spec fn peek_zero_page_u16(self, addr: u8) -> u16 {
        word(self.read(addr as u16), self.read(zp_add(addr, 1) as u16))
    }

    /// Where the indirect jump whose pointer is at `at` leads, as memory
    /// shows it without being read.
    pub open spec fn jmp_indirect_target_at(self, at: u16) -> u16 {
        let ptr = self.peek_u16(at);
        if ptr % 256 == 255 {
            word(self.read(ptr), self.read(((ptr / 256) * 256) as u16))
        } else {
            self.peek_u16(ptr)
        }
    }

    /// The operand, and the state after it was read.
    pub open spec fn operand(self, mode: AddressingMode) -> (u8, CpuState) {
        let (addr, s) = self.resolve(mode);
        (s.read(addr), s.after_read(addr))
    }

    // ----- loads, stores, transfers -----
    #[verifier::opaque]
    pub open spec fn lda(self, mode: AddressingMode) -> CpuState {
        let (value, s) = self.operand(mode);
        s.with_a(value)
    }

    #[verifier::opaque]
    pub open spec fn ldx(self, mode: AddressingMode) -> CpuState {
        let (value, s) = self.operand(mode);
        s.with_x(value)
    }

    #[verifier::opaque]
    pub open spec fn ldy(self, mode: AddressingMode) -> CpuState {
        let (value, s) = self.operand(mode);
        s.with_y(value)
    }

    #[verifier::opaque]
    pub open spec fn sta(self, mode: AddressingMode) -> CpuState {
        let (addr, s) = self.resolve(mode);
        s.after_write(addr, self.a)
    }

    #[verifier::opaque]
    pub open spec fn stx(self, mode: AddressingMode) -> CpuState {
        let (addr, s) = self.resolve(mode);
        s.after_write(addr, self.x)
    }

    #[verifier::opaque]
    pub open spec fn sty(self, mode: AddressingMode) -> CpuState {
        let (addr, s) = self.resolve(mode);
        s.after_write(addr, self.y)
    }

    #[verifier::opaque]
    pub open spec fn tax(self) -> CpuState {
        self.with_x(self.a)
    }

    #[verifier::opaque]
    pub open spec fn tay(self) -> CpuState {
        self.with_y(self.a)
    }

    #[verifier::opaque]
    pub open spec fn txa(self) -> CpuState {
        self.with_a(self.x)
    }

    #[verifier::opaque]
    pub open spec fn tya(self) -> CpuState {
        self.with_a(self.y)
    }

    #[verifier::opaque]
    pub open spec fn tsx(self) -> CpuState {
        self.with_x(self.sp)
    }

    /// The one transfer that leaves the flags alone.
    #[verifier::opaque]
    pub open spec fn txs(self) -> CpuState {
        CpuState { sp: self.x, ..self }
    }

    // ----- stack instructions -----
    #[verifier::opaque]
    pub open spec fn pha(self) -> CpuState {
        self.push(self.a)
    }

    /// The pushed byte has Break and bit 5 set; the register keeps its
    /// value.
    #[verifier::opaque]
    pub open spec fn php(self) -> CpuState {
        self.push(self.p.with(Flag::Break, true).with(Flag::Break2, true).bits)
    }

    #[verifier::opaque]
    pub open spec fn pla(self) -> CpuState {
        let (value, s) = self.pop();
        s.with_a(value)
    }

    /// The popped byte becomes the status, with Break and bit 5 cleared.
    #[verifier::opaque]
    pub open spec fn plp(self) -> CpuState {
        let (value, s) = self.pop();
        CpuState {
            p: (CpuFlags { bits: value }).with(Flag::Break, false).with(Flag::Break2, false),
            ..s
        }
    }

    // ----- arithmetic and logic -----
    /// The accumulator takes `a + data + carry`; Carry is the carry out,
    /// Overflow tells whether the signed sum left the range of a byte.
    #[verifier::opaque]
    pub open spec fn add_to_a(self, data: u8) -> CpuState {
        let carry = self.p.has(Flag::Carry);
        self.with_flag(Flag::Carry, adc_carry(self.a, data, carry)).with_flag(
            Flag::Overflow,
            adc_overflow(self.a, data, carry),
        ).with_a(adc_value(self.a, data, carry))
    }

    #[verifier::opaque]
    pub open spec fn adc(self, mode: AddressingMode) -> CpuState {
        let (value, s) = self.operand(mode);
        s.add_to_a(value)
    }

    /// Subtraction is addition of the one's complement.
    #[verifier::opaque]
    pub open spec fn sbc(self, mode: AddressingMode) -> CpuState {
        let (value, s) = self.operand(mode);
        s.add_to_a(complement(value))
    }

    #[verifier::opaque]
    pub open spec fn and(self, mode: AddressingMode) -> CpuState {
        let (value, s) = self.operand(mode);
        s.with_a(value & self.a)
    }

    #[verifier::opaque]
    pub open spec fn eor(self, mode: AddressingMode) -> CpuState {
        let (value, s) = self.operand(mode);
        s.with_a(self.a ^ value)
    }

    #[verifier::opaque]
    pub open spec fn ora(self, mode: AddressingMode) -> CpuState {
        let (value, s) = self.operand(mode);
        s.with_a(value | self.a)
    }

    /// Carry tells whether the register is at least the operand; Zero and
    /// Negative describe their difference modulo 256.
    #[verifier::opaque]
    pub open spec fn compare(self, mode: AddressingMode, register: u8) -> CpuState {
        let (value, s) = self.operand(mode);
        s.with_flag(Flag::Carry, register >= value).with_zn(diff_value(register, value))
    }

    /// Zero tells whether accumulator and operand share no bit; Negative
    /// and Overflow are bits 7 and 6 of the operand.
    #[verifier::opaque]
    pub open spec fn bit(self, mode: AddressingMode) -> CpuState {
        let (value, s) = self.operand(mode);
        s.with_flag(Flag::Zero, self.a & value == 0).with_flag(
            Flag::Negative,
            top_bit(value),
        ).with_flag(Flag::Overflow, sixth_bit(value))
    }

    // ----- shifts and rotations -----
    #[verifier::opaque]
    pub open spec fn asl_a(self) -> CpuState {
        self.with_flag(Flag::Carry, top_bit(self.a)).with_a(shl_value(self.a))
    }

    #[verifier::opaque]
    pub open spec fn lsr_a(self) -> CpuState {
        self.with_flag(Flag::Carry, low_bit(self.a)).with_a(shr_value(self.a))
    }

    #[verifier::opaque]
    pub open spec fn rol_a(self) -> CpuState {
        self.with_flag(Flag::Carry, top_bit(self.a)).with_a(
            rol_value(self.a, self.p.has(Flag::Carry)),
        )
    }

    #[verifier::opaque]
    pub open spec fn ror_a(self) -> CpuState {
        self.with_flag(Flag::Carry, low_bit(self.a)).with_a(
            ror_value(self.a, self.p.has(Flag::Carry)),
        )
    }

    /// The byte at the operand address is read, replaced by `result`, and
    /// Carry, Zero and Negative are set for it.
    pub open spec fn modify(self, mode: AddressingMode, result: spec_fn(u8) -> u8, carry: spec_fn(u8) -> bool) -> CpuState {
        let (addr, s) = self.resolve(mode);
        let value = s.read(addr);
        s.after_read(addr).after_write(addr, result(value)).with_flag(
            Flag::Carry,
            carry(value),
        ).with_zn(result(value))
    }

    #[verifier::opaque]
    pub open spec fn asl(self, mode: AddressingMode) -> CpuState {
        self.modify(mode, |v: u8| shl_value(v), |v: u8| top_bit(v))
    }

    #[verifier::opaque]
    pub open spec fn lsr(self, mode: AddressingMode) -> CpuState {
        self.modify(mode, |v: u8| shr_value(v), |v: u8| low_bit(v))
    }

    #[verifier::opaque]
    pub open spec fn rol(self, mode: AddressingMode) -> CpuState {
        let carry = self.p.has(Flag::Carry);
        self.modify(mode, |v: u8| rol_value(v, carry), |v: u8| top_bit(v))
    }

    #[verifier::opaque]
    pub open spec fn ror(self, mode: AddressingMode) -> CpuState {
        let carry = self.p.has(Flag::Carry);
        self.modify(mode, |v: u8| ror_value(v, carry), |v: u8| low_bit(v))
    }

    // ----- increments and decrements -----
    /// The byte at the operand address is read, replaced by `result`, and
    /// Zero and Negative are set for it.
    pub open spec fn step_memory(self, mode: AddressingMode, result: spec_fn(u8) -> u8) -> CpuState {
        let (addr, s) = self.resolve(mode);
        let value = s.read(addr);
        s.after_read(addr).after_write(addr, result(value)).with_zn(result(value))
    }

    #[verifier::opaque]
    pub open spec fn inc(self, mode: AddressingMode) -> CpuState {
        self.step_memory(mode, |v: u8| inc_value(v))
    }

    #[verifier::opaque]
    pub open spec fn dec(self, mode: AddressingMode) -> CpuState {
        self.step_memory(mode, |v: u8| dec_value(v))
    }

    #[verifier::opaque]
    pub open spec fn inx(self) -> CpuState {
        self.with_x(inc_value(self.x))
    }

    #[verifier::opaque]
    pub open spec fn iny(self) -> CpuState {
        self.with_y(inc_value(self.y))
    }

    #[verifier::opaque]
    pub open spec fn dex(self) -> CpuState {
        self.with_x(dec_value(self.x))
    }

    #[verifier::opaque]
    pub open spec fn dey(self) -> CpuState {
        self.with_y(dec_value(self.y))
    }

    // ----- control flow -----
    /// A branch that is taken reads its displacement and jumps; one that
    /// is not touches nothing.
    #[verifier::opaque]
    pub open spec fn branch(self, condition: bool) -> CpuState {
        if condition {
            self.after_read(self.pc).with_pc(branch_target(self.pc, self.read(self.pc)))
        } else {
            self
        }
    }

    #[verifier::opaque]
    pub open spec fn jmp_absolute(self) -> CpuState {
        let (target, s) = self.read_u16(self.pc);
        s.with_pc(target)
    }

    /// The target of an indirect jump is the word at the pointer that
    /// follows the opcode. Where the pointer is the last byte of a page,
    /// the high byte comes from the first byte of the same page.
    #[verifier::opaque]
    pub open spec fn jmp_indirect(self) -> CpuState {
        let (ptr, s) = self.read_u16(self.pc);
        if ptr % 256 == 255 {
            let wrapped = ((ptr / 256) * 256) as u16;
            let mid = s.after_read(ptr);
            mid.after_read(wrapped).with_pc(word(s.read(ptr), mid.read(wrapped)))
        } else {
            let (target, t) = s.read_u16(ptr);
            t.with_pc(target)
        }
    }

    /// The address of the call's last byte is pushed, then the target is
    /// read.
    #[verifier::opaque]
    pub open spec fn jsr(self) -> CpuState {
        let pushed = self.push_u16(addr_add(self.pc, 1));
        let (target, s) = pushed.read_u16(pushed.pc);
        s.with_pc(target)
    }

    #[verifier::opaque]
    pub open spec fn rts(self) -> CpuState {
        let (addr, s) = self.pop_u16();
        s.with_pc(addr_add(addr, 1))
    }

    /// The status is popped, with Break cleared and bit 5 set, then the
    /// program counter.
    #[verifier::opaque]
    pub open spec fn rti(self) -> CpuState {
        let (value, s) = self.pop();
        let (addr, t) = s.pop_u16();
        CpuState {
            p: (CpuFlags { bits: value }).with(Flag::Break, false).with(Flag::Break2, true),
            pc: addr,
            ..t
        }
    }

    /// What the instruction with opcode `code` and addressing mode `mode`
    /// does, with the program counter at the byte after the opcode. An
    /// instruction that does not jump leaves the program counter there.
    /// Loads, stores, transfers and stack instructions are listed here, the
    /// others further down.
    pub open spec fn execute(self, code: u8, mode: AddressingMode) -> CpuState {
        match code {
            0xa9 | 0xa5 | 0xb5 | 0xad | 0xbd | 0xb9 | 0xa1 | 0xb1 => self.lda(mode),
            0x48 => self.pha(),
            0x68 => self.pla(),
            0x08 => self.php(),
            0x28 => self.plp(),
            0x85 | 0x95 | 0x8d | 0x9d | 0x99 | 0x81 | 0x91 => self.sta(mode),
            0x86 | 0x96 | 0x8e => self.stx(mode),
            0x84 | 0x94 | 0x8c => self.sty(mode),
            0xa2 | 0xa6 | 0xb6 | 0xae | 0xbe => self.ldx(mode),
            0xa0 | 0xa4 | 0xb4 | 0xac | 0xbc => self.ldy(mode),
            0xaa => self.tax(),
            0xa8 => self.tay(),
            0xba => self.tsx(),
            0x8a => self.txa(),
            0x9a => self.txs(),
            0x98 => self.tya(),
            _ => self.execute_arithmetic(code, mode),
        }
    }

    /// Arithmetic, logic, shifts, increments and comparisons.
    #[verifier::opaque]
    pub open spec fn execute_arithmetic(self, code: u8, mode: AddressingMode) -> CpuState {
        match code {
            0x69 | 0x65 | 0x75 | 0x6d | 0x7d | 0x79 | 0x61 | 0x71 => self.adc(mode),
            0xe9 | 0xe5 | 0xf5 | 0xed | 0xfd | 0xf9 | 0xe1 | 0xf1 => self.sbc(mode),
            0x29 | 0x25 | 0x35 | 0x2d | 0x3d | 0x39 | 0x21 | 0x31 => self.and(mode),
            0x49 | 0x45 | 0x55 | 0x4d | 0x5d | 0x59 | 0x41 | 0x51 => self.eor(mode),
            0x09 | 0x05 | 0x15 | 0x0d | 0x1d | 0x19 | 0x01 | 0x11 => self.ora(mode),
            0x4a => self.lsr_a(),
            0x46 | 0x56 | 0x4e | 0x5e => self.lsr(mode),
            0x0a => self.asl_a(),
            0x06 | 0x16 | 0x0e | 0x1e => self.asl(mode),
            0x2a => self.rol_a(),
            0x26 | 0x36 | 0x2e | 0x3e => self.rol(mode),
            0x6a => self.ror_a(),
            0x66 | 0x76 | 0x6e | 0x7e => self.ror(mode),
            0xe6 | 0xf6 | 0xee | 0xfe => self.inc(mode),
            0xe8 => self.inx(),
            0xc8 => self.iny(),
            0xc6 | 0xd6 | 0xce | 0xde => self.dec(mode),
            0xca => self.dex(),
            0x88 => self.dey(),
            0xc9 | 0xc5 | 0xd5 | 0xcd | 0xdd | 0xd9 | 0xc1 | 0xd1 => self.compare(mode, self.a),
            0xc0 | 0xc4 | 0xcc => self.compare(mode, self.y),
            0xe0 | 0xe4 | 0xec => self.compare(mode, self.x),
            0x24 | 0x2c => self.bit(mode),
            _ => self.execute_control(code, mode),
        }
    }

    /// Flag instructions, jumps, calls, returns and branches. BRK and NOP
    /// change nothing, and neither does a byte that names no instruction.
    #[verifier::opaque]
    pub open spec fn execute_control(self, code: u8, mode: AddressingMode) -> CpuState {
        match code {
            0x00 => self,
            0xd8 => self.with_flag(Flag::Decimal, false),
            0x58 => self.with_flag(Flag::InterruptDisable, false),
            0xb8 => self.with_flag(Flag::Overflow, false),
            0x18 => self.with_flag(Flag::Carry, false),
            0x38 => self.with_flag(Flag::Carry, true),
            0x78 => self.with_flag(Flag::InterruptDisable, true),
            0xf8 => self.with_flag(Flag::Decimal, true),
            0x4c => self.jmp_absolute(),
            0x6c => self.jmp_indirect(),
            0x20 => self.jsr(),
            0x60 => self.rts(),
            0x40 => self.rti(),
            0xd0 => self.branch(!self.p.has(Flag::Zero)),
            0x70 => self.branch(self.p.has(Flag::Overflow)),
            0x50 => self.branch(!self.p.has(Flag::Overflow)),
            0x10 => self.branch(!self.p.has(Flag::Negative)),
            0x30 => self.branch(self.p.has(Flag::Negative)),
            0xf0 => self.branch(self.p.has(Flag::Zero)),
            0xb0 => self.branch(self.p.has(Flag::Carry)),
            0x90 => self.branch(!self.p.has(Flag::Carry)),
            0xea => self,
            _ => self,
        }
    }

    // ----- the loop -----
    /// Entering the interrupt routine: the program counter and the status,
    /// with Break cleared and bit 5 set, go on the stack, interrupts are
    /// disabled, the routine's address is read from its vector, and two
    /// cycles go by.
    #[verifier::opaque]
    pub open spec fn interrupt_nmi(self) -> CpuState {
        let pushed = self.push_u16(self.pc).push(
            self.p.with(Flag::Break, false).with(Flag::Break2, true).bits,
        ).with_flag(Flag::InterruptDisable, true);
        let (target, s) = pushed.read_u16(NMI_VECTOR);
        CpuState { pc: target, bus: s.bus.tick(NMI_CYCLES), ..s }
    }

    /// The state in which the next opcode is fetched: a pending interrupt
    /// is taken first.
    pub open spec fn before_fetch(self) -> CpuState {
        if self.bus.ppu.nmi_pending {
            (CpuState { bus: self.bus.after_nmi_poll(), ..self }).interrupt_nmi()
        } else {
            self
        }
    }

    /// The opcode byte that the next step fetches.
    pub open spec fn next_opcode(self) -> u8 {
        let s = self.before_fetch();
        s.read(s.pc)
    }

    /// One turn of the loop: a pending interrupt is taken, the opcode is
    /// fetched and the program counter moves past it, the instruction is
    /// carried out, the program counter moves past the operand unless the
    /// instruction changed it, and the instruction's cycles go by. A byte
    /// that is no instruction stops the turn after the fetch.
    pub open spec fn step(self) -> CpuState {
        let s = self.before_fetch();
        let fetched = s.after_read(s.pc).with_pc(addr_add(s.pc, 1));
        match opcode_table(self.next_opcode()) {
            None => fetched,
            Some(op) => {
                let done = fetched.execute(op.code, op.mode);
                let next = if done.pc == fetched.pc {
                    done.with_pc(addr_add(done.pc, op.len - 1))
                } else {
                    done
                };
                CpuState { bus: next.bus.tick(op.cycles as u16), ..next }
            },
        }
    }

    /// How the next step ends: with a fault on a byte that is no
    /// instruction, halted after BRK, else running.
    pub open spec fn step_status(self) -> Status {
        let code = self.next_opcode();
        if opcode_table(code) is None {
            Status::Fault { code, pc: self.before_fetch().pc }
        } else if code == 0x00 {
            Status::Halted
        } else {
            Status::Running
        }
    }

    /// Steps until one ends halted or with a fault, `budget` steps at
    /// most: the state then reached, and how the last step ended.
    pub open spec fn run(self, budget: nat) -> (CpuState, Status)
        decreases budget,
    {
        if budget == 0 {
            (self, Status::Running)
        } else if self.step_status() == Status::Running {
            self.step().run((budget - 1) as nat)
        } else {
            (self.step(), self.step_status())
        }
    }

    /// The state after a reset: registers cleared, and the program counter
    /// read from the reset vector.
    pub open spec fn reset(self) -> CpuState {
        let (entry, s) = self.read_u16(RESET_VECTOR);
        CpuState {
            a: 0,
            x: 0,
            y: 0,
            sp: STACK_RESET,
            p: CpuFlags { bits: STATUS_RESET },
            pc: entry,
            ..s
        }
    }

    /// The state after the first `n` bytes of `program` were written, one
    /// after another, from `LOAD_BASE` on.
    pub open spec fn load(self, program: Seq<u8>, n: nat) -> CpuState
        decreases n,
    {
        if n == 0 {
            self
        } else {
            self.load(program, (n - 1) as nat).after_write(
                (LOAD_BASE + (n - 1)) as u16,
                program[n - 1],
            )
        }
    }

    /// The state in which a loaded program starts: the program counter is
    /// read from the reset vector.
    pub open spec fn start(self) -> CpuState {
        let (entry, s) = self.read_u16(RESET_VECTOR);
        s.with_pc(entry)
    }
}

} // verus!
