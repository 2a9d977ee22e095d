//! The 6502 interpreter.
use vstd::prelude::*;
use crate::alu::{
    addr_add, dec_value, high_byte, inc_value, lemma_bit_tests, lemma_overflow_bits,
    lemma_shift_left, lemma_shift_right, lemma_word_join, lemma_word_masks, lemma_wrapping_u16,
    lemma_wrapping_u8, low_byte, rol_value, ror_value, shl_value, shr_value, word,
};
use crate::bus::Bus;
use crate::flags::{CpuFlags, Flag};
use crate::model::{
    CpuState, LOAD_BASE, NMI_CYCLES, NMI_VECTOR, RESET_VECTOR, RUN_LIMIT, STACK, STACK_RESET,
    STATUS_RESET,
};
use crate::opcodes::{lemma_operand_modes, lemma_table_shape, lookup, opcode_table, OpCode};

verus! {

/// How an instruction finds its operand.
#[derive(Clone, Copy, Debug, PartialEq, Eq, Structural)]
#[allow(non_camel_case_types)]
pub enum AddressingMode {
    Immediate,
    ZeroPage,
    ZeroPage_X,
    ZeroPage_Y,
    Absolute,
    Absolute_X,
    Absolute_Y,
    Indirect_X,
    Indirect_Y,
    NoneAddressing,
}

/// Byte-addressed memory with a 16-bit address space. A read may change
/// the memory, as a read of a device register does, so reads take the
/// memory mutably and words are read and written a byte at a time, low
/// byte first.
pub trait Mem {
    /// The memory as plain values.
    type Model;

    spec fn model(&self) -> Self::Model;

    /// What a read at `addr` returns.
    spec fn read_value(m: Self::Model, addr: u16) -> u8;

    /// The memory after a read at `addr`.
    spec fn after_read(m: Self::Model, addr: u16) -> Self::Model;

    /// The memory after a write of `data` at `addr`.
    spec fn after_write(m: Self::Model, addr: u16, data: u8) -> Self::Model;

    fn mem_read(&mut self, addr: u16) -> (data: u8)
        ensures
            data == Self::read_value(old(self).model(), addr),
            final(self).model() == Self::after_read(old(self).model(), addr),
    ;

    fn mem_write(&mut self, addr: u16, data: u8)
        ensures
            final(self).model() == Self::after_write(old(self).model(), addr, data),
    ;

    /// Reads the word at `pos`: the low byte at `pos`, then the high byte
    /// at the next address, which wraps round at the top of memory.
    fn mem_read_u16(&mut self, pos: u16) -> (data: u16)
        ensures
            ({
                let m = old(self).model();
                let mid = Self::after_read(m, pos);
                let next = addr_add(pos, 1);
                &&& data == word(Self::read_value(m, pos), Self::read_value(mid, next))
                &&& final(self).model() == Self::after_read(mid, next)
            }),
    {
        let lo: u8 = self.mem_read(pos);
        let hi: u8 = self.mem_read(pos.wrapping_add(1));
        proof {
            lemma_word_join(lo, hi);
        }
        ((hi as u16) << 8) | (lo as u16)
    }

    /// Writes the word `data` at `pos`: the low byte at `pos`, then the
    /// high byte at the next address, which wraps round at the top of
    /// memory.
    fn mem_write_u16(&mut self, pos: u16, data: u16)
        ensures
            final(self).model() == Self::after_write(
                Self::after_write(old(self).model(), pos, low_byte(data)),
                addr_add(pos, 1),
                high_byte(data),
            ),
    {
        proof {
            lemma_word_masks(data);
        }
        let hi: u8 = (data >> 8) as u8;
        let lo: u8 = (data & 0xff) as u8;
        self.mem_write(pos, lo);
        self.mem_write(pos.wrapping_add(1), hi);
    }
}

/// How a step of the processor ended.
#[derive(Clone, Copy, Debug, PartialEq, Eq, Structural)]
pub enum Status {
    /// An instruction was carried out, and the next one can follow.
    Running,
    /// The instruction was BRK, which ends the program.
    Halted,
    /// The byte `code`, fetched at `pc`, is no instruction.
    Fault { code: u8, pc: u16 },
}

/// The processor, with the bus it drives.
pub struct CPU {
    pub register_a: u8,
    pub register_x: u8,
    pub register_p: CpuFlags,
    pub register_y: u8,
    pub program_counter: u16,
    pub stack_pointer: u8,
    pub bus: Bus,
}

impl View for CPU {
    type V = CpuState;

    open spec fn view(&self) -> CpuState {
        CpuState {
            a: self.register_a,
            x: self.register_x,
            y: self.register_y,
            p: self.register_p,
            sp: self.stack_pointer,
            pc: self.program_counter,
            bus: self.bus@,
        }
    }
}

/// Looks an opcode byte up in the instruction table.
pub fn find_opcode(byte: u8) -> (found: Option<OpCode>)
    ensures
        found == opcode_table(byte),
{
    lookup(byte)
}

impl Mem for CPU {
    type Model = CpuState;

    open spec fn model(&self) -> CpuState {
        self@
    }

    open spec fn read_value(m: CpuState, addr: u16) -> u8 {
        m.read(addr)
    }

    open spec fn after_read(m: CpuState, addr: u16) -> CpuState {
        m.after_read(addr)
    }

    open spec fn after_write(m: CpuState, addr: u16, data: u8) -> CpuState {
        m.after_write(addr, data)
    }

    fn mem_read(&mut self, addr: u16) -> (data: u8) {
        self.bus.mem_read(addr)
    }

    fn mem_write(&mut self, addr: u16, data: u8) {
        self.bus.mem_write(addr, data)
    }

    fn mem_read_u16(&mut self, addr: u16) -> (data: u16) {
        self.bus.mem_read_u16(addr)
    }

    fn mem_write_u16(&mut self, addr: u16, data: u16) {
        self.bus.mem_write_u16(addr, data)
    }
}

impl CPU {
    /// The view of a processor is well formed.
    pub proof fn lemma_view_wf(&self)
        ensures
            self@.wf(),
    {
        self.bus.lemma_view_wf();
    }

    /// The processor as it is built, on `bus`.
    pub fn new(bus: Bus) -> (cpu: CPU)
        ensures
            cpu@ == CpuState::power_on(bus@),
    {
        CPU {
            register_a: 0,
            register_x: 0,
            register_p: CpuFlags::from_bits_truncate(STATUS_RESET),
            register_y: 0,
            stack_pointer: STACK_RESET,
            program_counter: 0,
            bus: bus,
        }
    }

    /// What a read at `addr` would return, without reading.
    pub fn peek(&self, addr: u16) -> (data: u8)
        ensures
            data == self@.read(addr),
    {
        self.bus.peek(addr)
    }

    /// The word at `addr` as memory shows it, without reading.
    pub fn peek_u16(&self, addr: u16) -> (data: u16)
        ensures
            data == self@.peek_u16(addr),
    {
        proof {
            lemma_wrapping_u16(addr, 1);
        }
        let lo: u8 = self.peek(addr);
        let hi: u8 = self.peek(addr.wrapping_add(1));
        proof {
            lemma_word_join(lo, hi);
        }
        (hi as u16) << 8 | (lo as u16)
    }

    /// The operand address of an instruction whose operand bytes start at
    /// `at`, found without reading.
    pub fn peek_operand_address(&self, mode: &AddressingMode, at: u16) -> (addr: u16)
        ensures
            addr == self@.operand_address_at(*mode, at),
    {
        match mode {
            AddressingMode::Immediate => at,
            AddressingMode::ZeroPage => self.peek(at) as u16,
            AddressingMode::Absolute => self.peek_u16(at),
            AddressingMode::ZeroPage_X => {
                let pos: u8 = self.peek(at);
                proof {
                    lemma_wrapping_u8(pos, self.register_x);
                }
                pos.wrapping_add(self.register_x) as u16
            },
            AddressingMode::ZeroPage_Y => {
                let pos: u8 = self.peek(at);
                proof {
                    lemma_wrapping_u8(pos, self.register_y);
                }
                pos.wrapping_add(self.register_y) as u16
            },
            AddressingMode::Absolute_X => {
                let base: u16 = self.peek_u16(at);
                proof {
                    lemma_wrapping_u16(base, self.register_x as u16);
                }
                base.wrapping_add(self.register_x as u16)
            },
            AddressingMode::Absolute_Y => {
                let base: u16 = self.peek_u16(at);
                proof {
                    lemma_wrapping_u16(base, self.register_y as u16);
                }
                base.wrapping_add(self.register_y as u16)
            },
            AddressingMode::Indirect_X => {
                let base: u8 = self.peek(at);
                let ptr: u8 = base.wrapping_add(self.register_x);
                let lo: u8 = self.peek(ptr as u16);
                let hi: u8 = self.peek(ptr.wrapping_add(1) as u16);
                proof {
                    lemma_wrapping_u8(base, self.register_x);
                    lemma_wrapping_u8(ptr, 1);
                    lemma_word_join(lo, hi);
                }
                (hi as u16) << 8 | (lo as u16)
            },
            AddressingMode::Indirect_Y => {
                let base: u8 = self.peek(at);
                let lo: u8 = self.peek(base as u16);
                let hi: u8 = self.peek(base.wrapping_add(1) as u16);
                let deref_base: u16 = (hi as u16) << 8 | (lo as u16);
                proof {
                    lemma_wrapping_u8(base, 1);
                    lemma_word_join(lo, hi);
                    lemma_wrapping_u16(deref_base, self.register_y as u16);
                }
                deref_base.wrapping_add(self.register_y as u16)
            },
            AddressingMode::NoneAddressing => 0,
        }
    }

    fn stack_pop(&mut self) -> (data: u8)
        ensures
            (data, final(self)@) == old(self)@.pop(),
    {
        self.stack_pointer = self.stack_pointer.wrapping_add(1);
        self.mem_read(STACK + self.stack_pointer as u16)
    }

    fn stack_push(&mut self, data: u8)
        ensures
            final(self)@ == old(self)@.push(data),
    {
        self.mem_write(STACK + self.stack_pointer as u16, data);
        self.stack_pointer = self.stack_pointer.wrapping_sub(1)
    }

    fn stack_push_u16(&mut self, data: u16)
        ensures
            final(self)@ == old(self)@.push_u16(data),
    {
        proof {
            lemma_word_masks(data);
        }
        let hi: u8 = (data >> 8) as u8;
        let lo: u8 = (data & 0xff) as u8;
        self.stack_push(hi);
        self.stack_push(lo);
    }

    fn stack_pop_u16(&mut self) -> (data: u16)
        ensures
            (data, final(self)@) == old(self)@.pop_u16(),
    {
        let lo: u8 = self.stack_pop();
        let hi: u8 = self.stack_pop();
        proof {
            lemma_word_join(lo, hi);
        }
        (hi as u16) << 8 | (lo as u16)
    }

    /// Clears the registers and reads the program counter from the reset
    /// vector.
    pub fn reset(&mut self)
        ensures
            final(self)@ == old(self)@.reset(),
    {
        self.register_a = 0;
        self.register_x = 0;
        self.register_y = 0;
        self.stack_pointer = STACK_RESET;
        self.register_p = CpuFlags::from_bits_truncate(STATUS_RESET);

        self.program_counter = self.mem_read_u16(RESET_VECTOR);
    }

    fn set_carry_flag(&mut self)
        ensures
            final(self)@ == old(self)@.with_flag(Flag::Carry, true),
    {
        self.register_p.insert(Flag::Carry)
    }

    fn clear_carry_flag(&mut self)
        ensures
            final(self)@ == old(self)@.with_flag(Flag::Carry, false),
    {
        self.register_p.remove(Flag::Carry)
    }

    fn update_zero_and_negative_flags(&mut self, result: u8)
        ensures
            final(self)@ == old(self)@.with_zn(result),
    {
        if result == 0 {
            self.register_p.insert(Flag::Zero);
        } else {
            self.register_p.remove(Flag::Zero);
        }

        proof {
            lemma_bit_tests(result);
        }
        if result & 0b1000_0000 != 0 {
            self.register_p.insert(Flag::Negative);
        } else {
            self.register_p.remove(Flag::Negative);
        }
    }

    fn set_register_a(&mut self, val: u8)
        ensures
            final(self)@ == old(self)@.with_a(val),
    {
        self.register_a = val;
        self.update_zero_and_negative_flags(self.register_a);
    }

    fn add_to_register_a(&mut self, data: u8)
        ensures
            final(self)@ == old(self)@.add_to_a(data),
    {
        reveal(CpuState::add_to_a);
        let carry_in: u16 = if self.register_p.contains(Flag::Carry) {
            1
        } else {
            0
        };
        let sum: u16 = self.register_a as u16 + data as u16 + carry_in;

        let carry: bool = sum > 0xff;
        if carry {
            self.set_carry_flag();
        } else {
            self.clear_carry_flag();
        }

        let result: u8 = (sum % 256) as u8;

        proof {
            lemma_overflow_bits(self.register_a, data, result);
        }
        if (data ^ result) & (result ^ self.register_a) & 0x80 != 0 {
            self.register_p.insert(Flag::Overflow);
        } else {
            self.register_p.remove(Flag::Overflow);
        }

        self.set_register_a(result);
    }

    fn get_operand_address(&mut self, mode: &AddressingMode) -> (addr: u16)
        requires
            *mode != AddressingMode::NoneAddressing,
        ensures
            (addr, final(self)@) == old(self)@.resolve(*mode),
            final(self)@ == (CpuState { bus: final(self)@.bus, ..old(self)@ }),
    {
        reveal(CpuState::resolve);
        match mode {
            AddressingMode::Immediate => self.program_counter,
            AddressingMode::ZeroPage => self.mem_read(self.program_counter) as u16,
            AddressingMode::Absolute => self.mem_read_u16(self.program_counter),
            AddressingMode::ZeroPage_X => {
                let pos: u8 = self.mem_read(self.program_counter);
                proof {
                    lemma_wrapping_u8(pos, self.register_x);
                }
                let addr: u16 = pos.wrapping_add(self.register_x) as u16;
                addr
            },
            AddressingMode::ZeroPage_Y => {
                let pos: u8 = self.mem_read(self.program_counter);
                proof {
                    lemma_wrapping_u8(pos, self.register_y);
                }
                let addr: u16 = pos.wrapping_add(self.register_y) as u16;
                addr
            },
            AddressingMode::Absolute_X => {
                let base: u16 = self.mem_read_u16(self.program_counter);
                proof {
                    lemma_wrapping_u16(base, self.register_x as u16);
                }
                let addr: u16 = base.wrapping_add(self.register_x as u16);
                addr
            },
            AddressingMode::Absolute_Y => {
                let base: u16 = self.mem_read_u16(self.program_counter);
                proof {
                    lemma_wrapping_u16(base, self.register_y as u16);
                }
                let addr: u16 = base.wrapping_add(self.register_y as u16);
                addr
            },
            AddressingMode::Indirect_X => {
                let base: u8 = self.mem_read(self.program_counter);

                let ptr: u8 = base.wrapping_add(self.register_x);
                let lo: u8 = self.mem_read(ptr as u16);
                let hi: u8 = self.mem_read(ptr.wrapping_add(1) as u16);
                proof {
                    lemma_wrapping_u8(base, self.register_x);
                    lemma_wrapping_u8(ptr, 1);
                    lemma_word_join(lo, hi);
                }
                (hi as u16) << 8 | (lo as u16)
            },
            AddressingMode::Indirect_Y => {
                let base: u8 = self.mem_read(self.program_counter);

                let lo: u8 = self.mem_read(base as u16);
                let hi: u8 = self.mem_read(base.wrapping_add(1) as u16);
                let deref_base: u16 = (hi as u16) << 8 | (lo as u16);
                proof {
                    lemma_wrapping_u8(base, 1);
                    lemma_word_join(lo, hi);
                    lemma_wrapping_u16(deref_base, self.register_y as u16);
                }
                let deref: u16 = deref_base.wrapping_add(self.register_y as u16);
                deref
            },
            AddressingMode::NoneAddressing => 0,
        }
    }

    fn tax(&mut self)
        ensures
            final(self)@ == old(self)@.tax(),
    {
        reveal(CpuState::tax);
        self.register_x = self.register_a;
        self.update_zero_and_negative_flags(self.register_x);
    }

    fn tay(&mut self)
        ensures
            final(self)@ == old(self)@.tay(),
    {
        reveal(CpuState::tay);
        self.register_y = self.register_a;
        self.update_zero_and_negative_flags(self.register_y);
    }

    fn txa(&mut self)
        ensures
            final(self)@ == old(self)@.txa(),
    {
        reveal(CpuState::txa);
        self.register_a = self.register_x;
        self.update_zero_and_negative_flags(self.register_a);
    }

    fn tya(&mut self)
        ensures
            final(self)@ == old(self)@.tya(),
    {
        reveal(CpuState::tya);
        self.register_a = self.register_y;
        self.update_zero_and_negative_flags(self.register_a);
    }

    fn tsx(&mut self)
        ensures
            final(self)@ == old(self)@.tsx(),
    {
        reveal(CpuState::tsx);
        self.register_x = self.stack_pointer;
        self.update_zero_and_negative_flags(self.register_x);
    }

    fn txs(&mut self)
        ensures
            final(self)@ == old(self)@.txs(),
    {
        reveal(CpuState::txs);
        self.stack_pointer = self.register_x;
    }

    fn inc(&mut self, mode: &AddressingMode) -> (result: u8)
        requires
            *mode != AddressingMode::NoneAddressing,
        ensures
            final(self)@ == old(self)@.inc(*mode),
            result == inc_value(old(self)@.operand(*mode).0),
    {
        reveal(CpuState::inc);
        let addr: u16 = self.get_operand_address(mode);
        let mut val: u8 = self.mem_read(addr);
        proof {
            lemma_wrapping_u8(val, 1);
        }
        val = val.wrapping_add(1);
        self.mem_write(addr, val);
        self.update_zero_and_negative_flags(val);
        val
    }

    fn adc(&mut self, mode: &AddressingMode)
        requires
            *mode != AddressingMode::NoneAddressing,
        ensures
            final(self)@ == old(self)@.adc(*mode),
    {
        reveal(CpuState::adc);
        let addr: u16 = self.get_operand_address(mode);
        let val: u8 = self.mem_read(addr);
        self.add_to_register_a(val);
    }

    fn and(&mut self, mode: &AddressingMode)
        requires
            *mode != AddressingMode::NoneAddressing,
        ensures
            final(self)@ == old(self)@.and(*mode),
    {
        reveal(CpuState::and);
        let addr: u16 = self.get_operand_address(mode);
        let val: u8 = self.mem_read(addr);
        self.set_register_a(val & self.register_a);
    }

    fn asl_register_a(&mut self)
        ensures
            final(self)@ == old(self)@.asl_a(),
    {
        reveal(CpuState::asl_a);
        let mut var: u8 = self.register_a;
        proof {
            lemma_bit_tests(var);
            lemma_shift_left(var);
        }
        if self.register_a >> 7 == 1 {
            self.set_carry_flag();
        } else {
            self.clear_carry_flag();
        }
        var = var << 1;
        self.set_register_a(var);
    }

    fn asl(&mut self, mode: &AddressingMode) -> (result: u8)
        requires
            *mode != AddressingMode::NoneAddressing,
        ensures
            final(self)@ == old(self)@.asl(*mode),
            result == shl_value(old(self)@.operand(*mode).0),
    {
        reveal(CpuState::asl);
        let addr: u16 = self.get_operand_address(mode);
        let mut val: u8 = self.mem_read(addr);
        proof {
            lemma_bit_tests(val);
            lemma_shift_left(val);
        }

        if val >> 7 == 1 {
            self.set_carry_flag();
        } else {
            self.clear_carry_flag();
        }

        val = val << 1;
        self.mem_write(addr, val);
        self.update_zero_and_negative_flags(val);
        val
    }

    fn bit(&mut self, mode: &AddressingMode)
        requires
            *mode != AddressingMode::NoneAddressing,
        ensures
            final(self)@ == old(self)@.bit(*mode),
    {
        reveal(CpuState::bit);
        let addr: u16 = self.get_operand_address(mode);
        let val: u8 = self.mem_read(addr);
        proof {
            lemma_bit_tests(val);
        }

        let and: u8 = self.register_a & val;
        if and == 0 {
            self.register_p.insert(Flag::Zero);
        } else {
            self.register_p.remove(Flag::Zero);
        }

        self.register_p.set(Flag::Negative, val & 0b1000_0000 != 0);
        self.register_p.set(Flag::Overflow, val & 0b0100_0000 != 0);
    }

    fn dec(&mut self, mode: &AddressingMode) -> (result: u8)
        requires
            *mode != AddressingMode::NoneAddressing,
        ensures
            final(self)@ == old(self)@.dec(*mode),
            result == dec_value(old(self)@.operand(*mode).0),
    {
        reveal(CpuState::dec);
        let addr: u16 = self.get_operand_address(mode);
        let val: u8 = self.mem_read(addr);
        proof {
            lemma_wrapping_u8(val, 1);
        }
        let result: u8 = val.wrapping_sub(1);
        self.mem_write(addr, result);
        self.update_zero_and_negative_flags(result);
        result
    }

    fn eor(&mut self, mode: &AddressingMode)
        requires
            *mode != AddressingMode::NoneAddressing,
        ensures
            final(self)@ == old(self)@.eor(*mode),
    {
        reveal(CpuState::eor);
        let addr: u16 = self.get_operand_address(mode);
        let var: u8 = self.mem_read(addr);
        self.register_a = self.register_a ^ var;
        self.update_zero_and_negative_flags(self.register_a);
    }

    fn jsr(&mut self)
        ensures
            final(self)@ == old(self)@.jsr(),
    {
        reveal(CpuState::jsr);
        proof {
            lemma_wrapping_u16(self.program_counter, 1);
        }
        self.stack_push_u16(self.program_counter.wrapping_add(1));
        let target_address: u16 = self.mem_read_u16(self.program_counter);
        self.program_counter = target_address
    }

    fn lsr_register_a(&mut self)
        ensures
            final(self)@ == old(self)@.lsr_a(),
    {
        reveal(CpuState::lsr_a);
        let mut var: u8 = self.register_a;
        proof {
            lemma_bit_tests(var);
            lemma_shift_right(var);
        }
        if self.register_a & 1 == 1 {
            self.set_carry_flag();
        } else {
            self.clear_carry_flag();
        }
        var = var >> 1;
        self.set_register_a(var);
    }

    fn lsr(&mut self, mode: &AddressingMode) -> (result: u8)
        requires
            *mode != AddressingMode::NoneAddressing,
        ensures
            final(self)@ == old(self)@.lsr(*mode),
            result == shr_value(old(self)@.operand(*mode).0),
    {
        reveal(CpuState::lsr);
        let addr: u16 = self.get_operand_address(mode);
        let mut var: u8 = self.mem_read(addr);
        proof {
            lemma_bit_tests(var);
            lemma_shift_right(var);
        }

        if var & 1 == 1 {
            self.set_carry_flag();
        } else {
            self.clear_carry_flag();
        }

        var = var >> 1;
        self.mem_write(addr, var);
        self.update_zero_and_negative_flags(var);
        var
    }

    fn ora(&mut self, mode: &AddressingMode)
        requires
            *mode != AddressingMode::NoneAddressing,
        ensures
            final(self)@ == old(self)@.ora(*mode),
    {
        reveal(CpuState::ora);
        let addr: u16 = self.get_operand_address(mode);
        let mut var: u8 = self.mem_read(addr);
        var = var | self.register_a;
        self.set_register_a(var);
    }

    fn pha(&mut self)
        ensures
            final(self)@ == old(self)@.pha(),
    {
        reveal(CpuState::pha);
        let var: u8 = self.register_a;
        self.stack_push(var);
    }

    fn php(&mut self)
        ensures
            final(self)@ == old(self)@.php(),
    {
        reveal(CpuState::php);
        let mut flags: CpuFlags = self.register_p;
        flags.insert(Flag::Break);
        flags.insert(Flag::Break2);
        self.stack_push(flags.bits());
    }

    fn pla(&mut self)
        ensures
            final(self)@ == old(self)@.pla(),
    {
        reveal(CpuState::pla);
        let var: u8 = self.stack_pop();
        self.set_register_a(var);
    }

    fn plp(&mut self)
        ensures
            final(self)@ == old(self)@.plp(),
    {
        reveal(CpuState::plp);
        self.register_p.bits = self.stack_pop();
        self.register_p.remove(Flag::Break);
        self.register_p.remove(Flag::Break2);
    }

    fn rol_register_a(&mut self)
        ensures
            final(self)@ == old(self)@.rol_a(),
    {
        reveal(CpuState::rol_a);
        let old_carry: bool = self.register_p.contains(Flag::Carry);
        proof {
            lemma_bit_tests(self.register_a);
            lemma_shift_left(self.register_a);
        }

        if self.register_a >> 7 == 1 {
            self.set_carry_flag();
        } else {
            self.clear_carry_flag();
        }
        self.register_a = self.register_a << 1;

        if old_carry {
            self.register_a = self.register_a | 1;
        }
        self.update_zero_and_negative_flags(self.register_a);
    }

    fn rol(&mut self, mode: &AddressingMode) -> (result: u8)
        requires
            *mode != AddressingMode::NoneAddressing,
        ensures
            final(self)@ == old(self)@.rol(*mode),
            result == rol_value(old(self)@.operand(*mode).0, old(self)@.p.has(Flag::Carry)),
    {
        reveal(CpuState::rol);
        let addr: u16 = self.get_operand_address(mode);
        let mut var: u8 = self.mem_read(addr);
        let old_carry: bool = self.register_p.contains(Flag::Carry);
        proof {
            lemma_bit_tests(var);
            lemma_shift_left(var);
        }

        if var >> 7 == 1 {
            self.set_carry_flag();
        } else {
            self.clear_carry_flag();
        }
        var = var << 1;
        if old_carry {
            var = var | 1;
        }
        self.mem_write(addr, var);
        self.update_zero_and_negative_flags(var);
        var
    }

    fn ror(&mut self, mode: &AddressingMode) -> (result: u8)
        requires
            *mode != AddressingMode::NoneAddressing,
        ensures
            final(self)@ == old(self)@.ror(*mode),
            result == ror_value(old(self)@.operand(*mode).0, old(self)@.p.has(Flag::Carry)),
    {
        reveal(CpuState::ror);
        let addr: u16 = self.get_operand_address(mode);
        let mut var: u8 = self.mem_read(addr);
        let old_carry: bool = self.register_p.contains(Flag::Carry);
        proof {
            lemma_bit_tests(var);
            lemma_shift_right(var);
        }

        if var & 1 == 1 {
            self.set_carry_flag();
        } else {
            self.clear_carry_flag();
        }
        var = var >> 1;
        if old_carry {
            var = var | 0b10000000;
        }
        self.mem_write(addr, var);
        self.update_zero_and_negative_flags(var);
        var
    }

    fn ror_register_a(&mut self)
        ensures
            final(self)@ == old(self)@.ror_a(),
    {
        reveal(CpuState::ror_a);
        let old_carry: bool = self.register_p.contains(Flag::Carry);
        proof {
            lemma_bit_tests(self.register_a);
            lemma_shift_right(self.register_a);
        }

        if self.register_a & 1 == 1 {
            self.set_carry_flag();
        } else {
            self.clear_carry_flag();
        }
        self.register_a = self.register_a >> 1;
        if old_carry {
            self.register_a = self.register_a | 0b10000000;
        }
        self.update_zero_and_negative_flags(self.register_a);
    }

    fn rti(&mut self)
        ensures
            final(self)@ == old(self)@.rti(),
    {
        reveal(CpuState::rti);
        self.register_p.bits = self.stack_pop();
        self.register_p.remove(Flag::Break);
        self.register_p.insert(Flag::Break2);
        self.program_counter = self.stack_pop_u16();
    }

    fn rts(&mut self)
        ensures
            final(self)@ == old(self)@.rts(),
    {
        reveal(CpuState::rts);
        let addr: u16 = self.stack_pop_u16();
        proof {
            lemma_wrapping_u16(addr, 1);
        }
        self.program_counter = addr.wrapping_add(1);
    }

    fn sbc(&mut self, mode: &AddressingMode)
        requires
            *mode != AddressingMode::NoneAddressing,
        ensures
            final(self)@ == old(self)@.sbc(*mode),
    {
        reveal(CpuState::sbc);
        let addr: u16 = self.get_operand_address(mode);
        let var: u8 = self.mem_read(addr);
        proof {
            lemma_shift_right(var);
        }

        self.add_to_register_a(var ^ 0xff);
    }

    fn sta(&mut self, mode: &AddressingMode)
        requires
            *mode != AddressingMode::NoneAddressing,
        ensures
            final(self)@ == old(self)@.sta(*mode),
    {
        reveal(CpuState::sta);
        let addr: u16 = self.get_operand_address(mode);
        self.mem_write(addr, self.register_a);
    }

    fn stx(&mut self, mode: &AddressingMode)
        requires
            *mode != AddressingMode::NoneAddressing,
        ensures
            final(self)@ == old(self)@.stx(*mode),
    {
        reveal(CpuState::stx);
        let addr: u16 = self.get_operand_address(mode);
        self.mem_write(addr, self.register_x);
    }

    fn sty(&mut self, mode: &AddressingMode)
        requires
            *mode != AddressingMode::NoneAddressing,
        ensures
            final(self)@ == old(self)@.sty(*mode),
    {
        reveal(CpuState::sty);
        let addr: u16 = self.get_operand_address(mode);
        self.mem_write(addr, self.register_y);
    }

    fn inx(&mut self)
        ensures
            final(self)@ == old(self)@.inx(),
    {
        reveal(CpuState::inx);
        proof {
            lemma_wrapping_u8(self.register_x, 1);
        }
        self.register_x = self.register_x.wrapping_add(1);
        self.update_zero_and_negative_flags(self.register_x);
    }

    fn iny(&mut self)
        ensures
            final(self)@ == old(self)@.iny(),
    {
        reveal(CpuState::iny);
        proof {
            lemma_wrapping_u8(self.register_y, 1);
        }
        self.register_y = self.register_y.wrapping_add(1);
        self.update_zero_and_negative_flags(self.register_y);
    }

    fn dex(&mut self)
        ensures
            final(self)@ == old(self)@.dex(),
    {
        reveal(CpuState::dex);
        proof {
            lemma_wrapping_u8(self.register_x, 1);
        }
        self.register_x = self.register_x.wrapping_sub(1);
        self.update_zero_and_negative_flags(self.register_x);
    }

    fn dey(&mut self)
        ensures
            final(self)@ == old(self)@.dey(),
    {
        reveal(CpuState::dey);
        proof {
            lemma_wrapping_u8(self.register_y, 1);
        }
        self.register_y = self.register_y.wrapping_sub(1);
        self.update_zero_and_negative_flags(self.register_y);
    }

    fn compare(&mut self, mode: &AddressingMode, compare_with: u8)
        requires
            *mode != AddressingMode::NoneAddressing,
        ensures
            final(self)@ == old(self)@.compare(*mode, compare_with),
    {
        reveal(CpuState::compare);
        let addr: u16 = self.get_operand_address(mode);
        let val: u8 = self.mem_read(addr);

        if compare_with >= val {
            self.register_p.insert(Flag::Carry);
        } else {
            self.register_p.remove(Flag::Carry);
        }

        proof {
            lemma_wrapping_u8(compare_with, val);
        }
        self.update_zero_and_negative_flags(compare_with.wrapping_sub(val));
    }

    fn lda(&mut self, mode: &AddressingMode)
        requires
            *mode != AddressingMode::NoneAddressing,
        ensures
            final(self)@ == old(self)@.lda(*mode),
    {
        reveal(CpuState::lda);
        let addr: u16 = self.get_operand_address(mode);
        let var: u8 = self.mem_read(addr);
        self.set_register_a(var);
    }

    fn ldx(&mut self, mode: &AddressingMode)
        requires
            *mode != AddressingMode::NoneAddressing,
        ensures
            final(self)@ == old(self)@.ldx(*mode),
    {
        reveal(CpuState::ldx);
        let addr: u16 = self.get_operand_address(mode);
        let var: u8 = self.mem_read(addr);
        self.register_x = var;
        self.update_zero_and_negative_flags(self.register_x);
    }

    fn ldy(&mut self, mode: &AddressingMode)
        requires
            *mode != AddressingMode::NoneAddressing,
        ensures
            final(self)@ == old(self)@.ldy(*mode),
    {
        reveal(CpuState::ldy);
        let addr: u16 = self.get_operand_address(mode);
        let var: u8 = self.mem_read(addr);
        self.register_y = var;
        self.update_zero_and_negative_flags(self.register_y);
    }

    fn branch(&mut self, condition: bool)
        ensures
            final(self)@ == old(self)@.branch(condition),
    {
        reveal(CpuState::branch);
        if condition {
            let jump: u8 = self.mem_read(self.program_counter);
            // The displacement as a 16-bit two's-complement number.
            let extended: u16 = if jump < 0x80 {
                jump as u16
            } else {
                0xff00 + jump as u16
            };
            proof {
                lemma_wrapping_u16(self.program_counter, 1);
                lemma_wrapping_u16(self.program_counter.wrapping_add(1), extended);
            }
            let jump_addr: u16 = self.program_counter.wrapping_add(1).wrapping_add(extended);

            self.program_counter = jump_addr;
        }
    }

    fn jmp_absolute(&mut self)
        ensures
            final(self)@ == old(self)@.jmp_absolute(),
    {
        reveal(CpuState::jmp_absolute);
        let mem_address: u16 = self.mem_read_u16(self.program_counter);
        self.program_counter = mem_address;
    }

    fn jmp_indirect(&mut self)
        ensures
            final(self)@ == old(self)@.jmp_indirect(),
    {
        reveal(CpuState::jmp_indirect);
        let mem_address: u16 = self.mem_read_u16(self.program_counter);
        proof {
            lemma_word_masks(mem_address);
        }

        let indirect_ref: u16 = if mem_address & 0x00FF == 0x00FF {
            let lo: u8 = self.mem_read(mem_address);
            let hi: u8 = self.mem_read(mem_address & 0xFF00);
            proof {
                lemma_word_join(lo, hi);
            }
            (hi as u16) << 8 | (lo as u16)
        } else {
            self.mem_read_u16(mem_address)
        };

        self.program_counter = indirect_ref;
    }

    /// Carries out the instruction `opcode`, with the program counter at
    /// the byte after the opcode byte. Loads, stores, transfers and stack
    /// instructions are handled here, the others further down.
    fn execute(&mut self, opcode: &OpCode)
        requires
            opcode_table(opcode.code) == Some(*opcode),
        ensures
            final(self)@ == old(self)@.execute(opcode.code, opcode.mode),
    {
        proof {
            lemma_operand_modes(opcode.code);
        }
        match opcode.code {
            /* LDA */
            0xa9 | 0xa5 | 0xb5 | 0xad | 0xbd | 0xb9 | 0xa1 | 0xb1 => {
                self.lda(&opcode.mode);
            },
            /* PHA */
            0x48 => self.pha(),
            /* PLA */
            0x68 => {
                self.pla();
            },
            /* PHP */
            0x08 => {
                self.php();
            },
            /* PLP */
            0x28 => {
                self.plp();
            },
            /* STA */
            0x85 | 0x95 | 0x8d | 0x9d | 0x99 | 0x81 | 0x91 => {
                self.sta(&opcode.mode);
            },
            /* STX */
            0x86 | 0x96 | 0x8e => {
                self.stx(&opcode.mode);
            },
            /* STY */
            0x84 | 0x94 | 0x8c => {
                self.sty(&opcode.mode);
            },
            /* LDX */
            0xa2 | 0xa6 | 0xb6 | 0xae | 0xbe => {
                self.ldx(&opcode.mode);
            },
            /* LDY */
            0xa0 | 0xa4 | 0xb4 | 0xac | 0xbc => {
                self.ldy(&opcode.mode);
            },
            /* TAX */
            0xaa => {
                self.tax();
            },
            /* TAY */
            0xa8 => {
                self.tay();
            },
            /* TSX */
            0xba => {
                self.tsx();
            },
            /* TXA */
            0x8a => {
                self.txa();
            },
            /* TXS */
            0x9a => {
                self.txs();
            },
            /* TYA */
            0x98 => {
                self.tya();
            },
            _ => self.execute_arithmetic(opcode),
        }
    }

    /// Arithmetic, logic, shifts, increments and comparisons.
    fn execute_arithmetic(&mut self, opcode: &OpCode)
        requires
            opcode_table(opcode.code) == Some(*opcode),
        ensures
            final(self)@ == old(self)@.execute_arithmetic(opcode.code, opcode.mode),
    {
        reveal(CpuState::execute_arithmetic);
        proof {
            lemma_operand_modes(opcode.code);
        }
        match opcode.code {
            /* ADC */
            0x69 | 0x65 | 0x75 | 0x6d | 0x7d | 0x79 | 0x61 | 0x71 => {
                self.adc(&opcode.mode);
            },
            /* SBC */
            0xe9 | 0xe5 | 0xf5 | 0xed | 0xfd | 0xf9 | 0xe1 | 0xf1 => {
                self.sbc(&opcode.mode);
            },
            /* AND */
            0x29 | 0x25 | 0x35 | 0x2d | 0x3d | 0x39 | 0x21 | 0x31 => {
                self.and(&opcode.mode);
            },
            /* EOR */
            0x49 | 0x45 | 0x55 | 0x4d | 0x5d | 0x59 | 0x41 | 0x51 => {
                self.eor(&opcode.mode);
            },
            /* ORA */
            0x09 | 0x05 | 0x15 | 0x0d | 0x1d | 0x19 | 0x01 | 0x11 => {
                self.ora(&opcode.mode);
            },
            /* LSR */
            0x4a => self.lsr_register_a(),
            /* LSR */
            0x46 | 0x56 | 0x4e | 0x5e => {
                self.lsr(&opcode.mode);
            },
            /* ASL */
            0x0a => self.asl_register_a(),
            /* ASL */
            0x06 | 0x16 | 0x0e | 0x1e => {
                self.asl(&opcode.mode);
            },
            /* ROL */
            0x2a => self.rol_register_a(),
            /* ROL */
            0x26 | 0x36 | 0x2e | 0x3e => {
                self.rol(&opcode.mode);
            },
            /* ROR */
            0x6a => self.ror_register_a(),
            /* ROR */
            0x66 | 0x76 | 0x6e | 0x7e => {
                self.ror(&opcode.mode);
            },
            /* INC */
            0xe6 | 0xf6 | 0xee | 0xfe => {
                self.inc(&opcode.mode);
            },
            /* INX */
            0xe8 => {
                self.inx();
            },
            /* INY */
            0xc8 => {
                self.iny();
            },
            /* DEC */
            0xc6 | 0xd6 | 0xce | 0xde => {
                self.dec(&opcode.mode);
            },
            /* DEX */
            0xca => {
                self.dex();
            },
            /* DEY */
            0x88 => {
                self.dey();
            },
            /* CMP */
            0xc9 | 0xc5 | 0xd5 | 0xcd | 0xdd | 0xd9 | 0xc1 | 0xd1 => {
                self.compare(&opcode.mode, self.register_a);
            },
            /* CPY */
            0xc0 | 0xc4 | 0xcc => {
                self.compare(&opcode.mode, self.register_y);
            },
            /* CPX */
            0xe0 | 0xe4 | 0xec => self.compare(&opcode.mode, self.register_x),
            /* BIT */
            0x24 | 0x2c => {
                self.bit(&opcode.mode);
            },
            _ => self.execute_control(opcode),
        }
    }

    /// Flag instructions, jumps, calls, returns and branches. BRK and NOP
    /// do nothing here, and neither does a byte that names no instruction.
    fn execute_control(&mut self, opcode: &OpCode)
        requires
            opcode_table(opcode.code) == Some(*opcode),
        ensures
            final(self)@ == old(self)@.execute_control(opcode.code, opcode.mode),
    {
        reveal(CpuState::execute_control);
        proof {
            lemma_operand_modes(opcode.code);
        }
        match opcode.code {
            /* BRK */
            0x00 => {},
            /* CLD */
            0xd8 => self.register_p.remove(Flag::Decimal),
            /* CLI */
            0x58 => self.register_p.remove(Flag::InterruptDisable),
            /* CLV */
            0xb8 => self.register_p.remove(Flag::Overflow),
            /* CLC */
            0x18 => self.clear_carry_flag(),
            /* SEC */
            0x38 => self.set_carry_flag(),
            /* SEI */
            0x78 => self.register_p.insert(Flag::InterruptDisable),
            /* SED */
            0xf8 => self.register_p.insert(Flag::Decimal),
            /* JMP Absolute */
            0x4c => {
                self.jmp_absolute();
            },
            /* JMP Indirect */
            0x6c => {
                self.jmp_indirect();
            },
            /* JSR */
            0x20 => {
                self.jsr();
            },
            /* RTS */
            0x60 => {
                self.rts();
            },
            /* RTI */
            0x40 => {
                self.rti();
            },
            /* BNE */
            0xd0 => {
                self.branch(!self.register_p.contains(Flag::Zero));
            },
            /* BVS */
            0x70 => {
                self.branch(self.register_p.contains(Flag::Overflow));
            },
            /* BVC */
            0x50 => {
                self.branch(!self.register_p.contains(Flag::Overflow));
            },
            /* BPL */
            0x10 => {
                self.branch(!self.register_p.contains(Flag::Negative));
            },
            /* BMI */
            0x30 => {
                self.branch(self.register_p.contains(Flag::Negative));
            },
            /* BEQ */
            0xf0 => {
                self.branch(self.register_p.contains(Flag::Zero));
            },
            /* BCS */
            0xb0 => {
                self.branch(self.register_p.contains(Flag::Carry));
            },
            /* BCC */
            0x90 => {
                self.branch(!self.register_p.contains(Flag::Carry));
            },
            /* NOP */
            0xea => {},
            _ => {},
        }
    }

    /// Enters the interrupt routine.
    fn interrupt_nmi(&mut self)
        ensures
            final(self)@ == old(self)@.interrupt_nmi(),
    {
        reveal(CpuState::interrupt_nmi);
        self.stack_push_u16(self.program_counter);
        let mut flags: CpuFlags = self.register_p;
        flags.set(Flag::Break, false);
        flags.set(Flag::Break2, true);
        self.stack_push(flags.bits());
        self.register_p.insert(Flag::InterruptDisable);

        self.program_counter = self.mem_read_u16(NMI_VECTOR);
        self.bus.tick(NMI_CYCLES);
    }

    /// One turn of the loop: takes a pending interrupt, then fetches and
    /// carries out one instruction.
    pub fn step(&mut self) -> (status: Status)
        ensures
            final(self)@ == old(self)@.step(),
            status == old(self)@.step_status(),
    {
        if self.bus.poll_nmi_status() {
            self.interrupt_nmi();
        }
        let pc: u16 = self.program_counter;
        let code: u8 = self.mem_read(pc);
        proof {
            lemma_wrapping_u16(pc, 1);
        }
        self.program_counter = pc.wrapping_add(1);
        let prev_program_counter: u16 = self.program_counter;

        match find_opcode(code) {
            None => Status::Fault { code, pc },
            Some(opcode) => {
                proof {
                    lemma_table_shape(code);
                }
                self.execute(&opcode);

                if prev_program_counter == self.program_counter {
                    proof {
                        lemma_wrapping_u16(self.program_counter, (opcode.len - 1) as u16);
                    }
                    self.program_counter = self.program_counter.wrapping_add(
                        (opcode.len - 1) as u16,
                    );
                }
                self.bus.tick(opcode.cycles as u16);

                if code == 0x00 {
                    Status::Halted
                } else {
                    Status::Running
                }
            },
        }
    }

    /// Writes `program` into memory from `LOAD_BASE` on, byte by byte
    /// through the bus. The program has to fit below the top of memory.
    pub fn load(&mut self, program: Vec<u8>)
        requires
            LOAD_BASE + program.len() <= 0x1_0000,
        ensures
            final(self)@ == old(self)@.load(program@, program@.len()),
    {
        let mut i: usize = 0;
        while i < program.len()
            invariant
                i <= program.len(),
                LOAD_BASE + program.len() <= 0x1_0000,
                self@ == old(self)@.load(program@, i as nat),
            decreases program.len() - i,
        {
            self.mem_write(LOAD_BASE + i as u16, program[i]);
            i = i + 1;
        }
    }

    /// Steps until the program halts on BRK or a byte that is no
    /// instruction is fetched. The loop gives up after `RUN_LIMIT` steps
    /// and then returns `Status::Running`.
    pub fn run(&mut self) -> (status: Status)
        ensures
            (final(self)@, status) == old(self)@.run(RUN_LIMIT as nat),
    {
        let mut budget: u64 = RUN_LIMIT;
        while budget > 0
            invariant
                self@.run(budget as nat) == old(self)@.run(RUN_LIMIT as nat),
            decreases budget,
        {
            let status: Status = self.step();
            match status {
                Status::Running => {},
                _ => {
                    return status;
                },
            }
            budget = budget - 1;
        }
        Status::Running
    }

    /// Loads `program`, reads the program counter from the reset vector,
    /// and runs.
    pub fn load_and_run(&mut self, program: Vec<u8>) -> (status: Status)
        requires
            LOAD_BASE + program.len() <= 0x1_0000,
        ensures
            (final(self)@, status) == old(self)@.load(program@, program@.len()).start().run(
                RUN_LIMIT as nat,
            ),
    {
        self.load(program);
        self.program_counter = self.mem_read_u16(RESET_VECTOR);
        self.run()
    }

    /// Like `run`, and calls `callback` on the processor after each
    /// instruction, BRK included, but not after a byte that is no
    /// instruction. The callback has to accept every state that a step
    /// leaves; what it does to the processor is up to it, and the next
    /// step starts from what it left.
    ///
    /// The first call sees the state after the first step. A run that ends
    /// halted, or gives up after `RUN_LIMIT` steps, ends in the state in
    /// which the callback left a step that ended so; a run that ends with
    /// a fault ends in the state in which the faulting step left it. A
    /// callback that only looks, and leaves the processor as it found it,
    /// makes this the same as `run`.
    pub fn run_with_callback<F>(&mut self, callback: F) -> (status: Status) where
        F: FnMut(&mut CPU),

        requires
            forall|cpu: &mut CPU|
                (exists|s: CpuState| cpu@ == #[trigger] s.step() && !(s.step_status() is Fault))
                    ==> call_requires(callback, (cpu,)),
        ensures
            status matches Status::Fault { code, .. } ==> opcode_table(code) is None,
            (forall|cpu: &mut CPU| #[trigger]
                call_ensures(callback, (cpu,), ()) ==> final(cpu)@ == cpu@) ==> (final(self)@, status)
                == old(self)@.run(RUN_LIMIT as nat),
            !(old(self)@.step_status() is Fault) ==> exists|cpu: &mut CPU| #[trigger]
                call_ensures(callback, (cpu,), ()) && cpu@ == old(self)@.step(),
            !(status is Fault) ==> exists|cpu: &mut CPU, s: CpuState| #[trigger]
                call_ensures(callback, (cpu,), ()) && final(cpu)@ == final(self)@ && cpu@
                    == #[trigger] s.step() && s.step_status() == status,
            status is Fault ==> exists|s: CpuState|
                final(self)@ == #[trigger] s.step() && status == s.step_status(),
            status is Fault && old(self)@.step_status() is Fault ==> final(self)@ == old(
                self,
            )@.step() && status == old(self)@.step_status(),
    {
        let mut hook: F = callback;
        let mut budget: u64 = RUN_LIMIT;
        while budget > 0
            invariant
                hook == callback,
                forall|cpu: &mut CPU|
                    (exists|s: CpuState|
                        cpu@ == #[trigger] s.step() && !(s.step_status() is Fault))
                        ==> call_requires(callback, (cpu,)),
                (forall|cpu: &mut CPU| #[trigger]
                    call_ensures(callback, (cpu,), ()) ==> final(cpu)@ == cpu@) ==> self@.run(
                    budget as nat,
                ) == old(self)@.run(RUN_LIMIT as nat),
                budget == RUN_LIMIT ==> self@ == old(self)@,
                budget < RUN_LIMIT ==> !(old(self)@.step_status() is Fault),
                budget < RUN_LIMIT ==> exists|cpu: &mut CPU| #[trigger]
                    call_ensures(callback, (cpu,), ()) && cpu@ == old(self)@.step(),
                budget < RUN_LIMIT ==> exists|cpu: &mut CPU, s: CpuState| #[trigger]
                    call_ensures(callback, (cpu,), ()) && final(cpu)@ == self@ && cpu@
                        == #[trigger] s.step() && s.step_status() == Status::Running,
            decreases budget,
        {
            let ghost before = self@;
            let status: Status = self.step();
            match status {
                Status::Fault { code, pc } => {
                    return status;
                },
                _ => {},
            }
            assert(self@ == before.step() && !(before.step_status() is Fault));
            hook(self);
            match status {
                Status::Halted => {
                    return status;
                },
                _ => {},
            }
            budget = budget - 1;
        }
        Status::Running
    }
}

} // verus!
