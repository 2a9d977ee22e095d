//! Laws of the instruction set, proved of the model that the interpreter
//! implements.
use vstd::prelude::*;
use crate::alu::{
    adc_carry, adc_overflow, adc_value, carry_value, diff_value, inc_value, low_bit, rol_value,
    ror_value, signed, top_bit,
};
use crate::bus::{BusState, JOYPAD_1, OAM_DMA, PPU_REGISTERS_END, RAM_END};
use crate::cartridge::PRG_BANK_SIZE;
use crate::cpu::AddressingMode;
use crate::flags::{CpuFlags, Flag};
use crate::model::CpuState;

verus! {

/// Finding an operand reads memory and touches no register.
pub proof fn lemma_resolve_keeps_registers(s: CpuState, mode: AddressingMode)
    ensures
        s.resolve(mode).1 == (CpuState { bus: s.resolve(mode).1.bus, ..s }),
        s.operand(mode).1 == (CpuState { bus: s.operand(mode).1.bus, ..s }),
{
    reveal(CpuState::resolve);
}

/// A load leaves the operand in the accumulator, sets Zero iff the operand
/// is 0 and Negative iff it is 0x80 or more.
pub proof fn lemma_lda_flags(s: CpuState, mode: AddressingMode)
    ensures
        s.lda(mode).a == s.operand(mode).0,
        s.lda(mode).p.has(Flag::Zero) <==> s.operand(mode).0 == 0,
        s.lda(mode).p.has(Flag::Negative) <==> s.operand(mode).0 >= 0x80,
{
    reveal(CpuState::lda);
    let (value, t) = s.operand(mode);
    lemma_zn_flags(t.p, value);
}

/// Setting Zero and Negative for `value` makes them describe `value`.
pub proof fn lemma_zn_flags(p: CpuFlags, value: u8)
    ensures
        p.with(Flag::Zero, value == 0).with(Flag::Negative, top_bit(value)).has(Flag::Zero) <==> value
            == 0,
        p.with(Flag::Zero, value == 0).with(Flag::Negative, top_bit(value)).has(Flag::Negative)
            <==> value >= 0x80,
        forall|other: Flag|
            other != Flag::Zero && other != Flag::Negative ==> p.with(Flag::Zero, value == 0).with(
                Flag::Negative,
                top_bit(value),
            ).has(other) == p.has(other),
{
    let z = p.with(Flag::Zero, value == 0);
    p.lemma_with_same(Flag::Zero, value == 0);
    z.lemma_with_other(Flag::Negative, top_bit(value), Flag::Zero);
    z.lemma_with_same(Flag::Negative, top_bit(value));
    assert forall|other: Flag| other != Flag::Zero && other != Flag::Negative implies z.with(
        Flag::Negative,
        top_bit(value),
    ).has(other) == p.has(other) by {
        p.lemma_with_other(Flag::Zero, value == 0, other);
        z.lemma_with_other(Flag::Negative, top_bit(value), other);
    }
}

/// An addition with carry of accumulator `a`, operand `m` and carry `c`
/// leaves `(a + m + c) mod 256` in the accumulator, sets Carry iff
/// `a + m + c > 255`, and sets Overflow iff the sum of `a` and `m` as
/// signed bytes, plus `c`, is not a signed byte.
pub proof fn lemma_adc(s: CpuState, mode: AddressingMode)
    ensures
        ({
            let a = s.a;
            let m = s.operand(mode).0;
            let c = carry_value(s.p.has(Flag::Carry));
            let t = s.adc(mode);
            &&& t.a == (a + m + c) % 256
            &&& t.p.has(Flag::Carry) <==> a + m + c > 255
            &&& t.p.has(Flag::Overflow) <==> !(-128 <= signed(a) + signed(m) + c <= 127)
            &&& t.p.has(Flag::Zero) <==> t.a == 0
            &&& t.p.has(Flag::Negative) <==> t.a >= 0x80
        }),
{
    reveal(CpuState::adc);
    reveal(CpuState::add_to_a);
    lemma_resolve_keeps_registers(s, mode);
    let (m, u) = s.operand(mode);
    let carry = u.p.has(Flag::Carry);
    let carried = u.p.with(Flag::Carry, adc_carry(u.a, m, carry));
    let settled = carried.with(Flag::Overflow, adc_overflow(u.a, m, carry));
    let value = adc_value(u.a, m, carry);
    u.p.lemma_with_same(Flag::Carry, adc_carry(u.a, m, carry));
    carried.lemma_with_other(Flag::Overflow, adc_overflow(u.a, m, carry), Flag::Carry);
    carried.lemma_with_same(Flag::Overflow, adc_overflow(u.a, m, carry));
    lemma_zn_flags(settled, value);
}

/// A comparison of register `r` with operand `m` sets Carry iff `r >= m`,
/// Zero iff `r == m`, and Negative iff bit 7 of `(r - m) mod 256` is set.
pub proof fn lemma_compare(s: CpuState, mode: AddressingMode, r: u8)
    ensures
        ({
            let m = s.operand(mode).0;
            let t = s.compare(mode, r);
            &&& t.p.has(Flag::Carry) <==> r >= m
            &&& t.p.has(Flag::Zero) <==> r == m
            &&& t.p.has(Flag::Negative) <==> (r - m) % 256 >= 0x80
        }),
{
    reveal(CpuState::compare);
    let (m, u) = s.operand(mode);
    let carried = u.p.with(Flag::Carry, r >= m);
    u.p.lemma_with_same(Flag::Carry, r >= m);
    lemma_zn_flags(carried, diff_value(r, m));
}

/// Rotating a byte left and then right through the carry gives back the
/// byte and the carry.
pub proof fn lemma_rol_ror_value(v: u8, carry: bool)
    ensures
        ror_value(rol_value(v, carry), top_bit(v)) == v,
        low_bit(rol_value(v, carry)) == carry,
{
}

/// ROL then ROR on the accumulator restores the accumulator and Carry.
pub proof fn lemma_rol_ror(s: CpuState)
    ensures
        s.rol_a().ror_a().a == s.a,
        s.rol_a().ror_a().p.has(Flag::Carry) == s.p.has(Flag::Carry),
{
    reveal(CpuState::rol_a);
    reveal(CpuState::ror_a);
    let carry = s.p.has(Flag::Carry);
    lemma_rol_ror_value(s.a, carry);
    // After ROL: Carry holds bit 7 of the old accumulator.
    let carried = s.p.with(Flag::Carry, top_bit(s.a));
    let rotated = rol_value(s.a, carry);
    s.p.lemma_with_same(Flag::Carry, top_bit(s.a));
    lemma_zn_flags(carried, rotated);
    let t = s.rol_a();
    assert(t.a == rotated);
    assert(t.p.has(Flag::Carry) == top_bit(s.a));
    // After ROR: Carry holds bit 0 of the rotated byte, the old carry.
    let settled = t.p.with(Flag::Carry, low_bit(t.a));
    t.p.lemma_with_same(Flag::Carry, low_bit(t.a));
    lemma_zn_flags(settled, ror_value(t.a, t.p.has(Flag::Carry)));
}

impl CpuState {
    /// The state after `n` INX instructions.
    pub open spec fn inx_times(self, n: nat) -> CpuState
        decreases n,
    {
        if n == 0 {
            self
        } else {
            self.inx_times((n - 1) as nat).inx()
        }
    }
}

/// `n` INX instructions add `n` to X, modulo 256.
pub proof fn lemma_inx_times(s: CpuState, n: nat)
    ensures
        s.inx_times(n).x == (s.x + n) % 256,
    decreases n,
{
    reveal(CpuState::inx);
    if n > 0 {
        lemma_inx_times(s, (n - 1) as nat);
    }
}

/// INX applied 256 times leaves X as it was.
pub proof fn lemma_inx_256(s: CpuState)
    ensures
        s.inx_times(256).x == s.x,
{
    lemma_inx_times(s, 256);
}

/// What is written to work RAM is read back, and reading work RAM changes
/// nothing.
pub proof fn lemma_ram_write_read(bus: BusState, addr: u16, data: u8)
    requires
        addr < RAM_END,
        bus.wf(),
    ensures
        bus.after_write(addr, data).read_value(addr) == data,
        bus.after_read(addr) == bus,
        bus.after_write(addr, data).wf(),
{
    reveal(BusState::after_write);
    reveal(BusState::read_value);
    reveal(BusState::after_read);
}

/// Work RAM shows four times: an address below 0x2000 reads and writes as
/// the address 0x800, 0x1000 or 0x1800 below it does.
pub proof fn lemma_ram_mirrors(bus: BusState, addr: u16, data: u8)
    requires
        addr < RAM_END,
    ensures
        bus.read_value(addr) == bus.read_value((addr % 0x800) as u16),
        bus.after_read(addr) == bus.after_read((addr % 0x800) as u16),
        bus.after_write(addr, data) == bus.after_write((addr % 0x800) as u16, data),
{
    reveal(BusState::after_write);
    reveal(BusState::read_value);
    reveal(BusState::after_read);
}

/// The registers of the picture unit show every eight bytes: an address
/// from 0x2000 to 0x3FFF reads and writes as the register does that it
/// stands for.
pub proof fn lemma_ppu_registers_mirror(bus: BusState, addr: u16, data: u8)
    requires
        RAM_END <= addr < PPU_REGISTERS_END,
    ensures
        bus.read_value(addr) == bus.read_value(BusState::ppu_register(addr)),
        bus.after_read(addr) == bus.after_read(BusState::ppu_register(addr)),
        bus.after_write(addr, data) == bus.after_write(BusState::ppu_register(addr), data),
{
    reveal(BusState::after_write);
    reveal(BusState::read_value);
    reveal(BusState::after_read);
}

/// A cartridge with a single program bank shows it twice: 0xC000 and up
/// read as 0x8000 and up.
pub proof fn lemma_prg_mirrors(bus: BusState, addr: u16)
    requires
        bus.rom.prg.len() == PRG_BANK_SIZE,
        addr >= 0xC000,
    ensures
        bus.read_value(addr) == bus.read_value((addr - 0x4000) as u16),
{
    reveal(BusState::read_value);
}

/// A write to the cartridge's program window, or to an address that leads
/// nowhere, changes nothing.
pub proof fn lemma_write_dropped(bus: BusState, addr: u16, data: u8)
    requires
        addr >= PPU_REGISTERS_END,
        addr != OAM_DMA,
        addr != JOYPAD_1,
    ensures
        bus.after_write(addr, data) == bus,
{
    reveal(BusState::after_write);
}

/// A push followed by a pop returns the pushed byte and the stack pointer;
/// the byte stays in the stack page, nothing else changes. The stack
/// pointer wraps round: a push at 0x00 leaves it at 0xFF.
pub proof fn lemma_push_pop(s: CpuState, data: u8)
    requires
        s.wf(),
    ensures
        s.push(data).pop().0 == data,
        s.push(data).pop().1 == (CpuState { sp: s.sp, ..s.push(data) }),
        s.push(data).sp == (s.sp - 1) % 256,
        s.push(data).pop().1.sp == (s.push(data).sp + 1) % 256,
{
    let addr = CpuState::stack_addr(s.sp);
    lemma_ram_write_read(s.bus, addr, data);
    let t = s.push(data);
    lemma_ram_write_read(t.bus, addr, data);
    assert(inc_value(t.sp) == s.sp);
}

/// The stack pointer always stands for an address of page 1.
pub proof fn lemma_stack_in_page(sp: u8)
    ensures
        0x0100 <= CpuState::stack_addr(sp) <= 0x01FF,
{
}

/// The flags after an addition: Carry, Overflow, Zero and Negative are
/// set for the sum, the others are as they were.
pub proof fn lemma_add_flags(s: CpuState, data: u8, flag: Flag)
    ensures
        ({
            let carry = s.p.has(Flag::Carry);
            let sum = adc_value(s.a, data, carry);
            s.add_to_a(data).p.has(flag) == match flag {
                Flag::Carry => adc_carry(s.a, data, carry),
                Flag::Overflow => adc_overflow(s.a, data, carry),
                Flag::Zero => sum == 0,
                Flag::Negative => top_bit(sum),
                _ => s.p.has(flag),
            }
        }),
{
    reveal(CpuState::add_to_a);
    let carry = s.p.has(Flag::Carry);
    let carried = s.p.with(Flag::Carry, adc_carry(s.a, data, carry));
    let settled = carried.with(Flag::Overflow, adc_overflow(s.a, data, carry));
    let sum = adc_value(s.a, data, carry);
    lemma_zn_flags(settled, sum);
    s.p.lemma_with_same(Flag::Carry, adc_carry(s.a, data, carry));
    carried.lemma_with_same(Flag::Overflow, adc_overflow(s.a, data, carry));
    if flag != Flag::Carry {
        s.p.lemma_with_other(Flag::Carry, adc_carry(s.a, data, carry), flag);
    }
    if flag != Flag::Overflow {
        carried.lemma_with_other(Flag::Overflow, adc_overflow(s.a, data, carry), flag);
    }
}

/// The Decimal flag has no effect on an addition: the sum and every other
/// flag come out the same whether it is set or not.
pub proof fn lemma_decimal_is_ignored(s: CpuState, data: u8, decimal: bool, flag: Flag)
    requires
        flag != Flag::Decimal,
    ensures
        s.with_flag(Flag::Decimal, decimal).add_to_a(data).a == s.add_to_a(data).a,
        s.with_flag(Flag::Decimal, decimal).add_to_a(data).p.has(flag) == s.add_to_a(data).p.has(
            flag,
        ),
{
    let t = s.with_flag(Flag::Decimal, decimal);
    s.p.lemma_with_other(Flag::Decimal, decimal, Flag::Carry);
    s.p.lemma_with_other(Flag::Decimal, decimal, flag);
    lemma_add_flags(s, data, flag);
    lemma_add_flags(t, data, flag);
    assert(t.add_to_a(data).a == s.add_to_a(data).a) by {
        reveal(CpuState::add_to_a);
    }
}

/// An addition of `data` to accumulator `a` with carry `c` leaves
/// `(a + data + c) mod 256` in the accumulator, sets Carry iff
/// `a + data + c > 255`, whatever Carry was before, and sets Overflow iff
/// the sum of the two as signed bytes, plus `c`, is not a signed byte.
pub proof fn lemma_add_to_a(s: CpuState, data: u8)
    ensures
        ({
            let c = carry_value(s.p.has(Flag::Carry));
            let t = s.add_to_a(data);
            &&& t.a == (s.a + data + c) % 256
            &&& t.p.has(Flag::Carry) <==> s.a + data + c > 255
            &&& t.p.has(Flag::Overflow) <==> !(-128 <= signed(s.a) + signed(data) + c <= 127)
            &&& t.p.has(Flag::Zero) <==> t.a == 0
            &&& t.p.has(Flag::Negative) <==> t.a >= 0x80
            &&& t.x == s.x && t.y == s.y && t.sp == s.sp && t.pc == s.pc && t.bus == s.bus
        }),
{
    lemma_add_flags(s, data, Flag::Carry);
    lemma_add_flags(s, data, Flag::Overflow);
    lemma_add_flags(s, data, Flag::Zero);
    lemma_add_flags(s, data, Flag::Negative);
    reveal(CpuState::add_to_a);
}

/// ROL then ROR on a cell of work RAM restores the cell and Carry, and
/// with them all of work RAM. This holds where finding the operand changes
/// nothing behind the bus, and where the operand's address is found again
/// after the cell was rotated, which it is unless the cell lies among the
/// bytes that name it.
pub proof fn lemma_rol_ror_memory(s: CpuState, mode: AddressingMode)
    requires
        s.wf(),
        s.resolve(mode).0 < RAM_END,
        s.resolve(mode).1 == s,
        s.rol(mode).resolve(mode) == (s.resolve(mode).0, s.rol(mode)),
    ensures
        ({
            let addr = s.resolve(mode).0;
            let t = s.rol(mode).ror(mode);
            &&& s.rol(mode).read(addr) == rol_value(s.read(addr), s.p.has(Flag::Carry))
            &&& s.rol(mode).p.has(Flag::Carry) == top_bit(s.read(addr))
            &&& t.read(addr) == s.read(addr)
            &&& t.p.has(Flag::Carry) == s.p.has(Flag::Carry)
            &&& t.bus == s.bus
        }),
{
    reveal(CpuState::rol);
    reveal(CpuState::ror);
    let addr = s.resolve(mode).0;
    let carry = s.p.has(Flag::Carry);
    let value = s.read(addr);
    let rotated = rol_value(value, carry);
    lemma_rol_ror_value(value, carry);
    lemma_ram_write_read(s.bus, addr, rotated);
    // After ROL: the cell holds the rotated byte, Carry the old bit 7.
    let carried = s.p.with(Flag::Carry, top_bit(value));
    s.p.lemma_with_same(Flag::Carry, top_bit(value));
    lemma_zn_flags(carried, rotated);
    let mid = s.rol(mode);
    assert(mid.bus == s.bus.after_write(addr, rotated));
    assert(mid.read(addr) == rotated);
    assert(mid.p.has(Flag::Carry) == top_bit(value));
    // After ROR: the cell holds the old byte, Carry the old carry.
    lemma_ram_write_read(mid.bus, addr, value);
    let restored = mid.p.with(Flag::Carry, low_bit(rotated));
    mid.p.lemma_with_same(Flag::Carry, low_bit(rotated));
    lemma_zn_flags(restored, value);
    let t = mid.ror(mode);
    assert(t.bus == mid.bus.after_write(addr, value));
    assert(t.bus == s.bus) by {
        reveal(BusState::after_write);
        reveal(BusState::read_value);
        assert(t.bus.ram =~= s.bus.ram);
    }
}

} // verus!
