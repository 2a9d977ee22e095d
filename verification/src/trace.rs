//! One line of disassembly for the instruction that is about to run, with
//! the registers beside it. Tracing looks at memory without reading it, so
//! it changes nothing.
use vstd::prelude::*;
use vstd::string::StringExecFns;
use crate::alu::{
    addr_add, branch_target, high_byte, lemma_word_join, lemma_word_masks, lemma_wrapping_u16,
    lemma_wrapping_u8, low_byte, zp_add,
};
use crate::cpu::{find_opcode, AddressingMode, CPU};
use crate::model::CpuState;
use crate::opcodes::{lemma_mnemonic_len, opcode_table, OpCode};

verus! {

/// The column at which the operand starts.
pub const OPERAND_COLUMN: u8 = 20;

/// The width of the disassembly, the operand included.
pub const DISASSEMBLY_WIDTH: u8 = 47;

/// One hexadecimal digit, in upper case.
pub open spec fn hex_digit(d: int) -> Seq<char> {
    if d == 0 {
        "0"@
    } else if d == 1 {
        "1"@
    } else if d == 2 {
        "2"@
    } else if d == 3 {
        "3"@
    } else if d == 4 {
        "4"@
    } else if d == 5 {
        "5"@
    } else if d == 6 {
        "6"@
    } else if d == 7 {
        "7"@
    } else if d == 8 {
        "8"@
    } else if d == 9 {
        "9"@
    } else if d == 10 {
        "A"@
    } else if d == 11 {
        "B"@
    } else if d == 12 {
        "C"@
    } else if d == 13 {
        "D"@
    } else if d == 14 {
        "E"@
    } else {
        "F"@
    }
}

/// A byte as two hexadecimal digits.
pub open spec fn hex2(v: u8) -> Seq<char> {
    hex_digit(v as int / 16) + hex_digit(v as int % 16)
}

/// A word as four hexadecimal digits.
pub open spec fn hex4(v: u16) -> Seq<char> {
    hex2(high_byte(v)) + hex2(low_byte(v))
}

/// `n` spaces.
pub open spec fn spaces(n: nat) -> Seq<char>
    decreases n,
{
    if n == 0 {
        Seq::empty()
    } else {
        spaces((n - 1) as nat) + " "@
    }
}

/// Whether `code` is a shift or rotation of the accumulator.
pub open spec fn on_accumulator(code: u8) -> bool {
    code == 0x0a || code == 0x4a || code == 0x2a || code == 0x6a
}

/// The bytes of the instruction at the program counter, in hexadecimal,
/// filled up to eight columns.
pub open spec fn byte_dump(s: CpuState, len: u8) -> Seq<char> {
    let b0 = hex2(s.read(s.pc));
    let b1 = hex2(s.read(addr_add(s.pc, 1)));
    let b2 = hex2(s.read(addr_add(s.pc, 2)));
    if len == 2 {
        b0 + " "@ + b1 + spaces(3)
    } else if len == 3 {
        b0 + " "@ + b1 + " "@ + b2
    } else {
        b0 + spaces(6)
    }
}

/// An immediate operand: `#$12`.
pub open spec fn immediate_text(byte: u8) -> Seq<char> {
    "#$"@ + hex2(byte)
}

/// A zero-page operand and the byte found there: `$12 = 34`.
pub open spec fn zero_page_text(target: u8, stored: u8) -> Seq<char> {
    "$"@ + hex2(target) + " = "@ + hex2(stored)
}

/// A zero-page operand indexed by X (or by Y), the address it leads to and
/// the byte found there: `$12,X @ 34 = 56`.
pub open spec fn zero_page_indexed_text(byte: u8, by_x: bool, target: u8, stored: u8) -> Seq<
    char,
> {
    "$"@ + hex2(byte) + (if by_x {
        ",X @ "@
    } else {
        ",Y @ "@
    }) + hex2(target) + " = "@ + hex2(stored)
}

/// An operand found through a pointer in the zero page indexed by X, the
/// pointer's address, the address it leads to and the byte found there:
/// `($12,X) @ 34 = 5678 = 9A`.
pub open spec fn indirect_x_text(byte: u8, pointer: u8, target: u16, stored: u8) -> Seq<char> {
    "($"@ + hex2(byte) + ",X) @ "@ + hex2(pointer) + " = "@ + hex4(target) + " = "@ + hex2(
        stored,
    )
}

/// An operand found through a pointer in the zero page and then indexed by
/// Y, the pointer's value, the address it leads to and the byte found
/// there: `($12),Y = 3456 @ 7890 = AB`.
pub open spec fn indirect_y_text(byte: u8, base: u16, target: u16, stored: u8) -> Seq<char> {
    "($"@ + hex2(byte) + "),Y = "@ + hex4(base) + " @ "@ + hex4(target) + " = "@ + hex2(stored)
}

/// The target of a branch, a jump or a call: `$1234`.
pub open spec fn address_text(target: u16) -> Seq<char> {
    "$"@ + hex4(target)
}

/// An absolute operand and the byte found there: `$1234 = 56`.
pub open spec fn absolute_text(target: u16, stored: u8) -> Seq<char> {
    "$"@ + hex4(target) + " = "@ + hex2(stored)
}

/// An absolute operand indexed by X (or by Y), the address it leads to and
/// the byte found there: `$1234,X @ 5678 = 9A`.
pub open spec fn absolute_indexed_text(word: u16, by_x: bool, target: u16, stored: u8) -> Seq<
    char,
> {
    "$"@ + hex4(word) + (if by_x {
        ",X @ "@
    } else {
        ",Y @ "@
    }) + hex4(target) + " = "@ + hex2(stored)
}

/// The pointer of an indirect jump and where it leads: `($1234) = 5678`.
pub open spec fn jmp_indirect_text(pointer: u16, target: u16) -> Seq<char> {
    "($"@ + hex4(pointer) + ") = "@ + hex4(target)
}

/// The operand of the instruction `op` at the program counter as an
/// assembler would write it, followed by the address it leads to and the
/// byte found there.
pub open spec fn operand_text(s: CpuState, op: OpCode) -> Seq<char> {
    let at = addr_add(s.pc, 1);
    let byte = s.read(at);
    let word = s.peek_u16(at);
    let target = s.operand_address_at(op.mode, at);
    let stored = s.read(target);
    if op.len == 2 {
        match op.mode {
            AddressingMode::Immediate => immediate_text(byte),
            AddressingMode::ZeroPage => zero_page_text(low_byte(target), stored),
            AddressingMode::ZeroPage_X => zero_page_indexed_text(
                byte,
                true,
                low_byte(target),
                stored,
            ),
            AddressingMode::ZeroPage_Y => zero_page_indexed_text(
                byte,
                false,
                low_byte(target),
                stored,
            ),
            AddressingMode::Indirect_X => indirect_x_text(
                byte,
                zp_add(byte, s.x as int),
                target,
                stored,
            ),
            AddressingMode::Indirect_Y => indirect_y_text(
                byte,
                s.peek_zero_page_u16(byte),
                target,
                stored,
            ),
            AddressingMode::NoneAddressing => address_text(branch_target(at, byte)),
            _ => Seq::empty(),
        }
    } else if op.len == 3 {
        match op.mode {
            AddressingMode::NoneAddressing => if op.code == 0x6c {
                jmp_indirect_text(word, s.jmp_indirect_target_at(at))
            } else {
                address_text(word)
            },
            AddressingMode::Absolute => absolute_text(target, stored),
            AddressingMode::Absolute_X => absolute_indexed_text(word, true, target, stored),
            AddressingMode::Absolute_Y => absolute_indexed_text(word, false, target, stored),
            _ => Seq::empty(),
        }
    } else if on_accumulator(op.code) {
        "A"@
    } else {
        Seq::empty()
    }
}

/// How many columns `operand_text` takes.
pub open spec fn operand_width(op: OpCode) -> nat {
    if op.len == 2 {
        match op.mode {
            AddressingMode::Immediate => 4,
            AddressingMode::ZeroPage => 8,
            AddressingMode::ZeroPage_X => 15,
            AddressingMode::ZeroPage_Y => 15,
            AddressingMode::Indirect_X => 24,
            AddressingMode::Indirect_Y => 26,
            AddressingMode::NoneAddressing => 5,
            _ => 0,
        }
    } else if op.len == 3 {
        match op.mode {
            AddressingMode::NoneAddressing => if op.code == 0x6c {
                14
            } else {
                5
            },
            AddressingMode::Absolute => 10,
            AddressingMode::Absolute_X => 19,
            AddressingMode::Absolute_Y => 19,
            _ => 0,
        }
    } else if on_accumulator(op.code) {
        1
    } else {
        0
    }
}

/// The registers, as they close the line.
pub open spec fn register_text(s: CpuState) -> Seq<char> {
    " A:"@ + hex2(s.a) + " X:"@ + hex2(s.x) + " Y:"@ + hex2(s.y) + " P:"@ + hex2(s.p.bits)
        + " SP:"@ + hex2(s.sp)
}

/// The line for instruction `op` at the program counter: the address, the
/// instruction's bytes, its name and operand, filled up with spaces to 47
/// columns, then the registers.
pub open spec fn line_of(s: CpuState, op: OpCode) -> Seq<char> {
    let padding = spaces((DISASSEMBLY_WIDTH - OPERAND_COLUMN - operand_width(op)) as nat);
    hex4(s.pc) + "  "@ + byte_dump(s, op.len) + "  "@ + op.mnemonic@ + " "@ + operand_text(s, op)
        + padding + register_text(s)
}

/// The line for the instruction at the program counter, if the byte there
/// is an instruction.
pub open spec fn trace_line(s: CpuState) -> Option<Seq<char>> {
    match opcode_table(s.read(s.pc)) {
        Some(op) => Some(line_of(s, op)),
        None => None,
    }
}

/// A hexadecimal digit is one character.
pub proof fn lemma_hex_digit_len(d: int)
    ensures
        hex_digit(d).len() == 1,
{
    reveal_strlit("0");
    reveal_strlit("1");
    reveal_strlit("2");
    reveal_strlit("3");
    reveal_strlit("4");
    reveal_strlit("5");
    reveal_strlit("6");
    reveal_strlit("7");
    reveal_strlit("8");
    reveal_strlit("9");
    reveal_strlit("A");
    reveal_strlit("B");
    reveal_strlit("C");
    reveal_strlit("D");
    reveal_strlit("E");
    reveal_strlit("F");
}

/// A byte takes two columns, a word four.
pub proof fn lemma_hex_len(byte: u8, word: u16)
    ensures
        hex2(byte).len() == 2,
        hex4(word).len() == 4,
{
    lemma_hex_digit_len(byte as int / 16);
    lemma_hex_digit_len(byte as int % 16);
    lemma_hex_digit_len(high_byte(word) as int / 16);
    lemma_hex_digit_len(high_byte(word) as int % 16);
    lemma_hex_digit_len(low_byte(word) as int / 16);
    lemma_hex_digit_len(low_byte(word) as int % 16);
}

/// `spaces(n)` takes `n` columns.
pub proof fn lemma_spaces_len(n: nat)
    ensures
        spaces(n).len() == n,
    decreases n,
{
    reveal_strlit(" ");
    if n > 0 {
        lemma_spaces_len((n - 1) as nat);
    }
}

/// The instruction's bytes take eight columns.
pub proof fn lemma_byte_dump_len(s: CpuState, len: u8)
    ensures
        byte_dump(s, len).len() == 8,
{
    reveal_strlit(" ");
    lemma_hex_len(s.read(s.pc), 0);
    lemma_hex_len(s.read(addr_add(s.pc, 1)), 0);
    lemma_hex_len(s.read(addr_add(s.pc, 2)), 0);
    lemma_spaces_len(3);
    lemma_spaces_len(6);
}

/// The operand takes the columns that `operand_width` counts.
pub proof fn lemma_operand_text_len(s: CpuState, op: OpCode)
    ensures
        operand_text(s, op).len() == operand_width(op),
        operand_width(op) <= 26,
{
    reveal_strlit("#$");
    reveal_strlit("$");
    reveal_strlit(" = ");
    reveal_strlit(",X @ ");
    reveal_strlit(",Y @ ");
    reveal_strlit("($");
    reveal_strlit(",X) @ ");
    reveal_strlit("),Y = ");
    reveal_strlit(" @ ");
    reveal_strlit(") = ");
    reveal_strlit("A");
    let at = addr_add(s.pc, 1);
    let byte = s.read(at);
    let word = s.peek_u16(at);
    let target = s.operand_address_at(op.mode, at);
    let stored = s.read(target);
    lemma_hex_len(byte, word);
    lemma_hex_len(stored, target);
    lemma_hex_len(low_byte(target), branch_target(at, byte));
    lemma_hex_len(zp_add(byte, s.x as int), s.peek_zero_page_u16(byte));
    lemma_hex_len(0, s.jmp_indirect_target_at(at));
}

/// The registers take 26 columns.
pub proof fn lemma_register_text_len(s: CpuState)
    ensures
        register_text(s).len() == 26,
{
    reveal_strlit(" A:");
    reveal_strlit(" X:");
    reveal_strlit(" Y:");
    reveal_strlit(" P:");
    reveal_strlit(" SP:");
    lemma_hex_len(s.a, 0);
    lemma_hex_len(s.x, 0);
    lemma_hex_len(s.y, 0);
    lemma_hex_len(s.p.bits, 0);
    lemma_hex_len(s.sp, 0);
}

/// Every line is 73 columns wide, and the registers start at column 47:
/// the operand starts at column 20 and is filled up to there.
pub proof fn lemma_line_columns(s: CpuState)
    ensures
        trace_line(s) matches Some(line) ==> line.len() == 73 && line.subrange(47, 73)
            == register_text(s),
{
    if let Some(op) = opcode_table(s.read(s.pc)) {
        reveal_strlit("  ");
        reveal_strlit(" ");
        lemma_mnemonic_len(s.read(s.pc));
        lemma_hex_len(0, s.pc);
        lemma_byte_dump_len(s, op.len);
        lemma_operand_text_len(s, op);
        lemma_spaces_len((DISASSEMBLY_WIDTH - OPERAND_COLUMN - operand_width(op)) as nat);
        lemma_register_text_len(s);
        let padding = spaces((DISASSEMBLY_WIDTH - OPERAND_COLUMN - operand_width(op)) as nat);
        let head = hex4(s.pc) + "  "@ + byte_dump(s, op.len) + "  "@ + op.mnemonic@ + " "@
            + operand_text(s, op) + padding;
        assert(head.len() == 47);
        assert(line_of(s, op) == head + register_text(s));
        assert((head + register_text(s)).subrange(47, 73) =~= register_text(s));
    }
}

fn hex_str(d: u8) -> (digit: &'static str)
    requires
        d < 16,
    ensures
        digit@ == hex_digit(d as int),
{
    if d == 0 {
        "0"
    } else if d == 1 {
        "1"
    } else if d == 2 {
        "2"
    } else if d == 3 {
        "3"
    } else if d == 4 {
        "4"
    } else if d == 5 {
        "5"
    } else if d == 6 {
        "6"
    } else if d == 7 {
        "7"
    } else if d == 8 {
        "8"
    } else if d == 9 {
        "9"
    } else if d == 10 {
        "A"
    } else if d == 11 {
        "B"
    } else if d == 12 {
        "C"
    } else if d == 13 {
        "D"
    } else if d == 14 {
        "E"
    } else {
        "F"
    }
}

fn push_hex2(text: &mut String, v: u8)
    ensures
        final(text)@ == old(text)@ + hex2(v),
{
    text.append(hex_str(v / 16));
    text.append(hex_str(v % 16));
    assert(text@ =~= old(text)@ + hex2(v));
}

fn push_hex4(text: &mut String, v: u16)
    ensures
        final(text)@ == old(text)@ + hex4(v),
{
    push_hex2(text, (v / 256) as u8);
    push_hex2(text, (v % 256) as u8);
    assert(text@ =~= old(text)@ + hex4(v));
}

fn push_spaces(text: &mut String, n: u8)
    ensures
        final(text)@ == old(text)@ + spaces(n as nat),
{
    let mut i: u8 = 0;
    assert(text@ =~= old(text)@ + spaces(0));
    while i < n
        invariant
            i <= n,
            text@ == old(text)@ + spaces(i as nat),
        decreases n - i,
    {
        text.append(" ");
        i = i + 1;
        assert(text@ =~= old(text)@ + spaces(i as nat));
    }
}

fn push_byte_dump(text: &mut String, cpu: &CPU, len: u8)
    ensures
        final(text)@ == old(text)@ + byte_dump(cpu@, len),
{
    let pc: u16 = cpu.program_counter;
    proof {
        lemma_wrapping_u16(pc, 1);
        lemma_wrapping_u16(pc, 2);
    }
    push_hex2(text, cpu.peek(pc));
    if len == 2 {
        text.append(" ");
        push_hex2(text, cpu.peek(pc.wrapping_add(1)));
        push_spaces(text, 3);
    } else if len == 3 {
        text.append(" ");
        push_hex2(text, cpu.peek(pc.wrapping_add(1)));
        text.append(" ");
        push_hex2(text, cpu.peek(pc.wrapping_add(2)));
    } else {
        push_spaces(text, 6);
    }
    assert(text@ =~= old(text)@ + byte_dump(cpu@, len));
}

/// Where the indirect jump whose pointer is at `at` would go.
fn peek_jmp_indirect(cpu: &CPU, at: u16) -> (target: u16)
    ensures
        target == cpu@.jmp_indirect_target_at(at),
{
    let ptr: u16 = cpu.peek_u16(at);
    proof {
        lemma_word_masks(ptr);
    }
    if ptr & 0x00FF == 0x00FF {
        let lo: u8 = cpu.peek(ptr);
        let hi: u8 = cpu.peek(ptr & 0xFF00);
        proof {
            lemma_word_join(lo, hi);
        }
        (hi as u16) << 8 | (lo as u16)
    } else {
        cpu.peek_u16(ptr)
    }
}

fn push_immediate(text: &mut String, byte: u8)
    ensures
        final(text)@ == old(text)@ + immediate_text(byte),
{
    text.append("#$");
    push_hex2(text, byte);
    assert(text@ =~= old(text)@ + immediate_text(byte));
}

fn push_zero_page(text: &mut String, target: u8, stored: u8)
    ensures
        final(text)@ == old(text)@ + zero_page_text(target, stored),
{
    text.append("$");
    push_hex2(text, target);
    text.append(" = ");
    push_hex2(text, stored);
    assert(text@ =~= old(text)@ + zero_page_text(target, stored));
}

fn push_zero_page_indexed(text: &mut String, byte: u8, by_x: bool, target: u8, stored: u8)
    ensures
        final(text)@ == old(text)@ + zero_page_indexed_text(byte, by_x, target, stored),
{
    text.append("$");
    push_hex2(text, byte);
    if by_x {
        text.append(",X @ ");
    } else {
        text.append(",Y @ ");
    }
    push_hex2(text, target);
    text.append(" = ");
    push_hex2(text, stored);
    assert(text@ =~= old(text)@ + zero_page_indexed_text(byte, by_x, target, stored));
}

fn push_indirect_x(text: &mut String, byte: u8, pointer: u8, target: u16, stored: u8)
    ensures
        final(text)@ == old(text)@ + indirect_x_text(byte, pointer, target, stored),
{
    text.append("($");
    push_hex2(text, byte);
    text.append(",X) @ ");
    push_hex2(text, pointer);
    text.append(" = ");
    push_hex4(text, target);
    text.append(" = ");
    push_hex2(text, stored);
    assert(text@ =~= old(text)@ + indirect_x_text(byte, pointer, target, stored));
}

fn push_indirect_y(text: &mut String, byte: u8, base: u16, target: u16, stored: u8)
    ensures
        final(text)@ == old(text)@ + indirect_y_text(byte, base, target, stored),
{
    text.append("($");
    push_hex2(text, byte);
    text.append("),Y = ");
    push_hex4(text, base);
    text.append(" @ ");
    push_hex4(text, target);
    text.append(" = ");
    push_hex2(text, stored);
    assert(text@ =~= old(text)@ + indirect_y_text(byte, base, target, stored));
}

fn push_address(text: &mut String, target: u16)
    ensures
        final(text)@ == old(text)@ + address_text(target),
{
    text.append("$");
    push_hex4(text, target);
    assert(text@ =~= old(text)@ + address_text(target));
}

fn push_absolute(text: &mut String, target: u16, stored: u8)
    ensures
        final(text)@ == old(text)@ + absolute_text(target, stored),
{
    text.append("$");
    push_hex4(text, target);
    text.append(" = ");
    push_hex2(text, stored);
    assert(text@ =~= old(text)@ + absolute_text(target, stored));
}

fn push_absolute_indexed(text: &mut String, word: u16, by_x: bool, target: u16, stored: u8)
    ensures
        final(text)@ == old(text)@ + absolute_indexed_text(word, by_x, target, stored),
{
    text.append("$");
    push_hex4(text, word);
    if by_x {
        text.append(",X @ ");
    } else {
        text.append(",Y @ ");
    }
    push_hex4(text, target);
    text.append(" = ");
    push_hex2(text, stored);
    assert(text@ =~= old(text)@ + absolute_indexed_text(word, by_x, target, stored));
}

fn push_jmp_indirect(text: &mut String, pointer: u16, target: u16)
    ensures
        final(text)@ == old(text)@ + jmp_indirect_text(pointer, target),
{
    text.append("($");
    push_hex4(text, pointer);
    text.append(") = ");
    push_hex4(text, target);
    assert(text@ =~= old(text)@ + jmp_indirect_text(pointer, target));
}

/// Where the branch whose displacement `byte` is at `at` would go.
fn peek_branch_target(at: u16, byte: u8) -> (target: u16)
    ensures
        target == branch_target(at, byte),
{
    // The displacement as a 16-bit two's-complement number.
    let extended: u16 = if byte < 0x80 {
        byte as u16
    } else {
        0xff00 + byte as u16
    };
    proof {
        lemma_wrapping_u16(at, 1);
        lemma_wrapping_u16(at.wrapping_add(1), extended);
    }
    at.wrapping_add(1).wrapping_add(extended)
}

/// The word that the pointer at `byte` of the zero page holds.
fn peek_zero_page_u16(cpu: &CPU, byte: u8) -> (base: u16)
    ensures
        base == cpu@.peek_zero_page_u16(byte),
{
    let lo: u8 = cpu.peek(byte as u16);
    proof {
        lemma_wrapping_u8(byte, 1);
    }
    let hi: u8 = cpu.peek(byte.wrapping_add(1) as u16);
    proof {
        lemma_word_join(lo, hi);
    }
    (hi as u16) << 8 | (lo as u16)
}

/// Appends the operand of a two-byte instruction.
fn push_operand_2(text: &mut String, cpu: &CPU, op: &OpCode) -> (width: u8)
    requires
        op.len == 2,
    ensures
        final(text)@ == old(text)@ + operand_text(cpu@, *op),
        width == operand_width(*op),
{
    let pc: u16 = cpu.program_counter;
    proof {
        lemma_wrapping_u16(pc, 1);
    }
    let at: u16 = pc.wrapping_add(1);
    let byte: u8 = cpu.peek(at);
    let target: u16 = cpu.peek_operand_address(&op.mode, at);
    let stored: u8 = cpu.peek(target);
    match op.mode {
        AddressingMode::Immediate => {
            push_immediate(text, byte);
            4
        },
        AddressingMode::ZeroPage => {
            push_zero_page(text, (target % 256) as u8, stored);
            8
        },
        AddressingMode::ZeroPage_X => {
            push_zero_page_indexed(text, byte, true, (target % 256) as u8, stored);
            15
        },
        AddressingMode::ZeroPage_Y => {
            push_zero_page_indexed(text, byte, false, (target % 256) as u8, stored);
            15
        },
        AddressingMode::Indirect_X => {
            proof {
                lemma_wrapping_u8(byte, cpu.register_x);
            }
            push_indirect_x(text, byte, byte.wrapping_add(cpu.register_x), target, stored);
            24
        },
        AddressingMode::Indirect_Y => {
            let base: u16 = peek_zero_page_u16(cpu, byte);
            push_indirect_y(text, byte, base, target, stored);
            26
        },
        AddressingMode::NoneAddressing => {
            push_address(text, peek_branch_target(at, byte));
            5
        },
        _ => {
            assert(text@ =~= old(text)@ + operand_text(cpu@, *op));
            0
        },
    }
}

/// Appends the operand of a three-byte instruction.
fn push_operand_3(text: &mut String, cpu: &CPU, op: &OpCode) -> (width: u8)
    requires
        op.len == 3,
    ensures
        final(text)@ == old(text)@ + operand_text(cpu@, *op),
        width == operand_width(*op),
{
    let pc: u16 = cpu.program_counter;
    proof {
        lemma_wrapping_u16(pc, 1);
    }
    let at: u16 = pc.wrapping_add(1);
    let word: u16 = cpu.peek_u16(at);
    let target: u16 = cpu.peek_operand_address(&op.mode, at);
    let stored: u8 = cpu.peek(target);
    match op.mode {
        AddressingMode::NoneAddressing => {
            if op.code == 0x6c {
                push_jmp_indirect(text, word, peek_jmp_indirect(cpu, at));
                14
            } else {
                push_address(text, word);
                5
            }
        },
        AddressingMode::Absolute => {
            push_absolute(text, target, stored);
            10
        },
        AddressingMode::Absolute_X => {
            push_absolute_indexed(text, word, true, target, stored);
            19
        },
        AddressingMode::Absolute_Y => {
            push_absolute_indexed(text, word, false, target, stored);
            19
        },
        _ => {
            assert(text@ =~= old(text)@ + operand_text(cpu@, *op));
            0
        },
    }
}

/// Appends the operand of `op`; returns how many columns it took.
fn push_operand(text: &mut String, cpu: &CPU, op: &OpCode) -> (width: u8)
    ensures
        final(text)@ == old(text)@ + operand_text(cpu@, *op),
        width == operand_width(*op),
{
    if op.len == 2 {
        push_operand_2(text, cpu, op)
    } else if op.len == 3 {
        push_operand_3(text, cpu, op)
    } else if op.code == 0x0a || op.code == 0x4a || op.code == 0x2a || op.code == 0x6a {
        text.append("A");
        1
    } else {
        assert(text@ =~= old(text)@ + operand_text(cpu@, *op));
        0
    }
}

fn push_registers(text: &mut String, cpu: &CPU)
    ensures
        final(text)@ == old(text)@ + register_text(cpu@),
{
    text.append(" A:");
    push_hex2(text, cpu.register_a);
    text.append(" X:");
    push_hex2(text, cpu.register_x);
    text.append(" Y:");
    push_hex2(text, cpu.register_y);
    text.append(" P:");
    push_hex2(text, cpu.register_p.bits());
    text.append(" SP:");
    push_hex2(text, cpu.stack_pointer);
    assert(text@ =~= old(text)@ + register_text(cpu@));
}

/// The line for the instruction that `cpu` is about to fetch, or `None`
/// if the byte at the program counter is no instruction. Nothing is read
/// through the bus, so neither the processor nor anything behind the bus
/// changes.
pub fn trace(cpu: &CPU) -> (line: Option<String>)
    ensures
        match trace_line(cpu@) {
            Some(text) => line is Some && line->Some_0@ == text,
            None => line is None,
        },
{
    let code: u8 = cpu.peek(cpu.program_counter);
    match find_opcode(code) {
        None => None,
        Some(op) => {
            let mut text: String = String::new();
            push_hex4(&mut text, cpu.program_counter);
            text.append("  ");
            push_byte_dump(&mut text, cpu, op.len);
            text.append("  ");
            text.append(op.mnemonic);
            text.append(" ");
            let width: u8 = push_operand(&mut text, cpu, &op);
            push_spaces(&mut text, DISASSEMBLY_WIDTH - OPERAND_COLUMN - width);
            push_registers(&mut text, cpu);
            assert(text@ =~= line_of(cpu@, op));
            Some(text)
        },
    }
}

} // verus!
