use vstd::prelude::*;
use vstd::string::StringSliceAdditionalSpecFns;
use crate::cpu::gb_cpu::GbCpu;
use crate::mmu::{Memory, BusOp, log_extends, new_ops, bus_value, lemma_log_trans};
use crate::utils::stack_string::StackString;
use crate::utils::wrapping::{wrap16, wrapping_add16};

verus! {

pub const MAX_OPCODE_CHARS: usize = 12;

/// The text of a disassembled instruction.
pub type OpcodeStr = StackString<MAX_OPCODE_CHARS>;

/// A disassembled instruction and the address it was read from.
#[derive(Clone, Copy)]
pub struct OpcodeEntry {
    pub address: u16,
    pub string: OpcodeStr,
}

// ---------------------------------------------------------------------------------------------
// Numbers as text
// ---------------------------------------------------------------------------------------------

/// The ASCII digit of `d` (below 16) in base 16, in upper or lower case.
pub open spec fn hex_digit(d: nat, upper: bool) -> u8 {
    if d < 10 {
        (48 + d) as u8
    } else if upper {
        (55 + d) as u8
    } else {
        (87 + d) as u8
    }
}

/// The digits of `v` in base 16, without leading zeros (one digit for 0).
pub open spec fn hex_digits(v: nat, upper: bool) -> Seq<u8>
    decreases v,
{
    if v < 16 {
        seq![hex_digit(v, upper)]
    } else {
        hex_digits(v / 16, upper).push(hex_digit(v % 16, upper))
    }
}

/// `v` as the alternate hexadecimal forms write it (`{:#x}` in lower case, `{:#X}` in upper
/// case): `0x`, then the digits.
pub open spec fn alt_hex(v: nat, upper: bool) -> Seq<u8> {
    "0x".spec_bytes() + hex_digits(v, upper)
}

/// The digits of `v` in base 10, without leading zeros (one digit for 0).
pub open spec fn decimal_digits(v: nat) -> Seq<u8>
    decreases v,
{
    if v < 10 {
        seq![(48 + v) as u8]
    } else {
        decimal_digits(v / 10).push((48 + v % 10) as u8)
    }
}

/// `v` in base 10, with a minus sign when it is negative.
pub open spec fn signed_decimal(v: int) -> Seq<u8> {
    if v < 0 {
        "-".spec_bytes() + decimal_digits((-v) as nat)
    } else {
        decimal_digits(v as nat)
    }
}

fn push_str(out: &mut Vec<u8>, s: &str)
    ensures
        final(out)@ == old(out)@ + s.spec_bytes(),
{
    let bytes = s.as_bytes();
    out.extend_from_slice(bytes);
    assert(out@ =~= old(out)@ + s.spec_bytes());
}

fn hex_digit_byte(d: u16, upper: bool) -> (r: u8)
    requires
        d < 16,
    ensures
        r == hex_digit(d as nat, upper),
{
    if d < 10 {
        48 + d as u8
    } else if upper {
        55 + d as u8
    } else {
        87 + d as u8
    }
}

fn push_hex_digits(out: &mut Vec<u8>, v: u16, upper: bool)
    ensures
        final(out)@ == old(out)@ + hex_digits(v as nat, upper),
    decreases v,
{
    if v >= 16 {
        push_hex_digits(out, v / 16, upper);
    }
    out.push(hex_digit_byte(v % 16, upper));
    assert(out@ =~= old(out)@ + hex_digits(v as nat, upper));
}

/// Appends `v` as `{:#x}` (or `{:#X}` when `upper`) writes it.
fn push_alt_hex(out: &mut Vec<u8>, v: u16, upper: bool)
    ensures
        final(out)@ == old(out)@ + alt_hex(v as nat, upper),
{
    push_str(out, "0x");
    push_hex_digits(out, v, upper);
    assert(out@ =~= old(out)@ + alt_hex(v as nat, upper));
}

fn push_decimal_digits(out: &mut Vec<u8>, v: u16)
    ensures
        final(out)@ == old(out)@ + decimal_digits(v as nat),
    decreases v,
{
    if v >= 10 {
        push_decimal_digits(out, v / 10);
    }
    out.push(48 + (v % 10) as u8);
    assert(out@ =~= old(out)@ + decimal_digits(v as nat));
}

/// Appends `v` as `{}` writes it.
fn push_signed_decimal(out: &mut Vec<u8>, v: i8)
    ensures
        final(out)@ == old(out)@ + signed_decimal(v as int),
{
    if v < 0 {
        push_str(out, "-");
        push_decimal_digits(out, (0 - v as i16) as u16);
    } else {
        push_decimal_digits(out, v as u16);
    }
    assert(out@ =~= old(out)@ + signed_decimal(v as int));
}


/// A string slice as bytes.
fn text(s: &str) -> (t: Vec<u8>)
    ensures
        t@ == s.spec_bytes(),
{
    let mut t: Vec<u8> = Vec::new();
    push_str(&mut t, s);
    assert(t@ =~= s.spec_bytes());
    t
}

// ---------------------------------------------------------------------------------------------
// Operand names
// ---------------------------------------------------------------------------------------------

/// The name of 8 bit register `index` (6 is the byte that HL points to).
pub open spec fn r_register_name(index: u8) -> Seq<u8> {
    if index == 0 {
        "b".spec_bytes()
    } else if index == 1 {
        "c".spec_bytes()
    } else if index == 2 {
        "d".spec_bytes()
    } else if index == 3 {
        "e".spec_bytes()
    } else if index == 4 {
        "h".spec_bytes()
    } else if index == 5 {
        "l".spec_bytes()
    } else if index == 6 {
        "[hl]".spec_bytes()
    } else {
        "a".spec_bytes()
    }
}

/// The source register of an opcode: bits 0 to 2.
pub open spec fn src_register_name(opcode: u8) -> Seq<u8> {
    r_register_name(opcode & 0b111)
}

/// The destination register of an opcode: bits 3 to 5.
pub open spec fn dest_register_name(opcode: u8) -> Seq<u8> {
    r_register_name((opcode & 0b0011_1000) >> 3)
}

/// The condition of an opcode, from bits 3 and 4.
pub open spec fn cc_name(opcode: u8) -> Seq<u8> {
    let cc = (opcode & 0b1_1000) >> 3;
    if cc == 0 {
        "nz".spec_bytes()
    } else if cc == 1 {
        "nc".spec_bytes()
    } else if cc == 2 {
        "z".spec_bytes()
    } else {
        "c".spec_bytes()
    }
}

/// The 16 bit register of an opcode, from bits 4 and 5; the last one is SP or AF.
pub open spec fn rr_register_name(opcode: u8, use_sp: bool) -> Seq<u8> {
    let rr = (opcode & 0b0011_0000) >> 4;
    if rr == 0 {
        "bc".spec_bytes()
    } else if rr == 1 {
        "de".spec_bytes()
    } else if rr == 2 {
        "hl".spec_bytes()
    } else if use_sp {
        "sp".spec_bytes()
    } else {
        "af".spec_bytes()
    }
}

fn get_r_register(index: u8) -> (r: &'static str)
    ensures
        r.spec_bytes() == r_register_name(index),
{
    if index == 0 {
        "b"
    } else if index == 1 {
        "c"
    } else if index == 2 {
        "d"
    } else if index == 3 {
        "e"
    } else if index == 4 {
        "h"
    } else if index == 5 {
        "l"
    } else if index == 6 {
        "[hl]"
    } else {
        "a"
    }
}

fn get_src_register(opcode: u8) -> (r: &'static str)
    ensures
        r.spec_bytes() == src_register_name(opcode),
{
    get_r_register(opcode & 0b111)
}

fn get_dest_register(opcode: u8) -> (r: &'static str)
    ensures
        r.spec_bytes() == dest_register_name(opcode),
{
    get_r_register((opcode & 0b0011_1000) >> 3)
}

fn get_cc(opcode: u8) -> (r: &'static str)
    ensures
        r.spec_bytes() == cc_name(opcode),
{
    let cc = (opcode & 0b1_1000) >> 3;
    if cc == 0 {
        "nz"
    } else if cc == 1 {
        "nc"
    } else if cc == 2 {
        "z"
    } else {
        "c"
    }
}

fn get_rr_register(opcode: u8, use_sp: bool) -> (r: &'static str)
    ensures
        r.spec_bytes() == rr_register_name(opcode, use_sp),
{
    let rr = (opcode & 0b0011_0000) >> 4;
    if rr == 0 {
        "bc"
    } else if rr == 1 {
        "de"
    } else if rr == 2 {
        "hl"
    } else if use_sp {
        "sp"
    } else {
        "af"
    }
}


// ---------------------------------------------------------------------------------------------
// Instructions as text
// ---------------------------------------------------------------------------------------------

/// The bytes that an instruction takes: its opcode and the operands that follow it.
pub open spec fn instruction_len(opcode: u8) -> nat {
    if is_imm16_opcode(opcode) {
        3
    } else if is_imm8_opcode(opcode) {
        2
    } else {
        1
    }
}

/// The opcodes followed by a 16 bit operand.
pub open spec fn is_imm16_opcode(op: u8) -> bool {
    ||| op == 0x01 || op == 0x11 || op == 0x21 || op == 0x31
    ||| op == 0x08
    ||| op == 0xC2 || op == 0xCA || op == 0xD2 || op == 0xDA
    ||| op == 0xC3
    ||| op == 0xC4 || op == 0xCC || op == 0xD4 || op == 0xDC
    ||| op == 0xCD
    ||| op == 0xEA
    ||| op == 0xFA
}

/// The opcodes followed by one operand byte (the CB prefix is followed by its second opcode).
pub open spec fn is_imm8_opcode(op: u8) -> bool {
    ||| op == 0x06 || op == 0x0E || op == 0x16 || op == 0x1E || op == 0x26 || op == 0x2E
        || op == 0x36 || op == 0x3E
    ||| op == 0x18
    ||| op == 0x20 || op == 0x28 || op == 0x30 || op == 0x38
    ||| op == 0xC6 || op == 0xCE || op == 0xD6 || op == 0xDE || op == 0xE6 || op == 0xEE
        || op == 0xF6 || op == 0xFE
    ||| op == 0xCB
    ||| op == 0xE0 || op == 0xF0
    ||| op == 0xE8 || op == 0xF8
}

/// The text of a byte that is no opcode.
pub open spec fn unknown_text(opcode: u8) -> Seq<u8> {
    "unknown-".spec_bytes() + alt_hex(opcode as nat, true)
}

/// The text of an opcode from 0x00 to 0x3F with operand bytes `b1` and `b2`.
pub open spec fn misc_text(op: u8, b1: u8, b2: u8) -> Seq<u8> {
    let n16 = b1 as nat + 256 * (b2 as nat);
    if op == 0x00 {
        "nop".spec_bytes()
    } else if op == 0x01 || op == 0x11 || op == 0x21 || op == 0x31 {
        "ld ".spec_bytes() + rr_register_name(op, true) + ",".spec_bytes() + alt_hex(n16, true)
    } else if op == 0x02 || op == 0x12 {
        "ld ".spec_bytes() + rr_register_name(op, true) + ",a".spec_bytes()
    } else if op == 0x03 || op == 0x13 || op == 0x23 || op == 0x33 {
        "inc ".spec_bytes() + rr_register_name(op, true)
    } else if op == 0x04 || op == 0x0C || op == 0x14 || op == 0x1C || op == 0x24 || op == 0x2C
        || op == 0x34 || op == 0x3C {
        "inc ".spec_bytes() + dest_register_name(op)
    } else if op == 0x05 || op == 0x0D || op == 0x15 || op == 0x1D || op == 0x25 || op == 0x2D
        || op == 0x35 || op == 0x3D {
        "dec ".spec_bytes() + dest_register_name(op)
    } else if op == 0x06 || op == 0x0E || op == 0x16 || op == 0x1E || op == 0x26 || op == 0x2E
        || op == 0x36 || op == 0x3E {
        "ld ".spec_bytes() + dest_register_name(op) + ",".spec_bytes() + alt_hex(b1 as nat, true)
    } else if op == 0x07 {
        "rlca".spec_bytes()
    } else if op == 0x08 {
        "ld ".spec_bytes() + decimal_digits(n16) + ",sp".spec_bytes()
    } else if op == 0x09 || op == 0x19 || op == 0x29 || op == 0x39 {
        "add hl,".spec_bytes() + rr_register_name(op, true)
    } else if op == 0x0A || op == 0x1A {
        "ld a,".spec_bytes() + rr_register_name(op, true)
    } else if op == 0x0B || op == 0x1B || op == 0x2B || op == 0x3B {
        "dec ".spec_bytes() + rr_register_name(op, true)
    } else if op == 0x0F {
        "rrca".spec_bytes()
    } else if op == 0x10 {
        "stop".spec_bytes()
    } else if op == 0x17 {
        "rla".spec_bytes()
    } else if op == 0x18 {
        "jr ".spec_bytes() + signed_decimal((b1 as i8) as int)
    } else if op == 0x1F {
        "rra".spec_bytes()
    } else if op == 0x20 || op == 0x28 || op == 0x30 || op == 0x38 {
        "jr ".spec_bytes() + cc_name(op) + ",".spec_bytes() + signed_decimal((b1 as i8) as int)
    } else if op == 0x22 {
        "ldi hl,a".spec_bytes()
    } else if op == 0x27 {
        "daa".spec_bytes()
    } else if op == 0x2A {
        "ldi a,hl".spec_bytes()
    } else if op == 0x2F {
        "cpl".spec_bytes()
    } else if op == 0x32 {
        "ldd hl,a".spec_bytes()
    } else if op == 0x37 {
        "scf".spec_bytes()
    } else if op == 0x3A {
        "ldd a,hl".spec_bytes()
    } else if op == 0x3F {
        "ccf".spec_bytes()
    } else {
        unknown_text(op)
    }
}

/// The text of an opcode from 0x40 to 0xBF: the loads between registers, HALT, and the
/// arithmetic on A with a register.
pub open spec fn register_text(op: u8) -> Seq<u8> {
    if op == 0x76 {
        "halt".spec_bytes()
    } else if op < 0x80 {
        "ld ".spec_bytes() + dest_register_name(op) + ",".spec_bytes() + src_register_name(op)
    } else if op < 0x88 {
        "add a,".spec_bytes() + src_register_name(op)
    } else if op < 0x90 {
        "adc a,".spec_bytes() + src_register_name(op)
    } else if op < 0x98 {
        "sub a,".spec_bytes() + src_register_name(op)
    } else if op < 0xA0 {
        "sbc a,".spec_bytes() + src_register_name(op)
    } else if op < 0xA8 {
        "and a,".spec_bytes() + src_register_name(op)
    } else if op < 0xB0 {
        "xor a,".spec_bytes() + src_register_name(op)
    } else if op < 0xB8 {
        "or a,".spec_bytes() + src_register_name(op)
    } else {
        "cp a,".spec_bytes() + src_register_name(op)
    }
}

/// The address that an RST opcode calls.
pub open spec fn rst_address(op: u8) -> nat {
    (((op & 0b11_0000) >> 4) as nat) * 0x10 + if op & 0b1000 != 0 {
        8nat
    } else {
        0nat
    }
}

/// The bit that a CB opcode from 0x40 on tests, resets or sets.
pub open spec fn cb_bit_index(opcode: u8) -> u8 {
    (opcode & 0b11_1000) >> 3
}

/// The text of the second opcode of a CB prefixed instruction.
pub open spec fn cb_text(op: u8) -> Seq<u8> {
    if op < 0x08 {
        "rlc ".spec_bytes() + src_register_name(op)
    } else if op < 0x10 {
        "rrc ".spec_bytes() + src_register_name(op)
    } else if op < 0x18 {
        "rl ".spec_bytes() + src_register_name(op)
    } else if op < 0x20 {
        "rr ".spec_bytes() + src_register_name(op)
    } else if op < 0x28 {
        "sla ".spec_bytes() + src_register_name(op)
    } else if op < 0x30 {
        "sra ".spec_bytes() + src_register_name(op)
    } else if op < 0x38 {
        "swap ".spec_bytes() + src_register_name(op)
    } else if op < 0x40 {
        "srl ".spec_bytes() + src_register_name(op)
    } else if op < 0x80 {
        "bit ".spec_bytes() + decimal_digits(cb_bit_index(op) as nat) + ",".spec_bytes() + src_register_name(op)
    } else if op < 0xC0 {
        "res ".spec_bytes() + decimal_digits(cb_bit_index(op) as nat) + ",".spec_bytes() + src_register_name(op)
    } else {
        "set ".spec_bytes() + decimal_digits(cb_bit_index(op) as nat) + ",".spec_bytes() + src_register_name(op)
    }
}

/// The text of an opcode from 0xC0 to 0xFF with operand bytes `b1` and `b2`.
pub open spec fn control_text(op: u8, b1: u8, b2: u8) -> Seq<u8> {
    let n16 = b1 as nat + 256 * (b2 as nat);
    if op == 0xC0 || op == 0xC8 || op == 0xD0 || op == 0xD8 {
        "ret ".spec_bytes() + cc_name(op)
    } else if op == 0xC1 || op == 0xD1 || op == 0xE1 || op == 0xF1 {
        "pop ".spec_bytes() + rr_register_name(op, false)
    } else if op == 0xC2 || op == 0xCA || op == 0xD2 || op == 0xDA {
        "jp ".spec_bytes() + cc_name(op) + ",".spec_bytes() + alt_hex(n16, true)
    } else if op == 0xC3 {
        "jp ".spec_bytes() + alt_hex(n16, true)
    } else if op == 0xC4 || op == 0xCC || op == 0xD4 || op == 0xDC {
        "call ".spec_bytes() + cc_name(op) + ",".spec_bytes() + alt_hex(n16, true)
    } else if op == 0xC5 || op == 0xD5 || op == 0xE5 || op == 0xF5 {
        "push ".spec_bytes() + rr_register_name(op, false)
    } else if op == 0xC6 {
        "add a,".spec_bytes() + alt_hex(b1 as nat, false)
    } else if op == 0xC7 || op == 0xCF || op == 0xD7 || op == 0xDF || op == 0xE7 || op == 0xEF
        || op == 0xF7 || op == 0xFF {
        "rst ".spec_bytes() + alt_hex(rst_address(op), true)
    } else if op == 0xC9 {
        "ret".spec_bytes()
    } else if op == 0xCB {
        cb_text(b1)
    } else if op == 0xCD {
        "call ".spec_bytes() + alt_hex(n16, true)
    } else if op == 0xCE {
        "adc a,".spec_bytes() + alt_hex(b1 as nat, false)
    } else if op == 0xD6 {
        "sub a,".spec_bytes() + alt_hex(b1 as nat, false)
    } else if op == 0xD9 {
        "reti".spec_bytes()
    } else if op == 0xDE {
        "sbc a,".spec_bytes() + alt_hex(b1 as nat, false)
    } else if op == 0xE0 {
        "ldio ".spec_bytes() + alt_hex(b1 as nat, true) + ",a".spec_bytes()
    } else if op == 0xE2 {
        "ldio c,a".spec_bytes()
    } else if op == 0xE6 {
        "and a,".spec_bytes() + alt_hex(b1 as nat, false)
    } else if op == 0xE8 {
        "add sp,".spec_bytes() + signed_decimal((b1 as i8) as int)
    } else if op == 0xE9 {
        "jp hl".spec_bytes()
    } else if op == 0xEA {
        "ld ".spec_bytes() + alt_hex(n16, true) + ",a".spec_bytes()
    } else if op == 0xEE {
        "xor a,".spec_bytes() + alt_hex(b1 as nat, false)
    } else if op == 0xF0 {
        "ldio a,".spec_bytes() + alt_hex(b1 as nat, true)
    } else if op == 0xF2 {
        "ldio a,c".spec_bytes()
    } else if op == 0xF3 {
        "di".spec_bytes()
    } else if op == 0xF6 {
        "or a,".spec_bytes() + alt_hex(b1 as nat, false)
    } else if op == 0xF8 {
        "ld hl,sp+".spec_bytes() + signed_decimal((b1 as i8) as int)
    } else if op == 0xF9 {
        "ld sp,hl".spec_bytes()
    } else if op == 0xFA {
        "ld a,".spec_bytes() + alt_hex(n16, true)
    } else if op == 0xFB {
        "ei".spec_bytes()
    } else if op == 0xFE {
        "cp a,".spec_bytes() + alt_hex(b1 as nat, false)
    } else {
        unknown_text(op)
    }
}

/// The text of the instruction made of `opcode` and the operand bytes `b1` and `b2` that follow
/// it (only those that `instruction_len` counts are read).
pub open spec fn instruction_text(opcode: u8, b1: u8, b2: u8) -> Seq<u8> {
    if opcode < 0x40 {
        misc_text(opcode, b1, b2)
    } else if opcode < 0xC0 {
        register_text(opcode)
    } else {
        control_text(opcode, b1, b2)
    }
}

/// What an entry shows of a text: the text, cut to its first `MAX_OPCODE_CHARS` bytes.
pub open spec fn shown(t: Seq<u8>) -> Seq<u8> {
    if t.len() <= MAX_OPCODE_CHARS {
        t
    } else {
        t.subrange(0, MAX_OPCODE_CHARS as int)
    }
}

fn instruction_length(opcode: u8) -> (n: u8)
    ensures
        n == instruction_len(opcode),
{
    if opcode == 0x01 || opcode == 0x11 || opcode == 0x21 || opcode == 0x31 || opcode == 0x08
        || opcode == 0xC2 || opcode == 0xCA || opcode == 0xD2 || opcode == 0xDA || opcode == 0xC3
        || opcode == 0xC4 || opcode == 0xCC || opcode == 0xD4 || opcode == 0xDC || opcode == 0xCD
        || opcode == 0xEA || opcode == 0xFA {
        3
    } else if opcode == 0x06 || opcode == 0x0E || opcode == 0x16 || opcode == 0x1E || opcode == 0x26
        || opcode == 0x2E || opcode == 0x36 || opcode == 0x3E || opcode == 0x18 || opcode == 0x20
        || opcode == 0x28 || opcode == 0x30 || opcode == 0x38 || opcode == 0xC6 || opcode == 0xCE
        || opcode == 0xD6 || opcode == 0xDE || opcode == 0xE6 || opcode == 0xEE || opcode == 0xF6
        || opcode == 0xFE || opcode == 0xCB || opcode == 0xE0 || opcode == 0xF0 || opcode == 0xE8
        || opcode == 0xF8 {
        2
    } else {
        1
    }
}

fn unknown(opcode: u8) -> (t: Vec<u8>)
    ensures
        t@ == unknown_text(opcode),
{
    let mut t = text("unknown-");
    push_alt_hex(&mut t, opcode as u16, true);
    t
}


fn misc_instruction(op: u8, b1: u8, b2: u8) -> (t: Vec<u8>)
    requires
        op < 0x40,
    ensures
        t@ == misc_text(op, b1, b2),
{
    let n16: u16 = b1 as u16 + (b2 as u16) * 256;
    if op == 0x00 {
        let mut t = text("nop");
        t
    } else if op == 0x01 || op == 0x11 || op == 0x21 || op == 0x31 {
        let mut t = text("ld ");
        push_str(&mut t, get_rr_register(op, true));
        push_str(&mut t, ",");
        push_alt_hex(&mut t, n16, true);
        t
    } else if op == 0x02 || op == 0x12 {
        let mut t = text("ld ");
        push_str(&mut t, get_rr_register(op, true));
        push_str(&mut t, ",a");
        t
    } else if op == 0x03 || op == 0x13 || op == 0x23 || op == 0x33 {
        let mut t = text("inc ");
        push_str(&mut t, get_rr_register(op, true));
        t
    } else if op == 0x04 || op == 0x0C || op == 0x14 || op == 0x1C || op == 0x24 || op == 0x2C || op == 0x34 || op == 0x3C {
        let mut t = text("inc ");
        push_str(&mut t, get_dest_register(op));
        t
    } else if op == 0x05 || op == 0x0D || op == 0x15 || op == 0x1D || op == 0x25 || op == 0x2D || op == 0x35 || op == 0x3D {
        let mut t = text("dec ");
        push_str(&mut t, get_dest_register(op));
        t
    } else if op == 0x06 || op == 0x0E || op == 0x16 || op == 0x1E || op == 0x26 || op == 0x2E || op == 0x36 || op == 0x3E {
        let mut t = text("ld ");
        push_str(&mut t, get_dest_register(op));
        push_str(&mut t, ",");
        push_alt_hex(&mut t, b1 as u16, true);
        t
    } else if op == 0x07 {
        let mut t = text("rlca");
        t
    } else if op == 0x08 {
        let mut t = text("ld ");
        push_decimal_digits(&mut t, n16);
        push_str(&mut t, ",sp");
        t
    } else if op == 0x09 || op == 0x19 || op == 0x29 || op == 0x39 {
        let mut t = text("add hl,");
        push_str(&mut t, get_rr_register(op, true));
        t
    } else if op == 0x0A || op == 0x1A {
        let mut t = text("ld a,");
        push_str(&mut t, get_rr_register(op, true));
        t
    } else if op == 0x0B || op == 0x1B || op == 0x2B || op == 0x3B {
        let mut t = text("dec ");
        push_str(&mut t, get_rr_register(op, true));
        t
    } else if op == 0x0F {
        let mut t = text("rrca");
        t
    } else if op == 0x10 {
        let mut t = text("stop");
        t
    } else if op == 0x17 {
        let mut t = text("rla");
        t
    } else if op == 0x18 {
        let mut t = text("jr ");
        push_signed_decimal(&mut t, b1 as i8);
        t
    } else if op == 0x1F {
        let mut t = text("rra");
        t
    } else if op == 0x20 || op == 0x28 || op == 0x30 || op == 0x38 {
        let mut t = text("jr ");
        push_str(&mut t, get_cc(op));
        push_str(&mut t, ",");
        push_signed_decimal(&mut t, b1 as i8);
        t
    } else if op == 0x22 {
        let mut t = text("ldi hl,a");
        t
    } else if op == 0x27 {
        let mut t = text("daa");
        t
    } else if op == 0x2A {
        let mut t = text("ldi a,hl");
        t
    } else if op == 0x2F {
        let mut t = text("cpl");
        t
    } else if op == 0x32 {
        let mut t = text("ldd hl,a");
        t
    } else if op == 0x37 {
        let mut t = text("scf");
        t
    } else if op == 0x3A {
        let mut t = text("ldd a,hl");
        t
    } else if op == 0x3F {
        let mut t = text("ccf");
        t
    } else {
        unknown(op)
    }
}

fn register_instruction(op: u8) -> (t: Vec<u8>)
    requires
        0x40 <= op < 0xC0,
    ensures
        t@ == register_text(op),
{
    if op == 0x76 {
        let mut t = text("halt");
        t
    } else if op < 0x80 {
        let mut t = text("ld ");
        push_str(&mut t, get_dest_register(op));
        push_str(&mut t, ",");
        push_str(&mut t, get_src_register(op));
        t
    } else if op < 0x88 {
        let mut t = text("add a,");
        push_str(&mut t, get_src_register(op));
        t
    } else if op < 0x90 {
        let mut t = text("adc a,");
        push_str(&mut t, get_src_register(op));
        t
    } else if op < 0x98 {
        let mut t = text("sub a,");
        push_str(&mut t, get_src_register(op));
        t
    } else if op < 0xA0 {
        let mut t = text("sbc a,");
        push_str(&mut t, get_src_register(op));
        t
    } else if op < 0xA8 {
        let mut t = text("and a,");
        push_str(&mut t, get_src_register(op));
        t
    } else if op < 0xB0 {
        let mut t = text("xor a,");
        push_str(&mut t, get_src_register(op));
        t
    } else if op < 0xB8 {
        let mut t = text("or a,");
        push_str(&mut t, get_src_register(op));
        t
    } else {
        let mut t = text("cp a,");
        push_str(&mut t, get_src_register(op));
        t
    }
}

fn cb_prefix(op: u8) -> (t: Vec<u8>)
    ensures
        t@ == cb_text(op),
{
    if op < 0x08 {
        let mut t = text("rlc ");
        push_str(&mut t, get_src_register(op));
        t
    } else if op < 0x10 {
        let mut t = text("rrc ");
        push_str(&mut t, get_src_register(op));
        t
    } else if op < 0x18 {
        let mut t = text("rl ");
        push_str(&mut t, get_src_register(op));
        t
    } else if op < 0x20 {
        let mut t = text("rr ");
        push_str(&mut t, get_src_register(op));
        t
    } else if op < 0x28 {
        let mut t = text("sla ");
        push_str(&mut t, get_src_register(op));
        t
    } else if op < 0x30 {
        let mut t = text("sra ");
        push_str(&mut t, get_src_register(op));
        t
    } else if op < 0x38 {
        let mut t = text("swap ");
        push_str(&mut t, get_src_register(op));
        t
    } else if op < 0x40 {
        let mut t = text("srl ");
        push_str(&mut t, get_src_register(op));
        t
    } else if op < 0x80 {
        let mut t = text("bit ");
        push_decimal_digits(&mut t, ((op & 0b11_1000) >> 3) as u16);
        push_str(&mut t, ",");
        push_str(&mut t, get_src_register(op));
        t
    } else if op < 0xC0 {
        let mut t = text("res ");
        push_decimal_digits(&mut t, ((op & 0b11_1000) >> 3) as u16);
        push_str(&mut t, ",");
        push_str(&mut t, get_src_register(op));
        t
    } else {
        let mut t = text("set ");
        push_decimal_digits(&mut t, ((op & 0b11_1000) >> 3) as u16);
        push_str(&mut t, ",");
        push_str(&mut t, get_src_register(op));
        t
    }
}

fn rst(op: u8) -> (t: Vec<u8>)
    ensures
        t@ == "rst ".spec_bytes() + alt_hex(rst_address(op), true),
{
    let mut address: u16 = (((op & 0b11_0000) >> 4) as u16) * 0x10;
    if (op & 0b1000) != 0 {
        address = address + 0x8;
    }
    let mut t = text("rst ");
    push_alt_hex(&mut t, address, true);
    t
}

fn control_instruction(op: u8, b1: u8, b2: u8) -> (t: Vec<u8>)
    requires
        op >= 0xC0,
    ensures
        t@ == control_text(op, b1, b2),
{
    let n16: u16 = b1 as u16 + (b2 as u16) * 256;
    if op == 0xC0 || op == 0xC8 || op == 0xD0 || op == 0xD8 {
        let mut t = text("ret ");
        push_str(&mut t, get_cc(op));
        t
    } else if op == 0xC1 || op == 0xD1 || op == 0xE1 || op == 0xF1 {
        let mut t = text("pop ");
        push_str(&mut t, get_rr_register(op, false));
        t
    } else if op == 0xC2 || op == 0xCA || op == 0xD2 || op == 0xDA {
        let mut t = text("jp ");
        push_str(&mut t, get_cc(op));
        push_str(&mut t, ",");
        push_alt_hex(&mut t, n16, true);
        t
    } else if op == 0xC3 {
        let mut t = text("jp ");
        push_alt_hex(&mut t, n16, true);
        t
    } else if op == 0xC4 || op == 0xCC || op == 0xD4 || op == 0xDC {
        let mut t = text("call ");
        push_str(&mut t, get_cc(op));
        push_str(&mut t, ",");
        push_alt_hex(&mut t, n16, true);
        t
    } else if op == 0xC5 || op == 0xD5 || op == 0xE5 || op == 0xF5 {
        let mut t = text("push ");
        push_str(&mut t, get_rr_register(op, false));
        t
    } else if op == 0xC6 {
        let mut t = text("add a,");
        push_alt_hex(&mut t, b1 as u16, false);
        t
    } else if op == 0xC7 || op == 0xCF || op == 0xD7 || op == 0xDF || op == 0xE7 || op == 0xEF || op == 0xF7 || op == 0xFF {
        rst(op)
    } else if op == 0xC9 {
        let mut t = text("ret");
        t
    } else if op == 0xCB {
        cb_prefix(b1)
    } else if op == 0xCD {
        let mut t = text("call ");
        push_alt_hex(&mut t, n16, true);
        t
    } else if op == 0xCE {
        let mut t = text("adc a,");
        push_alt_hex(&mut t, b1 as u16, false);
        t
    } else if op == 0xD6 {
        let mut t = text("sub a,");
        push_alt_hex(&mut t, b1 as u16, false);
        t
    } else if op == 0xD9 {
        let mut t = text("reti");
        t
    } else if op == 0xDE {
        let mut t = text("sbc a,");
        push_alt_hex(&mut t, b1 as u16, false);
        t
    } else if op == 0xE0 {
        let mut t = text("ldio ");
        push_alt_hex(&mut t, b1 as u16, true);
        push_str(&mut t, ",a");
        t
    } else if op == 0xE2 {
        let mut t = text("ldio c,a");
        t
    } else if op == 0xE6 {
        let mut t = text("and a,");
        push_alt_hex(&mut t, b1 as u16, false);
        t
    } else if op == 0xE8 {
        let mut t = text("add sp,");
        push_signed_decimal(&mut t, b1 as i8);
        t
    } else if op == 0xE9 {
        let mut t = text("jp hl");
        t
    } else if op == 0xEA {
        let mut t = text("ld ");
        push_alt_hex(&mut t, n16, true);
        push_str(&mut t, ",a");
        t
    } else if op == 0xEE {
        let mut t = text("xor a,");
        push_alt_hex(&mut t, b1 as u16, false);
        t
    } else if op == 0xF0 {
        let mut t = text("ldio a,");
        push_alt_hex(&mut t, b1 as u16, true);
        t
    } else if op == 0xF2 {
        let mut t = text("ldio a,c");
        t
    } else if op == 0xF3 {
        let mut t = text("di");
        t
    } else if op == 0xF6 {
        let mut t = text("or a,");
        push_alt_hex(&mut t, b1 as u16, false);
        t
    } else if op == 0xF8 {
        let mut t = text("ld hl,sp+");
        push_signed_decimal(&mut t, b1 as i8);
        t
    } else if op == 0xF9 {
        let mut t = text("ld sp,hl");
        t
    } else if op == 0xFA {
        let mut t = text("ld a,");
        push_alt_hex(&mut t, n16, true);
        t
    } else if op == 0xFB {
        let mut t = text("ei");
        t
    } else if op == 0xFE {
        let mut t = text("cp a,");
        push_alt_hex(&mut t, b1 as u16, false);
        t
    } else {
        unknown(op)
    }
}

/// The text of the instruction made of `opcode` and the operand bytes `b1` and `b2`.
fn instruction(opcode: u8, b1: u8, b2: u8) -> (t: Vec<u8>)
    ensures
        t@ == instruction_text(opcode, b1, b2),
{
    if opcode < 0x40 {
        misc_instruction(opcode, b1, b2)
    } else if opcode < 0xC0 {
        register_instruction(opcode)
    } else {
        control_instruction(opcode, b1, b2)
    }
}


// ---------------------------------------------------------------------------------------------
// Reading instructions
// ---------------------------------------------------------------------------------------------

/// The values that the accesses carried.
pub open spec fn op_values(ops: Seq<BusOp>) -> Seq<u8> {
    Seq::new(ops.len(), |i: int| bus_value(ops[i]))
}

/// The bytes that the accesses between two states of a log read.
pub open spec fn read_bytes(old_log: Seq<BusOp>, new_log: Seq<BusOp>) -> Seq<u8> {
    op_values(new_ops(old_log, new_log))
}

/// The accesses read the bytes from `pc` on, one after the other (wrapping around at the end
/// of the address space), taking no m-cycles.
pub open spec fn reads_from(ops: Seq<BusOp>, pc: u16) -> bool {
    forall|i: int|
        0 <= i < ops.len() ==> #[trigger] ops[i] == BusOp::Read {
            address: wrap16(pc + i),
            m_cycles: 0,
            value: bus_value(ops[i]),
        }
}

/// The text of the instruction made of `bytes`: its opcode and its operands.
pub open spec fn text_of(bytes: Seq<u8>) -> Seq<u8> {
    instruction_text(
        bytes[0],
        if bytes.len() >= 2 { bytes[1] } else { 0 },
        if bytes.len() >= 3 { bytes[2] } else { 0 },
    )
}

/// Where instruction `i` starts in `bytes`, a run of instructions.
pub open spec fn instruction_offset(bytes: Seq<u8>, i: nat) -> nat
    decreases i,
{
    if i == 0 {
        0
    } else {
        let k = instruction_offset(bytes, (i - 1) as nat);
        k + instruction_len(bytes[k as int])
    }
}

/// Entry `i` of a disassembly of the instructions in `bytes`, read from `pc` on: the address
/// of the instruction, and its text as far as it fits.
pub open spec fn entry_matches(entry: OpcodeEntry, pc: u16, bytes: Seq<u8>, i: nat) -> bool {
    let start = instruction_offset(bytes, i);
    let end = instruction_offset(bytes, i + 1);
    &&& entry.address == wrap16(pc + start)
    &&& entry.string.wf()
    &&& entry.string@ == shown(text_of(bytes.subrange(start as int, end as int)))
}

/// Each instruction takes at least a byte.
proof fn lemma_offset_grows(bytes: Seq<u8>, j: nat, i: nat)
    requires
        j <= i,
    ensures
        instruction_offset(bytes, j) + (i - j) <= instruction_offset(bytes, i),
    decreases i,
{
    if j < i {
        lemma_offset_grows(bytes, j, (i - 1) as nat);
    }
}

/// Where an instruction starts depends only on the bytes before it.
proof fn lemma_offset_prefix(a: Seq<u8>, b: Seq<u8>, i: nat)
    requires
        a.len() <= b.len(),
        b.subrange(0, a.len() as int) == a,
        instruction_offset(a, i) <= a.len(),
    ensures
        instruction_offset(b, i) == instruction_offset(a, i),
    decreases i,
{
    if i > 0 {
        lemma_offset_grows(a, (i - 1) as nat, i);
        lemma_offset_prefix(a, b, (i - 1) as nat);
        let k = instruction_offset(a, (i - 1) as nat);
        assert(b.subrange(0, a.len() as int)[k as int] == b[k as int]);
    }
}

proof fn lemma_wrap16_add(p: int, d: int)
    requires
        0 <= p,
        0 <= d < 0x1_0000,
    ensures
        wrap16(wrap16(p) + d) == wrap16(p + d),
{
    vstd::arithmetic::div_mod::lemma_add_mod_noop(p, d, 0x1_0000);
    vstd::arithmetic::div_mod::lemma_small_mod(d as nat, 0x1_0000);
    vstd::arithmetic::div_mod::lemma_mod_pos_bound(p, 0x1_0000);
}

fn read_memory<M: Memory>(memory: &mut M, pc: &mut u16) -> (val: u8)
    ensures
        final(memory).bus_log() == old(memory).bus_log().push(
            BusOp::Read { address: *old(pc), m_cycles: 0, value: val },
        ),
        *final(pc) == wrap16(*old(pc) + 1),
{
    let val = memory.read(*pc, 0);
    *pc = wrapping_add16(*pc, 1);
    val
}

/// Reads the instruction at `pc` (its opcode, then its operands) and moves `pc` past it.
fn disassemble_instruction<M: Memory>(memory: &mut M, pc: &mut u16) -> (t: Vec<u8>)
    ensures
        log_extends(old(memory).bus_log(), final(memory).bus_log()),
        reads_from(new_ops(old(memory).bus_log(), final(memory).bus_log()), *old(pc)),
        new_ops(old(memory).bus_log(), final(memory).bus_log()).len() == instruction_len(
            read_bytes(old(memory).bus_log(), final(memory).bus_log())[0],
        ),
        *final(pc) == wrap16(*old(pc) + new_ops(old(memory).bus_log(), final(memory).bus_log()).len()),
        t@ == text_of(read_bytes(old(memory).bus_log(), final(memory).bus_log())),
{
    let ghost log0 = memory.bus_log();
    let ghost pc0 = *pc;
    let opcode = read_memory(memory, pc);
    let ghost r0 = BusOp::Read { address: pc0, m_cycles: 0, value: opcode };
    let len = instruction_length(opcode);
    let mut b1: u8 = 0;
    let mut b2: u8 = 0;
    let ghost mut ops = seq![r0];
    if len >= 2 {
        let ghost pc1 = *pc;
        b1 = read_memory(memory, pc);
        proof {
            ops = ops.push(BusOp::Read { address: pc1, m_cycles: 0, value: b1 });
            lemma_wrap16_add(pc0 as int, 1);
        }
    }
    if len >= 3 {
        let ghost pc2 = *pc;
        b2 = read_memory(memory, pc);
        proof {
            ops = ops.push(BusOp::Read { address: pc2, m_cycles: 0, value: b2 });
            lemma_wrap16_add(pc0 as int + 1, 1);
        }
    }
    proof {
        assert(memory.bus_log() =~= log0 + ops);
        assert(new_ops(log0, memory.bus_log()) =~= ops);
        assert(memory.bus_log().subrange(0, log0.len() as int) =~= log0);
        assert(read_bytes(log0, memory.bus_log())[0] == opcode);
        if len >= 2 {
            assert(read_bytes(log0, memory.bus_log())[1] == b1);
        }
        if len >= 3 {
            assert(read_bytes(log0, memory.bus_log())[2] == b2);
        }
    }
    instruction(opcode, b1, b2)
}

/// An entry's text from the full text of an instruction.
fn shown_text(t: &Vec<u8>) -> (s: OpcodeStr)
    ensures
        s.wf(),
        s@ == shown(t@),
{
    let n: usize = if t.len() <= MAX_OPCODE_CHARS { t.len() } else { MAX_OPCODE_CHARS };
    let mut s = StackString::<MAX_OPCODE_CHARS>::default();
    assert(s.wf() && s@.len() == 0);
    s.append(vstd::slice::slice_subrange(t.as_slice(), 0, n));
    assert(s@ =~= shown(t@));
    s
}


/// Disassembles `opcodes_number` instructions from the program counter on, reading them through
/// the memory bus. Entry `i` holds the address of instruction `i` and its text, cut to
/// `MAX_OPCODE_CHARS` bytes when it is longer.
pub fn disassemble<M: Memory>(cpu: &GbCpu, memory: &mut M, opcodes_number: u8) -> (r: Vec<OpcodeEntry>)
    ensures
        log_extends(old(memory).bus_log(), final(memory).bus_log()),
        reads_from(new_ops(old(memory).bus_log(), final(memory).bus_log()), cpu.program_counter),
        instruction_offset(read_bytes(old(memory).bus_log(), final(memory).bus_log()), opcodes_number as nat)
            == new_ops(old(memory).bus_log(), final(memory).bus_log()).len(),
        r@.len() == opcodes_number,
        forall|i: int|
            0 <= i < opcodes_number ==> entry_matches(
                #[trigger] r@[i],
                cpu.program_counter,
                read_bytes(old(memory).bus_log(), final(memory).bus_log()),
                i as nat,
            ),
{
    let ghost log0 = memory.bus_log();
    let ghost pc0 = cpu.program_counter;
    let mut disassembled_opcodes: Vec<OpcodeEntry> = Vec::new();
    let mut pc = cpu.program_counter;
    let mut i: u8 = 0;
    proof {
        crate::mmu::lemma_log_refl(log0);
    }
    while i < opcodes_number
        invariant
            i <= opcodes_number,
            pc0 == cpu.program_counter,
            log_extends(log0, memory.bus_log()),
            reads_from(new_ops(log0, memory.bus_log()), pc0),
            instruction_offset(read_bytes(log0, memory.bus_log()), i as nat) == new_ops(log0, memory.bus_log()).len(),
            pc == wrap16(pc0 + new_ops(log0, memory.bus_log()).len()),
            disassembled_opcodes@.len() == i,
            forall|j: int|
                0 <= j < i ==> entry_matches(#[trigger] disassembled_opcodes@[j], pc0, read_bytes(log0, memory.bus_log()), j as nat),
        decreases opcodes_number - i,
    {
        let ghost log1 = memory.bus_log();
        let ghost before = read_bytes(log0, log1);
        let address = pc;
        let t = disassemble_instruction(memory, &mut pc);
        let string = shown_text(&t);
        disassembled_opcodes.push(OpcodeEntry { address, string });
        proof {
            let log2 = memory.bus_log();
            let ops1 = new_ops(log0, log1);
            let ops2 = new_ops(log1, log2);
            let len1 = ops1.len();
            lemma_log_trans(log0, log1, log2);
            let after = read_bytes(log0, log2);
            assert(after =~= before + op_values(ops2));
            assert(after.subrange(0, before.len() as int) =~= before);
            assert(after.subrange(len1 as int, (len1 + ops2.len()) as int) =~= op_values(ops2));
            assert forall|k: int| 0 <= k < new_ops(log0, log2).len() implies #[trigger] new_ops(log0, log2)[k]
                == BusOp::Read { address: wrap16(pc0 + k), m_cycles: 0, value: bus_value(new_ops(log0, log2)[k]) } by {
                if k >= len1 {
                    assert(new_ops(log0, log2)[k] == ops2[k - len1]);
                    lemma_wrap16_add(pc0 + len1, k - len1);
                } else {
                    assert(new_ops(log0, log2)[k] == ops1[k]);
                }
            }
            lemma_offset_prefix(before, after, i as nat);
            assert(instruction_offset(after, (i + 1) as nat) == len1 + ops2.len());
            lemma_wrap16_add(pc0 + len1, ops2.len() as int);
            assert forall|j: int| 0 <= j < i + 1 implies entry_matches(
                #[trigger] disassembled_opcodes@[j], pc0, after, j as nat) by {
                if j < i {
                    lemma_offset_grows(before, (j + 1) as nat, i as nat);
                    lemma_offset_grows(before, j as nat, (j + 1) as nat);
                    lemma_offset_prefix(before, after, j as nat);
                    lemma_offset_prefix(before, after, (j + 1) as nat);
                    let start = instruction_offset(before, j as nat);
                    let end = instruction_offset(before, (j + 1) as nat);
                    assert(after.subrange(start as int, end as int) =~= before.subrange(start as int, end as int));
                }
            }
        }
        i = i + 1;
    }
    disassembled_opcodes
}

/// The right shifts of the CB opcodes: 0x28 to 0x2F are the arithmetic shift, whose text
/// starts with the ASCII bytes of "sra ", and 0x38 to 0x3F the logical shift, whose text starts
/// with those of "srl "; so the two never show the same text. This holds of the instruction at
/// the start of any bytes the disassembler reads.
pub proof fn lemma_shift_right_texts(op: u8, b2: u8, bytes: Seq<u8>)
    ensures
        0x28 <= op < 0x30 ==> instruction_text(0xCB, op, b2).subrange(0, 4) == seq![0x73u8, 0x72u8, 0x61u8, 0x20u8],
        0x38 <= op < 0x40 ==> instruction_text(0xCB, op, b2).subrange(0, 4) == seq![0x73u8, 0x72u8, 0x6Cu8, 0x20u8],
        bytes.len() >= 2 && bytes[0] == 0xCB && 0x28 <= bytes[1] < 0x30 ==> text_of(bytes).subrange(0, 4) == seq![
            0x73u8,
            0x72u8,
            0x61u8,
            0x20u8,
        ],
        bytes.len() >= 2 && bytes[0] == 0xCB && 0x38 <= bytes[1] < 0x40 ==> text_of(bytes).subrange(0, 4) == seq![
            0x73u8,
            0x72u8,
            0x6Cu8,
            0x20u8,
        ],
{
    reveal_strlit("sra ");
    reveal_strlit("srl ");
    assert(vstd::string::is_ascii("sra "));
    assert(vstd::string::is_ascii("srl "));
    vstd::string::is_ascii_spec_bytes("sra ");
    vstd::string::is_ascii_spec_bytes("srl ");
    let sra = "sra ".spec_bytes();
    let srl = "srl ".spec_bytes();
    assert(sra =~= seq![0x73u8, 0x72u8, 0x61u8, 0x20u8]);
    assert(srl =~= seq![0x73u8, 0x72u8, 0x6Cu8, 0x20u8]);
    assert forall|o: u8, t: Seq<u8>| 0x28 <= o < 0x30 && t == src_register_name(o) implies (sra + t).subrange(0, 4) =~= sra by {}
    assert forall|o: u8, t: Seq<u8>| 0x38 <= o < 0x40 && t == src_register_name(o) implies (srl + t).subrange(0, 4) =~= srl by {}
    if 0x28 <= op < 0x30 {
        assert(instruction_text(0xCB, op, b2) == sra + src_register_name(op));
    }
    if 0x38 <= op < 0x40 {
        assert(instruction_text(0xCB, op, b2) == srl + src_register_name(op));
    }
    if bytes.len() >= 2 && bytes[0] == 0xCB && (0x28 <= bytes[1] < 0x30 || 0x38 <= bytes[1] < 0x40) {
        let b3: u8 = if bytes.len() >= 3 { bytes[2] } else { 0 };
        assert(text_of(bytes) == instruction_text(0xCB, bytes[1], b3));
        if 0x28 <= bytes[1] < 0x30 {
            assert(instruction_text(0xCB, bytes[1], b3) == sra + src_register_name(bytes[1]));
        } else {
            assert(instruction_text(0xCB, bytes[1], b3) == srl + src_register_name(bytes[1]));
        }
    }
}

/// The ASCII text of a register, by its number in an opcode: b, c, d, e, h, l, [hl], a.
pub open spec fn register_letters(index: int) -> Seq<u8> {
    if index == 0 {
        seq![0x62u8]
    } else if index == 1 {
        seq![0x63u8]
    } else if index == 2 {
        seq![0x64u8]
    } else if index == 3 {
        seq![0x65u8]
    } else if index == 4 {
        seq![0x68u8]
    } else if index == 5 {
        seq![0x6Cu8]
    } else if index == 6 {
        seq![0x5Bu8, 0x68u8, 0x6Cu8, 0x5Du8]
    } else {
        seq![0x61u8]
    }
}

/// The ASCII mnemonic, with the space after it, of the group of a CB opcode: rlc, rrc, rl,
/// rr, sla, sra, swap and srl by eights up to 0x3F, then bit, res and set by sixty-fours.
pub open spec fn cb_mnemonic(op: u8) -> Seq<u8> {
    if op / 8 == 0 {
        seq![0x72u8, 0x6Cu8, 0x63u8, 0x20u8]
    } else if op / 8 == 1 {
        seq![0x72u8, 0x72u8, 0x63u8, 0x20u8]
    } else if op / 8 == 2 {
        seq![0x72u8, 0x6Cu8, 0x20u8]
    } else if op / 8 == 3 {
        seq![0x72u8, 0x72u8, 0x20u8]
    } else if op / 8 == 4 {
        seq![0x73u8, 0x6Cu8, 0x61u8, 0x20u8]
    } else if op / 8 == 5 {
        seq![0x73u8, 0x72u8, 0x61u8, 0x20u8]
    } else if op / 8 == 6 {
        seq![0x73u8, 0x77u8, 0x61u8, 0x70u8, 0x20u8]
    } else if op / 8 == 7 {
        seq![0x73u8, 0x72u8, 0x6Cu8, 0x20u8]
    } else if op < 0x80 {
        seq![0x62u8, 0x69u8, 0x74u8, 0x20u8]
    } else if op < 0xC0 {
        seq![0x72u8, 0x65u8, 0x73u8, 0x20u8]
    } else {
        seq![0x73u8, 0x65u8, 0x74u8, 0x20u8]
    }
}

/// The registers' names are their ASCII letters.
proof fn lemma_register_letters(index: u8)
    requires
        index < 8,
    ensures
        r_register_name(index) == register_letters(index as int),
{
    reveal_strlit("b");
    reveal_strlit("c");
    reveal_strlit("d");
    reveal_strlit("e");
    reveal_strlit("h");
    reveal_strlit("l");
    reveal_strlit("[hl]");
    reveal_strlit("a");
    assert(vstd::string::is_ascii("b"));
    vstd::string::is_ascii_spec_bytes("b");
    assert("b".spec_bytes() =~= seq![0x62u8]);
    assert(vstd::string::is_ascii("c"));
    vstd::string::is_ascii_spec_bytes("c");
    assert("c".spec_bytes() =~= seq![0x63u8]);
    assert(vstd::string::is_ascii("d"));
    vstd::string::is_ascii_spec_bytes("d");
    assert("d".spec_bytes() =~= seq![0x64u8]);
    assert(vstd::string::is_ascii("e"));
    vstd::string::is_ascii_spec_bytes("e");
    assert("e".spec_bytes() =~= seq![0x65u8]);
    assert(vstd::string::is_ascii("h"));
    vstd::string::is_ascii_spec_bytes("h");
    assert("h".spec_bytes() =~= seq![0x68u8]);
    assert(vstd::string::is_ascii("l"));
    vstd::string::is_ascii_spec_bytes("l");
    assert("l".spec_bytes() =~= seq![0x6Cu8]);
    assert(vstd::string::is_ascii("[hl]"));
    vstd::string::is_ascii_spec_bytes("[hl]");
    assert("[hl]".spec_bytes() =~= seq![0x5Bu8, 0x68u8, 0x6Cu8, 0x5Du8]);
    assert(vstd::string::is_ascii("a"));
    vstd::string::is_ascii_spec_bytes("a");
    assert("a".spec_bytes() =~= seq![0x61u8]);
}

/// The CB mnemonics are their ASCII letters.
proof fn lemma_cb_mnemonic_bytes()
    ensures
        "rlc ".spec_bytes() == seq![0x72u8, 0x6Cu8, 0x63u8, 0x20u8],
        "rrc ".spec_bytes() == seq![0x72u8, 0x72u8, 0x63u8, 0x20u8],
        "rl ".spec_bytes() == seq![0x72u8, 0x6Cu8, 0x20u8],
        "rr ".spec_bytes() == seq![0x72u8, 0x72u8, 0x20u8],
        "sla ".spec_bytes() == seq![0x73u8, 0x6Cu8, 0x61u8, 0x20u8],
        "sra ".spec_bytes() == seq![0x73u8, 0x72u8, 0x61u8, 0x20u8],
        "swap ".spec_bytes() == seq![0x73u8, 0x77u8, 0x61u8, 0x70u8, 0x20u8],
        "srl ".spec_bytes() == seq![0x73u8, 0x72u8, 0x6Cu8, 0x20u8],
        "bit ".spec_bytes() == seq![0x62u8, 0x69u8, 0x74u8, 0x20u8],
        "res ".spec_bytes() == seq![0x72u8, 0x65u8, 0x73u8, 0x20u8],
        "set ".spec_bytes() == seq![0x73u8, 0x65u8, 0x74u8, 0x20u8],
{
    reveal_strlit("rlc ");
    assert(vstd::string::is_ascii("rlc "));
    vstd::string::is_ascii_spec_bytes("rlc ");
    assert("rlc ".spec_bytes() =~= seq![0x72u8, 0x6Cu8, 0x63u8, 0x20u8]);
    reveal_strlit("rrc ");
    assert(vstd::string::is_ascii("rrc "));
    vstd::string::is_ascii_spec_bytes("rrc ");
    assert("rrc ".spec_bytes() =~= seq![0x72u8, 0x72u8, 0x63u8, 0x20u8]);
    reveal_strlit("rl ");
    assert(vstd::string::is_ascii("rl "));
    vstd::string::is_ascii_spec_bytes("rl ");
    assert("rl ".spec_bytes() =~= seq![0x72u8, 0x6Cu8, 0x20u8]);
    reveal_strlit("rr ");
    assert(vstd::string::is_ascii("rr "));
    vstd::string::is_ascii_spec_bytes("rr ");
    assert("rr ".spec_bytes() =~= seq![0x72u8, 0x72u8, 0x20u8]);
    reveal_strlit("sla ");
    assert(vstd::string::is_ascii("sla "));
    vstd::string::is_ascii_spec_bytes("sla ");
    assert("sla ".spec_bytes() =~= seq![0x73u8, 0x6Cu8, 0x61u8, 0x20u8]);
    reveal_strlit("sra ");
    assert(vstd::string::is_ascii("sra "));
    vstd::string::is_ascii_spec_bytes("sra ");
    assert("sra ".spec_bytes() =~= seq![0x73u8, 0x72u8, 0x61u8, 0x20u8]);
    reveal_strlit("swap ");
    assert(vstd::string::is_ascii("swap "));
    vstd::string::is_ascii_spec_bytes("swap ");
    assert("swap ".spec_bytes() =~= seq![0x73u8, 0x77u8, 0x61u8, 0x70u8, 0x20u8]);
    reveal_strlit("srl ");
    assert(vstd::string::is_ascii("srl "));
    vstd::string::is_ascii_spec_bytes("srl ");
    assert("srl ".spec_bytes() =~= seq![0x73u8, 0x72u8, 0x6Cu8, 0x20u8]);
    reveal_strlit("bit ");
    assert(vstd::string::is_ascii("bit "));
    vstd::string::is_ascii_spec_bytes("bit ");
    assert("bit ".spec_bytes() =~= seq![0x62u8, 0x69u8, 0x74u8, 0x20u8]);
    reveal_strlit("res ");
    assert(vstd::string::is_ascii("res "));
    vstd::string::is_ascii_spec_bytes("res ");
    assert("res ".spec_bytes() =~= seq![0x72u8, 0x65u8, 0x73u8, 0x20u8]);
    reveal_strlit("set ");
    assert(vstd::string::is_ascii("set "));
    vstd::string::is_ascii_spec_bytes("set ");
    assert("set ".spec_bytes() =~= seq![0x73u8, 0x65u8, 0x74u8, 0x20u8]);
}

/// The text of a CB prefixed instruction, byte by byte: the mnemonic of the opcode's group
/// (see `cb_mnemonic`), then for the bit, res and set groups the bit number (bits 3 to 5 of
/// the opcode) as a digit and a comma, then the register that bits 0 to 2 name (see
/// `register_letters`). So each opcode shows its own operation on its own register: CB 0x2F
/// is "sra a" and CB 0x3F is "srl a".
pub proof fn lemma_cb_texts(op: u8)
    ensures
        cb_text(op) == if op < 0x40 {
            cb_mnemonic(op) + register_letters((op % 8) as int)
        } else {
            cb_mnemonic(op) + seq![(48 + (op / 8) % 8) as u8, 0x2Cu8] + register_letters((op % 8) as int)
        },
{
    crate::cpu::opcodes::arithmetic_8bit_instructions::lemma_alu_bits(op, 0, 0, false, false, false, false);
    lemma_register_letters(op & 0b111);
    lemma_cb_mnemonic_bytes();
    reveal_strlit(",");
    assert(vstd::string::is_ascii(","));
    vstd::string::is_ascii_spec_bytes(",");
    assert(",".spec_bytes() =~= seq![0x2Cu8]);
    if op >= 0x40 {
        let d = cb_bit_index(op) as nat;
        assert(d == (op / 8) % 8);
        assert(decimal_digits(d) == seq![(48 + d) as u8]);
        assert(cb_text(op) =~= cb_mnemonic(op) + seq![(48 + (op / 8) % 8) as u8, 0x2Cu8] + register_letters((op % 8) as int));
    } else {
        assert(cb_text(op) =~= cb_mnemonic(op) + register_letters((op % 8) as int));
    }
}

/// The ASCII mnemonic of an arithmetic opcode's row (0x80 to 0xBF, by eights): "add a,",
/// "adc a,", "sub a,", "sbc a,", "and a,", "xor a,", "or a," and "cp a,".
pub open spec fn alu_mnemonic(op: u8) -> Seq<u8> {
    if (op - 0x80) / 8 == 0 {
        seq![0x61u8, 0x64u8, 0x64u8, 0x20u8, 0x61u8, 0x2Cu8]
    } else if (op - 0x80) / 8 == 1 {
        seq![0x61u8, 0x64u8, 0x63u8, 0x20u8, 0x61u8, 0x2Cu8]
    } else if (op - 0x80) / 8 == 2 {
        seq![0x73u8, 0x75u8, 0x62u8, 0x20u8, 0x61u8, 0x2Cu8]
    } else if (op - 0x80) / 8 == 3 {
        seq![0x73u8, 0x62u8, 0x63u8, 0x20u8, 0x61u8, 0x2Cu8]
    } else if (op - 0x80) / 8 == 4 {
        seq![0x61u8, 0x6Eu8, 0x64u8, 0x20u8, 0x61u8, 0x2Cu8]
    } else if (op - 0x80) / 8 == 5 {
        seq![0x78u8, 0x6Fu8, 0x72u8, 0x20u8, 0x61u8, 0x2Cu8]
    } else if (op - 0x80) / 8 == 6 {
        seq![0x6Fu8, 0x72u8, 0x20u8, 0x61u8, 0x2Cu8]
    } else {
        seq![0x63u8, 0x70u8, 0x20u8, 0x61u8, 0x2Cu8]
    }
}

/// The text of an opcode from 0x40 to 0xBF, byte by byte: "halt" for 0x76; else "ld ", the
/// register that bits 3 to 5 name, a comma and the one that bits 0 to 2 name, up to 0x7F; else
/// the mnemonic of the arithmetic row and the register that bits 0 to 2 name (see
/// `alu_mnemonic` and `register_letters`). So 0xAF shows "xor a,a".
pub proof fn lemma_register_texts(op: u8, b1: u8, b2: u8)
    requires
        0x40 <= op < 0xC0,
    ensures
        instruction_text(op, b1, b2) == if op == 0x76 {
            seq![0x68u8, 0x61u8, 0x6Cu8, 0x74u8]
        } else if op < 0x80 {
            seq![0x6Cu8, 0x64u8, 0x20u8] + register_letters(((op / 8) % 8) as int) + seq![0x2Cu8] + register_letters((op % 8) as int)
        } else {
            alu_mnemonic(op) + register_letters((op % 8) as int)
        },
{
    crate::cpu::opcodes::arithmetic_8bit_instructions::lemma_alu_bits(op, 0, 0, false, false, false, false);
    lemma_register_letters(op & 0b111);
    lemma_register_letters((op & 0b0011_1000) >> 3);
    reveal_strlit("halt");
    assert(vstd::string::is_ascii("halt"));
    vstd::string::is_ascii_spec_bytes("halt");
    assert("halt".spec_bytes() =~= seq![0x68u8, 0x61u8, 0x6Cu8, 0x74u8]);
    reveal_strlit("ld ");
    assert(vstd::string::is_ascii("ld "));
    vstd::string::is_ascii_spec_bytes("ld ");
    assert("ld ".spec_bytes() =~= seq![0x6Cu8, 0x64u8, 0x20u8]);
    reveal_strlit(",");
    assert(vstd::string::is_ascii(","));
    vstd::string::is_ascii_spec_bytes(",");
    assert(",".spec_bytes() =~= seq![0x2Cu8]);
    reveal_strlit("add a,");
    assert(vstd::string::is_ascii("add a,"));
    vstd::string::is_ascii_spec_bytes("add a,");
    assert("add a,".spec_bytes() =~= seq![0x61u8, 0x64u8, 0x64u8, 0x20u8, 0x61u8, 0x2Cu8]);
    reveal_strlit("adc a,");
    assert(vstd::string::is_ascii("adc a,"));
    vstd::string::is_ascii_spec_bytes("adc a,");
    assert("adc a,".spec_bytes() =~= seq![0x61u8, 0x64u8, 0x63u8, 0x20u8, 0x61u8, 0x2Cu8]);
    reveal_strlit("sub a,");
    assert(vstd::string::is_ascii("sub a,"));
    vstd::string::is_ascii_spec_bytes("sub a,");
    assert("sub a,".spec_bytes() =~= seq![0x73u8, 0x75u8, 0x62u8, 0x20u8, 0x61u8, 0x2Cu8]);
    reveal_strlit("sbc a,");
    assert(vstd::string::is_ascii("sbc a,"));
    vstd::string::is_ascii_spec_bytes("sbc a,");
    assert("sbc a,".spec_bytes() =~= seq![0x73u8, 0x62u8, 0x63u8, 0x20u8, 0x61u8, 0x2Cu8]);
    reveal_strlit("and a,");
    assert(vstd::string::is_ascii("and a,"));
    vstd::string::is_ascii_spec_bytes("and a,");
    assert("and a,".spec_bytes() =~= seq![0x61u8, 0x6Eu8, 0x64u8, 0x20u8, 0x61u8, 0x2Cu8]);
    reveal_strlit("xor a,");
    assert(vstd::string::is_ascii("xor a,"));
    vstd::string::is_ascii_spec_bytes("xor a,");
    assert("xor a,".spec_bytes() =~= seq![0x78u8, 0x6Fu8, 0x72u8, 0x20u8, 0x61u8, 0x2Cu8]);
    reveal_strlit("or a,");
    assert(vstd::string::is_ascii("or a,"));
    vstd::string::is_ascii_spec_bytes("or a,");
    assert("or a,".spec_bytes() =~= seq![0x6Fu8, 0x72u8, 0x20u8, 0x61u8, 0x2Cu8]);
    reveal_strlit("cp a,");
    assert(vstd::string::is_ascii("cp a,"));
    vstd::string::is_ascii_spec_bytes("cp a,");
    assert("cp a,".spec_bytes() =~= seq![0x63u8, 0x70u8, 0x20u8, 0x61u8, 0x2Cu8]);
    assert(instruction_text(op, b1, b2) == register_text(op));
    if op == 0x76 {
    } else if op < 0x80 {
        assert(register_text(op) =~= seq![0x6Cu8, 0x64u8, 0x20u8] + register_letters(((op / 8) % 8) as int) + seq![0x2Cu8]
            + register_letters((op % 8) as int));
    } else {
        assert(register_text(op) =~= alu_mnemonic(op) + register_letters((op % 8) as int));
    }
}

/// The ASCII texts of the opcodes below 0x40 that take no operand.
pub open spec fn plain_text(op: u8) -> Seq<u8> {
    if op == 0x00 {
        seq![0x6Eu8, 0x6Fu8, 0x70u8]
    } else if op == 0x07 {
        seq![0x72u8, 0x6Cu8, 0x63u8, 0x61u8]
    } else if op == 0x0F {
        seq![0x72u8, 0x72u8, 0x63u8, 0x61u8]
    } else if op == 0x10 {
        seq![0x73u8, 0x74u8, 0x6Fu8, 0x70u8]
    } else if op == 0x17 {
        seq![0x72u8, 0x6Cu8, 0x61u8]
    } else if op == 0x1F {
        seq![0x72u8, 0x72u8, 0x61u8]
    } else if op == 0x22 {
        seq![0x6Cu8, 0x64u8, 0x69u8, 0x20u8, 0x68u8, 0x6Cu8, 0x2Cu8, 0x61u8]
    } else if op == 0x27 {
        seq![0x64u8, 0x61u8, 0x61u8]
    } else if op == 0x2A {
        seq![0x6Cu8, 0x64u8, 0x69u8, 0x20u8, 0x61u8, 0x2Cu8, 0x68u8, 0x6Cu8]
    } else if op == 0x2F {
        seq![0x63u8, 0x70u8, 0x6Cu8]
    } else if op == 0x32 {
        seq![0x6Cu8, 0x64u8, 0x64u8, 0x20u8, 0x68u8, 0x6Cu8, 0x2Cu8, 0x61u8]
    } else if op == 0x37 {
        seq![0x73u8, 0x63u8, 0x66u8]
    } else if op == 0x3A {
        seq![0x6Cu8, 0x64u8, 0x64u8, 0x20u8, 0x61u8, 0x2Cu8, 0x68u8, 0x6Cu8]
    } else if op == 0x3F {
        seq![0x63u8, 0x63u8, 0x66u8]
    } else {
        seq![]
    }
}

/// The text of the opcodes below 0x40 without an operand is their mnemonic (see
/// `plain_text`), and that of INC r and DEC r (0x04 + 8 r and 0x05 + 8 r) is "inc " or "dec "
/// and the register that bits 3 to 5 name (see `register_letters`).
pub proof fn lemma_misc_texts(op: u8, b1: u8, b2: u8)
    requires
        op < 0x40,
    ensures
        plain_text(op).len() > 0 ==> instruction_text(op, b1, b2) == plain_text(op),
        op % 8 == 4 ==> instruction_text(op, b1, b2) == seq![0x69u8, 0x6Eu8, 0x63u8, 0x20u8] + register_letters(((op / 8) % 8) as int),
        op % 8 == 5 ==> instruction_text(op, b1, b2) == seq![0x64u8, 0x65u8, 0x63u8, 0x20u8] + register_letters(((op / 8) % 8) as int),
{
    crate::cpu::opcodes::arithmetic_8bit_instructions::lemma_alu_bits(op, 0, 0, false, false, false, false);
    lemma_register_letters((op & 0b0011_1000) >> 3);
    reveal_strlit("nop");
    assert(vstd::string::is_ascii("nop"));
    vstd::string::is_ascii_spec_bytes("nop");
    assert("nop".spec_bytes() =~= seq![0x6Eu8, 0x6Fu8, 0x70u8]);
    reveal_strlit("rlca");
    assert(vstd::string::is_ascii("rlca"));
    vstd::string::is_ascii_spec_bytes("rlca");
    assert("rlca".spec_bytes() =~= seq![0x72u8, 0x6Cu8, 0x63u8, 0x61u8]);
    reveal_strlit("rrca");
    assert(vstd::string::is_ascii("rrca"));
    vstd::string::is_ascii_spec_bytes("rrca");
    assert("rrca".spec_bytes() =~= seq![0x72u8, 0x72u8, 0x63u8, 0x61u8]);
    reveal_strlit("stop");
    assert(vstd::string::is_ascii("stop"));
    vstd::string::is_ascii_spec_bytes("stop");
    assert("stop".spec_bytes() =~= seq![0x73u8, 0x74u8, 0x6Fu8, 0x70u8]);
    reveal_strlit("rla");
    assert(vstd::string::is_ascii("rla"));
    vstd::string::is_ascii_spec_bytes("rla");
    assert("rla".spec_bytes() =~= seq![0x72u8, 0x6Cu8, 0x61u8]);
    reveal_strlit("rra");
    assert(vstd::string::is_ascii("rra"));
    vstd::string::is_ascii_spec_bytes("rra");
    assert("rra".spec_bytes() =~= seq![0x72u8, 0x72u8, 0x61u8]);
    reveal_strlit("ldi hl,a");
    assert(vstd::string::is_ascii("ldi hl,a"));
    vstd::string::is_ascii_spec_bytes("ldi hl,a");
    assert("ldi hl,a".spec_bytes() =~= seq![0x6Cu8, 0x64u8, 0x69u8, 0x20u8, 0x68u8, 0x6Cu8, 0x2Cu8, 0x61u8]);
    reveal_strlit("daa");
    assert(vstd::string::is_ascii("daa"));
    vstd::string::is_ascii_spec_bytes("daa");
    assert("daa".spec_bytes() =~= seq![0x64u8, 0x61u8, 0x61u8]);
    reveal_strlit("ldi a,hl");
    assert(vstd::string::is_ascii("ldi a,hl"));
    vstd::string::is_ascii_spec_bytes("ldi a,hl");
    assert("ldi a,hl".spec_bytes() =~= seq![0x6Cu8, 0x64u8, 0x69u8, 0x20u8, 0x61u8, 0x2Cu8, 0x68u8, 0x6Cu8]);
    reveal_strlit("cpl");
    assert(vstd::string::is_ascii("cpl"));
    vstd::string::is_ascii_spec_bytes("cpl");
    assert("cpl".spec_bytes() =~= seq![0x63u8, 0x70u8, 0x6Cu8]);
    reveal_strlit("ldd hl,a");
    assert(vstd::string::is_ascii("ldd hl,a"));
    vstd::string::is_ascii_spec_bytes("ldd hl,a");
    assert("ldd hl,a".spec_bytes() =~= seq![0x6Cu8, 0x64u8, 0x64u8, 0x20u8, 0x68u8, 0x6Cu8, 0x2Cu8, 0x61u8]);
    reveal_strlit("scf");
    assert(vstd::string::is_ascii("scf"));
    vstd::string::is_ascii_spec_bytes("scf");
    assert("scf".spec_bytes() =~= seq![0x73u8, 0x63u8, 0x66u8]);
    reveal_strlit("ldd a,hl");
    assert(vstd::string::is_ascii("ldd a,hl"));
    vstd::string::is_ascii_spec_bytes("ldd a,hl");
    assert("ldd a,hl".spec_bytes() =~= seq![0x6Cu8, 0x64u8, 0x64u8, 0x20u8, 0x61u8, 0x2Cu8, 0x68u8, 0x6Cu8]);
    reveal_strlit("ccf");
    assert(vstd::string::is_ascii("ccf"));
    vstd::string::is_ascii_spec_bytes("ccf");
    assert("ccf".spec_bytes() =~= seq![0x63u8, 0x63u8, 0x66u8]);
    reveal_strlit("inc ");
    assert(vstd::string::is_ascii("inc "));
    vstd::string::is_ascii_spec_bytes("inc ");
    assert("inc ".spec_bytes() =~= seq![0x69u8, 0x6Eu8, 0x63u8, 0x20u8]);
    reveal_strlit("dec ");
    assert(vstd::string::is_ascii("dec "));
    vstd::string::is_ascii_spec_bytes("dec ");
    assert("dec ".spec_bytes() =~= seq![0x64u8, 0x65u8, 0x63u8, 0x20u8]);
    assert(instruction_text(op, b1, b2) == misc_text(op, b1, b2));
}

/// The ASCII mnemonic that starts the text of an opcode from 0xC0 to 0xFF that takes an
/// operand or a condition (empty for the others).
pub open spec fn control_prefix(op: u8) -> Seq<u8> {
    if op == 0xC0 || op == 0xC8 || op == 0xD0 || op == 0xD8 {
        seq![0x72u8, 0x65u8, 0x74u8, 0x20u8]
    } else if op == 0xC1 || op == 0xD1 || op == 0xE1 || op == 0xF1 {
        seq![0x70u8, 0x6Fu8, 0x70u8, 0x20u8]
    } else if op == 0xC2 || op == 0xCA || op == 0xD2 || op == 0xDA || op == 0xC3 {
        seq![0x6Au8, 0x70u8, 0x20u8]
    } else if op == 0xC4 || op == 0xCC || op == 0xD4 || op == 0xDC || op == 0xCD {
        seq![0x63u8, 0x61u8, 0x6Cu8, 0x6Cu8, 0x20u8]
    } else if op == 0xC5 || op == 0xD5 || op == 0xE5 || op == 0xF5 {
        seq![0x70u8, 0x75u8, 0x73u8, 0x68u8, 0x20u8]
    } else if op == 0xC6 {
        seq![0x61u8, 0x64u8, 0x64u8, 0x20u8, 0x61u8, 0x2Cu8]
    } else if op >= 0xC0 && op % 8 == 7 {
        seq![0x72u8, 0x73u8, 0x74u8, 0x20u8]
    } else if op == 0xCE {
        seq![0x61u8, 0x64u8, 0x63u8, 0x20u8, 0x61u8, 0x2Cu8]
    } else if op == 0xD6 {
        seq![0x73u8, 0x75u8, 0x62u8, 0x20u8, 0x61u8, 0x2Cu8]
    } else if op == 0xDE {
        seq![0x73u8, 0x62u8, 0x63u8, 0x20u8, 0x61u8, 0x2Cu8]
    } else if op == 0xE0 {
        seq![0x6Cu8, 0x64u8, 0x69u8, 0x6Fu8, 0x20u8]
    } else if op == 0xE6 {
        seq![0x61u8, 0x6Eu8, 0x64u8, 0x20u8, 0x61u8, 0x2Cu8]
    } else if op == 0xE8 {
        seq![0x61u8, 0x64u8, 0x64u8, 0x20u8, 0x73u8, 0x70u8, 0x2Cu8]
    } else if op == 0xEA {
        seq![0x6Cu8, 0x64u8, 0x20u8]
    } else if op == 0xEE {
        seq![0x78u8, 0x6Fu8, 0x72u8, 0x20u8, 0x61u8, 0x2Cu8]
    } else if op == 0xF0 {
        seq![0x6Cu8, 0x64u8, 0x69u8, 0x6Fu8, 0x20u8, 0x61u8, 0x2Cu8]
    } else if op == 0xF6 {
        seq![0x6Fu8, 0x72u8, 0x20u8, 0x61u8, 0x2Cu8]
    } else if op == 0xF8 {
        seq![0x6Cu8, 0x64u8, 0x20u8, 0x68u8, 0x6Cu8, 0x2Cu8, 0x73u8, 0x70u8, 0x2Bu8]
    } else if op == 0xFA {
        seq![0x6Cu8, 0x64u8, 0x20u8, 0x61u8, 0x2Cu8]
    } else if op == 0xFE {
        seq![0x63u8, 0x70u8, 0x20u8, 0x61u8, 0x2Cu8]
    } else {
        seq![]
    }
}

/// The ASCII texts of the opcodes from 0xC0 to 0xFF that take no operand (empty for the others).
pub open spec fn control_plain_text(op: u8) -> Seq<u8> {
    if op == 0xC9 {
        seq![0x72u8, 0x65u8, 0x74u8]
    } else if op == 0xD9 {
        seq![0x72u8, 0x65u8, 0x74u8, 0x69u8]
    } else if op == 0xE2 {
        seq![0x6Cu8, 0x64u8, 0x69u8, 0x6Fu8, 0x20u8, 0x63u8, 0x2Cu8, 0x61u8]
    } else if op == 0xE9 {
        seq![0x6Au8, 0x70u8, 0x20u8, 0x68u8, 0x6Cu8]
    } else if op == 0xF2 {
        seq![0x6Cu8, 0x64u8, 0x69u8, 0x6Fu8, 0x20u8, 0x61u8, 0x2Cu8, 0x63u8]
    } else if op == 0xF3 {
        seq![0x64u8, 0x69u8]
    } else if op == 0xF9 {
        seq![0x6Cu8, 0x64u8, 0x20u8, 0x73u8, 0x70u8, 0x2Cu8, 0x68u8, 0x6Cu8]
    } else if op == 0xFB {
        seq![0x65u8, 0x69u8]
    } else {
        seq![]
    }
}

/// The text of an opcode from 0xC0 to 0xFF starts with its mnemonic (see `control_prefix`:
/// "ret ", "pop ", "jp ", "call ", "push ", "rst ", "add a,", "adc a,", "sub a,", "sbc a,",
/// "and a,", "xor a,", "or a,", "cp a,", "add sp,", "ld hl,sp+", "ldio ", "ldio a,", "ld ",
/// "ld a,") and is, for those without an operand, exactly their mnemonic (see
/// `control_plain_text`: "ret", "reti", "ldio c,a", "jp hl", "ldio a,c", "di", "ld sp,hl", "ei").
#[verifier::rlimit(40)]
#[verifier::spinoff_prover]
pub proof fn lemma_control_texts(op: u8, b1: u8, b2: u8)
    requires
        op >= 0xC0,
    ensures
        control_plain_text(op).len() > 0 ==> instruction_text(op, b1, b2) == control_plain_text(op),
        control_prefix(op).len() > 0 ==> instruction_text(op, b1, b2).len() >= control_prefix(op).len()
            && instruction_text(op, b1, b2).subrange(0, control_prefix(op).len() as int) == control_prefix(op),
{
    reveal_strlit("ret ");
    assert(vstd::string::is_ascii("ret "));
    vstd::string::is_ascii_spec_bytes("ret ");
    assert("ret ".spec_bytes() =~= seq![0x72u8, 0x65u8, 0x74u8, 0x20u8]);
    reveal_strlit("pop ");
    assert(vstd::string::is_ascii("pop "));
    vstd::string::is_ascii_spec_bytes("pop ");
    assert("pop ".spec_bytes() =~= seq![0x70u8, 0x6Fu8, 0x70u8, 0x20u8]);
    reveal_strlit("jp ");
    assert(vstd::string::is_ascii("jp "));
    vstd::string::is_ascii_spec_bytes("jp ");
    assert("jp ".spec_bytes() =~= seq![0x6Au8, 0x70u8, 0x20u8]);
    reveal_strlit("call ");
    assert(vstd::string::is_ascii("call "));
    vstd::string::is_ascii_spec_bytes("call ");
    assert("call ".spec_bytes() =~= seq![0x63u8, 0x61u8, 0x6Cu8, 0x6Cu8, 0x20u8]);
    reveal_strlit("push ");
    assert(vstd::string::is_ascii("push "));
    vstd::string::is_ascii_spec_bytes("push ");
    assert("push ".spec_bytes() =~= seq![0x70u8, 0x75u8, 0x73u8, 0x68u8, 0x20u8]);
    reveal_strlit("add a,");
    assert(vstd::string::is_ascii("add a,"));
    vstd::string::is_ascii_spec_bytes("add a,");
    assert("add a,".spec_bytes() =~= seq![0x61u8, 0x64u8, 0x64u8, 0x20u8, 0x61u8, 0x2Cu8]);
    reveal_strlit("rst ");
    assert(vstd::string::is_ascii("rst "));
    vstd::string::is_ascii_spec_bytes("rst ");
    assert("rst ".spec_bytes() =~= seq![0x72u8, 0x73u8, 0x74u8, 0x20u8]);
    reveal_strlit("adc a,");
    assert(vstd::string::is_ascii("adc a,"));
    vstd::string::is_ascii_spec_bytes("adc a,");
    assert("adc a,".spec_bytes() =~= seq![0x61u8, 0x64u8, 0x63u8, 0x20u8, 0x61u8, 0x2Cu8]);
    reveal_strlit("sub a,");
    assert(vstd::string::is_ascii("sub a,"));
    vstd::string::is_ascii_spec_bytes("sub a,");
    assert("sub a,".spec_bytes() =~= seq![0x73u8, 0x75u8, 0x62u8, 0x20u8, 0x61u8, 0x2Cu8]);
    reveal_strlit("sbc a,");
    assert(vstd::string::is_ascii("sbc a,"));
    vstd::string::is_ascii_spec_bytes("sbc a,");
    assert("sbc a,".spec_bytes() =~= seq![0x73u8, 0x62u8, 0x63u8, 0x20u8, 0x61u8, 0x2Cu8]);
    reveal_strlit("ldio ");
    assert(vstd::string::is_ascii("ldio "));
    vstd::string::is_ascii_spec_bytes("ldio ");
    assert("ldio ".spec_bytes() =~= seq![0x6Cu8, 0x64u8, 0x69u8, 0x6Fu8, 0x20u8]);
    reveal_strlit("and a,");
    assert(vstd::string::is_ascii("and a,"));
    vstd::string::is_ascii_spec_bytes("and a,");
    assert("and a,".spec_bytes() =~= seq![0x61u8, 0x6Eu8, 0x64u8, 0x20u8, 0x61u8, 0x2Cu8]);
    reveal_strlit("add sp,");
    assert(vstd::string::is_ascii("add sp,"));
    vstd::string::is_ascii_spec_bytes("add sp,");
    assert("add sp,".spec_bytes() =~= seq![0x61u8, 0x64u8, 0x64u8, 0x20u8, 0x73u8, 0x70u8, 0x2Cu8]);
    reveal_strlit("ld ");
    assert(vstd::string::is_ascii("ld "));
    vstd::string::is_ascii_spec_bytes("ld ");
    assert("ld ".spec_bytes() =~= seq![0x6Cu8, 0x64u8, 0x20u8]);
    reveal_strlit("xor a,");
    assert(vstd::string::is_ascii("xor a,"));
    vstd::string::is_ascii_spec_bytes("xor a,");
    assert("xor a,".spec_bytes() =~= seq![0x78u8, 0x6Fu8, 0x72u8, 0x20u8, 0x61u8, 0x2Cu8]);
    reveal_strlit("ldio a,");
    assert(vstd::string::is_ascii("ldio a,"));
    vstd::string::is_ascii_spec_bytes("ldio a,");
    assert("ldio a,".spec_bytes() =~= seq![0x6Cu8, 0x64u8, 0x69u8, 0x6Fu8, 0x20u8, 0x61u8, 0x2Cu8]);
    reveal_strlit("or a,");
    assert(vstd::string::is_ascii("or a,"));
    vstd::string::is_ascii_spec_bytes("or a,");
    assert("or a,".spec_bytes() =~= seq![0x6Fu8, 0x72u8, 0x20u8, 0x61u8, 0x2Cu8]);
    reveal_strlit("ld hl,sp+");
    assert(vstd::string::is_ascii("ld hl,sp+"));
    vstd::string::is_ascii_spec_bytes("ld hl,sp+");
    assert("ld hl,sp+".spec_bytes() =~= seq![0x6Cu8, 0x64u8, 0x20u8, 0x68u8, 0x6Cu8, 0x2Cu8, 0x73u8, 0x70u8, 0x2Bu8]);
    reveal_strlit("ld a,");
    assert(vstd::string::is_ascii("ld a,"));
    vstd::string::is_ascii_spec_bytes("ld a,");
    assert("ld a,".spec_bytes() =~= seq![0x6Cu8, 0x64u8, 0x20u8, 0x61u8, 0x2Cu8]);
    reveal_strlit("cp a,");
    assert(vstd::string::is_ascii("cp a,"));
    vstd::string::is_ascii_spec_bytes("cp a,");
    assert("cp a,".spec_bytes() =~= seq![0x63u8, 0x70u8, 0x20u8, 0x61u8, 0x2Cu8]);
    reveal_strlit("ret");
    assert(vstd::string::is_ascii("ret"));
    vstd::string::is_ascii_spec_bytes("ret");
    assert("ret".spec_bytes() =~= seq![0x72u8, 0x65u8, 0x74u8]);
    reveal_strlit("reti");
    assert(vstd::string::is_ascii("reti"));
    vstd::string::is_ascii_spec_bytes("reti");
    assert("reti".spec_bytes() =~= seq![0x72u8, 0x65u8, 0x74u8, 0x69u8]);
    reveal_strlit("ldio c,a");
    assert(vstd::string::is_ascii("ldio c,a"));
    vstd::string::is_ascii_spec_bytes("ldio c,a");
    assert("ldio c,a".spec_bytes() =~= seq![0x6Cu8, 0x64u8, 0x69u8, 0x6Fu8, 0x20u8, 0x63u8, 0x2Cu8, 0x61u8]);
    reveal_strlit("jp hl");
    assert(vstd::string::is_ascii("jp hl"));
    vstd::string::is_ascii_spec_bytes("jp hl");
    assert("jp hl".spec_bytes() =~= seq![0x6Au8, 0x70u8, 0x20u8, 0x68u8, 0x6Cu8]);
    reveal_strlit("ldio a,c");
    assert(vstd::string::is_ascii("ldio a,c"));
    vstd::string::is_ascii_spec_bytes("ldio a,c");
    assert("ldio a,c".spec_bytes() =~= seq![0x6Cu8, 0x64u8, 0x69u8, 0x6Fu8, 0x20u8, 0x61u8, 0x2Cu8, 0x63u8]);
    reveal_strlit("di");
    assert(vstd::string::is_ascii("di"));
    vstd::string::is_ascii_spec_bytes("di");
    assert("di".spec_bytes() =~= seq![0x64u8, 0x69u8]);
    reveal_strlit("ld sp,hl");
    assert(vstd::string::is_ascii("ld sp,hl"));
    vstd::string::is_ascii_spec_bytes("ld sp,hl");
    assert("ld sp,hl".spec_bytes() =~= seq![0x6Cu8, 0x64u8, 0x20u8, 0x73u8, 0x70u8, 0x2Cu8, 0x68u8, 0x6Cu8]);
    reveal_strlit("ei");
    assert(vstd::string::is_ascii("ei"));
    vstd::string::is_ascii_spec_bytes("ei");
    assert("ei".spec_bytes() =~= seq![0x65u8, 0x69u8]);
    let t = instruction_text(op, b1, b2);
    let p = control_prefix(op);
    assert(t == control_text(op, b1, b2));
    if p.len() > 0 {
        assert(t.subrange(0, p.len() as int) =~= p);
    }
}

} // verus!
