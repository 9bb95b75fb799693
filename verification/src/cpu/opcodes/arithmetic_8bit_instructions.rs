use vstd::prelude::*;
use crate::cpu::flag::Flag;
use crate::cpu::gb_cpu::{GbCpu, CpuState, with_high, with_low, flag_bits};
use crate::cpu::opcodes::opcodes_utils::{get_src_index, get_dest_index, src_index, dest_index};
use crate::cpu::opcodes::rotate_shift_instructions::{hl_rmw, first_value, lemma_rmw};
use crate::mmu::{Memory, BusOp, log_extends, new_ops, lemma_log_push};
use crate::utils::wrapping::{wrap8, wrapping_add8, wrapping_sub8};

verus! {

/// The eight operations of the 8 bit arithmetic and logic unit, all with A as left operand.
#[derive(Clone, Copy, PartialEq, Eq, Structural)]
pub enum AluOp {
    Add,
    Adc,
    Sub,
    Sbc,
    And,
    Xor,
    Or,
    Cp,
}

/// The carry that ADC and SBC take in.
pub open spec fn carry_in(s: CpuState, op: AluOp) -> int {
    if (op == AluOp::Adc || op == AluOp::Sbc) && s.carry() {
        1
    } else {
        0
    }
}

/// The state after the operation `op` of A with `v`.
pub open spec fn alu_spec(s: CpuState, op: AluOp, v: u8) -> CpuState {
    let a = s.a();
    let ci = carry_in(s, op);
    match op {
        AluOp::Add | AluOp::Adc => {
            let r = wrap8(a + v + ci);
            s.with_a(r).with_flags(r == 0, false, (a & 0xF) + (v & 0xF) + ci > 0xF, a + v + ci > 0xFF)
        },
        AluOp::Sub | AluOp::Sbc => {
            let r = wrap8(a - v - ci);
            s.with_a(r).with_flags(r == 0, true, (a & 0xF) < (v & 0xF) + ci, a < v + ci)
        },
        AluOp::Cp => {
            s.with_flags(wrap8(a - v) == 0, true, (a & 0xF) < (v & 0xF), a < v)
        },
        AluOp::And => s.with_a(a & v).with_flags(a & v == 0, false, true, false),
        AluOp::Xor => s.with_a(a ^ v).with_flags(a ^ v == 0, false, false, false),
        AluOp::Or => s.with_a(a | v).with_flags(a | v == 0, false, false, false),
    }
}

/// The operation of an arithmetic opcode, by the row of the opcode table it stands in
/// (0x80 to 0xBF for A with a register, 0xC6 to 0xFE for A with an immediate byte).
pub open spec fn alu_op_of(opcode: u8) -> AluOp {
    let row = if opcode >= 0xC0 { opcode - 0x40 } else { opcode as int };
    if row < 0x88 {
        AluOp::Add
    } else if row < 0x90 {
        AluOp::Adc
    } else if row < 0x98 {
        AluOp::Sub
    } else if row < 0xA0 {
        AluOp::Sbc
    } else if row < 0xA8 {
        AluOp::And
    } else if row < 0xB0 {
        AluOp::Xor
    } else if row < 0xB8 {
        AluOp::Or
    } else {
        AluOp::Cp
    }
}

/// INC: Z, N cleared, H when the low nibble overflows; the carry keeps its value.
pub open spec fn inc_spec_flags(s: CpuState, v: u8) -> CpuState {
    s.with_flags(wrap8(v + 1) == 0, false, v & 0xF == 0xF, s.carry())
}

/// DEC: Z, N set, H when the low nibble borrows; the carry keeps its value.
pub open spec fn dec_spec_flags(s: CpuState, v: u8) -> CpuState {
    s.with_flags(wrap8(v - 1) == 0, true, v & 0xF == 0, s.carry())
}

/// The state after DAA: A corrected to binary coded decimal after an addition or subtraction.
pub open spec fn daa_spec(s: CpuState) -> CpuState {
    let a = s.a();
    let n = s.flag(Flag::Subtraction);
    let h = s.flag(Flag::HalfCarry);
    let c = s.carry();
    if !n {
        let low: int = if h || (a & 0xF) > 9 { 0x06 } else { 0 };
        let high: int = if c || a > 0x99 { 0x60 } else { 0 };
        let r = wrap8(a + low + high);
        s.with_a(r).with_flags(r == 0, n, false, c || a > 0x99)
    } else {
        let low: int = if h { 0x06 } else { 0 };
        let high: int = if c { 0x60 } else { 0 };
        let r = wrap8(a - low - high);
        s.with_a(r).with_flags(r == 0, n, false, c)
    }
}

/// Applies the operation `op` of A with `v`.
pub fn alu(cpu: &mut GbCpu, op: AluOp, v: u8)
    ensures
        final(cpu)@ == alu_spec(old(cpu)@, op, v),
{
    let a = cpu.get_r8(7);
    let carry_flag = cpu.get_flag(Flag::Carry);
    assert(a & 0xF <= 15 && v & 0xF <= 15) by (bit_vector);
    let ci: u8 = if (op == AluOp::Adc || op == AluOp::Sbc) && carry_flag {
        1
    } else {
        0
    };
    match op {
        AluOp::Add | AluOp::Adc => {
            let sum: u16 = a as u16 + v as u16 + ci as u16;
            let r = (sum % 0x100) as u8;
            let half = (a & 0xF) + (v & 0xF) + ci > 0xF;
            cpu.set_r8(7, r);
            cpu.set_flags(r == 0, false, half, sum > 0xFF);
        },
        AluOp::Sub | AluOp::Sbc => {
            let diff: u16 = (a as u16 + 0x100) - v as u16 - ci as u16;
            let r = (diff % 0x100) as u8;
            let half = (a & 0xF) < (v & 0xF) + ci;
            cpu.set_r8(7, r);
            cpu.set_flags(r == 0, true, half, (a as u16) < (v as u16) + ci as u16);
        },
        AluOp::Cp => {
            let diff: u16 = (a as u16 + 0x100) - v as u16;
            let r = (diff % 0x100) as u8;
            cpu.set_flags(r == 0, true, (a & 0xF) < (v & 0xF), a < v);
        },
        AluOp::And => {
            cpu.set_r8(7, a & v);
            cpu.set_flags(a & v == 0, false, true, false);
        },
        AluOp::Xor => {
            cpu.set_r8(7, a ^ v);
            cpu.set_flags(a ^ v == 0, false, false, false);
        },
        AluOp::Or => {
            cpu.set_r8(7, a | v);
            cpu.set_flags(a | v == 0, false, false, false);
        },
    }
}

/// Applies `op` to A and the register that the opcode's three low bits select.
fn alu_r(cpu: &mut GbCpu, op: AluOp, opcode: u8) -> (cycles: u8)
    requires
        src_index(opcode) != 6,
    ensures
        cycles == 0,
        final(cpu)@ == alu_spec(old(cpu)@, op, old(cpu)@.r8(src_index(opcode))),
{
    let v = cpu.get_r8(get_src_index(opcode));
    alu(cpu, op, v);
    // 1 cycles - 1 reading opcode
    0
}

/// Applies `op` to A and the immediate byte of a 2 byte opcode.
fn alu_nn(cpu: &mut GbCpu, op: AluOp, opcode: u16) -> (cycles: u8)
    ensures
        cycles == 0,
        final(cpu)@ == alu_spec(old(cpu)@, op, (opcode & 0xFF) as u8),
{
    alu(cpu, op, (opcode & 0xFF) as u8);
    // 2 cycles - 2 reading opcode
    0
}

/// Applies `op` to A and the byte at (HL).
fn alu_hl<M: Memory>(cpu: &mut GbCpu, memory: &mut M, op: AluOp) -> (cycles: u8)
    ensures
        cycles == 0,
        log_extends(old(memory).bus_log(), final(memory).bus_log()),
        ({
            let ops = new_ops(old(memory).bus_log(), final(memory).bus_log());
            &&& ops == seq![
                BusOp::Read { address: old(cpu)@.hl, m_cycles: 1, value: first_value(ops) },
            ]
            &&& final(cpu)@ == alu_spec(old(cpu)@, op, first_value(ops))
        }),
{
    let ghost log0 = memory.bus_log();
    let v = memory.read(cpu.hl.value(), 1);
    proof {
        lemma_log_push(log0, BusOp::Read { address: old(cpu)@.hl, m_cycles: 1, value: v });
    }
    alu(cpu, op, v);
    // 2 cycles - 1 reading opcode, 1 reading hl address
    0
}

/// ADD A,r.
pub fn add_a_r(cpu: &mut GbCpu, opcode: u8) -> (cycles: u8)
    requires
        src_index(opcode) != 6,
    ensures
        cycles == 0,
        final(cpu)@ == alu_spec(old(cpu)@, AluOp::Add, old(cpu)@.r8(src_index(opcode))),
{
    alu_r(cpu, AluOp::Add, opcode)
}

/// ADD A,n.
pub fn add_a_nn(cpu: &mut GbCpu, opcode: u16) -> (cycles: u8)
    ensures
        cycles == 0,
        final(cpu)@ == alu_spec(old(cpu)@, AluOp::Add, (opcode & 0xFF) as u8),
{
    alu_nn(cpu, AluOp::Add, opcode)
}

/// ADD A,(HL).
pub fn add_a_hl<M: Memory>(cpu: &mut GbCpu, memory: &mut M) -> (cycles: u8)
    ensures
        cycles == 0,
        log_extends(old(memory).bus_log(), final(memory).bus_log()),
        ({
            let ops = new_ops(old(memory).bus_log(), final(memory).bus_log());
            &&& ops == seq![
                BusOp::Read { address: old(cpu)@.hl, m_cycles: 1, value: first_value(ops) },
            ]
            &&& final(cpu)@ == alu_spec(old(cpu)@, AluOp::Add, first_value(ops))
        }),
{
    alu_hl(cpu, memory, AluOp::Add)
}

/// ADC A,r.
pub fn adc_a_r(cpu: &mut GbCpu, opcode: u8) -> (cycles: u8)
    requires
        src_index(opcode) != 6,
    ensures
        cycles == 0,
        final(cpu)@ == alu_spec(old(cpu)@, AluOp::Adc, old(cpu)@.r8(src_index(opcode))),
{
    alu_r(cpu, AluOp::Adc, opcode)
}

/// ADC A,n.
pub fn adc_a_nn(cpu: &mut GbCpu, opcode: u16) -> (cycles: u8)
    ensures
        cycles == 0,
        final(cpu)@ == alu_spec(old(cpu)@, AluOp::Adc, (opcode & 0xFF) as u8),
{
    alu_nn(cpu, AluOp::Adc, opcode)
}

/// ADC A,(HL).
pub fn adc_a_hl<M: Memory>(cpu: &mut GbCpu, memory: &mut M) -> (cycles: u8)
    ensures
        cycles == 0,
        log_extends(old(memory).bus_log(), final(memory).bus_log()),
        ({
            let ops = new_ops(old(memory).bus_log(), final(memory).bus_log());
            &&& ops == seq![
                BusOp::Read { address: old(cpu)@.hl, m_cycles: 1, value: first_value(ops) },
            ]
            &&& final(cpu)@ == alu_spec(old(cpu)@, AluOp::Adc, first_value(ops))
        }),
{
    alu_hl(cpu, memory, AluOp::Adc)
}

/// SUB A,r.
pub fn sub_a_r(cpu: &mut GbCpu, opcode: u8) -> (cycles: u8)
    requires
        src_index(opcode) != 6,
    ensures
        cycles == 0,
        final(cpu)@ == alu_spec(old(cpu)@, AluOp::Sub, old(cpu)@.r8(src_index(opcode))),
{
    alu_r(cpu, AluOp::Sub, opcode)
}

/// SUB A,n.
pub fn sub_a_nn(cpu: &mut GbCpu, opcode: u16) -> (cycles: u8)
    ensures
        cycles == 0,
        final(cpu)@ == alu_spec(old(cpu)@, AluOp::Sub, (opcode & 0xFF) as u8),
{
    alu_nn(cpu, AluOp::Sub, opcode)
}

/// SUB A,(HL).
pub fn sub_a_hl<M: Memory>(cpu: &mut GbCpu, memory: &mut M) -> (cycles: u8)
    ensures
        cycles == 0,
        log_extends(old(memory).bus_log(), final(memory).bus_log()),
        ({
            let ops = new_ops(old(memory).bus_log(), final(memory).bus_log());
            &&& ops == seq![
                BusOp::Read { address: old(cpu)@.hl, m_cycles: 1, value: first_value(ops) },
            ]
            &&& final(cpu)@ == alu_spec(old(cpu)@, AluOp::Sub, first_value(ops))
        }),
{
    alu_hl(cpu, memory, AluOp::Sub)
}

/// SBC A,r.
pub fn sbc_a_r(cpu: &mut GbCpu, opcode: u8) -> (cycles: u8)
    requires
        src_index(opcode) != 6,
    ensures
        cycles == 0,
        final(cpu)@ == alu_spec(old(cpu)@, AluOp::Sbc, old(cpu)@.r8(src_index(opcode))),
{
    alu_r(cpu, AluOp::Sbc, opcode)
}

/// SBC A,n.
pub fn sbc_a_nn(cpu: &mut GbCpu, opcode: u16) -> (cycles: u8)
    ensures
        cycles == 0,
        final(cpu)@ == alu_spec(old(cpu)@, AluOp::Sbc, (opcode & 0xFF) as u8),
{
    alu_nn(cpu, AluOp::Sbc, opcode)
}

/// SBC A,(HL).
pub fn sbc_a_hl<M: Memory>(cpu: &mut GbCpu, memory: &mut M) -> (cycles: u8)
    ensures
        cycles == 0,
        log_extends(old(memory).bus_log(), final(memory).bus_log()),
        ({
            let ops = new_ops(old(memory).bus_log(), final(memory).bus_log());
            &&& ops == seq![
                BusOp::Read { address: old(cpu)@.hl, m_cycles: 1, value: first_value(ops) },
            ]
            &&& final(cpu)@ == alu_spec(old(cpu)@, AluOp::Sbc, first_value(ops))
        }),
{
    alu_hl(cpu, memory, AluOp::Sbc)
}

/// AND A,r.
pub fn and_a_r(cpu: &mut GbCpu, opcode: u8) -> (cycles: u8)
    requires
        src_index(opcode) != 6,
    ensures
        cycles == 0,
        final(cpu)@ == alu_spec(old(cpu)@, AluOp::And, old(cpu)@.r8(src_index(opcode))),
{
    alu_r(cpu, AluOp::And, opcode)
}

/// AND A,n.
pub fn and_a_nn(cpu: &mut GbCpu, opcode: u16) -> (cycles: u8)
    ensures
        cycles == 0,
        final(cpu)@ == alu_spec(old(cpu)@, AluOp::And, (opcode & 0xFF) as u8),
{
    alu_nn(cpu, AluOp::And, opcode)
}

/// AND A,(HL).
pub fn and_a_hl<M: Memory>(cpu: &mut GbCpu, memory: &mut M) -> (cycles: u8)
    ensures
        cycles == 0,
        log_extends(old(memory).bus_log(), final(memory).bus_log()),
        ({
            let ops = new_ops(old(memory).bus_log(), final(memory).bus_log());
            &&& ops == seq![
                BusOp::Read { address: old(cpu)@.hl, m_cycles: 1, value: first_value(ops) },
            ]
            &&& final(cpu)@ == alu_spec(old(cpu)@, AluOp::And, first_value(ops))
        }),
{
    alu_hl(cpu, memory, AluOp::And)
}

/// XOR A,r.
pub fn xor_a_r(cpu: &mut GbCpu, opcode: u8) -> (cycles: u8)
    requires
        src_index(opcode) != 6,
    ensures
        cycles == 0,
        final(cpu)@ == alu_spec(old(cpu)@, AluOp::Xor, old(cpu)@.r8(src_index(opcode))),
{
    alu_r(cpu, AluOp::Xor, opcode)
}

/// XOR A,n.
pub fn xor_a_nn(cpu: &mut GbCpu, opcode: u16) -> (cycles: u8)
    ensures
        cycles == 0,
        final(cpu)@ == alu_spec(old(cpu)@, AluOp::Xor, (opcode & 0xFF) as u8),
{
    alu_nn(cpu, AluOp::Xor, opcode)
}

/// XOR A,(HL).
pub fn xor_a_hl<M: Memory>(cpu: &mut GbCpu, memory: &mut M) -> (cycles: u8)
    ensures
        cycles == 0,
        log_extends(old(memory).bus_log(), final(memory).bus_log()),
        ({
            let ops = new_ops(old(memory).bus_log(), final(memory).bus_log());
            &&& ops == seq![
                BusOp::Read { address: old(cpu)@.hl, m_cycles: 1, value: first_value(ops) },
            ]
            &&& final(cpu)@ == alu_spec(old(cpu)@, AluOp::Xor, first_value(ops))
        }),
{
    alu_hl(cpu, memory, AluOp::Xor)
}

/// OR A,r.
pub fn or_a_r(cpu: &mut GbCpu, opcode: u8) -> (cycles: u8)
    requires
        src_index(opcode) != 6,
    ensures
        cycles == 0,
        final(cpu)@ == alu_spec(old(cpu)@, AluOp::Or, old(cpu)@.r8(src_index(opcode))),
{
    alu_r(cpu, AluOp::Or, opcode)
}

/// OR A,n.
pub fn or_a_nn(cpu: &mut GbCpu, opcode: u16) -> (cycles: u8)
    ensures
        cycles == 0,
        final(cpu)@ == alu_spec(old(cpu)@, AluOp::Or, (opcode & 0xFF) as u8),
{
    alu_nn(cpu, AluOp::Or, opcode)
}

/// OR A,(HL).
pub fn or_a_hl<M: Memory>(cpu: &mut GbCpu, memory: &mut M) -> (cycles: u8)
    ensures
        cycles == 0,
        log_extends(old(memory).bus_log(), final(memory).bus_log()),
        ({
            let ops = new_ops(old(memory).bus_log(), final(memory).bus_log());
            &&& ops == seq![
                BusOp::Read { address: old(cpu)@.hl, m_cycles: 1, value: first_value(ops) },
            ]
            &&& final(cpu)@ == alu_spec(old(cpu)@, AluOp::Or, first_value(ops))
        }),
{
    alu_hl(cpu, memory, AluOp::Or)
}

/// CP A,r.
pub fn cp_a_r(cpu: &mut GbCpu, opcode: u8) -> (cycles: u8)
    requires
        src_index(opcode) != 6,
    ensures
        cycles == 0,
        final(cpu)@ == alu_spec(old(cpu)@, AluOp::Cp, old(cpu)@.r8(src_index(opcode))),
{
    alu_r(cpu, AluOp::Cp, opcode)
}

/// CP A,n.
pub fn cp_a_nn(cpu: &mut GbCpu, opcode: u16) -> (cycles: u8)
    ensures
        cycles == 0,
        final(cpu)@ == alu_spec(old(cpu)@, AluOp::Cp, (opcode & 0xFF) as u8),
{
    alu_nn(cpu, AluOp::Cp, opcode)
}

/// CP A,(HL).
pub fn cp_a_hl<M: Memory>(cpu: &mut GbCpu, memory: &mut M) -> (cycles: u8)
    ensures
        cycles == 0,
        log_extends(old(memory).bus_log(), final(memory).bus_log()),
        ({
            let ops = new_ops(old(memory).bus_log(), final(memory).bus_log());
            &&& ops == seq![
                BusOp::Read { address: old(cpu)@.hl, m_cycles: 1, value: first_value(ops) },
            ]
            &&& final(cpu)@ == alu_spec(old(cpu)@, AluOp::Cp, first_value(ops))
        }),
{
    alu_hl(cpu, memory, AluOp::Cp)
}

/// INC r.
pub fn inc_r(cpu: &mut GbCpu, opcode: u8) -> (cycles: u8)
    requires
        dest_index(opcode) != 6,
    ensures
        cycles == 0,
        ({
            let v = old(cpu)@.r8(dest_index(opcode));
            final(cpu)@ == inc_spec_flags(old(cpu)@.with_r8(dest_index(opcode), wrap8(v + 1)), v)
        }),
{
    let idx = get_dest_index(opcode);
    let v = cpu.get_r8(idx);
    let r = wrapping_add8(v, 1);
    cpu.set_r8(idx, r);
    let carry = cpu.get_flag(Flag::Carry);
    cpu.set_flags(r == 0, false, v & 0xF == 0xF, carry);
    // 1 cycles - 1 reading opcode
    0
}

/// DEC r.
pub fn dec_r(cpu: &mut GbCpu, opcode: u8) -> (cycles: u8)
    requires
        dest_index(opcode) != 6,
    ensures
        cycles == 0,
        ({
            let v = old(cpu)@.r8(dest_index(opcode));
            final(cpu)@ == dec_spec_flags(old(cpu)@.with_r8(dest_index(opcode), wrap8(v - 1)), v)
        }),
{
    let idx = get_dest_index(opcode);
    let v = cpu.get_r8(idx);
    let r = wrapping_sub8(v, 1);
    cpu.set_r8(idx, r);
    let carry = cpu.get_flag(Flag::Carry);
    cpu.set_flags(r == 0, true, v & 0xF == 0, carry);
    0
}

/// INC (HL).
pub fn inc_hl<M: Memory>(cpu: &mut GbCpu, memory: &mut M) -> (cycles: u8)
    ensures
        cycles == 0,
        log_extends(old(memory).bus_log(), final(memory).bus_log()),
        ({
            let ops = new_ops(old(memory).bus_log(), final(memory).bus_log());
            let v = first_value(ops);
            &&& hl_rmw(old(cpu)@.hl, ops, wrap8(v + 1))
            &&& final(cpu)@ == inc_spec_flags(old(cpu)@, v)
        }),
{
    let hl = cpu.hl.value();
    let ghost log0 = memory.bus_log();
    let v = memory.read(hl, 1);
    let ghost log1 = memory.bus_log();
    let r = wrapping_add8(v, 1);
    memory.write(hl, r, 1);
    proof {
        lemma_rmw(log0, log1, memory.bus_log(), hl, v, r);
    }
    let carry = cpu.get_flag(Flag::Carry);
    cpu.set_flags(r == 0, false, v & 0xF == 0xF, carry);
    // 3 cycles - 1 reading opcode, 1 reading hl address, 1 writing hl address
    0
}

/// DEC (HL).
pub fn dec_hl<M: Memory>(cpu: &mut GbCpu, memory: &mut M) -> (cycles: u8)
    ensures
        cycles == 0,
        log_extends(old(memory).bus_log(), final(memory).bus_log()),
        ({
            let ops = new_ops(old(memory).bus_log(), final(memory).bus_log());
            let v = first_value(ops);
            &&& hl_rmw(old(cpu)@.hl, ops, wrap8(v - 1))
            &&& final(cpu)@ == dec_spec_flags(old(cpu)@, v)
        }),
{
    let hl = cpu.hl.value();
    let ghost log0 = memory.bus_log();
    let v = memory.read(hl, 1);
    let ghost log1 = memory.bus_log();
    let r = wrapping_sub8(v, 1);
    memory.write(hl, r, 1);
    proof {
        lemma_rmw(log0, log1, memory.bus_log(), hl, v, r);
    }
    let carry = cpu.get_flag(Flag::Carry);
    cpu.set_flags(r == 0, true, v & 0xF == 0, carry);
    0
}

/// CPL: complements A.
pub fn cpl(cpu: &mut GbCpu) -> (cycles: u8)
    ensures
        cycles == 0,
        final(cpu)@ == old(cpu)@.with_a(!old(cpu)@.a()).with_flags(
            old(cpu)@.zero(),
            true,
            true,
            old(cpu)@.carry(),
        ),
{
    let a = cpu.get_r8(7);
    let zero = cpu.get_flag(Flag::Zero);
    let carry = cpu.get_flag(Flag::Carry);
    cpu.set_r8(7, !a);
    cpu.set_flags(zero, true, true, carry);
    // 1 cycles - 1 reading opcode
    0
}

/// DAA: decimal adjustment of A.
pub fn daa(cpu: &mut GbCpu) -> (cycles: u8)
    ensures
        cycles == 0,
        final(cpu)@ == daa_spec(old(cpu)@),
{
    let a = cpu.get_r8(7);
    let n = cpu.get_flag(Flag::Subtraction);
    let h = cpu.get_flag(Flag::HalfCarry);
    let c = cpu.get_flag(Flag::Carry);
    let mut adjust: u8 = 0;
    let mut carry = c;
    let r;
    if !n {
        if h || (a & 0xF) > 9 {
            adjust = adjust | 0x06;
        }
        if c || a > 0x99 {
            adjust = adjust | 0x60;
            carry = true;
        }
        r = wrapping_add8(a, adjust);
    } else {
        if h {
            adjust = adjust | 0x06;
        }
        if c {
            adjust = adjust | 0x60;
        }
        r = wrapping_sub8(a, adjust);
    }
    assert((0u8 | 0x06u8) == 0x06u8 && (0u8 | 0x60u8) == 0x60u8 && ((0u8 | 0x06u8) | 0x60u8) == 0x66u8) by (bit_vector);
    cpu.set_r8(7, r);
    cpu.set_flags(r == 0, n, false, carry);
    // 1 cycles - 1 reading opcode
    0
}

/// The bit facts of the arithmetic laws: A written in the high byte of AF (keeping the carry)
/// and the four flags in F read back (the low nibble of F read only), the low nibble and the low three bits of a
/// byte are its remainders by 16 and by 8, bits 3 to 5 are its eighth modulo 8, bit 7 is
/// clear below 128, and a byte exclusive-ored with itself is 0.
pub(crate) proof fn lemma_alu_bits(a: u8, v: u8, x: u16, z: bool, n: bool, h: bool, c: bool)
    by (bit_vector)
    ensures
        (with_high(x, 0xFFF0, a) >> 8u16) as u8 == a,
        ((((with_high(x, 0xFFF0, a) & 0xFF) as u8) & 0x10) != 0) == ((((x & 0xFF) as u8) & 0x10) != 0),
        (with_low(x, 0xFFF0, (((x & 0xFF) as u8) & 0x0F) | flag_bits(z, n, h, c)) >> 8u16) == (x >> 8u16),
        ((((with_low(x, 0xFFF0, (((x & 0xFF) as u8) & 0x0F) | flag_bits(z, n, h, c)) & 0xFF) as u8) & 0x80) != 0)
            == z,
        ((((with_low(x, 0xFFF0, (((x & 0xFF) as u8) & 0x0F) | flag_bits(z, n, h, c)) & 0xFF) as u8) & 0x40) != 0)
            == n,
        ((((with_low(x, 0xFFF0, (((x & 0xFF) as u8) & 0x0F) | flag_bits(z, n, h, c)) & 0xFF) as u8) & 0x20) != 0)
            == h,
        ((((with_low(x, 0xFFF0, (((x & 0xFF) as u8) & 0x0F) | flag_bits(z, n, h, c)) & 0xFF) as u8) & 0x10) != 0)
            == c,
        a & 0xF == a % 16,
        v & 0xF == v % 16,
        a & 0b111 == a % 8,
        (a & 0b11_1000) >> 3u8 == (a / 8) % 8,
        (a >> 3u8) & 0b111 == (a / 8) % 8,
        a ^ a == 0,
        (a & 0x80 == 0) == (a < 128),
        a & 1 < 2,
{
}

/// What an operation of the arithmetic and logic unit leaves, from A = `a`, the operand `v`
/// and the carry flag `carry`, in the state `t`, said with the arithmetic on the bytes: ADD,
/// ADC, SUB, SBC and CP add or subtract (with the carry for ADC and SBC) and set C on a carry
/// out of bit 7 or a borrow, H on one out of bit 3, N for the subtractions; AND, XOR and OR
/// take the bitwise and, exclusive or and or, with H set by AND alone and N and C clear; CP
/// keeps A; Z tells whether the result is 0.
pub open spec fn alu_expected(op: AluOp, a: u8, v: u8, carry: bool, t: CpuState) -> bool {
    let cy: int = if carry { 1 } else { 0 };
    match op {
        AluOp::Add => {
            &&& t.a() == (a + v) % 256
            &&& t.zero() == ((a + v) % 256 == 0)
            &&& !t.flag(Flag::Subtraction)
            &&& t.flag(Flag::HalfCarry) == (a % 16 + v % 16 > 15)
            &&& t.carry() == (a + v > 255)
        },
        AluOp::Adc => {
            &&& t.a() == (a + v + cy) % 256
            &&& t.zero() == ((a + v + cy) % 256 == 0)
            &&& !t.flag(Flag::Subtraction)
            &&& t.flag(Flag::HalfCarry) == (a % 16 + v % 16 + cy > 15)
            &&& t.carry() == (a + v + cy > 255)
        },
        AluOp::Sub => {
            &&& t.a() == (a - v) % 256
            &&& t.zero() == (a == v)
            &&& t.flag(Flag::Subtraction)
            &&& t.flag(Flag::HalfCarry) == (a % 16 < v % 16)
            &&& t.carry() == (a < v)
        },
        AluOp::Sbc => {
            &&& t.a() == (a - v - cy) % 256
            &&& t.zero() == ((a - v - cy) % 256 == 0)
            &&& t.flag(Flag::Subtraction)
            &&& t.flag(Flag::HalfCarry) == (a % 16 < v % 16 + cy)
            &&& t.carry() == (a < v + cy)
        },
        AluOp::And => {
            &&& t.a() == a & v
            &&& t.zero() == (a & v == 0)
            &&& !t.flag(Flag::Subtraction)
            &&& t.flag(Flag::HalfCarry)
            &&& !t.carry()
        },
        AluOp::Xor => {
            &&& t.a() == a ^ v
            &&& t.zero() == (a ^ v == 0)
            &&& !t.flag(Flag::Subtraction)
            &&& !t.flag(Flag::HalfCarry)
            &&& !t.carry()
        },
        AluOp::Or => {
            &&& t.a() == a | v
            &&& t.zero() == (a | v == 0)
            &&& !t.flag(Flag::Subtraction)
            &&& !t.flag(Flag::HalfCarry)
            &&& !t.carry()
        },
        AluOp::Cp => {
            &&& t.a() == a
            &&& t.zero() == (a == v)
            &&& t.flag(Flag::Subtraction)
            &&& t.flag(Flag::HalfCarry) == (a % 16 < v % 16)
            &&& t.carry() == (a < v)
        },
    }
}

/// Each operation of the arithmetic and logic unit does what `alu_expected` says, and
/// leaves the other registers as they were.
pub proof fn lemma_alu_result(s: CpuState, op: AluOp, v: u8)
    requires
        s.af_mask == 0xFFF0,
    ensures
        alu_expected(op, s.a(), v, s.carry(), alu_spec(s, op, v)),
        alu_spec(s, op, v).bc == s.bc && alu_spec(s, op, v).de == s.de && alu_spec(s, op, v).hl == s.hl,
        alu_spec(s, op, v).sp == s.sp && alu_spec(s, op, v).pc == s.pc,
{
    let a = s.a();
    let t = alu_spec(s, op, v);
    let ci = carry_in(s, op);
    let res: u8 = match op {
        AluOp::Add | AluOp::Adc => wrap8(a + v + ci),
        AluOp::Sub | AluOp::Sbc => wrap8(a - v - ci),
        AluOp::Cp => a,
        AluOp::And => a & v,
        AluOp::Xor => a ^ v,
        AluOp::Or => a | v,
    };
    let z = t.zero();
    let w = if op == AluOp::Cp { s } else { s.with_a(res) };
    lemma_alu_bits(res, v, s.af, false, false, false, false);
    lemma_alu_bits(a, v, s.af, false, false, false, false);
    assert(w.a() == res && w.af_mask == 0xFFF0);
    let (zf, nf, hf, cf) = match op {
        AluOp::Add | AluOp::Adc => (res == 0, false, (a & 0xF) + (v & 0xF) + ci > 0xF, a + v + ci > 0xFF),
        AluOp::Sub | AluOp::Sbc => (res == 0, true, (a & 0xF) < (v & 0xF) + ci, a < v + ci),
        AluOp::Cp => (wrap8(a - v) == 0, true, (a & 0xF) < (v & 0xF), a < v),
        AluOp::And => (res == 0, false, true, false),
        _ => (res == 0, false, false, false),
    };
    assert(t == w.with_flags(zf, nf, hf, cf));
    lemma_alu_bits(res, v, w.af, zf, nf, hf, cf);
    assert(t.a() == res);
    if op == AluOp::Cp || op == AluOp::Sub {
        assert(wrap8(a - v) == 0 <==> a == v);
    }
}

} // verus!
