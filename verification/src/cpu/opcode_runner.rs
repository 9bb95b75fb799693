use vstd::prelude::*;
use crate::cpu::gb_cpu::{GbCpu, CpuState, push_ops};
use crate::cpu::flag::Flag;
use crate::cpu::opcodes::opcodes_utils::{src_index, dest_index, pop_ops_shape, popped_value};
use crate::cpu::opcodes::arithmetic_8bit_instructions::{
    alu_expected, lemma_alu_result, lemma_alu_bits, AluOp, alu_spec, alu_op_of, inc_spec_flags, dec_spec_flags, daa_spec, add_a_r, adc_a_r,
    sub_a_r, sbc_a_r, and_a_r, xor_a_r, or_a_r, cp_a_r, add_a_nn, adc_a_nn, sub_a_nn, sbc_a_nn,
    and_a_nn, xor_a_nn, or_a_nn, cp_a_nn, add_a_hl, adc_a_hl, sub_a_hl, sbc_a_hl, and_a_hl,
    xor_a_hl, or_a_hl, cp_a_hl, inc_r, dec_r, inc_hl, dec_hl, cpl, daa,
};
use crate::cpu::opcodes::arithmetic_16bit_instructions::{
    rr_index, sp_offset_flags, inc_rr, dec_rr, add_hl_rr, add_sp_dd, ld_hl_spdd,
};
use crate::cpu::opcodes::rotate_shift_instructions::{
    rotated_flags, lemma_rotation_bits, lemma_shift_arith, rlc8, rrc8, rl8, rr8, sla8, sra8, srl8, swap8, bit7, bit0, cb_reg, shifted, hl_rmw,
    first_value, rlca, rla, rrca, rra, rlc_r, rl_r, rrc_r, rr_r, sla_r, sra_r, srl_r, swap_r,
    rlc_hl, rl_hl, rrc_hl, rr_hl, sla_hl, sra_hl, srl_hl, swap_hl,
};
use crate::cpu::opcodes::cpu_control_instructions::{ccf, scf, halt, stop, di, ei, stop_effect};
use crate::cpu::opcodes::jump_instructions::{
    address_operand, condition, cc_u32, cc_u8, cc_u16, relative_offset, rst_target, called,
    returned, call, call_cc, ret, ret_cc, rst, reti, jump, jump_cc, jump_hl, jump_r, jump_r_cc,
};
use crate::cpu::opcodes::load_8bit_instructions::{
    reads_once, writes_once, io_address, ld_r_r, ld_r_n, ld_r_hl, ld_hl_r, ld_hl_n, ld_a_bc,
    ld_a_de, ld_bc_a, ld_de_a, ldi_hl_a, ldd_hl_a, ldi_a_hl, ldd_a_hl, ld_nn_a, ld_a_nn,
    ld_ioport_n_a, ld_a_ioport_n, ld_ioport_c_a, ld_a_ioport_c,
};
use crate::cpu::opcodes::load_16bit_instructions::{first_byte, load_rr_nn, load_sp_hl, ld_nn_sp, push, pop};
use crate::cpu::opcodes::single_bit_sintructions::{cb_bit_mask, bit_r, bit_hl, set_r, set_hl, res_r, res_hl};
use crate::mmu::{Memory, BusOp, log_extends, new_ops, bus_value, lemma_log_push, lemma_log_trans};
use crate::utils::wrapping::{wrap8, wrap16, wrapping_add16};

verus! {

/// Why an opcode could not be run.
#[derive(Clone, Copy, PartialEq, Eq, Structural, Debug)]
pub enum OpcodeError {
    /// The byte is not an opcode of the CPU.
    UnsupportedOpcode(u8),
    /// STOP was followed by this byte instead of 0.
    InvalidStopOpcode(u8),
}

// ---------------------------------------------------------------------------------------------
// Decoding
// ---------------------------------------------------------------------------------------------

pub open spec fn is_inc_rr(op: u8) -> bool {
    op == 0x03 || op == 0x13 || op == 0x23 || op == 0x33
}

pub open spec fn is_dec_rr(op: u8) -> bool {
    op == 0x0B || op == 0x1B || op == 0x2B || op == 0x3B
}

pub open spec fn is_add_hl_rr(op: u8) -> bool {
    op == 0x09 || op == 0x19 || op == 0x29 || op == 0x39
}

pub open spec fn is_inc_r(op: u8) -> bool {
    op == 0x04 || op == 0x14 || op == 0x24 || op == 0x0C || op == 0x1C || op == 0x2C || op == 0x3C
}

pub open spec fn is_dec_r(op: u8) -> bool {
    op == 0x05 || op == 0x15 || op == 0x25 || op == 0x0D || op == 0x1D || op == 0x2D || op == 0x3D
}

pub open spec fn is_ld_r_r(op: u8) -> bool {
    0x40 <= op <= 0x7F && src_index(op) != 6 && dest_index(op) != 6
}

pub open spec fn is_alu_r(op: u8) -> bool {
    0x80 <= op <= 0xBF && src_index(op) != 6
}

/// Opcodes of one byte that touch only the CPU.
pub open spec fn is_reg_op(op: u8) -> bool {
    ||| op == 0x00
    ||| op == 0x07
    ||| op == 0x0F
    ||| op == 0x17
    ||| op == 0x1F
    ||| op == 0x2F
    ||| op == 0x27
    ||| op == 0x37
    ||| op == 0x3F
    ||| op == 0xE9
    ||| op == 0xF3
    ||| op == 0xF9
    ||| op == 0xFB
    ||| is_inc_rr(op)
    ||| is_dec_rr(op)
    ||| is_add_hl_rr(op)
    ||| is_inc_r(op)
    ||| is_dec_r(op)
    ||| is_ld_r_r(op)
    ||| is_alu_r(op)
}

/// New state and extra m-cycles of an opcode of one byte that touches only the CPU.
pub open spec fn reg_op(op: u8, s: CpuState) -> (CpuState, u8) {
    let a = s.a();
    if op == 0x00 {
        (s, 0)
    } else if op == 0x07 {
        (s.with_a(rlc8(a)).with_flags(false, false, false, bit7(a)), 0)
    } else if op == 0x0F {
        (s.with_a(rrc8(a)).with_flags(false, false, false, bit0(a)), 0)
    } else if op == 0x17 {
        (s.with_a(rl8(a, s.carry())).with_flags(false, false, false, bit7(a)), 0)
    } else if op == 0x1F {
        (s.with_a(rr8(a, s.carry())).with_flags(false, false, false, bit0(a)), 0)
    } else if op == 0x2F {
        (s.with_a(!a).with_flags(s.zero(), true, true, s.carry()), 0)
    } else if op == 0x27 {
        (daa_spec(s), 0)
    } else if op == 0x37 {
        (s.with_flags(s.zero(), false, false, true), 0)
    } else if op == 0x3F {
        (s.with_flags(s.zero(), false, false, !s.carry()), 0)
    } else if op == 0xE9 {
        (s.with_pc(s.hl), 0)
    } else if op == 0xF3 {
        (CpuState { mie: false, ..s }, 0)
    } else if op == 0xF9 {
        (s.with_sp(s.hl), 1)
    } else if op == 0xFB {
        (CpuState { mie: true, ..s }, 0)
    } else if is_inc_rr(op) {
        (s.with_r16(rr_index(op), wrap16(s.r16(rr_index(op)) + 1)), 1)
    } else if is_dec_rr(op) {
        (s.with_r16(rr_index(op), wrap16(s.r16(rr_index(op)) - 1)), 1)
    } else if is_add_hl_rr(op) {
        let v = s.r16(rr_index(op));
        (
            s.with_hl(wrap16(s.hl + v)).with_flags(
                s.zero(),
                false,
                (s.hl & 0xFFF) + (v & 0xFFF) > 0xFFF,
                s.hl + v > 0xFFFF,
            ),
            1,
        )
    } else if is_inc_r(op) {
        let v = s.r8(dest_index(op));
        (inc_spec_flags(s.with_r8(dest_index(op), wrap8(v + 1)), v), 0)
    } else if is_dec_r(op) {
        let v = s.r8(dest_index(op));
        (dec_spec_flags(s.with_r8(dest_index(op), wrap8(v - 1)), v), 0)
    } else if is_ld_r_r(op) {
        (s.with_r8(dest_index(op), s.r8(src_index(op))), 0)
    } else {
        (alu_spec(s, alu_op_of(op), s.r8(src_index(op))), 0)
    }
}

pub open spec fn is_ld_r_n(op: u8) -> bool {
    op == 0x06 || op == 0x0E || op == 0x16 || op == 0x1E || op == 0x26 || op == 0x2E || op == 0x3E
}

pub open spec fn is_jr_cc(op: u8) -> bool {
    op == 0x20 || op == 0x28 || op == 0x30 || op == 0x38
}

pub open spec fn is_alu_nn(op: u8) -> bool {
    op == 0xC6 || op == 0xCE || op == 0xD6 || op == 0xDE || op == 0xE6 || op == 0xEE || op == 0xF6
        || op == 0xFE
}

/// Opcodes of two bytes that touch only the CPU.
pub open spec fn is_imm8_op(op: u8) -> bool {
    is_ld_r_n(op) || op == 0x18 || is_jr_cc(op) || is_alu_nn(op) || op == 0xE8 || op == 0xF8
}

/// The 2 byte opcode made of `op` and the byte that follows it.
pub open spec fn opcode16(op: u8, n: u8) -> u16 {
    ((op as u16) << 8) | n as u16
}

/// New state and extra m-cycles of an opcode of two bytes that touches only the CPU.
pub open spec fn imm8_op(op: u8, op16: u16, s: CpuState) -> (CpuState, u8) {
    let n = (op16 & 0xFF) as u8;
    if is_ld_r_n(op) {
        (s.with_r8(dest_index((op16 >> 8) as u8), n), 0)
    } else if op == 0x18 {
        (s.with_pc(wrap16(s.pc + relative_offset(op16))), 1)
    } else if is_jr_cc(op) {
        if condition(s, cc_u16(op16)) {
            (s.with_pc(wrap16(s.pc + relative_offset(op16))), 1)
        } else {
            (s, 0)
        }
    } else if is_alu_nn(op) {
        (alu_spec(s, alu_op_of(op), n), 0)
    } else if op == 0xE8 {
        (sp_offset_flags(s, op16).with_sp(wrap16(s.sp + relative_offset(op16))), 2)
    } else {
        (sp_offset_flags(s, op16).with_hl(wrap16(s.sp + relative_offset(op16))), 1)
    }
}

/// Opcodes of three bytes that touch only the CPU.
pub open spec fn is_imm16_op(op: u8) -> bool {
    op == 0x01 || op == 0x11 || op == 0x21 || op == 0x31 || op == 0xC2 || op == 0xD2 || op == 0xCA
        || op == 0xDA || op == 0xC3
}

/// The 3 byte opcode made of `op` and the two bytes that follow it.
pub open spec fn opcode32(op: u8, n1: u8, n2: u8) -> u32 {
    ((((op as u32) << 8) | n1 as u32) << 8) | n2 as u32
}

/// New state and extra m-cycles of an opcode of three bytes that touches only the CPU.
pub open spec fn imm16_op(op: u8, op32: u32, s: CpuState) -> (CpuState, u8) {
    if op == 0x01 || op == 0x11 || op == 0x21 || op == 0x31 {
        (s.with_r16(rr_index(first_byte(op32)), address_operand(op32)), 0)
    } else if op == 0xC3 {
        (s.with_pc(address_operand(op32)), 1)
    } else if condition(s, cc_u32(op32)) {
        (s.with_pc(address_operand(op32)), 1)
    } else {
        (s, 0)
    }
}

pub open spec fn is_ld_r_hl(op: u8) -> bool {
    op == 0x46 || op == 0x4E || op == 0x56 || op == 0x5E || op == 0x66 || op == 0x6E || op == 0x7E
}

pub open spec fn is_ld_hl_r(op: u8) -> bool {
    (0x70 <= op <= 0x75) || op == 0x77
}

pub open spec fn is_ret_cc(op: u8) -> bool {
    op == 0xC0 || op == 0xC8 || op == 0xD0 || op == 0xD8
}

pub open spec fn is_pop(op: u8) -> bool {
    op == 0xC1 || op == 0xD1 || op == 0xE1 || op == 0xF1
}

pub open spec fn is_push(op: u8) -> bool {
    op == 0xC5 || op == 0xD5 || op == 0xE5 || op == 0xF5
}

pub open spec fn is_rst(op: u8) -> bool {
    op == 0xC7 || op == 0xCF || op == 0xD7 || op == 0xDF || op == 0xE7 || op == 0xEF || op == 0xF7
        || op == 0xFF
}

pub open spec fn is_alu_hl(op: u8) -> bool {
    op == 0x86 || op == 0x8E || op == 0x96 || op == 0x9E || op == 0xA6 || op == 0xAE || op == 0xB6
        || op == 0xBE
}

/// Opcodes of one byte that access the memory.
pub open spec fn is_mem_op(op: u8) -> bool {
    ||| op == 0x02
    ||| op == 0x0A
    ||| op == 0x12
    ||| op == 0x1A
    ||| op == 0x22
    ||| op == 0x2A
    ||| op == 0x32
    ||| op == 0x34
    ||| op == 0x35
    ||| op == 0x3A
    ||| op == 0x76
    ||| is_alu_hl(op)
    ||| op == 0xC9
    ||| op == 0xD9
    ||| op == 0xE2
    ||| op == 0xF2
    ||| is_ld_r_hl(op)
    ||| is_ld_hl_r(op)
    ||| is_ret_cc(op)
    ||| is_pop(op)
    ||| is_push(op)
    ||| is_rst(op)
}

/// What an opcode of one byte that accesses the memory does: from state `s` to state `t`, with
/// the accesses `ops` and `c` extra m-cycles.
pub open spec fn mem_op(op: u8, s: CpuState, t: CpuState, ops: Seq<BusOp>, c: u8) -> bool {
    let v = first_value(ops);
    if op == 0x02 {
        c == 0 && t == s && writes_once(ops, s.bc, s.a())
    } else if op == 0x0A {
        c == 0 && reads_once(ops, s.bc) && t == s.with_a(v)
    } else if op == 0x12 {
        c == 0 && t == s && writes_once(ops, s.de, s.a())
    } else if op == 0x1A {
        c == 0 && reads_once(ops, s.de) && t == s.with_a(v)
    } else if op == 0x22 {
        c == 0 && t == s.with_hl(wrap16(s.hl + 1)) && writes_once(ops, s.hl, s.a())
    } else if op == 0x2A {
        c == 0 && reads_once(ops, s.hl) && t == s.with_a(v).with_hl(wrap16(s.hl + 1))
    } else if op == 0x32 {
        c == 0 && t == s.with_hl(wrap16(s.hl - 1)) && writes_once(ops, s.hl, s.a())
    } else if op == 0x3A {
        c == 0 && reads_once(ops, s.hl) && t == s.with_a(v).with_hl(wrap16(s.hl - 1))
    } else if op == 0x34 {
        c == 0 && hl_rmw(s.hl, ops, wrap8(v + 1)) && t == inc_spec_flags(s, v)
    } else if op == 0x35 {
        c == 0 && hl_rmw(s.hl, ops, wrap8(v - 1)) && t == dec_spec_flags(s, v)
    } else if op == 0x76 {
        c == 0 && t == (CpuState { halt: true, ..s }) && ops == seq![BusOp::Halt(true)]
    } else if is_alu_hl(op) {
        c == 0 && reads_once(ops, s.hl) && t == alu_spec(s, alu_op_of(op), v)
    } else if op == 0xC9 {
        c == 1 && returned(s, t, ops)
    } else if op == 0xD9 {
        &&& c == 1
        &&& pop_ops_shape(s.sp, ops)
        &&& t == (CpuState {
            mie: true,
            ..s.with_sp(wrap16(s.sp + 2)).with_pc(popped_value(ops))
        })
    } else if op == 0xE2 {
        c == 0 && t == s && writes_once(ops, io_address(s.r8(1)), s.a())
    } else if op == 0xF2 {
        c == 0 && reads_once(ops, io_address(s.r8(1))) && t == s.with_a(v)
    } else if is_ld_r_hl(op) {
        c == 0 && reads_once(ops, s.hl) && t == s.with_r8(dest_index(op), v)
    } else if is_ld_hl_r(op) {
        c == 0 && t == s && writes_once(ops, s.hl, s.r8(src_index(op)))
    } else if is_ret_cc(op) {
        if condition(s, cc_u8(op)) {
            c == 2 && returned(s, t, ops)
        } else {
            c == 1 && t == s && ops.len() == 0
        }
    } else if is_pop(op) {
        &&& c == 0
        &&& pop_ops_shape(s.sp, ops)
        &&& t == s.with_sp(wrap16(s.sp + 2)).with_stack_r16(rr_index(op), popped_value(ops))
    } else if is_push(op) {
        &&& c == 1
        &&& t == s.with_sp(wrap16(s.sp - 2))
        &&& ops == push_ops(s.sp, s.stack_r16(rr_index(op)))
    } else {
        c == 1 && called(s, t, ops, rst_target(op))
    }
}

/// Opcodes of two bytes that access the memory.
pub open spec fn is_mem_imm8_op(op: u8) -> bool {
    op == 0x36 || op == 0xE0 || op == 0xF0
}

pub open spec fn mem_imm8_op(op: u8, op16: u16, s: CpuState, t: CpuState, ops: Seq<BusOp>, c: u8) -> bool {
    let n = (op16 & 0xFF) as u8;
    if op == 0x36 {
        c == 0 && t == s && writes_once(ops, s.hl, n)
    } else if op == 0xE0 {
        c == 0 && t == s && writes_once(ops, io_address(n), s.a())
    } else {
        c == 0 && reads_once(ops, io_address(n)) && t == s.with_a(first_value(ops))
    }
}

pub open spec fn is_call_cc(op: u8) -> bool {
    op == 0xC4 || op == 0xCC || op == 0xD4 || op == 0xDC
}

/// Opcodes of three bytes that access the memory.
pub open spec fn is_mem_imm16_op(op: u8) -> bool {
    op == 0x08 || is_call_cc(op) || op == 0xCD || op == 0xEA || op == 0xFA
}

pub open spec fn mem_imm16_op(op: u8, op32: u32, s: CpuState, t: CpuState, ops: Seq<BusOp>, c: u8) -> bool {
    let nn = address_operand(op32);
    if op == 0x08 {
        &&& c == 0
        &&& t == s
        &&& ops == seq![
            BusOp::Write { address: nn, value: (s.sp & 0xFF) as u8, m_cycles: 1 },
            BusOp::Write { address: wrap16(nn + 1), value: (s.sp >> 8) as u8, m_cycles: 1 },
        ]
    } else if is_call_cc(op) {
        if condition(s, cc_u32(op32)) {
            c == 1 && called(s, t, ops, nn)
        } else {
            c == 0 && t == s && ops.len() == 0
        }
    } else if op == 0xCD {
        c == 1 && called(s, t, ops, nn)
    } else if op == 0xEA {
        c == 0 && t == s && writes_once(ops, nn, s.a())
    } else {
        c == 0 && reads_once(ops, nn) && t == s.with_a(first_value(ops))
    }
}

/// The 2 byte opcode of the 0xCB table.
pub open spec fn cb16(next: u8) -> u16 {
    opcode16(0xCB, next)
}

/// New state of a 0xCB prefixed opcode on a register.
pub open spec fn cb_reg_op(next: u8, s: CpuState) -> CpuState {
    let op16 = cb16(next);
    let i = cb_reg(op16);
    let v = s.r8(i);
    if next < 0x08 {
        shifted(s, i, rlc8(v), bit7(v))
    } else if next < 0x10 {
        shifted(s, i, rrc8(v), bit0(v))
    } else if next < 0x18 {
        shifted(s, i, rl8(v, s.carry()), bit7(v))
    } else if next < 0x20 {
        shifted(s, i, rr8(v, s.carry()), bit0(v))
    } else if next < 0x28 {
        shifted(s, i, sla8(v), bit7(v))
    } else if next < 0x30 {
        shifted(s, i, sra8(v), bit0(v))
    } else if next < 0x38 {
        shifted(s, i, swap8(v), false)
    } else if next < 0x40 {
        shifted(s, i, srl8(v), bit0(v))
    } else if next < 0x80 {
        s.with_flags(v & cb_bit_mask(op16) == 0, false, true, s.carry())
    } else if next < 0xC0 {
        s.with_r8(i, v & (0xFF ^ cb_bit_mask(op16)))
    } else {
        s.with_r8(i, v | cb_bit_mask(op16))
    }
}

/// What a 0xCB prefixed opcode on (HL) does.
pub open spec fn cb_hl_op(next: u8, s: CpuState, t: CpuState, ops: Seq<BusOp>) -> bool {
    let op16 = cb16(next);
    let v = first_value(ops);
    if next < 0x40 {
        let (r, c) = if next < 0x08 {
            (rlc8(v), bit7(v))
        } else if next < 0x10 {
            (rrc8(v), bit0(v))
        } else if next < 0x18 {
            (rl8(v, s.carry()), bit7(v))
        } else if next < 0x20 {
            (rr8(v, s.carry()), bit0(v))
        } else if next < 0x28 {
            (sla8(v), bit7(v))
        } else if next < 0x30 {
            (sra8(v), bit0(v))
        } else if next < 0x38 {
            (swap8(v), false)
        } else {
            (srl8(v), bit0(v))
        };
        hl_rmw(s.hl, ops, r) && t == s.with_flags(r == 0, false, false, c)
    } else if next < 0x80 {
        reads_once(ops, s.hl) && t == s.with_flags(
            v & cb_bit_mask(op16) == 0,
            false,
            true,
            s.carry(),
        )
    } else if next < 0xC0 {
        t == s && hl_rmw(s.hl, ops, v & (0xFF ^ cb_bit_mask(op16)))
    } else {
        t == s && hl_rmw(s.hl, ops, v | cb_bit_mask(op16))
    }
}

/// The state after fetching one more byte of the opcode.
pub open spec fn fetched(s: CpuState) -> CpuState {
    s.with_pc(wrap16(s.pc + 1))
}

/// The access that fetches the byte at the program counter.
pub open spec fn fetch_op(s: CpuState, ops: Seq<BusOp>, i: int) -> bool {
    ops.len() > i && ops[i] == BusOp::Read { address: s.pc, m_cycles: 1, value: bus_value(ops[i]) }
}

/// The extra m-cycles in a result, and whether it is a success.
pub open spec fn ok_with(r: Result<u8, OpcodeError>, c: u8) -> bool {
    r == Ok::<u8, OpcodeError>(c)
}

/// What running one opcode does: the opcode is fetched at the program counter (and with it its
/// operands), then the instruction it encodes runs. `ops` are the accesses to the memory.
pub open spec fn step(s: CpuState, t: CpuState, ops: Seq<BusOp>, r: Result<u8, OpcodeError>) -> bool {
    let op = bus_value(ops[0]);
    let s1 = fetched(s);
    let n1 = bus_value(ops[1]);
    let s2 = fetched(s1);
    let n2 = bus_value(ops[2]);
    let s3 = fetched(s2);
    &&& fetch_op(s, ops, 0)
    &&& if op == 0x10 {
        &&& fetch_op(s1, ops, 1)
        &&& if n1 == 0 {
            r == Ok::<u8, OpcodeError>(0) && stop_effect(s2, t, ops.subrange(2, ops.len() as int))
        } else {
            r == Err::<u8, OpcodeError>(OpcodeError::InvalidStopOpcode(n1)) && t == s2 && ops.len()
                == 2
        }
    } else if is_reg_op(op) {
        ops.len() == 1 && ok_with(r, reg_op(op, s1).1) && t == reg_op(op, s1).0
    } else if is_imm8_op(op) {
        &&& fetch_op(s1, ops, 1)
        &&& ops.len() == 2
        &&& ok_with(r, imm8_op(op, opcode16(op, n1), s2).1)
        &&& t == imm8_op(op, opcode16(op, n1), s2).0
    } else if is_imm16_op(op) {
        &&& fetch_op(s1, ops, 1)
        &&& fetch_op(s2, ops, 2)
        &&& ops.len() == 3
        &&& ok_with(r, imm16_op(op, opcode32(op, n1, n2), s3).1)
        &&& t == imm16_op(op, opcode32(op, n1, n2), s3).0
    } else if is_mem_op(op) {
        match r {
            Ok(c) => mem_op(op, s1, t, ops.subrange(1, ops.len() as int), c),
            Err(_) => false,
        }
    } else if is_mem_imm8_op(op) {
        &&& fetch_op(s1, ops, 1)
        &&& match r {
            Ok(c) => mem_imm8_op(op, opcode16(op, n1), s2, t, ops.subrange(2, ops.len() as int), c),
            Err(_) => false,
        }
    } else if is_mem_imm16_op(op) {
        &&& fetch_op(s1, ops, 1)
        &&& fetch_op(s2, ops, 2)
        &&& match r {
            Ok(c) => mem_imm16_op(
                op,
                opcode32(op, n1, n2),
                s3,
                t,
                ops.subrange(3, ops.len() as int),
                c,
            ),
            Err(_) => false,
        }
    } else if op == 0xCB {
        &&& fetch_op(s1, ops, 1)
        &&& r == Ok::<u8, OpcodeError>(0)
        &&& if src_index(n1) != 6 {
            ops.len() == 2 && t == cb_reg_op(n1, s2)
        } else {
            cb_hl_op(n1, s2, t, ops.subrange(2, ops.len() as int))
        }
    } else {
        r == Err::<u8, OpcodeError>(OpcodeError::UnsupportedOpcode(op)) && t == s1 && ops.len() == 1
    }
}


// ---------------------------------------------------------------------------------------------
// Running
// ---------------------------------------------------------------------------------------------

/// The accesses of `a` to `c` are those of `a` to `b`, then those of `b` to `c`.
proof fn lemma_split(a: Seq<BusOp>, b: Seq<BusOp>, c: Seq<BusOp>)
    requires
        log_extends(a, b),
        log_extends(b, c),
    ensures
        log_extends(a, c),
        new_ops(a, c) == new_ops(a, b) + new_ops(b, c),
        new_ops(a, c).len() == new_ops(a, b).len() + new_ops(b, c).len(),
        forall|i: int| 0 <= i < new_ops(a, b).len() ==> new_ops(a, c)[i] == new_ops(a, b)[i],
        new_ops(a, c).subrange(new_ops(a, b).len() as int, new_ops(a, c).len() as int) == new_ops(b, c),
{
    lemma_log_trans(a, b, c);
    let x = new_ops(a, b);
    let y = new_ops(b, c);
    assert((x + y).subrange(x.len() as int, (x + y).len() as int) =~= y);
}

proof fn lemma_opcode16(op: u8, n: u8)
    ensures
        ((opcode16(op, n) >> 8) as u8) == op,
        ((opcode16(op, n) & 0xFF) as u8) == n,
        cb_reg(opcode16(op, n)) == src_index(n),
{
    assert(((((op as u16) << 8) | n as u16) >> 8) as u8 == op && ((((op as u16) << 8) | n as u16) & 0xFF) as u8 == n
        && (((((op as u16) << 8) | n as u16) & 0xFF) as u8) & 0b111 == n & 0b111) by (bit_vector);
}

proof fn lemma_register_fields(op: u8)
    ensures
        0xA8 <= op <= 0xAF ==> src_index(op) == op - 0xA8,
        is_inc_r(op) ==> dest_index(op) != 6,
        is_dec_r(op) ==> dest_index(op) != 6,
        is_ld_r_n(op) ==> dest_index(op) != 6,
        is_ld_r_hl(op) ==> dest_index(op) != 6,
        is_ld_hl_r(op) ==> src_index(op) != 6,
{
    assert(((op == 0x04 || op == 0x14 || op == 0x24 || op == 0x0C || op == 0x1C || op == 0x2C || op == 0x3C)
        ==> (op >> 3) & 0b111 != 6) && ((op == 0x05 || op == 0x15 || op == 0x25 || op == 0x0D || op == 0x1D
        || op == 0x2D || op == 0x3D) ==> (op >> 3) & 0b111 != 6) && ((op == 0x06 || op == 0x0E || op == 0x16
        || op == 0x1E || op == 0x26 || op == 0x2E || op == 0x3E) ==> (op >> 3) & 0b111 != 6) && ((op == 0x46
        || op == 0x4E || op == 0x56 || op == 0x5E || op == 0x66 || op == 0x6E || op == 0x7E) ==> (op >> 3) & 0b111
        != 6) && (((0x70 <= op && op <= 0x75) || op == 0x77) ==> op & 0b111 != 6) && ((0xA8 <= op && op
        <= 0xAF) ==> op & 0b111 == op - 0xA8)) by (bit_vector);
}

fn is_reg_opcode(op: u8) -> (b: bool)
    ensures
        b == is_reg_op(op),
{
    let src = op & 0b111;
    let dest = (op >> 3) & 0b111;
    op == 0x00 || op == 0x07 || op == 0x0F || op == 0x17 || op == 0x1F || op == 0x2F || op == 0x27
        || op == 0x37 || op == 0x3F || op == 0xE9 || op == 0xF3 || op == 0xF9 || op == 0xFB
        || op == 0x03 || op == 0x13 || op == 0x23 || op == 0x33 || op == 0x0B || op == 0x1B
        || op == 0x2B || op == 0x3B || op == 0x09 || op == 0x19 || op == 0x29 || op == 0x39
        || op == 0x04 || op == 0x14 || op == 0x24 || op == 0x0C || op == 0x1C || op == 0x2C
        || op == 0x3C || op == 0x05 || op == 0x15 || op == 0x25 || op == 0x0D || op == 0x1D
        || op == 0x2D || op == 0x3D || (0x40 <= op && op <= 0x7F && src != 6 && dest != 6) || (0x80
        <= op && op <= 0xBF && src != 6)
}

fn is_imm8_opcode(op: u8) -> (b: bool)
    ensures
        b == is_imm8_op(op),
{
    op == 0x06 || op == 0x0E || op == 0x16 || op == 0x1E || op == 0x26 || op == 0x2E || op == 0x3E
        || op == 0x18 || op == 0x20 || op == 0x28 || op == 0x30 || op == 0x38 || op == 0xC6 || op
        == 0xCE || op == 0xD6 || op == 0xDE || op == 0xE6 || op == 0xEE || op == 0xF6 || op == 0xFE
        || op == 0xE8 || op == 0xF8
}

fn is_imm16_opcode(op: u8) -> (b: bool)
    ensures
        b == is_imm16_op(op),
{
    op == 0x01 || op == 0x11 || op == 0x21 || op == 0x31 || op == 0xC2 || op == 0xD2 || op == 0xCA
        || op == 0xDA || op == 0xC3
}

fn is_mem_opcode(op: u8) -> (b: bool)
    ensures
        b == is_mem_op(op),
{
    op == 0x02 || op == 0x0A || op == 0x12 || op == 0x1A || op == 0x22 || op == 0x2A || op == 0x32
        || op == 0x34 || op == 0x35 || op == 0x3A || op == 0x76 || op == 0x86 || op == 0x8E || op
        == 0x96 || op == 0x9E || op == 0xA6 || op == 0xAE || op == 0xB6 || op == 0xBE || op == 0xC9
        || op == 0xD9 || op == 0xE2 || op == 0xF2 || op == 0x46 || op == 0x4E || op == 0x56 || op
        == 0x5E || op == 0x66 || op == 0x6E || op == 0x7E || (0x70 <= op && op <= 0x75) || op
        == 0x77 || op == 0xC0 || op == 0xC8 || op == 0xD0 || op == 0xD8 || op == 0xC1 || op == 0xD1
        || op == 0xE1 || op == 0xF1 || op == 0xC5 || op == 0xD5 || op == 0xE5 || op == 0xF5 || op
        == 0xC7 || op == 0xCF || op == 0xD7 || op == 0xDF || op == 0xE7 || op == 0xEF || op == 0xF7
        || op == 0xFF
}

fn is_mem_imm16_opcode(op: u8) -> (b: bool)
    ensures
        b == is_mem_imm16_op(op),
{
    op == 0x08 || op == 0xC4 || op == 0xCC || op == 0xD4 || op == 0xDC || op == 0xCD || op == 0xEA
        || op == 0xFA
}

fn execute_reg_opcode(cpu: &mut GbCpu, op: u8) -> (cycles: u8)
    requires
        is_reg_op(op),
    ensures
        final(cpu)@ == reg_op(op, old(cpu)@).0,
        cycles == reg_op(op, old(cpu)@).1,
{
    proof {
        lemma_register_fields(op);
    }
    if op == 0x00 {
        // 1 cycles - 1 reading opcode
        0
    } else if op == 0x07 {
        rlca(cpu)
    } else if op == 0x0F {
        rrca(cpu)
    } else if op == 0x17 {
        rla(cpu)
    } else if op == 0x1F {
        rra(cpu)
    } else if op == 0x2F {
        cpl(cpu)
    } else if op == 0x27 {
        daa(cpu)
    } else if op == 0x37 {
        scf(cpu)
    } else if op == 0x3F {
        ccf(cpu)
    } else if op == 0xE9 {
        jump_hl(cpu)
    } else if op == 0xF3 {
        di(cpu)
    } else if op == 0xF9 {
        load_sp_hl(cpu)
    } else if op == 0xFB {
        ei(cpu)
    } else if op == 0x03 || op == 0x13 || op == 0x23 || op == 0x33 {
        inc_rr(cpu, op)
    } else if op == 0x0B || op == 0x1B || op == 0x2B || op == 0x3B {
        dec_rr(cpu, op)
    } else if op == 0x09 || op == 0x19 || op == 0x29 || op == 0x39 {
        add_hl_rr(cpu, op)
    } else if op == 0x04 || op == 0x14 || op == 0x24 || op == 0x0C || op == 0x1C || op == 0x2C
        || op == 0x3C {
        inc_r(cpu, op)
    } else if op == 0x05 || op == 0x15 || op == 0x25 || op == 0x0D || op == 0x1D || op == 0x2D
        || op == 0x3D {
        dec_r(cpu, op)
    } else if op <= 0x7F {
        ld_r_r(cpu, op)
    } else if op < 0x88 {
        add_a_r(cpu, op)
    } else if op < 0x90 {
        adc_a_r(cpu, op)
    } else if op < 0x98 {
        sub_a_r(cpu, op)
    } else if op < 0xA0 {
        sbc_a_r(cpu, op)
    } else if op < 0xA8 {
        and_a_r(cpu, op)
    } else if op < 0xB0 {
        xor_a_r(cpu, op)
    } else if op < 0xB8 {
        or_a_r(cpu, op)
    } else {
        cp_a_r(cpu, op)
    }
}

fn execute_imm8_opcode(cpu: &mut GbCpu, op: u8, opcode: u16) -> (cycles: u8)
    requires
        is_imm8_op(op),
        ((opcode >> 8) as u8) == op,
    ensures
        final(cpu)@ == imm8_op(op, opcode, old(cpu)@).0,
        cycles == imm8_op(op, opcode, old(cpu)@).1,
{
    proof {
        lemma_register_fields(op);
    }
    if op == 0x06 || op == 0x0E || op == 0x16 || op == 0x1E || op == 0x26 || op == 0x2E || op
        == 0x3E {
        ld_r_n(cpu, opcode)
    } else if op == 0x18 {
        jump_r(cpu, opcode)
    } else if op == 0x20 || op == 0x28 || op == 0x30 || op == 0x38 {
        jump_r_cc(cpu, opcode)
    } else if op == 0xC6 {
        add_a_nn(cpu, opcode)
    } else if op == 0xCE {
        adc_a_nn(cpu, opcode)
    } else if op == 0xD6 {
        sub_a_nn(cpu, opcode)
    } else if op == 0xDE {
        sbc_a_nn(cpu, opcode)
    } else if op == 0xE6 {
        and_a_nn(cpu, opcode)
    } else if op == 0xEE {
        xor_a_nn(cpu, opcode)
    } else if op == 0xF6 {
        or_a_nn(cpu, opcode)
    } else if op == 0xFE {
        cp_a_nn(cpu, opcode)
    } else if op == 0xE8 {
        add_sp_dd(cpu, opcode)
    } else {
        ld_hl_spdd(cpu, opcode)
    }
}

fn execute_imm16_opcode(cpu: &mut GbCpu, op: u8, opcode: u32) -> (cycles: u8)
    requires
        is_imm16_op(op),
    ensures
        final(cpu)@ == imm16_op(op, opcode, old(cpu)@).0,
        cycles == imm16_op(op, opcode, old(cpu)@).1,
{
    if op == 0x01 || op == 0x11 || op == 0x21 || op == 0x31 {
        load_rr_nn(cpu, opcode)
    } else if op == 0xC3 {
        jump(cpu, opcode)
    } else {
        jump_cc(cpu, opcode)
    }
}

fn execute_mem_opcode<M: Memory>(cpu: &mut GbCpu, memory: &mut M, op: u8) -> (cycles: u8)
    requires
        is_mem_op(op),
    ensures
        log_extends(old(memory).bus_log(), final(memory).bus_log()),
        mem_op(op, old(cpu)@, final(cpu)@, new_ops(old(memory).bus_log(), final(memory).bus_log()), cycles),
{
    proof {
        lemma_register_fields(op);
    }
    if op == 0x02 {
        ld_bc_a(cpu, memory)
    } else if op == 0x0A {
        ld_a_bc(cpu, memory)
    } else if op == 0x12 {
        ld_de_a(cpu, memory)
    } else if op == 0x1A {
        ld_a_de(cpu, memory)
    } else if op == 0x22 {
        ldi_hl_a(cpu, memory)
    } else if op == 0x2A {
        ldi_a_hl(cpu, memory)
    } else if op == 0x32 {
        ldd_hl_a(cpu, memory)
    } else if op == 0x3A {
        ldd_a_hl(cpu, memory)
    } else if op == 0x34 {
        inc_hl(cpu, memory)
    } else if op == 0x35 {
        dec_hl(cpu, memory)
    } else if op == 0x76 {
        halt(cpu, memory)
    } else if op == 0x86 {
        add_a_hl(cpu, memory)
    } else if op == 0x8E {
        adc_a_hl(cpu, memory)
    } else if op == 0x96 {
        sub_a_hl(cpu, memory)
    } else if op == 0x9E {
        sbc_a_hl(cpu, memory)
    } else if op == 0xA6 {
        and_a_hl(cpu, memory)
    } else if op == 0xAE {
        xor_a_hl(cpu, memory)
    } else if op == 0xB6 {
        or_a_hl(cpu, memory)
    } else if op == 0xBE {
        cp_a_hl(cpu, memory)
    } else if op == 0xC9 {
        ret(cpu, memory)
    } else if op == 0xD9 {
        reti(cpu, memory)
    } else if op == 0xE2 {
        ld_ioport_c_a(cpu, memory)
    } else if op == 0xF2 {
        ld_a_ioport_c(cpu, memory)
    } else if op == 0x46 || op == 0x4E || op == 0x56 || op == 0x5E || op == 0x66 || op == 0x6E
        || op == 0x7E {
        ld_r_hl(cpu, memory, op)
    } else if (0x70 <= op && op <= 0x75) || op == 0x77 {
        ld_hl_r(cpu, memory, op)
    } else if op == 0xC0 || op == 0xC8 || op == 0xD0 || op == 0xD8 {
        ret_cc(cpu, memory, op)
    } else if op == 0xC1 || op == 0xD1 || op == 0xE1 || op == 0xF1 {
        pop(cpu, memory, op)
    } else if op == 0xC5 || op == 0xD5 || op == 0xE5 || op == 0xF5 {
        push(cpu, memory, op)
    } else {
        rst(cpu, memory, op)
    }
}

fn execute_mem_imm8_opcode<M: Memory>(cpu: &mut GbCpu, memory: &mut M, op: u8, opcode: u16) -> (cycles: u8)
    requires
        is_mem_imm8_op(op),
    ensures
        log_extends(old(memory).bus_log(), final(memory).bus_log()),
        mem_imm8_op(op, opcode, old(cpu)@, final(cpu)@, new_ops(old(memory).bus_log(), final(memory).bus_log()), cycles),
{
    if op == 0x36 {
        ld_hl_n(cpu, memory, opcode)
    } else if op == 0xE0 {
        ld_ioport_n_a(cpu, memory, opcode)
    } else {
        ld_a_ioport_n(cpu, memory, opcode)
    }
}

fn execute_mem_imm16_opcode<M: Memory>(cpu: &mut GbCpu, memory: &mut M, op: u8, opcode: u32) -> (cycles: u8)
    requires
        is_mem_imm16_op(op),
    ensures
        log_extends(old(memory).bus_log(), final(memory).bus_log()),
        mem_imm16_op(op, opcode, old(cpu)@, final(cpu)@, new_ops(old(memory).bus_log(), final(memory).bus_log()), cycles),
{
    if op == 0x08 {
        ld_nn_sp(cpu, memory, opcode)
    } else if op == 0xC4 || op == 0xCC || op == 0xD4 || op == 0xDC {
        call_cc(cpu, memory, opcode)
    } else if op == 0xCD {
        call(cpu, memory, opcode)
    } else if op == 0xEA {
        ld_nn_a(cpu, memory, opcode)
    } else {
        ld_a_nn(cpu, memory, opcode)
    }
}

fn execute_cb_register_opcode(cpu: &mut GbCpu, next: u8, opcode: u16) -> (cycles: u8)
    requires
        opcode == cb16(next),
        src_index(next) != 6,
    ensures
        cycles == 0,
        final(cpu)@ == cb_reg_op(next, old(cpu)@),
{
    proof {
        lemma_opcode16(0xCB, next);
    }
    if next < 0x08 {
        rlc_r(cpu, opcode)
    } else if next < 0x10 {
        rrc_r(cpu, opcode)
    } else if next < 0x18 {
        rl_r(cpu, opcode)
    } else if next < 0x20 {
        rr_r(cpu, opcode)
    } else if next < 0x28 {
        sla_r(cpu, opcode)
    } else if next < 0x30 {
        sra_r(cpu, opcode)
    } else if next < 0x38 {
        swap_r(cpu, opcode)
    } else if next < 0x40 {
        srl_r(cpu, opcode)
    } else if next < 0x80 {
        bit_r(cpu, opcode)
    } else if next < 0xC0 {
        res_r(cpu, opcode)
    } else {
        set_r(cpu, opcode)
    }
}

fn execute_cb_hl_opcode<M: Memory>(cpu: &mut GbCpu, memory: &mut M, next: u8, opcode: u16) -> (cycles: u8)
    requires
        opcode == cb16(next),
    ensures
        cycles == 0,
        log_extends(old(memory).bus_log(), final(memory).bus_log()),
        cb_hl_op(next, old(cpu)@, final(cpu)@, new_ops(old(memory).bus_log(), final(memory).bus_log())),
{
    if next < 0x08 {
        rlc_hl(cpu, memory)
    } else if next < 0x10 {
        rrc_hl(cpu, memory)
    } else if next < 0x18 {
        rl_hl(cpu, memory)
    } else if next < 0x20 {
        rr_hl(cpu, memory)
    } else if next < 0x28 {
        sla_hl(cpu, memory)
    } else if next < 0x30 {
        sra_hl(cpu, memory)
    } else if next < 0x38 {
        swap_hl(cpu, memory)
    } else if next < 0x40 {
        srl_hl(cpu, memory)
    } else if next < 0x80 {
        bit_hl(cpu, memory, opcode)
    } else if next < 0xC0 {
        res_hl(cpu, memory, opcode)
    } else {
        set_hl(cpu, memory, opcode)
    }
}


impl GbCpu {
    /// Fetches, decodes and runs one opcode; returns the m-cycles it took beyond its memory
    /// accesses, or why the fetched bytes are not an opcode.
    pub fn run_opcode<M: Memory>(&mut self, memory: &mut M) -> (r: Result<u8, OpcodeError>)
        ensures
            log_extends(old(memory).bus_log(), final(memory).bus_log()),
            step(old(self)@, final(self)@, new_ops(old(memory).bus_log(), final(memory).bus_log()), r),
    {
        let ghost l0 = memory.bus_log();
        let opcode = self.fetch_next_byte(memory);
        let ghost l1 = memory.bus_log();
        if opcode == 0x10 {
            // Stop
            let next_byte = self.fetch_next_byte(memory);
            let ghost l2 = memory.bus_log();
            proof {
                lemma_split(l0, l1, l2);
            }
            if next_byte == 0 {
                let cycles = stop(self, memory);
                proof {
                    lemma_split(l1, l2, memory.bus_log());
                    lemma_split(l0, l1, memory.bus_log());
                    lemma_split(l0, l2, memory.bus_log());
                }
                Ok(cycles)
            } else {
                Err(OpcodeError::InvalidStopOpcode(next_byte))
            }
        } else if is_reg_opcode(opcode) {
            Ok(execute_reg_opcode(self, opcode))
        } else if is_imm8_opcode(opcode) {
            let next = self.fetch_next_byte(memory);
            let u16_opcode = ((opcode as u16) << 8) | next as u16;
            proof {
                lemma_split(l0, l1, memory.bus_log());
                lemma_opcode16(opcode, next);
            }
            Ok(execute_imm8_opcode(self, opcode, u16_opcode))
        } else if is_imm16_opcode(opcode) {
            let u32_opcode = self.get_u32_opcode(memory, opcode);
            proof {
                lemma_split(l0, l1, memory.bus_log());
            }
            Ok(execute_imm16_opcode(self, opcode, u32_opcode))
        } else if is_mem_opcode(opcode) {
            let cycles = execute_mem_opcode(self, memory, opcode);
            proof {
                lemma_split(l0, l1, memory.bus_log());
            }
            Ok(cycles)
        } else if opcode == 0x36 || opcode == 0xE0 || opcode == 0xF0 {
            let next = self.fetch_next_byte(memory);
            let ghost l2 = memory.bus_log();
            let u16_opcode = ((opcode as u16) << 8) | next as u16;
            let cycles = execute_mem_imm8_opcode(self, memory, opcode, u16_opcode);
            proof {
                lemma_split(l0, l1, l2);
                lemma_split(l0, l2, memory.bus_log());
            }
            Ok(cycles)
        } else if is_mem_imm16_opcode(opcode) {
            let u32_opcode = self.get_u32_opcode(memory, opcode);
            let ghost l3 = memory.bus_log();
            let cycles = execute_mem_imm16_opcode(self, memory, opcode, u32_opcode);
            proof {
                lemma_split(l0, l1, l3);
                lemma_split(l0, l3, memory.bus_log());
            }
            Ok(cycles)
        } else if opcode == 0xCB {
            let next = self.fetch_next_byte(memory);
            let ghost l2 = memory.bus_log();
            let u16_opcode = ((opcode as u16) << 8) | next as u16;
            proof {
                lemma_split(l0, l1, l2);
                lemma_opcode16(opcode, next);
            }
            if next & 0b111 != 6 {
                Ok(execute_cb_register_opcode(self, next, u16_opcode))
            } else {
                let cycles = execute_cb_hl_opcode(self, memory, next, u16_opcode);
                proof {
                    lemma_split(l0, l2, memory.bus_log());
                }
                Ok(cycles)
            }
        } else {
            Err(OpcodeError::UnsupportedOpcode(opcode))
        }
    }

    /// Reads the byte at the program counter and advances it.
    fn fetch_next_byte<M: Memory>(&mut self, memory: &mut M) -> (byte: u8)
        ensures
            final(self)@ == fetched(old(self)@),
            log_extends(old(memory).bus_log(), final(memory).bus_log()),
            new_ops(old(memory).bus_log(), final(memory).bus_log()) == seq![
                BusOp::Read { address: old(self)@.pc, m_cycles: 1, value: byte },
            ],
    {
        let byte: u8 = memory.read(self.program_counter, 1);
        proof {
            lemma_log_push(
                old(memory).bus_log(),
                BusOp::Read { address: old(self)@.pc, m_cycles: 1, value: byte },
            );
        }
        self.program_counter = wrapping_add16(self.program_counter, 1);
        byte
    }

    /// Fetches the two operand bytes of a 3 byte opcode and assembles the whole opcode.
    fn get_u32_opcode<M: Memory>(&mut self, memory: &mut M, opcode: u8) -> (r: u32)
        ensures
            final(self)@ == fetched(fetched(old(self)@)),
            log_extends(old(memory).bus_log(), final(memory).bus_log()),
            ({
                let ops = new_ops(old(memory).bus_log(), final(memory).bus_log());
                &&& fetch_op(old(self)@, ops, 0)
                &&& fetch_op(fetched(old(self)@), ops, 1)
                &&& ops.len() == 2
                &&& r == opcode32(opcode, bus_value(ops[0]), bus_value(ops[1]))
            }),
    {
        let ghost l0 = memory.bus_log();
        let n1 = self.fetch_next_byte(memory);
        let ghost l1 = memory.bus_log();
        let mut u32_opcode: u32 = ((opcode as u32) << 8) | (n1 as u32);
        u32_opcode = u32_opcode << 8;
        let n2 = self.fetch_next_byte(memory);
        u32_opcode = u32_opcode | n2 as u32;
        proof {
            lemma_split(l0, l1, memory.bus_log());
        }
        u32_opcode
    }
}

/// XOR A: the opcodes 0xA8 to 0xAF exclusive-or A with B, C, D, E, H, L, the byte at HL
/// (0xAE, read from memory) or A itself, and 0xEE with the byte after the opcode. The new A is
/// the exclusive-or of the old A and the operand, Z tells whether it is 0, and N, H and C are
/// clear; XOR A with itself always gives 0 with Z set. (F's low nibble is read only, as in
/// every CPU this library makes.)
#[verifier::rlimit(40)]
#[verifier::spinoff_prover]
pub proof fn lemma_xor_opcodes(s: CpuState, t: CpuState, ops: Seq<BusOp>, r: Result<u8, OpcodeError>)
    requires
        step(s, t, ops, r),
        s.af_mask == 0xFFF0,
        (0xA8 <= bus_value(ops[0]) <= 0xAF) || bus_value(ops[0]) == 0xEE,
    ensures
        ({
            let op = bus_value(ops[0]);
            let v = if op == 0xEE || op == 0xAE { bus_value(ops[1]) } else { s.r8((op - 0xA8) as u8) };
            &&& ops.len() >= 1
            &&& r == Ok::<u8, OpcodeError>(0)
            &&& t.a() == s.a() ^ v
            &&& t.zero() == (s.a() ^ v == 0)
            &&& !t.flag(Flag::Subtraction)
            &&& !t.flag(Flag::HalfCarry)
            &&& !t.carry()
            &&& op == 0xAF ==> t.a() == 0 && t.zero()
            &&& op == 0xAE ==> ops[1] == (BusOp::Read { address: s.hl, m_cycles: 1, value: v })
        }),
{
    let op = bus_value(ops[0]);
    let s1 = fetched(s);
    let s2 = fetched(s1);
    lemma_register_fields(op);
    let a = s.a();
    let (start, v) = if op == 0xEE {
        lemma_opcode16(op, bus_value(ops[1]));
        assert(!is_reg_op(op) && is_imm8_op(op) && is_alu_nn(op));
        assert(alu_op_of(op) == AluOp::Xor);
        assert(t == imm8_op(op, opcode16(op, bus_value(ops[1])), s2).0);
        (s2, bus_value(ops[1]))
    } else if op == 0xAE {
        assert(src_index(op) == 6);
        assert(!is_reg_op(op) && !is_imm8_op(op) && !is_imm16_op(op) && is_mem_op(op));
        assert(alu_op_of(op) == AluOp::Xor);
        let c = r->Ok_0;
        let rest = ops.subrange(1, ops.len() as int);
        assert(mem_op(op, s1, t, rest, c));
        assert(reads_once(rest, s1.hl) && t == alu_spec(s1, AluOp::Xor, first_value(rest)));
        assert(rest.len() == 1);
        assert(rest[0] == ops[1]);
        (s1, bus_value(ops[1]))
    } else {
        assert(src_index(op) != 6);
        assert(is_reg_op(op));
        assert(alu_op_of(op) == AluOp::Xor);
        assert(!is_ld_r_r(op) && !is_inc_r(op) && !is_dec_r(op));
        assert(t == reg_op(op, s1).0);
        (s1, s.r8((op - 0xA8) as u8))
    };
    assert(t == alu_spec(start, AluOp::Xor, v));
    assert(start.a() == a && start.af_mask == 0xFFF0);
    let w = start.with_a(a ^ v);
    lemma_rotation_bits(a, start.af, a ^ v, false, false);
    assert(w.a() == a ^ v);
    lemma_rotation_bits(a, w.af, (w.f() & 0x0F) | crate::cpu::gb_cpu::flag_bits(a ^ v == 0, false, false, false), a ^ v == 0, false);
    assert(t.af == rotated_flags(w.af, a ^ v == 0, false));
    if op == 0xAF {
        assert(v == a);
    }
}

/// The operation of the arithmetic and logic unit that an opcode names, by the row of the
/// opcode table: 0x80 to 0xBF with a register or the byte at HL, and 0xC6, 0xCE, ..., 0xFE with
/// the byte after the opcode, in the order ADD, ADC, SUB, SBC, AND, XOR, OR, CP.
pub open spec fn alu_opcode_family(op: u8) -> AluOp {
    let k = if op >= 0xC0 { (op - 0xC6) / 8 } else { (op - 0x80) / 8 };
    if k == 0 {
        AluOp::Add
    } else if k == 1 {
        AluOp::Adc
    } else if k == 2 {
        AluOp::Sub
    } else if k == 3 {
        AluOp::Sbc
    } else if k == 4 {
        AluOp::And
    } else if k == 5 {
        AluOp::Xor
    } else if k == 6 {
        AluOp::Or
    } else {
        AluOp::Cp
    }
}

/// The opcodes of the arithmetic and logic unit: 0x80 to 0xBF, and the eight with an immediate
/// byte.
pub open spec fn is_alu_opcode(op: u8) -> bool {
    (0x80 <= op <= 0xBF) || (op >= 0xC6 && (op - 0xC6) % 8 == 0)
}

/// The operand of an arithmetic opcode, and the state its operation starts from (the
/// program counter past the opcode and its operand).
pub open spec fn alu_operand(s: CpuState, ops: Seq<BusOp>) -> (CpuState, u8) {
    let op = bus_value(ops[0]);
    if op >= 0xC0 {
        (fetched(fetched(s)), bus_value(ops[1]))
    } else if (op - 0x80) % 8 == 6 {
        (fetched(s), bus_value(ops[1]))
    } else {
        (fetched(s), s.r8(((op - 0x80) % 8) as u8))
    }
}

/// An arithmetic opcode with an immediate byte runs the operation of its row on that byte.
#[verifier::rlimit(40)]
#[verifier::spinoff_prover]
proof fn lemma_alu_imm_step(s: CpuState, t: CpuState, ops: Seq<BusOp>, r: Result<u8, OpcodeError>)
    requires
        step(s, t, ops, r),
        bus_value(ops[0]) >= 0xC6 && (bus_value(ops[0]) - 0xC6) % 8 == 0,
    ensures
        r == Ok::<u8, OpcodeError>(0),
        t == alu_spec(alu_operand(s, ops).0, alu_op_of(bus_value(ops[0])), alu_operand(s, ops).1),
{
    let op = bus_value(ops[0]);
    lemma_opcode16(op, bus_value(ops[1]));
    assert(!is_reg_op(op) && is_imm8_op(op) && is_alu_nn(op));
    assert(t == imm8_op(op, opcode16(op, bus_value(ops[1])), fetched(fetched(s))).0);
}

/// An arithmetic opcode with the byte at HL reads it once and runs the operation of its row.
#[verifier::rlimit(40)]
#[verifier::spinoff_prover]
proof fn lemma_alu_hl_step(s: CpuState, t: CpuState, ops: Seq<BusOp>, r: Result<u8, OpcodeError>)
    requires
        step(s, t, ops, r),
        0x80 <= bus_value(ops[0]) <= 0xBF,
        (bus_value(ops[0]) - 0x80) % 8 == 6,
    ensures
        r == Ok::<u8, OpcodeError>(0),
        t == alu_spec(alu_operand(s, ops).0, alu_op_of(bus_value(ops[0])), alu_operand(s, ops).1),
        ops[1] == (BusOp::Read { address: s.hl, m_cycles: 1, value: bus_value(ops[1]) }),
{
    let op = bus_value(ops[0]);
    let s1 = fetched(s);
    lemma_alu_bits(op, 0, 0, false, false, false, false);
    assert(src_index(op) == 6);
    assert(is_alu_hl(op));
    assert(!is_reg_op(op) && !is_imm8_op(op) && !is_imm16_op(op) && is_mem_op(op));
    let c = r->Ok_0;
    let rest = ops.subrange(1, ops.len() as int);
    assert(mem_op(op, s1, t, rest, c));
    assert(reads_once(rest, s1.hl) && t == alu_spec(s1, alu_op_of(op), first_value(rest)));
    assert(rest.len() == 1);
    assert(rest[0] == ops[1]);
}

/// An arithmetic opcode with a register runs the operation of its row on it.
#[verifier::rlimit(40)]
#[verifier::spinoff_prover]
proof fn lemma_alu_reg_step(s: CpuState, t: CpuState, ops: Seq<BusOp>, r: Result<u8, OpcodeError>)
    requires
        step(s, t, ops, r),
        0x80 <= bus_value(ops[0]) <= 0xBF,
        (bus_value(ops[0]) - 0x80) % 8 != 6,
    ensures
        r == Ok::<u8, OpcodeError>(0),
        t == alu_spec(alu_operand(s, ops).0, alu_op_of(bus_value(ops[0])), alu_operand(s, ops).1),
{
    let op = bus_value(ops[0]);
    lemma_alu_bits(op, 0, 0, false, false, false, false);
    assert(src_index(op) == (op - 0x80) % 8);
    assert(is_reg_op(op));
    assert(!is_ld_r_r(op) && !is_inc_r(op) && !is_dec_r(op));
    assert(t == reg_op(op, fetched(s)).0);
}

/// Running an opcode of the arithmetic and logic unit (see `alu_opcode_family`) computes with
/// A and the operand as `alu_expected` says: the operand is the register that the low three
/// bits of the opcode name (B, C, D, E, H, L, -, A), or for 6 the byte read from memory at HL,
/// or for the opcodes from 0xC6 on the byte after the opcode. The other registers keep their
/// values, and the program counter moves past the opcode and its operand.
#[verifier::rlimit(40)]
#[verifier::spinoff_prover]
pub proof fn lemma_alu_opcodes(s: CpuState, t: CpuState, ops: Seq<BusOp>, r: Result<u8, OpcodeError>)
    requires
        step(s, t, ops, r),
        s.af_mask == 0xFFF0,
        is_alu_opcode(bus_value(ops[0])),
    ensures
        ({
            let op = bus_value(ops[0]);
            let from_memory = op < 0xC0 && (op - 0x80) % 8 == 6;
            let v = if op >= 0xC0 || from_memory { bus_value(ops[1]) } else { s.r8(((op - 0x80) % 8) as u8) };
            &&& r == Ok::<u8, OpcodeError>(0)
            &&& alu_expected(alu_opcode_family(op), s.a(), v, s.carry(), t)
            &&& t.bc == s.bc && t.de == s.de && t.hl == s.hl && t.sp == s.sp
            &&& t.pc == (if op >= 0xC0 { (s.pc + 2) % 0x10000 } else { (s.pc + 1) % 0x10000 })
            &&& from_memory ==> ops[1] == (BusOp::Read { address: s.hl, m_cycles: 1, value: v })
        }),
{
    let op = bus_value(ops[0]);
    if op >= 0xC0 {
        lemma_alu_imm_step(s, t, ops, r);
    } else if (op - 0x80) % 8 == 6 {
        lemma_alu_hl_step(s, t, ops, r);
    } else {
        lemma_alu_reg_step(s, t, ops, r);
    }
    let (start, v) = alu_operand(s, ops);
    assert(alu_op_of(op) == alu_opcode_family(op));
    assert(start.a() == s.a() && start.carry() == s.carry() && start.af_mask == 0xFFF0);
    lemma_alu_result(start, alu_opcode_family(op), v);
}

/// What a rotation or shift of the 0xCB table (0x00 to 0x3F) gives, from the byte `v` and
/// the carry flag, said with the arithmetic on the byte (a left shift doubles the low seven
/// bits, a right shift halves the byte): the result, and the bit shifted out into the carry. By eights: RLC (bit 7 back in at bit 0), RRC (bit 0 back in at bit 7), RL
/// and RR (the carry in), SLA (0 in), SRA (bit 7 kept), SWAP (the nibbles exchanged, carry
/// clear) and SRL (0 in at bit 7).
pub open spec fn cb_shift_result(next: u8, v: u8, carry: bool) -> (int, bool) {
    let cy: int = if carry { 1 } else { 0 };
    let g = next / 8;
    if g == 0 {
        (2 * (v % 128) + v / 128, v >= 128)
    } else if g == 1 {
        (v / 2 + (v % 2) * 128, v % 2 == 1)
    } else if g == 2 {
        (2 * (v % 128) + cy, v >= 128)
    } else if g == 3 {
        (v / 2 + cy * 128, v % 2 == 1)
    } else if g == 4 {
        (2 * (v % 128), v >= 128)
    } else if g == 5 {
        (v / 2 + (if v >= 128 { 128int } else { 0int }), v % 2 == 1)
    } else if g == 6 {
        ((v % 16) * 16 + v / 16, false)
    } else {
        ((v / 2) as int, v % 2 == 1)
    }
}

/// Running a rotation or shift of the 0xCB table on a register (CB 0x00 to 0x3F, the low
/// three bits naming B, C, D, E, H, L or A) leaves in that register what `cb_shift_result`
/// says, with Z telling whether it is 0, C the bit shifted out, and N and H clear: CB 0x2F is
/// an arithmetic shift of A (bit 7 kept), CB 0x3F a logical one (0 in at bit 7). The stack
/// pointer keeps its value. (The registers have the masks every CPU of this library has.)
#[verifier::rlimit(40)]
#[verifier::spinoff_prover]
pub proof fn lemma_cb_shift_opcodes(s: CpuState, t: CpuState, ops: Seq<BusOp>, r: Result<u8, OpcodeError>)
    requires
        step(s, t, ops, r),
        s.af_mask == 0xFFF0,
        s.bc_mask == 0xFFFF,
        s.de_mask == 0xFFFF,
        s.hl_mask == 0xFFFF,
        bus_value(ops[0]) == 0xCB,
        bus_value(ops[1]) < 0x40,
        bus_value(ops[1]) % 8 != 6,
    ensures
        ({
            let next = bus_value(ops[1]);
            let idx = (next % 8) as u8;
            let res = cb_shift_result(next, s.r8(idx), s.carry());
            &&& r == Ok::<u8, OpcodeError>(0)
            &&& t.r8(idx) == res.0
            &&& t.zero() == (res.0 == 0)
            &&& !t.flag(Flag::Subtraction)
            &&& !t.flag(Flag::HalfCarry)
            &&& t.carry() == res.1
            &&& t.sp == s.sp
        }),
{
    let next = bus_value(ops[1]);
    let s2 = fetched(fetched(s));
    lemma_opcode16(0xCB, next);
    crate::cpu::opcodes::arithmetic_8bit_instructions::lemma_alu_bits(next, 0, 0, false, false, false, false);
    let i = cb_reg(cb16(next));
    assert(i == next % 8);
    let v = s2.r8(i);
    assert(v == s.r8(i));
    lemma_shift_arith(v, s.carry());
    assert(!is_reg_op(0xCB) && !is_imm8_op(0xCB) && !is_imm16_op(0xCB) && !is_mem_op(0xCB));
    assert(!is_mem_imm8_op(0xCB) && !is_mem_imm16_op(0xCB));
    assert(src_index(next) != 6);
    assert(t == cb_reg_op(next, s2));
    let (res, c) = if next < 0x08 {
        (rlc8(v), bit7(v))
    } else if next < 0x10 {
        (rrc8(v), bit0(v))
    } else if next < 0x18 {
        (rl8(v, s.carry()), bit7(v))
    } else if next < 0x20 {
        (rr8(v, s.carry()), bit0(v))
    } else if next < 0x28 {
        (sla8(v), bit7(v))
    } else if next < 0x30 {
        (sra8(v), bit0(v))
    } else if next < 0x38 {
        (swap8(v), false)
    } else {
        (srl8(v), bit0(v))
    };
    assert(s2.carry() == s.carry());
    assert(t == shifted(s2, i, res, c));
    assert(res == cb_shift_result(next, v, s.carry()).0 && c == cb_shift_result(next, v, s.carry()).1);
    let a1 = s2.with_r8(i, res);
    lemma_rotation_bits(v, s2.bc, res, false, false);
    lemma_rotation_bits(v, s2.de, res, false, false);
    lemma_rotation_bits(v, s2.hl, res, false, false);
    lemma_rotation_bits(v, s2.af, res, false, false);
    lemma_rotation_bits(
        v,
        a1.af,
        (((a1.af & 0xFF) as u8) & 0x0F) | crate::cpu::gb_cpu::flag_bits(res == 0, false, false, c),
        res == 0,
        c,
    );
    assert(t.af == rotated_flags(a1.af, res == 0, c));
    assert(t.r8(i) == res);
}

/// Running INC r or DEC r (0x04 + 8 r and 0x05 + 8 r, r naming B, C, D, E, H, L or A, not 6)
/// adds or subtracts 1 modulo 256 in that register; Z tells whether the result is 0, N is set
/// by DEC alone, H by INC when the low nibble was 15 and by DEC when it was 0, and the carry
/// keeps its value. Running LD r,r' (0x40 to 0x7F but 0x76, neither register 6) copies the
/// register that bits 0 to 2 name into the one that bits 3 to 5 name. The stack pointer keeps
/// its value. (The registers have the masks every CPU of this library has.)
#[verifier::rlimit(40)]
#[verifier::spinoff_prover]
pub proof fn lemma_inc_dec_ld_opcodes(s: CpuState, t: CpuState, ops: Seq<BusOp>, r: Result<u8, OpcodeError>)
    requires
        step(s, t, ops, r),
        s.af_mask == 0xFFF0,
        s.bc_mask == 0xFFFF,
        s.de_mask == 0xFFFF,
        s.hl_mask == 0xFFFF,
    ensures
        ({
            let op = bus_value(ops[0]);
            let d = ((op / 8) % 8) as u8;
            let v = s.r8(d);
            &&& op < 0x40 && op % 8 == 4 && d != 6 ==> {
                &&& r == Ok::<u8, OpcodeError>(0)
                &&& t.r8(d) == (v + 1) % 256
                &&& t.zero() == ((v + 1) % 256 == 0)
                &&& !t.flag(Flag::Subtraction)
                &&& t.flag(Flag::HalfCarry) == (v % 16 == 15)
                &&& t.carry() == s.carry()
                &&& t.sp == s.sp
            }
            &&& op < 0x40 && op % 8 == 5 && d != 6 ==> {
                &&& r == Ok::<u8, OpcodeError>(0)
                &&& t.r8(d) == (v - 1) % 256
                &&& t.zero() == (v == 1)
                &&& t.flag(Flag::Subtraction)
                &&& t.flag(Flag::HalfCarry) == (v % 16 == 0)
                &&& t.carry() == s.carry()
                &&& t.sp == s.sp
            }
            &&& 0x40 <= op < 0x80 && op % 8 != 6 && d != 6 ==> {
                &&& r == Ok::<u8, OpcodeError>(0)
                &&& t.r8(d) == s.r8((op % 8) as u8)
                &&& t.sp == s.sp
            }
        }),
{
    let op = bus_value(ops[0]);
    let d = ((op / 8) % 8) as u8;
    let s1 = fetched(s);
    let v = s.r8(d);
    crate::cpu::opcodes::arithmetic_8bit_instructions::lemma_alu_bits(op, 0, 0, false, false, false, false);
    crate::cpu::opcodes::arithmetic_8bit_instructions::lemma_alu_bits(v, 0, 0, false, false, false, false);
    assert(dest_index(op) == d && src_index(op) == op % 8);
    if op < 0x40 && (op % 8 == 4 || op % 8 == 5) && d != 6 {
        let inc = op % 8 == 4;
        assert(inc ==> is_inc_r(op) && !is_dec_r(op));
        assert(!inc ==> is_dec_r(op) && !is_inc_r(op));
        assert(is_reg_op(op));
        assert(!is_inc_rr(op) && !is_dec_rr(op) && !is_add_hl_rr(op));
        assert(t == reg_op(op, s1).0);
        let res: u8 = if inc { wrap8(v + 1) } else { wrap8(v - 1) };
        let a1 = s1.with_r8(d, res);
        let (z, n, h) = if inc { (res == 0, false, v & 0xF == 0xF) } else { (res == 0, true, v & 0xF == 0) };
        assert(t == a1.with_flags(z, n, h, a1.carry()));
        lemma_rotation_bits(v, s1.bc, res, false, false);
        lemma_rotation_bits(v, s1.de, res, false, false);
        lemma_rotation_bits(v, s1.hl, res, false, false);
        crate::cpu::opcodes::arithmetic_8bit_instructions::lemma_alu_bits(res, v, s1.af, false, false, false, false);
        assert(a1.carry() == s1.carry());
        crate::cpu::opcodes::arithmetic_8bit_instructions::lemma_alu_bits(res, v, a1.af, z, n, h, s1.carry());
        assert(a1.r8(d) == res);
        assert(t.r8(d) == res);
    } else if 0x40 <= op < 0x80 && op % 8 != 6 && d != 6 {
        assert(is_ld_r_r(op) && is_reg_op(op));
        assert(t == reg_op(op, s1).0);
        crate::cpu::gb_cpu::lemma_r8_roundtrip(s1, d, s1.r8(op % 8));
    }
}

/// Running BIT, RES or SET of the 0xCB table on a register (CB 0x40 to 0xFF, bits 3 to 5 the
/// bit number b, bits 0 to 2 naming B, C, D, E, H, L or A): BIT leaves the register and sets
/// Z exactly when bit b of it (the register divided by 2 to the power b, modulo 2) is 0, with N
/// clear, H set and the carry kept; RES clears bit b, subtracting 2 to the power b when it was
/// set; SET sets it, adding 2 to the power b when it was clear. (The registers have the masks
/// every CPU of this library has.)
#[verifier::rlimit(40)]
#[verifier::spinoff_prover]
pub proof fn lemma_cb_bit_opcodes(s: CpuState, t: CpuState, ops: Seq<BusOp>, r: Result<u8, OpcodeError>)
    requires
        step(s, t, ops, r),
        s.af_mask == 0xFFF0,
        s.bc_mask == 0xFFFF,
        s.de_mask == 0xFFFF,
        s.hl_mask == 0xFFFF,
        bus_value(ops[0]) == 0xCB,
        bus_value(ops[1]) >= 0x40,
        bus_value(ops[1]) % 8 != 6,
    ensures
        ({
            let next = bus_value(ops[1]);
            let idx = (next % 8) as u8;
            let b = ((next / 8) % 8) as u8;
            let v = s.r8(idx);
            let place = crate::ppu::fifo::bit_place(b);
            let bit = (v / place) % 2;
            &&& r == Ok::<u8, OpcodeError>(0)
            &&& next < 0x80 ==> {
                &&& t.r8(idx) == v
                &&& t.zero() == (bit == 0)
                &&& !t.flag(Flag::Subtraction)
                &&& t.flag(Flag::HalfCarry)
                &&& t.carry() == s.carry()
            }
            &&& 0x80 <= next < 0xC0 ==> t.r8(idx) == v - bit * place
            &&& next >= 0xC0 ==> t.r8(idx) == v + (1 - bit) * place
            &&& t.sp == s.sp
        }),
{
    let next = bus_value(ops[1]);
    let s2 = fetched(fetched(s));
    lemma_opcode16(0xCB, next);
    crate::cpu::opcodes::arithmetic_8bit_instructions::lemma_alu_bits(next, 0, 0, false, false, false, false);
    let i = cb_reg(cb16(next));
    assert(i == next % 8);
    let b = dest_index(next);
    assert(b == (next / 8) % 8);
    let v = s2.r8(i);
    assert(v == s.r8(i));
    crate::cpu::opcodes::single_bit_sintructions::lemma_bit_mask_arith(v, b);
    assert(cb_bit_mask(cb16(next)) == 1u8 << b);
    assert(!is_reg_op(0xCB) && !is_imm8_op(0xCB) && !is_imm16_op(0xCB) && !is_mem_op(0xCB));
    assert(!is_mem_imm8_op(0xCB) && !is_mem_imm16_op(0xCB));
    assert(src_index(next) != 6);
    assert(t == cb_reg_op(next, s2));
    let mask = 1u8 << b;
    if next < 0x80 {
        let z = v & mask == 0;
        assert(t == s2.with_flags(z, false, true, s2.carry()));
        crate::cpu::opcodes::arithmetic_8bit_instructions::lemma_alu_bits(v, v, s2.af, z, false, true, s2.carry());
        assert(t.af >> 8 == s2.af >> 8);
        assert(t.bc == s2.bc && t.de == s2.de && t.hl == s2.hl);
        assert(t.r8(i) == v);
    } else {
        let res: u8 = if next < 0xC0 { v & (0xFF ^ mask) } else { v | mask };
        assert(t == s2.with_r8(i, res));
        crate::cpu::gb_cpu::lemma_r8_roundtrip(s2, i, res);
    }
}

/// The 16 bit operand of a 3 byte opcode is its two bytes little endian: the first the low
/// byte.
proof fn lemma_opcode32(op: u8, n1: u8, n2: u8)
    by (bit_vector)
    ensures
        address_operand(opcode32(op, n1, n2)) == n1 + 256 * n2,
{
}

/// JP nn (0xC3) and CALL nn (0xCD) go to the address made of the two bytes after the opcode,
/// the first the low byte; CALL first pushes the address of the next instruction (3 bytes on)
/// below the stack pointer, which moves down by 2.
#[verifier::rlimit(40)]
#[verifier::spinoff_prover]
pub proof fn lemma_jump_call_targets(s: CpuState, t: CpuState, ops: Seq<BusOp>, r: Result<u8, OpcodeError>)
    requires
        step(s, t, ops, r),
        bus_value(ops[0]) == 0xC3 || bus_value(ops[0]) == 0xCD,
    ensures
        ({
            let n1 = bus_value(ops[1]);
            let n2 = bus_value(ops[2]);
            &&& r == Ok::<u8, OpcodeError>(1)
            &&& t.pc == n1 + 256 * n2
            &&& bus_value(ops[0]) == 0xC3 ==> t.sp == s.sp && ops.len() == 3
            &&& bus_value(ops[0]) == 0xCD ==> {
                &&& t.sp == (s.sp + 0x1_0000 - 2) % 0x1_0000
                &&& ops.subrange(3, ops.len() as int) == push_ops(s.sp, ((s.pc + 3) % 0x1_0000) as u16)
            }
        }),
{
    let op = bus_value(ops[0]);
    let n1 = bus_value(ops[1]);
    let n2 = bus_value(ops[2]);
    lemma_opcode32(op, n1, n2);
    let s3 = fetched(fetched(fetched(s)));
    assert(s3.sp == s.sp && s3.pc == (s.pc + 3) % 0x1_0000);
    if op == 0xC3 {
        assert(!is_reg_op(op) && !is_imm8_op(op) && is_imm16_op(op));
        assert(t == imm16_op(op, opcode32(op, n1, n2), s3).0);
    } else {
        assert(!is_reg_op(op) && !is_imm8_op(op) && !is_imm16_op(op) && !is_mem_op(op));
        assert(!is_mem_imm8_op(op) && is_mem_imm16_op(op) && !is_call_cc(op));
        let c = r->Ok_0;
        assert(mem_imm16_op(op, opcode32(op, n1, n2), s3, t, ops.subrange(3, ops.len() as int), c));
    }
}

} // verus!
