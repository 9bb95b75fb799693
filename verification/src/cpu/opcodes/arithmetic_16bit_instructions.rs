use vstd::prelude::*;
use crate::cpu::flag::Flag;
use crate::cpu::gb_cpu::{GbCpu, CpuState};
use crate::cpu::opcodes::jump_instructions::relative_offset;
use crate::utils::wrapping::{wrap16, wrapping_add16, wrapping_sub16};

verus! {

/// The 16 bit register that bits 4 and 5 of an opcode select.
pub open spec fn rr_index(opcode: u8) -> u8 {
    (opcode >> 4) & 0b11
}

pub fn get_rr_index(opcode: u8) -> (r: u8)
    ensures
        r == rr_index(opcode),
        r < 4,
{
    let r = (opcode >> 4) & 0b11;
    assert((opcode >> 4) & 0b11 < 4) by (bit_vector);
    r
}

/// The flags of the opcodes that add a signed byte to SP: both carries come from the low byte.
pub open spec fn sp_offset_flags(s: CpuState, opcode: u16) -> CpuState {
    let e = (opcode & 0xFF) as u8;
    s.with_flags(false, false, (s.sp & 0xF) + (e & 0xF) > 0xF, (s.sp & 0xFF) + e > 0xFF)
}

/// INC rr.
pub fn inc_rr(cpu: &mut GbCpu, opcode: u8) -> (cycles: u8)
    ensures
        cycles == 1,
        final(cpu)@ == old(cpu)@.with_r16(
            rr_index(opcode),
            wrap16(old(cpu)@.r16(rr_index(opcode)) + 1),
        ),
{
    let idx = get_rr_index(opcode);
    let v = cpu.get_r16(idx);
    cpu.set_r16(idx, wrapping_add16(v, 1));
    // 2 cycles - 1 reading opcode, 1 internal operation
    1
}

/// DEC rr.
pub fn dec_rr(cpu: &mut GbCpu, opcode: u8) -> (cycles: u8)
    ensures
        cycles == 1,
        final(cpu)@ == old(cpu)@.with_r16(
            rr_index(opcode),
            wrap16(old(cpu)@.r16(rr_index(opcode)) - 1),
        ),
{
    let idx = get_rr_index(opcode);
    let v = cpu.get_r16(idx);
    cpu.set_r16(idx, wrapping_sub16(v, 1));
    1
}

/// ADD HL,rr: H and C come from bits 11 and 15; Z keeps its value.
pub fn add_hl_rr(cpu: &mut GbCpu, opcode: u8) -> (cycles: u8)
    ensures
        cycles == 1,
        ({
            let hl = old(cpu)@.hl;
            let v = old(cpu)@.r16(rr_index(opcode));
            final(cpu)@ == old(cpu)@.with_hl(wrap16(hl + v)).with_flags(
                old(cpu)@.zero(),
                false,
                (hl & 0xFFF) + (v & 0xFFF) > 0xFFF,
                hl + v > 0xFFFF,
            )
        }),
{
    let idx = get_rr_index(opcode);
    let v = cpu.get_r16(idx);
    let hl = cpu.hl.value();
    let zero = cpu.get_flag(Flag::Zero);
    assert(hl & 0xFFF <= 0xFFF && v & 0xFFF <= 0xFFF) by (bit_vector);
    let half = (hl & 0xFFF) + (v & 0xFFF) > 0xFFF;
    let carry = hl as u32 + v as u32 > 0xFFFF;
    cpu.hl.set_value(wrapping_add16(hl, v));
    cpu.set_flags(zero, false, half, carry);
    // 2 cycles - 1 reading opcode, 1 internal operation
    1
}

/// SP plus the signed byte of the opcode, and the flags of that sum.
fn sp_plus_offset(cpu: &GbCpu, opcode: u16) -> (r: (u16, bool, bool))
    ensures
        r.0 == wrap16(cpu@.sp + relative_offset(opcode)),
        r.1 == ((cpu@.sp & 0xF) + (((opcode & 0xFF) as u8) & 0xF) > 0xF),
        r.2 == ((cpu@.sp & 0xFF) + ((opcode & 0xFF) as u8) > 0xFF),
{
    let e = (opcode & 0xFF) as u8;
    let sp = cpu.stack_pointer;
    let signed = e as i8;
    let offset = signed as u16;
    proof {
        crate::utils::wrapping::lemma_sign_extend(signed);
    }
    assert(sp & 0xF <= 0xF && e & 0xF <= 0xF && sp & 0xFF <= 0xFF) by (bit_vector);
    let half = (sp & 0xF) + (e & 0xF) as u16 > 0xF;
    let carry = (sp & 0xFF) + e as u16 > 0xFF;
    (wrapping_add16(sp, offset), half, carry)
}

/// ADD SP,e.
pub fn add_sp_dd(cpu: &mut GbCpu, opcode: u16) -> (cycles: u8)
    ensures
        cycles == 2,
        final(cpu)@ == sp_offset_flags(old(cpu)@, opcode).with_sp(
            wrap16(old(cpu)@.sp + relative_offset(opcode)),
        ),
{
    let (v, half, carry) = sp_plus_offset(cpu, opcode);
    cpu.set_flags(false, false, half, carry);
    cpu.stack_pointer = v;
    // 4 cycles - 2 reading opcode, 2 internal operation
    2
}

/// LD HL,SP+e.
pub fn ld_hl_spdd(cpu: &mut GbCpu, opcode: u16) -> (cycles: u8)
    ensures
        cycles == 1,
        final(cpu)@ == sp_offset_flags(old(cpu)@, opcode).with_hl(
            wrap16(old(cpu)@.sp + relative_offset(opcode)),
        ),
{
    let (v, half, carry) = sp_plus_offset(cpu, opcode);
    cpu.set_flags(false, false, half, carry);
    cpu.hl.set_value(v);
    // 3 cycles - 2 reading opcode, 1 internal operation
    1
}

} // verus!
