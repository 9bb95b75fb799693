use vstd::prelude::*;
use crate::cpu::flag::Flag;
use crate::cpu::gb_cpu::{GbCpu, CpuState, push_ops};
use crate::cpu::opcodes::opcodes_utils::{push, pop, pop_ops_shape, popped_value, lemma_push_pop_roundtrip};
use crate::mmu::{Memory, BusOp, log_extends, new_ops, lemma_log_refl, bus_value};
use crate::utils::wrapping::{wrap16, wrapping_add16};

verus! {

/// The absolute address of a 3 byte jump or call opcode: its two operand bytes, little endian.
pub open spec fn address_operand(opcode: u32) -> u16 {
    (((opcode & 0xFF) as u16) << 8) | (((opcode & 0xFF00) as u16) >> 8)
}

/// Whether a condition code holds: NZ, Z, NC, C.
pub open spec fn condition(s: CpuState, cc: u32) -> bool {
    if cc == 0 {
        !s.zero()
    } else if cc == 1 {
        s.zero()
    } else if cc == 2 {
        !s.carry()
    } else {
        s.carry()
    }
}

/// The condition code of a 3 byte conditional opcode.
pub open spec fn cc_u32(opcode: u32) -> u32 {
    (((0xFF0000 & opcode) >> 16) & 0b00011000) >> 3
}

/// The condition code of a 1 byte conditional opcode.
pub open spec fn cc_u8(opcode: u8) -> u32 {
    ((opcode & 0b00011000) >> 3) as u32
}

/// The condition code of a 2 byte conditional opcode.
pub open spec fn cc_u16(opcode: u16) -> u32 {
    (((((opcode & 0xFF00) >> 8) & 0b00011000) as u8) >> 3) as u32
}

/// The signed displacement of a relative jump.
pub open spec fn relative_offset(opcode: u16) -> int {
    ((opcode & 0xFF) as u8) as i8 as int
}

/// The target of a restart opcode: bits 3 to 5 times 8.
pub open spec fn rst_target(opcode: u8) -> u16 {
    (((opcode & 0b00111000) >> 3) * 8) as u16
}

/// A call: the program counter is pushed, then replaced.
pub open spec fn called(old_s: CpuState, new_s: CpuState, ops: Seq<BusOp>, target: u16) -> bool {
    &&& new_s == old_s.with_sp(wrap16(old_s.sp - 2)).with_pc(target)
    &&& ops == push_ops(old_s.sp, old_s.pc)
}

/// A return: the program counter is popped.
pub open spec fn returned(old_s: CpuState, new_s: CpuState, ops: Seq<BusOp>) -> bool {
    &&& pop_ops_shape(old_s.sp, ops)
    &&& new_s == old_s.with_sp(wrap16(old_s.sp + 2)).with_pc(popped_value(ops))
}

fn push_pc<M: Memory>(cpu: &mut GbCpu, memory: &mut M)
    ensures
        final(cpu)@ == old(cpu)@.with_sp(wrap16(old(cpu)@.sp - 2)),
        log_extends(old(memory).bus_log(), final(memory).bus_log()),
        new_ops(old(memory).bus_log(), final(memory).bus_log()) == push_ops(
            old(cpu)@.sp,
            old(cpu)@.pc,
        ),
{
    let pc = cpu.program_counter;
    push(cpu, memory, pc);
}

fn condition_code_holds(cpu: &GbCpu, cc: u32) -> (r: bool)
    ensures
        r == condition(cpu@, cc),
{
    let zero: bool = cpu.get_flag(Flag::Zero);
    let carry: bool = cpu.get_flag(Flag::Carry);
    if cc == 0 {
        !zero
    } else if cc == 1 {
        zero
    } else if cc == 2 {
        !carry
    } else {
        carry
    }
}

/// CALL nn.
pub fn call<M: Memory>(cpu: &mut GbCpu, memory: &mut M, opcode: u32) -> (cycles: u8)
    ensures
        cycles == 1,
        log_extends(old(memory).bus_log(), final(memory).bus_log()),
        called(
            old(cpu)@,
            final(cpu)@,
            new_ops(old(memory).bus_log(), final(memory).bus_log()),
            address_operand(opcode),
        ),
{
    let address_to_jump = (((opcode & 0xFF) as u16) << 8) | (((opcode & 0xFF00) as u16) >> 8);
    push_pc(cpu, memory);
    cpu.program_counter = address_to_jump;
    // 6 cycles - 3 reading opcode, 2 writing pc to sp address, 1 internal operation
    1
}

fn call_if_true<M: Memory>(cpu: &mut GbCpu, memory: &mut M, opcode: u32, flag: bool) -> (cycles: u8)
    ensures
        log_extends(old(memory).bus_log(), final(memory).bus_log()),
        flag ==> cycles == 1 && called(
            old(cpu)@,
            final(cpu)@,
            new_ops(old(memory).bus_log(), final(memory).bus_log()),
            address_operand(opcode),
        ),
        !flag ==> cycles == 0 && final(cpu)@ == old(cpu)@ && final(memory).bus_log() == old(
            memory,
        ).bus_log(),
{
    if flag {
        // 6 cycles - 6 as call opcode
        return call(cpu, memory, opcode);
    }
    proof {
        lemma_log_refl(memory.bus_log());
    }
    // 3 cycles - 3 reading opcode (no call executed)
    0
}

/// CALL cc,nn.
pub fn call_cc<M: Memory>(cpu: &mut GbCpu, memory: &mut M, opcode: u32) -> (cycles: u8)
    ensures
        log_extends(old(memory).bus_log(), final(memory).bus_log()),
        condition(old(cpu)@, cc_u32(opcode)) ==> cycles == 1 && called(
            old(cpu)@,
            final(cpu)@,
            new_ops(old(memory).bus_log(), final(memory).bus_log()),
            address_operand(opcode),
        ),
        !condition(old(cpu)@, cc_u32(opcode)) ==> cycles == 0 && final(cpu)@ == old(cpu)@
            && final(memory).bus_log() == old(memory).bus_log(),
{
    let flag = (((0xFF0000 & opcode) >> 16) & 0b00011000) >> 3;
    let holds = condition_code_holds(cpu, flag);
    call_if_true(cpu, memory, opcode, holds)
}

/// RET.
pub fn ret<M: Memory>(cpu: &mut GbCpu, memory: &mut M) -> (cycles: u8)
    ensures
        cycles == 1,
        log_extends(old(memory).bus_log(), final(memory).bus_log()),
        returned(old(cpu)@, final(cpu)@, new_ops(old(memory).bus_log(), final(memory).bus_log())),
{
    cpu.program_counter = pop(cpu, memory);
    // 4 cycles - 1 reading opcode, 2 writing pc to sp address, 1 internal operation
    1
}

fn ret_if_true<M: Memory>(cpu: &mut GbCpu, memory: &mut M, flag: bool) -> (cycles: u8)
    ensures
        log_extends(old(memory).bus_log(), final(memory).bus_log()),
        flag ==> cycles == 2 && returned(
            old(cpu)@,
            final(cpu)@,
            new_ops(old(memory).bus_log(), final(memory).bus_log()),
        ),
        !flag ==> cycles == 1 && final(cpu)@ == old(cpu)@ && final(memory).bus_log() == old(
            memory,
        ).bus_log(),
{
    if flag {
        let cycles = ret(cpu, memory);
        // 5 cycles - 4 as ret opcode, 1 internal operation
        return cycles + 1;
    }
    proof {
        lemma_log_refl(memory.bus_log());
    }
    // 2 cycles - 1 reading opcode, 1 internal operation
    1
}

/// RET cc.
pub fn ret_cc<M: Memory>(cpu: &mut GbCpu, memory: &mut M, opcode: u8) -> (cycles: u8)
    ensures
        log_extends(old(memory).bus_log(), final(memory).bus_log()),
        condition(old(cpu)@, cc_u8(opcode)) ==> cycles == 2 && returned(
            old(cpu)@,
            final(cpu)@,
            new_ops(old(memory).bus_log(), final(memory).bus_log()),
        ),
        !condition(old(cpu)@, cc_u8(opcode)) ==> cycles == 1 && final(cpu)@ == old(cpu)@
            && final(memory).bus_log() == old(memory).bus_log(),
{
    let flag: u8 = (opcode & 0b00011000) >> 3;
    let holds = condition_code_holds(cpu, flag as u32);
    ret_if_true(cpu, memory, holds)
}

/// RST n: calls one of the eight restart addresses.
pub fn rst<M: Memory>(cpu: &mut GbCpu, memory: &mut M, opcode: u8) -> (cycles: u8)
    ensures
        cycles == 1,
        log_extends(old(memory).bus_log(), final(memory).bus_log()),
        called(
            old(cpu)@,
            final(cpu)@,
            new_ops(old(memory).bus_log(), final(memory).bus_log()),
            rst_target(opcode),
        ),
{
    let t: u8 = (opcode & 0b00111000) >> 3;
    let mut value: u8 = 0;
    if t & 0b001 > 0 {
        value = value + 0x8;
    }
    if t & 0b010 > 0 {
        value = value + 0x10;
    }
    if t & 0b100 > 0 {
        value = value + 0x20;
    }
    assert(t < 8 ==> t * 8 == (if t & 1 > 0 { 8u8 } else { 0u8 }) + (if t & 2 > 0 { 0x10u8 } else {
        0u8
    }) + (if t & 4 > 0 { 0x20u8 } else { 0u8 })) by (bit_vector);
    assert((opcode & 0b00111000) >> 3 < 8) by (bit_vector);
    push_pc(cpu, memory);
    cpu.program_counter = value as u16;
    // 4 cycles - 1 reading opcode, 2 writing pc to sp address, 1 internal operation
    1
}

/// RETI: returns and enables the interrupts.
pub fn reti<M: Memory>(cpu: &mut GbCpu, memory: &mut M) -> (cycles: u8)
    ensures
        cycles == 1,
        log_extends(old(memory).bus_log(), final(memory).bus_log()),
        ({
            let ops = new_ops(old(memory).bus_log(), final(memory).bus_log());
            &&& pop_ops_shape(old(cpu)@.sp, ops)
            &&& final(cpu)@ == (CpuState {
                mie: true,
                ..old(cpu)@.with_sp(wrap16(old(cpu)@.sp + 2)).with_pc(popped_value(ops))
            })
        }),
{
    let cycles = ret(cpu, memory);
    cpu.mie = true;
    // 4 cycles - 4 as ret opcode
    cycles
}

fn jump_if_true(cpu: &mut GbCpu, opcode: u32, flag: bool) -> (cycles: u8)
    ensures
        flag ==> cycles == 1 && final(cpu)@ == old(cpu)@.with_pc(address_operand(opcode)),
        !flag ==> cycles == 0 && final(cpu)@ == old(cpu)@,
{
    if flag {
        // 4 cycles - 4 as jump opcode
        return jump(cpu, opcode);
    }
    // 3 cycles - 3 reading opcode
    0
}

/// JP nn.
pub fn jump(cpu: &mut GbCpu, opcode: u32) -> (cycles: u8)
    ensures
        cycles == 1,
        final(cpu)@ == old(cpu)@.with_pc(address_operand(opcode)),
{
    let address = (((opcode & 0xFF) as u16) << 8) | (((opcode & 0xFF00) as u16) >> 8);
    cpu.program_counter = address;
    // 4 cycles - 3 reading opcode, 1 internal operation
    1
}

/// JP cc,nn.
pub fn jump_cc(cpu: &mut GbCpu, opcode: u32) -> (cycles: u8)
    ensures
        condition(old(cpu)@, cc_u32(opcode)) ==> cycles == 1 && final(cpu)@ == old(
            cpu,
        )@.with_pc(address_operand(opcode)),
        !condition(old(cpu)@, cc_u32(opcode)) ==> cycles == 0 && final(cpu)@ == old(cpu)@,
{
    let flag = (((opcode & 0xFF0000) >> 16) & 0b00011000) >> 3;
    assert((((opcode & 0xFF0000) >> 16) & 0b00011000) >> 3 == cc_u32(opcode)) by (bit_vector);
    let holds = condition_code_holds(cpu, flag);
    jump_if_true(cpu, opcode, holds)
}

/// JP HL.
pub fn jump_hl(cpu: &mut GbCpu) -> (cycles: u8)
    ensures
        cycles == 0,
        final(cpu)@ == old(cpu)@.with_pc(old(cpu)@.hl),
{
    cpu.program_counter = cpu.hl.value();
    // 1 cycles - 1 reading opcode
    0
}

fn jump_r_if_true(cpu: &mut GbCpu, opcode: u16, flag: bool) -> (cycles: u8)
    ensures
        flag ==> cycles == 1 && final(cpu)@ == old(cpu)@.with_pc(
            wrap16(old(cpu)@.pc + relative_offset(opcode)),
        ),
        !flag ==> cycles == 0 && final(cpu)@ == old(cpu)@,
{
    if flag {
        // 3 cycles - 3 as jump_r opcode
        return jump_r(cpu, opcode);
    }
    // 2 cycles - 2 reading opcode (no jump)
    0
}

/// JR e: adds the signed displacement to the program counter.
pub fn jump_r(cpu: &mut GbCpu, opcode: u16) -> (cycles: u8)
    ensures
        cycles == 1,
        final(cpu)@ == old(cpu)@.with_pc(wrap16(old(cpu)@.pc + relative_offset(opcode))),
{
    let address = (opcode & 0xFF) as u8;
    let address = address as i8;
    let offset = address as u16;
    proof {
        crate::utils::wrapping::lemma_sign_extend(address);
    }
    cpu.program_counter = wrapping_add16(cpu.program_counter, offset);
    // 3 cycles - 2 reading opcode, 1 internal operation
    1
}

/// JR cc,e.
pub fn jump_r_cc(cpu: &mut GbCpu, opcode: u16) -> (cycles: u8)
    ensures
        condition(old(cpu)@, cc_u16(opcode)) ==> cycles == 1 && final(cpu)@ == old(
            cpu,
        )@.with_pc(wrap16(old(cpu)@.pc + relative_offset(opcode))),
        !condition(old(cpu)@, cc_u16(opcode)) ==> cycles == 0 && final(cpu)@ == old(cpu)@,
{
    let flag: u8 = ((((opcode & 0xFF00) >> 8) & 0b00011000) as u8) >> 3;
    let holds = condition_code_holds(cpu, flag as u32);
    jump_r_if_true(cpu, opcode, holds)
}

/// A RET right after a CALL comes back to where the call was made: its two reads are at
/// the addresses the call wrote the return address to, and when the memory gives back what
/// was written there, the CPU state is again the one from before the call (program counter
/// and stack pointer included).
pub proof fn lemma_ret_after_call(
    s0: CpuState,
    target: u16,
    s1: CpuState,
    call_ops: Seq<BusOp>,
    s2: CpuState,
    ret_ops: Seq<BusOp>,
)
    requires
        called(s0, s1, call_ops, target),
        returned(s1, s2, ret_ops),
    ensures
        ret_ops[0]->Read_address == call_ops[1]->Write_address,
        ret_ops[1]->Read_address == call_ops[0]->Write_address,
        bus_value(ret_ops[0]) == bus_value(call_ops[1]) && bus_value(ret_ops[1]) == bus_value(call_ops[0])
            ==> s2 == s0,
{
    lemma_push_pop_roundtrip(s0.sp, s0.pc, ret_ops);
}

} // verus!
