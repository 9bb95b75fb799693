use vstd::prelude::*;
use crate::cpu::gb_cpu::{GbCpu, CpuState, push_ops};
use crate::mmu::{Memory, BusOp, log_extends, new_ops, bus_value, lemma_log_push, lemma_log_trans};
use crate::utils::wrapping::{wrap16, wrapping_add16, wrapping_sub16};

verus! {

/// The bus accesses that pop a value from the stack whose pointer is `sp`: low byte first.
pub open spec fn pop_ops_shape(sp: u16, ops: Seq<BusOp>) -> bool {
    &&& ops.len() == 2
    &&& ops[0] == BusOp::Read { address: sp, m_cycles: 1, value: bus_value(ops[0]) }
    &&& ops[1] == BusOp::Read { address: wrap16(sp + 1), m_cycles: 1, value: bus_value(ops[1]) }
}

/// The value that the two reads of a pop return, little endian.
pub open spec fn popped_value(ops: Seq<BusOp>) -> u16 {
    (bus_value(ops[0]) as u16) | ((bus_value(ops[1]) as u16) << 8)
}

/// Pushes `value` on the stack, high byte first.
pub fn push<M: Memory>(cpu: &mut GbCpu, memory: &mut M, value: u16)
    ensures
        final(cpu)@ == old(cpu)@.with_sp(wrap16(old(cpu)@.sp - 2)),
        log_extends(old(memory).bus_log(), final(memory).bus_log()),
        new_ops(old(memory).bus_log(), final(memory).bus_log()) == push_ops(old(cpu)@.sp, value),
{
    let high = #[verifier::truncate] ((value >> 8) as u8);
    let low = #[verifier::truncate] ((value & 0xFF) as u8);
    let sp1 = wrapping_sub16(cpu.stack_pointer, 1);
    cpu.stack_pointer = sp1;
    let ghost log0 = memory.bus_log();
    memory.write(sp1, high, 1);
    let ghost log1 = memory.bus_log();
    let sp2 = wrapping_sub16(sp1, 1);
    cpu.stack_pointer = sp2;
    memory.write(sp2, low, 1);
    proof {
        lemma_log_push(log0, BusOp::Write { address: sp1, value: high, m_cycles: 1 });
        lemma_log_push(log1, BusOp::Write { address: sp2, value: low, m_cycles: 1 });
        lemma_log_trans(log0, log1, memory.bus_log());
        let osp = old(cpu)@.sp as int;
        assert(wrap16(wrap16(osp - 1) - 1) == wrap16(osp - 2));
        assert(new_ops(old(memory).bus_log(), memory.bus_log()) =~= push_ops(old(cpu)@.sp, value));
    }
}

/// Pops a value from the stack, low byte first.
pub fn pop<M: Memory>(cpu: &mut GbCpu, memory: &mut M) -> (value: u16)
    ensures
        final(cpu)@ == old(cpu)@.with_sp(wrap16(old(cpu)@.sp + 2)),
        log_extends(old(memory).bus_log(), final(memory).bus_log()),
        pop_ops_shape(old(cpu)@.sp, new_ops(old(memory).bus_log(), final(memory).bus_log())),
        value == popped_value(new_ops(old(memory).bus_log(), final(memory).bus_log())),
{
    let ghost log0 = memory.bus_log();
    let low = memory.read(cpu.stack_pointer, 1);
    let ghost log1 = memory.bus_log();
    cpu.stack_pointer = wrapping_add16(cpu.stack_pointer, 1);
    let high = memory.read(cpu.stack_pointer, 1);
    cpu.stack_pointer = wrapping_add16(cpu.stack_pointer, 1);
    proof {
        lemma_log_push(log0, BusOp::Read { address: old(cpu)@.sp, m_cycles: 1, value: low });
        lemma_log_push(log1, BusOp::Read { address: wrap16(old(cpu)@.sp + 1), m_cycles: 1, value: high });
        lemma_log_trans(log0, log1, memory.bus_log());
        let osp = old(cpu)@.sp as int;
        assert(wrap16(wrap16(osp + 1) + 1) == wrap16(osp + 2));
        let ops = new_ops(old(memory).bus_log(), memory.bus_log());
        assert(ops =~= seq![
            BusOp::Read { address: old(cpu)@.sp, m_cycles: 1, value: low },
            BusOp::Read { address: wrap16(osp + 1), m_cycles: 1, value: high },
        ]);
    }
    (low as u16) | ((high as u16) << 8)
}

/// The second byte of a 0xCB prefixed opcode.
pub fn get_cb_opcode(opcode: u16) -> (r: u8)
    ensures
        r == (opcode & 0xFF) as u8,
{
    (opcode & 0xFF) as u8
}

/// The source register index of an opcode: its three low bits.
pub open spec fn src_index(opcode: u8) -> u8 {
    opcode & 0b111
}

/// The destination register index of an opcode: bits 3 to 5.
pub open spec fn dest_index(opcode: u8) -> u8 {
    (opcode >> 3) & 0b111
}

pub fn get_src_index(opcode: u8) -> (r: u8)
    ensures
        r == src_index(opcode),
        r < 8,
{
    let r = opcode & 0b111;
    assert(opcode & 0b111 < 8) by (bit_vector);
    r
}

pub fn get_dest_index(opcode: u8) -> (r: u8)
    ensures
        r == dest_index(opcode),
        r < 8,
{
    let r = (opcode >> 3) & 0b111;
    assert((opcode >> 3) & 0b111 < 8) by (bit_vector);
    r
}

/// Reads one byte in one m-cycle.
pub fn read_byte<M: Memory>(memory: &mut M, address: u16) -> (value: u8)
    ensures
        log_extends(old(memory).bus_log(), final(memory).bus_log()),
        new_ops(old(memory).bus_log(), final(memory).bus_log()) == seq![
            BusOp::Read { address, m_cycles: 1, value },
        ],
{
    let value = memory.read(address, 1);
    proof {
        lemma_log_push(old(memory).bus_log(), BusOp::Read { address, m_cycles: 1, value });
    }
    value
}

/// Writes one byte in one m-cycle.
pub fn write_byte<M: Memory>(memory: &mut M, address: u16, value: u8)
    ensures
        log_extends(old(memory).bus_log(), final(memory).bus_log()),
        new_ops(old(memory).bus_log(), final(memory).bus_log()) == seq![
            BusOp::Write { address, value, m_cycles: 1 },
        ],
{
    memory.write(address, value, 1);
    proof {
        lemma_log_push(old(memory).bus_log(), BusOp::Write { address, value, m_cycles: 1 });
    }
}

/// A pop right after a push reads the two bytes the push wrote, low byte first, and leaves
/// the stack pointer where it was before the push; so when the memory gives back what was
/// written, the pop returns the pushed value.
pub proof fn lemma_push_pop_roundtrip(sp: u16, value: u16, pop_ops: Seq<BusOp>)
    requires
        pop_ops_shape(wrap16(sp - 2), pop_ops),
    ensures
        wrap16(wrap16(sp - 2) + 2) == sp,
        pop_ops[0]->Read_address == push_ops(sp, value)[1]->Write_address,
        pop_ops[1]->Read_address == push_ops(sp, value)[0]->Write_address,
        bus_value(pop_ops[0]) == bus_value(push_ops(sp, value)[1]) && bus_value(pop_ops[1]) == bus_value(
            push_ops(sp, value)[0],
        ) ==> popped_value(pop_ops) == value,
{
    crate::cpu::register::lemma_reg_bytes(value, 0xFFFF);
}

} // verus!
