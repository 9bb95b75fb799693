use vstd::prelude::*;
use crate::cpu::gb_cpu::{GbCpu, CpuState};
use crate::cpu::opcodes::opcodes_utils::{get_src_index, get_dest_index, src_index, dest_index, read_byte, write_byte};
use crate::cpu::opcodes::jump_instructions::address_operand;
use crate::cpu::opcodes::rotate_shift_instructions::first_value;
use crate::mmu::{Memory, BusOp, log_extends, new_ops};
use crate::utils::wrapping::wrap16;

verus! {

/// The accesses are one read of `address`.
pub open spec fn reads_once(ops: Seq<BusOp>, address: u16) -> bool {
    ops == seq![BusOp::Read { address, m_cycles: 1, value: first_value(ops) }]
}

/// The accesses are one write of `value` to `address`.
pub open spec fn writes_once(ops: Seq<BusOp>, address: u16, value: u8) -> bool {
    ops == seq![BusOp::Write { address, value, m_cycles: 1 }]
}

/// The address in the IO ports area that an offset selects.
pub open spec fn io_address(offset: u8) -> u16 {
    (0xFF00 + offset) as u16
}

/// LD r,r'.
pub fn ld_r_r(cpu: &mut GbCpu, opcode: u8) -> (cycles: u8)
    requires
        src_index(opcode) != 6,
        dest_index(opcode) != 6,
    ensures
        cycles == 0,
        final(cpu)@ == old(cpu)@.with_r8(dest_index(opcode), old(cpu)@.r8(src_index(opcode))),
{
    let v = cpu.get_r8(get_src_index(opcode));
    cpu.set_r8(get_dest_index(opcode), v);
    // 1 cycles - 1 reading opcode
    0
}

/// LD r,n: the register comes from the first byte, the value is the second.
pub fn ld_r_n(cpu: &mut GbCpu, opcode: u16) -> (cycles: u8)
    requires
        dest_index((opcode >> 8) as u8) != 6,
    ensures
        cycles == 0,
        final(cpu)@ == old(cpu)@.with_r8(dest_index((opcode >> 8) as u8), (opcode & 0xFF) as u8),
{
    let idx = get_dest_index((opcode >> 8) as u8);
    cpu.set_r8(idx, (opcode & 0xFF) as u8);
    // 2 cycles - 2 reading opcode
    0
}

/// LD r,(HL).
pub fn ld_r_hl<M: Memory>(cpu: &mut GbCpu, memory: &mut M, opcode: u8) -> (cycles: u8)
    requires
        dest_index(opcode) != 6,
    ensures
        cycles == 0,
        log_extends(old(memory).bus_log(), final(memory).bus_log()),
        ({
            let ops = new_ops(old(memory).bus_log(), final(memory).bus_log());
            &&& reads_once(ops, old(cpu)@.hl)
            &&& final(cpu)@ == old(cpu)@.with_r8(dest_index(opcode), first_value(ops))
        }),
{
    let v = read_byte(memory, cpu.hl.value());
    cpu.set_r8(get_dest_index(opcode), v);
    // 2 cycles - 1 reading opcode, 1 reading hl address
    0
}

/// LD (HL),r.
pub fn ld_hl_r<M: Memory>(cpu: &mut GbCpu, memory: &mut M, opcode: u8) -> (cycles: u8)
    requires
        src_index(opcode) != 6,
    ensures
        cycles == 0,
        final(cpu)@ == old(cpu)@,
        log_extends(old(memory).bus_log(), final(memory).bus_log()),
        writes_once(
            new_ops(old(memory).bus_log(), final(memory).bus_log()),
            old(cpu)@.hl,
            old(cpu)@.r8(src_index(opcode)),
        ),
{
    let v = cpu.get_r8(get_src_index(opcode));
    write_byte(memory, cpu.hl.value(), v);
    // 2 cycles - 1 reading opcode, 1 writing hl address
    0
}

/// LD (HL),n.
pub fn ld_hl_n<M: Memory>(cpu: &mut GbCpu, memory: &mut M, opcode: u16) -> (cycles: u8)
    ensures
        cycles == 0,
        final(cpu)@ == old(cpu)@,
        log_extends(old(memory).bus_log(), final(memory).bus_log()),
        writes_once(
            new_ops(old(memory).bus_log(), final(memory).bus_log()),
            old(cpu)@.hl,
            (opcode & 0xFF) as u8,
        ),
{
    write_byte(memory, cpu.hl.value(), (opcode & 0xFF) as u8);
    // 3 cycles - 2 reading opcode, 1 writing hl address
    0
}

/// LD A,(BC).
pub fn ld_a_bc<M: Memory>(cpu: &mut GbCpu, memory: &mut M) -> (cycles: u8)
    ensures
        cycles == 0,
        log_extends(old(memory).bus_log(), final(memory).bus_log()),
        ({
            let ops = new_ops(old(memory).bus_log(), final(memory).bus_log());
            &&& reads_once(ops, old(cpu)@.bc)
            &&& final(cpu)@ == old(cpu)@.with_a(first_value(ops))
        }),
{
    let v = read_byte(memory, cpu.bc.value());
    cpu.set_r8(7, v);
    0
}

/// LD A,(DE).
pub fn ld_a_de<M: Memory>(cpu: &mut GbCpu, memory: &mut M) -> (cycles: u8)
    ensures
        cycles == 0,
        log_extends(old(memory).bus_log(), final(memory).bus_log()),
        ({
            let ops = new_ops(old(memory).bus_log(), final(memory).bus_log());
            &&& reads_once(ops, old(cpu)@.de)
            &&& final(cpu)@ == old(cpu)@.with_a(first_value(ops))
        }),
{
    let v = read_byte(memory, cpu.de.value());
    cpu.set_r8(7, v);
    0
}

/// LD (BC),A.
pub fn ld_bc_a<M: Memory>(cpu: &mut GbCpu, memory: &mut M) -> (cycles: u8)
    ensures
        cycles == 0,
        final(cpu)@ == old(cpu)@,
        log_extends(old(memory).bus_log(), final(memory).bus_log()),
        writes_once(new_ops(old(memory).bus_log(), final(memory).bus_log()), old(cpu)@.bc, old(cpu)@.a()),
{
    write_byte(memory, cpu.bc.value(), cpu.get_r8(7));
    0
}

/// LD (DE),A.
pub fn ld_de_a<M: Memory>(cpu: &mut GbCpu, memory: &mut M) -> (cycles: u8)
    ensures
        cycles == 0,
        final(cpu)@ == old(cpu)@,
        log_extends(old(memory).bus_log(), final(memory).bus_log()),
        writes_once(new_ops(old(memory).bus_log(), final(memory).bus_log()), old(cpu)@.de, old(cpu)@.a()),
{
    write_byte(memory, cpu.de.value(), cpu.get_r8(7));
    0
}

/// LDI (HL),A: stores A and increments HL.
pub fn ldi_hl_a<M: Memory>(cpu: &mut GbCpu, memory: &mut M) -> (cycles: u8)
    ensures
        cycles == 0,
        final(cpu)@ == old(cpu)@.with_hl(wrap16(old(cpu)@.hl + 1)),
        log_extends(old(memory).bus_log(), final(memory).bus_log()),
        writes_once(new_ops(old(memory).bus_log(), final(memory).bus_log()), old(cpu)@.hl, old(cpu)@.a()),
{
    write_byte(memory, cpu.hl.value(), cpu.get_r8(7));
    cpu.inc_hl();
    0
}

/// LDD (HL),A: stores A and decrements HL.
pub fn ldd_hl_a<M: Memory>(cpu: &mut GbCpu, memory: &mut M) -> (cycles: u8)
    ensures
        cycles == 0,
        final(cpu)@ == old(cpu)@.with_hl(wrap16(old(cpu)@.hl - 1)),
        log_extends(old(memory).bus_log(), final(memory).bus_log()),
        writes_once(new_ops(old(memory).bus_log(), final(memory).bus_log()), old(cpu)@.hl, old(cpu)@.a()),
{
    write_byte(memory, cpu.hl.value(), cpu.get_r8(7));
    cpu.dec_hl();
    0
}

/// LDI A,(HL): loads A and increments HL.
pub fn ldi_a_hl<M: Memory>(cpu: &mut GbCpu, memory: &mut M) -> (cycles: u8)
    ensures
        cycles == 0,
        log_extends(old(memory).bus_log(), final(memory).bus_log()),
        ({
            let ops = new_ops(old(memory).bus_log(), final(memory).bus_log());
            &&& reads_once(ops, old(cpu)@.hl)
            &&& final(cpu)@ == old(cpu)@.with_a(first_value(ops)).with_hl(wrap16(old(cpu)@.hl + 1))
        }),
{
    let v = read_byte(memory, cpu.hl.value());
    cpu.set_r8(7, v);
    cpu.inc_hl();
    0
}

/// LDD A,(HL): loads A and decrements HL.
pub fn ldd_a_hl<M: Memory>(cpu: &mut GbCpu, memory: &mut M) -> (cycles: u8)
    ensures
        cycles == 0,
        log_extends(old(memory).bus_log(), final(memory).bus_log()),
        ({
            let ops = new_ops(old(memory).bus_log(), final(memory).bus_log());
            &&& reads_once(ops, old(cpu)@.hl)
            &&& final(cpu)@ == old(cpu)@.with_a(first_value(ops)).with_hl(wrap16(old(cpu)@.hl - 1))
        }),
{
    let v = read_byte(memory, cpu.hl.value());
    cpu.set_r8(7, v);
    cpu.dec_hl();
    0
}

/// LD (nn),A.
pub fn ld_nn_a<M: Memory>(cpu: &mut GbCpu, memory: &mut M, opcode: u32) -> (cycles: u8)
    ensures
        cycles == 0,
        final(cpu)@ == old(cpu)@,
        log_extends(old(memory).bus_log(), final(memory).bus_log()),
        writes_once(
            new_ops(old(memory).bus_log(), final(memory).bus_log()),
            address_operand(opcode),
            old(cpu)@.a(),
        ),
{
    let address = (((opcode & 0xFF) as u16) << 8) | (((opcode & 0xFF00) as u16) >> 8);
    write_byte(memory, address, cpu.get_r8(7));
    // 4 cycles - 3 reading opcode, 1 writing to address
    0
}

/// LD A,(nn).
pub fn ld_a_nn<M: Memory>(cpu: &mut GbCpu, memory: &mut M, opcode: u32) -> (cycles: u8)
    ensures
        cycles == 0,
        log_extends(old(memory).bus_log(), final(memory).bus_log()),
        ({
            let ops = new_ops(old(memory).bus_log(), final(memory).bus_log());
            &&& reads_once(ops, address_operand(opcode))
            &&& final(cpu)@ == old(cpu)@.with_a(first_value(ops))
        }),
{
    let address = (((opcode & 0xFF) as u16) << 8) | (((opcode & 0xFF00) as u16) >> 8);
    let v = read_byte(memory, address);
    cpu.set_r8(7, v);
    0
}

/// LDH (n),A: stores A in the IO port that the immediate byte selects.
pub fn ld_ioport_n_a<M: Memory>(cpu: &mut GbCpu, memory: &mut M, opcode: u16) -> (cycles: u8)
    ensures
        cycles == 0,
        final(cpu)@ == old(cpu)@,
        log_extends(old(memory).bus_log(), final(memory).bus_log()),
        writes_once(
            new_ops(old(memory).bus_log(), final(memory).bus_log()),
            io_address((opcode & 0xFF) as u8),
            old(cpu)@.a(),
        ),
{
    let address = 0xFF00 + ((opcode & 0xFF) as u8) as u16;
    write_byte(memory, address, cpu.get_r8(7));
    // 3 cycles - 2 reading opcode, 1 writing to address
    0
}

/// LDH A,(n).
pub fn ld_a_ioport_n<M: Memory>(cpu: &mut GbCpu, memory: &mut M, opcode: u16) -> (cycles: u8)
    ensures
        cycles == 0,
        log_extends(old(memory).bus_log(), final(memory).bus_log()),
        ({
            let ops = new_ops(old(memory).bus_log(), final(memory).bus_log());
            &&& reads_once(ops, io_address((opcode & 0xFF) as u8))
            &&& final(cpu)@ == old(cpu)@.with_a(first_value(ops))
        }),
{
    let address = 0xFF00 + ((opcode & 0xFF) as u8) as u16;
    let v = read_byte(memory, address);
    cpu.set_r8(7, v);
    0
}

/// LD (C),A: stores A in the IO port that C selects.
pub fn ld_ioport_c_a<M: Memory>(cpu: &mut GbCpu, memory: &mut M) -> (cycles: u8)
    ensures
        cycles == 0,
        final(cpu)@ == old(cpu)@,
        log_extends(old(memory).bus_log(), final(memory).bus_log()),
        writes_once(
            new_ops(old(memory).bus_log(), final(memory).bus_log()),
            io_address(old(cpu)@.r8(1)),
            old(cpu)@.a(),
        ),
{
    let address = 0xFF00 + cpu.get_r8(1) as u16;
    write_byte(memory, address, cpu.get_r8(7));
    // 2 cycles - 1 reading opcode, 1 writing to address
    0
}

/// LD A,(C).
pub fn ld_a_ioport_c<M: Memory>(cpu: &mut GbCpu, memory: &mut M) -> (cycles: u8)
    ensures
        cycles == 0,
        log_extends(old(memory).bus_log(), final(memory).bus_log()),
        ({
            let ops = new_ops(old(memory).bus_log(), final(memory).bus_log());
            &&& reads_once(ops, io_address(old(cpu)@.r8(1)))
            &&& final(cpu)@ == old(cpu)@.with_a(first_value(ops))
        }),
{
    let address = 0xFF00 + cpu.get_r8(1) as u16;
    let v = read_byte(memory, address);
    cpu.set_r8(7, v);
    0
}

} // verus!
