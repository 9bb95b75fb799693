use lib::cpu::flag::Flag;
use lib::cpu::gb_cpu::GbCpu;
use lib::cpu::opcode_runner::OpcodeError;
use lib::cpu::register::Reg;
use lib::mmu::flat_memory::FlatMemory;

fn ram_with_program(start: u16, program: &[u8]) -> FlatMemory {
    let mut bytes = vec![0u8; 0x10000];
    bytes[start as usize..start as usize + program.len()].copy_from_slice(program);
    FlatMemory::new(bytes)
}

fn ram_with(start: u16, program: &[u8], address: u16, value: u8) -> FlatMemory {
    let mut bytes = vec![0u8; 0x10000];
    bytes[start as usize..start as usize + program.len()].copy_from_slice(program);
    bytes[address as usize] = value;
    FlatMemory::new(bytes)
}

fn cpu_at(pc: u16) -> GbCpu {
    let mut cpu = GbCpu::default();
    cpu.program_counter = pc;
    cpu.stack_pointer = 0xFFFE;
    cpu
}

#[test]
fn register_masks_read_only_bits() {
    let mut af = Reg::new(0xFFF0);
    af.set_value(0x12FF);
    assert_eq!(af.value(), 0x12F0);
    assert_eq!(af.high(), 0x12);
    assert_eq!(af.low(), 0xF0);
    *af.value_mut() = 0xABCD;
    assert_eq!(af.value(), 0xABC0);
    let mut bc = Reg::default();
    bc.set_low(0x34);
    bc.set_high(0x12);
    assert_eq!(bc.value(), 0x1234);
}

#[test]
fn ld_and_add_immediate() {
    // ld a,0x3C ; add a,0xC6 (sets Z, H and C)
    let mut ram = ram_with_program(0x100, &[0x3E, 0x3C, 0xC6, 0xC4]);
    let mut cpu = cpu_at(0x100);
    // The cycles returned are those beyond the memory accesses.
    assert_eq!(cpu.run_opcode(&mut ram), Ok(0));
    assert_eq!(cpu.af.high(), 0x3C);
    assert_eq!(cpu.run_opcode(&mut ram), Ok(0));
    assert_eq!(cpu.af.high(), 0x00);
    assert_eq!(cpu.af.low(), 0b1011_0000);
    assert_eq!(cpu.program_counter, 0x104);
}

#[test]
fn push_then_pop_restores_the_value() {
    // ld bc,0x1234 ; push bc ; pop de
    let mut ram = ram_with_program(0x100, &[0x01, 0x34, 0x12, 0xC5, 0xD1]);
    let mut cpu = cpu_at(0x100);
    cpu.run_opcode(&mut ram).unwrap();
    cpu.run_opcode(&mut ram).unwrap();
    assert_eq!(cpu.stack_pointer, 0xFFFC);
    assert_eq!(ram.peek(0xFFFD), 0x12);
    assert_eq!(ram.peek(0xFFFC), 0x34);
    cpu.run_opcode(&mut ram).unwrap();
    assert_eq!(cpu.de.value(), 0x1234);
    assert_eq!(cpu.stack_pointer, 0xFFFE);
}

#[test]
fn call_and_ret() {
    // call 0x0200 ; at 0x200: ret
    let mut ram = ram_with(0x100, &[0xCD, 0x00, 0x02], 0x200, 0xC9);
    let mut cpu = cpu_at(0x100);
    assert_eq!(cpu.run_opcode(&mut ram), Ok(1));
    assert_eq!(cpu.program_counter, 0x200);
    assert_eq!(cpu.stack_pointer, 0xFFFC);
    assert_eq!(cpu.run_opcode(&mut ram), Ok(1));
    assert_eq!(cpu.program_counter, 0x103);
    assert_eq!(cpu.stack_pointer, 0xFFFE);
}

#[test]
fn relative_jump_backwards() {
    // jr -2 jumps to itself
    let mut ram = ram_with_program(0x150, &[0x18, 0xFE]);
    let mut cpu = cpu_at(0x150);
    assert_eq!(cpu.run_opcode(&mut ram), Ok(1));
    assert_eq!(cpu.program_counter, 0x150);
}

#[test]
fn cb_prefixed_bit_operations() {
    // ld a,0x81 ; rlc a ; swap a ; bit 7,a ; set 0,b ; res 0,b
    let mut ram = ram_with_program(0x100, &[0x3E, 0x81, 0xCB, 0x07, 0xCB, 0x37, 0xCB, 0x7F, 0xCB, 0xC0, 0xCB, 0x80]);
    let mut cpu = cpu_at(0x100);
    cpu.run_opcode(&mut ram).unwrap();
    assert_eq!(cpu.run_opcode(&mut ram), Ok(0));
    assert_eq!(cpu.af.high(), 0x03);
    assert_eq!(cpu.af.low() & 0x10, 0x10);
    cpu.run_opcode(&mut ram).unwrap();
    assert_eq!(cpu.af.high(), 0x30);
    cpu.run_opcode(&mut ram).unwrap();
    // bit 7 of 0x30 is clear: Z set, H set
    assert_eq!(cpu.af.low() & 0xA0, 0xA0);
    cpu.run_opcode(&mut ram).unwrap();
    assert_eq!(cpu.bc.high(), 0x01);
    cpu.run_opcode(&mut ram).unwrap();
    assert_eq!(cpu.bc.high(), 0x00);
}

#[test]
fn daa_after_bcd_addition() {
    // ld a,0x45 ; add a,0x38 ; daa -> 0x83
    let mut ram = ram_with_program(0x100, &[0x3E, 0x45, 0xC6, 0x38, 0x27]);
    let mut cpu = cpu_at(0x100);
    cpu.run_opcode(&mut ram).unwrap();
    cpu.run_opcode(&mut ram).unwrap();
    cpu.run_opcode(&mut ram).unwrap();
    assert_eq!(cpu.af.high(), 0x83);
}

#[test]
fn memory_through_hl() {
    // ld hl,0xC000 ; ld (hl),0x7F ; inc (hl) ; ld a,(hl)
    let mut ram = ram_with_program(0x100, &[0x21, 0x00, 0xC0, 0x36, 0x7F, 0x34, 0x7E]);
    let mut cpu = cpu_at(0x100);
    for _ in 0..4 {
        cpu.run_opcode(&mut ram).unwrap();
    }
    assert_eq!(ram.peek(0xC000), 0x80);
    assert_eq!(cpu.af.high(), 0x80);
    // inc to 0x80 sets H
    assert_eq!(cpu.af.low() & 0x20, 0x20);
}

#[test]
fn unsupported_opcode_is_an_error() {
    let mut ram = ram_with_program(0x100, &[0xD3]);
    let mut cpu = cpu_at(0x100);
    assert_eq!(cpu.run_opcode(&mut ram), Err(OpcodeError::UnsupportedOpcode(0xD3)));
}

#[test]
fn stop_needs_a_zero_byte() {
    let mut ram = ram_with_program(0x100, &[0x10, 0x01]);
    let mut cpu = cpu_at(0x100);
    assert_eq!(cpu.run_opcode(&mut ram), Err(OpcodeError::InvalidStopOpcode(0x01)));
}

#[test]
fn halt_sets_the_halt_state() {
    let mut ram = ram_with_program(0x100, &[0x76]);
    let mut cpu = cpu_at(0x100);
    cpu.run_opcode(&mut ram).unwrap();
    assert!(cpu.halt);
}

#[test]
fn registers_and_flags_read_back() {
    let mut cpu = cpu_at(0x100);
    for idx in [0u8, 1, 2, 3, 4, 5, 7] {
        cpu.set_r8(idx, 0x10 + idx);
    }
    for idx in [0u8, 1, 2, 3, 4, 5, 7] {
        assert_eq!(cpu.get_r8(idx), 0x10 + idx);
    }
    cpu.set_flag(Flag::Carry);
    cpu.set_flag(Flag::Zero);
    cpu.unset_flag(Flag::Zero);
    assert!(cpu.get_flag(Flag::Carry));
    assert!(!cpu.get_flag(Flag::Zero));
    assert_eq!(cpu.af.high(), 0x17);
    cpu.set_flags(true, true, false, false);
    assert_eq!(cpu.af.low(), 0xC0);
}

#[test]
fn rrc_undoes_rlc() {
    // ld c,0x85 ; rlc c ; rrc c
    let mut ram = ram_with_program(0x100, &[0x0E, 0x85, 0xCB, 0x01, 0xCB, 0x09]);
    let mut cpu = cpu_at(0x100);
    cpu.run_opcode(&mut ram).unwrap();
    cpu.run_opcode(&mut ram).unwrap();
    assert_eq!(cpu.bc.low(), 0x0B);
    cpu.run_opcode(&mut ram).unwrap();
    assert_eq!(cpu.bc.low(), 0x85);
    assert!(cpu.get_flag(Flag::Carry));
    assert!(!cpu.get_flag(Flag::Zero));
    assert!(!cpu.get_flag(Flag::Subtraction));
    assert!(!cpu.get_flag(Flag::HalfCarry));
    assert_eq!(cpu.bc.high(), 0);
}

#[test]
fn ret_after_call_comes_back() {
    // call 0x0200 ; ... at 0x200: ret
    let mut ram = ram_with(0x100, &[0xCD, 0x00, 0x02], 0x200, 0xC9);
    let mut cpu = cpu_at(0x100);
    cpu.run_opcode(&mut ram).unwrap();
    assert_eq!(cpu.program_counter, 0x200);
    assert_eq!(cpu.stack_pointer, 0xFFFC);
    cpu.run_opcode(&mut ram).unwrap();
    assert_eq!(cpu.program_counter, 0x103);
    assert_eq!(cpu.stack_pointer, 0xFFFE);
}

#[test]
fn set_by_value_reads_back_and_keeps_a_and_the_other_flags() {
    let mut cpu = GbCpu::default();
    cpu.af.set_high(0xA7);
    cpu.set_flag(Flag::Zero);
    cpu.set_flag(Flag::HalfCarry);
    for flag in [Flag::Zero, Flag::Subtraction, Flag::HalfCarry, Flag::Carry] {
        for value in [true, false] {
            let before = [Flag::Zero, Flag::Subtraction, Flag::HalfCarry, Flag::Carry].map(|f| cpu.get_flag(f));
            cpu.set_by_value(flag, value);
            assert_eq!(cpu.get_flag(flag), value);
            assert_eq!(cpu.af.high(), 0xA7);
            for (i, other) in [Flag::Zero, Flag::Subtraction, Flag::HalfCarry, Flag::Carry].into_iter().enumerate() {
                if other != flag {
                    assert_eq!(cpu.get_flag(other), before[i]);
                }
            }
            // The low nibble of F always reads 0.
            assert_eq!(cpu.af.low() & 0x0F, 0);
        }
    }
}

#[test]
fn a_machine_started_without_a_bootrom_has_the_boot_registers() {
    let dmg = lib::machine::gameboy::cpu_without_bootrom(lib::machine::Mode::DMG);
    assert_eq!((dmg.af.value(), dmg.bc.value(), dmg.de.value(), dmg.hl.value()), (0x190, 0x13, 0xD8, 0x14D));
    assert_eq!((dmg.stack_pointer, dmg.program_counter), (0xFFFE, 0x100));
    let cgb = lib::machine::gameboy::cpu_without_bootrom(lib::machine::Mode::CGB);
    assert_eq!((cgb.af.value(), cgb.bc.value(), cgb.de.value(), cgb.hl.value()), (0x1180, 0, 0xFF56, 0xD));
    assert_eq!((cgb.stack_pointer, cgb.program_counter), (0xFFFE, 0x100));
    assert!(!cgb.mie && !cgb.halt);
}
