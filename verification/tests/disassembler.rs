use lib::cpu::gb_cpu::GbCpu;
use lib::debugger::disassembler::disassemble;
use lib::mmu::flat_memory::FlatMemory;

fn memory_with_program(start: u16, program: &[u8]) -> FlatMemory {
    let mut bytes = vec![0u8; 0x10000];
    bytes[start as usize..start as usize + program.len()].copy_from_slice(program);
    FlatMemory::new(bytes)
}

fn listing(start: u16, program: &[u8], count: u8) -> Vec<(u16, String)> {
    let mut cpu = GbCpu::default();
    cpu.program_counter = start;
    let mut memory = memory_with_program(start, program);
    disassemble(&cpu, &mut memory, count)
        .iter()
        .map(|e| (e.address, e.string.as_str().to_string()))
        .collect()
}

#[test]
fn disassembles_instructions_of_every_length() {
    let program = [
        0x00, // nop
        0x01, 0x34, 0x12, // ld bc,0x1234
        0x18, 0xFE, // jr -2
        0xCB, 0x7C, // bit 7,h
        0xFF, // rst 0x38
        0x08, 0x10, 0x00, // ld 16,sp
        0xC6, 0x1F, // add a,0x1f
        0x36, 0xAB, // ld [hl],0xAB
    ];
    let expected: Vec<(u16, String)> = vec![
        (0x100, "nop".to_string()),
        (0x101, "ld bc,0x1234".to_string()),
        (0x104, "jr -2".to_string()),
        (0x106, "bit 7,h".to_string()),
        (0x108, "rst 0x38".to_string()),
        (0x109, "ld 16,sp".to_string()),
        (0x10C, "add a,0x1f".to_string()),
        (0x10E, "ld [hl],0xAB".to_string()),
    ];
    assert_eq!(listing(0x100, &program, 8), expected);
}

#[test]
fn unknown_bytes_and_long_texts() {
    let program = [
        0xD3, // no opcode
        0xC4, 0xFF, 0xFF, // call nz,0xFFFF: longer than an entry holds
        0xF8, 0x80, // ld hl,sp+-128: longer than an entry holds
        0xE0, 0x44, // ldio 0x44,a
        0x76, // halt
        0x41, // ld b,c
        0x9E, // sbc a,[hl]
    ];
    let expected: Vec<(u16, String)> = vec![
        (0x200, "unknown-0xD3".to_string()),
        (0x201, "call nz,0xFF".to_string()),
        (0x204, "ld hl,sp+-12".to_string()),
        (0x206, "ldio 0x44,a".to_string()),
        (0x208, "halt".to_string()),
        (0x209, "ld b,c".to_string()),
        (0x20A, "sbc a,[hl]".to_string()),
    ];
    assert_eq!(listing(0x200, &program, 7), expected);
}

#[test]
fn disassembling_nothing_reads_nothing() {
    assert!(listing(0x150, &[0x00], 0).is_empty());
}

#[test]
fn conditions_and_register_pairs_follow_the_opcode_bits() {
    let program = [0x28, 0x05, 0xD0, 0xF5, 0xE1, 0x39, 0xC3, 0x00, 0x01];
    let expected: Vec<(u16, String)> = vec![
        (0x300, "jr nc,5".to_string()),
        (0x302, "ret z".to_string()),
        (0x303, "push af".to_string()),
        (0x304, "pop hl".to_string()),
        (0x305, "add hl,sp".to_string()),
        (0x306, "jp 0x100".to_string()),
    ];
    assert_eq!(listing(0x300, &program, 6), expected);
}
