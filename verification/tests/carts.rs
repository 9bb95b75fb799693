use lib::machine::mbc_initializer::{initialize_mbc, Cartridge};
use lib::machine::Mode;
use lib::mmu::carts::{get_ram_size, init_ram, Mbc};

fn program(cartridge_type: u8, ram_size: u8, cgb_flag: u8, banks: usize) -> Vec<u8> {
    let mut p = vec![0u8; 0x4000 * banks];
    for bank in 0..banks {
        p[bank * 0x4000] = bank as u8;
    }
    p[0x143] = cgb_flag;
    p[0x147] = cartridge_type;
    p[0x149] = ram_size;
    p
}

#[test]
fn ram_sizes_follow_the_header() {
    assert_eq!(get_ram_size(0), 0);
    assert_eq!(get_ram_size(1), 0x800);
    assert_eq!(get_ram_size(2), 0x4000);
    assert_eq!(get_ram_size(3), 0x8000);
    assert_eq!(get_ram_size(4), 0x2_0000);
    assert_eq!(get_ram_size(5), 0x1_0000);
    assert_eq!(init_ram(2, None), vec![0u8; 0x4000]);
    assert_eq!(init_ram(1, Some(vec![7u8; 0x800])), vec![7u8; 0x800]);
}

#[test]
fn cartridge_type_picks_the_controller() {
    let p = program(0x00, 0, 0, 2);
    assert!(matches!(initialize_mbc(&p, None), Cartridge::Rom(_)));
    let p = program(0x03, 2, 0, 4);
    let save = vec![9u8; 0x4000];
    let cart = initialize_mbc(&p, Some(&save));
    assert!(matches!(cart, Cartridge::Mbc1(_)));
    assert!(cart.has_battery());
    assert_eq!(cart.get_ram(), &save[..]);
    let p = program(0x13, 3, 0, 4);
    let cart = initialize_mbc(&p, None);
    assert!(matches!(cart, Cartridge::Mbc3(_)));
    assert_eq!(cart.get_ram().len(), 0x8000);
}

#[test]
fn preferred_mode_comes_from_the_cgb_flag() {
    let p = program(0x00, 0, 0x80, 2);
    assert!(initialize_mbc(&p, None).detect_preferred_mode() == Mode::CGB);
    let p = program(0x00, 0, 0x00, 2);
    assert!(initialize_mbc(&p, None).detect_preferred_mode() == Mode::DMG);
}

#[test]
fn mbc1_switches_rom_banks_and_bank_0_reads_as_1() {
    let p = program(0x01, 0, 0, 8);
    let mut cart = initialize_mbc(&p, None);
    assert_eq!(cart.read_current_bank(0), 1);
    cart.write_rom(0x2000, 5);
    assert_eq!(cart.read_current_bank(0), 5);
    cart.write_rom(0x2000, 0);
    assert_eq!(cart.read_current_bank(0), 1);
    assert_eq!(cart.read_bank0(0x147), 0x01);
}

#[test]
fn external_ram_reads_back_what_was_written() {
    let p = program(0x13, 3, 0, 4);
    let mut cart = initialize_mbc(&p, None);
    // Disabled: reads give 0xFF and writes are dropped.
    cart.write_external_ram(0x10, 0x42);
    assert_eq!(cart.read_external_ram(0x10), 0xFF);
    cart.write_rom(0x0000, 0x0A);
    cart.write_external_ram(0x10, 0x42);
    assert_eq!(cart.read_external_ram(0x10), 0x42);
    cart.write_rom(0x4000, 1);
    assert_eq!(cart.read_external_ram(0x10), 0);
    cart.write_external_ram(0x10, 0x43);
    cart.write_rom(0x4000, 0);
    assert_eq!(cart.read_external_ram(0x10), 0x42);

    let p = program(0x09, 1, 0, 2);
    let mut cart = initialize_mbc(&p, None);
    cart.write_external_ram(0x805, 0x11);
    // A 2 KiB ram wraps around.
    assert_eq!(cart.read_external_ram(0x005), 0x11);
}

#[test]
fn mode_names_read_back() {
    for mode in [Mode::DMG, Mode::CGB] {
        let name: &'static str = mode.into();
        assert!(Mode::try_from(name) == Ok(mode));
    }
    assert!(Mode::try_from("GBA").is_err());
}

#[test]
fn bank_number_follows_the_switchable_bank() {
    let p = program(0x00, 0, 0, 2);
    assert_eq!(initialize_mbc(&p, None).get_bank_number(), 1);
    let p = program(0x01, 0, 0, 8);
    let mut cart = initialize_mbc(&p, None);
    assert_eq!(cart.get_bank_number(), 1);
    cart.write_rom(0x2000, 5);
    assert_eq!(cart.get_bank_number(), 5);
    cart.write_rom(0x2000, 0);
    assert_eq!(cart.get_bank_number(), 1);
    let p = program(0x13, 3, 0, 8);
    let mut cart = initialize_mbc(&p, None);
    cart.write_rom(0x2000, 6);
    assert_eq!(cart.get_bank_number(), 6);
}
