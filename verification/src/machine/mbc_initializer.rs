use vstd::prelude::*;
use crate::mmu::carts::{Mbc, Rom, Mbc1, Mbc3, MBC_RAM_SIZE_LOCATION, ROM_BANK_SIZE, ram_size};

verus! {

pub const CARTRIDGE_TYPE_ADDRESS: usize = 0x147;

/// A cartridge with one of the bank controllers of the library.
pub enum Cartridge<'a> {
    Rom(Rom<'a>),
    Mbc1(Mbc1<'a>),
    Mbc3(Mbc3<'a>),
}

impl<'a> Mbc for Cartridge<'a> {
    open spec fn program(&self) -> Seq<u8> {
        match self {
            Cartridge::Rom(c) => c.program(),
            Cartridge::Mbc1(c) => c.program(),
            Cartridge::Mbc3(c) => c.program(),
        }
    }

    open spec fn ram(&self) -> Seq<u8> {
        match self {
            Cartridge::Rom(c) => c.ram(),
            Cartridge::Mbc1(c) => c.ram(),
            Cartridge::Mbc3(c) => c.ram(),
        }
    }

    open spec fn battery(&self) -> bool {
        match self {
            Cartridge::Rom(c) => c.battery(),
            Cartridge::Mbc1(c) => c.battery(),
            Cartridge::Mbc3(c) => c.battery(),
        }
    }

    open spec fn current_rom_bank(&self) -> nat {
        match self {
            Cartridge::Rom(c) => c.current_rom_bank(),
            Cartridge::Mbc1(c) => c.current_rom_bank(),
            Cartridge::Mbc3(c) => c.current_rom_bank(),
        }
    }

    open spec fn ram_access_ok(&self, address: u16) -> bool {
        match self {
            Cartridge::Rom(c) => c.ram_access_ok(address),
            Cartridge::Mbc1(c) => c.ram_access_ok(address),
            Cartridge::Mbc3(c) => c.ram_access_ok(address),
        }
    }

    open spec fn external_ram_read(&self, address: u16) -> u8 {
        match self {
            Cartridge::Rom(c) => c.external_ram_read(address),
            Cartridge::Mbc1(c) => c.external_ram_read(address),
            Cartridge::Mbc3(c) => c.external_ram_read(address),
        }
    }

    /// The controller stays of its kind and changes as its kind does.
    open spec fn rom_written(&self, address: u16, value: u8, after: &Self) -> bool {
        match (*self, *after) {
            (Cartridge::Rom(c), Cartridge::Rom(d)) => c.rom_written(address, value, &d),
            (Cartridge::Mbc1(c), Cartridge::Mbc1(d)) => c.rom_written(address, value, &d),
            (Cartridge::Mbc3(c), Cartridge::Mbc3(d)) => c.rom_written(address, value, &d),
            _ => false,
        }
    }

    /// The controller stays of its kind and changes as its kind does.
    open spec fn external_ram_written(&self, address: u16, value: u8, after: &Self) -> bool {
        match (*self, *after) {
            (Cartridge::Rom(c), Cartridge::Rom(d)) => c.external_ram_written(address, value, &d),
            (Cartridge::Mbc1(c), Cartridge::Mbc1(d)) => c.external_ram_written(address, value, &d),
            (Cartridge::Mbc3(c), Cartridge::Mbc3(d)) => c.external_ram_written(address, value, &d),
            _ => false,
        }
    }

    fn get_ram(&self) -> (r: &[u8]) {
        match self {
            Cartridge::Rom(c) => c.get_ram(),
            Cartridge::Mbc1(c) => c.get_ram(),
            Cartridge::Mbc3(c) => c.get_ram(),
        }
    }

    fn get_bank_number(&self) -> (n: u16) {
        match self {
            Cartridge::Rom(c) => c.get_bank_number(),
            Cartridge::Mbc1(c) => c.get_bank_number(),
            Cartridge::Mbc3(c) => c.get_bank_number(),
        }
    }

    fn has_battery(&self) -> (b: bool) {
        match self {
            Cartridge::Rom(c) => c.has_battery(),
            Cartridge::Mbc1(c) => c.has_battery(),
            Cartridge::Mbc3(c) => c.has_battery(),
        }
    }

    fn read_bank0(&self, address: u16) -> (r: u8) {
        match self {
            Cartridge::Rom(c) => c.read_bank0(address),
            Cartridge::Mbc1(c) => c.read_bank0(address),
            Cartridge::Mbc3(c) => c.read_bank0(address),
        }
    }

    fn read_current_bank(&self, address: u16) -> (r: u8) {
        match self {
            Cartridge::Rom(c) => c.read_current_bank(address),
            Cartridge::Mbc1(c) => c.read_current_bank(address),
            Cartridge::Mbc3(c) => c.read_current_bank(address),
        }
    }

    fn write_rom(&mut self, address: u16, value: u8) {
        match self {
            Cartridge::Rom(c) => c.write_rom(address, value),
            Cartridge::Mbc1(c) => c.write_rom(address, value),
            Cartridge::Mbc3(c) => c.write_rom(address, value),
        }
    }

    fn read_external_ram(&self, address: u16) -> (r: u8) {
        match self {
            Cartridge::Rom(c) => c.read_external_ram(address),
            Cartridge::Mbc1(c) => c.read_external_ram(address),
            Cartridge::Mbc3(c) => c.read_external_ram(address),
        }
    }

    fn write_external_ram(&mut self, address: u16, value: u8) {
        match self {
            Cartridge::Rom(c) => c.write_external_ram(address, value),
            Cartridge::Mbc1(c) => c.write_external_ram(address, value),
            Cartridge::Mbc3(c) => c.write_external_ram(address, value),
        }
    }
}

/// The cartridge type codes of the header that the library has a controller for.
pub open spec fn supported_cartridge_type(t: u8) -> bool {
    t == 0x0 || t == 0x8 || t == 0x9 || t == 0x1 || t == 0x2 || t == 0x3 || t == 0xF || t == 0x10
        || t == 0x13 || t == 0x11 || t == 0x12
}

/// The cartridge types whose save data is loaded into the external ram.
pub open spec fn loads_save_data(t: u8) -> bool {
    t == 0x9 || t == 0x3 || t == 0x10 || t == 0x13
}

/// The cartridge types with a battery.
pub open spec fn has_battery_type(t: u8) -> bool {
    t == 0x9 || t == 0x3 || t == 0xF || t == 0x10 || t == 0x13
}

fn copy_bytes(data: &[u8]) -> (r: Vec<u8>)
    ensures
        r@ == data@,
{
    let mut r: Vec<u8> = Vec::new();
    let mut i: usize = 0;
    while i < data.len()
        invariant
            i <= data.len(),
            r@ == data@.subrange(0, i as int),
        decreases data.len() - i,
    {
        r.push(data[i]);
        i = i + 1;
    }
    assert(r@ =~= data@);
    r
}

/// Picks the bank controller that the cartridge header names and sets it up, with the save data
/// as external ram where the cartridge keeps one.
pub fn initialize_mbc<'a>(program: &'a [u8], save_data: Option<&[u8]>) -> (mbc: Cartridge<'a>)
    requires
        MBC_RAM_SIZE_LOCATION < program@.len(),
        supported_cartridge_type(program@[CARTRIDGE_TYPE_ADDRESS as int]),
        program@[MBC_RAM_SIZE_LOCATION as int] <= 5,
        loads_save_data(program@[CARTRIDGE_TYPE_ADDRESS as int]) ==> (save_data matches Some(sd)
            ==> sd@.len() == ram_size(program@[MBC_RAM_SIZE_LOCATION as int])),
    ensures
        ({
            let t = program@[CARTRIDGE_TYPE_ADDRESS as int];
            &&& (t == 0x0 || t == 0x8 || t == 0x9) <==> mbc is Rom
            &&& (t == 0x1 || t == 0x2 || t == 0x3) <==> mbc is Mbc1
            &&& (t == 0xF || t == 0x10 || t == 0x13 || t == 0x11 || t == 0x12) <==> mbc is Mbc3
            &&& mbc.program() == program@
            &&& mbc.battery() == has_battery_type(t)
            &&& mbc.ram().len() == ram_size(program@[MBC_RAM_SIZE_LOCATION as int])
            &&& (loads_save_data(t) && save_data is Some) ==> mbc.ram() == save_data->0@
            &&& !(loads_save_data(t) && save_data is Some) ==> forall|i: int|
                0 <= i < mbc.ram().len() ==> mbc.ram()[i] == 0
        }),
{
    let save_data_clone: Option<Vec<u8>> = match save_data {
        Some(sd) => Some(copy_bytes(sd)),
        None => None,
    };
    let mbc_type = program[CARTRIDGE_TYPE_ADDRESS];
    match mbc_type {
        0x0 | 0x8 => Cartridge::Rom(Rom::new(program, false, None)),
        0x9 => Cartridge::Rom(Rom::new(program, true, save_data_clone)),
        0x1 | 0x2 => Cartridge::Mbc1(Mbc1::new(program, false, None)),
        0x3 => Cartridge::Mbc1(Mbc1::new(program, true, save_data_clone)),
        // The battery is for the RTC which isnt supported right now
        0xF => Cartridge::Mbc3(Mbc3::new(program, true, None)),
        // The battery is also used for the RTC which isnt supported right now
        0x10 | 0x13 => Cartridge::Mbc3(Mbc3::new(program, true, save_data_clone)),
        _ => Cartridge::Mbc3(Mbc3::new(program, false, None)),
    }
}

} // verus!
