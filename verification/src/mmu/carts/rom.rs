use vstd::prelude::*;
use super::{Mbc, ROM_BANK_SIZE, MBC_RAM_SIZE_LOCATION, ram_size, ram_index, init_ram, get_external_ram_valid_address};

verus! {

/// A cartridge without a bank controller: 32 KiB of program and an optional external ram.
pub struct Rom<'a> {
    program: &'a [u8],
    external_ram: Vec<u8>,
    battery: bool,
}

impl<'a> Mbc for Rom<'a> {
    closed spec fn program(&self) -> Seq<u8> {
        self.program@
    }

    closed spec fn ram(&self) -> Seq<u8> {
        self.external_ram@
    }

    closed spec fn battery(&self) -> bool {
        self.battery
    }

    open spec fn current_rom_bank(&self) -> nat {
        1
    }

    open spec fn ram_access_ok(&self, address: u16) -> bool {
        self.ram().len() > 0
    }

    open spec fn external_ram_read(&self, address: u16) -> u8 {
        self.ram()[ram_index(address as int, self.ram().len())]
    }

    /// Writes to the program area are ignored.
    open spec fn rom_written(&self, address: u16, value: u8, after: &Self) -> bool {
        *after == *self
    }

    open spec fn external_ram_written(&self, address: u16, value: u8, after: &Self) -> bool {
        &&& after.program() == self.program()
        &&& after.battery() == self.battery()
        &&& after.ram() == self.ram().update(ram_index(address as int, self.ram().len()), value)
    }

    fn get_ram(&self) -> (r: &[u8]) {
        self.external_ram.as_slice()
    }

    fn has_battery(&self) -> (b: bool) {
        self.battery
    }

    fn get_bank_number(&self) -> (n: u16) {
        1
    }

    fn read_bank0(&self, address: u16) -> (r: u8) {
        self.program[address as usize]
    }

    fn write_rom(&mut self, _address: u16, _value: u8) {
        //Just ignoring this as some games accidently wrtite here (ahhm Tetris)
    }

    fn read_current_bank(&self, address: u16) -> (r: u8) {
        self.program[ROM_BANK_SIZE + (address as usize)]
    }

    fn read_external_ram(&self, address: u16) -> (r: u8) {
        self.external_ram[get_external_ram_valid_address(address as usize, self.external_ram.as_slice())]
    }

    fn write_external_ram(&mut self, address: u16, value: u8) {
        let index = get_external_ram_valid_address(address as usize, self.external_ram.as_slice());
        self.external_ram.set(index, value);
    }
}

impl<'a> Rom<'a> {
    pub fn new(program: &'a [u8], battery: bool, ram: Option<Vec<u8>>) -> (rom: Rom<'a>)
        requires
            MBC_RAM_SIZE_LOCATION < program@.len(),
            program@[MBC_RAM_SIZE_LOCATION as int] <= 5,
            ram matches Some(r) ==> r.len() == ram_size(program@[MBC_RAM_SIZE_LOCATION as int]),
        ensures
            rom.program() == program@,
            rom.battery() == battery,
            rom.ram().len() == ram_size(program@[MBC_RAM_SIZE_LOCATION as int]),
            ram matches Some(r) ==> rom.ram() == r@,
            ram is None ==> forall|i: int| 0 <= i < rom.ram().len() ==> rom.ram()[i] == 0,
    {
        let ram_reg = program[MBC_RAM_SIZE_LOCATION];
        let external_ram = init_ram(ram_reg, ram);
        Rom { program, external_ram, battery }
    }
}

} // verus!
