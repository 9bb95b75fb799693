pub mod rom;
pub mod mbc1;
pub mod mbc3;

use vstd::prelude::*;
use crate::machine::Mode;

pub use rom::Rom;
pub use mbc1::Mbc1;
pub use mbc3::Mbc3;

verus! {

pub const ROM_BANK_SIZE: usize = 0x4000;
pub const RAM_BANK_SIZE: usize = 0x2000;

pub const CGB_FLAG_ADDRESS: usize = 0x143;
pub const MBC_RAM_SIZE_LOCATION: usize = 0x149;

/// The size of the external ram that the cartridge header's ram size register announces.
pub open spec fn ram_size(ram_size_register: u8) -> nat {
    if ram_size_register == 0 {
        0
    } else if ram_size_register == 1 {
        0x800
    } else if ram_size_register == 2 {
        0x4000
    } else if ram_size_register == 3 {
        0x8000
    } else if ram_size_register == 4 {
        0x2_0000
    } else {
        0x1_0000
    }
}

pub fn get_ram_size(ram_size_register: u8) -> (size: usize)
    requires
        ram_size_register <= 5,
    ensures
        size == ram_size(ram_size_register),
{
    match ram_size_register {
        0x0 => 0,
        0x1 => 0x800,  // Unofficial - Undefined according to official docs
        0x2 => 0x4000,
        0x3 => 0x8000,
        0x4 => 0x2_0000,
        _ => 0x1_0000,
    }
}

/// The external ram of a cartridge: the saved ram when there is one, else zeroed ram of the
/// size that the header announces.
pub fn init_ram(ram_reg: u8, external_ram: Option<Vec<u8>>) -> (ram: Vec<u8>)
    requires
        ram_reg <= 5,
        external_ram matches Some(r) ==> r.len() == ram_size(ram_reg),
    ensures
        ram.len() == ram_size(ram_reg),
        external_ram matches Some(r) ==> ram@ == r@,
        external_ram is None ==> forall|i: int| 0 <= i < ram.len() ==> ram[i] == 0,
{
    let ram_size = get_ram_size(ram_reg);
    match external_ram {
        Some(ram) => ram,
        None => {
            let mut ram: Vec<u8> = Vec::new();
            while ram.len() < ram_size
                invariant
                    ram.len() <= ram_size,
                    forall|i: int| 0 <= i < ram.len() ==> ram[i] == 0,
                decreases ram_size - ram.len(),
            {
                ram.push(0);
            }
            ram
        },
    }
}

/// An index of the external ram that an address reaches: it wraps around a ram smaller than
/// the bank.
pub open spec fn ram_index(address: int, ram_len: nat) -> int {
    address % (ram_len as int)
}

pub fn get_external_ram_valid_address(address: usize, ram: &[u8]) -> (r: usize)
    requires
        ram.len() > 0,
    ensures
        r == ram_index(address as int, ram@.len()),
        r < ram.len(),
{
    address % ram.len()
}

/// The memory bank controller of a cartridge.
pub trait Mbc {
    spec fn program(&self) -> Seq<u8>;

    spec fn ram(&self) -> Seq<u8>;

    spec fn battery(&self) -> bool;

    /// The switchable bank of the program mapped at 0x4000.
    spec fn current_rom_bank(&self) -> nat;

    /// An access to the external ram at `address` stays within the ram.
    spec fn ram_access_ok(&self, address: u16) -> bool;

    /// What a read of the external ram at `address` gives.
    spec fn external_ram_read(&self, address: u16) -> u8;

    /// `after` is the controller once `value` is written at `address` of the program area,
    /// where the controller's registers are.
    spec fn rom_written(&self, address: u16, value: u8, after: &Self) -> bool;

    /// `after` is the controller once `value` is written at `address` of the external ram.
    spec fn external_ram_written(&self, address: u16, value: u8, after: &Self) -> bool;

    fn get_ram(&self) -> (r: &[u8])
        ensures
            r@ == self.ram(),
    ;

    fn has_battery(&self) -> (b: bool)
        ensures
            b == self.battery(),
    ;

    fn read_bank0(&self, address: u16) -> (r: u8)
        requires
            (address as int) < self.program().len(),
        ensures
            r == self.program()[address as int],
    ;

    fn read_current_bank(&self, address: u16) -> (r: u8)
        requires
            ROM_BANK_SIZE * self.current_rom_bank() + address < self.program().len(),
        ensures
            r == self.program()[ROM_BANK_SIZE * self.current_rom_bank() + address],
    ;

    fn write_rom(&mut self, address: u16, value: u8)
        requires
            address < 0x8000,
        ensures
            final(self).program() == old(self).program(),
            final(self).ram() == old(self).ram(),
            final(self).battery() == old(self).battery(),
            old(self).rom_written(address, value, &*final(self)),
    ;

    /// The number of the switchable bank of the program, as the debugger shows it.
    fn get_bank_number(&self) -> (n: u16)
        ensures
            n == self.current_rom_bank(),
    ;

    fn read_external_ram(&self, address: u16) -> (r: u8)
        requires
            self.ram_access_ok(address),
        ensures
            r == self.external_ram_read(address),
    ;

    fn write_external_ram(&mut self, address: u16, value: u8)
        requires
            old(self).ram_access_ok(address),
        ensures
            final(self).program() == old(self).program(),
            final(self).ram().len() == old(self).ram().len(),
            final(self).battery() == old(self).battery(),
            old(self).external_ram_written(address, value, &*final(self)),
    ;

    /// The mode that the cartridge prefers: CGB when bit 7 of its compatibility flag is set.
    fn detect_preferred_mode(&self) -> (mode: Mode)
        requires
            CGB_FLAG_ADDRESS < self.program().len(),
        ensures
            mode == (if self.program()[CGB_FLAG_ADDRESS as int] & 0x80 == 0 {
                Mode::DMG
            } else {
                Mode::CGB
            }),
    {
        let cart_compatibility_reg = self.read_bank0(CGB_FLAG_ADDRESS as u16);
        if cart_compatibility_reg & 0b1000_0000 == 0 {
            Mode::DMG
        } else {
            Mode::CGB
        }
    }
}

/// The external RAM gives back what was written: a write at an address and a read at the
/// same address meet at one byte of the RAM, which holds the value written; reads that meet
/// at another byte are unaffected.
pub proof fn lemma_external_ram_read_back(ram: Seq<u8>, address: int, other: int, value: u8)
    requires
        ram.len() > 0,
        0 <= address,
        0 <= other,
    ensures
        0 <= ram_index(address, ram.len()) < ram.len(),
        ram.update(ram_index(address, ram.len()), value)[ram_index(address, ram.len())] == value,
        ram_index(other, ram.len()) != ram_index(address, ram.len()) ==> ram.update(
            ram_index(address, ram.len()),
            value,
        )[ram_index(other, ram.len())] == ram[ram_index(other, ram.len())],
{
}

} // verus!
