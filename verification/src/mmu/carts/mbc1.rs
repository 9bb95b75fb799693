use vstd::prelude::*;
use super::{Mbc, ROM_BANK_SIZE, RAM_BANK_SIZE, MBC_RAM_SIZE_LOCATION, ram_size, init_ram};

verus! {

/// The rom bank that the MBC1 registers select: the five low bits of register 1 (0 reads as 1),
/// completed in rom banking mode (register 3 is 0) by the two low bits of register 2.
pub open spec fn mbc1_rom_bank(register1: u8, register2: u8, register3: u8) -> u8 {
    let bank = if register1 & 0b11111 == 0 { 1 } else { register1 & 0b11111 };
    if register3 == 0 {
        bank | ((register2 & 0b11) << 5)
    } else {
        bank
    }
}

/// The ram bank that the MBC1 registers select: the two low bits of register 2 in ram banking
/// mode (register 3 is 1), else 0.
pub open spec fn mbc1_ram_bank(register2: u8, register3: u8) -> u8 {
    if register3 == 1 {
        register2 & 0b11
    } else {
        0
    }
}

/// A cartridge with the MBC1 bank controller.
pub struct Mbc1<'a> {
    program: &'a [u8],
    ram: Vec<u8>,
    register0: u8,
    register1: u8,
    register2: u8,
    register3: u8,
    battery: bool,
}

impl<'a> Mbc1<'a> {
    /// The four bank controller registers.
    pub closed spec fn registers(&self) -> (u8, u8, u8, u8) {
        (self.register0, self.register1, self.register2, self.register3)
    }

    pub open spec fn ram_bank(&self) -> u8 {
        mbc1_ram_bank(self.registers().2, self.registers().3)
    }

    pub fn new(program: &'a [u8], battery: bool, ram: Option<Vec<u8>>) -> (mbc: Mbc1<'a>)
        requires
            MBC_RAM_SIZE_LOCATION < program@.len(),
            program@[MBC_RAM_SIZE_LOCATION as int] <= 5,
            ram matches Some(r) ==> r.len() == ram_size(program@[MBC_RAM_SIZE_LOCATION as int]),
        ensures
            mbc.program() == program@,
            mbc.battery() == battery,
            mbc.registers() == (0u8, 0u8, 0u8, 0u8),
            mbc.ram().len() == ram_size(program@[MBC_RAM_SIZE_LOCATION as int]),
            ram matches Some(r) ==> mbc.ram() == r@,
            ram is None ==> forall|i: int| 0 <= i < mbc.ram().len() ==> mbc.ram()[i] == 0,
    {
        let ram = init_ram(program[MBC_RAM_SIZE_LOCATION], ram);
        Mbc1 { program, ram, register0: 0, register1: 0, register2: 0, register3: 0, battery }
    }

    fn get_current_rom_bank(&self) -> (bank: u8)
        ensures
            bank == mbc1_rom_bank(self.registers().1, self.registers().2, self.registers().3),
    {
        let mut bank = self.register1 & 0b11111;
        //banks 0x0 0x20 0x40 0x60 are not avaalible through this method
        if bank == 0 {
            bank = bank + 1;
        }
        if self.register3 == 0 {
            bank = bank | ((self.register2 & 0b11) << 5);
        }
        bank
    }

    fn get_current_ram_bank(&self) -> (bank: u8)
        ensures
            bank == self.ram_bank(),
            bank < 4,
    {
        if self.register3 == 1 {
            let r2 = self.register2;
            let b = r2 & 0b11;
            proof {
                lemma_mbc1_bits(0, r2);
            }
            return b;
        }
        0
    }
}

impl<'a> Mbc for Mbc1<'a> {
    closed spec fn program(&self) -> Seq<u8> {
        self.program@
    }

    closed spec fn ram(&self) -> Seq<u8> {
        self.ram@
    }

    closed spec fn battery(&self) -> bool {
        self.battery
    }

    open spec fn current_rom_bank(&self) -> nat {
        mbc1_rom_bank(self.registers().1, self.registers().2, self.registers().3) as nat
    }

    open spec fn ram_access_ok(&self, address: u16) -> bool {
        self.ram().len() == 0 || RAM_BANK_SIZE * self.ram_bank() + address < self.ram().len()
    }

    /// Without external ram a read gives 0xFF.
    open spec fn external_ram_read(&self, address: u16) -> u8 {
        if self.ram().len() == 0 {
            0xFF
        } else {
            self.ram()[RAM_BANK_SIZE * self.ram_bank() + address]
        }
    }

    /// The register that the address range selects takes the value.
    open spec fn rom_written(&self, address: u16, value: u8, after: &Self) -> bool {
        &&& after.program() == self.program()
        &&& after.ram() == self.ram()
        &&& after.battery() == self.battery()
        &&& after.registers() == (if address <= 0x1FFF {
            (value, self.registers().1, self.registers().2, self.registers().3)
        } else if address <= 0x3FFF {
            (self.registers().0, value, self.registers().2, self.registers().3)
        } else if address <= 0x5FFF {
            (self.registers().0, self.registers().1, value, self.registers().3)
        } else {
            (self.registers().0, self.registers().1, self.registers().2, value)
        })
    }

    /// Without external ram a write is dropped.
    open spec fn external_ram_written(&self, address: u16, value: u8, after: &Self) -> bool {
        &&& after.program() == self.program()
        &&& after.battery() == self.battery()
        &&& after.registers() == self.registers()
        &&& after.ram() == (if self.ram().len() == 0 {
            self.ram()
        } else {
            self.ram().update(RAM_BANK_SIZE * self.ram_bank() + address, value)
        })
    }

    fn get_ram(&self) -> (r: &[u8]) {
        self.ram.as_slice()
    }

    fn has_battery(&self) -> (b: bool) {
        self.battery
    }

    fn get_bank_number(&self) -> (n: u16) {
        self.get_current_rom_bank() as u16
    }

    fn read_bank0(&self, address: u16) -> (r: u8) {
        self.program[address as usize]
    }

    fn read_current_bank(&self, address: u16) -> (r: u8) {
        let bank: u16 = self.get_current_rom_bank() as u16;
        self.program[ROM_BANK_SIZE * bank as usize + address as usize]
    }

    fn write_rom(&mut self, address: u16, value: u8) {
        if address <= 0x1FFF {
            self.register0 = value;
        } else if address <= 0x3FFF {
            self.register1 = value;
        } else if address <= 0x5FFF {
            self.register2 = value;
        } else {
            self.register3 = value;
        }
    }

    fn read_external_ram(&self, address: u16) -> (r: u8) {
        if self.ram.len() == 0 {
            return 0xFF;
        }
        let bank: u16 = self.get_current_ram_bank() as u16;
        self.ram[(bank as usize * RAM_BANK_SIZE) + address as usize]
    }

    fn write_external_ram(&mut self, address: u16, value: u8) {
        if self.ram.len() > 0 {
            let bank: u16 = self.get_current_ram_bank() as u16;
            self.ram.set((bank as usize * RAM_BANK_SIZE) + address as usize, value);
        }
    }
}

/// The bit facts of the MBC1 bank registers: the five low bits of a value are the value
/// modulo 32, the two low bits of register 2 the value modulo 4, and they stand above the five
/// bank bits.
proof fn lemma_mbc1_bits(value: u8, register2: u8)
    by (bit_vector)
    ensures
        register2 & 0b11 < 4,
        register2 & 0b11 == register2 % 4,
        value & 0b11111 == value % 32,
        (value & 0b11111) | ((register2 & 0b11) << 5u8) == (value & 0b11111) + 32 * (register2 & 0b11),
        1u8 | ((register2 & 0b11) << 5u8) == 1 + 32 * (register2 & 0b11),
        (value & 0b11111) | ((0u8 & 0b11) << 5u8) == value & 0b11111,
        1u8 | ((0u8 & 0b11) << 5u8) == 1u8,
{
}

/// The banks MBC1 maps, from its registers: at 0x4000 the bank register modulo 32 (1 in place
/// of 0), plus, in ROM banking mode (register 3 is 0), 32 times the upper register modulo 4; in
/// RAM banking mode (register 3 is 1) the upper register modulo 4 picks the RAM bank instead,
/// which is else 0.
pub proof fn lemma_mbc1_banks<'a>(m: &Mbc1<'a>)
    ensures
        ({
            let (r0, r1, r2, r3) = m.registers();
            let low: int = if r1 % 32 == 0 { 1 } else { (r1 % 32) as int };
            &&& m.current_rom_bank() == low + (if r3 == 0 { 32 * (r2 % 4) } else { 0 })
            &&& m.ram_bank() == (if r3 == 1 { (r2 % 4) as int } else { 0 })
        }),
{
    lemma_mbc1_bits(m.registers().1, m.registers().2);
}

/// In ROM banking mode with the upper bank bits clear, a write of `value` to 0x2000 to 0x3FFF
/// maps the bank `value` modulo 32 (all five low bits count: writing 0x11 maps bank 17), or
/// bank 1 when that is 0.
pub proof fn lemma_mbc1_bank_select<'a>(before: &Mbc1<'a>, after: &Mbc1<'a>, address: u16, value: u8)
    requires
        before.rom_written(address, value, after),
        0x2000 <= address <= 0x3FFF,
        before.registers().2 == 0,
        before.registers().3 == 0,
    ensures
        value % 32 != 0 ==> after.current_rom_bank() == value % 32,
        value % 32 == 0 ==> after.current_rom_bank() == 1,
{
    lemma_mbc1_bits(value, 0);
    assert(after.registers() == (before.registers().0, value, 0u8, 0u8));
}

} // verus!
