use vstd::prelude::*;
use super::{Mbc, ROM_BANK_SIZE, RAM_BANK_SIZE, MBC_RAM_SIZE_LOCATION, ram_size, ram_index, init_ram, get_external_ram_valid_address};

verus! {

pub const RAM_TIMER_ENABLE_VALUE: u8 = 0xA;
pub const EXTERNAL_RAM_READ_ERROR_VALUE: u8 = 0xFF;
pub const RTC_REGISTERS_COUNT: usize = 5;

/// The rom bank that the MBC3 bank register selects: its seven low bits, 0 reading as 1.
pub open spec fn mbc3_rom_bank(current_bank: u8) -> u8 {
    if current_bank & 0x7F == 0 {
        1
    } else {
        current_bank & 0x7F
    }
}

/// A cartridge with the MBC3 bank controller; the clock registers are plain storage.
pub struct Mbc3<'a> {
    program: &'a [u8],
    ram: Vec<u8>,
    battery: bool,
    current_bank: u8,
    ram_timer_enable: u8,
    ram_rtc_select: u8,
    latch_clock_data: u8,
    rtc_registers: [u8; RTC_REGISTERS_COUNT],
}

impl<'a> Mbc3<'a> {
    /// The bank register, the ram and timer enable register, the ram bank or clock register
    /// select, and the clock latch register.
    pub closed spec fn registers(&self) -> (u8, u8, u8, u8) {
        (self.current_bank, self.ram_timer_enable, self.ram_rtc_select, self.latch_clock_data)
    }

    pub closed spec fn rtc(&self) -> Seq<u8> {
        self.rtc_registers@
    }

    /// The ram and the clock registers are enabled.
    pub open spec fn ram_enabled(&self) -> bool {
        self.registers().1 == RAM_TIMER_ENABLE_VALUE
    }

    pub fn new(program: &'a [u8], battery: bool, ram: Option<Vec<u8>>) -> (mbc: Mbc3<'a>)
        requires
            MBC_RAM_SIZE_LOCATION < program@.len(),
            program@[MBC_RAM_SIZE_LOCATION as int] <= 5,
            ram matches Some(r) ==> r.len() == ram_size(program@[MBC_RAM_SIZE_LOCATION as int]),
        ensures
            mbc.program() == program@,
            mbc.battery() == battery,
            mbc.registers() == (0u8, 0u8, 0u8, 0u8),
            mbc.rtc() == seq![0u8, 0u8, 0u8, 0u8, 0u8],
            mbc.ram().len() == ram_size(program@[MBC_RAM_SIZE_LOCATION as int]),
            ram matches Some(r) ==> mbc.ram() == r@,
            ram is None ==> forall|i: int| 0 <= i < mbc.ram().len() ==> mbc.ram()[i] == 0,
    {
        let ram = init_ram(program[MBC_RAM_SIZE_LOCATION], ram);
        let mbc = Mbc3 {
            current_bank: 0,
            battery,
            latch_clock_data: 0,
            program,
            ram,
            ram_rtc_select: 0,
            ram_timer_enable: 0,
            rtc_registers: [0; RTC_REGISTERS_COUNT],
        };
        assert(mbc.rtc_registers@ =~= seq![0u8, 0u8, 0u8, 0u8, 0u8]);
        mbc
    }

    fn get_current_rom_bank(&self) -> (bank: u8)
        ensures
            bank == mbc3_rom_bank(self.registers().0),
    {
        //discard last bit as this register is 7 bits long
        let bank = self.current_bank;
        let mut value = bank & !0b1000_0000u8;
        proof {
            lemma_mbc3_bits(bank);
        }
        if value == 0 {
            value = 1;
        }
        value
    }
}

impl<'a> Mbc for Mbc3<'a> {
    closed spec fn program(&self) -> Seq<u8> {
        self.program@
    }

    closed spec fn ram(&self) -> Seq<u8> {
        self.ram@
    }

    closed spec fn battery(&self) -> bool {
        self.battery
    }

    open spec fn current_rom_bank(&self) -> nat {
        mbc3_rom_bank(self.registers().0) as nat
    }

    open spec fn ram_access_ok(&self, address: u16) -> bool {
        !self.ram_enabled() || self.registers().2 > 3 || self.ram().len() > 0
    }

    /// Reads the selected ram bank (0 to 3) or clock register (8 to 0xC) when enabled, else
    /// 0xFF.
    open spec fn external_ram_read(&self, address: u16) -> u8 {
        if !self.ram_enabled() {
            EXTERNAL_RAM_READ_ERROR_VALUE
        } else if self.registers().2 <= 3 {
            self.ram()[ram_index(RAM_BANK_SIZE * self.registers().2 + address, self.ram().len())]
        } else if 8 <= self.registers().2 <= 0xC {
            self.rtc()[self.registers().2 - 8]
        } else {
            EXTERNAL_RAM_READ_ERROR_VALUE
        }
    }

    /// The register that the address range selects takes the value.
    open spec fn rom_written(&self, address: u16, value: u8, after: &Self) -> bool {
        &&& after.program() == self.program()
        &&& after.ram() == self.ram()
        &&& after.battery() == self.battery()
        &&& after.rtc() == self.rtc()
        &&& after.registers() == (if address <= 0x1FFF {
            (self.registers().0, value, self.registers().2, self.registers().3)
        } else if address <= 0x3FFF {
            (value, self.registers().1, self.registers().2, self.registers().3)
        } else if address <= 0x5FFF {
            (self.registers().0, self.registers().1, value, self.registers().3)
        } else {
            (self.registers().0, self.registers().1, self.registers().2, value)
        })
    }

    /// Writes the selected ram bank or clock register when enabled.
    open spec fn external_ram_written(&self, address: u16, value: u8, after: &Self) -> bool {
        let sel = self.registers().2;
        &&& after.program() == self.program()
        &&& after.battery() == self.battery()
        &&& after.registers() == self.registers()
        &&& if !self.ram_enabled() {
            after.ram() == self.ram() && after.rtc() == self.rtc()
        } else if sel <= 3 {
            &&& after.ram() == self.ram().update(ram_index(RAM_BANK_SIZE * sel + address, self.ram().len()), value)
            &&& after.rtc() == self.rtc()
        } else if 8 <= sel <= 0xC {
            after.ram() == self.ram() && after.rtc() == self.rtc().update(sel - 8, value)
        } else {
            after.ram() == self.ram() && after.rtc() == self.rtc()
        }
    }

    fn get_ram(&self) -> (r: &[u8]) {
        self.ram.as_slice()
    }

    fn has_battery(&self) -> (b: bool) {
        self.battery
    }

    fn get_bank_number(&self) -> (n: u16) {
        self.get_current_rom_bank() as u16
    }

    fn read_bank0(&self, address: u16) -> (r: u8) {
        self.program[address as usize]
    }

    fn read_current_bank(&self, address: u16) -> (r: u8) {
        let current_bank = self.get_current_rom_bank() as u16;
        let internal_address: usize = (ROM_BANK_SIZE * current_bank as usize) + address as usize;
        self.program[internal_address]
    }

    fn write_rom(&mut self, address: u16, value: u8) {
        if address <= 0x1FFF {
            self.ram_timer_enable = value;
        } else if address <= 0x3FFF {
            self.current_bank = value;
        } else if address <= 0x5FFF {
            self.ram_rtc_select = value;
        } else {
            self.latch_clock_data = value;
        }
    }

    fn read_external_ram(&self, address: u16) -> (r: u8) {
        if self.ram_timer_enable != RAM_TIMER_ENABLE_VALUE {
            return EXTERNAL_RAM_READ_ERROR_VALUE;
        }
        if self.ram_rtc_select <= 3 {
            let internal_address = self.ram_rtc_select as usize * RAM_BANK_SIZE + address as usize;
            let address = get_external_ram_valid_address(internal_address, self.ram.as_slice());
            self.ram[address]
        } else if 8 <= self.ram_rtc_select && self.ram_rtc_select <= 0xC {
            self.rtc_registers[(self.ram_rtc_select - 8) as usize]
        } else {
            EXTERNAL_RAM_READ_ERROR_VALUE
        }
    }

    fn write_external_ram(&mut self, address: u16, value: u8) {
        if self.ram_timer_enable == RAM_TIMER_ENABLE_VALUE {
            if self.ram_rtc_select <= 3 {
                let internal_address = self.ram_rtc_select as usize * RAM_BANK_SIZE + address as usize;
                let index = get_external_ram_valid_address(internal_address, self.ram.as_slice());
                self.ram.set(index, value);
            } else if 8 <= self.ram_rtc_select && self.ram_rtc_select <= 0xC {
                self.rtc_registers[(self.ram_rtc_select - 8) as usize] = value;
            }
        }
    }
}

/// The bank register of MBC3 has seven bits: clearing bit 7 keeps the value modulo 128.
proof fn lemma_mbc3_bits(bank: u8)
    by (bit_vector)
    ensures
        bank & !0b1000_0000u8 == bank & 0x7F,
        bank & 0x7F == bank % 128,
{
}

/// The bank MBC3 maps at 0x4000 is the value last written to 0x2000 to 0x3FFF modulo 128,
/// bank 1 in place of bank 0.
pub proof fn lemma_mbc3_bank_select<'a>(before: &Mbc3<'a>, after: &Mbc3<'a>, address: u16, value: u8)
    requires
        before.rom_written(address, value, after),
        0x2000 <= address <= 0x3FFF,
    ensures
        after.current_rom_bank() == if value % 128 == 0 { 1 } else { value % 128 },
{
    lemma_mbc3_bits(value);
    assert(after.registers().0 == value);
}

} // verus!
