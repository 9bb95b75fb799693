use vstd::prelude::*;

verus! {

/// The size of one bank of video RAM.
pub const VRAM_BANK_SIZE: usize = 0x2000;

/// The two banks of video RAM, and the bank the CPU sees.
pub struct VRam {
    pub memory: Vec<u8>,
    pub current_bank: u8,
}

/// Where a byte of a bank lies in `VRam::memory`.
pub open spec fn vram_index(bank: u8, address: u16) -> int {
    bank * VRAM_BANK_SIZE + address
}

impl VRam {
    pub open spec fn wf(&self) -> bool {
        &&& self.memory@.len() == 2 * VRAM_BANK_SIZE
        &&& self.current_bank < 2
    }

    /// The byte at `address` of bank `bank`.
    pub open spec fn byte(&self, bank: u8, address: u16) -> u8 {
        self.memory@[vram_index(bank, address)]
    }

    /// Both banks cleared, bank 0 selected.
    pub fn new() -> (r: Self)
        ensures
            r.wf(),
            r.current_bank == 0,
            forall|i: int| 0 <= i < 2 * VRAM_BANK_SIZE ==> r.memory@[i] == 0,
    {
        VRam { memory: vec![0u8; 2 * VRAM_BANK_SIZE], current_bank: 0 }
    }

    pub fn read_bank(&self, address: u16, bank: u8) -> (r: u8)
        requires
            self.wf(),
            address < VRAM_BANK_SIZE,
            bank < 2,
        ensures
            r == self.byte(bank, address),
    {
        self.memory[bank as usize * VRAM_BANK_SIZE + address as usize]
    }

    pub fn read_current_bank(&self, address: u16) -> (r: u8)
        requires
            self.wf(),
            address < VRAM_BANK_SIZE,
        ensures
            r == self.byte(self.current_bank, address),
    {
        self.read_bank(address, self.current_bank)
    }

    pub fn write_current_bank(&mut self, address: u16, value: u8)
        requires
            old(self).wf(),
            address < VRAM_BANK_SIZE,
        ensures
            final(self).wf(),
            final(self).current_bank == old(self).current_bank,
            final(self).memory@ == old(self).memory@.update(vram_index(old(self).current_bank, address), value),
    {
        let index = self.current_bank as usize * VRAM_BANK_SIZE + address as usize;
        self.memory.set(index, value);
    }

    /// Selects the bank from bit 0 of `value`.
    pub fn set_bank_reg(&mut self, value: u8)
        requires
            old(self).wf(),
        ensures
            final(self).wf(),
            final(self).current_bank == value & 1,
            final(self).memory@ == old(self).memory@,
    {
        let bank = value & 1;
        proof {
            crate::cpu::opcodes::arithmetic_8bit_instructions::lemma_alu_bits(value, 0, 0, false, false, false, false);
        }
        self.current_bank = bank;
    }

    pub fn get_bank_reg(&self) -> (r: u8)
        ensures
            r == self.current_bank,
    {
        self.current_bank
    }
}

} // verus!
