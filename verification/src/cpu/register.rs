use vstd::prelude::*;

verus! {

/// A 16 bit CPU register pair; the bits cleared in the read-only mask always read as zero.
pub struct Reg {
    value: u16,
    read_only_mask: u16,
}

impl Default for Reg {
    fn default() -> (r: Reg)
        ensures
            r@ == 0,
            r.mask() == 0xFFFF,
    {
        let r = Reg { value: 0, read_only_mask: 0xFFFF };
        proof {
            lemma_reg_bytes(0, 0xFFFF);
        }
        r
    }
}

impl Reg {
    /// The value the register holds, with the read-only bits masked out.
    pub closed spec fn view(&self) -> u16 {
        self.value & self.read_only_mask
    }

    /// The mask of the bits that can be written.
    pub closed spec fn mask(&self) -> u16 {
        self.read_only_mask
    }

    pub fn new(romask: u16) -> (r: Reg)
        ensures
            r@ == 0,
            r.mask() == romask,
    {
        let r = Reg { value: 0, read_only_mask: romask };
        proof {
            lemma_reg_bytes(0, romask);
        }
        r
    }

    /// The low byte of the register.
    pub fn low(&self) -> (r: u8)
        ensures
            r == (self@ & 0xFF) as u8,
    {
        (self.get_masked_value() & 0xFF) as u8
    }

    /// The high byte of the register.
    pub fn high(&self) -> (r: u8)
        ensures
            r == (self@ >> 8) as u8,
    {
        (self.get_masked_value() >> 8) as u8
    }

    /// Replaces the low byte of the register.
    pub fn set_low(&mut self, value: u8)
        ensures
            final(self)@ == ((old(self)@ & 0xFF00) | value as u16) & old(self).mask(),
            final(self).mask() == old(self).mask(),
    {
        self.value = (self.get_masked_value() & 0xFF00) | value as u16;
    }

    /// Replaces the high byte of the register.
    pub fn set_high(&mut self, value: u8)
        ensures
            final(self)@ == (((value as u16) << 8) | (old(self)@ & 0x00FF)) & old(self).mask(),
            final(self).mask() == old(self).mask(),
    {
        self.value = ((value as u16) << 8) | (self.get_masked_value() & 0x00FF);
    }

    /// Replaces the whole register value.
    pub fn set_value(&mut self, value: u16)
        ensures
            final(self)@ == value & old(self).mask(),
            final(self).mask() == old(self).mask(),
    {
        self.value = value;
    }

    /// The register's storage, for writing: it holds the masked value at first, and the
    /// register reads as whatever is written there, masked.
    pub fn value_mut(&mut self) -> (r: &mut u16)
        ensures
            *r == old(self)@,
            final(self)@ == *final(r) & old(self).mask(),
            final(self).mask() == old(self).mask(),
    {
        self.value = self.get_masked_value();
        &mut self.value
    }

    pub fn value(&self) -> (r: u16)
        ensures
            r == self@,
    {
        self.get_masked_value()
    }

    /// A register never holds a bit outside its mask.
    pub proof fn lemma_view_masked(&self)
        ensures
            self@ & self.mask() == self@,
    {
        lemma_reg_bytes(self.value, self.read_only_mask);
    }

    fn get_masked_value(&self) -> (r: u16)
        ensures
            r == self@,
    {
        self.value & self.read_only_mask
    }
}

/// A 16 bit value is its high byte above its low byte, masking it twice is masking it once,
/// and 0 masked is 0.
pub proof fn lemma_reg_bytes(value: u16, mask: u16)
    by (bit_vector)
    ensures
        ((((value >> 8u16) as u8) as u16) << 8u16) | (((value & 0xFF) as u8) as u16) == value,
        (((value & 0xFF) as u8) as u16) | ((((value >> 8u16) as u8) as u16) << 8u16) == value,
        (value & mask) & mask == value & mask,
        0u16 & mask == 0,
{
}

} // verus!
