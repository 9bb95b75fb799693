use vstd::prelude::*;
use super::{Memory, BusOp};

verus! {

/// A plain 64 KiB memory: reads give back what was last written. Accesses outside the
/// bytes it holds read as 0xFF and write nothing.
pub struct FlatMemory {
    bytes: Vec<u8>,
    double_speed: bool,
    halt: bool,
    log: Ghost<Seq<BusOp>>,
}

impl FlatMemory {
    /// The bytes of the memory.
    pub closed spec fn contents(&self) -> Seq<u8> {
        self.bytes@
    }

    /// The CPU runs at double speed.
    pub closed spec fn double_speed_mode(&self) -> bool {
        self.double_speed
    }

    /// The CPU is halted.
    pub closed spec fn halted(&self) -> bool {
        self.halt
    }

    /// A memory holding `bytes` from address 0, with no access recorded.
    pub fn new(bytes: Vec<u8>) -> (r: Self)
        ensures
            r.contents() == bytes@,
            r.bus_log() == Seq::<BusOp>::empty(),
            !r.double_speed_mode(),
            !r.halted(),
    {
        FlatMemory { bytes, double_speed: false, halt: false, log: Ghost(Seq::empty()) }
    }

    /// The byte at `address`, without recording an access.
    pub fn peek(&self, address: u16) -> (r: u8)
        ensures
            r == if (address as int) < self.contents().len() { self.contents()[address as int] } else { 0xFF },
    {
        if (address as usize) < self.bytes.len() {
            self.bytes[address as usize]
        } else {
            0xFF
        }
    }

    pub fn is_double_speed(&self) -> (r: bool)
        ensures
            r == self.double_speed_mode(),
    {
        self.double_speed
    }

    pub fn is_halted(&self) -> (r: bool)
        ensures
            r == self.halted(),
    {
        self.halt
    }
}

impl Memory for FlatMemory {
    closed spec fn bus_log(&self) -> Seq<BusOp> {
        self.log@
    }

    fn read(&mut self, address: u16, m_cycles: u8) -> (value: u8)
        ensures
            value == if (address as int) < old(self).contents().len() {
                old(self).contents()[address as int]
            } else {
                0xFF
            },
            final(self).contents() == old(self).contents(),
            final(self).double_speed_mode() == old(self).double_speed_mode(),
            final(self).halted() == old(self).halted(),
    {
        let value = self.peek(address);
        self.log = Ghost(self.log@.push(BusOp::Read { address, m_cycles, value }));
        value
    }

    fn write(&mut self, address: u16, value: u8, m_cycles: u8)
        ensures
            final(self).contents() == if (address as int) < old(self).contents().len() {
                old(self).contents().update(address as int, value)
            } else {
                old(self).contents()
            },
            final(self).double_speed_mode() == old(self).double_speed_mode(),
            final(self).halted() == old(self).halted(),
    {
        if (address as usize) < self.bytes.len() {
            self.bytes.set(address as usize, value);
        }
        self.log = Ghost(self.log@.push(BusOp::Write { address, value, m_cycles }));
    }

    fn set_double_speed_mode(&mut self, state: bool)
        ensures
            final(self).contents() == old(self).contents(),
            final(self).double_speed_mode() == state,
            final(self).halted() == old(self).halted(),
    {
        self.double_speed = state;
        self.log = Ghost(self.log@.push(BusOp::DoubleSpeed(state)));
    }

    fn set_halt(&mut self, state: bool)
        ensures
            final(self).contents() == old(self).contents(),
            final(self).double_speed_mode() == old(self).double_speed_mode(),
            final(self).halted() == state,
    {
        self.halt = state;
        self.log = Ghost(self.log@.push(BusOp::Halt(state)));
    }
}

} // verus!
