pub mod interrupts_handler;
pub mod carts;
pub mod vram_dma_controller;
pub mod io_bus;
pub mod flat_memory;
pub mod video_access;

use vstd::prelude::*;

verus! {

/// One access of the CPU to the memory bus.
#[derive(Clone, Copy, PartialEq, Eq, Structural)]
pub enum BusOp {
    Read { address: u16, m_cycles: u8, value: u8 },
    Write { address: u16, value: u8, m_cycles: u8 },
    DoubleSpeed(bool),
    Halt(bool),
}

/// The value that a bus access carries (what a read returned, what a write stored).
pub open spec fn bus_value(op: BusOp) -> u8 {
    match op {
        BusOp::Read { value, .. } => value,
        BusOp::Write { value, .. } => value,
        _ => 0,
    }
}

/// `new_log` is `old_log` followed by further accesses.
pub open spec fn log_extends(old_log: Seq<BusOp>, new_log: Seq<BusOp>) -> bool {
    &&& old_log.len() <= new_log.len()
    &&& new_log.subrange(0, old_log.len() as int) == old_log
}

/// The accesses that `new_log` adds to `old_log`.
pub open spec fn new_ops(old_log: Seq<BusOp>, new_log: Seq<BusOp>) -> Seq<BusOp> {
    new_log.subrange(old_log.len() as int, new_log.len() as int)
}

/// Appending an access extends a log by exactly that access.
pub proof fn lemma_log_push(log: Seq<BusOp>, op: BusOp)
    ensures
        log_extends(log, log.push(op)),
        new_ops(log, log.push(op)) == seq![op],
{
    assert(log.push(op).subrange(0, log.len() as int) =~= log);
    assert(new_ops(log, log.push(op)) =~= seq![op]);
}

/// Extensions of logs compose, and so do the accesses they add.
pub proof fn lemma_log_trans(a: Seq<BusOp>, b: Seq<BusOp>, c: Seq<BusOp>)
    requires
        log_extends(a, b),
        log_extends(b, c),
    ensures
        log_extends(a, c),
        new_ops(a, c) == new_ops(a, b) + new_ops(b, c),
{
    assert(c.subrange(0, a.len() as int) =~= b.subrange(0, a.len() as int));
    assert(new_ops(a, c) =~= new_ops(a, b) + new_ops(b, c));
}

/// A log extends itself, adding nothing.
pub proof fn lemma_log_refl(a: Seq<BusOp>)
    ensures
        log_extends(a, a),
        new_ops(a, a) == Seq::<BusOp>::empty(),
{
    assert(a.subrange(0, a.len() as int) =~= a);
    assert(new_ops(a, a) =~= Seq::<BusOp>::empty());
}

/// The memory as the CPU sees it. Each access is recorded, in order, in `bus_log`; what a read
/// returns is up to the implementation.
pub trait Memory {
    spec fn bus_log(&self) -> Seq<BusOp>;

    fn read(&mut self, address: u16, m_cycles: u8) -> (value: u8)
        ensures
            final(self).bus_log() == old(self).bus_log().push(
                BusOp::Read { address, m_cycles, value },
            ),
    ;

    fn write(&mut self, address: u16, value: u8, m_cycles: u8)
        ensures
            final(self).bus_log() == old(self).bus_log().push(
                BusOp::Write { address, value, m_cycles },
            ),
    ;

    fn set_double_speed_mode(&mut self, state: bool)
        ensures
            final(self).bus_log() == old(self).bus_log().push(BusOp::DoubleSpeed(state)),
    ;

    fn set_halt(&mut self, state: bool)
        ensures
            final(self).bus_log() == old(self).bus_log().push(BusOp::Halt(state)),
    ;
}

} // verus!
