use vstd::prelude::*;
use crate::utils::bit_masks::BIT_7_MASK;
use crate::mmu::{Memory, BusOp, log_extends, new_ops, lemma_log_push, lemma_log_trans, lemma_log_refl};
use crate::ppu::gb_ppu::GbPpu;
use crate::ppu::gfx_device::GfxDevice;
use crate::ppu::ppu_state::PpuState;
use crate::ppu::vram::{VRam, vram_index};

verus! {

/// What the VRAM DMA is doing.
#[derive(Clone, Copy, PartialEq, Eq, Structural, Debug)]
pub enum TransferMode {
    GeneralPurpose,
    Hblank,
    Terminated,
}

const HBLANK_TRANSFER_CHUNK_SIZE: u8 = 0x10;

const BYTES_TRASNFERED_PER_M_CYCLE: u8 = 2;

/// A read of `address` that takes no time.
pub open spec fn is_copy_read(op: BusOp, address: int) -> bool {
    op matches BusOp::Read { address: a, m_cycles, .. } && a == address && m_cycles == 0
}

/// The reads of a copy of `n` bytes from `source` on, in order.
pub open spec fn copy_reads(source: u16, log: Seq<BusOp>, n: int) -> bool {
    &&& log.len() == n
    &&& forall|i: int| 0 <= i < n ==> is_copy_read(#[trigger] log[i], source + i)
}

/// VRAM after copying the values of the reads in `log` to `dest` on, in the current bank.
pub open spec fn copied(vram: Seq<u8>, bank: u8, dest: u16, log: Seq<BusOp>) -> Seq<u8>
    decreases log.len(),
{
    if log.len() == 0 {
        vram
    } else {
        copied(vram, bank, dest, log.drop_last()).update(
            vram_index(bank, (dest + log.len() - 1) as u16),
            crate::mmu::bus_value(log.last()),
        )
    }
}

/// How a general purpose transfer runs for `budget` m-cycles from `source` with `remaining`
/// blocks left: the m-cycles it runs (2 bytes each), the blocks left after them, and whether
/// it ended. A block ends when the source reaches a multiple of 0x10.
pub open spec fn gp_run(source: int, remaining: int, budget: int) -> (int, int, bool)
    decreases budget,
{
    if budget <= 0 {
        (0, remaining, false)
    } else if (source + 2) % 16 == 0 && remaining - 1 == 0 {
        (1, 0, true)
    } else {
        let left = if (source + 2) % 16 == 0 { remaining - 1 } else { remaining };
        let rest = gp_run(source + 2, left, budget - 1);
        (rest.0 + 1, rest.1, rest.2)
    }
}

/// The m-cycles a horizontal blank transfer runs within `budget`: up to the end of the
/// current block of 0x10 bytes.
pub open spec fn hblank_cycles(burst: int, budget: int) -> int {
    if budget < (16 - burst) / 2 {
        budget
    } else {
        (16 - burst) / 2
    }
}

/// The bytes of a transfer of `n` bytes fit: the source does not pass 0xFFFF and the
/// destination stays in VRAM.
pub open spec fn copy_fits(source: u16, dest: u16, n: int) -> bool {
    source + n <= 0xFFFF && dest + n <= 0x2000
}

/// A general purpose transfer ran for `m_cycles` m-cycles: it copied 2 bytes per m-cycle it
/// ran (see `gp_run`) from the source to VRAM, reading each through the bus once, and ended
/// when its last block was done.
pub open spec fn gp_transfer_done<G: GfxDevice>(
    old: VramDmaController,
    new: VramDmaController,
    old_ppu: GbPpu<G>,
    new_ppu: GbPpu<G>,
    old_log: Seq<BusOp>,
    new_log: Seq<BusOp>,
    m_cycles: int,
) -> bool {
    let run = gp_run(old.source() as int, old.remaining() as int, m_cycles);
    let reads = new_ops(old_log, new_log);
    &&& log_extends(old_log, new_log)
    &&& copy_reads(old.source(), reads, 2 * run.0)
    &&& new_ppu.vram.memory@ == copied(old_ppu.vram.memory@, old_ppu.vram.current_bank, old.dest(), reads)
    &&& new_ppu == (GbPpu { vram: VRam { memory: new_ppu.vram.memory, ..old_ppu.vram }, ..old_ppu })
    &&& new.source() == old.source() + 2 * run.0
    &&& new.dest() == old.dest() + 2 * run.0
    &&& new.remaining() == run.1
    &&& new.mode() == (if run.2 { TransferMode::Terminated } else { TransferMode::GeneralPurpose })
    &&& new.last_ly() == old.last_ly()
    &&& new.burst() == old.burst()
}

/// A horizontal blank transfer ran for `m_cycles` m-cycles: nothing happens outside a
/// horizontal blank or on the line that already had its block; else it copied 2 bytes per
/// m-cycle up to the end of the block, and a finished block marks the line (or ends the
/// transfer when it was the last).
pub open spec fn hblank_transfer_done<G: GfxDevice>(
    old: VramDmaController,
    new: VramDmaController,
    old_ppu: GbPpu<G>,
    new_ppu: GbPpu<G>,
    old_log: Seq<BusOp>,
    new_log: Seq<BusOp>,
    m_cycles: int,
) -> bool {
    let n = hblank_cycles(old.burst() as int, m_cycles);
    let reads = new_ops(old_log, new_log);
    let finished = old.burst() + 2 * n == 16;
    &&& log_extends(old_log, new_log)
    &&& new_ppu == (GbPpu { vram: VRam { memory: new_ppu.vram.memory, ..old_ppu.vram }, ..old_ppu })
    &&& if old.last_ly() == Some(old_ppu.ly_register) || old_ppu.state != PpuState::Hblank {
        &&& new_log == old_log
        &&& new == old
        &&& new_ppu == old_ppu
    } else {
        &&& copy_reads(old.source(), reads, 2 * n)
        &&& new_ppu.vram.memory@ == copied(old_ppu.vram.memory@, old_ppu.vram.current_bank, old.dest(), reads)
        &&& new.source() == old.source() + 2 * n
        &&& new.dest() == old.dest() + 2 * n
        &&& new.burst() == (if finished { 0 } else { old.burst() + 2 * n })
        &&& new.remaining() == (if finished { old.remaining() - 1 } else { old.remaining() as int })
        &&& new.mode() == (if finished && old.remaining() == 1 { TransferMode::Terminated } else { TransferMode::Hblank })
        &&& new.last_ly() == (if !finished {
            old.last_ly()
        } else if old.remaining() == 1 {
            None
        } else {
            Some(old_ppu.ly_register)
        })
    }
}

/// A transfer runs at least one of the m-cycles it is given, and at most all of them.
proof fn lemma_gp_run_bounds(source: int, remaining: int, budget: int)
    ensures
        budget > 0 ==> 1 <= gp_run(source, remaining, budget).0 <= budget,
        budget <= 0 ==> gp_run(source, remaining, budget).0 == 0,
        remaining >= 1 ==> (gp_run(source, remaining, budget).2 ==> gp_run(source, remaining, budget).1 == 0),
        remaining >= 1 ==> (!gp_run(source, remaining, budget).2 ==> gp_run(source, remaining, budget).1 >= 1),
    decreases budget,
{
    if budget > 0 {
        let left = if (source + 2) % 16 == 0 { remaining - 1 } else { remaining };
        lemma_gp_run_bounds(source + 2, left, budget - 1);
    }
}

/// The low 4 bits of an address are clear exactly at multiples of 0x10.
proof fn lemma_low_nibble(address: u16)
    by (bit_vector)
    ensures
        (address & 0xF == 0) == (address % 16 == 0),
{
}

/// What HDMA5 reads when `remaining` blocks are left to copy.
pub open spec fn hdma5_value(remaining: u8) -> u8 {
    if remaining == 0 {
        0xFF
    } else {
        (remaining - 1) as u8
    }
}

/// The CGB VRAM DMA (HDMA1 to HDMA5): copies blocks of 0x10 bytes to video RAM, all at
/// once (general purpose) or one block per horizontal blank.
pub struct VramDmaController {
    source_address: u16,
    dest_address: u16,
    mode: TransferMode,
    remaining_length: u8,
    last_ly: Option<u8>,
    hblank_transfer_burst_counter: u8,
}

impl VramDmaController {
    pub closed spec fn source(&self) -> u16 {
        self.source_address
    }

    pub closed spec fn dest(&self) -> u16 {
        self.dest_address
    }

    pub closed spec fn mode(&self) -> TransferMode {
        self.mode
    }

    /// The blocks left to copy.
    pub closed spec fn remaining(&self) -> u8 {
        self.remaining_length
    }

    /// The bytes of the current block copied so far in a horizontal blank transfer.
    pub closed spec fn burst(&self) -> u8 {
        self.hblank_transfer_burst_counter
    }

    /// The line of the last horizontal blank that copied a block.
    pub closed spec fn last_ly(&self) -> Option<u8> {
        self.last_ly
    }

    /// A running transfer has blocks left, and a horizontal blank block is copied 2 bytes at
    /// a time.
    pub open spec fn wf(&self) -> bool {
        &&& self.mode() != TransferMode::Terminated ==> self.remaining() >= 1
        &&& self.burst() % 2 == 0
        &&& self.burst() < 16
    }

    pub fn new() -> (r: Self)
        ensures
            r.wf(),
            r.source() == 0,
            r.dest() == 0,
            r.mode() == TransferMode::Terminated,
            r.remaining() == 0,
            r.last_ly() is None,
            r.burst() == 0,
    {
        Self {
            dest_address: 0,
            last_ly: None,
            hblank_transfer_burst_counter: 0,
            mode: TransferMode::Terminated,
            remaining_length: 0,
            source_address: 0,
        }
    }

    pub fn set_source_high(&mut self, value: u8)
        ensures
            final(self).source() == (old(self).source() & 0x00FF) | ((value as u16) << 8u16),
            final(self).dest() == old(self).dest(),
            final(self).mode() == old(self).mode(),
            final(self).remaining() == old(self).remaining(),
    {
        self.source_address = (self.source_address & 0x00FF) | (value as u16) << 8;
    }

    /// Writes the low byte of the source; its low 4 bits are ignored.
    pub fn set_source_low(&mut self, value: u8)
        ensures
            final(self).source() == (old(self).source() & 0xFF00) | ((value & 0xF0) as u16),
            final(self).dest() == old(self).dest(),
            final(self).mode() == old(self).mode(),
            final(self).remaining() == old(self).remaining(),
    {
        let value = value & 0xF0;
        self.source_address = (self.source_address & 0xFF00) | value as u16;
    }

    /// Writes the high byte of the destination; its upper 3 bits are ignored since the
    /// destination is always in VRAM.
    pub fn set_dest_high(&mut self, value: u8)
        ensures
            final(self).dest() == (old(self).dest() & 0x00FF) | (((value & 0b0001_1111) as u16) << 8u16),
            final(self).source() == old(self).source(),
            final(self).mode() == old(self).mode(),
            final(self).remaining() == old(self).remaining(),
    {
        let value = value & 0b0001_1111;
        self.dest_address = (self.dest_address & 0x00FF) | (value as u16) << 8;
    }

    /// Writes the low byte of the destination; its low 4 bits are ignored.
    pub fn set_dest_low(&mut self, value: u8)
        ensures
            final(self).dest() == (old(self).dest() & 0xFF00) | ((value & 0xF0) as u16),
            final(self).source() == old(self).source(),
            final(self).mode() == old(self).mode(),
            final(self).remaining() == old(self).remaining(),
    {
        let value = value & 0xF0;
        self.dest_address = (self.dest_address & 0xFF00) | value as u16;
    }

    /// Writes HDMA5. With no transfer running it starts one of `(value & 0x7F) + 1` blocks,
    /// per horizontal blank when bit 7 is set, else at once; during a horizontal blank
    /// transfer a write with bit 7 clear stops it. A general purpose transfer cannot be
    /// written to.
    pub fn set_mode_length(&mut self, value: u8)
        requires
            old(self).wf(),
            old(self).mode() != TransferMode::GeneralPurpose,
        ensures
            final(self).wf(),
            final(self).burst() == old(self).burst(),
            final(self).source() == old(self).source(),
            final(self).dest() == old(self).dest(),
            old(self).mode() == TransferMode::Terminated ==> {
                &&& final(self).mode() == if value & 0x80 == 0 {
                    TransferMode::GeneralPurpose
                } else {
                    TransferMode::Hblank
                }
                &&& final(self).remaining() == (value & 0x7F) + 1
                &&& final(self).last_ly() == old(self).last_ly()
            },
            old(self).mode() == TransferMode::Hblank && value & 0x80 == 0 ==> final(self).mode()
                == TransferMode::Terminated && final(self).last_ly() is None && final(self).remaining()
                == old(self).remaining(),
            old(self).mode() == TransferMode::Hblank && value & 0x80 != 0 ==> final(self).mode() == old(self).mode()
                && final(self).last_ly() == old(self).last_ly() && final(self).remaining() == old(self).remaining(),
    {
        match self.mode {
            TransferMode::Hblank => if value & BIT_7_MASK == 0 {
                self.mode = TransferMode::Terminated;
                self.last_ly = None;
            },
            TransferMode::Terminated => {
                self.mode = if (value & BIT_7_MASK) == 0 {
                    TransferMode::GeneralPurpose
                } else {
                    TransferMode::Hblank
                };
                let length = value & !BIT_7_MASK;
                assert(length == value & 0x7F && length < 0x80) by (bit_vector)
                    requires
                        length == value & !0x80u8,
                ;
                self.remaining_length = length + 1;
            },
            TransferMode::GeneralPurpose => {},
        }
    }

    /// Reads HDMA5: the blocks left minus one (0xFF when none are left).
    pub fn get_mode_length(&self) -> (r: u8)
        ensures
            r == hdma5_value(self.remaining()),
    {
        if self.remaining_length == 0 {
            0xFF
        } else {
            self.remaining_length - 1
        }
    }

    /// Copies one byte from the source to the destination in the current VRAM bank and
    /// moves both on.
    fn transfer_byte<M: Memory>(&mut self, bus: &mut M, vram: &mut VRam)
        requires
            old(vram).wf(),
            old(self).source() < 0xFFFF,
            old(self).dest() < 0x1FFF + 1,
        ensures
            final(vram).wf(),
            final(vram).current_bank == old(vram).current_bank,
            log_extends(old(bus).bus_log(), final(bus).bus_log()),
            ({
                let ops = new_ops(old(bus).bus_log(), final(bus).bus_log());
                &&& ops.len() == 1
                &&& is_copy_read(ops[0], old(self).source() as int)
                &&& final(vram).memory@ == old(vram).memory@.update(
                    vram_index(old(vram).current_bank, old(self).dest()),
                    crate::mmu::bus_value(ops[0]),
                )
            }),
            final(self).source() == old(self).source() + 1,
            final(self).dest() == old(self).dest() + 1,
            final(self).mode() == old(self).mode(),
            final(self).remaining() == old(self).remaining(),
            final(self).last_ly() == old(self).last_ly(),
            final(self).burst() == old(self).burst(),
    {
        let source_value = bus.read(self.source_address, 0);
        proof {
            lemma_log_push(old(bus).bus_log(), BusOp::Read { address: self.source_address, m_cycles: 0, value: source_value });
        }
        vram.write_current_bank(self.dest_address, source_value);
        self.source_address = self.source_address + 1;
        self.dest_address = self.dest_address + 1;
    }

    /// Copies two bytes (one m-cycle's worth), appending their reads to the copy so far.
    fn transfer_m_cycle<M: Memory>(
        &mut self,
        bus: &mut M,
        vram: &mut VRam,
        Ghost(log0): Ghost<Seq<BusOp>>,
        Ghost(source0): Ghost<u16>,
        Ghost(dest0): Ghost<u16>,
        Ghost(memory0): Ghost<Seq<u8>>,
    )
        requires
            old(vram).wf(),
            log_extends(log0, old(bus).bus_log()),
            old(self).source() + 2 <= 0xFFFF,
            old(self).dest() + 2 <= 0x2000,
            old(self).source() - source0 == old(self).dest() - dest0,
            old(self).source() >= source0,
            copy_reads(source0, new_ops(log0, old(bus).bus_log()), old(self).source() - source0),
            old(vram).memory@ == copied(memory0, old(vram).current_bank, dest0, new_ops(log0, old(bus).bus_log())),
        ensures
            final(vram).wf(),
            final(vram).current_bank == old(vram).current_bank,
            log_extends(log0, final(bus).bus_log()),
            copy_reads(source0, new_ops(log0, final(bus).bus_log()), final(self).source() - source0),
            final(vram).memory@ == copied(memory0, old(vram).current_bank, dest0, new_ops(log0, final(bus).bus_log())),
            final(self).source() == old(self).source() + 2,
            final(self).dest() == old(self).dest() + 2,
            final(self).mode() == old(self).mode(),
            final(self).remaining() == old(self).remaining(),
            final(self).last_ly() == old(self).last_ly(),
            final(self).burst() == old(self).burst(),
    {
        let ghost l1 = bus.bus_log();
        self.transfer_byte(bus, vram);
        let ghost l2 = bus.bus_log();
        self.transfer_byte(bus, vram);
        proof {
            let l3 = bus.bus_log();
            lemma_log_trans(log0, l1, l2);
            lemma_log_trans(log0, l2, l3);
            let a = new_ops(log0, l1);
            let b = new_ops(log0, l2);
            let c = new_ops(log0, l3);
            assert(b =~= a.push(new_ops(l1, l2)[0]));
            assert(c =~= b.push(new_ops(l2, l3)[0]));
            assert(b.drop_last() =~= a);
            assert(c.drop_last() =~= b);
            let bank = old(vram).current_bank;
            assert(b.len() == a.len() + 1 && c.len() == b.len() + 1);
            assert((dest0 + b.len() - 1) as u16 == old(self).dest());
            assert((dest0 + c.len() - 1) as u16 == old(self).dest() + 1);
            assert(copied(memory0, bank, dest0, b) == copied(memory0, bank, dest0, a).update(
                vram_index(bank, (dest0 + b.len() - 1) as u16),
                crate::mmu::bus_value(b.last()),
            ));
            assert(copied(memory0, bank, dest0, c) == copied(memory0, bank, dest0, b).update(
                vram_index(bank, (dest0 + c.len() - 1) as u16),
                crate::mmu::bus_value(c.last()),
            ));
            assert forall|i: int| 0 <= i < c.len() implies is_copy_read(#[trigger] c[i], source0 + i) by {
                if i < a.len() {
                    assert(c[i] == a[i]);
                } else if i == a.len() {
                    assert(c[i] == b[i]);
                }
            }
        }
    }

    /// Runs a general purpose transfer for `m_cycles` m-cycles (see `gp_run`).
    fn handle_general_purpose_transfer<G: GfxDevice, M: Memory>(&mut self, exteranl_memory_bus: &mut M, ppu: &mut GbPpu<G>, m_cycles: u32)
        requires
            old(self).mode() == TransferMode::GeneralPurpose,
            old(self).remaining() >= 1,
            old(ppu).vram.wf(),
            copy_fits(old(self).source(), old(self).dest(), 2 * gp_run(old(self).source() as int, old(self).remaining() as int, m_cycles as int).0),
        ensures
            gp_transfer_done(*old(self), *final(self), *old(ppu), *final(ppu), old(exteranl_memory_bus).bus_log(), final(exteranl_memory_bus).bus_log(), m_cycles as int),
    {
        let ghost log0 = exteranl_memory_bus.bus_log();
        let ghost source0 = self.source_address;
        let ghost dest0 = self.dest_address;
        let ghost memory0 = ppu.vram.memory@;
        let ghost run = gp_run(source0 as int, self.remaining_length as int, m_cycles as int);
        proof {
            lemma_log_refl(log0);
            assert(new_ops(log0, log0) =~= Seq::<BusOp>::empty());
        }
        let mut done: u32 = 0;
        let mut ended = false;
        while done < m_cycles && !ended
            invariant
                done <= m_cycles,
                ppu.vram.wf(),
                ppu.vram.current_bank == old(ppu).vram.current_bank,
                *ppu == (GbPpu { vram: VRam { memory: ppu.vram.memory, ..old(ppu).vram }, ..*old(ppu) }),
                log_extends(log0, exteranl_memory_bus.bus_log()),
                log0 == old(exteranl_memory_bus).bus_log(),
                memory0 == old(ppu).vram.memory@,
                source0 == old(self).source(),
                dest0 == old(self).dest(),
                run == gp_run(source0 as int, old(self).remaining() as int, m_cycles as int),
                copy_fits(source0, dest0, 2 * run.0),
                self.source() == source0 + 2 * done,
                self.dest() == dest0 + 2 * done,
                copy_reads(source0, new_ops(log0, exteranl_memory_bus.bus_log()), 2 * done),
                ppu.vram.memory@ == copied(memory0, ppu.vram.current_bank, dest0, new_ops(log0, exteranl_memory_bus.bus_log())),
                self.last_ly() == old(self).last_ly(),
                self.burst() == old(self).burst(),
                !ended ==> self.mode() == TransferMode::GeneralPurpose && self.remaining() >= 1 && ({
                    let rest = gp_run(self.source() as int, self.remaining() as int, m_cycles - done);
                    run == (rest.0 + done, rest.1, rest.2)
                }),
                ended ==> run == (done as int, 0int, true) && self.mode() == TransferMode::Terminated && self.remaining() == 0,
            decreases m_cycles - done,
        {
            let ghost before_source = self.source() as int;
            let ghost before_remaining = self.remaining() as int;
            assert(gp_run(before_source, before_remaining, m_cycles - done) == (if (before_source + 2) % 16 == 0
                && before_remaining - 1 == 0 {
                (1int, 0int, true)
            } else {
                let left = if (before_source + 2) % 16 == 0 { before_remaining - 1 } else { before_remaining };
                let rest = gp_run(before_source + 2, left, m_cycles - done - 1);
                (rest.0 + 1, rest.1, rest.2)
            }));
            proof {
                lemma_gp_run_bounds(before_source, before_remaining, m_cycles - done);
            }
            self.transfer_m_cycle(exteranl_memory_bus, &mut ppu.vram, Ghost(log0), Ghost(source0), Ghost(dest0), Ghost(memory0));
            proof {
                lemma_low_nibble(self.source_address);
            }
            if self.source_address & 0xF == 0 {
                // A block of 0x10 bytes is done.
                self.remaining_length = self.remaining_length - 1;
                if self.remaining_length == 0 {
                    self.mode = TransferMode::Terminated;
                    ended = true;
                }
            }
            done = done + 1;
        }
    }

    /// Runs a horizontal blank transfer: in a horizontal blank of a line that has not had
    /// its block yet, copies up to the end of the current block of 0x10 bytes.
    fn handle_hblank_transfer<G: GfxDevice, M: Memory>(&mut self, ppu: &mut GbPpu<G>, m_cycles: u32, exteranl_memory_bus: &mut M)
        requires
            old(self).mode() == TransferMode::Hblank,
            old(self).remaining() >= 1,
            old(self).burst() % 2 == 0,
            old(self).burst() < 16,
            old(ppu).vram.wf(),
            copy_fits(old(self).source(), old(self).dest(), 2 * hblank_cycles(old(self).burst() as int, m_cycles as int)),
        ensures
            hblank_transfer_done(*old(self), *final(self), *old(ppu), *final(ppu), old(exteranl_memory_bus).bus_log(), final(exteranl_memory_bus).bus_log(), m_cycles as int),
    {
        let ghost log0 = exteranl_memory_bus.bus_log();
        proof {
            lemma_log_refl(log0);
            assert(new_ops(log0, log0) =~= Seq::<BusOp>::empty());
        }
        let waiting = match self.last_ly {
            Some(v) => v == ppu.ly_register,
            None => false,
        };
        if waiting || ppu.state != PpuState::Hblank {
            return;
        }
        let ghost source0 = self.source_address;
        let ghost dest0 = self.dest_address;
        let ghost memory0 = ppu.vram.memory@;
        let ghost burst0 = self.hblank_transfer_burst_counter;
        let ghost n = hblank_cycles(burst0 as int, m_cycles as int);
        let mut done: u32 = 0;
        let mut finished = false;
        while done < m_cycles && !finished
            invariant
                done <= m_cycles,
                done <= n,
                n == hblank_cycles(burst0 as int, m_cycles as int),
                burst0 == old(self).burst(),
                burst0 % 2 == 0,
                burst0 < 16,
                old(self).remaining() >= 1,
                old(self).mode() == TransferMode::Hblank,
                !finished ==> self.burst() == burst0 + 2 * done && self.burst() < 16 && done < n + (if done == m_cycles { 1int } else { 0int })
                    && self.mode() == old(self).mode() && self.remaining() == old(self).remaining() && self.last_ly() == old(self).last_ly(),
                finished ==> done == n && burst0 + 2 * n == 16 && self.burst() == 0 && self.remaining() == old(self).remaining() - 1
                    && self.mode() == (if old(self).remaining() == 1 { TransferMode::Terminated } else { TransferMode::Hblank })
                    && self.last_ly() == (if old(self).remaining() == 1 { None } else { Some(old(ppu).ly_register) }),
                ppu.vram.wf(),
                ppu.vram.current_bank == old(ppu).vram.current_bank,
                *ppu == (GbPpu { vram: VRam { memory: ppu.vram.memory, ..old(ppu).vram }, ..*old(ppu) }),
                log_extends(log0, exteranl_memory_bus.bus_log()),
                log0 == old(exteranl_memory_bus).bus_log(),
                memory0 == old(ppu).vram.memory@,
                source0 == old(self).source(),
                dest0 == old(self).dest(),
                copy_fits(source0, dest0, 2 * n),
                self.source() == source0 + 2 * done,
                self.dest() == dest0 + 2 * done,
                copy_reads(source0, new_ops(log0, exteranl_memory_bus.bus_log()), 2 * done),
                ppu.vram.memory@ == copied(memory0, ppu.vram.current_bank, dest0, new_ops(log0, exteranl_memory_bus.bus_log())),
            decreases m_cycles - done,
        {
            self.transfer_m_cycle(exteranl_memory_bus, &mut ppu.vram, Ghost(log0), Ghost(source0), Ghost(dest0), Ghost(memory0));
            self.hblank_transfer_burst_counter = self.hblank_transfer_burst_counter + BYTES_TRASNFERED_PER_M_CYCLE;
            if self.hblank_transfer_burst_counter == HBLANK_TRANSFER_CHUNK_SIZE {
                // The block of this line is done.
                self.hblank_transfer_burst_counter = 0;
                self.last_ly = Some(ppu.ly_register);
                self.remaining_length = self.remaining_length - 1;
                if self.remaining_length == 0 {
                    self.mode = TransferMode::Terminated;
                    self.last_ly = None;
                }
                finished = true;
            }
            done = done + 1;
        }
    }

    /// Copies for `m_cycles` m-cycles of the running transfer, if any (see
    /// `gp_transfer_done` and `hblank_transfer_done`), reading the source through `exteranl_memory_bus`.
    pub fn cycle<G: GfxDevice, M: Memory>(&mut self, m_cycles: u32, exteranl_memory_bus: &mut M, ppu: &mut GbPpu<G>)
        requires
            old(self).wf(),
            old(ppu).vram.wf(),
            old(self).mode() == TransferMode::GeneralPurpose ==> copy_fits(
                old(self).source(),
                old(self).dest(),
                2 * gp_run(old(self).source() as int, old(self).remaining() as int, m_cycles as int).0,
            ),
            old(self).mode() == TransferMode::Hblank ==> copy_fits(
                old(self).source(),
                old(self).dest(),
                2 * hblank_cycles(old(self).burst() as int, m_cycles as int),
            ),
        ensures
            final(self).wf(),
            old(self).mode() == TransferMode::Terminated ==> *final(self) == *old(self) && *final(ppu) == *old(ppu)
                && final(exteranl_memory_bus).bus_log() == old(exteranl_memory_bus).bus_log(),
            old(self).mode() == TransferMode::GeneralPurpose ==> gp_transfer_done(
                *old(self),
                *final(self),
                *old(ppu),
                *final(ppu),
                old(exteranl_memory_bus).bus_log(),
                final(exteranl_memory_bus).bus_log(),
                m_cycles as int,
            ),
            old(self).mode() == TransferMode::Hblank ==> hblank_transfer_done(
                *old(self),
                *final(self),
                *old(ppu),
                *final(ppu),
                old(exteranl_memory_bus).bus_log(),
                final(exteranl_memory_bus).bus_log(),
                m_cycles as int,
            ),
    {
        proof {
            lemma_gp_run_bounds(self.source() as int, self.remaining() as int, m_cycles as int);
        }
        match self.mode {
            TransferMode::Hblank => self.handle_hblank_transfer(ppu, m_cycles, exteranl_memory_bus),
            TransferMode::GeneralPurpose => self.handle_general_purpose_transfer(exteranl_memory_bus, ppu, m_cycles),
            TransferMode::Terminated => {},
        }
    }

    /// A general purpose transfer stops the CPU until it ends.
    pub fn should_block_cpu(&self) -> (r: bool)
        ensures
            r == (self.mode() == TransferMode::GeneralPurpose),
    {
        match self.mode {
            TransferMode::Terminated | TransferMode::Hblank => false,
            TransferMode::GeneralPurpose => true,
        }
    }
}

/// Starting a transfer and reading HDMA5 gives back the length written (bits 0 to 6).
pub proof fn lemma_mode_length_read_back(value: u8)
    ensures
        hdma5_value(((value & 0x7F) + 1) as u8) == value & 0x7F,
{
    assert((value & 0x7F) < 0x80) by (bit_vector);
}

} // verus!
