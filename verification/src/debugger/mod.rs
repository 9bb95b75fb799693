pub mod disassembler;
pub mod dbg_mmu;

use vstd::prelude::*;
use std::collections::{HashMap, HashSet};
use crate::cpu::gb_cpu::GbCpu;
use crate::ppu::gb_ppu::GbPpu;
use crate::ppu::gfx_device::{GfxDevice, Pixel};
use crate::ppu::ppu_state::PpuState;
use crate::utils::vec2::Vec2;
use self::disassembler::OpcodeEntry;

verus! {

broadcast use vstd::std_specs::hash::group_hash_axioms;

#[derive(Clone, Copy, PartialEq, Eq, Structural, Debug)]
pub enum PpuLayer {
    Background,
    Window,
    Sprites,
}

/// An address in a given memory bank.
#[derive(Clone, Copy, PartialEq, Eq, Structural, Hash, Debug)]
pub struct Address {
    pub mem_addr: u16,
    pub bank: u16,
}

impl Address {
    pub fn new(mem_addr: u16, bank: u16) -> (r: Self)
        ensures
            r == (Address { mem_addr, bank }),
    {
        Self { mem_addr, bank }
    }
}

/// The number an address is kept under: the bank in the high half, the address in the low.
pub open spec fn address_key(address: Address) -> u32 {
    (address.bank as int * 0x10000 + address.mem_addr as int) as u32
}

fn key_of(address: Address) -> (r: u32)
    ensures
        r == address_key(address),
{
    let bank = address.bank as u32;
    let mem_addr = address.mem_addr as u32;
    let r = (bank << 16) | mem_addr;
    assert(r == bank * 0x10000 + mem_addr) by (bit_vector)
        requires
            bank < 0x10000,
            mem_addr < 0x10000,
            r == (bank << 16) | mem_addr,
    ;
    r
}

/// Two addresses have the same key only if they are the same address.
pub proof fn lemma_address_key_injective(a: Address, b: Address)
    ensures
        address_key(a) == address_key(b) ==> a == b,
{
}

/// What accesses a watch point reports.
#[derive(Clone, Copy, Debug)]
pub enum WatchMode {
    Read,
    Write,
    ReadWrite,
}

/// Two watch modes match when they are the same or either of them is `ReadWrite`.
pub open spec fn watch_modes_match(a: WatchMode, b: WatchMode) -> bool {
    ||| (a is Read && b is Read)
    ||| (a is Write && b is Write)
    ||| a is ReadWrite
    ||| b is ReadWrite
}

impl PartialEq for WatchMode {
    fn eq(&self, other: &Self) -> (r: bool) {
        match (self, other) {
            (WatchMode::ReadWrite, _) => true,
            (_, WatchMode::ReadWrite) => true,
            (WatchMode::Read, WatchMode::Read) => true,
            (WatchMode::Write, WatchMode::Write) => true,
            _ => false,
        }
    }
}

impl vstd::std_specs::cmp::PartialEqSpecImpl for WatchMode {
    open spec fn obeys_eq_spec() -> bool {
        true
    }

    open spec fn eq_spec(&self, other: &Self) -> bool {
        watch_modes_match(*self, *other)
    }
}

pub enum DebuggerCommand {
    Stop,
    Step,
    Continue,
    SkipHalt,
    Registers,
    Break(Address),
    RemoveBreak(Address),
    DumpMemory(u16, u16),
    Disassemble(u16),
    Watch(Address, WatchMode, Option<u8>),
    RemoveWatch(Address),
    PpuInfo,
    GetPpuLayer(PpuLayer),
}

pub const PPU_BUFFER_WIDTH: usize = 0x100;

pub const PPU_BUFFER_HEIGHT: usize = 0x100;

pub const PPU_BUFFER_SIZE: usize = PPU_BUFFER_HEIGHT * PPU_BUFFER_WIDTH;

pub enum DebuggerResult {
    Registers(Registers),
    AddedBreak(Address),
    HitBreak(u16, u16),
    RemovedBreak(Address),
    BreakDoNotExist(Address),
    Continuing,
    HaltWakeup,
    Stepped(u16, u16),
    Stopped(u16, u16),
    MemoryDump(u16, u16, Vec<u8>),
    Disassembly(u16, u16, Vec<OpcodeEntry>),
    AddedWatch(Address),
    HitWatch(u16, u16, u16, u16, u8),
    RemovedWatch(Address),
    WatchDoNotExist(Address),
    PpuInfo(PpuInfo),
    PpuLayer(PpuLayer, Box<[Pixel; PPU_BUFFER_SIZE]>),
}

/// The CPU registers as the debugger shows them.
#[derive(Clone, Copy)]
pub struct Registers {
    pub af: u16,
    pub bc: u16,
    pub de: u16,
    pub hl: u16,
    pub pc: u16,
    pub sp: u16,
    pub ime: bool,
}

impl Registers {
    pub fn new(cpu: &GbCpu) -> (r: Self)
        ensures
            r.af == cpu.af@,
            r.bc == cpu.bc@,
            r.de == cpu.de@,
            r.hl == cpu.hl@,
            r.pc == cpu.program_counter,
            r.sp == cpu.stack_pointer,
            r.ime == cpu.mie,
    {
        Registers {
            af: cpu.af.value(),
            bc: cpu.bc.value(),
            de: cpu.de.value(),
            hl: cpu.hl.value(),
            pc: cpu.program_counter,
            sp: cpu.stack_pointer,
            ime: cpu.mie,
        }
    }
}

/// The PPU registers as the debugger shows them.
pub struct PpuInfo {
    pub ppu_state: PpuState,
    pub lcdc: u8,
    pub stat: u8,
    pub ly: u8,
    pub window_pos: Vec2<u8>,
    pub background_pos: Vec2<u8>,
    pub vram_bank: u8,
}

impl PpuInfo {
    pub fn new<GFX: GfxDevice>(ppu: &GbPpu<GFX>) -> (r: Self)
        ensures
            r.ppu_state == ppu.state,
            r.lcdc == ppu.lcd_control,
            r.stat == ppu.stat_register,
            r.ly == ppu.ly_register,
            r.window_pos == ppu.window_pos,
            r.background_pos == ppu.bg_pos,
            r.vram_bank == ppu.vram.current_bank,
    {
        Self {
            ppu_state: ppu.state,
            lcdc: ppu.lcd_control,
            stat: ppu.stat_register,
            ly: ppu.ly_register,
            window_pos: ppu.window_pos,
            background_pos: ppu.bg_pos,
            vram_bank: ppu.vram.get_bank_reg(),
        }
    }
}

/// The user interface of the debugger, which its users provide.
pub trait DebuggerInterface {
    fn should_stop(&self) -> bool;

    fn recv_command(&self) -> DebuggerCommand;

    fn send_result(&self, result: DebuggerResult);
}

/// Holds the breakpoints, banked addresses kept by their keys, and talks to the user
/// interface.
pub struct Debugger<UI: DebuggerInterface> {
    pub ui: UI,
    pub breakpoints: HashSet<u32>,
    pub skip_halt: bool,
}

impl<UI: DebuggerInterface> Debugger<UI> {
    pub fn new(ui: UI) -> (r: Self)
        ensures
            r.breakpoints@ == Set::<u32>::empty(),
            !r.skip_halt,
    {
        Self { ui, breakpoints: HashSet::new(), skip_halt: false }
    }

    pub fn recv(&self) -> DebuggerCommand {
        self.ui.recv_command()
    }

    pub fn send(&self, result: DebuggerResult) {
        self.ui.send_result(result)
    }

    /// Stops at a breakpoint, at a watch hit or when the user interface asks for it, but not
    /// while the CPU is halted and halts are being skipped.
    pub fn should_halt(&self, cpu: &GbCpu, bank: u16, hit_watch: bool) -> (r: bool)
        ensures
            cpu.halt && self.skip_halt ==> !r,
            !(cpu.halt && self.skip_halt) && (self.breakpoints@.contains(
                address_key(Address { mem_addr: cpu.program_counter, bank }),
            ) || hit_watch) ==> r,
            r ==> !(cpu.halt && self.skip_halt),
    {
        (self.check_for_break(cpu.program_counter, bank) || self.ui.should_stop() || hit_watch) && !(cpu.halt
            && self.skip_halt)
    }

    pub fn check_for_break(&self, pc: u16, bank: u16) -> (r: bool)
        ensures
            r == self.breakpoints@.contains(address_key(Address { mem_addr: pc, bank })),
    {
        let key = key_of(Address::new(pc, bank));
        self.breakpoints.contains(&key)
    }

    pub fn add_breakpoint(&mut self, address: Address)
        ensures
            final(self).breakpoints@ == old(self).breakpoints@.insert(address_key(address)),
            final(self).skip_halt == old(self).skip_halt,
    {
        let key = key_of(address);
        let _ = self.breakpoints.insert(key);
    }

    /// Removes a breakpoint; tells whether there was one.
    pub fn try_remove_breakpoint(&mut self, address: Address) -> (r: bool)
        ensures
            r == old(self).breakpoints@.contains(address_key(address)),
            final(self).breakpoints@ == old(self).breakpoints@.remove(address_key(address)),
            final(self).skip_halt == old(self).skip_halt,
    {
        let key = key_of(address);
        self.breakpoints.remove(&key)
    }
}

/// The watched addresses, kept by their keys, with the accesses they report and the value
/// they wait for; and the last hit.
pub struct MemoryWatcher {
    pub watching_addresses: HashMap<u32, (WatchMode, Option<u8>)>,
    pub hit_addr: Option<(u16, u16, u8)>,
    pub current_rom_bank_number: u16,
    pub current_ram_bank_number: u8,
}

impl MemoryWatcher {
    pub fn new() -> (r: Self)
        ensures
            r.watching_addresses@ == Map::<u32, (WatchMode, Option<u8>)>::empty(),
            r.hit_addr is None,
            r.current_rom_bank_number == 0,
            r.current_ram_bank_number == 0,
    {
        Self { watching_addresses: HashMap::new(), hit_addr: None, current_rom_bank_number: 0, current_ram_bank_number: 0 }
    }

    /// Watches an address, replacing an earlier watch on it.
    pub fn add_address(&mut self, address: Address, mode: WatchMode, value: Option<u8>)
        ensures
            final(self).watching_addresses@ == old(self).watching_addresses@.insert(address_key(address), (mode, value)),
            final(self).hit_addr == old(self).hit_addr,
    {
        let key = key_of(address);
        let _ = self.watching_addresses.insert(key, (mode, value));
    }

    /// Stops watching an address; tells whether it was watched.
    pub fn try_remove_address(&mut self, address: Address) -> (r: bool)
        ensures
            r == old(self).watching_addresses@.contains_key(address_key(address)),
            final(self).watching_addresses@ == old(self).watching_addresses@.remove(address_key(address)),
            final(self).hit_addr == old(self).hit_addr,
    {
        let key = key_of(address);
        self.watching_addresses.remove(&key).is_some()
    }
}

/// `ReadWrite` matches every mode, every mode matches itself, matching is symmetric, and
/// `Read` and `Write` do not match each other.
pub proof fn lemma_watch_modes(a: WatchMode, b: WatchMode)
    ensures
        watch_modes_match(WatchMode::ReadWrite, a),
        watch_modes_match(a, a),
        watch_modes_match(a, b) == watch_modes_match(b, a),
        !watch_modes_match(WatchMode::Read, WatchMode::Write),
{
}

/// A breakpoint that was added is hit, and one that was removed is not.
pub proof fn lemma_breakpoint_add_remove(breakpoints: Set<u32>, address: Address)
    ensures
        breakpoints.insert(address_key(address)).contains(address_key(address)),
        !breakpoints.remove(address_key(address)).contains(address_key(address)),
{
}

} // verus!
