use vstd::prelude::*;
use crate::cpu::gb_cpu::GbCpu;
use crate::debugger::disassembler::OpcodeEntry;
use crate::utils::fixed_size_set::FixedSizeSet;

verus! {

broadcast use vstd::laws_eq::group_laws_eq;

pub enum DebuggerCommand {
    Stop,
    Step,
    Continue,
    Registers,
    Break(u16),
    DeleteBreak(u16),
    DumpMemory(u8),
    Disassemble(u8),
    AddWatchPoint(u16),
    RemoveWatch(u16),
}

pub enum DebuggerResult {
    Registers(Registers),
    HitBreak(u16),
    AddedBreak(u16),
    RemovedBreak(u16),
    BreakDoNotExist(u16),
    Continuing,
    Stepped(u16),
    Stopped(u16),
    MemoryDump(u8, [MemoryEntry; 0xFF]),
    Disassembly(u8, [OpcodeEntry; 0xFF]),
    SetWatchPoint(u16),
    HitWatchPoint(u16, u16),
    RemovedWatch(u16),
    WatchDonotExist(u16),
}

/// The CPU registers as the debugger shows them.
#[derive(Clone, Copy)]
pub struct Registers {
    pub af: u16,
    pub bc: u16,
    pub de: u16,
    pub hl: u16,
    pub pc: u16,
    pub sp: u16,
}

#[derive(Clone, Copy)]
pub struct MemoryEntry {
    pub address: u16,
    pub value: u8,
}

impl Registers {
    pub fn new(cpu: &GbCpu) -> (r: Self)
        ensures
            r.af == cpu.af@,
            r.bc == cpu.bc@,
            r.de == cpu.de@,
            r.hl == cpu.hl@,
            r.pc == cpu.program_counter,
            r.sp == cpu.stack_pointer,
    {
        Registers {
            af: cpu.af.value(),
            bc: cpu.bc.value(),
            de: cpu.de.value(),
            hl: cpu.hl.value(),
            pc: cpu.program_counter,
            sp: cpu.stack_pointer,
        }
    }
}

pub enum DebuggerPush {
    Breakpoint(u16),
}

/// The user interface of the debugger, which its users provide.
pub trait DebuggerUi {
    fn should_stop(&self) -> bool;

    fn recv_command(&self) -> DebuggerCommand;

    fn send_result(&self, result: DebuggerResult);
}

/// Holds the breakpoints (at most 255 addresses) and talks to the user interface.
pub struct Debugger<UI: DebuggerUi> {
    ui: UI,
    breakpoints: FixedSizeSet<u16, 0xFF>,
}

impl<UI: DebuggerUi> Debugger<UI> {
    /// The addresses of the breakpoints, in the order they were added.
    pub closed spec fn breakpoints(&self) -> Seq<u16> {
        self.breakpoints@
    }

    pub closed spec fn wf(&self) -> bool {
        self.breakpoints.wf()
    }

    pub fn new(ui: UI) -> (r: Self)
        ensures
            r.wf(),
            r.breakpoints() == Seq::<u16>::empty(),
    {
        Self { ui, breakpoints: FixedSizeSet::<u16, 0xFF>::new() }
    }

    pub fn recv(&self) -> DebuggerCommand {
        self.ui.recv_command()
    }

    pub fn send(&self, result: DebuggerResult) {
        self.ui.send_result(result)
    }

    /// Stops at a breakpoint, at a watch hit, or when the user interface asks for it. The user
    /// interface is asked only when no breakpoint is at `pc`.
    pub fn should_halt(&self, pc: u16, hit_watch: bool) -> (r: bool)
        requires
            self.wf(),
        ensures
            self.breakpoints().contains(pc) || hit_watch ==> r,
            !r ==> !self.breakpoints().contains(pc) && !hit_watch,
    {
        if self.check_for_break(pc) {
            true
        } else {
            self.should_halt_with(pc, self.ui.should_stop(), hit_watch)
        }
    }

    /// Whether to stop, given whether the user interface asks for it (`ui_stop`).
    pub fn should_halt_with(&self, pc: u16, ui_stop: bool, hit_watch: bool) -> (r: bool)
        requires
            self.wf(),
        ensures
            r == (self.breakpoints().contains(pc) || ui_stop || hit_watch),
    {
        self.check_for_break(pc) || ui_stop || hit_watch
    }

    pub fn check_for_break(&self, pc: u16) -> (r: bool)
        requires
            self.wf(),
        ensures
            r == self.breakpoints().contains(pc),
    {
        let breakpoints = self.get_breakpoints();
        let mut i: usize = 0;
        while i < breakpoints.len()
            invariant
                breakpoints@ == self.breakpoints(),
                i <= breakpoints@.len(),
                forall|j: int| 0 <= j < i ==> breakpoints@[j] != pc,
            decreases breakpoints@.len() - i,
        {
            if breakpoints[i] == pc {
                return true;
            }
            i = i + 1;
        }
        false
    }

    /// Adds a breakpoint; there must be room unless it is there already.
    pub fn add_breakpoint(&mut self, address: u16)
        requires
            old(self).wf(),
            !old(self).breakpoints().contains(address) ==> old(self).breakpoints().len() < 0xFF,
        ensures
            final(self).wf(),
            old(self).breakpoints().contains(address) ==> final(self).breakpoints() == old(self).breakpoints(),
            !old(self).breakpoints().contains(address) ==> final(self).breakpoints() == old(self).breakpoints().push(
                address,
            ),
    {
        self.breakpoints.add(address)
    }

    /// Removes a breakpoint; tells whether there was one.
    pub fn try_remove_breakpoint(&mut self, address: u16) -> (r: bool)
        requires
            old(self).wf(),
        ensures
            final(self).wf(),
            r == old(self).breakpoints().contains(address),
            final(self).breakpoints() == old(self).breakpoints().remove_value(address),
    {
        self.breakpoints.try_remove(address)
    }

    fn get_breakpoints(&self) -> (r: &[u16])
        requires
            self.wf(),
        ensures
            r@ == self.breakpoints(),
    {
        self.breakpoints.as_slice()
    }
}

} // verus!
