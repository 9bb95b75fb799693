use lib::cpu::gb_cpu::GbCpu;
use lib::debugger::dbg_mmu::MemoryWatcher as DbgMemoryWatcher;
use lib::debugger::{Address, Debugger as BankedDebugger, DebuggerCommand as BankedCommand, DebuggerInterface, DebuggerResult as BankedResult, MemoryWatcher, Registers as BankedRegisters, WatchMode};
use lib::machine::debugger::{Debugger, DebuggerCommand, DebuggerResult, DebuggerUi, Registers};

struct Ui {
    stop: bool,
}

impl DebuggerUi for Ui {
    fn should_stop(&self) -> bool {
        self.stop
    }

    fn recv_command(&self) -> DebuggerCommand {
        DebuggerCommand::Continue
    }

    fn send_result(&self, _result: DebuggerResult) {}
}

impl DebuggerInterface for Ui {
    fn should_stop(&self) -> bool {
        self.stop
    }

    fn recv_command(&self) -> BankedCommand {
        BankedCommand::Continue
    }

    fn send_result(&self, _result: BankedResult) {}
}

#[test]
fn breakpoints_are_hit_until_removed() {
    let mut debugger = Debugger::new(Ui { stop: false });
    assert!(!debugger.should_halt(0x150, false));
    debugger.add_breakpoint(0x150);
    debugger.add_breakpoint(0x150);
    assert!(debugger.check_for_break(0x150));
    assert!(debugger.should_halt(0x150, false));
    assert!(!debugger.should_halt(0x151, false));
    assert!(debugger.should_halt(0x151, true));
    assert!(debugger.try_remove_breakpoint(0x150));
    assert!(!debugger.try_remove_breakpoint(0x150));
    assert!(!debugger.check_for_break(0x150));
}

#[test]
fn the_ui_can_stop_the_debugger() {
    let debugger = Debugger::new(Ui { stop: true });
    assert!(debugger.should_halt(0x100, false));
}

#[test]
fn registers_copy_the_cpu() {
    let mut cpu = GbCpu::default();
    cpu.bc.set_value(0x1234);
    cpu.program_counter = 0x150;
    cpu.stack_pointer = 0xFFFE;
    let r = Registers::new(&cpu);
    assert_eq!((r.bc, r.pc, r.sp), (0x1234, 0x150, 0xFFFE));
    cpu.mie = true;
    let r = BankedRegisters::new(&cpu);
    assert!(r.ime);
}

#[test]
fn banked_breakpoints_depend_on_the_bank() {
    let mut debugger = BankedDebugger::new(Ui { stop: false });
    debugger.add_breakpoint(Address::new(0x4000, 2));
    assert!(debugger.check_for_break(0x4000, 2));
    assert!(!debugger.check_for_break(0x4000, 3));
    let mut cpu = GbCpu::default();
    cpu.program_counter = 0x4000;
    assert!(debugger.should_halt(&cpu, 2, false));
    cpu.halt = true;
    debugger.skip_halt = true;
    assert!(!debugger.should_halt(&cpu, 2, false));
    assert!(debugger.try_remove_breakpoint(Address::new(0x4000, 2)));
    assert!(!debugger.try_remove_breakpoint(Address::new(0x4000, 2)));
}

#[test]
fn read_write_watch_matches_reads_and_writes() {
    assert!(WatchMode::ReadWrite == WatchMode::Read);
    assert!(WatchMode::Write == WatchMode::ReadWrite);
    assert!(WatchMode::Read == WatchMode::Read);
    assert!(WatchMode::Read != WatchMode::Write);
}

#[test]
fn memory_watcher_adds_and_removes() {
    let mut watcher = MemoryWatcher::new();
    watcher.add_address(Address::new(0xC000, 0), WatchMode::Write, Some(3));
    assert!(watcher.try_remove_address(Address::new(0xC000, 0)));
    assert!(!watcher.try_remove_address(Address::new(0xC000, 0)));

    let mut watcher = DbgMemoryWatcher::new();
    watcher.add_address(0xFF40);
    assert!(watcher.try_remove_address(0xFF40));
    assert!(!watcher.try_remove_address(0xFF40));
    assert!(watcher.hit_addr.is_none());
}

#[test]
fn the_halt_decision_combines_breakpoints_ui_and_watches() {
    let mut debugger = Debugger::new(Ui { stop: false });
    debugger.add_breakpoint(0x200);
    assert!(debugger.should_halt_with(0x200, false, false));
    assert!(debugger.should_halt_with(0x201, true, false));
    assert!(debugger.should_halt_with(0x201, false, true));
    assert!(!debugger.should_halt_with(0x201, false, false));
}
