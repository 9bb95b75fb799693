use vstd::prelude::*;
use crate::cpu::flag::{Flag, flag_mask};
use crate::cpu::register::Reg;
use crate::mmu::{Memory, BusOp, log_extends, new_ops, lemma_log_push, lemma_log_refl};
use crate::mmu::interrupts_handler::InterruptRequest;
use crate::utils::wrapping::{wrap16, wrapping_add16, wrapping_sub16};

verus! {

/// The CPU registers and state as plain values.
pub struct CpuState {
    pub af: u16,
    pub bc: u16,
    pub de: u16,
    pub hl: u16,
    pub af_mask: u16,
    pub bc_mask: u16,
    pub de_mask: u16,
    pub hl_mask: u16,
    pub sp: u16,
    pub pc: u16,
    pub mie: bool,
    pub halt: bool,
    pub stop: bool,
    pub cgb_mode: bool,
    pub double_speed: bool,
}

/// `v` with its high byte replaced by `b`, then masked.
pub open spec fn with_high(v: u16, mask: u16, b: u8) -> u16 {
    (((b as u16) << 8) | (v & 0x00FF)) & mask
}

/// `v` with its low byte replaced by `b`, then masked.
pub open spec fn with_low(v: u16, mask: u16, b: u8) -> u16 {
    ((v & 0xFF00) | b as u16) & mask
}

/// The F register bits for the four flags.
pub open spec fn flag_bits(z: bool, n: bool, h: bool, c: bool) -> u8 {
    (if z { 0x80u8 } else { 0u8 }) | (if n { 0x40u8 } else { 0u8 }) | (if h { 0x20u8 } else {
        0u8
    }) | (if c { 0x10u8 } else { 0u8 })
}

impl CpuState {
    pub open spec fn a(self) -> u8 {
        (self.af >> 8) as u8
    }

    pub open spec fn f(self) -> u8 {
        (self.af & 0xFF) as u8
    }

    pub open spec fn flag(self, flag: Flag) -> bool {
        self.f() & flag_mask(flag) != 0
    }

    pub open spec fn zero(self) -> bool {
        self.flag(Flag::Zero)
    }

    pub open spec fn carry(self) -> bool {
        self.flag(Flag::Carry)
    }

    /// The 8 bit register that `idx` selects in an opcode: B, C, D, E, H, L, -, A.
    pub open spec fn r8(self, idx: u8) -> u8 {
        if idx == 0 {
            (self.bc >> 8) as u8
        } else if idx == 1 {
            (self.bc & 0xFF) as u8
        } else if idx == 2 {
            (self.de >> 8) as u8
        } else if idx == 3 {
            (self.de & 0xFF) as u8
        } else if idx == 4 {
            (self.hl >> 8) as u8
        } else if idx == 5 {
            (self.hl & 0xFF) as u8
        } else {
            self.a()
        }
    }

    pub open spec fn with_r8(self, idx: u8, b: u8) -> CpuState {
        if idx == 0 {
            CpuState { bc: with_high(self.bc, self.bc_mask, b), ..self }
        } else if idx == 1 {
            CpuState { bc: with_low(self.bc, self.bc_mask, b), ..self }
        } else if idx == 2 {
            CpuState { de: with_high(self.de, self.de_mask, b), ..self }
        } else if idx == 3 {
            CpuState { de: with_low(self.de, self.de_mask, b), ..self }
        } else if idx == 4 {
            CpuState { hl: with_high(self.hl, self.hl_mask, b), ..self }
        } else if idx == 5 {
            CpuState { hl: with_low(self.hl, self.hl_mask, b), ..self }
        } else {
            CpuState { af: with_high(self.af, self.af_mask, b), ..self }
        }
    }

    pub open spec fn with_a(self, b: u8) -> CpuState {
        self.with_r8(7, b)
    }

    /// The 16 bit register that `idx` selects in an opcode: BC, DE, HL, SP.
    pub open spec fn r16(self, idx: u8) -> u16 {
        if idx == 0 {
            self.bc
        } else if idx == 1 {
            self.de
        } else if idx == 2 {
            self.hl
        } else {
            self.sp
        }
    }

    pub open spec fn with_r16(self, idx: u8, v: u16) -> CpuState {
        if idx == 0 {
            CpuState { bc: v & self.bc_mask, ..self }
        } else if idx == 1 {
            CpuState { de: v & self.de_mask, ..self }
        } else if idx == 2 {
            CpuState { hl: v & self.hl_mask, ..self }
        } else {
            CpuState { sp: v, ..self }
        }
    }

    /// The 16 bit register that `idx` selects in a push or pop opcode: BC, DE, HL, AF.
    pub open spec fn stack_r16(self, idx: u8) -> u16 {
        if idx == 3 {
            self.af
        } else {
            self.r16(idx)
        }
    }

    pub open spec fn with_stack_r16(self, idx: u8, v: u16) -> CpuState {
        if idx == 3 {
            CpuState { af: v & self.af_mask, ..self }
        } else {
            self.with_r16(idx, v)
        }
    }

    pub open spec fn with_hl(self, v: u16) -> CpuState {
        CpuState { hl: v & self.hl_mask, ..self }
    }

    pub open spec fn with_flags(self, z: bool, n: bool, h: bool, c: bool) -> CpuState {
        CpuState {
            af: with_low(self.af, self.af_mask, (self.f() & 0x0F) | flag_bits(z, n, h, c)),
            ..self
        }
    }

    pub open spec fn with_flag(self, flag: Flag, value: bool) -> CpuState {
        CpuState {
            af: with_low(
                self.af,
                self.af_mask,
                if value {
                    self.f() | flag_mask(flag)
                } else {
                    self.f() & !flag_mask(flag)
                },
            ),
            ..self
        }
    }

    pub open spec fn with_pc(self, pc: u16) -> CpuState {
        CpuState { pc, ..self }
    }

    pub open spec fn with_sp(self, sp: u16) -> CpuState {
        CpuState { sp, ..self }
    }
}

/// The bus accesses that push `value` on the stack whose pointer is `sp`: high byte first.
pub open spec fn push_ops(sp: u16, value: u16) -> Seq<BusOp> {
    seq![
        BusOp::Write { address: wrap16(sp - 1), value: (value >> 8) as u8, m_cycles: 1 },
        BusOp::Write { address: wrap16(sp - 2), value: (value & 0xFF) as u8, m_cycles: 1 },
    ]
}

/// The CPU: registers, stack pointer, program counter and control state.
pub struct GbCpu {
    pub af: Reg,
    pub bc: Reg,
    pub de: Reg,
    pub hl: Reg,
    pub stack_pointer: u16,
    pub program_counter: u16,
    pub mie: bool,
    pub halt: bool,
    pub stop: bool,
    pub cgb_mode: bool,
    pub double_speed: bool,
}

impl Default for GbCpu {
    fn default() -> (cpu: GbCpu)
        ensures
            cpu@ == (CpuState {
                af: 0,
                bc: 0,
                de: 0,
                hl: 0,
                af_mask: 0xFFF0,
                bc_mask: 0xFFFF,
                de_mask: 0xFFFF,
                hl_mask: 0xFFFF,
                sp: 0,
                pc: 0,
                mie: false,
                halt: false,
                stop: false,
                cgb_mode: false,
                double_speed: false,
            }),
    {
        GbCpu {
            af: Reg::new(0xFFF0),
            bc: Reg::default(),
            de: Reg::default(),
            hl: Reg::default(),
            stack_pointer: 0,
            program_counter: 0,
            mie: false,
            halt: false,
            stop: false,
            cgb_mode: false,
            double_speed: false,
        }
    }
}

impl GbCpu {
    pub open spec fn view(&self) -> CpuState {
        CpuState {
            af: self.af@,
            bc: self.bc@,
            de: self.de@,
            hl: self.hl@,
            af_mask: self.af.mask(),
            bc_mask: self.bc.mask(),
            de_mask: self.de.mask(),
            hl_mask: self.hl.mask(),
            sp: self.stack_pointer,
            pc: self.program_counter,
            mie: self.mie,
            halt: self.halt,
            stop: self.stop,
            cgb_mode: self.cgb_mode,
            double_speed: self.double_speed,
        }
    }

    /// Serves what the interrupt controller asks; returns the extra m-cycles it took.
    pub fn execute_interrupt_request<M: Memory>(
        &mut self,
        memory: &mut M,
        ir: InterruptRequest,
    ) -> (cycles: u8)
        ensures
            log_extends(old(memory).bus_log(), final(memory).bus_log()),
            match ir {
                InterruptRequest::Unhalt => {
                    &&& cycles == 0
                    &&& final(self)@ == (CpuState { halt: false, ..old(self)@ })
                    &&& new_ops(old(memory).bus_log(), final(memory).bus_log()) == seq![
                        BusOp::Halt(false),
                    ]
                },
                InterruptRequest::Interrupt(address) => {
                    &&& cycles == 3
                    &&& final(self)@ == (CpuState {
                        mie: false,
                        halt: false,
                        pc: address,
                        sp: wrap16(old(self)@.sp - 2),
                        ..old(self)@
                    })
                    &&& new_ops(old(memory).bus_log(), final(memory).bus_log()) == push_ops(
                        old(self)@.sp,
                        old(self)@.pc,
                    )
                },
                InterruptRequest::NoInterrupt => {
                    &&& cycles == 0
                    &&& final(self)@ == old(self)@
                    &&& final(memory).bus_log() == old(memory).bus_log()
                },
            },
    {
        match ir {
            InterruptRequest::Unhalt => {
                self.halt = false;
                memory.set_halt(false);
                proof {
                    lemma_log_push(old(memory).bus_log(), BusOp::Halt(false));
                }
            },
            InterruptRequest::Interrupt(address) => return self.prepare_for_interrupt(
                memory,
                address,
            ),
            InterruptRequest::NoInterrupt => {
                proof {
                    lemma_log_refl(memory.bus_log());
                }
            },
        }
        0
    }

    fn prepare_for_interrupt<M: Memory>(&mut self, memory: &mut M, address: u16) -> (cycles: u8)
        ensures
            cycles == 3,
            final(self)@ == (CpuState {
                mie: false,
                halt: false,
                pc: address,
                sp: wrap16(old(self)@.sp - 2),
                ..old(self)@
            }),
            log_extends(old(memory).bus_log(), final(memory).bus_log()),
            new_ops(old(memory).bus_log(), final(memory).bus_log()) == push_ops(
                old(self)@.sp,
                old(self)@.pc,
            ),
    {
        self.mie = false;
        let pc = self.program_counter;
        crate::cpu::opcodes::opcodes_utils::push(self, memory, pc);
        self.program_counter = address;
        self.halt = false;
        // 5 cycles - 2 pushing pc to memory, 3 internal operation
        3
    }

    pub fn set_flag(&mut self, flag: Flag)
        ensures
            final(self)@ == old(self)@.with_flag(flag, true),
    {
        let low = self.af.low();
        self.af.set_low(low | flag.mask());
    }

    pub fn unset_flag(&mut self, flag: Flag)
        ensures
            final(self)@ == old(self)@.with_flag(flag, false),
    {
        let low = self.af.low();
        self.af.set_low(low & !flag.mask());
    }

    pub fn set_by_value(&mut self, flag: Flag, value: bool)
        ensures
            final(self)@ == old(self)@.with_flag(flag, value),
    {
        if value {
            self.set_flag(flag);
        } else {
            self.unset_flag(flag);
        }
    }

    pub fn get_flag(&self, flag: Flag) -> (r: bool)
        ensures
            r == self@.flag(flag),
    {
        (self.af.low() & flag.mask()) != 0
    }

    /// Sets all four flags at once.
    pub fn set_flags(&mut self, z: bool, n: bool, h: bool, c: bool)
        ensures
            final(self)@ == old(self)@.with_flags(z, n, h, c),
    {
        let bits: u8 = (if z { 0x80u8 } else { 0u8 }) | (if n { 0x40u8 } else { 0u8 }) | (if h {
            0x20u8
        } else {
            0u8
        }) | (if c { 0x10u8 } else { 0u8 });
        let low = self.af.low();
        self.af.set_low((low & 0x0F) | bits);
    }

    pub fn inc_hl(&mut self)
        ensures
            final(self)@ == old(self)@.with_hl(wrap16(old(self)@.hl + 1)),
    {
        let v = wrapping_add16(self.hl.value(), 1);
        self.hl.set_value(v);
    }

    pub fn dec_hl(&mut self)
        ensures
            final(self)@ == old(self)@.with_hl(wrap16(old(self)@.hl - 1)),
    {
        let v = wrapping_sub16(self.hl.value(), 1);
        self.hl.set_value(v);
    }

    /// The 8 bit register that `idx` selects (B, C, D, E, H, L, -, A).
    pub fn get_r8(&self, idx: u8) -> (r: u8)
        requires
            idx < 8,
            idx != 6,
        ensures
            r == self@.r8(idx),
    {
        match idx {
            0 => self.bc.high(),
            1 => self.bc.low(),
            2 => self.de.high(),
            3 => self.de.low(),
            4 => self.hl.high(),
            5 => self.hl.low(),
            _ => self.af.high(),
        }
    }

    pub fn set_r8(&mut self, idx: u8, value: u8)
        requires
            idx < 8,
            idx != 6,
        ensures
            final(self)@ == old(self)@.with_r8(idx, value),
    {
        match idx {
            0 => self.bc.set_high(value),
            1 => self.bc.set_low(value),
            2 => self.de.set_high(value),
            3 => self.de.set_low(value),
            4 => self.hl.set_high(value),
            5 => self.hl.set_low(value),
            _ => self.af.set_high(value),
        }
    }

    /// The 16 bit register that `idx` selects (BC, DE, HL, SP).
    pub fn get_r16(&self, idx: u8) -> (r: u16)
        requires
            idx < 4,
        ensures
            r == self@.r16(idx),
    {
        match idx {
            0 => self.bc.value(),
            1 => self.de.value(),
            2 => self.hl.value(),
            _ => self.stack_pointer,
        }
    }

    pub fn set_r16(&mut self, idx: u8, value: u16)
        requires
            idx < 4,
        ensures
            final(self)@ == old(self)@.with_r16(idx, value),
    {
        match idx {
            0 => self.bc.set_value(value),
            1 => self.de.set_value(value),
            2 => self.hl.set_value(value),
            _ => self.stack_pointer = value,
        }
    }
}

/// AF after writing flag bit `m` of F.
spec fn flag_write(af: u16, m: u8, value: bool) -> u16 {
    with_low(af, 0xFFF0, if value { ((af & 0xFF) as u8) | m } else { ((af & 0xFF) as u8) & !m })
}

/// The bit facts behind the register laws: replacing a byte of a register and reading it
/// back, and setting a flag bit of F.
proof fn lemma_register_bits(v: u16, b: u8, af: u16, m: u8, o: u8, value: bool)
    by (bit_vector)
    ensures
        ((with_high(v, 0xFFFF, b) >> 8u16) as u8 == b) && ((with_high(v, 0xFFFF, b) & 0xFF) == v & 0xFF),
        ((with_low(v, 0xFFFF, b) & 0xFF) as u8 == b) && ((with_low(v, 0xFFFF, b) >> 8u16) == v >> 8u16),
        ((with_high(v, 0xFFF0, b) >> 8u16) as u8 == b),
        (af & 0xFFF0 == af && (m == 0x80 || m == 0x40 || m == 0x20 || m == 0x10) && (o == 0x80 || o == 0x40
            || o == 0x20 || o == 0x10)) ==> {
            &&& ((((flag_write(af, m, value) & 0xFF) as u8) & m) != 0) == value
            &&& o != m ==> ((((flag_write(af, m, value) & 0xFF) as u8) & o) != 0) == ((((af & 0xFF) as u8) & o)
                != 0)
            &&& (flag_write(af, m, value) >> 8u16) as u8 == (af >> 8u16) as u8
        },
{
}

/// Writing an 8 bit register and reading it gives the value written, and leaves the other
/// byte of the pair as it was (the A register included: only F has read-only bits).
pub proof fn lemma_r8_roundtrip(state: CpuState, idx: u8, b: u8)
    requires
        idx < 8,
        idx != 6,
        state.bc_mask == 0xFFFF,
        state.de_mask == 0xFFFF,
        state.hl_mask == 0xFFFF,
        state.af_mask == 0xFFF0,
    ensures
        state.with_r8(idx, b).r8(idx) == b,
{
    lemma_register_bits(state.bc, b, 0, 0x80, 0x80, false);
    lemma_register_bits(state.de, b, 0, 0x80, 0x80, false);
    lemma_register_bits(state.hl, b, 0, 0x80, 0x80, false);
    lemma_register_bits(state.af, b, 0, 0x80, 0x80, false);
}

/// Setting or clearing a flag and reading it gives the value written; the other flags and
/// the A register are left as they were.
pub proof fn lemma_flag_roundtrip(state: CpuState, flag: Flag, other: Flag, value: bool)
    requires
        state.af_mask == 0xFFF0,
        state.af & state.af_mask == state.af,
    ensures
        state.with_flag(flag, value).flag(flag) == value,
        other != flag ==> state.with_flag(flag, value).flag(other) == state.flag(other),
        state.with_flag(flag, value).a() == state.a(),
{
    let m = flag_mask(flag);
    let o = flag_mask(other);
    assert(m == 0x80 || m == 0x40 || m == 0x20 || m == 0x10);
    assert(o == 0x80 || o == 0x40 || o == 0x20 || o == 0x10);
    assert(other != flag ==> o != m);
    lemma_register_bits(0, 0, state.af, m, o, value);
    assert(state.with_flag(flag, value).af == flag_write(state.af, m, value));
}

/// `set_by_value` followed by `get_flag` on the same flag gives back the value written, and
/// leaves the other flags and the A register as they were, for every CPU whose F register has
/// its low nibble read-only (as `GbCpu::default` makes it).
pub proof fn lemma_set_by_value_reads_back(cpu: GbCpu, flag: Flag, other: Flag, value: bool)
    requires
        cpu.af.mask() == 0xFFF0,
    ensures
        cpu@.with_flag(flag, value).flag(flag) == value,
        other != flag ==> cpu@.with_flag(flag, value).flag(other) == cpu@.flag(other),
        cpu@.with_flag(flag, value).a() == cpu@.a(),
{
    cpu.af.lemma_view_masked();
    lemma_flag_roundtrip(cpu@, flag, other, value);
}

} // verus!
