use vstd::prelude::*;
use crate::isa::{
    decode, spec_adc, spec_and, spec_apply, spec_asl_acc, spec_asl_mem, spec_bit, spec_branch,
    spec_branch_target, spec_brk, spec_compare, spec_dec_mem, spec_dex, spec_dey, spec_eor,
    spec_flag_op, spec_inc_mem, spec_interrupt, spec_inx, spec_iny, spec_ind_high_addr, spec_jmp,
    spec_jsr, spec_lda, spec_ldx, spec_ldy, spec_lsr_acc, spec_lsr_mem, spec_ora, spec_pha,
    spec_php, spec_pla, spec_plp, spec_resolve, spec_rol_acc, spec_rol_mem, spec_ror_acc,
    spec_ror_mem, spec_rti, spec_rts, spec_sbc, spec_shift_p, spec_shl_val, spec_shr_val,
    spec_sta, spec_step, spec_stx, spec_sty, spec_tax, spec_tay, spec_tsx, spec_txa, spec_txs,
    spec_tya, spec_w16, Mode, Op, StepResult,
};
use crate::memory::{
    spec_bus_read, spec_bus_read_word, spec_bus_write, spec_mem_wf, MemView, NesMemory,
};

verus! {

/// (C) carry, bit 0.
pub const CARRY_BIT: u8 = 0x01;

/// (Z) zero, bit 1.
pub const ZERO_FLAG: u8 = 0x02;

/// (I) interrupt disable, bit 2.
pub const INTERRUPT_FLAG: u8 = 0x04;

/// (D) decimal, bit 3; latched but without arithmetic effect on this variant.
pub const DECIMAL_FLAG: u8 = 0x08;

/// (B) break, bit 4; only ever appears on pushed copies of the status.
pub const BREAK_FLAG: u8 = 0x10;

/// (U) unused, bit 5; reads as one on pulled values.
pub const UNUSED_FLAG: u8 = 0x20;

/// (V) overflow, bit 6.
pub const OVERFLOW_FLAG: u8 = 0x40;

/// (N) negative, bit 7.
pub const NEGATIVE_FLAG: u8 = 0x80;

/// NMI vector address.
pub const NMI_ADDR: u16 = 0xfffa;

/// Reset vector address.
pub const RESET_ADDR: u16 = 0xfffc;

/// IRQ and BRK vector address.
pub const BRK_ADDR: u16 = 0xfffe;

/// A fault the interpreter surfaces to the host.
#[derive(Debug, PartialEq, Eq, Structural, Clone, Copy)]
pub enum CpuError {
    /// The fetched byte is not a documented opcode; carries the byte and the
    /// address it was fetched from. The program counter stays on the byte.
    BadOpcode(u8, u16),
}

/// Whether `mask`'s bit is set in the status byte `p`.
pub open spec fn spec_get_flag(p: u8, mask: u8) -> bool {
    p & mask != 0
}

/// The status byte with `mask`'s bit forced to `on`.
pub open spec fn spec_set_flag(p: u8, mask: u8, on: bool) -> u8 {
    if on {
        p | mask
    } else {
        p & !mask
    }
}

/// The status byte after an instruction produced the 8-bit result `v`:
/// Z holds exactly when `v` is zero, N holds exactly when bit 7 of `v` is
/// set, every other flag keeps its value.
pub open spec fn spec_with_zn(p: u8, v: u8) -> u8 {
    spec_set_flag(spec_set_flag(p, ZERO_FLAG, v == 0), NEGATIVE_FLAG, v & 0x80 != 0)
}

/// The status byte as PHP and BRK push it: B and U forced on.
pub open spec fn spec_push_p(p: u8) -> u8 {
    p | 0x30
}

/// The status byte as a hardware interrupt pushes it: B clear, U set.
pub open spec fn spec_push_p_irq(p: u8) -> u8 {
    (p | 0x20) & 0xef
}

/// The status byte as PLP and RTI restore it from a pulled value: B cleared,
/// U set, the rest taken from the pulled byte.
pub open spec fn spec_restore_p(v: u8) -> u8 {
    (v | 0x20) & 0xef
}

/// The CPU registers of the 6502.
#[derive(Default, Debug)]
pub struct Registers {
    /// (A) accumulator
    pub accumulator: u8,
    /// (X) index register
    pub x: u8,
    /// (Y) index register
    pub y: u8,
    /// (S) stack pointer: low byte of the top of the page-1 stack
    pub stack_pointer: u8,
    /// (PC) program counter
    pub program_counter: u16,
    /// (P) processor status, one flag per bit
    pub processor_status: u8,
}

/// Which index register an addressing mode offsets by.
#[derive(Debug, Clone, Copy)]
pub(crate) enum Index {
    X,
    Y,
}

impl Registers {
    pub(crate) fn register_from_index(&self, index: Index) -> (r: u8)
        ensures
            r == (match index {
                Index::X => self.x,
                Index::Y => self.y,
            }),
    {
        match index {
            Index::X => self.x,
            Index::Y => self.y,
        }
    }

    /// Whether the given flag bit is set.
    pub fn get_flag(&self, flag: u8) -> (r: bool)
        ensures
            r == spec_get_flag(self.processor_status, flag),
    {
        (self.processor_status & flag) != 0
    }

    pub(crate) fn set_flag(&mut self, flag: u8, value: bool)
        ensures
            final(self).processor_status == spec_set_flag(old(self).processor_status, flag, value),
            final(self).accumulator == old(self).accumulator,
            final(self).x == old(self).x,
            final(self).y == old(self).y,
            final(self).stack_pointer == old(self).stack_pointer,
            final(self).program_counter == old(self).program_counter,
    {
        if value {
            self.processor_status = self.processor_status | flag;
        } else {
            self.processor_status = self.processor_status & !flag;
        }
    }

    /// Installs a pulled status byte, with the B/U mask PLP and RTI apply.
    pub(crate) fn set_flags(&mut self, value: u8)
        ensures
            final(self).processor_status == spec_restore_p(value),
            final(self).accumulator == old(self).accumulator,
            final(self).x == old(self).x,
            final(self).y == old(self).y,
            final(self).stack_pointer == old(self).stack_pointer,
            final(self).program_counter == old(self).program_counter,
    {
        self.processor_status = (value | 0x20) & 0xef;
    }

    /// Sets Z and N from an 8-bit result.
    pub(crate) fn set_zn(&mut self, value: u8)
        ensures
            final(self).processor_status == spec_with_zn(old(self).processor_status, value),
            final(self).accumulator == old(self).accumulator,
            final(self).x == old(self).x,
            final(self).y == old(self).y,
            final(self).stack_pointer == old(self).stack_pointer,
            final(self).program_counter == old(self).program_counter,
    {
        self.set_flag(ZERO_FLAG, value == 0);
        self.set_flag(NEGATIVE_FLAG, (value & 0x80) != 0);
    }
}

/// Abstract CPU state: the registers, the pending-interrupt lines, and the
/// bus behind them.
#[verifier::ext_equal]
pub ghost struct CpuView {
    pub a: u8,
    pub x: u8,
    pub y: u8,
    pub s: u8,
    pub pc: u16,
    pub p: u8,
    pub nmi_pending: bool,
    pub irq_line: bool,
    pub mem: MemView,
}

/// Structural soundness of a CPU state: its bus is well formed.
pub open spec fn spec_cpu_wf(s: CpuView) -> bool {
    spec_mem_wf(s.mem)
}

/// An 8-bit increment with wraparound.
pub open spec fn spec_inc8(v: u8) -> u8 {
    ((v + 1) % 0x100) as u8
}

/// An 8-bit decrement with wraparound.
pub open spec fn spec_dec8(v: u8) -> u8 {
    ((v + 0xff) % 0x100) as u8
}

/// A 16-bit sum with wraparound.
pub open spec fn spec_wrap_add16(a: u16, b: u16) -> u16 {
    ((a + b) % 0x10000) as u16
}

/// The page-1 address the stack pointer designates.
pub open spec fn spec_stack_addr(s: u8) -> u16 {
    0x0100 | (s as u16)
}

/// A push: the value lands at the stack address, then S decrements.
pub open spec fn spec_cpu_push(s: CpuView, v: u8) -> CpuView {
    CpuView { mem: spec_bus_write(s.mem, spec_stack_addr(s.s), v), s: spec_dec8(s.s), ..s }
}

/// A 16-bit push: high byte first, then low, so the low byte sits on top.
pub open spec fn spec_cpu_push_word(s: CpuView, v: u16) -> CpuView {
    spec_cpu_push(spec_cpu_push(s, (v / 0x100) as u8), (v % 0x100) as u8)
}

/// The byte a pull returns: S increments first, then the cell is read.
pub open spec fn spec_cpu_pull_val(s: CpuView) -> u8 {
    spec_bus_read(s.mem, spec_stack_addr(spec_inc8(s.s)))
}

/// The state a pull leaves: only S has moved.
pub open spec fn spec_cpu_pull(s: CpuView) -> CpuView {
    CpuView { s: spec_inc8(s.s), ..s }
}

/// The word two pulls return, low byte first.
pub open spec fn spec_cpu_pull_word_val(s: CpuView) -> u16 {
    (spec_cpu_pull_val(s) + spec_cpu_pull_val(spec_cpu_pull(s)) * 0x100) as u16
}

/// The 6502 interpreter: registers, interrupt lines, and the memory bus it
/// owns.
#[derive(Debug)]
pub struct Cpu {
    pub registers: Registers,
    pub memory: NesMemory,
    /// Edge flag an external collaborator raises to request an NMI.
    pub nmi_pending: bool,
    /// Level flag for the maskable interrupt request line.
    pub irq_line: bool,
}

impl View for Cpu {
    type V = CpuView;

    open spec fn view(&self) -> CpuView {
        CpuView {
            a: self.registers.accumulator,
            x: self.registers.x,
            y: self.registers.y,
            s: self.registers.stack_pointer,
            pc: self.registers.program_counter,
            p: self.registers.processor_status,
            nmi_pending: self.nmi_pending,
            irq_line: self.irq_line,
            mem: self.memory@,
        }
    }
}

impl Cpu {
    /// A CPU over a cartridge-less bus, every register zero.
    pub fn new() -> (r: Cpu)
        ensures
            spec_cpu_wf(r@),
            r@.a == 0 && r@.x == 0 && r@.y == 0 && r@.s == 0 && r@.pc == 0 && r@.p == 0,
            !r@.nmi_pending && !r@.irq_line,
            forall|i: int| 0 <= i < 2048 ==> r@.mem.ram[i] == 0u8,
            forall|addr: u16| spec_bus_read(r@.mem, addr) == 0u8,
    {
        let cpu = Cpu {
            registers: Registers {
                accumulator: 0,
                x: 0,
                y: 0,
                stack_pointer: 0,
                program_counter: 0,
                processor_status: 0,
            },
            memory: NesMemory::new(),
            nmi_pending: false,
            irq_line: false,
        };
        proof {
            assert forall|addr: u16| spec_bus_read(cpu@.mem, addr) == 0u8 by {
                assert(addr & 0x07ff < 2048) by (bit_vector);
            }
        }
        cpu
    }

    /// A CPU over the given bus, every register zero.
    pub fn with_memory(memory: NesMemory) -> (r: Cpu)
        requires
            spec_mem_wf(memory@),
        ensures
            spec_cpu_wf(r@),
            r@.a == 0 && r@.x == 0 && r@.y == 0 && r@.s == 0 && r@.pc == 0 && r@.p == 0,
            !r@.nmi_pending && !r@.irq_line,
            r@.mem == memory@,
    {
        Cpu {
            registers: Registers {
                accumulator: 0,
                x: 0,
                y: 0,
                stack_pointer: 0,
                program_counter: 0,
                processor_status: 0,
            },
            memory,
            nmi_pending: false,
            irq_line: false,
        }
    }

    /// Reads a byte through the bus and sets Z and N from it.
    pub fn load(&mut self, address: u16) -> (r: u8)
        requires
            spec_cpu_wf(old(self)@),
        ensures
            spec_cpu_wf(final(self)@),
            r == spec_bus_read(old(self)@.mem, address),
            final(self)@ == (CpuView { p: spec_with_zn(old(self)@.p, r), ..old(self)@ }),
    {
        let result = self.memory.fetch(address);
        self.registers.set_zn(result);
        result
    }

    /// Reads two bytes little-endian through the bus.
    pub(crate) fn load_word(&self, address: u16) -> (r: u16)
        requires
            spec_cpu_wf(self@),
        ensures
            r == (spec_bus_read(self@.mem, address) + spec_bus_read(
                self@.mem,
                spec_wrap_add16(address, 1),
            ) * 0x100) as u16,
    {
        let low = self.memory.fetch(address) as u16;
        let high = self.memory.fetch(wrap_add16(address, 1)) as u16;
        low + high * 0x100
    }

    /// Writes a byte through the bus; registers keep their values.
    pub(crate) fn store(&mut self, address: u16, value: u8)
        requires
            spec_cpu_wf(old(self)@),
        ensures
            spec_cpu_wf(final(self)@),
            final(self)@ == (CpuView {
                mem: spec_bus_write(old(self)@.mem, address, value),
                ..old(self)@
            }),
    {
        self.memory.store(address, value);
    }

    /// Pushes a byte: writes it at $0100|S, then decrements S with wrap.
    pub fn push(&mut self, value: u8)
        requires
            spec_cpu_wf(old(self)@),
        ensures
            spec_cpu_wf(final(self)@),
            final(self)@ == spec_cpu_push(old(self)@, value),
    {
        let sp = self.registers.stack_pointer;
        self.memory.store(0x0100 | (sp as u16), value);
        self.registers.stack_pointer = dec8(sp);
    }

    /// Pushes a word, high byte first.
    pub fn push_word(&mut self, value: u16)
        requires
            spec_cpu_wf(old(self)@),
        ensures
            spec_cpu_wf(final(self)@),
            final(self)@ == spec_cpu_push_word(old(self)@, value),
    {
        self.push((value / 0x100) as u8);
        self.push((value % 0x100) as u8);
    }

    /// Pulls a byte: increments S with wrap, then reads $0100|S.
    pub fn pull(&mut self) -> (r: u8)
        requires
            spec_cpu_wf(old(self)@),
        ensures
            spec_cpu_wf(final(self)@),
            r == spec_cpu_pull_val(old(self)@),
            final(self)@ == spec_cpu_pull(old(self)@),
    {
        let sp = inc8(self.registers.stack_pointer);
        self.registers.stack_pointer = sp;
        self.memory.fetch(0x0100 | (sp as u16))
    }

    /// Pulls a word, low byte first.
    pub fn pull_word(&mut self) -> (r: u16)
        requires
            spec_cpu_wf(old(self)@),
        ensures
            spec_cpu_wf(final(self)@),
            r == spec_cpu_pull_word_val(old(self)@),
            final(self)@ == spec_cpu_pull(spec_cpu_pull(old(self)@)),
    {
        let low = self.pull() as u16;
        let high = self.pull() as u16;
        low + high * 0x100
    }

    /// The reset sequence: A, X and Y cleared, S forced to $FD, P forced to
    /// $24 (I and U set), PC loaded from the reset vector, both interrupt
    /// lines lowered. Memory is untouched. Costs 7 cycles.
    pub fn reset(&mut self)
        requires
            spec_cpu_wf(old(self)@),
        ensures
            spec_cpu_wf(final(self)@),
            final(self)@ == (CpuView {
                a: 0,
                x: 0,
                y: 0,
                s: 0xfd,
                p: INTERRUPT_FLAG | UNUSED_FLAG,
                pc: (spec_bus_read(old(self)@.mem, RESET_ADDR) + spec_bus_read(
                    old(self)@.mem,
                    0xfffd,
                ) * 0x100) as u16,
                nmi_pending: false,
                irq_line: false,
                ..old(self)@
            }),
    {
        self.registers.accumulator = 0;
        self.registers.x = 0;
        self.registers.y = 0;
        self.registers.stack_pointer = 0xfd;
        self.registers.processor_status = INTERRUPT_FLAG | UNUSED_FLAG;
        self.nmi_pending = false;
        self.irq_line = false;
        self.registers.program_counter = self.load_word(RESET_ADDR);
    }
}

/// An 8-bit increment with wraparound.
pub(crate) fn inc8(v: u8) -> (r: u8)
    ensures
        r == spec_inc8(v),
{
    (((v as u16) + 1) % 0x100) as u8
}

/// An 8-bit decrement with wraparound.
pub(crate) fn dec8(v: u8) -> (r: u8)
    ensures
        r == spec_dec8(v),
{
    (((v as u16) + 0xff) % 0x100) as u8
}

/// A 16-bit sum with wraparound.
pub(crate) fn wrap_add16(a: u16, b: u16) -> (r: u16)
    ensures
        r == spec_wrap_add16(a, b),
{
    (((a as u32) + (b as u32)) % 0x10000) as u16
}


impl Cpu {
    // Instruction implementations. Each one's contract is the matching
    // transition function of the ISA specification.

    /// Loads a byte into the accumulator; Z and N follow it.
    fn lda(&mut self, address: u16)
        requires
            spec_cpu_wf(old(self)@),
        ensures
            spec_cpu_wf(final(self)@),
            final(self)@ == spec_lda(old(self)@, address),
    {
        let result = self.load(address);
        self.registers.accumulator = result;
    }

    /// Loads a byte into the X register; Z and N follow it.
    fn ldx(&mut self, address: u16)
        requires
            spec_cpu_wf(old(self)@),
        ensures
            spec_cpu_wf(final(self)@),
            final(self)@ == spec_ldx(old(self)@, address),
    {
        let result = self.load(address);
        self.registers.x = result;
    }

    /// Loads a byte into the Y register; Z and N follow it.
    fn ldy(&mut self, address: u16)
        requires
            spec_cpu_wf(old(self)@),
        ensures
            spec_cpu_wf(final(self)@),
            final(self)@ == spec_ldy(old(self)@, address),
    {
        let result = self.load(address);
        self.registers.y = result;
    }

    /// Stores the accumulator; flags unchanged.
    fn sta(&mut self, address: u16)
        requires
            spec_cpu_wf(old(self)@),
        ensures
            spec_cpu_wf(final(self)@),
            final(self)@ == spec_sta(old(self)@, address),
    {
        let a = self.registers.accumulator;
        self.store(address, a);
    }

    /// Stores the X register; flags unchanged.
    fn stx(&mut self, address: u16)
        requires
            spec_cpu_wf(old(self)@),
        ensures
            spec_cpu_wf(final(self)@),
            final(self)@ == spec_stx(old(self)@, address),
    {
        let x = self.registers.x;
        self.store(address, x);
    }

    /// Stores the Y register; flags unchanged.
    fn sty(&mut self, address: u16)
        requires
            spec_cpu_wf(old(self)@),
        ensures
            spec_cpu_wf(final(self)@),
            final(self)@ == spec_sty(old(self)@, address),
    {
        let y = self.registers.y;
        self.store(address, y);
    }

    /// A to X; Z and N follow the value.
    fn tax(&mut self)
        ensures
            final(self)@ == spec_tax(old(self)@),
    {
        let value = self.registers.accumulator;
        self.registers.set_zn(value);
        self.registers.x = value;
    }

    /// A to Y; Z and N follow the value.
    fn tay(&mut self)
        ensures
            final(self)@ == spec_tay(old(self)@),
    {
        let value = self.registers.accumulator;
        self.registers.set_zn(value);
        self.registers.y = value;
    }

    /// X to A; Z and N follow the value.
    fn txa(&mut self)
        ensures
            final(self)@ == spec_txa(old(self)@),
    {
        let value = self.registers.x;
        self.registers.set_zn(value);
        self.registers.accumulator = value;
    }

    /// Y to A; Z and N follow the value.
    fn tya(&mut self)
        ensures
            final(self)@ == spec_tya(old(self)@),
    {
        let value = self.registers.y;
        self.registers.set_zn(value);
        self.registers.accumulator = value;
    }

    /// S to X; Z and N follow the value.
    fn tsx(&mut self)
        ensures
            final(self)@ == spec_tsx(old(self)@),
    {
        let value = self.registers.stack_pointer;
        self.registers.set_zn(value);
        self.registers.x = value;
    }

    /// X to S; the one transfer that leaves the flags alone.
    fn txs(&mut self)
        ensures
            final(self)@ == spec_txs(old(self)@),
    {
        self.registers.stack_pointer = self.registers.x;
    }

    /// Pushes the accumulator.
    fn pha(&mut self)
        requires
            spec_cpu_wf(old(self)@),
        ensures
            spec_cpu_wf(final(self)@),
            final(self)@ == spec_pha(old(self)@),
    {
        let a = self.registers.accumulator;
        self.push(a);
    }

    /// Pushes the status with B and U forced on.
    fn php(&mut self)
        requires
            spec_cpu_wf(old(self)@),
        ensures
            spec_cpu_wf(final(self)@),
            final(self)@ == spec_php(old(self)@),
    {
        let flags = self.registers.processor_status;
        self.push(flags | 0x30);
    }

    /// Pulls into the accumulator; Z and N follow it.
    fn pla(&mut self)
        requires
            spec_cpu_wf(old(self)@),
        ensures
            spec_cpu_wf(final(self)@),
            final(self)@ == spec_pla(old(self)@),
    {
        let value = self.pull();
        self.registers.set_zn(value);
        self.registers.accumulator = value;
    }

    /// Pulls into the status, with B cleared and U set.
    fn plp(&mut self)
        requires
            spec_cpu_wf(old(self)@),
        ensures
            spec_cpu_wf(final(self)@),
            final(self)@ == spec_plp(old(self)@),
    {
        let value = self.pull();
        self.registers.set_flags(value);
    }

    /// AND of the accumulator and the operand; Z and N follow the result.
    fn and(&mut self, address: u16)
        requires
            spec_cpu_wf(old(self)@),
        ensures
            spec_cpu_wf(final(self)@),
            final(self)@ == spec_and(old(self)@, address),
    {
        let value = self.memory.fetch(address);
        let result = self.registers.accumulator & value;
        self.registers.set_zn(result);
        self.registers.accumulator = result;
    }

    /// Exclusive OR of the accumulator and the operand.
    fn eor(&mut self, address: u16)
        requires
            spec_cpu_wf(old(self)@),
        ensures
            spec_cpu_wf(final(self)@),
            final(self)@ == spec_eor(old(self)@, address),
    {
        let value = self.memory.fetch(address);
        let result = self.registers.accumulator ^ value;
        self.registers.set_zn(result);
        self.registers.accumulator = result;
    }

    /// Inclusive OR of the accumulator and the operand.
    fn ora(&mut self, address: u16)
        requires
            spec_cpu_wf(old(self)@),
        ensures
            spec_cpu_wf(final(self)@),
            final(self)@ == spec_ora(old(self)@, address),
    {
        let value = self.memory.fetch(address);
        let result = self.registers.accumulator | value;
        self.registers.set_zn(result);
        self.registers.accumulator = result;
    }

    /// BIT: Z from the AND with A, N and V from bits 7 and 6 of the operand.
    fn bit(&mut self, address: u16)
        requires
            spec_cpu_wf(old(self)@),
        ensures
            spec_cpu_wf(final(self)@),
            final(self)@ == spec_bit(old(self)@, address),
    {
        let value = self.memory.fetch(address);
        let a = self.registers.accumulator;
        self.registers.set_flag(ZERO_FLAG, (value & a) == 0);
        self.registers.set_flag(NEGATIVE_FLAG, (value & 0x80) != 0);
        self.registers.set_flag(OVERFLOW_FLAG, (value & 0x40) != 0);
    }

    /// A left shift of one bit; bit 0 takes `lsb`, C takes the old bit 7,
    /// Z and N follow the result.
    fn shift_left(&mut self, value: u8, lsb: bool) -> (r: u8)
        ensures
            r == spec_shl_val(value, lsb),
            final(self)@ == (CpuView {
                p: spec_shift_p(old(self)@.p, value & 0x80 != 0, r),
                ..old(self)@
            }),
    {
        let mut result = ((value as u16 * 2) % 0x100) as u8;
        if lsb {
            result = result + 1;
        }
        self.registers.set_flag(CARRY_BIT, (value & 0x80) != 0);
        self.registers.set_zn(result);
        result
    }

    /// A right shift of one bit; bit 7 takes `msb`, C takes the old bit 0.
    fn shift_right(&mut self, value: u8, msb: bool) -> (r: u8)
        ensures
            r == spec_shr_val(value, msb),
            final(self)@ == (CpuView {
                p: spec_shift_p(old(self)@.p, value & 1 != 0, r),
                ..old(self)@
            }),
    {
        let mut result = value / 2;
        if msb {
            result = result + 0x80;
        }
        self.registers.set_flag(CARRY_BIT, (value & 0x1) != 0);
        self.registers.set_zn(result);
        result
    }

    /// Arithmetic shift left on memory.
    fn asl(&mut self, address: u16)
        requires
            spec_cpu_wf(old(self)@),
        ensures
            spec_cpu_wf(final(self)@),
            final(self)@ == spec_asl_mem(old(self)@, address),
    {
        let value = self.memory.fetch(address);
        let result = self.shift_left(value, false);
        self.store(address, result);
    }

    /// Arithmetic shift left on the accumulator.
    fn asl_accumulator(&mut self)
        ensures
            final(self)@ == spec_asl_acc(old(self)@),
    {
        let a = self.registers.accumulator;
        let result = self.shift_left(a, false);
        self.registers.accumulator = result;
    }

    /// Logical shift right on memory.
    fn lsr(&mut self, address: u16)
        requires
            spec_cpu_wf(old(self)@),
        ensures
            spec_cpu_wf(final(self)@),
            final(self)@ == spec_lsr_mem(old(self)@, address),
    {
        let value = self.memory.fetch(address);
        let result = self.shift_right(value, false);
        self.store(address, result);
    }

    /// Logical shift right on the accumulator.
    fn lsr_accumulator(&mut self)
        ensures
            final(self)@ == spec_lsr_acc(old(self)@),
    {
        let value = self.registers.accumulator;
        let result = self.shift_right(value, false);
        self.registers.accumulator = result;
    }

    /// Rotate left through carry on memory.
    fn rol(&mut self, address: u16)
        requires
            spec_cpu_wf(old(self)@),
        ensures
            spec_cpu_wf(final(self)@),
            final(self)@ == spec_rol_mem(old(self)@, address),
    {
        let value = self.memory.fetch(address);
        let carry = self.registers.get_flag(CARRY_BIT);
        let result = self.shift_left(value, carry);
        self.store(address, result);
    }

    /// Rotate left through carry on the accumulator.
    fn rol_accumulator(&mut self)
        ensures
            final(self)@ == spec_rol_acc(old(self)@),
    {
        let a = self.registers.accumulator;
        let carry = self.registers.get_flag(CARRY_BIT);
        let result = self.shift_left(a, carry);
        self.registers.accumulator = result;
    }

    /// Rotate right through carry on memory.
    fn ror(&mut self, address: u16)
        requires
            spec_cpu_wf(old(self)@),
        ensures
            spec_cpu_wf(final(self)@),
            final(self)@ == spec_ror_mem(old(self)@, address),
    {
        let value = self.memory.fetch(address);
        let carry = self.registers.get_flag(CARRY_BIT);
        let result = self.shift_right(value, carry);
        self.store(address, result);
    }

    /// Rotate right through carry on the accumulator.
    fn ror_accumulator(&mut self)
        ensures
            final(self)@ == spec_ror_acc(old(self)@),
    {
        let a = self.registers.accumulator;
        let carry = self.registers.get_flag(CARRY_BIT);
        let result = self.shift_right(a, carry);
        self.registers.accumulator = result;
    }

    /// Add with carry, in 9-bit arithmetic; C takes the ninth bit, V the
    /// signed overflow, Z and N the result.
    fn adc(&mut self, address: u16)
        requires
            spec_cpu_wf(old(self)@),
        ensures
            spec_cpu_wf(final(self)@),
            final(self)@ == spec_adc(old(self)@, address),
    {
        let value = self.memory.fetch(address);
        let a = self.registers.accumulator;
        let carry: u16 = if self.registers.get_flag(CARRY_BIT) {
            1
        } else {
            0
        };
        let sum: u16 = a as u16 + value as u16 + carry;
        let result = (sum % 0x100) as u8;
        self.registers.set_flag(CARRY_BIT, sum >= 0x100);
        self.registers.set_flag(
            OVERFLOW_FLAG,
            (a ^ value) & 0x80 == 0 && (a ^ result) & 0x80 != 0,
        );
        self.registers.set_zn(result);
        self.registers.accumulator = result;
    }

    /// Subtract with borrow: the add-with-carry of the operand's complement.
    fn sbc(&mut self, address: u16)
        requires
            spec_cpu_wf(old(self)@),
        ensures
            spec_cpu_wf(final(self)@),
            final(self)@ == spec_sbc(old(self)@, address),
    {
        let value = self.memory.fetch(address);
        let a = self.registers.accumulator;
        let carry: u16 = if self.registers.get_flag(CARRY_BIT) {
            1
        } else {
            0
        };
        let sum: u16 = a as u16 + (value ^ 0xff) as u16 + carry;
        let result = (sum % 0x100) as u8;
        self.registers.set_flag(CARRY_BIT, sum >= 0x100);
        self.registers.set_flag(
            OVERFLOW_FLAG,
            (a ^ value) & 0x80 != 0 && (a ^ result) & 0x80 != 0,
        );
        self.registers.set_zn(result);
        self.registers.accumulator = result;
    }

    /// Decrements the byte at the address; Z and N follow the result.
    fn dec(&mut self, address: u16)
        requires
            spec_cpu_wf(old(self)@),
        ensures
            spec_cpu_wf(final(self)@),
            final(self)@ == spec_dec_mem(old(self)@, address),
    {
        let value = dec8(self.memory.fetch(address));
        self.registers.set_zn(value);
        self.store(address, value);
    }

    /// Decrements X; Z and N follow the result.
    fn dex(&mut self)
        ensures
            final(self)@ == spec_dex(old(self)@),
    {
        let value = dec8(self.registers.x);
        self.registers.set_zn(value);
        self.registers.x = value;
    }

    /// Decrements Y; Z and N follow the result.
    fn dey(&mut self)
        ensures
            final(self)@ == spec_dey(old(self)@),
    {
        let value = dec8(self.registers.y);
        self.registers.set_zn(value);
        self.registers.y = value;
    }

    /// Increments the byte at the address; Z and N follow the result.
    fn inc(&mut self, address: u16)
        requires
            spec_cpu_wf(old(self)@),
        ensures
            spec_cpu_wf(final(self)@),
            final(self)@ == spec_inc_mem(old(self)@, address),
    {
        let value = inc8(self.memory.fetch(address));
        self.registers.set_zn(value);
        self.store(address, value);
    }

    /// Increments X; Z and N follow the result.
    fn inx(&mut self)
        ensures
            final(self)@ == spec_inx(old(self)@),
    {
        let value = inc8(self.registers.x);
        self.registers.set_zn(value);
        self.registers.x = value;
    }

    /// Increments Y; Z and N follow the result.
    fn iny(&mut self)
        ensures
            final(self)@ == spec_iny(old(self)@),
    {
        let value = inc8(self.registers.y);
        self.registers.set_zn(value);
        self.registers.y = value;
    }

    /// Clears the carry flag.
    fn clc(&mut self)
        ensures
            final(self)@ == spec_flag_op(old(self)@, CARRY_BIT, false),
    {
        self.registers.set_flag(CARRY_BIT, false);
    }

    /// Clears the interrupt-disable flag.
    fn cli(&mut self)
        ensures
            final(self)@ == spec_flag_op(old(self)@, INTERRUPT_FLAG, false),
    {
        self.registers.set_flag(INTERRUPT_FLAG, false);
    }

    /// Clears the overflow flag.
    fn clv(&mut self)
        ensures
            final(self)@ == spec_flag_op(old(self)@, OVERFLOW_FLAG, false),
    {
        self.registers.set_flag(OVERFLOW_FLAG, false);
    }

    /// Clears the decimal flag, latched but without effect on this variant.
    fn cld(&mut self)
        ensures
            final(self)@ == spec_flag_op(old(self)@, DECIMAL_FLAG, false),
    {
        self.registers.set_flag(DECIMAL_FLAG, false);
    }

    /// Sets the carry flag.
    fn sec(&mut self)
        ensures
            final(self)@ == spec_flag_op(old(self)@, CARRY_BIT, true),
    {
        self.registers.set_flag(CARRY_BIT, true);
    }

    /// Sets the interrupt-disable flag.
    fn sei(&mut self)
        ensures
            final(self)@ == spec_flag_op(old(self)@, INTERRUPT_FLAG, true),
    {
        self.registers.set_flag(INTERRUPT_FLAG, true);
    }

    /// Sets the decimal flag, latched but without effect on this variant.
    fn sed(&mut self)
        ensures
            final(self)@ == spec_flag_op(old(self)@, DECIMAL_FLAG, true),
    {
        self.registers.set_flag(DECIMAL_FLAG, true);
    }

    /// The shared compare: C when the register is at least the operand, Z
    /// and N from the 8-bit difference.
    fn compare(&mut self, x: u8, y: u8)
        ensures
            final(self)@ == (CpuView {
                p: spec_with_zn(
                    spec_set_flag(old(self)@.p, CARRY_BIT, x >= y),
                    ((x + 0x100 - y) % 0x100) as u8,
                ),
                ..old(self)@
            }),
    {
        let result = ((x as u16 + 0x100 - y as u16) % 0x100) as u8;
        self.registers.set_flag(CARRY_BIT, x >= y);
        self.registers.set_zn(result);
    }

    /// Compares the accumulator with the operand.
    fn cmp(&mut self, address: u16)
        requires
            spec_cpu_wf(old(self)@),
        ensures
            spec_cpu_wf(final(self)@),
            final(self)@ == spec_compare(old(self)@, old(self)@.a, address),
    {
        let a = self.registers.accumulator;
        let value = self.memory.fetch(address);
        self.compare(a, value);
    }

    /// Compares X with the operand.
    fn cpx(&mut self, address: u16)
        requires
            spec_cpu_wf(old(self)@),
        ensures
            spec_cpu_wf(final(self)@),
            final(self)@ == spec_compare(old(self)@, old(self)@.x, address),
    {
        let x = self.registers.x;
        let value = self.memory.fetch(address);
        self.compare(x, value);
    }

    /// Compares Y with the operand.
    fn cpy(&mut self, address: u16)
        requires
            spec_cpu_wf(old(self)@),
        ensures
            spec_cpu_wf(final(self)@),
            final(self)@ == spec_compare(old(self)@, old(self)@.y, address),
    {
        let y = self.registers.y;
        let value = self.memory.fetch(address);
        self.compare(y, value);
    }

    /// A taken branch: jumps and reports one extra cycle, two when the
    /// target sits on another page than the instruction's end.
    fn branch(&mut self, address: u16) -> (r: u8)
        ensures
            final(self)@ == (CpuView { pc: address, ..old(self)@ }),
            r == (if old(self)@.pc >> 8 == address >> 8 {
                1u8
            } else {
                2u8
            }),
    {
        let mut cycles: u8 = 1;
        let pc = self.registers.program_counter;
        if !NesMemory::is_same_page(pc, address) {
            cycles = cycles + 1;
        }
        self.registers.program_counter = address;
        cycles
    }

    /// Branch if carry clear.
    fn bcc(&mut self, address: u16) -> (r: u8)
        ensures
            ({
                let (s2, e) = spec_branch(
                    old(self)@,
                    !spec_get_flag(old(self)@.p, CARRY_BIT),
                    address,
                );
                final(self)@ == s2 && r as nat == e
            }),
    {
        if !self.registers.get_flag(CARRY_BIT) {
            self.branch(address)
        } else {
            0
        }
    }

    /// Branch if carry set.
    fn bcs(&mut self, address: u16) -> (r: u8)
        ensures
            ({
                let (s2, e) = spec_branch(
                    old(self)@,
                    spec_get_flag(old(self)@.p, CARRY_BIT),
                    address,
                );
                final(self)@ == s2 && r as nat == e
            }),
    {
        if self.registers.get_flag(CARRY_BIT) {
            self.branch(address)
        } else {
            0
        }
    }

    /// Branch if the zero flag is set.
    fn beq(&mut self, address: u16) -> (r: u8)
        ensures
            ({
                let (s2, e) = spec_branch(
                    old(self)@,
                    spec_get_flag(old(self)@.p, ZERO_FLAG),
                    address,
                );
                final(self)@ == s2 && r as nat == e
            }),
    {
        if self.registers.get_flag(ZERO_FLAG) {
            self.branch(address)
        } else {
            0
        }
    }

    /// Branch if the negative flag is set.
    fn bmi(&mut self, address: u16) -> (r: u8)
        ensures
            ({
                let (s2, e) = spec_branch(
                    old(self)@,
                    spec_get_flag(old(self)@.p, NEGATIVE_FLAG),
                    address,
                );
                final(self)@ == s2 && r as nat == e
            }),
    {
        if self.registers.get_flag(NEGATIVE_FLAG) {
            self.branch(address)
        } else {
            0
        }
    }

    /// Branch if the zero flag is clear.
    fn bne(&mut self, address: u16) -> (r: u8)
        ensures
            ({
                let (s2, e) = spec_branch(
                    old(self)@,
                    !spec_get_flag(old(self)@.p, ZERO_FLAG),
                    address,
                );
                final(self)@ == s2 && r as nat == e
            }),
    {
        if !self.registers.get_flag(ZERO_FLAG) {
            self.branch(address)
        } else {
            0
        }
    }

    /// Branch if the negative flag is clear.
    fn bpl(&mut self, address: u16) -> (r: u8)
        ensures
            ({
                let (s2, e) = spec_branch(
                    old(self)@,
                    !spec_get_flag(old(self)@.p, NEGATIVE_FLAG),
                    address,
                );
                final(self)@ == s2 && r as nat == e
            }),
    {
        if !self.registers.get_flag(NEGATIVE_FLAG) {
            self.branch(address)
        } else {
            0
        }
    }

    /// Branch if the overflow flag is clear.
    fn bvc(&mut self, address: u16) -> (r: u8)
        ensures
            ({
                let (s2, e) = spec_branch(
                    old(self)@,
                    !spec_get_flag(old(self)@.p, OVERFLOW_FLAG),
                    address,
                );
                final(self)@ == s2 && r as nat == e
            }),
    {
        if !self.registers.get_flag(OVERFLOW_FLAG) {
            self.branch(address)
        } else {
            0
        }
    }

    /// Branch if the overflow flag is set.
    fn bvs(&mut self, address: u16) -> (r: u8)
        ensures
            ({
                let (s2, e) = spec_branch(
                    old(self)@,
                    spec_get_flag(old(self)@.p, OVERFLOW_FLAG),
                    address,
                );
                final(self)@ == s2 && r as nat == e
            }),
    {
        if self.registers.get_flag(OVERFLOW_FLAG) {
            self.branch(address)
        } else {
            0
        }
    }

    /// Jumps to the address.
    fn jmp(&mut self, address: u16)
        ensures
            final(self)@ == spec_jmp(old(self)@, address),
    {
        self.registers.program_counter = address;
    }

    /// JSR: pushes the address of its last operand byte and jumps.
    fn jsr(&mut self, address: u16)
        requires
            spec_cpu_wf(old(self)@),
        ensures
            spec_cpu_wf(final(self)@),
            final(self)@ == spec_jsr(old(self)@, address),
    {
        let value = wrap_add16(self.registers.program_counter, 0xffff);
        self.push_word(value);
        self.registers.program_counter = address;
    }

    /// RTS: pulls the return word and resumes one past it.
    fn rts(&mut self)
        requires
            spec_cpu_wf(old(self)@),
        ensures
            spec_cpu_wf(final(self)@),
            final(self)@ == spec_rts(old(self)@),
    {
        let value = self.pull_word();
        self.registers.program_counter = wrap_add16(value, 1);
    }

    /// RTI: pulls the status (masked), then the return address, unchanged.
    fn rti(&mut self)
        requires
            spec_cpu_wf(old(self)@),
        ensures
            spec_cpu_wf(final(self)@),
            final(self)@ == spec_rti(old(self)@),
    {
        let flags = self.pull();
        self.registers.set_flags(flags);
        let value = self.pull_word();
        self.registers.program_counter = value;
    }

    /// BRK: pushes the address past the signature byte and the status with
    /// B and U forced, sets I, vectors through $FFFE.
    fn brk(&mut self)
        requires
            spec_cpu_wf(old(self)@),
        ensures
            spec_cpu_wf(final(self)@),
            final(self)@ == spec_brk(old(self)@),
    {
        let pc = wrap_add16(self.registers.program_counter, 1);
        self.push_word(pc);
        let flags = self.registers.processor_status;
        self.push(flags | 0x30);
        self.registers.set_flag(INTERRUPT_FLAG, true);
        let vector = self.load_word(BRK_ADDR);
        self.registers.program_counter = vector;
    }

    /// A hardware interrupt through the given vector: return address and
    /// masked status pushed, I raised, control transferred.
    fn interrupt(&mut self, vector: u16)
        requires
            spec_cpu_wf(old(self)@),
        ensures
            spec_cpu_wf(final(self)@),
            final(self)@ == spec_interrupt(old(self)@, vector),
    {
        let pc = self.registers.program_counter;
        self.push_word(pc);
        let flags = (self.registers.processor_status | 0x20) & 0xef;
        self.push(flags);
        self.registers.set_flag(INTERRUPT_FLAG, true);
        let target = self.load_word(vector);
        self.registers.program_counter = target;
    }

    // Addressing modes. Each consumes its operand bytes from PC and hands
    // back the effective address, as `spec_resolve` states mode by mode.

    /// The operand's own address; PC moves past it.
    fn immediate_address(&mut self) -> (r: u16)
        ensures
            r == old(self)@.pc,
            final(self)@ == (CpuView { pc: spec_wrap_add16(old(self)@.pc, 1), ..old(self)@ }),
    {
        let result = self.registers.program_counter;
        self.registers.program_counter = wrap_add16(result, 1);
        result
    }

    /// The operand byte as a page-zero address.
    fn zero_page_address(&mut self) -> (r: u16)
        requires
            spec_cpu_wf(old(self)@),
        ensures
            spec_cpu_wf(final(self)@),
            r == spec_bus_read(old(self)@.mem, old(self)@.pc) as u16,
            final(self)@ == (CpuView { pc: spec_wrap_add16(old(self)@.pc, 1), ..old(self)@ }),
    {
        let pc = self.registers.program_counter;
        let result = self.memory.fetch(pc) as u16;
        self.registers.program_counter = wrap_add16(pc, 1);
        result
    }

    /// The operand byte plus an index register, wrapping inside page zero.
    fn zero_page_indexed_address(&mut self, index: Index) -> (r: u16)
        requires
            spec_cpu_wf(old(self)@),
        ensures
            spec_cpu_wf(final(self)@),
            r == ((spec_bus_read(old(self)@.mem, old(self)@.pc) + (match index {
                Index::X => old(self)@.x,
                Index::Y => old(self)@.y,
            })) % 0x100) as u16,
            final(self)@ == (CpuView { pc: spec_wrap_add16(old(self)@.pc, 1), ..old(self)@ }),
    {
        let pc = self.registers.program_counter;
        let value = self.memory.fetch(pc);
        let offset = self.registers.register_from_index(index);
        let result = ((value as u16 + offset as u16) % 0x100) as u16;
        self.registers.program_counter = wrap_add16(pc, 1);
        result
    }

    /// A two-byte little-endian address; PC moves past both bytes.
    fn absolute_address(&mut self) -> (r: u16)
        requires
            spec_cpu_wf(old(self)@),
        ensures
            spec_cpu_wf(final(self)@),
            r == spec_bus_read_word(old(self)@.mem, old(self)@.pc),
            final(self)@ == (CpuView { pc: spec_wrap_add16(old(self)@.pc, 2), ..old(self)@ }),
    {
        let pc = self.registers.program_counter;
        let result = self.load_word(pc);
        self.registers.program_counter = wrap_add16(pc, 2);
        result
    }

    /// An absolute address plus an index register; the extra cycle flag is 1
    /// exactly when the sum leaves the base address's page.
    fn absolute_indexed_address(&mut self, index: Index) -> (r: (u16, u8))
        requires
            spec_cpu_wf(old(self)@),
        ensures
            spec_cpu_wf(final(self)@),
            ({
                let base = spec_bus_read_word(old(self)@.mem, old(self)@.pc);
                let offset = match index {
                    Index::X => old(self)@.x,
                    Index::Y => old(self)@.y,
                };
                let addr = spec_wrap_add16(base, offset as u16);
                r.0 == addr && r.1 == (if base >> 8 != addr >> 8 {
                    1u8
                } else {
                    0u8
                })
            }),
            final(self)@ == (CpuView { pc: spec_wrap_add16(old(self)@.pc, 2), ..old(self)@ }),
    {
        let pc = self.registers.program_counter;
        let address = self.load_word(pc);
        self.registers.program_counter = wrap_add16(pc, 2);
        let offset = self.registers.register_from_index(index);
        let result = wrap_add16(address, offset as u16);
        let cycles: u8 = if !NesMemory::is_same_page(address, result) {
            1
        } else {
            0
        };
        (result, cycles)
    }

    /// Indexed-indirect (zp,X): the operand plus X names a zero-page cell
    /// holding the address, its high byte wrapping inside page zero.
    fn indexed_indirect_address(&mut self) -> (r: u16)
        requires
            spec_cpu_wf(old(self)@),
        ensures
            spec_cpu_wf(final(self)@),
            ({
                let m = old(self)@.mem;
                let zp = ((spec_bus_read(m, old(self)@.pc) + old(self)@.x) % 0x100) as u16;
                r == spec_w16(spec_bus_read(m, zp), spec_bus_read(m, ((zp + 1) % 0x100) as u16))
            }),
            final(self)@ == (CpuView { pc: spec_wrap_add16(old(self)@.pc, 1), ..old(self)@ }),
    {
        let pc = self.registers.program_counter;
        let value = self.memory.fetch(pc);
        self.registers.program_counter = wrap_add16(pc, 1);
        let zp = ((value as u16 + self.registers.x as u16) % 0x100) as u16;
        let low = self.memory.fetch(zp);
        let high = self.memory.fetch((zp + 1) % 0x100);
        low as u16 + high as u16 * 0x100
    }

    /// Indirect-indexed (zp),Y: the zero-page word plus Y; the extra cycle
    /// flag is 1 exactly when the sum leaves the base address's page.
    fn indirect_indexed_address(&mut self) -> (r: (u16, u8))
        requires
            spec_cpu_wf(old(self)@),
        ensures
            spec_cpu_wf(final(self)@),
            ({
                let m = old(self)@.mem;
                let zp = spec_bus_read(m, old(self)@.pc) as u16;
                let base = spec_w16(
                    spec_bus_read(m, zp),
                    spec_bus_read(m, ((zp + 1) % 0x100) as u16),
                );
                let addr = spec_wrap_add16(base, old(self)@.y as u16);
                r.0 == addr && r.1 == (if base >> 8 != addr >> 8 {
                    1u8
                } else {
                    0u8
                })
            }),
            final(self)@ == (CpuView { pc: spec_wrap_add16(old(self)@.pc, 1), ..old(self)@ }),
    {
        let pc = self.registers.program_counter;
        let zp = self.memory.fetch(pc) as u16;
        self.registers.program_counter = wrap_add16(pc, 1);
        let low = self.memory.fetch(zp);
        let high = self.memory.fetch((zp + 1) % 0x100);
        let base = low as u16 + high as u16 * 0x100;
        let result = wrap_add16(base, self.registers.y as u16);
        let cycles: u8 = if !NesMemory::is_same_page(base, result) {
            1
        } else {
            0
        };
        (result, cycles)
    }

    /// A branch target: the operand sign-extended and added to the PC that
    /// follows the operand.
    fn relative_address(&mut self) -> (r: u16)
        requires
            spec_cpu_wf(old(self)@),
        ensures
            spec_cpu_wf(final(self)@),
            r == spec_branch_target(
                spec_wrap_add16(old(self)@.pc, 1),
                spec_bus_read(old(self)@.mem, old(self)@.pc),
            ),
            final(self)@ == (CpuView { pc: spec_wrap_add16(old(self)@.pc, 1), ..old(self)@ }),
    {
        let pc = self.registers.program_counter;
        let offset = self.memory.fetch(pc);
        let next = wrap_add16(pc, 1);
        self.registers.program_counter = next;
        if offset >= 0x80 {
            wrap_add16(next, offset as u16 + 0xff00)
        } else {
            wrap_add16(next, offset as u16)
        }
    }

    /// JMP's indirect pointer, with the hardware defect: the pointer's high
    /// byte is read with the increment wrapping inside the pointer's page.
    fn indirect_address(&mut self) -> (r: u16)
        requires
            spec_cpu_wf(old(self)@),
        ensures
            spec_cpu_wf(final(self)@),
            ({
                let m = old(self)@.mem;
                let ptr = spec_bus_read_word(m, old(self)@.pc);
                r == spec_w16(spec_bus_read(m, ptr), spec_bus_read(m, spec_ind_high_addr(ptr)))
            }),
            final(self)@ == (CpuView { pc: spec_wrap_add16(old(self)@.pc, 2), ..old(self)@ }),
    {
        let pc = self.registers.program_counter;
        let ptr = self.load_word(pc);
        self.registers.program_counter = wrap_add16(pc, 2);
        let low = self.memory.fetch(ptr);
        proof {
            assert(ptr & 0xff00 <= 0xff00) by (bit_vector);
        }
        let high_addr = (ptr & 0xff00) + (((ptr as u32 + 1) % 0x100) as u16);
        let high = self.memory.fetch(high_addr);
        low as u16 + high as u16 * 0x100
    }

    /// Resolves one addressing mode: hands back the effective address and
    /// the page-cross flag, with PC moved past the operand bytes.
    fn resolve(&mut self, mode: Mode) -> (r: (u16, bool))
        requires
            spec_cpu_wf(old(self)@),
        ensures
            spec_cpu_wf(final(self)@),
            ({
                let rr = spec_resolve(
                    old(self)@.mem,
                    old(self)@.pc,
                    old(self)@.x,
                    old(self)@.y,
                    mode,
                );
                r.0 == rr.addr && r.1 == rr.crossed && final(self)@ == (CpuView {
                    pc: rr.pc,
                    ..old(self)@
                })
            }),
    {
        match mode {
            Mode::Implied => (0, false),
            Mode::Accumulator => (0, false),
            Mode::Immediate => (self.immediate_address(), false),
            Mode::ZeroPage => (self.zero_page_address(), false),
            Mode::ZeroPageX => (self.zero_page_indexed_address(Index::X), false),
            Mode::ZeroPageY => (self.zero_page_indexed_address(Index::Y), false),
            Mode::Absolute => (self.absolute_address(), false),
            Mode::AbsoluteX => {
                let (addr, crossed) = self.absolute_indexed_address(Index::X);
                (addr, crossed == 1)
            },
            Mode::AbsoluteY => {
                let (addr, crossed) = self.absolute_indexed_address(Index::Y);
                (addr, crossed == 1)
            },
            Mode::Indirect => (self.indirect_address(), false),
            Mode::IndexedIndirect => (self.indexed_indirect_address(), false),
            Mode::IndirectIndexed => {
                let (addr, crossed) = self.indirect_indexed_address();
                (addr, crossed == 1)
            },
            Mode::Relative => (self.relative_address(), false),
        }
    }

    /// Executes one decoded operation on its resolved address and reports
    /// the branch penalty cycles, as `spec_apply` states.
    fn apply(&mut self, op: Op, mode: Mode, addr: u16) -> (extra: u8)
        requires
            spec_cpu_wf(old(self)@),
        ensures
            spec_cpu_wf(final(self)@),
            extra <= 2,
            ({
                let (s2, e) = spec_apply(old(self)@, op, mode, addr);
                final(self)@ == s2 && extra as nat == e
            }),
    {
        match op {
            Op::Lda => {
                self.lda(addr);
                0
            },
            Op::Ldx => {
                self.ldx(addr);
                0
            },
            Op::Ldy => {
                self.ldy(addr);
                0
            },
            Op::Sta => {
                self.sta(addr);
                0
            },
            Op::Stx => {
                self.stx(addr);
                0
            },
            Op::Sty => {
                self.sty(addr);
                0
            },
            Op::Tax => {
                self.tax();
                0
            },
            Op::Tay => {
                self.tay();
                0
            },
            Op::Txa => {
                self.txa();
                0
            },
            Op::Tya => {
                self.tya();
                0
            },
            Op::Tsx => {
                self.tsx();
                0
            },
            Op::Txs => {
                self.txs();
                0
            },
            Op::Pha => {
                self.pha();
                0
            },
            Op::Php => {
                self.php();
                0
            },
            Op::Pla => {
                self.pla();
                0
            },
            Op::Plp => {
                self.plp();
                0
            },
            Op::And => {
                self.and(addr);
                0
            },
            Op::Eor => {
                self.eor(addr);
                0
            },
            Op::Ora => {
                self.ora(addr);
                0
            },
            Op::Bit => {
                self.bit(addr);
                0
            },
            Op::Asl => {
                match mode {
                    Mode::Accumulator => self.asl_accumulator(),
                    _ => self.asl(addr),
                }
                0
            },
            Op::Lsr => {
                match mode {
                    Mode::Accumulator => self.lsr_accumulator(),
                    _ => self.lsr(addr),
                }
                0
            },
            Op::Rol => {
                match mode {
                    Mode::Accumulator => self.rol_accumulator(),
                    _ => self.rol(addr),
                }
                0
            },
            Op::Ror => {
                match mode {
                    Mode::Accumulator => self.ror_accumulator(),
                    _ => self.ror(addr),
                }
                0
            },
            Op::Adc => {
                self.adc(addr);
                0
            },
            Op::Sbc => {
                self.sbc(addr);
                0
            },
            Op::Cmp => {
                self.cmp(addr);
                0
            },
            Op::Cpx => {
                self.cpx(addr);
                0
            },
            Op::Cpy => {
                self.cpy(addr);
                0
            },
            Op::Inc => {
                self.inc(addr);
                0
            },
            Op::Inx => {
                self.inx();
                0
            },
            Op::Iny => {
                self.iny();
                0
            },
            Op::Dec => {
                self.dec(addr);
                0
            },
            Op::Dex => {
                self.dex();
                0
            },
            Op::Dey => {
                self.dey();
                0
            },
            Op::Clc => {
                self.clc();
                0
            },
            Op::Sec => {
                self.sec();
                0
            },
            Op::Cli => {
                self.cli();
                0
            },
            Op::Sei => {
                self.sei();
                0
            },
            Op::Clv => {
                self.clv();
                0
            },
            Op::Cld => {
                self.cld();
                0
            },
            Op::Sed => {
                self.sed();
                0
            },
            Op::Bcc => self.bcc(addr),
            Op::Bcs => self.bcs(addr),
            Op::Beq => self.beq(addr),
            Op::Bne => self.bne(addr),
            Op::Bmi => self.bmi(addr),
            Op::Bpl => self.bpl(addr),
            Op::Bvc => self.bvc(addr),
            Op::Bvs => self.bvs(addr),
            Op::Jmp => {
                self.jmp(addr);
                0
            },
            Op::Jsr => {
                self.jsr(addr);
                0
            },
            Op::Rts => {
                self.rts();
                0
            },
            Op::Rti => {
                self.rti();
                0
            },
            Op::Brk => {
                self.brk();
                0
            },
            Op::Nop => 0,
        }
    }

    /// One step of the machine: serves a pending interrupt, or fetches,
    /// decodes and executes the instruction at PC. Returns the cycles the
    /// step consumed, or the `BadOpcode` trap with the state unchanged, as
    /// `spec_step` states.
    #[verifier::rlimit(60)]
    pub fn execute_instruction(&mut self) -> (r: Result<u8, CpuError>)
        requires
            spec_cpu_wf(old(self)@),
        ensures
            spec_cpu_wf(final(self)@),
            ({
                match spec_step(old(self)@) {
                    StepResult::Stepped { next, cycles } => r matches Ok(c) && final(self)@ == next
                        && c as nat == cycles,
                    StepResult::Fault { opcode, pc } => r == Err::<u8, CpuError>(
                        CpuError::BadOpcode(opcode, pc),
                    ) && final(self)@ == old(self)@,
                }
            }),
    {
        proof {
            reveal(crate::isa::spec_step);
        }
        if self.nmi_pending {
            self.nmi_pending = false;
            self.interrupt(NMI_ADDR);
            return Ok(7);
        }
        if self.irq_line && !self.registers.get_flag(INTERRUPT_FLAG) {
            self.interrupt(BRK_ADDR);
            return Ok(7);
        }
        let pc = self.registers.program_counter;
        let opcode = self.memory.fetch(pc);
        proof {
            reveal(crate::isa::spec_decode);
            reveal(crate::isa::spec_step);
        }
        match decode(opcode) {
            None => Err(CpuError::BadOpcode(opcode, pc)),
            Some(ins) => {
                self.registers.program_counter = wrap_add16(pc, 1);
                let (addr, crossed) = self.resolve(ins.mode);
                let extra = self.apply(ins.op, ins.mode, addr);
                let penalty: u8 = if ins.page_penalty && crossed {
                    1
                } else {
                    0
                };
                Ok(ins.base + penalty + extra)
            },
        }
    }
}
} // verus!
