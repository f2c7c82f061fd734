use vstd::prelude::*;
use crate::cpu::{
    spec_cpu_pull, spec_cpu_pull_val, spec_cpu_pull_word_val, spec_cpu_wf, spec_dec8,
    spec_get_flag, spec_inc8, spec_set_flag, spec_with_zn, spec_wrap_add16, CpuView, BREAK_FLAG,
    CARRY_BIT, DECIMAL_FLAG, INTERRUPT_FLAG, NEGATIVE_FLAG, OVERFLOW_FLAG, UNUSED_FLAG, ZERO_FLAG,
};
use crate::isa::{
    spec_adc, spec_apply, spec_decode, spec_jsr, spec_php, spec_plp, spec_resolve, spec_rts,
    spec_sbc, spec_shl_val, spec_shr_val, spec_step, Instr, Mode, Op, StepResult,
};
use crate::memory::{
    lemma_ram_round_trip, lemma_ram_write_other, spec_bus_read, spec_bus_read_word, spec_bus_write,
    spec_mem_wf,
};

verus! {

/// Reading a flag bit just forced reports the forced value.
pub proof fn lemma_get_set_same(p: u8, m: u8, b: bool)
    by (bit_vector)
    requires
        m != 0,
    ensures
        spec_get_flag(spec_set_flag(p, m, b), m) == b,
{
}

/// The flag masks are pairwise disjoint single bits.
proof fn lemma_mask_facts()
    by (bit_vector)
    ensures
        0x02u8 & 0x01u8 == 0,
        0x02u8 & 0x04u8 == 0,
        0x02u8 & 0x08u8 == 0,
        0x02u8 & 0x10u8 == 0,
        0x02u8 & 0x20u8 == 0,
        0x02u8 & 0x40u8 == 0,
        0x02u8 & 0x80u8 == 0,
        0x80u8 & 0x01u8 == 0,
        0x80u8 & 0x02u8 == 0,
        0x80u8 & 0x04u8 == 0,
        0x80u8 & 0x08u8 == 0,
        0x80u8 & 0x10u8 == 0,
        0x80u8 & 0x20u8 == 0,
        0x80u8 & 0x40u8 == 0,
        0x40u8 & 0x01u8 == 0,
{
}

/// Forcing one flag leaves every bit outside its mask as it was.
pub proof fn lemma_get_set_other(p: u8, m1: u8, m2: u8, b: bool)
    by (bit_vector)
    requires
        m1 & m2 == 0,
    ensures
        spec_get_flag(spec_set_flag(p, m1, b), m2) == spec_get_flag(p, m2),
{
}

/// The Z/N discipline every result-producing instruction routes through:
/// after `spec_with_zn(p, v)`, Z holds exactly when the result `v` is zero,
/// N holds exactly when its bit 7 is set, and C, I, D, B, U and V keep their
/// values.
pub proof fn lemma_zn_flags(p: u8, v: u8)
    ensures
        spec_get_flag(spec_with_zn(p, v), ZERO_FLAG) == (v == 0),
        spec_get_flag(spec_with_zn(p, v), NEGATIVE_FLAG) == (v & 0x80 != 0),
        spec_get_flag(spec_with_zn(p, v), CARRY_BIT) == spec_get_flag(p, CARRY_BIT),
        spec_get_flag(spec_with_zn(p, v), INTERRUPT_FLAG) == spec_get_flag(p, INTERRUPT_FLAG),
        spec_get_flag(spec_with_zn(p, v), DECIMAL_FLAG) == spec_get_flag(p, DECIMAL_FLAG),
        spec_get_flag(spec_with_zn(p, v), BREAK_FLAG) == spec_get_flag(p, BREAK_FLAG),
        spec_get_flag(spec_with_zn(p, v), UNUSED_FLAG) == spec_get_flag(p, UNUSED_FLAG),
        spec_get_flag(spec_with_zn(p, v), OVERFLOW_FLAG) == spec_get_flag(p, OVERFLOW_FLAG),
{
    lemma_mask_facts();
    let pz = spec_set_flag(p, ZERO_FLAG, v == 0);
    lemma_get_set_other(pz, NEGATIVE_FLAG, ZERO_FLAG, v & 0x80 != 0);
    lemma_get_set_same(p, ZERO_FLAG, v == 0);
    lemma_get_set_same(pz, NEGATIVE_FLAG, v & 0x80 != 0);
    lemma_get_set_other(p, ZERO_FLAG, CARRY_BIT, v == 0);
    lemma_get_set_other(pz, NEGATIVE_FLAG, CARRY_BIT, v & 0x80 != 0);
    lemma_get_set_other(p, ZERO_FLAG, INTERRUPT_FLAG, v == 0);
    lemma_get_set_other(pz, NEGATIVE_FLAG, INTERRUPT_FLAG, v & 0x80 != 0);
    lemma_get_set_other(p, ZERO_FLAG, DECIMAL_FLAG, v == 0);
    lemma_get_set_other(pz, NEGATIVE_FLAG, DECIMAL_FLAG, v & 0x80 != 0);
    lemma_get_set_other(p, ZERO_FLAG, BREAK_FLAG, v == 0);
    lemma_get_set_other(pz, NEGATIVE_FLAG, BREAK_FLAG, v & 0x80 != 0);
    lemma_get_set_other(p, ZERO_FLAG, UNUSED_FLAG, v == 0);
    lemma_get_set_other(pz, NEGATIVE_FLAG, UNUSED_FLAG, v & 0x80 != 0);
    lemma_get_set_other(p, ZERO_FLAG, OVERFLOW_FLAG, v == 0);
    lemma_get_set_other(pz, NEGATIVE_FLAG, OVERFLOW_FLAG, v & 0x80 != 0);
}

/// ADC with the carry clear: the accumulator takes (A + M) mod 256, the
/// carry flag reports A + M >= 256, and V holds exactly when the operands
/// share a sign that the result does not carry.
pub proof fn lemma_adc_no_carry(s: CpuView, addr: u16)
    requires
        !spec_get_flag(s.p, CARRY_BIT),
    ensures
        ({
            let m = spec_bus_read(s.mem, addr);
            let s2 = spec_adc(s, addr);
            &&& s2.a == (s.a + m) % 0x100
            &&& spec_get_flag(s2.p, CARRY_BIT) == (s.a + m >= 0x100)
            &&& spec_get_flag(s2.p, OVERFLOW_FLAG) == ((s.a ^ m) & 0x80 == 0 && (s.a ^ s2.a) & 0x80
                != 0)
        }),
{
    lemma_mask_facts();
    let m = spec_bus_read(s.mem, addr);
    let sum = s.a + m;
    let r = (sum % 0x100) as u8;
    let p1 = spec_set_flag(s.p, CARRY_BIT, sum >= 0x100);
    let ovf = (s.a ^ m) & 0x80 == 0 && (s.a ^ r) & 0x80 != 0;
    let p2 = spec_set_flag(p1, OVERFLOW_FLAG, ovf);
    lemma_get_set_same(s.p, CARRY_BIT, sum >= 0x100);
    lemma_get_set_other(p1, OVERFLOW_FLAG, CARRY_BIT, ovf);
    lemma_zn_flags(p2, r);
    lemma_get_set_same(p1, OVERFLOW_FLAG, ovf);
}

/// SBC with the carry set: the accumulator takes (A - M) mod 256 and the
/// carry flag reports the absence of a borrow, that is A >= M.
pub proof fn lemma_sbc_with_carry(s: CpuView, addr: u16)
    requires
        spec_get_flag(s.p, CARRY_BIT),
    ensures
        ({
            let m = spec_bus_read(s.mem, addr);
            let s2 = spec_sbc(s, addr);
            &&& s2.a == (s.a + 0x100 - m) % 0x100
            &&& spec_get_flag(s2.p, CARRY_BIT) == (s.a >= m)
        }),
{
    lemma_mask_facts();
    let m0 = spec_bus_read(s.mem, addr);
    let m = m0;
    assert((m ^ 0xff) == 0xff - m) by (bit_vector);
    let sum = s.a + (m ^ 0xff) + 1;
    let r = (sum % 0x100) as u8;
    let p1 = spec_set_flag(s.p, CARRY_BIT, sum >= 0x100);
    let ovf = (s.a ^ m) & 0x80 != 0 && (s.a ^ r) & 0x80 != 0;
    let p2 = spec_set_flag(p1, OVERFLOW_FLAG, ovf);
    lemma_get_set_same(s.p, CARRY_BIT, sum >= 0x100);
    lemma_get_set_other(p1, OVERFLOW_FLAG, CARRY_BIT, ovf);
    lemma_zn_flags(p2, r);
}

/// The state a non-faulting step leads to.
pub open spec fn spec_next(s: CpuView) -> CpuView {
    spec_step(s)->Stepped_next
}

/// The stack cell for any stack pointer lies in internal RAM, below the
/// mirror threshold.
proof fn lemma_stack_addr_ram(v: u8)
    by (bit_vector)
    ensures
        0x0100 | (v as u16) < 0x2000,
        0x0100 | (v as u16) < 0x0800,
        (0x0100 | (v as u16)) & 0x07ff == 0x0100 | (v as u16),
{
}

/// Distinct stack pointers name distinct RAM cells, mirrors included.
proof fn lemma_stack_addr_distinct(a: u8, b: u8)
    by (bit_vector)
    requires
        a != b,
    ensures
        (0x0100 | (a as u16)) & 0x07ff != (0x0100 | (b as u16)) & 0x07ff,
{
}

/// The dispatch-table rows the two-instruction laws rely on.
proof fn lemma_decode_rows()
    ensures
        spec_decode(0x08) == Some(Instr { op: Op::Php, mode: Mode::Implied, base: 3, page_penalty: false }),
        spec_decode(0x28) == Some(Instr { op: Op::Plp, mode: Mode::Implied, base: 4, page_penalty: false }),
        spec_decode(0x20) == Some(Instr { op: Op::Jsr, mode: Mode::Absolute, base: 6, page_penalty: false }),
        spec_decode(0x60) == Some(Instr { op: Op::Rts, mode: Mode::Implied, base: 6, page_penalty: false }),
{
    reveal(crate::isa::spec_decode);
}

/// What one step does when the opcode at PC is PHP ($08).
proof fn lemma_step_php(s: CpuView)
    requires
        !s.nmi_pending,
        !s.irq_line,
        spec_bus_read(s.mem, s.pc) == 0x08,
    ensures
        spec_step(s) == (StepResult::Stepped {
            next: spec_php(CpuView { pc: spec_wrap_add16(s.pc, 1), ..s }),
            cycles: 3nat,
        }),
{
    reveal(crate::isa::spec_step);
    lemma_decode_rows();
}

/// What one step does when the opcode at PC is PLP ($28).
proof fn lemma_step_plp(s: CpuView)
    requires
        !s.nmi_pending,
        !s.irq_line,
        spec_bus_read(s.mem, s.pc) == 0x28,
    ensures
        spec_step(s) == (StepResult::Stepped {
            next: spec_plp(CpuView { pc: spec_wrap_add16(s.pc, 1), ..s }),
            cycles: 4nat,
        }),
{
    reveal(crate::isa::spec_step);
    lemma_decode_rows();
}

/// What one step does when the opcode at PC is JSR ($20).
#[verifier::rlimit(100)]
proof fn lemma_step_jsr(s: CpuView)
    requires
        !s.nmi_pending,
        !s.irq_line,
        spec_bus_read(s.mem, s.pc) == 0x20,
    ensures
        spec_step(s) == (StepResult::Stepped {
            next: spec_jsr(
                CpuView { pc: spec_wrap_add16(spec_wrap_add16(s.pc, 1), 2), ..s },
                spec_bus_read_word(s.mem, spec_wrap_add16(s.pc, 1)),
            ),
            cycles: 6nat,
        }),
{
    reveal(crate::isa::spec_step);
    lemma_decode_rows();
}

/// What one step does when the opcode at PC is RTS ($60).
proof fn lemma_step_rts(s: CpuView)
    requires
        !s.nmi_pending,
        !s.irq_line,
        spec_bus_read(s.mem, s.pc) == 0x60,
    ensures
        spec_step(s) == (StepResult::Stepped {
            next: spec_rts(CpuView { pc: spec_wrap_add16(s.pc, 1), ..s }),
            cycles: 6nat,
        }),
{
    reveal(crate::isa::spec_step);
    lemma_decode_rows();
}

/// PHP followed immediately by PLP leaves the status byte unchanged. The
/// restriction on P's B and U bits excludes only status bytes no execution
/// reaches: reset forces B clear and U set, and every status write of the
/// machine preserves both.
#[verifier::rlimit(100)]
pub proof fn lemma_php_plp(s: CpuView)
    requires
        spec_cpu_wf(s),
        !s.nmi_pending,
        !s.irq_line,
        spec_bus_read(s.mem, s.pc) == 0x08,
        spec_bus_read(spec_next(s).mem, spec_next(s).pc) == 0x28,
        s.p & BREAK_FLAG == 0,
        s.p & UNUSED_FLAG != 0,
    ensures
        spec_step(s) is Stepped,
        spec_step(spec_next(s)) is Stepped,
        spec_next(spec_next(s)).p == s.p,
        spec_next(spec_next(s)).s == s.s,
{
    lemma_step_php(s);
    let n1 = spec_next(s);
    lemma_step_plp(n1);
    lemma_stack_addr_ram(s.s);
    lemma_ram_round_trip(s.mem, 0x0100 | (s.s as u16), (s.p | 0x30) as u8);
    assert(spec_inc8(spec_dec8(s.s)) == s.s);
    let pp = s.p;
    assert((((pp | 0x30) as u8 | 0x20) & 0xef) == pp) by (bit_vector)
        requires
            pp & 0x10u8 == 0,
            pp & 0x20u8 != 0,
    ;
}

/// JSR followed immediately by RTS resumes at the instruction after the
/// JSR's three-byte encoding, with the stack pointer restored.
#[verifier::rlimit(100)]
pub proof fn lemma_jsr_rts(s: CpuView)
    requires
        spec_cpu_wf(s),
        !s.nmi_pending,
        !s.irq_line,
        spec_bus_read(s.mem, s.pc) == 0x20,
        spec_bus_read(spec_next(s).mem, spec_next(s).pc) == 0x60,
    ensures
        spec_step(s) is Stepped,
        spec_step(spec_next(s)) is Stepped,
        spec_next(spec_next(s)).pc == spec_wrap_add16(s.pc, 3),
        spec_next(spec_next(s)).s == s.s,
{
    lemma_step_jsr(s);
    assert(spec_wrap_add16(spec_wrap_add16(s.pc, 1), 2) == spec_wrap_add16(s.pc, 3));
    let n1 = spec_next(s);
    lemma_step_rts(n1);
    let ret = spec_wrap_add16(spec_wrap_add16(s.pc, 3), 0xffff);
    assert(ret == (s.pc + 2) % 0x10000);
    let hi = (ret / 0x100) as u8;
    let lo = (ret % 0x100) as u8;
    let sd = spec_dec8(s.s);
    let a_hi = 0x0100 | (s.s as u16);
    let a_lo = 0x0100 | (sd as u16);
    lemma_stack_addr_ram(s.s);
    lemma_stack_addr_ram(sd);
    lemma_stack_addr_distinct(s.s, sd);
    let m1 = spec_bus_write(s.mem, a_hi, hi);
    assert(spec_mem_wf(m1));
    let m2 = spec_bus_write(m1, a_lo, lo);
    lemma_ram_round_trip(m1, a_lo, lo);
    lemma_ram_write_other(m1, a_lo, a_hi, lo);
    lemma_ram_round_trip(s.mem, a_hi, hi);
    assert(n1.mem == m2 && n1.s == spec_dec8(sd) && n1.pc == spec_bus_read_word(
        s.mem,
        spec_wrap_add16(s.pc, 1),
    ));
    assert(spec_inc8(spec_dec8(sd)) == sd);
    assert(spec_inc8(sd) == s.s);
    assert(spec_cpu_pull_val(n1) == lo);
    assert(spec_cpu_pull_val(spec_cpu_pull(n1)) == hi);
    assert(spec_cpu_pull_word_val(n1) == ret);
    let fin = spec_rts(CpuView { pc: spec_wrap_add16(n1.pc, 1), ..n1 });
    assert(fin.pc == spec_wrap_add16(ret, 1));
    assert(fin.pc == spec_wrap_add16(s.pc, 3));
    assert(fin.s == s.s);
}


/// After any instruction that leaves its result in the accumulator, Z holds
/// exactly when the accumulator is zero and N exactly when its bit 7 is set.
pub proof fn lemma_zn_tracks_accumulator(s: CpuView, op: Op, mode: Mode, addr: u16)
    requires
        op == Op::Lda || op == Op::And || op == Op::Eor || op == Op::Ora || op == Op::Adc || op
            == Op::Sbc || op == Op::Pla || op == Op::Txa || op == Op::Tya || ((op == Op::Asl || op
            == Op::Lsr || op == Op::Rol || op == Op::Ror) && mode is Accumulator),
    ensures
        ({
            let s2 = spec_apply(s, op, mode, addr).0;
            &&& spec_get_flag(s2.p, ZERO_FLAG) == (s2.a == 0)
            &&& spec_get_flag(s2.p, NEGATIVE_FLAG) == (s2.a & 0x80 != 0)
        }),
{
    let s2 = spec_apply(s, op, mode, addr).0;
    lemma_zn_flags(s.p, s2.a);
    lemma_zn_flags(spec_set_flag(s.p, CARRY_BIT, s.a & 0x80 != 0), s2.a);
    lemma_zn_flags(spec_set_flag(s.p, CARRY_BIT, s.a & 1 != 0), s2.a);
    lemma_zn_flags(spec_cpu_pull(s).p, s2.a);
    if op == Op::Adc || op == Op::Sbc {
        let m = spec_bus_read(s.mem, addr);
        let m2 = if op == Op::Adc {
            m
        } else {
            (m ^ 0xff) as u8
        };
        let sum = s.a + m2 + if spec_get_flag(s.p, CARRY_BIT) {
            1int
        } else {
            0int
        };
        let r = (sum % 0x100) as u8;
        let p1 = spec_set_flag(s.p, CARRY_BIT, sum >= 0x100);
        let ovf1 = (s.a ^ m) & 0x80 == 0 && (s.a ^ r) & 0x80 != 0;
        let ovf2 = (s.a ^ m) & 0x80 != 0 && (s.a ^ r) & 0x80 != 0;
        lemma_zn_flags(spec_set_flag(p1, OVERFLOW_FLAG, ovf1), r);
        lemma_zn_flags(spec_set_flag(p1, OVERFLOW_FLAG, ovf2), r);
    }
}

/// After any instruction that leaves its result in the X register, Z and N
/// describe that register.
pub proof fn lemma_zn_tracks_x(s: CpuView, op: Op, mode: Mode, addr: u16)
    requires
        op == Op::Ldx || op == Op::Tax || op == Op::Tsx || op == Op::Inx || op == Op::Dex,
    ensures
        ({
            let s2 = spec_apply(s, op, mode, addr).0;
            &&& spec_get_flag(s2.p, ZERO_FLAG) == (s2.x == 0)
            &&& spec_get_flag(s2.p, NEGATIVE_FLAG) == (s2.x & 0x80 != 0)
        }),
{
    let s2 = spec_apply(s, op, mode, addr).0;
    lemma_zn_flags(s.p, s2.x);
}

/// After any instruction that leaves its result in the Y register, Z and N
/// describe that register.
pub proof fn lemma_zn_tracks_y(s: CpuView, op: Op, mode: Mode, addr: u16)
    requires
        op == Op::Ldy || op == Op::Tay || op == Op::Iny || op == Op::Dey,
    ensures
        ({
            let s2 = spec_apply(s, op, mode, addr).0;
            &&& spec_get_flag(s2.p, ZERO_FLAG) == (s2.y == 0)
            &&& spec_get_flag(s2.p, NEGATIVE_FLAG) == (s2.y & 0x80 != 0)
        }),
{
    let s2 = spec_apply(s, op, mode, addr).0;
    lemma_zn_flags(s.p, s2.y);
}

/// After a read-modify-write instruction on an internal-RAM address, Z and N
/// describe the byte the instruction left at that address.
#[verifier::rlimit(100)]
pub proof fn lemma_zn_tracks_memory_result(s: CpuView, op: Op, mode: Mode, addr: u16)
    requires
        spec_cpu_wf(s),
        addr < 0x2000,
        !(mode is Accumulator),
        op == Op::Asl || op == Op::Lsr || op == Op::Rol || op == Op::Ror || op == Op::Inc || op
            == Op::Dec,
    ensures
        ({
            let s2 = spec_apply(s, op, mode, addr).0;
            &&& spec_get_flag(s2.p, ZERO_FLAG) == (spec_bus_read(s2.mem, addr) == 0)
            &&& spec_get_flag(s2.p, NEGATIVE_FLAG) == (spec_bus_read(s2.mem, addr) & 0x80 != 0)
        }),
{
    let v = spec_bus_read(s.mem, addr);
    let carry = spec_get_flag(s.p, CARRY_BIT);
    if op == Op::Asl {
        let w = spec_shl_val(v, false);
        lemma_ram_round_trip(s.mem, addr, w);
        lemma_zn_flags(spec_set_flag(s.p, CARRY_BIT, v & 0x80 != 0), w);
    } else if op == Op::Rol {
        let w = spec_shl_val(v, carry);
        lemma_ram_round_trip(s.mem, addr, w);
        lemma_zn_flags(spec_set_flag(s.p, CARRY_BIT, v & 0x80 != 0), w);
    } else if op == Op::Lsr {
        let w = spec_shr_val(v, false);
        lemma_ram_round_trip(s.mem, addr, w);
        lemma_zn_flags(spec_set_flag(s.p, CARRY_BIT, v & 1 != 0), w);
    } else if op == Op::Ror {
        let w = spec_shr_val(v, carry);
        lemma_ram_round_trip(s.mem, addr, w);
        lemma_zn_flags(spec_set_flag(s.p, CARRY_BIT, v & 1 != 0), w);
    } else if op == Op::Inc {
        let w = spec_inc8(v);
        lemma_ram_round_trip(s.mem, addr, w);
        lemma_zn_flags(s.p, w);
    } else {
        let w = spec_dec8(v);
        lemma_ram_round_trip(s.mem, addr, w);
        lemma_zn_flags(s.p, w);
    }
}


/// The cycle accounting of every decoded instruction: what a step returns
/// is the dispatch table's base count, plus one when the table marks the
/// opcode page-cross sensitive and the resolved address crossed a page,
/// plus the penalty a taken branch reports.
#[verifier::rlimit(100)]
pub proof fn lemma_cycle_accounting(s: CpuView)
    requires
        !s.nmi_pending,
        !(s.irq_line && !spec_get_flag(s.p, INTERRUPT_FLAG)),
        spec_decode(spec_bus_read(s.mem, s.pc)) is Some,
    ensures
        ({
            let ins = spec_decode(spec_bus_read(s.mem, s.pc))->Some_0;
            let s1 = CpuView { pc: spec_wrap_add16(s.pc, 1), ..s };
            let rr = spec_resolve(s1.mem, s1.pc, s1.x, s1.y, ins.mode);
            let ap = spec_apply(CpuView { pc: rr.pc, ..s1 }, ins.op, ins.mode, rr.addr);
            spec_step(s) == (StepResult::Stepped {
                next: ap.0,
                cycles: (ins.base + if ins.page_penalty && rr.crossed {
                    1int
                } else {
                    0int
                } + ap.1) as nat,
            })
        }),
{
    reveal(crate::isa::spec_step);
}

} // verus!
