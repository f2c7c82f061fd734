use vstd::prelude::*;

verus! {

/// The processor status held as one boolean per flag, with `value` giving the
/// byte encoding that the stack sees. Bit positions are fixed by the 6502
/// ISA: C=0, Z=1, I=2, B=4, V=6, N=7.
#[derive(Default, Debug)]
pub struct Status {
    /// (C) carry flag
    pub carry_flag: bool,
    /// (Z) zero flag
    pub zero_flag: bool,
    /// (I) interrupt-disable flag
    pub interrupt_flag: bool,
    /// (B) break flag, only meaningful on pushed copies
    pub break_flag: bool,
    /// (V) overflow flag
    pub overflow_flag: bool,
    /// (N) negative flag
    pub negative_flag: bool,
}

impl Status {
    /// All flags clear.
    pub fn new() -> (r: Status)
        ensures
            !r.carry_flag,
            !r.zero_flag,
            !r.interrupt_flag,
            !r.break_flag,
            !r.overflow_flag,
            !r.negative_flag,
    {
        Status {
            carry_flag: false,
            zero_flag: false,
            interrupt_flag: false,
            break_flag: false,
            overflow_flag: false,
            negative_flag: false,
        }
    }

    /// N is set exactly when bit 7 of the result is set.
    pub fn set_negative(&mut self, value: u8)
        ensures
            final(self).negative_flag == (value & 0x80 != 0),
            final(self).carry_flag == old(self).carry_flag,
            final(self).zero_flag == old(self).zero_flag,
            final(self).interrupt_flag == old(self).interrupt_flag,
            final(self).break_flag == old(self).break_flag,
            final(self).overflow_flag == old(self).overflow_flag,
    {
        self.negative_flag = (value & 0x80) != 0;
    }

    /// Z is set exactly when the result is zero.
    pub fn set_zero(&mut self, value: u8)
        ensures
            final(self).zero_flag == (value == 0),
            final(self).carry_flag == old(self).carry_flag,
            final(self).interrupt_flag == old(self).interrupt_flag,
            final(self).break_flag == old(self).break_flag,
            final(self).overflow_flag == old(self).overflow_flag,
            final(self).negative_flag == old(self).negative_flag,
    {
        self.zero_flag = value == 0;
    }

    pub fn set_carry(&mut self, value: bool)
        ensures
            final(self).carry_flag == value,
            final(self).zero_flag == old(self).zero_flag,
            final(self).interrupt_flag == old(self).interrupt_flag,
            final(self).break_flag == old(self).break_flag,
            final(self).overflow_flag == old(self).overflow_flag,
            final(self).negative_flag == old(self).negative_flag,
    {
        self.carry_flag = value;
    }

    /// The byte encoding of the flags, one bit per flag at its ISA position.
    pub fn value(&self) -> (r: u8)
        ensures
            r == self.spec_value(),
    {
        let mut value: u8 = 0;
        if self.carry_flag {
            value = value + 0x01;
        }
        if self.zero_flag {
            value = value + 0x02;
        }
        if self.interrupt_flag {
            value = value + 0x04;
        }
        if self.break_flag {
            value = value + 0x10;
        }
        if self.overflow_flag {
            value = value + 0x40;
        }
        if self.negative_flag {
            value = value + 0x80;
        }
        value
    }

    /// The byte encoding as a sum of the set bits' weights.
    pub open spec fn spec_value(&self) -> u8 {
        (if self.carry_flag { 0x01u8 } else { 0u8 }
        + if self.zero_flag { 0x02u8 } else { 0u8 }
        + if self.interrupt_flag { 0x04u8 } else { 0u8 }
        + if self.break_flag { 0x10u8 } else { 0u8 }
        + if self.overflow_flag { 0x40u8 } else { 0u8 }
        + if self.negative_flag { 0x80u8 } else { 0u8 }) as u8
    }
}

} // verus!
