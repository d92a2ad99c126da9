//! The arithmetic/logic unit. Each operation returns its result and writes
//! a freshly computed flag byte to `F`; no other register changes.
use vstd::prelude::*;
use crate::cpu::{Cpu, CpuView};
use crate::regs::{flag_bits, lemma_flag_bits, make_flags, Reg, FLAG_C, FLAG_N, FLAG_Z};

verus! {

/// 1 when the carry flag of `f` is set, else 0.
pub open spec fn carry_in(f: u8) -> u8 {
    if f & FLAG_C != 0 {
        1
    } else {
        0
    }
}

/// The 8-bit sum, wrapping.
pub open spec fn add8(a: u8, b: u8) -> u8 {
    ((a + b) % 256) as u8
}

/// Flags of `add8`: half-carry out of bit 3, carry out of bit 7.
pub open spec fn add8_flags(a: u8, b: u8) -> u8 {
    flag_bits(add8(a, b) == 0, false, a % 16 + b % 16 >= 16, a + b >= 256)
}

/// The 16-bit sum, wrapping.
pub open spec fn add16(a: u16, b: u16) -> u16 {
    ((a + b) % 65536) as u16
}

/// Flags of `add16`: half-carry out of bit 11, carry out of bit 15.
pub open spec fn add16_flags(a: u16, b: u16) -> u8 {
    flag_bits(add16(a, b) == 0, false, a % 4096 + b % 4096 >= 4096, a + b >= 65536)
}

/// Addition with the incoming carry `cin` (0 or 1) added after `a + b`.
pub open spec fn adc8(a: u8, b: u8, cin: u8) -> u8 {
    ((a + b + cin) % 256) as u8
}

/// The half-carry comes from `a + b`; the carry from either addition.
pub open spec fn adc8_flags(a: u8, b: u8, cin: u8) -> u8 {
    flag_bits(adc8(a, b, cin) == 0, false, a % 16 + b % 16 >= 16, a + b + cin >= 256)
}

/// The 8-bit difference, wrapping.
pub open spec fn sub8(a: u8, b: u8) -> u8 {
    ((a - b + 256) % 256) as u8
}

/// `C` and `H` are set when no borrow, or no half-borrow, occurred.
pub open spec fn sub8_flags(a: u8, b: u8) -> u8 {
    flag_bits(sub8(a, b) == 0, true, a % 16 >= b % 16, a >= b)
}

/// Subtraction with the incoming carry `cin` (0 or 1) taken off after
/// `a - b`.
pub open spec fn sbc8(a: u8, b: u8, cin: u8) -> u8 {
    ((a - b - cin + 512) % 256) as u8
}

/// Flags of `sbc8`: `C` is set when `a` covers `b` and the carry taken off.
pub open spec fn sbc8_flags(a: u8, b: u8, cin: u8) -> u8 {
    flag_bits(sbc8(a, b, cin) == 0, true, a % 16 >= b % 16, a >= b + cin)
}

/// The flags of the bitwise operations: `Z` from the result, `H` as given.
pub open spec fn logic_flags(r: u8, h: bool) -> u8 {
    flag_bits(r == 0, false, h, false)
}

/// The flags of the rotates and shifts: `Z` from the result, `C` as given.
pub open spec fn shift_flags(r: u8, c: bool) -> u8 {
    flag_bits(r == 0, false, false, c)
}

/// Rotate left: bit 7 comes round to bit 0.
pub open spec fn rlc8(a: u8) -> u8 {
    ((a % 128) * 2 + a / 128) as u8
}

/// Rotate right: bit 0 comes round to bit 7.
pub open spec fn rrc8(a: u8) -> u8 {
    (a / 2 + (a % 2) * 128) as u8
}

/// Rotate left with `cin` (0 or 1) entering bit 0.
pub open spec fn rl8(a: u8, cin: u8) -> u8 {
    ((a % 128) * 2 + cin) as u8
}

/// Rotate right with `cin` (0 or 1) entering bit 7.
pub open spec fn rr8(a: u8, cin: u8) -> u8 {
    (a / 2 + cin * 128) as u8
}

/// Shift left, bit 0 cleared.
pub open spec fn sla8(a: u8) -> u8 {
    ((a % 128) * 2) as u8
}

/// Shift right, the sign bit kept.
pub open spec fn sra8(a: u8) -> u8 {
    (a / 2 + (a / 128) * 128) as u8
}

/// Shift right, bit 7 cleared.
pub open spec fn srl8(a: u8) -> u8 {
    (a / 2) as u8
}

/// The two nibbles swapped.
pub open spec fn swap8(a: u8) -> u8 {
    ((a % 16) * 16 + a / 16) as u8
}

/// Whether bit `bit` of `a` is set.
pub open spec fn bit_set(a: u8, bit: u8) -> bool {
    a & (1u8 << bit) != 0
}

/// `Z` tells a clear bit, `H` is set, `N` and `C` are kept from `f`.
pub open spec fn bit_flags(a: u8, bit: u8, f: u8) -> u8 {
    flag_bits(!bit_set(a, bit), f & FLAG_N != 0, true, f & FLAG_C != 0)
}

/// `a` with bit `bit` cleared.
pub open spec fn res8(a: u8, bit: u8) -> u8 {
    a & !(1u8 << bit)
}

/// `a` with bit `bit` set.
pub open spec fn set8(a: u8, bit: u8) -> u8 {
    a | (1u8 << bit)
}

/// The 8-bit sum wraps; `C` is set exactly when `a + b` reaches 256 and `Z`
/// exactly when the sum is zero.
pub proof fn lemma_add8(a: u8, b: u8)
    ensures
        add8(a, b) == (a + b) % 256,
        (add8_flags(a, b) & FLAG_C != 0) == (a + b >= 256),
        (add8_flags(a, b) & FLAG_Z != 0) == (add8(a, b) == 0),
        add8_flags(a, b) & FLAG_N == 0,
{
    lemma_flag_bits(add8(a, b) == 0, false, a % 16 + b % 16 >= 16, a + b >= 256);
}

/// The circular rotates undo each other.
pub proof fn lemma_rotate_inverse(a: u8)
    ensures
        rlc8(rrc8(a)) == a,
        rrc8(rlc8(a)) == a,
{
}

/// Swapping the nibbles twice gives the byte back.
pub proof fn lemma_swap_involution(a: u8)
    ensures
        swap8(swap8(a)) == a,
{
}

impl Cpu {
    /// The carry flag as 0 or 1.
    fn carry(&self) -> (r: u8)
        ensures
            r == carry_in(self@.f),
    {
        if self.read_reg(Reg::F) & FLAG_C != 0 {
            1
        } else {
            0
        }
    }

    /// 8-bit addition.
    pub fn alu_add(&mut self, a: u8, b: u8) -> (r: u8)
        ensures
            r == add8(a, b),
            final(self)@ == old(self)@.set_flags(add8_flags(a, b)),
    {
        let res = a.wrapping_add(b);
        let half_carry = a % 16 + b % 16 >= 16;
        let carry = a as u16 + b as u16 >= 256;
        self.write_reg(Reg::F, make_flags(res == 0, false, half_carry, carry));
        res
    }

    /// 16-bit addition.
    pub fn alu_wideadd(&mut self, a: u16, b: u16) -> (r: u16)
        ensures
            r == add16(a, b),
            final(self)@ == old(self)@.set_flags(add16_flags(a, b)),
    {
        let res = a.wrapping_add(b);
        let half_carry = a % 4096 + b % 4096 >= 4096;
        let carry = a as u32 + b as u32 >= 65536;
        self.write_reg(Reg::F, make_flags(res == 0, false, half_carry, carry));
        res
    }

    /// 8-bit addition plus the carry flag.
    pub fn alu_adc(&mut self, a: u8, b: u8) -> (r: u8)
        ensures
            r == adc8(a, b, carry_in(old(self)@.f)),
            final(self)@ == old(self)@.set_flags(adc8_flags(a, b, carry_in(old(self)@.f))),
    {
        let cin = self.carry();
        let sum = a as u16 + b as u16 + cin as u16;
        let res = (sum % 256) as u8;
        let half_carry = a % 16 + b % 16 >= 16;
        self.write_reg(Reg::F, make_flags(res == 0, false, half_carry, sum >= 256));
        res
    }

    /// 8-bit subtraction.
    pub fn alu_sub(&mut self, a: u8, b: u8) -> (r: u8)
        ensures
            r == sub8(a, b),
            final(self)@ == old(self)@.set_flags(sub8_flags(a, b)),
    {
        let res = a.wrapping_sub(b);
        self.write_reg(Reg::F, make_flags(res == 0, true, a % 16 >= b % 16, a >= b));
        res
    }

    /// 8-bit subtraction of `b` and of the carry flag.
    pub fn alu_sbc(&mut self, a: u8, b: u8) -> (r: u8)
        ensures
            r == sbc8(a, b, carry_in(old(self)@.f)),
            final(self)@ == old(self)@.set_flags(sbc8_flags(a, b, carry_in(old(self)@.f))),
    {
        let cin = self.carry();
        let res = a.wrapping_sub(b).wrapping_sub(cin);
        let no_borrow = a as u16 >= b as u16 + cin as u16;
        self.write_reg(Reg::F, make_flags(res == 0, true, a % 16 >= b % 16, no_borrow));
        res
    }

    /// Bitwise AND.
    pub fn alu_and(&mut self, a: u8, b: u8) -> (r: u8)
        ensures
            r == a & b,
            final(self)@ == old(self)@.set_flags(logic_flags(a & b, true)),
    {
        let res = a & b;
        self.write_reg(Reg::F, make_flags(res == 0, false, true, false));
        res
    }

    /// Bitwise OR.
    pub fn alu_or(&mut self, a: u8, b: u8) -> (r: u8)
        ensures
            r == a | b,
            final(self)@ == old(self)@.set_flags(logic_flags(a | b, false)),
    {
        let res = a | b;
        self.write_reg(Reg::F, make_flags(res == 0, false, false, false));
        res
    }

    /// Bitwise exclusive OR.
    pub fn alu_xor(&mut self, a: u8, b: u8) -> (r: u8)
        ensures
            r == a ^ b,
            final(self)@ == old(self)@.set_flags(logic_flags(a ^ b, false)),
    {
        let res = a ^ b;
        self.write_reg(Reg::F, make_flags(res == 0, false, false, false));
        res
    }

    /// Rotates left; bit 7 goes round to bit 0 and to the carry.
    pub fn alu_rlc(&mut self, a: u8) -> (r: u8)
        ensures
            r == rlc8(a),
            final(self)@ == old(self)@.set_flags(shift_flags(rlc8(a), a >= 128)),
    {
        let res = (a % 128) * 2 + a / 128;
        self.write_reg(Reg::F, make_flags(res == 0, false, false, a >= 128));
        res
    }

    /// Rotates right; bit 0 goes round to bit 7 and to the carry.
    pub fn alu_rrc(&mut self, a: u8) -> (r: u8)
        ensures
            r == rrc8(a),
            final(self)@ == old(self)@.set_flags(shift_flags(rrc8(a), a % 2 == 1)),
    {
        let res = a / 2 + (a % 2) * 128;
        self.write_reg(Reg::F, make_flags(res == 0, false, false, a % 2 == 1));
        res
    }

    /// Rotates left through the carry: the carry enters bit 0, bit 7 leaves
    /// to the carry.
    pub fn alu_rl(&mut self, a: u8) -> (r: u8)
        ensures
            r == rl8(a, carry_in(old(self)@.f)),
            final(self)@ == old(self)@.set_flags(
                shift_flags(rl8(a, carry_in(old(self)@.f)), a >= 128),
            ),
    {
        let cin = self.carry();
        let res = (a % 128) * 2 + cin;
        self.write_reg(Reg::F, make_flags(res == 0, false, false, a >= 128));
        res
    }

    /// Rotates right through the carry: the carry enters bit 7, bit 0
    /// leaves to the carry.
    pub fn alu_rr(&mut self, a: u8) -> (r: u8)
        ensures
            r == rr8(a, carry_in(old(self)@.f)),
            final(self)@ == old(self)@.set_flags(
                shift_flags(rr8(a, carry_in(old(self)@.f)), a % 2 == 1),
            ),
    {
        let cin = self.carry();
        let res = a / 2 + cin * 128;
        self.write_reg(Reg::F, make_flags(res == 0, false, false, a % 2 == 1));
        res
    }

    /// Shifts left; bit 0 becomes 0, bit 7 goes to the carry.
    pub fn alu_sla(&mut self, a: u8) -> (r: u8)
        ensures
            r == sla8(a),
            final(self)@ == old(self)@.set_flags(shift_flags(sla8(a), a >= 128)),
    {
        let res = (a % 128) * 2;
        self.write_reg(Reg::F, make_flags(res == 0, false, false, a >= 128));
        res
    }

    /// Shifts right keeping the sign bit; bit 0 goes to the carry.
    pub fn alu_sra(&mut self, a: u8) -> (r: u8)
        ensures
            r == sra8(a),
            final(self)@ == old(self)@.set_flags(shift_flags(sra8(a), a % 2 == 1)),
    {
        let res = a / 2 + (a / 128) * 128;
        self.write_reg(Reg::F, make_flags(res == 0, false, false, a % 2 == 1));
        res
    }

    /// Swaps the two nibbles.
    pub fn alu_swap(&mut self, a: u8) -> (r: u8)
        ensures
            r == swap8(a),
            final(self)@ == old(self)@.set_flags(logic_flags(swap8(a), false)),
    {
        let res = (a % 16) * 16 + a / 16;
        self.write_reg(Reg::F, make_flags(res == 0, false, false, false));
        res
    }

    /// Shifts right; bit 7 becomes 0, bit 0 goes to the carry.
    pub fn alu_srl(&mut self, a: u8) -> (r: u8)
        ensures
            r == srl8(a),
            final(self)@ == old(self)@.set_flags(shift_flags(srl8(a), a % 2 == 1)),
    {
        let res = a / 2;
        self.write_reg(Reg::F, make_flags(res == 0, false, false, a % 2 == 1));
        res
    }

    /// Tests bit `bit` of `a`; only the flags change.
    pub fn alu_bit(&mut self, a: u8, bit: u8)
        requires
            bit < 8,
        ensures
            final(self)@ == old(self)@.set_flags(bit_flags(a, bit, old(self)@.f)),
    {
        let f = self.read_reg(Reg::F);
        let clear = a & (1u8 << bit) == 0;
        self.write_reg(Reg::F, make_flags(clear, f & FLAG_N != 0, true, f & FLAG_C != 0));
    }

    /// Clears bit `bit` of `a`; the flags do not change.
    pub fn alu_res(&mut self, a: u8, bit: u8) -> (r: u8)
        requires
            bit < 8,
        ensures
            r == res8(a, bit),
            final(self)@ == old(self)@,
    {
        a & !(1u8 << bit)
    }

    /// Sets bit `bit` of `a`; the flags do not change.
    pub fn alu_set(&mut self, a: u8, bit: u8) -> (r: u8)
        requires
            bit < 8,
        ensures
            r == set8(a, bit),
            final(self)@ == old(self)@,
    {
        a | (1u8 << bit)
    }
}

} // verus!
