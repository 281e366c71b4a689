use vstd::prelude::*;

verus! {

/// Value of a register pair whose high byte is `high` and low byte `low`.
pub open spec fn pair_value(high: u8, low: u8) -> nat {
    high as nat * 256 + low as nat
}

/// High byte of a 16-bit value.
pub open spec fn high_byte(v: nat) -> u8 {
    ((v / 256) % 256) as u8
}

/// Low byte of a 16-bit value.
pub open spec fn low_byte(v: nat) -> u8 {
    (v % 256) as u8
}

/// Splitting a 16-bit value into its bytes and composing them again gives it back.
pub proof fn lemma_split_compose(v: nat)
    requires
        v < 0x10000,
    ensures
        pair_value(high_byte(v), low_byte(v)) == v,
{
}

/// Composing two bytes and splitting the result gives them back.
pub proof fn lemma_compose_split(high: u8, low: u8)
    ensures
        pair_value(high, low) < 0x10000,
        high_byte(pair_value(high, low)) == high,
        low_byte(pair_value(high, low)) == low,
{
}

/// The eight 8-bit registers and the two 16-bit ones.
/// BC, DE and HL are views of two byte registers each, high byte first.
#[derive(Clone, Copy, Debug, PartialEq, Eq, Structural)]
pub struct Reg {
    pub a: u8,
    pub b: u8,
    pub c: u8,
    pub d: u8,
    pub e: u8,
    pub f: u8,
    pub h: u8,
    pub l: u8,
    pub pc: u16,
    pub sp: u16,
}

impl Reg {
    pub open spec fn bc(self) -> nat {
        pair_value(self.b, self.c)
    }

    pub open spec fn de(self) -> nat {
        pair_value(self.d, self.e)
    }

    pub open spec fn hl(self) -> nat {
        pair_value(self.h, self.l)
    }

    /// These registers with HL set to the 16-bit value `v`.
    pub open spec fn with_hl(self, v: nat) -> Reg {
        Reg { h: high_byte(v), l: low_byte(v), ..self }
    }

    pub open spec fn incremented_hl(self) -> Reg {
        self.with_hl((self.hl() + 1) % 0x10000)
    }

    pub open spec fn decremented_hl(self) -> Reg {
        self.with_hl((self.hl() + 0xFFFF) % 0x10000)
    }

    /// All registers zero.
    pub fn new() -> (r: Reg)
        ensures
            r == (Reg { a: 0, b: 0, c: 0, d: 0, e: 0, f: 0, h: 0, l: 0, pc: 0, sp: 0 }),
    {
        Reg { a: 0, b: 0, c: 0, d: 0, e: 0, f: 0, h: 0, l: 0, pc: 0, sp: 0 }
    }

    pub fn bc_address(&self) -> (r: usize)
        ensures
            r == self.bc(),
    {
        self.b as usize * 256 + self.c as usize
    }

    pub fn de_address(&self) -> (r: usize)
        ensures
            r == self.de(),
    {
        self.d as usize * 256 + self.e as usize
    }

    pub fn hl_address(&self) -> (r: usize)
        ensures
            r == self.hl(),
    {
        self.h as usize * 256 + self.l as usize
    }

    /// Subtracts one from HL as a 16-bit value, 0x0000 wrapping to 0xFFFF.
    pub fn decrement_hl(&mut self)
        ensures
            *final(self) == old(self).decremented_hl(),
    {
        let long: u16 = (self.h as u16 * 256 + self.l as u16).wrapping_sub(1);
        self.l = (long % 256) as u8;
        self.h = (long / 256) as u8;
    }

    /// Adds one to HL as a 16-bit value, 0xFFFF wrapping to 0x0000.
    pub fn increment_hl(&mut self)
        ensures
            *final(self) == old(self).incremented_hl(),
    {
        let long: u16 = (self.h as u16 * 256 + self.l as u16).wrapping_add(1);
        self.l = (long % 256) as u8;
        self.h = (long / 256) as u8;
    }
}

/// Incrementing HL undoes decrementing it and the other way round; at the
/// ends of the 16-bit range both wrap around.
pub proof fn lemma_hl_step_inverse(reg: Reg)
    ensures
        reg.decremented_hl().incremented_hl() == reg,
        reg.incremented_hl().decremented_hl() == reg,
        reg.hl() == 0xFFFF ==> reg.incremented_hl().hl() == 0,
        reg.hl() == 0 ==> reg.decremented_hl().hl() == 0xFFFF,
{
    let x = reg.hl();
    lemma_compose_split(reg.h, reg.l);
    let down = (x + 0xFFFF) % 0x10000;
    let up = (x + 1) % 0x10000;
    lemma_split_compose(down);
    lemma_split_compose(up);
    assert(reg.decremented_hl().hl() == down);
    assert(reg.incremented_hl().hl() == up);
    assert((down + 1) % 0x10000 == x);
    assert((up + 0xFFFF) % 0x10000 == x);
}

/// Width of the operation whose result a carry is judged on.
#[derive(Clone, Copy, Debug, PartialEq, Eq, Structural)]
pub enum OperationType {
    B8,
    B16,
}

/// Largest result of an operation of the given width that does not carry.
pub open spec fn width_max(op_type: OperationType) -> nat {
    match op_type {
        OperationType::B8 => 0xFF,
        OperationType::B16 => 0xFFFF,
    }
}

/// Bit `i` of `v`.
pub open spec fn bit(v: nat, i: nat) -> bool {
    (v / vstd::arithmetic::power2::pow2(i)) % 2 == 1
}

/// The four condition flags: zero, subtract, half carry, carry.
#[derive(Clone, Copy, Debug, PartialEq, Eq, Structural)]
pub struct Flag {
    pub z: bool,
    pub n: bool,
    pub h: bool,
    pub c: bool,
}

impl Flag {
    /// All flags clear.
    pub fn new() -> (r: Flag)
        ensures
            r == (Flag { z: false, n: false, h: false, c: false }),
    {
        Flag { z: false, n: false, h: false, c: false }
    }

    pub fn set_zero_flag(&mut self)
        ensures
            *final(self) == (Flag { z: true, ..*old(self) }),
    {
        self.z = true;
    }

    pub fn clear_zero_flag(&mut self)
        ensures
            *final(self) == (Flag { z: false, ..*old(self) }),
    {
        self.z = false;
    }

    /// Z is set exactly when the low eight bits of `result` are zero.
    pub fn adjust_zero_flag(&mut self, result: u16)
        ensures
            *final(self) == (Flag { z: result % 256 == 0, ..*old(self) }),
    {
        self.z = result % 256 == 0;
    }

    /// C is set exactly when `result` does not fit the operation's width.
    pub fn adjust_carry_flag(&mut self, result: u32, op_type: OperationType)
        ensures
            *final(self) == (Flag { c: result > width_max(op_type), ..*old(self) }),
    {
        match op_type {
            OperationType::B8 => {
                self.c = result > 0xFF;
            },
            OperationType::B16 => {
                self.c = result > 0xFFFF;
            },
        }
    }

    /// H is set exactly when bit 3 of `input` and bit 4 of `result` are both set.
    pub fn adjust_half_carry_flag(&mut self, input: u8, result: u32)
        ensures
            *final(self) == (Flag { h: bit(input as nat, 3) && bit(result as nat, 4), ..*old(self) }),
    {
        proof {
            vstd::arithmetic::power2::lemma2_to64();
            assert(input & 0x8 != 0 <==> (input / 8) % 2 == 1) by (bit_vector);
            assert(result & 0x10 != 0 <==> (result / 16) % 2 == 1) by (bit_vector);
        }
        self.h = input & 0x8 != 0 && result & 0x10 != 0;
    }

    pub fn set_subtract_flag(&mut self)
        ensures
            *final(self) == (Flag { n: true, ..*old(self) }),
    {
        self.n = true;
    }

    pub fn clear_subtract_flag(&mut self)
        ensures
            *final(self) == (Flag { n: false, ..*old(self) }),
    {
        self.n = false;
    }
}

} // verus!
