use vstd::prelude::*;

verus! {

/// An 8-bit register that an instruction names as operand.
#[derive(Clone, Copy, Debug, PartialEq, Eq, Structural)]
pub enum Reg8 {
    A,
    B,
    C,
    D,
    E,
    H,
    L,
}

/// A register pair, high register first.
#[derive(Clone, Copy, Debug, PartialEq, Eq, Structural)]
pub enum Pair {
    BC,
    DE,
    HL,
}

/// One decoded instruction: its operation and operands, fixed by the opcode byte.
#[derive(Clone, Copy, Debug, PartialEq, Eq, Structural)]
pub enum Instruction {
    /// `LD r, r'`
    LoadRegister { dst: Reg8, src: Reg8 },
    /// `LD r, n`
    LoadImmediate { dst: Reg8 },
    /// `LD r, (HL)`
    LoadFromHl { dst: Reg8 },
    /// `LD (HL), r`
    StoreToHl { src: Reg8 },
    /// `LD (HL), n`
    StoreImmediateToHl,
    /// `LD A, (BC)` / `LD A, (DE)`
    LoadAFromPair { pair: Pair },
    /// `LD (BC), A` / `LD (DE), A`
    StoreAToPair { pair: Pair },
    /// `LD A, (nn)`
    LoadAFromAbsolute,
    /// `LD (nn), A`
    StoreAToAbsolute,
    /// `LD A, (0xFF00 + C)`
    LoadAFromIoC,
    /// `LD (0xFF00 + C), A`
    StoreAToIoC,
    /// `LD A, (0xFF00 + n)`
    LoadAFromIoImmediate,
    /// `LD (0xFF00 + n), A`
    StoreAToIoImmediate,
    /// `LD A, (HL+)`
    LoadAFromHlIncrement,
    /// `LD A, (HL-)`
    LoadAFromHlDecrement,
    /// `LD (HL+), A`
    StoreAToHlIncrement,
    /// `LD (HL-), A`
    StoreAToHlDecrement,
    /// `LD rr, nn` for BC, DE and HL
    LoadPairImmediate { pair: Pair },
    /// `LD SP, nn`
    LoadSpImmediate,
    /// `LD SP, HL`
    LoadSpFromHl,
    /// `LD HL, SP + n`
    LoadHlFromSpOffset,
    /// `LD (nn), SP`
    StoreSpToAbsolute,
    /// `PUSH rr` for BC, DE and HL
    Push { pair: Pair },
    /// `PUSH AF`
    PushAf,
}

/// The register that bits 0..2 (or 3..5) of a load opcode name; 6 is `(HL)`
/// and has no register.
pub open spec fn reg8_of(code: int) -> Option<Reg8> {
    if code == 0 {
        Some(Reg8::B)
    } else if code == 1 {
        Some(Reg8::C)
    } else if code == 2 {
        Some(Reg8::D)
    } else if code == 3 {
        Some(Reg8::E)
    } else if code == 4 {
        Some(Reg8::H)
    } else if code == 5 {
        Some(Reg8::L)
    } else if code == 7 {
        Some(Reg8::A)
    } else {
        None
    }
}

/// The decode table: which instruction each opcode byte stands for.
#[verifier::opaque]
pub open spec fn decode_spec(opcode: u8) -> Option<Instruction> {
    if 0x40 <= opcode < 0x80 && opcode != 0x76 {
        let dst = reg8_of((opcode - 0x40) / 8);
        let src = reg8_of(opcode as int % 8);
        if dst is Some && src is Some {
            Some(Instruction::LoadRegister { dst: dst->0, src: src->0 })
        } else if dst is Some {
            Some(Instruction::LoadFromHl { dst: dst->0 })
        } else {
            Some(Instruction::StoreToHl { src: src->0 })
        }
    } else {
        match opcode {
            0x06 => Some(Instruction::LoadImmediate { dst: Reg8::B }),
            0x0E => Some(Instruction::LoadImmediate { dst: Reg8::C }),
            0x16 => Some(Instruction::LoadImmediate { dst: Reg8::D }),
            0x1E => Some(Instruction::LoadImmediate { dst: Reg8::E }),
            0x26 => Some(Instruction::LoadImmediate { dst: Reg8::H }),
            0x2E => Some(Instruction::LoadImmediate { dst: Reg8::L }),
            0x3E => Some(Instruction::LoadImmediate { dst: Reg8::A }),
            0x36 => Some(Instruction::StoreImmediateToHl),
            0x0A => Some(Instruction::LoadAFromPair { pair: Pair::BC }),
            0x1A => Some(Instruction::LoadAFromPair { pair: Pair::DE }),
            0x02 => Some(Instruction::StoreAToPair { pair: Pair::BC }),
            0x12 => Some(Instruction::StoreAToPair { pair: Pair::DE }),
            0xFA => Some(Instruction::LoadAFromAbsolute),
            0xEA => Some(Instruction::StoreAToAbsolute),
            0xF2 => Some(Instruction::LoadAFromIoC),
            0xE2 => Some(Instruction::StoreAToIoC),
            0xF0 => Some(Instruction::LoadAFromIoImmediate),
            0xE0 => Some(Instruction::StoreAToIoImmediate),
            0x2A => Some(Instruction::LoadAFromHlIncrement),
            0x3A => Some(Instruction::LoadAFromHlDecrement),
            0x22 => Some(Instruction::StoreAToHlIncrement),
            0x32 => Some(Instruction::StoreAToHlDecrement),
            0x01 => Some(Instruction::LoadPairImmediate { pair: Pair::BC }),
            0x11 => Some(Instruction::LoadPairImmediate { pair: Pair::DE }),
            0x21 => Some(Instruction::LoadPairImmediate { pair: Pair::HL }),
            0x31 => Some(Instruction::LoadSpImmediate),
            0xF9 => Some(Instruction::LoadSpFromHl),
            0xF8 => Some(Instruction::LoadHlFromSpOffset),
            0x08 => Some(Instruction::StoreSpToAbsolute),
            0xC5 => Some(Instruction::Push { pair: Pair::BC }),
            0xD5 => Some(Instruction::Push { pair: Pair::DE }),
            0xE5 => Some(Instruction::Push { pair: Pair::HL }),
            0xF5 => Some(Instruction::PushAf),
            _ => None,
        }
    }
}

impl Instruction {
    /// Length of the instruction in bytes, opcode included.
    pub open spec fn length(self) -> nat {
        match self {
            Instruction::LoadImmediate { .. }
            | Instruction::StoreImmediateToHl
            | Instruction::LoadAFromIoImmediate
            | Instruction::StoreAToIoImmediate
            | Instruction::LoadHlFromSpOffset => 2,
            Instruction::LoadAFromAbsolute
            | Instruction::StoreAToAbsolute
            | Instruction::LoadPairImmediate { .. }
            | Instruction::LoadSpImmediate
            | Instruction::StoreSpToAbsolute => 3,
            _ => 1,
        }
    }

    /// Clock cycles the instruction takes.
    pub open spec fn cycles(self) -> nat {
        match self {
            Instruction::LoadRegister { .. } => 4,
            Instruction::StoreImmediateToHl
            | Instruction::LoadAFromIoImmediate
            | Instruction::StoreAToIoImmediate
            | Instruction::LoadPairImmediate { .. }
            | Instruction::LoadSpImmediate
            | Instruction::LoadHlFromSpOffset => 12,
            Instruction::LoadAFromAbsolute
            | Instruction::StoreAToAbsolute
            | Instruction::Push { .. }
            | Instruction::PushAf => 16,
            Instruction::StoreSpToAbsolute => 20,
            _ => 8,
        }
    }

    pub fn byte_length(&self) -> (r: u16)
        ensures
            r == self.length(),
    {
        match self {
            Instruction::LoadImmediate { .. }
            | Instruction::StoreImmediateToHl
            | Instruction::LoadAFromIoImmediate
            | Instruction::StoreAToIoImmediate
            | Instruction::LoadHlFromSpOffset => 2,
            Instruction::LoadAFromAbsolute
            | Instruction::StoreAToAbsolute
            | Instruction::LoadPairImmediate { .. }
            | Instruction::LoadSpImmediate
            | Instruction::StoreSpToAbsolute => 3,
            _ => 1,
        }
    }

    pub fn cycle_cost(&self) -> (r: u64)
        ensures
            r == self.cycles(),
    {
        match self {
            Instruction::LoadRegister { .. } => 4,
            Instruction::StoreImmediateToHl
            | Instruction::LoadAFromIoImmediate
            | Instruction::StoreAToIoImmediate
            | Instruction::LoadPairImmediate { .. }
            | Instruction::LoadSpImmediate
            | Instruction::LoadHlFromSpOffset => 12,
            Instruction::LoadAFromAbsolute
            | Instruction::StoreAToAbsolute
            | Instruction::Push { .. }
            | Instruction::PushAf => 16,
            Instruction::StoreSpToAbsolute => 20,
            _ => 8,
        }
    }
}

/// Register named by a 3-bit field of a load opcode, `None` for the `(HL)` slot.
fn reg8_from_code(code: u8) -> (r: Option<Reg8>)
    requires
        code < 8,
    ensures
        r == reg8_of(code as int),
{
    match code {
        0 => Some(Reg8::B),
        1 => Some(Reg8::C),
        2 => Some(Reg8::D),
        3 => Some(Reg8::E),
        4 => Some(Reg8::H),
        5 => Some(Reg8::L),
        7 => Some(Reg8::A),
        _ => None,
    }
}

/// The instruction that `opcode` stands for, `None` where the table has no entry.
pub fn decode(opcode: u8) -> (r: Option<Instruction>)
    ensures
        r == decode_spec(opcode),
{
    reveal(decode_spec);
    if 0x40 <= opcode && opcode < 0x80 && opcode != 0x76 {
        let dst = reg8_from_code((opcode - 0x40) / 8);
        let src = reg8_from_code(opcode % 8);
        match (dst, src) {
            (Some(d), Some(s)) => Some(Instruction::LoadRegister { dst: d, src: s }),
            (Some(d), None) => Some(Instruction::LoadFromHl { dst: d }),
            (None, Some(s)) => Some(Instruction::StoreToHl { src: s }),
            (None, None) => None,
        }
    } else {
        match opcode {
            0x06 => Some(Instruction::LoadImmediate { dst: Reg8::B }),
            0x0E => Some(Instruction::LoadImmediate { dst: Reg8::C }),
            0x16 => Some(Instruction::LoadImmediate { dst: Reg8::D }),
            0x1E => Some(Instruction::LoadImmediate { dst: Reg8::E }),
            0x26 => Some(Instruction::LoadImmediate { dst: Reg8::H }),
            0x2E => Some(Instruction::LoadImmediate { dst: Reg8::L }),
            0x3E => Some(Instruction::LoadImmediate { dst: Reg8::A }),
            0x36 => Some(Instruction::StoreImmediateToHl),
            0x0A => Some(Instruction::LoadAFromPair { pair: Pair::BC }),
            0x1A => Some(Instruction::LoadAFromPair { pair: Pair::DE }),
            0x02 => Some(Instruction::StoreAToPair { pair: Pair::BC }),
            0x12 => Some(Instruction::StoreAToPair { pair: Pair::DE }),
            0xFA => Some(Instruction::LoadAFromAbsolute),
            0xEA => Some(Instruction::StoreAToAbsolute),
            0xF2 => Some(Instruction::LoadAFromIoC),
            0xE2 => Some(Instruction::StoreAToIoC),
            0xF0 => Some(Instruction::LoadAFromIoImmediate),
            0xE0 => Some(Instruction::StoreAToIoImmediate),
            0x2A => Some(Instruction::LoadAFromHlIncrement),
            0x3A => Some(Instruction::LoadAFromHlDecrement),
            0x22 => Some(Instruction::StoreAToHlIncrement),
            0x32 => Some(Instruction::StoreAToHlDecrement),
            0x01 => Some(Instruction::LoadPairImmediate { pair: Pair::BC }),
            0x11 => Some(Instruction::LoadPairImmediate { pair: Pair::DE }),
            0x21 => Some(Instruction::LoadPairImmediate { pair: Pair::HL }),
            0x31 => Some(Instruction::LoadSpImmediate),
            0xF9 => Some(Instruction::LoadSpFromHl),
            0xF8 => Some(Instruction::LoadHlFromSpOffset),
            0x08 => Some(Instruction::StoreSpToAbsolute),
            0xC5 => Some(Instruction::Push { pair: Pair::BC }),
            0xD5 => Some(Instruction::Push { pair: Pair::DE }),
            0xE5 => Some(Instruction::Push { pair: Pair::HL }),
            0xF5 => Some(Instruction::PushAf),
            _ => None,
        }
    }
}

} // verus!
