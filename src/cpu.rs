use vstd::prelude::*;

use crate::instruction::{decode, decode_spec, Instruction, Pair, Reg8};
use crate::memory::MemoryMap;
use crate::registers::{high_byte, low_byte, pair_value, Flag, OperationType, Reg};

verus! {

/// Why a step could not be carried out. Either one leaves the CPU and memory
/// as they were.
#[derive(Clone, Copy, Debug, PartialEq, Eq, Structural)]
pub enum CpuError {
    /// The byte at `pc` has no entry in the decode table.
    UnimplementedOpcode { opcode: u8, pc: u16 },
    /// The instruction at `pc` needed the byte at `address`, which lies
    /// outside the memory map (below zero for a push under the bottom of the
    /// stack, 0x10000 for an instruction that runs past the top of the 16-bit
    /// address space).
    OutOfRangeAddress { address: i64, pc: u16 },
}

/// The little-endian 16-bit value stored at `base` and `base + 1`.
pub open spec fn word_at(mem: Seq<u8>, base: int) -> nat {
    pair_value(mem[base + 1], mem[base])
}

/// The first of `addresses`, from index `k` on, that a memory of `size` bytes
/// does not hold.
pub open spec fn first_outside_from(addresses: Seq<int>, size: nat, k: nat) -> Option<int>
    decreases addresses.len() - k,
{
    if k >= addresses.len() {
        None
    } else if addresses[k as int] < 0 || addresses[k as int] >= size {
        Some(addresses[k as int])
    } else {
        first_outside_from(addresses, size, k + 1)
    }
}

/// The byte that `PUSH AF` stores for the flags.
pub open spec fn flags_byte(flag: Flag) -> u8 {
    (if flag.z { 0x01u8 } else { 0u8 }) | (if flag.n { 0x02u8 } else { 0u8 }) | (if flag.h {
        0x04u8
    } else {
        0u8
    }) | (if flag.c { 0x09u8 } else { 0u8 })
}

/// `sp` plus the signed 8-bit displacement `n`, as a plain integer (it may
/// fall below zero or rise above 0xFFFF).
pub open spec fn offset_sum(sp: u16, n: u8) -> int {
    if n < 128 {
        sp as int + n as int
    } else {
        sp as int + n as int - 256
    }
}

/// `sp` plus the signed 8-bit displacement `n`, with a sum below zero taken
/// modulo 0x10000: the same low 16 bits, and above 0xFFFF exactly when the
/// plain sum is.
fn add_signed_offset(sp: u16, n: u8) -> (r: u32)
    ensures
        r as int % 0x10000 == offset_sum(sp, n) % 0x10000,
        r > 0xFFFF <==> offset_sum(sp, n) > 0xFFFF,
{
    if n < 128 {
        sp as u32 + n as u32
    } else if sp as u32 + n as u32 >= 256 {
        sp as u32 + n as u32 - 256
    } else {
        sp as u32 + n as u32 + 0xFF00
    }
}

impl Reg {
    pub open spec fn get8(self, r: Reg8) -> u8 {
        match r {
            Reg8::A => self.a,
            Reg8::B => self.b,
            Reg8::C => self.c,
            Reg8::D => self.d,
            Reg8::E => self.e,
            Reg8::H => self.h,
            Reg8::L => self.l,
        }
    }

    pub open spec fn set8(self, r: Reg8, v: u8) -> Reg {
        match r {
            Reg8::A => Reg { a: v, ..self },
            Reg8::B => Reg { b: v, ..self },
            Reg8::C => Reg { c: v, ..self },
            Reg8::D => Reg { d: v, ..self },
            Reg8::E => Reg { e: v, ..self },
            Reg8::H => Reg { h: v, ..self },
            Reg8::L => Reg { l: v, ..self },
        }
    }

    /// High and low register of a pair.
    pub open spec fn pair_bytes(self, p: Pair) -> (u8, u8) {
        match p {
            Pair::BC => (self.b, self.c),
            Pair::DE => (self.d, self.e),
            Pair::HL => (self.h, self.l),
        }
    }

    pub open spec fn pair(self, p: Pair) -> nat {
        pair_value(self.pair_bytes(p).0, self.pair_bytes(p).1)
    }

    pub open spec fn set_pair(self, p: Pair, high: u8, low: u8) -> Reg {
        match p {
            Pair::BC => Reg { b: high, c: low, ..self },
            Pair::DE => Reg { d: high, e: low, ..self },
            Pair::HL => Reg { h: high, l: low, ..self },
        }
    }

    fn read8(&self, r: Reg8) -> (v: u8)
        ensures
            v == self.get8(r),
    {
        match r {
            Reg8::A => self.a,
            Reg8::B => self.b,
            Reg8::C => self.c,
            Reg8::D => self.d,
            Reg8::E => self.e,
            Reg8::H => self.h,
            Reg8::L => self.l,
        }
    }

    fn write8(&mut self, r: Reg8, v: u8)
        ensures
            *final(self) == old(self).set8(r, v),
    {
        match r {
            Reg8::A => self.a = v,
            Reg8::B => self.b = v,
            Reg8::C => self.c = v,
            Reg8::D => self.d = v,
            Reg8::E => self.e = v,
            Reg8::H => self.h = v,
            Reg8::L => self.l = v,
        }
    }

    fn read_pair(&self, p: Pair) -> (r: (u8, u8))
        ensures
            r == self.pair_bytes(p),
    {
        match p {
            Pair::BC => (self.b, self.c),
            Pair::DE => (self.d, self.e),
            Pair::HL => (self.h, self.l),
        }
    }

    fn pair_address(&self, p: Pair) -> (r: usize)
        ensures
            r == self.pair(p),
    {
        match p {
            Pair::BC => self.bc_address(),
            Pair::DE => self.de_address(),
            Pair::HL => self.hl_address(),
        }
    }

    fn write_pair(&mut self, p: Pair, high: u8, low: u8)
        ensures
            *final(self) == old(self).set_pair(p, high, low),
    {
        match p {
            Pair::BC => {
                self.b = high;
                self.c = low;
            },
            Pair::DE => {
                self.d = high;
                self.e = low;
            },
            Pair::HL => {
                self.h = high;
                self.l = low;
            },
        }
    }
}

/// The byte that `PUSH AF` stores for `flag`.
fn flags_to_byte(flag: &Flag) -> (r: u8)
    ensures
        r == flags_byte(*flag),
{
    (if flag.z { 0x01u8 } else { 0u8 }) | (if flag.n { 0x02u8 } else { 0u8 }) | (if flag.h {
        0x04u8
    } else {
        0u8
    }) | (if flag.c { 0x09u8 } else { 0u8 })
}

/// The processor: registers, flags and the running count of clock cycles.
/// The memory map is handed to each operation that touches it.
#[derive(Clone, Copy, Debug, PartialEq, Eq, Structural)]
pub struct Cpu {
    pub flag: Flag,
    pub reg: Reg,
    pub cycles: u64,
}

impl Cpu {
    pub open spec fn error_at(self, address: int) -> CpuError {
        CpuError::OutOfRangeAddress { address: address as i64, pc: self.reg.pc }
    }

    /// The state after pushing `v`: SP goes one down and `v` is stored where
    /// it then points.
    pub open spec fn pushed(self, mem: Seq<u8>, v: u8) -> (Cpu, Seq<u8>) {
        let sp = self.reg.sp - 1;
        (Cpu { reg: Reg { sp: sp as u16, ..self.reg }, ..self }, mem.update(sp as int, v))
    }

    /// The addresses, in order, that the instruction at PC reads or writes
    /// besides its opcode byte.
    #[verifier::opaque]
    pub open spec fn accesses(self, mem: Seq<u8>, i: Instruction) -> Seq<int> {
        let pc = self.reg.pc as int;
        let reg = self.reg;
        match i {
            Instruction::LoadRegister { .. } | Instruction::LoadSpFromHl => seq![],
            Instruction::LoadImmediate { .. } | Instruction::LoadHlFromSpOffset => seq![pc + 1],
            Instruction::LoadFromHl { .. }
            | Instruction::StoreToHl { .. }
            | Instruction::LoadAFromHlIncrement
            | Instruction::LoadAFromHlDecrement
            | Instruction::StoreAToHlIncrement
            | Instruction::StoreAToHlDecrement => seq![reg.hl() as int],
            Instruction::StoreImmediateToHl => seq![pc + 1, reg.hl() as int],
            Instruction::LoadAFromPair { pair } | Instruction::StoreAToPair { pair } => seq![
                reg.pair(pair) as int,
            ],
            Instruction::LoadAFromAbsolute | Instruction::StoreAToAbsolute => seq![
                pc + 1,
                pc + 2,
                word_at(mem, pc + 1) as int,
            ],
            Instruction::LoadAFromIoC | Instruction::StoreAToIoC => seq![0xFF00 + reg.c],
            Instruction::LoadAFromIoImmediate | Instruction::StoreAToIoImmediate => seq![
                pc + 1,
                0xFF00 + mem[pc + 1],
            ],
            Instruction::LoadPairImmediate { .. } | Instruction::LoadSpImmediate => seq![
                pc + 1,
                pc + 2,
            ],
            Instruction::StoreSpToAbsolute => seq![
                pc + 1,
                pc + 2,
                word_at(mem, pc + 1) as int,
                word_at(mem, pc + 1) as int + 1,
            ],
            Instruction::Push { .. } | Instruction::PushAf => seq![
                reg.sp - 1,
                reg.sp - 2,
            ],
        }
    }

    /// What the instruction does to registers, flags and memory, all its
    /// accesses being in range. PC and the cycle count are left to `advanced`.
    #[verifier::opaque]
    pub open spec fn effect(self, mem: Seq<u8>, i: Instruction) -> (Cpu, Seq<u8>) {
        let pc = self.reg.pc as int;
        let reg = self.reg;
        let hl = reg.hl() as int;
        let with_reg = |r: Reg| Cpu { reg: r, ..self };
        match i {
            Instruction::LoadRegister { dst, src } => (with_reg(reg.set8(dst, reg.get8(src))), mem),
            Instruction::LoadImmediate { dst } => (with_reg(reg.set8(dst, mem[pc + 1])), mem),
            Instruction::LoadFromHl { dst } => (with_reg(reg.set8(dst, mem[hl])), mem),
            Instruction::StoreToHl { src } => (self, mem.update(hl, reg.get8(src))),
            Instruction::StoreImmediateToHl => (self, mem.update(hl, mem[pc + 1])),
            Instruction::LoadAFromPair { pair } => (
                with_reg(Reg { a: mem[reg.pair(pair) as int], ..reg }),
                mem,
            ),
            Instruction::StoreAToPair { pair } => (self, mem.update(reg.pair(pair) as int, reg.a)),
            Instruction::LoadAFromAbsolute => (
                with_reg(Reg { a: mem[word_at(mem, pc + 1) as int], ..reg }),
                mem,
            ),
            Instruction::StoreAToAbsolute => (self, mem.update(word_at(mem, pc + 1) as int, reg.a)),
            Instruction::LoadAFromIoC => (with_reg(Reg { a: mem[0xFF00 + reg.c], ..reg }), mem),
            Instruction::StoreAToIoC => (self, mem.update(0xFF00 + reg.c, reg.a)),
            Instruction::LoadAFromIoImmediate => (
                with_reg(Reg { a: mem[0xFF00 + mem[pc + 1]], ..reg }),
                mem,
            ),
            Instruction::StoreAToIoImmediate => (self, mem.update(0xFF00 + mem[pc + 1], reg.a)),
            Instruction::LoadAFromHlIncrement => (
                with_reg(Reg { a: mem[hl], ..reg }.incremented_hl()),
                mem,
            ),
            Instruction::LoadAFromHlDecrement => (
                with_reg(Reg { a: mem[hl], ..reg }.decremented_hl()),
                mem,
            ),
            Instruction::StoreAToHlIncrement => (
                with_reg(reg.incremented_hl()),
                mem.update(hl, reg.a),
            ),
            Instruction::StoreAToHlDecrement => (
                with_reg(reg.decremented_hl()),
                mem.update(hl, reg.a),
            ),
            Instruction::LoadPairImmediate { pair } => (
                with_reg(reg.set_pair(pair, mem[pc + 2], mem[pc + 1])),
                mem,
            ),
            Instruction::LoadSpImmediate => (
                with_reg(Reg { sp: word_at(mem, pc + 1 as int) as u16, ..reg }),
                mem,
            ),
            Instruction::LoadSpFromHl => (with_reg(Reg { sp: reg.hl() as u16, ..reg }), mem),
            Instruction::LoadHlFromSpOffset => {
                let sum = offset_sum(reg.sp, mem[pc + 1]);
                let low16 = (sum % 0x10000) as nat;
                (
                    Cpu {
                        reg: Reg { h: high_byte(low16), l: low_byte(low16), ..reg },
                        flag: Flag {
                            z: false,
                            n: false,
                            h: crate::registers::bit(reg.sp as nat % 256, 3)
                                && crate::registers::bit(low16, 4),
                            c: sum > 0xFFFF,
                        },
                        ..self
                    },
                    mem,
                )
            },
            Instruction::StoreSpToAbsolute => {
                let address = word_at(mem, pc + 1) as int;
                (
                    self,
                    mem.update(address, low_byte(reg.sp as nat)).update(
                        address + 1,
                        high_byte(reg.sp as nat),
                    ),
                )
            },
            Instruction::Push { pair } => {
                let first = self.pushed(mem, reg.pair_bytes(pair).0);
                first.0.pushed(first.1, reg.pair_bytes(pair).1)
            },
            Instruction::PushAf => {
                let first = self.pushed(mem, reg.a);
                first.0.pushed(first.1, flags_byte(self.flag))
            },
        }
    }

    /// The instruction's effect leaves PC and the cycle count to `advanced`.
    pub proof fn lemma_effect_keeps_pc_and_cycles(self, mem: Seq<u8>, i: Instruction)
        ensures
            self.effect(mem, i).0.reg.pc == self.reg.pc,
            self.effect(mem, i).0.cycles == self.cycles,
    {
        reveal(Cpu::effect);
    }

    /// PC moved past the instruction and its cycles counted (the count stops
    /// at its maximum).
    pub open spec fn advanced(self, i: Instruction) -> Cpu {
        let cycles = self.cycles + i.cycles();
        Cpu {
            reg: Reg { pc: (self.reg.pc + i.length()) as u16, ..self.reg },
            cycles: if cycles > u64::MAX {
                u64::MAX
            } else {
                cycles as u64
            },
            ..self
        }
    }

    /// One fetch/decode/execute step on memory `mem`: the state after it, or
    /// the error that stops it. An instruction that would leave PC past
    /// 0xFFFF is refused before anything else about it is checked.
    pub open spec fn step_result(self, mem: Seq<u8>) -> Result<(Cpu, Seq<u8>), CpuError> {
        let pc = self.reg.pc as nat;
        if pc >= mem.len() {
            Err(self.error_at(pc as int))
        } else {
            match decode_spec(mem[pc as int]) {
                None => Err(CpuError::UnimplementedOpcode { opcode: mem[pc as int], pc: self.reg.pc }),
                Some(i) => if pc + i.length() > 0xFFFF {
                    Err(self.error_at(0x10000))
                } else {
                    match first_outside_from(self.accesses(mem, i), mem.len(), 0) {
                        Some(address) => Err(self.error_at(address)),
                        None => {
                            let (cpu, m) = self.effect(mem, i);
                            Ok((cpu.advanced(i), m))
                        },
                    }
                },
            }
        }
    }
}

impl Cpu {
    /// A processor with every register, flag and the cycle count at zero.
    pub fn new() -> (r: Cpu)
        ensures
            r == (Cpu {
                flag: Flag { z: false, n: false, h: false, c: false },
                reg: Reg { a: 0, b: 0, c: 0, d: 0, e: 0, f: 0, h: 0, l: 0, pc: 0, sp: 0 },
                cycles: 0,
            }),
    {
        Cpu { flag: Flag::new(), reg: Reg::new(), cycles: 0 }
    }

    /// `Ok` when `memory` holds `address`, else the error naming it.
    fn check_address(&self, memory: &MemoryMap, address: usize) -> (r: Result<(), CpuError>)
        requires
            address < 0x2_0000,
        ensures
            r == if (address as nat) < memory@.len() {
                Ok::<(), CpuError>(())
            } else {
                Err(self.error_at(address as int))
            },
    {
        if address < memory.size() {
            Ok(())
        } else {
            Err(CpuError::OutOfRangeAddress { address: address as i64, pc: self.reg.pc })
        }
    }

    /// `Ok` when `memory` holds the address `depth` bytes below SP, else the
    /// error naming it (below zero where SP is less than `depth`).
    fn check_stack_slot(&self, memory: &MemoryMap, depth: u16) -> (r: Result<(), CpuError>)
        requires
            1 <= depth <= 2,
        ensures
            r == if 0 <= self.reg.sp - depth < memory@.len() {
                Ok::<(), CpuError>(())
            } else {
                Err(self.error_at(self.reg.sp - depth))
            },
    {
        if self.reg.sp < depth {
            Err(CpuError::OutOfRangeAddress {
                address: self.reg.sp as i64 - depth as i64,
                pc: self.reg.pc,
            })
        } else {
            self.check_address(memory, (self.reg.sp - depth) as usize)
        }
    }

    /// Moves SP one down and stores `value` where it then points.
    pub fn push_to_stack(&mut self, memory: &mut MemoryMap, value: u8)
        requires
            1 <= old(self).reg.sp,
            old(self).reg.sp - 1 < old(memory)@.len(),
        ensures
            (*final(self), final(memory)@) == old(self).pushed(old(memory)@, value),
    {
        let sp = self.reg.sp - 1;
        memory.write(sp as usize, value);
        self.reg.sp = sp;
    }

    /// The little-endian 16-bit value at `base_address` and the byte after it.
    pub fn two_byte_address(&self, memory: &MemoryMap, base_address: usize) -> (r: usize)
        requires
            base_address + 1 < memory@.len(),
        ensures
            r == word_at(memory@, base_address as int),
    {
        proof {
            memory.lemma_size_fits();
        }
        memory.read(base_address + 1) as usize * 256 + memory.read(base_address) as usize
    }
}

impl Cpu {
    /// `r`, `cpu` and `mem` are the outcome of carrying out `i` on this state
    /// and `old_mem`, PC and the cycle count aside: the error for the first
    /// address out of range with nothing changed, or the instruction's effect.
    pub open spec fn executed(
        self,
        old_mem: Seq<u8>,
        i: Instruction,
        r: Result<(), CpuError>,
        cpu: Cpu,
        mem: Seq<u8>,
    ) -> bool {
        match first_outside_from(self.accesses(old_mem, i), old_mem.len(), 0) {
            Some(address) => {
                &&& r == Err::<(), CpuError>(self.error_at(address))
                &&& cpu == self
                &&& mem == old_mem
            },
            None => {
                &&& r is Ok
                &&& (cpu, mem) == self.effect(old_mem, i)
            },
        }
    }

    /// Carries out `instruction`, whose opcode is at PC, except for moving PC
    /// and counting cycles. Every address it needs is checked before anything
    /// changes.
    fn execute(
        &mut self,
        memory: &mut MemoryMap,
        instruction: Instruction,
    ) -> (r: Result<(), CpuError>)
        ensures
            old(self).executed(old(memory)@, instruction, r, *final(self), final(memory)@),
    {
        match instruction {
            Instruction::LoadRegister { .. }
            | Instruction::LoadImmediate { .. }
            | Instruction::LoadFromHl { .. }
            | Instruction::StoreToHl { .. }
            | Instruction::StoreImmediateToHl => {
                self.execute_register_load(memory, instruction)
            },
            Instruction::LoadAFromPair { .. }
            | Instruction::StoreAToPair { .. }
            | Instruction::LoadAFromAbsolute
            | Instruction::StoreAToAbsolute
            | Instruction::LoadAFromIoC
            | Instruction::StoreAToIoC
            | Instruction::LoadAFromIoImmediate
            | Instruction::StoreAToIoImmediate => {
                self.execute_accumulator_load(memory, instruction)
            },
            Instruction::LoadAFromHlIncrement
            | Instruction::LoadAFromHlDecrement
            | Instruction::StoreAToHlIncrement
            | Instruction::StoreAToHlDecrement => {
                self.execute_hl_step(memory, instruction)
            },
            Instruction::LoadPairImmediate { .. }
            | Instruction::LoadSpImmediate
            | Instruction::LoadSpFromHl => {
                self.execute_wide_load(memory, instruction)
            },
            Instruction::StoreSpToAbsolute => {
                self.execute_store_sp(memory, instruction)
            },
            Instruction::LoadHlFromSpOffset => {
                self.execute_sp_offset(memory, instruction)
            },
            Instruction::Push { .. }
            | Instruction::PushAf => {
                self.execute_push(memory, instruction)
            },
        }
    }

    /// Carries out a load between a register, an immediate byte and `(HL)`.
    fn execute_register_load(
        &mut self,
        memory: &mut MemoryMap,
        instruction: Instruction,
    ) -> (r: Result<(), CpuError>)
        requires
            instruction is LoadRegister
                || instruction is LoadImmediate
                || instruction is LoadFromHl
                || instruction is StoreToHl
                || instruction is StoreImmediateToHl,
        ensures
            old(self).executed(old(memory)@, instruction, r, *final(self), final(memory)@),
    {
        proof {
            reveal_with_fuel(first_outside_from, 5);
            reveal(Cpu::accesses);
            reveal(Cpu::effect);
            memory.lemma_size_fits();
        }
        let pc = self.reg.pc as usize;
        match instruction {
            Instruction::LoadRegister { dst, src } => {
                let value = self.reg.read8(src);
                self.reg.write8(dst, value);
            },
            Instruction::LoadImmediate { dst } => {
                self.check_address(memory, pc + 1)?;
                let value = memory.read(pc + 1);
                self.reg.write8(dst, value);
            },
            Instruction::LoadFromHl { dst } => {
                let address = self.reg.hl_address();
                self.check_address(memory, address)?;
                let value = memory.read(address);
                self.reg.write8(dst, value);
            },
            Instruction::StoreToHl { src } => {
                let address = self.reg.hl_address();
                self.check_address(memory, address)?;
                memory.write(address, self.reg.read8(src));
            },
            Instruction::StoreImmediateToHl => {
                let address = self.reg.hl_address();
                self.check_address(memory, pc + 1)?;
                self.check_address(memory, address)?;
                let value = memory.read(pc + 1);
                memory.write(address, value);
            },
            _ => {},
        }
        Ok(())
    }

    /// Carries out a load between A and memory addressed by BC, DE, an absolute address or the I/O window.
    fn execute_accumulator_load(
        &mut self,
        memory: &mut MemoryMap,
        instruction: Instruction,
    ) -> (r: Result<(), CpuError>)
        requires
            instruction is LoadAFromPair
                || instruction is StoreAToPair
                || instruction is LoadAFromAbsolute
                || instruction is StoreAToAbsolute
                || instruction is LoadAFromIoC
                || instruction is StoreAToIoC
                || instruction is LoadAFromIoImmediate
                || instruction is StoreAToIoImmediate,
        ensures
            old(self).executed(old(memory)@, instruction, r, *final(self), final(memory)@),
    {
        proof {
            reveal_with_fuel(first_outside_from, 5);
            reveal(Cpu::accesses);
            reveal(Cpu::effect);
            memory.lemma_size_fits();
        }
        let pc = self.reg.pc as usize;
        match instruction {
            Instruction::LoadAFromPair { pair } => {
                let address = self.reg.pair_address(pair);
                self.check_address(memory, address)?;
                self.reg.a = memory.read(address);
            },
            Instruction::StoreAToPair { pair } => {
                let address = self.reg.pair_address(pair);
                self.check_address(memory, address)?;
                memory.write(address, self.reg.a);
            },
            Instruction::LoadAFromAbsolute => {
                self.check_address(memory, pc + 1)?;
                self.check_address(memory, pc + 2)?;
                let address = self.two_byte_address(memory, pc + 1);
                self.check_address(memory, address)?;
                self.reg.a = memory.read(address);
            },
            Instruction::StoreAToAbsolute => {
                self.check_address(memory, pc + 1)?;
                self.check_address(memory, pc + 2)?;
                let address = self.two_byte_address(memory, pc + 1);
                self.check_address(memory, address)?;
                memory.write(address, self.reg.a);
            },
            Instruction::LoadAFromIoC => {
                let address = 0xFF00 + self.reg.c as usize;
                self.check_address(memory, address)?;
                self.reg.a = memory.read(address);
            },
            Instruction::StoreAToIoC => {
                let address = 0xFF00 + self.reg.c as usize;
                self.check_address(memory, address)?;
                memory.write(address, self.reg.a);
            },
            Instruction::LoadAFromIoImmediate => {
                self.check_address(memory, pc + 1)?;
                let address = 0xFF00 + memory.read(pc + 1) as usize;
                self.check_address(memory, address)?;
                self.reg.a = memory.read(address);
            },
            Instruction::StoreAToIoImmediate => {
                self.check_address(memory, pc + 1)?;
                let address = 0xFF00 + memory.read(pc + 1) as usize;
                self.check_address(memory, address)?;
                memory.write(address, self.reg.a);
            },
            _ => {},
        }
        Ok(())
    }

    /// Carries out a load between A and `(HL)` that then moves HL by one.
    fn execute_hl_step(
        &mut self,
        memory: &mut MemoryMap,
        instruction: Instruction,
    ) -> (r: Result<(), CpuError>)
        requires
            instruction is LoadAFromHlIncrement
                || instruction is LoadAFromHlDecrement
                || instruction is StoreAToHlIncrement
                || instruction is StoreAToHlDecrement,
        ensures
            old(self).executed(old(memory)@, instruction, r, *final(self), final(memory)@),
    {
        proof {
            reveal_with_fuel(first_outside_from, 5);
            reveal(Cpu::accesses);
            reveal(Cpu::effect);
            memory.lemma_size_fits();
        }
        match instruction {
            Instruction::LoadAFromHlIncrement => {
                let address = self.reg.hl_address();
                self.check_address(memory, address)?;
                self.reg.a = memory.read(address);
                self.reg.increment_hl();
            },
            Instruction::LoadAFromHlDecrement => {
                let address = self.reg.hl_address();
                self.check_address(memory, address)?;
                self.reg.a = memory.read(address);
                self.reg.decrement_hl();
            },
            Instruction::StoreAToHlIncrement => {
                let address = self.reg.hl_address();
                self.check_address(memory, address)?;
                memory.write(address, self.reg.a);
                self.reg.increment_hl();
            },
            Instruction::StoreAToHlDecrement => {
                let address = self.reg.hl_address();
                self.check_address(memory, address)?;
                memory.write(address, self.reg.a);
                self.reg.decrement_hl();
            },
            _ => {},
        }
        Ok(())
    }

    /// Carries out a 16-bit load.
    fn execute_wide_load(
        &mut self,
        memory: &mut MemoryMap,
        instruction: Instruction,
    ) -> (r: Result<(), CpuError>)
        requires
            instruction is LoadPairImmediate
                || instruction is LoadSpImmediate
                || instruction is LoadSpFromHl,
        ensures
            old(self).executed(old(memory)@, instruction, r, *final(self), final(memory)@),
    {
        proof {
            reveal_with_fuel(first_outside_from, 5);
            reveal(Cpu::accesses);
            reveal(Cpu::effect);
            memory.lemma_size_fits();
        }
        let pc = self.reg.pc as usize;
        match instruction {
            Instruction::LoadPairImmediate { pair } => {
                self.check_address(memory, pc + 1)?;
                self.check_address(memory, pc + 2)?;
                let high = memory.read(pc + 2);
                let low = memory.read(pc + 1);
                self.reg.write_pair(pair, high, low);
            },
            Instruction::LoadSpImmediate => {
                self.check_address(memory, pc + 1)?;
                self.check_address(memory, pc + 2)?;
                self.reg.sp = self.two_byte_address(memory, pc + 1) as u16;
            },
            Instruction::LoadSpFromHl => {
                self.reg.sp = self.reg.hl_address() as u16;
            },
            _ => {},
        }
        Ok(())
    }

    /// Carries out `LD (nn), SP`.
    fn execute_store_sp(
        &mut self,
        memory: &mut MemoryMap,
        instruction: Instruction,
    ) -> (r: Result<(), CpuError>)
        requires
            instruction is StoreSpToAbsolute,
        ensures
            old(self).executed(old(memory)@, instruction, r, *final(self), final(memory)@),
    {
        proof {
            reveal_with_fuel(first_outside_from, 5);
            reveal(Cpu::accesses);
            reveal(Cpu::effect);
            memory.lemma_size_fits();
        }
        let pc = self.reg.pc as usize;
        self.check_address(memory, pc + 1)?;
        self.check_address(memory, pc + 2)?;
        let address = self.two_byte_address(memory, pc + 1);
        self.check_address(memory, address)?;
        self.check_address(memory, address + 1)?;
        memory.write(address, (self.reg.sp % 256) as u8);
        memory.write(address + 1, (self.reg.sp / 256) as u8);
        Ok(())
    }

    /// Carries out `LD HL, SP + n`.
    fn execute_sp_offset(
        &mut self,
        memory: &mut MemoryMap,
        instruction: Instruction,
    ) -> (r: Result<(), CpuError>)
        requires
            instruction is LoadHlFromSpOffset,
        ensures
            old(self).executed(old(memory)@, instruction, r, *final(self), final(memory)@),
    {
        proof {
            reveal_with_fuel(first_outside_from, 5);
            reveal(Cpu::accesses);
            reveal(Cpu::effect);
            memory.lemma_size_fits();
        }
        let pc = self.reg.pc as usize;
        self.check_address(memory, pc + 1)?;
        let orig = self.reg.sp;
        let n = memory.read(pc + 1);
        let result = add_signed_offset(orig, n);
        let low16 = result % 0x10000;
        self.reg.l = (low16 % 256) as u8;
        self.reg.h = (low16 / 256 % 256) as u8;
        self.flag.clear_zero_flag();
        self.flag.clear_subtract_flag();
        self.flag.adjust_half_carry_flag((orig % 256) as u8, low16);
        self.flag.adjust_carry_flag(result, OperationType::B16);
        Ok(())
    }

    /// Carries out a push of a register pair.
    fn execute_push(
        &mut self,
        memory: &mut MemoryMap,
        instruction: Instruction,
    ) -> (r: Result<(), CpuError>)
        requires
            instruction is Push
                || instruction is PushAf,
        ensures
            old(self).executed(old(memory)@, instruction, r, *final(self), final(memory)@),
    {
        proof {
            reveal_with_fuel(first_outside_from, 5);
            reveal(Cpu::accesses);
            reveal(Cpu::effect);
            memory.lemma_size_fits();
        }
        match instruction {
            Instruction::Push { pair } => {
                self.check_stack_slot(memory, 1)?;
                self.check_stack_slot(memory, 2)?;
                let (high, low) = self.reg.read_pair(pair);
                self.push_to_stack(memory, high);
                self.push_to_stack(memory, low);
            },
            Instruction::PushAf => {
                self.check_stack_slot(memory, 1)?;
                self.check_stack_slot(memory, 2)?;
                let flags = flags_to_byte(&self.flag);
                self.push_to_stack(memory, self.reg.a);
                self.push_to_stack(memory, flags);
            },
            _ => {},
        }
        Ok(())
    }

    /// Fetches the opcode at PC, decodes it and carries it out: registers,
    /// flags and memory change as the instruction says, PC moves past it and
    /// its cycles are counted. On an error nothing changes.
    pub fn step(&mut self, memory: &mut MemoryMap) -> (r: Result<(), CpuError>)
        ensures
            match old(self).step_result(old(memory)@) {
                Ok((cpu, mem)) => {
                    &&& r is Ok
                    &&& *final(self) == cpu
                    &&& final(memory)@ == mem
                },
                Err(e) => {
                    &&& r == Err::<(), CpuError>(e)
                    &&& *final(self) == *old(self)
                    &&& final(memory)@ == old(memory)@
                },
            },
    {
        let pc = self.reg.pc as usize;
        self.check_address(memory, pc)?;
        let opcode = memory.read(pc);
        let instruction = match decode(opcode) {
            Some(i) => i,
            None => {
                return Err(CpuError::UnimplementedOpcode { opcode, pc: self.reg.pc });
            },
        };
        if self.reg.pc as usize + instruction.byte_length() as usize > 0xFFFF {
            return Err(CpuError::OutOfRangeAddress { address: 0x10000, pc: self.reg.pc });
        }
        proof {
            self.lemma_effect_keeps_pc_and_cycles(memory@, instruction);
        }
        self.execute(memory, instruction)?;
        self.reg.pc = self.reg.pc + instruction.byte_length();
        self.cycles = self.cycles.saturating_add(instruction.cycle_cost());
        Ok(())
    }
}

} // verus!
