use vstd::prelude::*;

use crate::cpu::{word_at, Cpu, CpuError};
use crate::instruction::{decode_spec, Instruction};
use crate::registers::{high_byte, lemma_compose_split, lemma_split_compose, low_byte};

verus! {

/// Writing a 16-bit value little-endian (low byte at `base`, high byte at
/// `base + 1`) and reading the two bytes back as an address gives the value.
pub proof fn lemma_word_round_trip(mem: Seq<u8>, base: int, value: u16)
    requires
        0 <= base,
        base + 1 < mem.len(),
    ensures
        word_at(
            mem.update(base, low_byte(value as nat)).update(base + 1, high_byte(value as nat)),
            base,
        ) == value,
{
    lemma_split_compose(value as nat);
}

/// A step that succeeds moves PC past the instruction by exactly its length in
/// bytes (1, 2 or 3) and adds exactly its cycle cost (4, 8, 12, 16 or 20),
/// whatever its operands; PC never passes 0xFFFF.
pub proof fn lemma_step_timing(cpu: Cpu, mem: Seq<u8>)
    ensures
        match cpu.step_result(mem) {
            Ok((next, _)) => {
                let i = decode_spec(mem[cpu.reg.pc as int])->Some_0;
                &&& 1 <= i.length() <= 3
                &&& i.cycles() == 4 || i.cycles() == 8 || i.cycles() == 12 || i.cycles() == 16
                    || i.cycles() == 20
                &&& next.reg.pc == cpu.reg.pc + i.length()
                &&& next.cycles == if cpu.cycles + i.cycles() > u64::MAX {
                    u64::MAX as int
                } else {
                    cpu.cycles + i.cycles()
                }
            },
            Err(_) => true,
        },
{
    if cpu.step_result(mem) is Ok {
        let i = decode_spec(mem[cpu.reg.pc as int])->Some_0;
        cpu.lemma_effect_keeps_pc_and_cycles(mem, i);
    }
}

/// A load through HL, BC or DE reads exactly the byte that the pair points at
/// and leaves memory as it was; a store through one writes exactly that byte
/// and no other.
pub proof fn lemma_indirect_access(cpu: Cpu, mem: Seq<u8>)
    ensures
        match cpu.step_result(mem) {
            Ok((next, m)) => match decode_spec(mem[cpu.reg.pc as int])->Some_0 {
                Instruction::LoadFromHl { dst } => {
                    &&& next.reg.get8(dst) == mem[cpu.reg.hl() as int]
                    &&& m == mem
                },
                Instruction::StoreToHl { src } => m == mem.update(
                    cpu.reg.hl() as int,
                    cpu.reg.get8(src),
                ),
                Instruction::LoadAFromPair { pair } => {
                    &&& next.reg.a == mem[cpu.reg.pair(pair) as int]
                    &&& m == mem
                },
                Instruction::StoreAToPair { pair } => m == mem.update(
                    cpu.reg.pair(pair) as int,
                    cpu.reg.a,
                ),
                _ => true,
            },
            Err(_) => true,
        },
{
    reveal(Cpu::effect);
}

/// The loads and stores through HL that then step it change HL by exactly
/// one, up or down and wrapping at 16 bits, besides moving the byte at the
/// old HL.
pub proof fn lemma_hl_step_access(cpu: Cpu, mem: Seq<u8>)
    ensures
        match cpu.step_result(mem) {
            Ok((next, m)) => {
                let hl = cpu.reg.hl();
                match decode_spec(mem[cpu.reg.pc as int])->Some_0 {
                    Instruction::LoadAFromHlIncrement => {
                        &&& next.reg.a == mem[hl as int]
                        &&& next.reg.hl() == (hl + 1) % 0x10000
                        &&& m == mem
                    },
                    Instruction::LoadAFromHlDecrement => {
                        &&& next.reg.a == mem[hl as int]
                        &&& next.reg.hl() == (hl + 0xFFFF) % 0x10000
                        &&& m == mem
                    },
                    Instruction::StoreAToHlIncrement => {
                        &&& next.reg.hl() == (hl + 1) % 0x10000
                        &&& m == mem.update(hl as int, cpu.reg.a)
                    },
                    Instruction::StoreAToHlDecrement => {
                        &&& next.reg.hl() == (hl + 0xFFFF) % 0x10000
                        &&& m == mem.update(hl as int, cpu.reg.a)
                    },
                    _ => true,
                }
            },
            Err(_) => true,
        },
{
    reveal(Cpu::effect);
    lemma_compose_split(cpu.reg.h, cpu.reg.l);
    lemma_split_compose((cpu.reg.hl() + 1) % 0x10000);
    lemma_split_compose((cpu.reg.hl() + 0xFFFF) % 0x10000);
}

/// A byte with no entry in the decode table stops the step with the error
/// that names the byte and PC; `step` then changes nothing.
pub proof fn lemma_unimplemented_opcode(cpu: Cpu, mem: Seq<u8>)
    requires
        (cpu.reg.pc as nat) < mem.len(),
        decode_spec(mem[cpu.reg.pc as int]) is None,
    ensures
        cpu.step_result(mem) == Err::<(Cpu, Seq<u8>), CpuError>(
            CpuError::UnimplementedOpcode { opcode: mem[cpu.reg.pc as int], pc: cpu.reg.pc },
        ),
{
}

} // verus!
