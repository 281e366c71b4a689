use gb_core::cpu::Cpu;
use gb_core::memory::MemoryMap;

#[test]
fn main_test_hl_dereference() {
    let _mem = MemoryMap::new(0xFFFF);
    let mut cpu = Cpu::new();
    cpu.reg.h = 0x80;
    cpu.reg.l = 0x12;

    let address = cpu.reg.hl_address();
    assert_eq!(address, 0x8012);
}

#[test]
fn main_load_immediate_b() {
    let mut mem = MemoryMap::new(0xFFFF);
    let mut cpu = Cpu::new();
    mem.write(0, 0x06);
    mem.write(1, 0xFE);

    cpu.step(&mut mem).unwrap();
    assert_eq!(cpu.reg.b, 0xFE);
    assert_eq!(cpu.reg.pc, 0x02);
    assert_eq!(cpu.cycles, 0x08);
}

#[test]
fn main_load_immediate_c() {
    let mut mem = MemoryMap::new(0xFFFF);
    let mut cpu = Cpu::new();
    mem.write(0, 0x0E);
    mem.write(1, 0xFE);

    cpu.step(&mut mem).unwrap();
    assert_eq!(cpu.reg.c, 0xFE);
    assert_eq!(cpu.reg.pc, 0x02);
    assert_eq!(cpu.cycles, 0x08);
}

#[test]
fn main_load_immediate_d() {
    let mut mem = MemoryMap::new(0xFFFF);
    let mut cpu = Cpu::new();
    mem.write(0, 0x16);
    mem.write(1, 0xFE);

    cpu.step(&mut mem).unwrap();
    assert_eq!(cpu.reg.d, 0xFE);
    assert_eq!(cpu.reg.pc, 0x02);
    assert_eq!(cpu.cycles, 0x08);
}

#[test]
fn main_load_immediate_e() {
    let mut mem = MemoryMap::new(0xFFFF);
    let mut cpu = Cpu::new();
    mem.write(0, 0x1E);
    mem.write(1, 0xFE);

    cpu.step(&mut mem).unwrap();
    assert_eq!(cpu.reg.e, 0xFE);
    assert_eq!(cpu.reg.pc, 0x02);
    assert_eq!(cpu.cycles, 0x08);
}

#[test]
fn main_load_immediate_h() {
    let mut mem = MemoryMap::new(0xFFFF);
    let mut cpu = Cpu::new();
    mem.write(0, 0x26);
    mem.write(1, 0xFE);

    cpu.step(&mut mem).unwrap();
    assert_eq!(cpu.reg.h, 0xFE);
    assert_eq!(cpu.reg.pc, 0x02);
    assert_eq!(cpu.cycles, 0x08);
}

#[test]
fn main_load_immediate_l() {
    let mut mem = MemoryMap::new(0xFFFF);
    let mut cpu = Cpu::new();
    mem.write(0, 0x2E);
    mem.write(1, 0xFE);

    cpu.step(&mut mem).unwrap();
    assert_eq!(cpu.reg.l, 0xFE);
    assert_eq!(cpu.reg.pc, 0x02);
    assert_eq!(cpu.cycles, 0x08);
}

#[test]
fn main_load_a_from_a() {
    let mut mem = MemoryMap::new(0xFFFF);
    let mut cpu = Cpu::new();
    mem.write(0, 0x7F);
    cpu.reg.a = 0x01;

    cpu.step(&mut mem).unwrap();
    assert_eq!(cpu.reg.a, 0x01);
    assert_eq!(cpu.reg.pc, 0x01);
    assert_eq!(cpu.cycles, 0x04);
}

#[test]
fn main_load_a_from_b() {
    let mut mem = MemoryMap::new(0xFFFF);
    let mut cpu = Cpu::new();
    mem.write(0, 0x78);
    cpu.reg.a = 0x00;
    cpu.reg.b = 0x01;

    cpu.step(&mut mem).unwrap();
    assert_eq!(cpu.reg.a, 0x01);
    assert_eq!(cpu.reg.b, 0x01);
    assert_eq!(cpu.reg.pc, 0x01);
    assert_eq!(cpu.cycles, 0x04);
}

#[test]
fn main_load_a_from_c() {
    let mut mem = MemoryMap::new(0xFFFF);
    let mut cpu = Cpu::new();
    mem.write(0, 0x79);
    cpu.reg.a = 0x00;
    cpu.reg.c = 0x01;

    cpu.step(&mut mem).unwrap();
    assert_eq!(cpu.reg.a, 0x01);
    assert_eq!(cpu.reg.c, 0x01);
    assert_eq!(cpu.reg.pc, 0x01);
    assert_eq!(cpu.cycles, 0x04);
}

#[test]
fn main_load_a_from_d() {
    let mut mem = MemoryMap::new(0xFFFF);
    let mut cpu = Cpu::new();
    mem.write(0, 0x7A);
    cpu.reg.a = 0x00;
    cpu.reg.d = 0x01;

    cpu.step(&mut mem).unwrap();
    assert_eq!(cpu.reg.a, 0x01);
    assert_eq!(cpu.reg.d, 0x01);
    assert_eq!(cpu.reg.pc, 0x01);
    assert_eq!(cpu.cycles, 0x04);
}

#[test]
fn main_load_a_from_e() {
    let mut mem = MemoryMap::new(0xFFFF);
    let mut cpu = Cpu::new();
    mem.write(0, 0x7B);
    cpu.reg.a = 0x00;
    cpu.reg.e = 0x01;

    cpu.step(&mut mem).unwrap();
    assert_eq!(cpu.reg.a, 0x01);
    assert_eq!(cpu.reg.e, 0x01);
    assert_eq!(cpu.reg.pc, 0x01);
    assert_eq!(cpu.cycles, 0x04);
}

#[test]
fn main_load_a_from_h() {
    let mut mem = MemoryMap::new(0xFFFF);
    let mut cpu = Cpu::new();
    mem.write(0, 0x7C);
    cpu.reg.a = 0x00;
    cpu.reg.h = 0x01;

    cpu.step(&mut mem).unwrap();
    assert_eq!(cpu.reg.a, 0x01);
    assert_eq!(cpu.reg.h, 0x01);
    assert_eq!(cpu.reg.pc, 0x01);
    assert_eq!(cpu.cycles, 0x04);
}

#[test]
fn main_load_a_from_l() {
    let mut mem = MemoryMap::new(0xFFFF);
    let mut cpu = Cpu::new();
    mem.write(0, 0x7D);
    cpu.reg.a = 0x00;
    cpu.reg.l = 0x01;

    cpu.step(&mut mem).unwrap();
    assert_eq!(cpu.reg.a, 0x01);
    assert_eq!(cpu.reg.l, 0x01);
    assert_eq!(cpu.reg.pc, 0x01);
    assert_eq!(cpu.cycles, 0x04);
}
