use gbemu::gb_cpu::{executeInstruction, isFlagSet, setFlag, CPUState, Flag};
use gbemu::gb_memory::{readByteFromMemory, writeByteToMemory, MemoryMapState};

fn tetrisMemoryState() -> MemoryMapState {
    let mut mem = MemoryMapState::new();
    let mut rom = vec![0u8; 0x8000];
    rom[0] = 0xC3;
    rom[1] = 0x0C;
    mem.romData = rom;
    mem
}

fn testingCPU() -> CPUState {
    let mut cpu = CPUState::new();
    cpu.PC = 0xC000;
    cpu.SP = 0xFFFE;
    cpu
}

fn reg(cpu: &mut CPUState, name: char) -> &mut u8 {
    match name {
        'A' => &mut cpu.A,
        'B' => &mut cpu.B,
        'C' => &mut cpu.C,
        'D' => &mut cpu.D,
        'E' => &mut cpu.E,
        'H' => &mut cpu.H,
        'L' => &mut cpu.L,
        _ => unreachable!(),
    }
}

/// Sets A to `a` and the operand to `v`, then executes `inst`. The
/// operand is a register, 'M' for the byte at 0xCCDD through HL, 'I' for
/// the byte after the opcode, or 'A' for A itself (then `v` is unused).
fn run(cpu: &mut CPUState, mem: &mut MemoryMapState, inst: u8, src: char, a: u8, v: u8) -> (u16, u32) {
    cpu.A = a;
    match src {
        'A' => {}
        'M' => {
            cpu.H = 0xCC;
            cpu.L = 0xDD;
            writeByteToMemory(mem, v, 0xCCDD);
        }
        'I' => writeByteToMemory(mem, v, cpu.PC + 1),
        r => *reg(cpu, r) = v,
    }
    executeInstruction(inst, cpu, mem)
}

/// Checks PC advance, cycles, A and the four flags (1 set, 0 clear).
fn check(cpu: &CPUState, r: (u16, u32), len: u16, cycles: u32, a: u8, z: u8, n: u8, h: u8, c: u8) {
    assert_eq!(r.1, cycles);
    assert_eq!(r.0, cpu.PC + len);
    assert_eq!(cpu.A, a);
    assert_eq!(isFlagSet(Flag::Zero, cpu.F), z == 1);
    assert_eq!(isFlagSet(Flag::Neg, cpu.F), n == 1);
    assert_eq!(isFlagSet(Flag::Half, cpu.F), h == 1);
    assert_eq!(isFlagSet(Flag::Carry, cpu.F), c == 1);
}

fn shape(src: char) -> (u16, u32) {
    match src {
        'M' => (1, 8),
        'I' => (2, 8),
        _ => (1, 4),
    }
}

/// The three cases of the addition tests: AA+11, AE+2, FF+1.
fn add_cases(inst: u8, src: char, with_carry: bool) {
    let mut cpu = testingCPU();
    let mut mem = tetrisMemoryState();
    let (len, cycles) = shape(src);
    if with_carry {
        setFlag(Flag::Carry, &mut cpu.F);
    }
    let r = run(&mut cpu, &mut mem, inst, src, 0xAA, 0x11);
    check(&cpu, r, len, cycles, if with_carry { 0xBC } else { 0xBB }, 0, 0, 0, 0);
    assert!(cpu.F == 0);
    if src == 'M' {
        assert!(readByteFromMemory(&mem, 0xCCDD) == 0x11);
    } else if src != 'I' {
        assert!(*reg(&mut cpu, src) == 0x11);
    }
    let r = run(&mut cpu, &mut mem, inst, src, 0xAE, 2);
    check(&cpu, r, len, cycles, 0xB0, 0, 0, 1, 0);
    let r = run(&mut cpu, &mut mem, inst, src, 0xFF, 1);
    check(&cpu, r, len, cycles, 0, 1, 0, 1, 1);
}

#[test]
fn add8Bit() {
    for (r, inst) in [('B', 0x80u8), ('C', 0x81), ('D', 0x82), ('E', 0x83), ('H', 0x84), ('L', 0x85)] {
        add_cases(inst, r, false);
    }
}

#[test]
fn add8BitFromMemAtHL() {
    add_cases(0x86, 'M', false);
}

#[test]
fn add8BitFromMem() {
    add_cases(0xC6, 'I', false);
}

fn add_a_to_a(inst: u8, with_carry: bool) {
    let mut cpu = testingCPU();
    let mut mem = tetrisMemoryState();
    if with_carry {
        setFlag(Flag::Carry, &mut cpu.F);
    }
    let r = run(&mut cpu, &mut mem, inst, 'A', 0x66, 0);
    check(&cpu, r, 1, 4, if with_carry { 0xCD } else { 0xCC }, 0, 0, 0, 0);
    assert!(cpu.F == 0);
    let r = run(&mut cpu, &mut mem, inst, 'A', 0x29, 0);
    check(&cpu, r, 1, 4, 0x52, 0, 0, 1, 0);
    let r = run(&mut cpu, &mut mem, inst, 'A', 0x80, 0);
    check(&cpu, r, 1, 4, 0, 1, 0, 0, 1);
}

#[test]
fn addAtoA() {
    add_a_to_a(0x87, false);
}

#[test]
fn addCarry8BitFromRegister() {
    for (r, inst) in [('B', 0x88u8), ('C', 0x89), ('D', 0x8A), ('E', 0x8B), ('H', 0x8C), ('L', 0x8D)] {
        add_cases(inst, r, true);
    }
}

#[test]
fn addCarry8BitFromMemAtHL() {
    add_cases(0x8E, 'M', true);
}

#[test]
fn addCarry8BitFromMem() {
    add_cases(0xCE, 'I', true);
}

#[test]
fn addCarryAtoA() {
    add_a_to_a(0x8F, true);
}

/// The three cases of the subtraction tests: AA-11, 1-FF, AA-AA. With
/// `sbc` the carry of each case feeds the next; `set_carry` sets Carry
/// before the first.
fn sub_cases(inst: u8, src: char, set_carry: bool, sbc: bool, compare: bool) {
    let mut cpu = testingCPU();
    let mut mem = tetrisMemoryState();
    let (len, cycles) = shape(src);
    if set_carry {
        setFlag(Flag::Carry, &mut cpu.F);
    }
    let first = if sbc && set_carry { 0x98 } else { 0x99 };
    let r = run(&mut cpu, &mut mem, inst, src, 0xAA, 0x11);
    check(&cpu, r, len, cycles, if compare { 0xAA } else { first }, 0, 1, 0, 0);
    if src != 'M' && src != 'I' {
        assert!(*reg(&mut cpu, src) == 0x11);
    }
    let r = run(&mut cpu, &mut mem, inst, src, 0x1, 0xFF);
    check(&cpu, r, len, cycles, if compare { 1 } else { 2 }, 0, 1, 1, 1);
    let r = run(&mut cpu, &mut mem, inst, src, 0xAA, 0xAA);
    if sbc {
        check(&cpu, r, len, cycles, 0xFF, 0, 1, 1, 1);
    } else {
        check(&cpu, r, len, cycles, if compare { 0xAA } else { 0 }, 1, 1, 0, 0);
    }
}

#[test]
fn sub8Bit() {
    for (r, inst) in [('B', 0x90u8), ('C', 0x91), ('D', 0x92), ('E', 0x93), ('H', 0x94), ('L', 0x95)] {
        sub_cases(inst, r, true, false, false);
    }
}

#[test]
fn sub8BitFromMemAtHL() {
    sub_cases(0x96, 'M', true, false, false);
}

#[test]
fn sub8BitFromMem() {
    sub_cases(0xD6, 'I', true, false, false);
}

#[test]
fn subAFromA() {
    let mut cpu = testingCPU();
    let mut mem = tetrisMemoryState();
    let r = run(&mut cpu, &mut mem, 0x97, 'A', 0xAA, 0);
    check(&cpu, r, 1, 4, 0, 1, 1, 0, 0);
}

#[test]
fn subCarry8Bit() {
    for (r, inst) in [('B', 0x98u8), ('C', 0x99), ('D', 0x9A), ('E', 0x9B), ('H', 0x9C), ('L', 0x9D)] {
        sub_cases(inst, r, true, true, false);
    }
}

#[test]
fn subCarry8BitFromMemAtHL() {
    sub_cases(0x9E, 'M', false, true, false);
}

#[test]
fn subCarry8BitFromMem() {
    sub_cases(0xDE, 'I', false, true, false);
}

#[test]
fn subCarryAFromA() {
    let mut cpu = testingCPU();
    let mut mem = tetrisMemoryState();
    setFlag(Flag::Carry, &mut cpu.F);
    let r = run(&mut cpu, &mut mem, 0x9F, 'A', 0xAA, 0);
    check(&cpu, r, 1, 4, 0xFF, 0, 1, 1, 1);
}

fn and_cases(inst: u8, src: char) {
    let mut cpu = testingCPU();
    let mut mem = tetrisMemoryState();
    let (len, cycles) = shape(src);
    let r = run(&mut cpu, &mut mem, inst, src, 0xAA, 0x22);
    check(&cpu, r, len, cycles, 0x22, 0, 0, 1, 0);
    if src == 'M' {
        assert!(readByteFromMemory(&mem, 0xCCDD) == 0x22);
    } else if src != 'I' {
        assert!(*reg(&mut cpu, src) == 0x22);
    }
    let r = run(&mut cpu, &mut mem, inst, src, 0xAA, 0x55);
    check(&cpu, r, len, cycles, 0, 1, 0, 1, 0);
}

#[test]
fn andRegToA() {
    for (r, inst) in [('B', 0xA0u8), ('C', 0xA1), ('D', 0xA2), ('E', 0xA3), ('H', 0xA4), ('L', 0xA5)] {
        and_cases(inst, r);
    }
}

#[test]
fn andMemAtHLToA() {
    and_cases(0xA6, 'M');
}

#[test]
fn andMemToA() {
    and_cases(0xE6, 'I');
}

#[test]
fn andAToA() {
    let mut cpu = testingCPU();
    let mut mem = tetrisMemoryState();
    let r = run(&mut cpu, &mut mem, 0xA7, 'A', 0xAA, 0);
    check(&cpu, r, 1, 4, 0xAA, 0, 0, 1, 0);
    let r = run(&mut cpu, &mut mem, 0xA7, 'A', 0, 0);
    check(&cpu, r, 1, 4, 0, 1, 0, 1, 0);
}

fn xor_cases(inst: u8, src: char) {
    let mut cpu = testingCPU();
    let mut mem = tetrisMemoryState();
    let (len, cycles) = shape(src);
    let r = run(&mut cpu, &mut mem, inst, src, 0xAA, 0xAA);
    check(&cpu, r, len, cycles, 0, 1, 0, 0, 0);
    if src == 'M' {
        assert!(readByteFromMemory(&mem, 0xCCDD) == 0xAA);
    } else if src != 'I' {
        assert!(*reg(&mut cpu, src) == 0xAA);
    }
    let r = run(&mut cpu, &mut mem, inst, src, 0xAA, 0x55);
    check(&cpu, r, len, cycles, 0xFF, 0, 0, 0, 0);
}

#[test]
fn xorRegToA() {
    for (r, inst) in [('B', 0xA8u8), ('C', 0xA9), ('D', 0xAA), ('E', 0xAB), ('H', 0xAC), ('L', 0xAD)] {
        xor_cases(inst, r);
    }
}

#[test]
fn xorMemAtHLToA() {
    xor_cases(0xAE, 'M');
}

#[test]
fn xorMemToA() {
    xor_cases(0xEE, 'I');
}

#[test]
fn xorAToA() {
    let mut cpu = testingCPU();
    let mut mem = tetrisMemoryState();
    let r = run(&mut cpu, &mut mem, 0xAF, 'A', 0xAA, 0);
    check(&cpu, r, 1, 4, 0, 1, 0, 0, 0);
}

fn or_cases(inst: u8, src: char) {
    let mut cpu = testingCPU();
    let mut mem = tetrisMemoryState();
    let (len, cycles) = shape(src);
    let r = run(&mut cpu, &mut mem, inst, src, 0, 0);
    check(&cpu, r, len, cycles, 0, 1, 0, 0, 0);
    let r = run(&mut cpu, &mut mem, inst, src, 0xAA, 0xFF);
    check(&cpu, r, len, cycles, 0xFF, 0, 0, 0, 0);
}

#[test]
fn orRegToA() {
    for (r, inst) in [('B', 0xB0u8), ('C', 0xB1), ('D', 0xB2), ('E', 0xB3), ('H', 0xB4), ('L', 0xB5)] {
        or_cases(inst, r);
    }
}

#[test]
fn orMemAtHLToA() {
    or_cases(0xB6, 'M');
}

#[test]
fn orMemLToA() {
    or_cases(0xF6, 'I');
}

#[test]
fn orAToA() {
    let mut cpu = testingCPU();
    let mut mem = tetrisMemoryState();
    let r = run(&mut cpu, &mut mem, 0xB7, 'A', 0xAA, 0);
    check(&cpu, r, 1, 4, 0xAA, 0, 0, 0, 0);
}

#[test]
fn compare8Bit() {
    for (r, inst) in [('B', 0xB8u8), ('C', 0xB9), ('D', 0xBA), ('E', 0xBB), ('H', 0xBC), ('L', 0xBD)] {
        sub_cases(inst, r, true, false, true);
    }
}

#[test]
fn compare8BitFromMemAtHL() {
    sub_cases(0xBE, 'M', true, false, true);
}

#[test]
fn compare8BitFromMem() {
    sub_cases(0xFE, 'I', true, false, true);
}

#[test]
fn compareAToA() {
    let mut cpu = testingCPU();
    let mut mem = tetrisMemoryState();
    let r = run(&mut cpu, &mut mem, 0xBF, 'A', 0xAA, 0);
    check(&cpu, r, 1, 4, 0xAA, 1, 1, 0, 0);
}
