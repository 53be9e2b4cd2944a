use gbemu::gb_cpu::{executeInstruction, isFlagSet, setFlag, CPUState, Flag};
use gbemu::gb_memory::{readByteFromMemory, writeByteToMemory, MemoryMapState};

const Zero: Flag = Flag::Zero;
const Neg: Flag = Flag::Neg;
const Half: Flag = Flag::Half;
const Carry: Flag = Flag::Carry;

fn tetrisMemoryState() -> MemoryMapState {
    let mut mem = MemoryMapState::new();
    let mut rom = vec![0u8; 0x8000];
    rom[0] = 0xC3;
    rom[1] = 0x0C;
    mem.romData = rom;
    mem
}

fn testingCPU() -> CPUState {
    let mut cpu = CPUState::new();
    cpu.PC = 0xC000;
    cpu.SP = 0xFFFE;
    cpu
}

/// Stores a value in the operand of a prefixed opcode (the byte at
/// 0xCCBB through HL for operand 6).
fn storeValue(cpu: &mut CPUState, mem: &mut MemoryMapState, value: u8, inst: u8) {
    match inst % 8 {
        0 => cpu.B = value,
        1 => cpu.C = value,
        2 => cpu.D = value,
        3 => cpu.E = value,
        4 => cpu.H = value,
        5 => cpu.L = value,
        6 => {
            cpu.H = 0xCC;
            cpu.L = 0xBB;
            writeByteToMemory(mem, value, 0xCCBB);
        }
        _ => cpu.A = value,
    }
}

fn loadValue(cpu: &CPUState, mem: &MemoryMapState, inst: u8) -> u8 {
    match inst % 8 {
        0 => cpu.B,
        1 => cpu.C,
        2 => cpu.D,
        3 => cpu.E,
        4 => cpu.H,
        5 => cpu.L,
        6 => readByteFromMemory(mem, 0xCCBB),
        _ => cpu.A,
    }
}

fn flags_are(cpu: &CPUState, z: bool, n: bool, h: bool, c: bool) {
    assert_eq!(isFlagSet(Zero, cpu.F), z);
    assert_eq!(isFlagSet(Neg, cpu.F), n);
    assert_eq!(isFlagSet(Half, cpu.F), h);
    assert_eq!(isFlagSet(Carry, cpu.F), c);
}

/// Runs a sequence of (value, expected result, Zero, Carry) cases of a
/// rotate on one register, on one CPU.
fn rotate_cases(cb: u8, cases: &[(u8, u8, bool, bool)]) {
    let mut cpu = testingCPU();
    let mut mem = tetrisMemoryState();
    writeByteToMemory(&mut mem, cb, cpu.PC + 1);
    let cycles = if cb % 8 == 6 { 16 } else { 8 };
    for (k, &(value, expected, z, c)) in cases.iter().enumerate() {
        if k > 0 || cb % 8 == 6 {
            storeValue(&mut cpu, &mut mem, value, cb);
        }
        let (newPC, cyclesTaken) = executeInstruction(0xCB, &mut cpu, &mut mem);
        assert_eq!(loadValue(&cpu, &mem, cb), expected);
        flags_are(&cpu, z, false, false, c);
        assert!(newPC == cpu.PC + 2);
        assert!(cyclesTaken == cycles);
    }
}

#[test]
fn rotateLeftCB() {
    for cb in [0u8, 1, 2, 3, 4, 5, 7] {
        rotate_cases(cb, &[(0, 0, true, false), (0x88, 0x11, false, true), (0x7F, 0xFE, false, false)]);
    }
}

#[test]
fn rotateLeftCBAtHL() {
    rotate_cases(6, &[(0, 0, true, false), (0x88, 0x11, false, true), (0x7F, 0xFE, false, false)]);
}

#[test]
fn rotateRightCB() {
    for cb in [8u8, 9, 0xA, 0xB, 0xC, 0xD, 0xF] {
        rotate_cases(cb, &[(0, 0, true, false), (0x11, 0x88, false, true), (0x76, 0x3B, false, false)]);
    }
}

#[test]
fn rotateRightCBAtHL() {
    rotate_cases(0xE, &[(0, 0, true, false), (0x11, 0x88, false, true), (0x76, 0x3B, false, false)]);
}

/// One case of a rotate through carry on a fresh CPU.
fn through_carry(cb: u8, value: u8, expected: u8, setC: bool, isCSet: bool) {
    let mut cpu = testingCPU();
    let mut mem = tetrisMemoryState();
    writeByteToMemory(&mut mem, cb, cpu.PC + 1);
    storeValue(&mut cpu, &mut mem, value, cb);
    if setC {
        setFlag(Carry, &mut cpu.F);
    }
    let (newPC, cyclesTaken) = executeInstruction(0xCB, &mut cpu, &mut mem);
    assert!(loadValue(&cpu, &mem, cb) == expected);
    flags_are(&cpu, expected == 0, false, false, isCSet);
    assert!(newPC == cpu.PC + 2);
    assert!(cyclesTaken == if cb % 8 == 6 { 16 } else { 8 });
}

#[test]
fn rotateLeftThroughCarryCB() {
    for cb in [0x10u8, 0x11, 0x12, 0x13, 0x14, 0x15, 0x17] {
        through_carry(cb, 0, 0, false, false);
        through_carry(cb, 0x88, 0x10, false, true);
        through_carry(cb, 0x7F, 0xFE, false, false);
        through_carry(cb, 0x80, 0x1, true, true);
    }
}

#[test]
fn rotateLeftThroughCarryAtHLCB() {
    through_carry(0x16, 0, 0, false, false);
    through_carry(0x16, 0x88, 0x10, false, true);
    through_carry(0x16, 0x7F, 0xFE, false, false);
    through_carry(0x16, 0x80, 0x1, true, true);
}

#[test]
fn rotateRightThroughCarryCB() {
    for cb in [0x18u8, 0x19, 0x1A, 0x1B, 0x1C, 0x1D, 0x1F] {
        through_carry(cb, 0, 0, false, false);
        through_carry(cb, 0x11, 0x8, false, true);
        through_carry(cb, 0x88, 0x44, false, false);
        through_carry(cb, 0x81, 0xC0, true, true);
    }
}

#[test]
fn rotateRightThroughCarryAtHLCB() {
    through_carry(0x1E, 0, 0, false, false);
    through_carry(0x1E, 0x11, 0x8, false, true);
    through_carry(0x1E, 0x88, 0x44, false, false);
    through_carry(0x1E, 0x81, 0xC0, true, true);
}

#[test]
fn cbInstructions() {
    let mut cpu = testingCPU();
    let mut mem = tetrisMemoryState();
    for i in 0x20u8..0xFF {
        writeByteToMemory(&mut mem, i, cpu.PC + 1);
        cpu.F = 0xF0;
        let exec = |cpu: &mut CPUState, mem: &mut MemoryMapState| {
            let (newPC, cyclesTaken) = executeInstruction(0xCB, cpu, mem);
            if (i & 0xF) % 8 == 6 {
                assert_eq!(cyclesTaken, 16);
            } else {
                assert_eq!(cyclesTaken, 8);
            }
            assert_eq!(newPC, cpu.PC + 2);
        };
        let mut case = |value: u8, cpu: &mut CPUState, mem: &mut MemoryMapState| {
            storeValue(cpu, mem, value, i);
            exec(cpu, mem);
        };
        match i {
            0x20..=0x27 => {
                case(0x80, &mut cpu, &mut mem);
                assert_eq!(loadValue(&cpu, &mem, i), 0);
                flags_are(&cpu, true, false, false, true);
                case(0x11, &mut cpu, &mut mem);
                assert_eq!(loadValue(&cpu, &mem, i), 0x22);
                assert_eq!(0, cpu.F);
            }
            0x28..=0x2F => {
                case(0x80, &mut cpu, &mut mem);
                assert_eq!(loadValue(&cpu, &mem, i), 0xC0);
                assert_eq!(0, cpu.F);
                case(1, &mut cpu, &mut mem);
                assert_eq!(loadValue(&cpu, &mem, i), 0);
                flags_are(&cpu, true, false, false, true);
            }
            0x30..=0x37 => {
                case(0x80, &mut cpu, &mut mem);
                assert_eq!(loadValue(&cpu, &mem, i), 0x08);
                assert_eq!(0, cpu.F);
                case(0, &mut cpu, &mut mem);
                assert_eq!(loadValue(&cpu, &mem, i), 0);
                flags_are(&cpu, true, false, false, false);
            }
            0x38..=0x3F => {
                case(0x80, &mut cpu, &mut mem);
                assert_eq!(loadValue(&cpu, &mem, i), 0x40);
                assert_eq!(0, cpu.F);
                case(1, &mut cpu, &mut mem);
                assert_eq!(loadValue(&cpu, &mem, i), 0);
                flags_are(&cpu, true, false, false, true);
            }
            0x40..=0x7F => {
                let pairs = [(0x80u8, 0x81u8), (0x81, 0x83), (0x83, 0x87), (0x87, 0x8F), (0x8F, 0x90), (0x90, 0x20), (0x20, 0x40), (0x40, 0x80)];
                let (zero_value, one_value) = pairs[((i - 0x40) / 8) as usize];
                for (value, shouldZeroBeSet) in [(zero_value, true), (one_value, false)] {
                    case(value, &mut cpu, &mut mem);
                    assert!(!isFlagSet(Neg, cpu.F));
                    assert!(isFlagSet(Half, cpu.F));
                    assert_eq!(isFlagSet(Zero, cpu.F), shouldZeroBeSet);
                }
            }
            0x80..=0xBF => {
                let pairs = [(0xFFu8, 0xFEu8), (0xF3, 0xF1), (0x44, 0x40), (0x4C, 0x44), (0x1C, 0xC), (0x2C, 0xC), (0x4C, 0xC), (0xFC, 0x7C)];
                let (initial, result) = pairs[((i - 0x80) / 8) as usize];
                case(initial, &mut cpu, &mut mem);
                assert_eq!(loadValue(&cpu, &mem, i), result);
            }
            _ => {
                let pairs = [(0u8, 1u8), (4, 6), (4, 4), (0x7, 0xF), (0, 0x10), (0, 0x20), (0, 0x40), (0, 0x80)];
                let (initial, result) = pairs[((i - 0xC0) / 8) as usize];
                case(initial, &mut cpu, &mut mem);
                assert_eq!(loadValue(&cpu, &mem, i), result);
            }
        }
    }
}
