//! The CPU: register file, flag helpers, instruction semantics and the
//! interpreter.
use vstd::prelude::*;
use crate::gb_util::{word_spec, word, hb, lb};
use crate::gb_memory::{
    MemoryMapState,
    MemView,
    read_spec,
    read_word_spec,
    write_spec,
    write_word_spec,
    readByteFromMemory,
    readWordFromMemory,
    writeByteToMemory,
    writeWordToMemory,
};

verus! {

/// The register file. Only the top four bits of `F` carry flags.
#[derive(PartialEq, Eq, Structural, Copy, Clone, Debug)]
pub struct CPUState {
    pub PC: u16,
    pub SP: u16,
    pub A: u8,
    pub B: u8,
    pub C: u8,
    pub D: u8,
    pub E: u8,
    pub F: u8,
    pub H: u8,
    pub L: u8,
    /// Total cycles since power-on (wrapping).
    pub totalCycles: u32,
    /// Cycles taken by the last step.
    pub instructionCycles: u32,
    /// The interrupt master-enable flag.
    pub enableInterrupts: bool,
}

impl CPUState {
    /// Power-on state: every register zero, interrupts disabled.
    pub open spec fn new_spec() -> CPUState {
        CPUState {
            PC: 0,
            SP: 0,
            A: 0,
            B: 0,
            C: 0,
            D: 0,
            E: 0,
            F: 0,
            H: 0,
            L: 0,
            totalCycles: 0,
            instructionCycles: 0,
            enableInterrupts: false,
        }
    }

    pub fn new() -> (r: CPUState)
        ensures
            r == Self::new_spec(),
            r == (CPUState {
                PC: 0,
                SP: 0,
                A: 0,
                B: 0,
                C: 0,
                D: 0,
                E: 0,
                F: 0,
                H: 0,
                L: 0,
                totalCycles: 0,
                instructionCycles: 0,
                enableInterrupts: false,
            }),
    {
        CPUState {
            PC: 0,
            SP: 0,
            A: 0,
            B: 0,
            C: 0,
            D: 0,
            E: 0,
            F: 0,
            H: 0,
            L: 0,
            totalCycles: 0,
            instructionCycles: 0,
            enableInterrupts: false,
        }
    }
}

/// The four flags, each a bit of `F`.
#[derive(PartialEq, Eq, Structural, Copy, Clone, Debug)]
pub enum Flag {
    Zero,
    Neg,
    Half,
    Carry,
}

pub open spec fn flag_mask(flag: Flag) -> u8 {
    match flag {
        Flag::Zero => 0x80,
        Flag::Neg => 0x40,
        Flag::Half => 0x20,
        Flag::Carry => 0x10,
    }
}

fn mask_of(flag: Flag) -> (r: u8)
    ensures
        r == flag_mask(flag),
{
    match flag {
        Flag::Zero => 0x80,
        Flag::Neg => 0x40,
        Flag::Half => 0x20,
        Flag::Carry => 0x10,
    }
}

/// Sets one flag, leaving the other bits.
pub fn setFlag(flag: Flag, F: &mut u8)
    ensures
        *final(F) == *old(F) | flag_mask(flag),
{
    *F = *F | mask_of(flag);
}

/// Clears one flag, leaving the other bits.
pub fn clearFlag(flag: Flag, F: &mut u8)
    ensures
        *final(F) == *old(F) & !flag_mask(flag),
{
    *F = *F & !mask_of(flag);
}

/// Whether a flag is set in `F`.
pub fn isFlagSet(flag: Flag, F: u8) -> (r: bool)
    ensures
        r == (F & flag_mask(flag) != 0),
{
    F & mask_of(flag) != 0
}

pub fn enableInterrupts(cpu: &mut CPUState)
    ensures
        *final(cpu) == (CPUState { enableInterrupts: true, ..*old(cpu) }),
{
    cpu.enableInterrupts = true;
}

pub fn disableInterrupts(cpu: &mut CPUState)
    ensures
        *final(cpu) == (CPUState { enableInterrupts: false, ..*old(cpu) }),
{
    cpu.enableInterrupts = false;
}

// ---------------------------------------------------------------------
// Flags and arithmetic
// ---------------------------------------------------------------------

/// The flag byte with the given Zero, Negative, Half-Carry and Carry.
pub open spec fn flags_spec(z: bool, n: bool, h: bool, c: bool) -> u8 {
    (if z { 0x80u8 } else { 0u8 }) | (if n { 0x40u8 } else { 0u8 }) | (if h { 0x20u8 } else { 0u8 })
        | (if c { 0x10u8 } else { 0u8 })
}

pub open spec fn zf(f: u8) -> bool {
    f & 0x80 != 0
}

pub open spec fn nf(f: u8) -> bool {
    f & 0x40 != 0
}

pub open spec fn hf(f: u8) -> bool {
    f & 0x20 != 0
}

pub open spec fn cf(f: u8) -> bool {
    f & 0x10 != 0
}

pub open spec fn carry_in(f: u8) -> int {
    if cf(f) {
        1
    } else {
        0
    }
}

/// The flags read back from a flag byte are those it was made from, and
/// its low nibble is clear.
pub proof fn lemma_flags(z: bool, n: bool, h: bool, c: bool)
    ensures
        zf(flags_spec(z, n, h, c)) == z,
        nf(flags_spec(z, n, h, c)) == n,
        hf(flags_spec(z, n, h, c)) == h,
        cf(flags_spec(z, n, h, c)) == c,
        flags_spec(z, n, h, c) % 16 == 0,
{
    let zb: u8 = if z { 0x80u8 } else { 0u8 };
    let nb: u8 = if n { 0x40u8 } else { 0u8 };
    let hb: u8 = if h { 0x20u8 } else { 0u8 };
    let cb: u8 = if c { 0x10u8 } else { 0u8 };
    assert(((zb | nb | hb | cb) & 0x80 != 0) == (zb != 0) && ((zb | nb | hb | cb) & 0x40 != 0) == (
    nb != 0) && ((zb | nb | hb | cb) & 0x20 != 0) == (hb != 0) && ((zb | nb | hb | cb) & 0x10 != 0)
        == (cb != 0) && (zb | nb | hb | cb) % 16 == 0) by (bit_vector)
        requires
            zb == 0 || zb == 0x80,
            nb == 0 || nb == 0x40,
            hb == 0 || hb == 0x20,
            cb == 0 || cb == 0x10,
    ;
}

/// The 8-bit arithmetic and logic operations against A, numbered as in
/// the opcode: ADD, ADC, SUB, SBC, AND, XOR, OR, CP. The result is the
/// new A and the new flags.
pub open spec fn alu_spec(op: u8, a: u8, b: u8, f: u8) -> (u8, u8) {
    let c = carry_in(f);
    if op == 0 || op == 1 {
        let ci = if op == 1 { c } else { 0 };
        let sum = a + b + ci;
        let r = (sum % 256) as u8;
        (r, flags_spec(r == 0, false, a % 16 + b % 16 + ci >= 16, sum >= 256))
    } else if op == 2 || op == 3 || op == 7 {
        let ci = if op == 3 { c } else { 0 };
        let r = ((a - b - ci) % 256) as u8;
        let f2 = flags_spec(r == 0, true, a % 16 < b % 16 + ci, a < b + ci);
        if op == 7 {
            (a, f2)
        } else {
            (r, f2)
        }
    } else if op == 4 {
        (a & b, flags_spec(a & b == 0, false, true, false))
    } else if op == 5 {
        (a ^ b, flags_spec(a ^ b == 0, false, false, false))
    } else {
        (a | b, flags_spec(a | b == 0, false, false, false))
    }
}

/// INC of an 8-bit value: Carry kept.
pub open spec fn inc_spec(v: u8, f: u8) -> (u8, u8) {
    let r = ((v + 1) % 256) as u8;
    (r, flags_spec(r == 0, false, r % 16 == 0, cf(f)))
}

/// DEC of an 8-bit value: Carry kept.
pub open spec fn dec_spec(v: u8, f: u8) -> (u8, u8) {
    let r = ((v - 1) % 256) as u8;
    (r, flags_spec(r == 0, true, r % 16 == 15, cf(f)))
}

/// The rotates and shifts of the 0xCB-prefixed set, numbered as in the
/// opcode: RLC, RRC, RL, RR, SLA, SRA, SWAP, SRL. Zero comes from the
/// result; Negative and Half-Carry are cleared.
pub open spec fn rotate_spec(kind: u8, v: u8, f: u8) -> (u8, u8) {
    let (r, c) = if kind == 0 {
        (((v * 2 + v / 128) % 256) as u8, v >= 128)
    } else if kind == 1 {
        ((v / 2 + v % 2 * 128) as u8, v % 2 == 1)
    } else if kind == 2 {
        (((v * 2 + carry_in(f)) % 256) as u8, v >= 128)
    } else if kind == 3 {
        ((v / 2 + carry_in(f) * 128) as u8, v % 2 == 1)
    } else if kind == 4 {
        (((v * 2) % 256) as u8, v >= 128)
    } else if kind == 5 {
        ((v / 2 + v / 128 * 128) as u8, v % 2 == 1)
    } else if kind == 6 {
        ((v % 16 * 16 + v / 16) as u8, false)
    } else {
        ((v / 2) as u8, v % 2 == 1)
    };
    (r, flags_spec(r == 0, false, false, c))
}

/// The byte read as a two's complement number.
pub open spec fn signed8(b: u8) -> int {
    if b >= 128 {
        b - 256
    } else {
        b as int
    }
}

pub open spec fn wrap16(x: int) -> u16 {
    (x % 0x10000) as u16
}

/// SP plus a signed byte, with the flags of ADD SP,r8: Zero and
/// Negative cleared, Half-Carry and Carry from the low nibble and low
/// byte.
pub open spec fn add_sp_spec(sp: u16, e: u8) -> (u16, u8) {
    (wrap16(sp + signed8(e)), flags_spec(false, false, sp % 16 + e % 16 >= 16, sp % 256 + e >= 256))
}

/// Decimal adjustment of A after a BCD addition or subtraction.
pub open spec fn daa_spec(a: u8, f: u8) -> (u8, u8) {
    if !nf(f) {
        let c = cf(f) || a > 0x99;
        let adj = (if c { 0x60int } else { 0 }) + (if hf(f) || a % 16 > 9 { 6int } else { 0 });
        let r = ((a + adj) % 256) as u8;
        (r, flags_spec(r == 0, false, false, c))
    } else {
        let adj = (if cf(f) { 0x60int } else { 0 }) + (if hf(f) { 6int } else { 0 });
        let r = ((a - adj) % 256) as u8;
        (r, flags_spec(r == 0, true, false, cf(f)))
    }
}

/// Whether a branch condition holds: NZ, Z, NC, C.
pub open spec fn cond_spec(f: u8, k: u8) -> bool {
    if k == 0 {
        !zf(f)
    } else if k == 1 {
        zf(f)
    } else if k == 2 {
        !cf(f)
    } else {
        cf(f)
    }
}

// ---------------------------------------------------------------------
// Registers and operands
// ---------------------------------------------------------------------

/// The 8-bit register with operand number `r` (0 B, 1 C, 2 D, 3 E, 4 H,
/// 5 L, 7 A; 6 names memory at HL and is handled by `operand_spec`).
pub open spec fn reg_spec(cpu: CPUState, r: u8) -> u8 {
    if r == 0 {
        cpu.B
    } else if r == 1 {
        cpu.C
    } else if r == 2 {
        cpu.D
    } else if r == 3 {
        cpu.E
    } else if r == 4 {
        cpu.H
    } else if r == 5 {
        cpu.L
    } else {
        cpu.A
    }
}

pub open spec fn set_reg_spec(cpu: CPUState, r: u8, v: u8) -> CPUState {
    if r == 0 {
        CPUState { B: v, ..cpu }
    } else if r == 1 {
        CPUState { C: v, ..cpu }
    } else if r == 2 {
        CPUState { D: v, ..cpu }
    } else if r == 3 {
        CPUState { E: v, ..cpu }
    } else if r == 4 {
        CPUState { H: v, ..cpu }
    } else if r == 5 {
        CPUState { L: v, ..cpu }
    } else {
        CPUState { A: v, ..cpu }
    }
}

pub open spec fn hl_spec(cpu: CPUState) -> u16 {
    word_spec(cpu.H, cpu.L)
}

/// The value of operand `r`: a register, or for 6 the byte at HL.
pub open spec fn operand_spec(cpu: CPUState, m: MemView, r: u8) -> u8 {
    if r == 6 {
        read_spec(m, hl_spec(cpu))
    } else {
        reg_spec(cpu, r)
    }
}

/// Stores `v` in operand `r`.
pub open spec fn set_operand_spec(cpu: CPUState, m: MemView, r: u8, v: u8) -> (CPUState, MemView) {
    if r == 6 {
        (cpu, write_spec(m, hl_spec(cpu), v))
    } else {
        (set_reg_spec(cpu, r, v), m)
    }
}

/// The register pair or SP numbered `p`: BC, DE, HL, SP.
pub open spec fn rp_spec(cpu: CPUState, p: u8) -> u16 {
    if p == 0 {
        word_spec(cpu.B, cpu.C)
    } else if p == 1 {
        word_spec(cpu.D, cpu.E)
    } else if p == 2 {
        word_spec(cpu.H, cpu.L)
    } else {
        cpu.SP
    }
}

pub open spec fn hi8(v: u16) -> u8 {
    (v / 256) as u8
}

pub open spec fn lo8(v: u16) -> u8 {
    (v % 256) as u8
}

pub open spec fn set_rp_spec(cpu: CPUState, p: u8, v: u16) -> CPUState {
    if p == 0 {
        CPUState { B: hi8(v), C: lo8(v), ..cpu }
    } else if p == 1 {
        CPUState { D: hi8(v), E: lo8(v), ..cpu }
    } else if p == 2 {
        CPUState { H: hi8(v), L: lo8(v), ..cpu }
    } else {
        CPUState { SP: v, ..cpu }
    }
}

/// The register pair numbered `p` for PUSH and POP: BC, DE, HL, AF.
pub open spec fn rp2_spec(cpu: CPUState, p: u8) -> u16 {
    if p == 3 {
        word_spec(cpu.A, cpu.F)
    } else {
        rp_spec(cpu, p)
    }
}

/// Loads a pair for POP. Loading AF keeps the low nibble of F clear.
pub open spec fn set_rp2_spec(cpu: CPUState, p: u8, v: u16) -> CPUState {
    if p == 3 {
        CPUState { A: hi8(v), F: (lo8(v) / 16 * 16) as u8, ..cpu }
    } else {
        set_rp_spec(cpu, p, v)
    }
}

/// Pushes a word: SP goes down by two and the word is stored there.
pub open spec fn push_spec(cpu: CPUState, m: MemView, v: u16) -> (CPUState, MemView) {
    let sp = cpu.SP.wrapping_sub(2);
    (CPUState { SP: sp, ..cpu }, write_word_spec(m, sp, v))
}

/// The word on top of the stack, and the registers after popping it.
pub open spec fn pop_spec(cpu: CPUState, m: MemView) -> (u16, CPUState) {
    (read_word_spec(m, cpu.SP), CPUState { SP: cpu.SP.wrapping_add(2), ..cpu })
}

pub open spec fn imm8_spec(cpu: CPUState, m: MemView) -> u8 {
    read_spec(m, cpu.PC.wrapping_add(1))
}

pub open spec fn imm16_spec(cpu: CPUState, m: MemView) -> u16 {
    read_word_spec(m, cpu.PC.wrapping_add(1))
}

// ---------------------------------------------------------------------
// Instruction semantics. Each gives the registers (PC unchanged), the
// bus, and the next PC with the cycles taken.
// ---------------------------------------------------------------------

pub open spec fn next(cpu: CPUState, len: u16, cycles: u32) -> (u16, u32) {
    (cpu.PC.wrapping_add(len), cycles)
}

/// Opcodes 0x00 to 0x3F with low three bits 0: NOP, LD (a16),SP, STOP
/// (which only skips its operand byte here), JR and JR cc.
pub open spec fn misc0_spec(op: u8, cpu: CPUState, m: MemView) -> (CPUState, MemView, (u16, u32)) {
    let y = op / 8;
    if y == 0 {
        (cpu, m, next(cpu, 1, 4))
    } else if y == 1 {
        (cpu, write_word_spec(m, imm16_spec(cpu, m), cpu.SP), next(cpu, 3, 20))
    } else if y == 2 {
        (cpu, m, next(cpu, 2, 4))
    } else if y == 3 || cond_spec(cpu.F, (y - 4) as u8) {
        (cpu, m, (wrap16(cpu.PC + signed8(imm8_spec(cpu, m)) + 2), 12))
    } else {
        (cpu, m, next(cpu, 2, 8))
    }
}

/// Opcodes 0x00 to 0x3F with low three bits 1, 2 or 3: 16-bit loads,
/// ADD HL, loads through a pair, and 16-bit INC and DEC.
pub open spec fn pairs0_spec(op: u8, cpu: CPUState, m: MemView) -> (CPUState, MemView, (u16, u32)) {
    let z = op % 8;
    let p = op / 16;
    let q = op / 8 % 2;
    if z == 1 {
        if q == 0 {
            (set_rp_spec(cpu, p, imm16_spec(cpu, m)), m, next(cpu, 3, 12))
        } else {
            let hl = hl_spec(cpu);
            let v = rp_spec(cpu, p);
            let sum = hl + v;
            (
                CPUState {
                    H: hi8(wrap16(sum)),
                    L: lo8(wrap16(sum)),
                    F: flags_spec(zf(cpu.F), false, hl % 4096 + v % 4096 >= 4096, sum >= 0x10000),
                    ..cpu
                },
                m,
                next(cpu, 1, 8),
            )
        }
    } else if z == 2 {
        let addr = if p == 0 {
            word_spec(cpu.B, cpu.C)
        } else if p == 1 {
            word_spec(cpu.D, cpu.E)
        } else {
            hl_spec(cpu)
        };
        let cpu1 = if p == 2 {
            set_rp_spec(cpu, 2, addr.wrapping_add(1))
        } else if p == 3 {
            set_rp_spec(cpu, 2, addr.wrapping_sub(1))
        } else {
            cpu
        };
        if q == 0 {
            (cpu1, write_spec(m, addr, cpu.A), next(cpu, 1, 8))
        } else {
            (CPUState { A: read_spec(m, addr), ..cpu1 }, m, next(cpu, 1, 8))
        }
    } else {
        let v = rp_spec(cpu, p);
        if q == 0 {
            (set_rp_spec(cpu, p, v.wrapping_add(1)), m, next(cpu, 1, 8))
        } else {
            (set_rp_spec(cpu, p, v.wrapping_sub(1)), m, next(cpu, 1, 8))
        }
    }
}

/// Opcodes 0x00 to 0x3F with low three bits 4, 5 or 6: 8-bit INC, DEC
/// and LD r,d8.
pub open spec fn regs0_spec(op: u8, cpu: CPUState, m: MemView) -> (CPUState, MemView, (u16, u32)) {
    let z = op % 8;
    let y = op / 8;
    if z == 4 || z == 5 {
        let (v, f) = if z == 4 {
            inc_spec(operand_spec(cpu, m, y), cpu.F)
        } else {
            dec_spec(operand_spec(cpu, m, y), cpu.F)
        };
        let (cpu1, m1) = set_operand_spec(CPUState { F: f, ..cpu }, m, y, v);
        (cpu1, m1, next(cpu, 1, if y == 6 { 12 } else { 4 }))
    } else {
        let (cpu1, m1) = set_operand_spec(cpu, m, y, imm8_spec(cpu, m));
        (cpu1, m1, next(cpu, 2, if y == 6 { 12 } else { 8 }))
    }
}

/// Opcodes 0x00 to 0x3F with low three bits 7: the rotates of A (which
/// clear Zero), DAA, CPL, SCF and CCF.
pub open spec fn acc0_spec(op: u8, cpu: CPUState) -> CPUState {
    let y = op / 8;
    if y < 4 {
        let kind = if y == 0 { 0u8 } else if y == 1 { 1u8 } else if y == 2 { 2u8 } else { 3u8 };
        let (r, f) = rotate_spec(kind, cpu.A, cpu.F);
        CPUState { A: r, F: flags_spec(false, false, false, cf(f)), ..cpu }
    } else if y == 4 {
        let (r, f) = daa_spec(cpu.A, cpu.F);
        CPUState { A: r, F: f, ..cpu }
    } else if y == 5 {
        CPUState { A: (255 - cpu.A) as u8, F: flags_spec(zf(cpu.F), true, true, cf(cpu.F)), ..cpu }
    } else if y == 6 {
        CPUState { F: flags_spec(zf(cpu.F), false, false, true), ..cpu }
    } else {
        CPUState { F: flags_spec(zf(cpu.F), false, false, !cf(cpu.F)), ..cpu }
    }
}

/// Opcodes 0x40 to 0x7F: HALT (a no-op here) and LD r,r'.
pub open spec fn load_spec(op: u8, cpu: CPUState, m: MemView) -> (CPUState, MemView, (u16, u32)) {
    let src = op % 8;
    let dst = op / 8 % 8;
    if op == 0x76 {
        (cpu, m, next(cpu, 1, 4))
    } else {
        let (cpu1, m1) = set_operand_spec(cpu, m, dst, operand_spec(cpu, m, src));
        (cpu1, m1, next(cpu, 1, if src == 6 || dst == 6 { 8 } else { 4 }))
    }
}

/// Opcodes 0x80 to 0xBF: arithmetic and logic on A and an operand.
pub open spec fn alu_reg_spec(op: u8, cpu: CPUState, m: MemView) -> (CPUState, MemView, (u16, u32)) {
    let src = op % 8;
    let (a, f) = alu_spec(op / 8 % 8, cpu.A, operand_spec(cpu, m, src), cpu.F);
    (CPUState { A: a, F: f, ..cpu }, m, next(cpu, 1, if src == 6 { 8 } else { 4 }))
}

/// The 0xCB-prefixed instruction with second byte `cb`.
pub open spec fn cb_spec(cb: u8, cpu: CPUState, m: MemView) -> (CPUState, MemView, (u16, u32)) {
    let r = cb % 8;
    let y = cb / 8 % 8;
    let v = operand_spec(cpu, m, r);
    let t = next(cpu, 2, if r == 6 { 16 } else { 8 });
    if cb < 0x40 {
        let (v1, f) = rotate_spec(y, v, cpu.F);
        let (cpu1, m1) = set_operand_spec(CPUState { F: f, ..cpu }, m, r, v1);
        (cpu1, m1, t)
    } else if cb < 0x80 {
        (
            CPUState { F: flags_spec(v & (1u8 << y) == 0, false, true, cf(cpu.F)), ..cpu },
            m,
            t,
        )
    } else if cb < 0xC0 {
        let (cpu1, m1) = set_operand_spec(cpu, m, r, v & !(1u8 << y));
        (cpu1, m1, t)
    } else {
        let (cpu1, m1) = set_operand_spec(cpu, m, r, v | (1u8 << y));
        (cpu1, m1, t)
    }
}

/// Opcodes 0xC0 to 0xFF with low three bits 0 or 1: RET cc, the high
/// page loads, ADD SP,r8, LD HL,SP+r8, POP, RET, RETI, JP HL, LD SP,HL.
pub open spec fn stack3_spec(op: u8, cpu: CPUState, m: MemView) -> (CPUState, MemView, (u16, u32)) {
    let y = op / 8 % 8;
    let z = op % 8;
    let p = y / 2;
    if z == 0 {
        if y < 4 {
            if cond_spec(cpu.F, y) {
                let (pc, cpu1) = pop_spec(cpu, m);
                (cpu1, m, (pc, 20))
            } else {
                (cpu, m, next(cpu, 1, 8))
            }
        } else if y == 4 {
            (cpu, write_spec(m, (0xFF00 + imm8_spec(cpu, m)) as u16, cpu.A), next(cpu, 2, 12))
        } else if y == 5 {
            let (sp, f) = add_sp_spec(cpu.SP, imm8_spec(cpu, m));
            (CPUState { SP: sp, F: f, ..cpu }, m, next(cpu, 2, 16))
        } else if y == 6 {
            (
                CPUState { A: read_spec(m, (0xFF00 + imm8_spec(cpu, m)) as u16), ..cpu },
                m,
                next(cpu, 2, 12),
            )
        } else {
            let (v, f) = add_sp_spec(cpu.SP, imm8_spec(cpu, m));
            (CPUState { H: hi8(v), L: lo8(v), F: f, ..cpu }, m, next(cpu, 2, 12))
        }
    } else {
        if y % 2 == 0 {
            let (v, cpu1) = pop_spec(cpu, m);
            (set_rp2_spec(cpu1, p, v), m, next(cpu, 1, 12))
        } else if p == 0 {
            let (pc, cpu1) = pop_spec(cpu, m);
            (cpu1, m, (pc, 16))
        } else if p == 1 {
            let (pc, cpu1) = pop_spec(cpu, m);
            (CPUState { enableInterrupts: true, ..cpu1 }, m, (pc, 16))
        } else if p == 2 {
            (cpu, m, (hl_spec(cpu), 4))
        } else {
            (CPUState { SP: hl_spec(cpu), ..cpu }, m, next(cpu, 1, 8))
        }
    }
}

/// Opcodes 0xC0 to 0xFF with low three bits 2 or 3: JP cc, JP, loads
/// through (C) and (a16), DI and EI (which takes effect at once). The
/// opcodes with no instruction (0xD3, 0xDB, 0xE3, 0xEB) take 4 cycles and
/// do nothing.
pub open spec fn jump3_spec(op: u8, cpu: CPUState, m: MemView) -> (CPUState, MemView, (u16, u32)) {
    let y = op / 8 % 8;
    let z = op % 8;
    if z == 2 {
        if y < 4 {
            if cond_spec(cpu.F, y) {
                (cpu, m, (imm16_spec(cpu, m), 16))
            } else {
                (cpu, m, next(cpu, 3, 12))
            }
        } else if y == 4 {
            (cpu, write_spec(m, (0xFF00 + cpu.C) as u16, cpu.A), next(cpu, 1, 8))
        } else if y == 5 {
            (cpu, write_spec(m, imm16_spec(cpu, m), cpu.A), next(cpu, 3, 16))
        } else if y == 6 {
            (CPUState { A: read_spec(m, (0xFF00 + cpu.C) as u16), ..cpu }, m, next(cpu, 1, 8))
        } else {
            (CPUState { A: read_spec(m, imm16_spec(cpu, m)), ..cpu }, m, next(cpu, 3, 16))
        }
    } else {
        if y == 0 {
            (cpu, m, (imm16_spec(cpu, m), 16))
        } else if y == 6 {
            (CPUState { enableInterrupts: false, ..cpu }, m, next(cpu, 1, 4))
        } else if y == 7 {
            (CPUState { enableInterrupts: true, ..cpu }, m, next(cpu, 1, 4))
        } else {
            (cpu, m, next(cpu, 1, 4))
        }
    }
}

/// CALL to the word after the opcode: the target is read, then the
/// return address PC+3 is pushed.
pub open spec fn call_spec(cpu: CPUState, m: MemView) -> (CPUState, MemView, (u16, u32)) {
    let (cpu1, m1) = push_spec(cpu, m, cpu.PC.wrapping_add(3));
    (cpu1, m1, (imm16_spec(cpu, m), 24))
}

/// Opcodes 0xC0 to 0xFF with low three bits 4 to 7: CALL cc, PUSH,
/// CALL, the arithmetic on an immediate byte, and RST. The opcodes with
/// no instruction (0xE4, 0xEC, 0xF4, 0xFC, 0xDD, 0xED, 0xFD) take 4
/// cycles and do nothing.
pub open spec fn call3_spec(op: u8, cpu: CPUState, m: MemView) -> (CPUState, MemView, (u16, u32)) {
    let y = op / 8 % 8;
    let z = op % 8;
    let p = y / 2;
    if z == 4 {
        if y < 4 {
            if cond_spec(cpu.F, y) {
                call_spec(cpu, m)
            } else {
                (cpu, m, next(cpu, 3, 12))
            }
        } else {
            (cpu, m, next(cpu, 1, 4))
        }
    } else if z == 5 {
        if y % 2 == 0 {
            let (cpu1, m1) = push_spec(cpu, m, rp2_spec(cpu, p));
            (cpu1, m1, next(cpu, 1, 16))
        } else if p == 0 {
            call_spec(cpu, m)
        } else {
            (cpu, m, next(cpu, 1, 4))
        }
    } else if z == 6 {
        let (a, f) = alu_spec(y, cpu.A, imm8_spec(cpu, m), cpu.F);
        (CPUState { A: a, F: f, ..cpu }, m, next(cpu, 2, 8))
    } else {
        let (cpu1, m1) = push_spec(cpu, m, cpu.PC.wrapping_add(1));
        (cpu1, m1, ((y * 8) as u16, 16))
    }
}

/// What executing the opcode `op` at PC does: the registers other than
/// PC, the bus, and the next PC with the cycles taken.
#[verifier::opaque]
pub open spec fn execute_spec(op: u8, cpu: CPUState, m: MemView) -> (CPUState, MemView, (u16, u32)) {
    if op < 0x40 {
        let z = op % 8;
        if z == 0 {
            misc0_spec(op, cpu, m)
        } else if z <= 3 {
            pairs0_spec(op, cpu, m)
        } else if z <= 6 {
            regs0_spec(op, cpu, m)
        } else {
            (acc0_spec(op, cpu), m, next(cpu, 1, 4))
        }
    } else if op < 0x80 {
        load_spec(op, cpu, m)
    } else if op < 0xC0 {
        alu_reg_spec(op, cpu, m)
    } else if op == 0xCB {
        cb_spec(imm8_spec(cpu, m), cpu, m)
    } else if op % 8 <= 1 {
        stack3_spec(op, cpu, m)
    } else if op % 8 <= 3 {
        jump3_spec(op, cpu, m)
    } else {
        call3_spec(op, cpu, m)
    }
}

// ---------------------------------------------------------------------
// Executable arithmetic
// ---------------------------------------------------------------------

fn flags(z: bool, n: bool, h: bool, c: bool) -> (r: u8)
    ensures
        r == flags_spec(z, n, h, c),
{
    (if z { 0x80u8 } else { 0u8 }) | (if n { 0x40u8 } else { 0u8 }) | (if h { 0x20u8 } else { 0u8 })
        | (if c { 0x10u8 } else { 0u8 })
}

fn carry_of(f: u8) -> (r: u8)
    ensures
        r as int == carry_in(f),
{
    if f & 0x10 != 0 {
        1
    } else {
        0
    }
}

fn alu8(op: u8, a: u8, b: u8, f: u8) -> (r: (u8, u8))
    requires
        op < 8,
    ensures
        r == alu_spec(op, a, b, f),
{
    if op == 0 || op == 1 {
        let ci: u16 = if op == 1 { carry_of(f) as u16 } else { 0 };
        let sum: u16 = a as u16 + b as u16 + ci;
        let r = (sum % 256) as u8;
        (r, flags(r == 0, false, (a % 16) as u16 + (b % 16) as u16 + ci >= 16, sum >= 256))
    } else if op == 2 || op == 3 || op == 7 {
        let ci: u16 = if op == 3 { carry_of(f) as u16 } else { 0 };
        let r = ((a as u16 + 512 - b as u16 - ci) % 256) as u8;
        let f2 = flags(r == 0, true, ((a % 16) as u16) < (b % 16) as u16 + ci, (a as u16) < b as u16 + ci);
        if op == 7 {
            (a, f2)
        } else {
            (r, f2)
        }
    } else if op == 4 {
        (a & b, flags(a & b == 0, false, true, false))
    } else if op == 5 {
        (a ^ b, flags(a ^ b == 0, false, false, false))
    } else {
        (a | b, flags(a | b == 0, false, false, false))
    }
}

fn inc8(v: u8, f: u8) -> (r: (u8, u8))
    ensures
        r == inc_spec(v, f),
{
    let r = ((v as u16 + 1) % 256) as u8;
    (r, flags(r == 0, false, r % 16 == 0, f & 0x10 != 0))
}

fn dec8(v: u8, f: u8) -> (r: (u8, u8))
    ensures
        r == dec_spec(v, f),
{
    let r = ((v as u16 + 255) % 256) as u8;
    (r, flags(r == 0, true, r % 16 == 15, f & 0x10 != 0))
}

fn rotate(kind: u8, v: u8, f: u8) -> (r: (u8, u8))
    requires
        kind < 8,
    ensures
        r == rotate_spec(kind, v, f),
{
    let w = v as u16;
    let ci = carry_of(f) as u16;
    let (r, c): (u8, bool) = if kind == 0 {
        (((w * 2 + w / 128) % 256) as u8, v >= 128)
    } else if kind == 1 {
        ((w / 2 + w % 2 * 128) as u8, v % 2 == 1)
    } else if kind == 2 {
        (((w * 2 + ci) % 256) as u8, v >= 128)
    } else if kind == 3 {
        ((w / 2 + ci * 128) as u8, v % 2 == 1)
    } else if kind == 4 {
        (((w * 2) % 256) as u8, v >= 128)
    } else if kind == 5 {
        ((w / 2 + w / 128 * 128) as u8, v % 2 == 1)
    } else if kind == 6 {
        ((w % 16 * 16 + w / 16) as u8, false)
    } else {
        ((w / 2) as u8, v % 2 == 1)
    };
    (r, flags(r == 0, false, false, c))
}

fn daa(a: u8, f: u8) -> (r: (u8, u8))
    ensures
        r == daa_spec(a, f),
{
    let h = f & 0x20 != 0;
    let cy = f & 0x10 != 0;
    if f & 0x40 == 0 {
        let c = cy || a > 0x99;
        let adj: u16 = (if c { 0x60u16 } else { 0 }) + (if h || a % 16 > 9 { 6u16 } else { 0 });
        let r = ((a as u16 + adj) % 256) as u8;
        (r, flags(r == 0, false, false, c))
    } else {
        let adj: u16 = (if cy { 0x60u16 } else { 0 }) + (if h { 6u16 } else { 0 });
        let r = ((a as u16 + 256 - adj) % 256) as u8;
        (r, flags(r == 0, true, false, cy))
    }
}

fn add_sp(sp: u16, e: u8) -> (r: (u16, u8))
    ensures
        r == add_sp_spec(sp, e),
{
    let ext: u32 = if e >= 128 { e as u32 + 0xFF00 } else { e as u32 };
    let v = ((sp as u32 + ext) % 0x10000) as u16;
    (v, flags(false, false, sp % 16 + (e % 16) as u16 >= 16, sp % 256 + e as u16 >= 256))
}

fn cond(f: u8, k: u8) -> (r: bool)
    ensures
        r == cond_spec(f, k),
{
    if k == 0 {
        f & 0x80 == 0
    } else if k == 1 {
        f & 0x80 != 0
    } else if k == 2 {
        f & 0x10 == 0
    } else {
        f & 0x10 != 0
    }
}

// ---------------------------------------------------------------------
// Executable register and stack access
// ---------------------------------------------------------------------

fn get_operand(cpu: &CPUState, mem: &MemoryMapState, r: u8) -> (v: u8)
    ensures
        v == operand_spec(*cpu, mem@, r),
{
    if r == 0 {
        cpu.B
    } else if r == 1 {
        cpu.C
    } else if r == 2 {
        cpu.D
    } else if r == 3 {
        cpu.E
    } else if r == 4 {
        cpu.H
    } else if r == 5 {
        cpu.L
    } else if r == 6 {
        readByteFromMemory(mem, word(cpu.H, cpu.L))
    } else {
        cpu.A
    }
}

fn set_operand(cpu: &mut CPUState, mem: &mut MemoryMapState, r: u8, v: u8)
    ensures
        (*final(cpu), final(mem)@) == set_operand_spec(*old(cpu), old(mem)@, r, v),
{
    if r == 0 {
        cpu.B = v;
    } else if r == 1 {
        cpu.C = v;
    } else if r == 2 {
        cpu.D = v;
    } else if r == 3 {
        cpu.E = v;
    } else if r == 4 {
        cpu.H = v;
    } else if r == 5 {
        cpu.L = v;
    } else if r == 6 {
        writeByteToMemory(mem, v, word(cpu.H, cpu.L));
    } else {
        cpu.A = v;
    }
}

fn get_rp(cpu: &CPUState, p: u8) -> (v: u16)
    ensures
        v == rp_spec(*cpu, p),
{
    if p == 0 {
        word(cpu.B, cpu.C)
    } else if p == 1 {
        word(cpu.D, cpu.E)
    } else if p == 2 {
        word(cpu.H, cpu.L)
    } else {
        cpu.SP
    }
}

fn set_rp(cpu: &mut CPUState, p: u8, v: u16)
    ensures
        *final(cpu) == set_rp_spec(*old(cpu), p, v),
{
    if p == 0 {
        cpu.B = hb(v);
        cpu.C = lb(v);
    } else if p == 1 {
        cpu.D = hb(v);
        cpu.E = lb(v);
    } else if p == 2 {
        cpu.H = hb(v);
        cpu.L = lb(v);
    } else {
        cpu.SP = v;
    }
}

/// Pushes a 16-bit value onto the stack.
fn pushOnToStack(mem: &mut MemoryMapState, value: u16, SP: &mut u16)
    ensures
        *final(SP) == old(SP).wrapping_sub(2),
        final(mem)@ == write_word_spec(old(mem)@, old(SP).wrapping_sub(2), value),
{
    *SP = SP.wrapping_sub(2);
    writeWordToMemory(mem, value, *SP);
}

/// Pops a 16-bit value off the stack.
fn popOffOfStack(mem: &MemoryMapState, SP: &mut u16) -> (r: u16)
    ensures
        r == read_word_spec(mem@, *old(SP)),
        *final(SP) == old(SP).wrapping_add(2),
{
    let ret = readWordFromMemory(mem, *SP);
    *SP = SP.wrapping_add(2);
    ret
}

// ---------------------------------------------------------------------
// The interpreter
// ---------------------------------------------------------------------

fn imm8(cpu: &CPUState, mem: &MemoryMapState) -> (r: u8)
    ensures
        r == imm8_spec(*cpu, mem@),
{
    readByteFromMemory(mem, cpu.PC.wrapping_add(1))
}

fn imm16(cpu: &CPUState, mem: &MemoryMapState) -> (r: u16)
    ensures
        r == imm16_spec(*cpu, mem@),
{
    readWordFromMemory(mem, cpu.PC.wrapping_add(1))
}

fn jr_target(pc: u16, e: u8) -> (r: u16)
    ensures
        r == wrap16(pc + signed8(e) + 2),
{
    let ext: u32 = if e >= 128 { e as u32 + 0xFF00 } else { e as u32 };
    let r = ((pc as u32 + ext + 2) % 0x10000) as u16;
    assert((pc + signed8(e) + 2) % 0x10000 == (pc as u32 + ext + 2) % 0x10000 as int) by {
        if e >= 128 {
            assert(pc as u32 + ext + 2 == (pc + signed8(e) + 2) + 0x10000);
        }
    }
    r
}

fn exec_misc0(op: u8, cpu: &mut CPUState, mem: &mut MemoryMapState) -> (r: (u16, u32))
    requires
        op < 0x40,
        op % 8 == 0,
    ensures
        (*final(cpu), final(mem)@, r) == misc0_spec(op, *old(cpu), old(mem)@),
{
    let y = op / 8;
    if y == 0 {
        (cpu.PC.wrapping_add(1), 4)
    } else if y == 1 {
        let addr = imm16(cpu, mem);
        writeWordToMemory(mem, cpu.SP, addr);
        (cpu.PC.wrapping_add(3), 20)
    } else if y == 2 {
        (cpu.PC.wrapping_add(2), 4)
    } else if y == 3 || cond(cpu.F, y - 4) {
        let e = imm8(cpu, mem);
        (jr_target(cpu.PC, e), 12)
    } else {
        (cpu.PC.wrapping_add(2), 8)
    }
}

fn exec_pairs0(op: u8, cpu: &mut CPUState, mem: &mut MemoryMapState) -> (r: (u16, u32))
    requires
        op < 0x40,
        1 <= op % 8 <= 3,
    ensures
        (*final(cpu), final(mem)@, r) == pairs0_spec(op, *old(cpu), old(mem)@),
{
    let z = op % 8;
    let p = op / 16;
    let q = op / 8 % 2;
    let pc = cpu.PC;
    if z == 1 {
        if q == 0 {
            let v = imm16(cpu, mem);
            set_rp(cpu, p, v);
            (pc.wrapping_add(3), 12)
        } else {
            let hl = word(cpu.H, cpu.L);
            let v = get_rp(cpu, p);
            let sum: u32 = hl as u32 + v as u32;
            let res = (sum % 0x10000) as u16;
            cpu.H = hb(res);
            cpu.L = lb(res);
            cpu.F = flags(cpu.F & 0x80 != 0, false, hl % 4096 + v % 4096 >= 4096, sum >= 0x10000);
            (pc.wrapping_add(1), 8)
        }
    } else if z == 2 {
        let addr = if p == 0 {
            word(cpu.B, cpu.C)
        } else if p == 1 {
            word(cpu.D, cpu.E)
        } else {
            word(cpu.H, cpu.L)
        };
        let a = cpu.A;
        if q == 0 {
            writeByteToMemory(mem, a, addr);
        } else {
            cpu.A = readByteFromMemory(mem, addr);
        }
        if p == 2 {
            set_rp(cpu, 2, addr.wrapping_add(1));
        } else if p == 3 {
            set_rp(cpu, 2, addr.wrapping_sub(1));
        }
        (pc.wrapping_add(1), 8)
    } else {
        let v = get_rp(cpu, p);
        if q == 0 {
            set_rp(cpu, p, v.wrapping_add(1));
        } else {
            set_rp(cpu, p, v.wrapping_sub(1));
        }
        (pc.wrapping_add(1), 8)
    }
}

fn exec_regs0(op: u8, cpu: &mut CPUState, mem: &mut MemoryMapState) -> (r: (u16, u32))
    requires
        op < 0x40,
        4 <= op % 8 <= 6,
    ensures
        (*final(cpu), final(mem)@, r) == regs0_spec(op, *old(cpu), old(mem)@),
{
    let z = op % 8;
    let y = op / 8;
    let pc = cpu.PC;
    if z == 4 || z == 5 {
        let old_v = get_operand(cpu, mem, y);
        let (v, f) = if z == 4 {
            inc8(old_v, cpu.F)
        } else {
            dec8(old_v, cpu.F)
        };
        cpu.F = f;
        set_operand(cpu, mem, y, v);
        (pc.wrapping_add(1), if y == 6 { 12 } else { 4 })
    } else {
        let v = imm8(cpu, mem);
        set_operand(cpu, mem, y, v);
        (pc.wrapping_add(2), if y == 6 { 12 } else { 8 })
    }
}

fn exec_acc0(op: u8, cpu: &mut CPUState)
    requires
        op < 0x40,
        op % 8 == 7,
    ensures
        *final(cpu) == acc0_spec(op, *old(cpu)),
{
    let y = op / 8;
    let zero = cpu.F & 0x80 != 0;
    let carry = cpu.F & 0x10 != 0;
    if y < 4 {
        let (r, f) = rotate(y, cpu.A, cpu.F);
        cpu.A = r;
        cpu.F = flags(false, false, false, f & 0x10 != 0);
    } else if y == 4 {
        let (r, f) = daa(cpu.A, cpu.F);
        cpu.A = r;
        cpu.F = f;
    } else if y == 5 {
        cpu.A = 255 - cpu.A;
        cpu.F = flags(zero, true, true, carry);
    } else if y == 6 {
        cpu.F = flags(zero, false, false, true);
    } else {
        cpu.F = flags(zero, false, false, !carry);
    }
}

fn exec_load(op: u8, cpu: &mut CPUState, mem: &mut MemoryMapState) -> (r: (u16, u32))
    requires
        0x40 <= op < 0x80,
    ensures
        (*final(cpu), final(mem)@, r) == load_spec(op, *old(cpu), old(mem)@),
{
    let src = op % 8;
    let dst = op / 8 % 8;
    let pc = cpu.PC;
    if op == 0x76 {
        (pc.wrapping_add(1), 4)
    } else {
        let v = get_operand(cpu, mem, src);
        set_operand(cpu, mem, dst, v);
        (pc.wrapping_add(1), if src == 6 || dst == 6 { 8 } else { 4 })
    }
}

fn exec_alu_reg(op: u8, cpu: &mut CPUState, mem: &mut MemoryMapState) -> (r: (u16, u32))
    requires
        0x80 <= op < 0xC0,
    ensures
        (*final(cpu), final(mem)@, r) == alu_reg_spec(op, *old(cpu), old(mem)@),
{
    let src = op % 8;
    let v = get_operand(cpu, mem, src);
    let (a, f) = alu8(op / 8 % 8, cpu.A, v, cpu.F);
    cpu.A = a;
    cpu.F = f;
    (cpu.PC.wrapping_add(1), if src == 6 { 8 } else { 4 })
}

fn exec_cb(cpu: &mut CPUState, mem: &mut MemoryMapState) -> (r: (u16, u32))
    ensures
        (*final(cpu), final(mem)@, r) == cb_spec(imm8_spec(*old(cpu), old(mem)@), *old(cpu), old(mem)@),
{
    let cb = imm8(cpu, mem);
    let r = cb % 8;
    let y = cb / 8 % 8;
    let v = get_operand(cpu, mem, r);
    let t = (cpu.PC.wrapping_add(2), if r == 6 { 16u32 } else { 8u32 });
    if cb < 0x40 {
        let (v1, f) = rotate(y, v, cpu.F);
        cpu.F = f;
        set_operand(cpu, mem, r, v1);
    } else if cb < 0x80 {
        cpu.F = flags(v & (1u8 << y) == 0, false, true, cpu.F & 0x10 != 0);
    } else if cb < 0xC0 {
        set_operand(cpu, mem, r, v & !(1u8 << y));
    } else {
        set_operand(cpu, mem, r, v | (1u8 << y));
    }
    t
}

fn exec_stack3(op: u8, cpu: &mut CPUState, mem: &mut MemoryMapState) -> (r: (u16, u32))
    requires
        op >= 0xC0,
        op % 8 <= 1,
    ensures
        (*final(cpu), final(mem)@, r) == stack3_spec(op, *old(cpu), old(mem)@),
{
    let y = op / 8 % 8;
    let z = op % 8;
    let p = y / 2;
    let pc = cpu.PC;
    if z == 0 {
        if y < 4 {
            if cond(cpu.F, y) {
                (popOffOfStack(mem, &mut cpu.SP), 20)
            } else {
                (pc.wrapping_add(1), 8)
            }
        } else if y == 4 {
            let addr = 0xFF00 + imm8(cpu, mem) as u16;
            writeByteToMemory(mem, cpu.A, addr);
            (pc.wrapping_add(2), 12)
        } else if y == 5 {
            let (sp, f) = add_sp(cpu.SP, imm8(cpu, mem));
            cpu.SP = sp;
            cpu.F = f;
            (pc.wrapping_add(2), 16)
        } else if y == 6 {
            let addr = 0xFF00 + imm8(cpu, mem) as u16;
            cpu.A = readByteFromMemory(mem, addr);
            (pc.wrapping_add(2), 12)
        } else {
            let (v, f) = add_sp(cpu.SP, imm8(cpu, mem));
            cpu.H = hb(v);
            cpu.L = lb(v);
            cpu.F = f;
            (pc.wrapping_add(2), 12)
        }
    } else {
        if y % 2 == 0 {
            let v = popOffOfStack(mem, &mut cpu.SP);
            if p == 3 {
                cpu.A = hb(v);
                cpu.F = lb(v) / 16 * 16;
            } else {
                set_rp(cpu, p, v);
            }
            (pc.wrapping_add(1), 12)
        } else if p == 0 {
            (popOffOfStack(mem, &mut cpu.SP), 16)
        } else if p == 1 {
            enableInterrupts(cpu);
            (popOffOfStack(mem, &mut cpu.SP), 16)
        } else if p == 2 {
            (word(cpu.H, cpu.L), 4)
        } else {
            cpu.SP = word(cpu.H, cpu.L);
            (pc.wrapping_add(1), 8)
        }
    }
}

fn exec_jump3(op: u8, cpu: &mut CPUState, mem: &mut MemoryMapState) -> (r: (u16, u32))
    requires
        op >= 0xC0,
        op != 0xCB,
        2 <= op % 8 <= 3,
    ensures
        (*final(cpu), final(mem)@, r) == jump3_spec(op, *old(cpu), old(mem)@),
{
    let y = op / 8 % 8;
    let z = op % 8;
    let pc = cpu.PC;
    if z == 2 {
        if y < 4 {
            if cond(cpu.F, y) {
                (imm16(cpu, mem), 16)
            } else {
                (pc.wrapping_add(3), 12)
            }
        } else if y == 4 {
            writeByteToMemory(mem, cpu.A, 0xFF00 + cpu.C as u16);
            (pc.wrapping_add(1), 8)
        } else if y == 5 {
            let addr = imm16(cpu, mem);
            writeByteToMemory(mem, cpu.A, addr);
            (pc.wrapping_add(3), 16)
        } else if y == 6 {
            cpu.A = readByteFromMemory(mem, 0xFF00 + cpu.C as u16);
            (pc.wrapping_add(1), 8)
        } else {
            let addr = imm16(cpu, mem);
            cpu.A = readByteFromMemory(mem, addr);
            (pc.wrapping_add(3), 16)
        }
    } else {
        if y == 0 {
            (imm16(cpu, mem), 16)
        } else if y == 6 {
            disableInterrupts(cpu);
            (pc.wrapping_add(1), 4)
        } else if y == 7 {
            enableInterrupts(cpu);
            (pc.wrapping_add(1), 4)
        } else {
            (pc.wrapping_add(1), 4)
        }
    }
}

fn exec_call(cpu: &mut CPUState, mem: &mut MemoryMapState) -> (r: (u16, u32))
    ensures
        (*final(cpu), final(mem)@, r) == call_spec(*old(cpu), old(mem)@),
{
    let target = imm16(cpu, mem);
    let ret = cpu.PC.wrapping_add(3);
    pushOnToStack(mem, ret, &mut cpu.SP);
    (target, 24)
}

fn exec_call3(op: u8, cpu: &mut CPUState, mem: &mut MemoryMapState) -> (r: (u16, u32))
    requires
        op >= 0xC0,
        op % 8 >= 4,
    ensures
        (*final(cpu), final(mem)@, r) == call3_spec(op, *old(cpu), old(mem)@),
{
    let y = op / 8 % 8;
    let z = op % 8;
    let p = y / 2;
    let pc = cpu.PC;
    if z == 4 {
        if y < 4 {
            if cond(cpu.F, y) {
                exec_call(cpu, mem)
            } else {
                (pc.wrapping_add(3), 12)
            }
        } else {
            (pc.wrapping_add(1), 4)
        }
    } else if z == 5 {
        if y % 2 == 0 {
            let v = if p == 3 {
                word(cpu.A, cpu.F)
            } else {
                get_rp(cpu, p)
            };
            pushOnToStack(mem, v, &mut cpu.SP);
            (pc.wrapping_add(1), 16)
        } else if p == 0 {
            exec_call(cpu, mem)
        } else {
            (pc.wrapping_add(1), 4)
        }
    } else if z == 6 {
        let (a, f) = alu8(y, cpu.A, imm8(cpu, mem), cpu.F);
        cpu.A = a;
        cpu.F = f;
        (pc.wrapping_add(2), 8)
    } else {
        pushOnToStack(mem, pc.wrapping_add(1), &mut cpu.SP);
        ((y * 8) as u16, 16)
    }
}

/// Executes the instruction whose opcode is `instruction`, with PC at
/// the opcode. Returns the next PC and the cycles taken; PC itself is
/// left for the caller to set. Opcodes with no instruction take 4 cycles
/// and do nothing.
pub fn executeInstruction(instruction: u8, cpu: &mut CPUState, mem: &mut MemoryMapState) -> (r: (
    u16,
    u32,
))
    ensures
        (*final(cpu), final(mem)@, r) == execute_spec(instruction, *old(cpu), old(mem)@),
{
    proof {
        reveal(execute_spec);
    }
    if instruction < 0x40 {
        let z = instruction % 8;
        if z == 0 {
            exec_misc0(instruction, cpu, mem)
        } else if z <= 3 {
            exec_pairs0(instruction, cpu, mem)
        } else if z <= 6 {
            exec_regs0(instruction, cpu, mem)
        } else {
            exec_acc0(instruction, cpu);
            (cpu.PC.wrapping_add(1), 4)
        }
    } else if instruction < 0x80 {
        exec_load(instruction, cpu, mem)
    } else if instruction < 0xC0 {
        exec_alu_reg(instruction, cpu, mem)
    } else if instruction == 0xCB {
        exec_cb(cpu, mem)
    } else if instruction % 8 <= 1 {
        exec_stack3(instruction, cpu, mem)
    } else if instruction % 8 <= 3 {
        exec_jump3(instruction, cpu, mem)
    } else {
        exec_call3(instruction, cpu, mem)
    }
}

/// The number of the lowest set bit among bits 0 to 4 of `p`.
pub open spec fn lowest_interrupt(p: u8) -> u8 {
    if p & 1 != 0 {
        0
    } else if p & 2 != 0 {
        1
    } else if p & 4 != 0 {
        2
    } else if p & 8 != 0 {
        3
    } else {
        4
    }
}

/// Cycles taken to dispatch to an interrupt routine.
pub const INTERRUPT_CYCLES: u32 = 20;

/// One step: with the master flag set and an enabled interrupt pending,
/// dispatch to the routine of the lowest pending one (PC pushed, its
/// request bit and the master flag cleared, PC at 0x40 + 8 * bit);
/// otherwise execute the instruction at PC.
pub open spec fn step_spec(cpu: CPUState, m: MemView) -> (CPUState, MemView) {
    let pending = m.enabledInterrupts & m.requestedInterrupts & 0x1F;
    if cpu.enableInterrupts && pending != 0 {
        let i = lowest_interrupt(pending);
        let (cpu1, m1) = push_spec(cpu, m, cpu.PC);
        (
            CPUState {
                PC: (0x40 + 8 * i) as u16,
                enableInterrupts: false,
                instructionCycles: INTERRUPT_CYCLES,
                totalCycles: cpu.totalCycles.wrapping_add(INTERRUPT_CYCLES),
                ..cpu1
            },
            MemView { requestedInterrupts: m1.requestedInterrupts & !(1u8 << i), ..m1 },
        )
    } else {
        let (cpu1, m1, (pc, cycles)) = execute_spec(read_spec(m, cpu.PC), cpu, m);
        (
            CPUState {
                PC: pc,
                instructionCycles: cycles,
                totalCycles: cpu.totalCycles.wrapping_add(cycles),
                ..cpu1
            },
            m1,
        )
    }
}

fn service_interrupt(cpu: &mut CPUState, mem: &mut MemoryMapState, pending: u8)
    requires
        pending != 0,
        pending == old(mem).enabledInterrupts & old(mem).requestedInterrupts & 0x1F,
        old(cpu).enableInterrupts,
    ensures
        (*final(cpu), final(mem)@) == step_spec(*old(cpu), old(mem)@),
{
    let i: u8 = if pending & 1 != 0 {
        0
    } else if pending & 2 != 0 {
        1
    } else if pending & 4 != 0 {
        2
    } else if pending & 8 != 0 {
        3
    } else {
        4
    };
    let pc = cpu.PC;
    pushOnToStack(mem, pc, &mut cpu.SP);
    mem.requestedInterrupts = mem.requestedInterrupts & !(1u8 << i);
    cpu.PC = 0x40 + 8 * i as u16;
    cpu.enableInterrupts = false;
    cpu.instructionCycles = INTERRUPT_CYCLES;
    cpu.totalCycles = cpu.totalCycles.wrapping_add(INTERRUPT_CYCLES);
}

fn run_instruction(cpu: &mut CPUState, mem: &mut MemoryMapState)
    requires
        !(old(cpu).enableInterrupts && old(mem).enabledInterrupts & old(mem).requestedInterrupts
            & 0x1F != 0),
    ensures
        (*final(cpu), final(mem)@) == step_spec(*old(cpu), old(mem)@),
{
    let instructionToExecute = readByteFromMemory(mem, cpu.PC);
    let total = cpu.totalCycles;
    let (newPC, cyclesTaken) = executeInstruction(instructionToExecute, cpu, mem);
    cpu.PC = newPC;
    cpu.instructionCycles = cyclesTaken;
    cpu.totalCycles = total.wrapping_add(cyclesTaken);
}

/// Runs one step (see `step_spec`); the cycles it took are left in
/// `instructionCycles` and added to `totalCycles`.
pub fn stepCPU(cpu: &mut CPUState, mem: &mut MemoryMapState)
    ensures
        (*final(cpu), final(mem)@) == step_spec(*old(cpu), old(mem)@),
{
    let pending = mem.enabledInterrupts & mem.requestedInterrupts & 0x1F;
    if cpu.enableInterrupts && pending != 0 {
        service_interrupt(cpu, mem, pending);
    } else {
        run_instruction(cpu, mem);
    }
}

proof fn lemma_half_carry_add(op: u8, a: u8, b: u8, f: u8)
    requires
        op <= 1,
    ensures
        hf(alu_spec(op, a, b, f).1) == ((a ^ b ^ alu_spec(op, a, b, f).0) & 0x10 != 0),
        alu_spec(op, a, b, f) == alu_spec(op, b, a, f),
{
    let ci: int = if op == 1 { carry_in(f) } else { 0 };
    let c8 = ci as u8;
    let r = ((a + b + ci) % 256) as u8;
    assert(alu_spec(op, a, b, f) == (r, flags_spec(r == 0, false, a % 16 + b % 16 + ci >= 16, a + b
        + ci >= 256)));
    lemma_flags(r == 0, false, a % 16 + b % 16 + ci >= 16, a + b + ci >= 256);
    assert(((a ^ b ^ r) & 0x10 != 0) == ((a % 16) + (b % 16) + c8 >= 16)) by (bit_vector)
        requires
            r == ((a as u16 + b as u16 + c8 as u16) % 256) as u8,
            c8 <= 1,
    ;
}

proof fn lemma_half_carry_sub(op: u8, a: u8, b: u8, f: u8)
    requires
        op == 2 || op == 3 || op == 7,
    ensures
        hf(alu_spec(op, a, b, f).1) == ((a ^ b ^ alu_spec(if op == 7 { 2 } else { op }, a, b, f).0)
            & 0x10 != 0),
{
    let ci: int = if op == 3 { carry_in(f) } else { 0 };
    let c8 = ci as u8;
    let r = ((a - b - ci) % 256) as u8;
    assert(alu_spec(op, a, b, f).1 == flags_spec(r == 0, true, a % 16 < b % 16 + ci, a < b + ci));
    assert(alu_spec(if op == 7 { 2 } else { op }, a, b, f).0 == r);
    lemma_flags(r == 0, true, a % 16 < b % 16 + ci, a < b + ci);
    assert(r == ((a as u16 + 512 - b as u16 - c8 as u16) % 256) as u8);
    assert(((a ^ b ^ r) & 0x10 != 0) == ((a % 16) < (b % 16) + c8)) by (bit_vector)
        requires
            r == ((a as u16 + 512 - b as u16 - c8 as u16) % 256) as u8,
            c8 <= 1,
    ;
}

/// For ADD, ADC, SUB, SBC and CP, Half-Carry equals bit 4 of
/// `a ^ b ^ result` (for CP the result is that of SUB); ADD and ADC do
/// not depend on the order of their operands.
pub proof fn lemma_half_carry_xor(op: u8, a: u8, b: u8, f: u8)
    requires
        op <= 3 || op == 7,
    ensures
        hf(alu_spec(op, a, b, f).1) == ((a ^ b ^ alu_spec(if op == 7 { 2 } else { op }, a, b, f).0)
            & 0x10 != 0),
        op <= 1 ==> alu_spec(op, a, b, f) == alu_spec(op, b, a, f),
{
    if op <= 1 {
        lemma_half_carry_add(op, a, b, f);
    } else {
        lemma_half_carry_sub(op, a, b, f);
    }
}

/// DEC then INC of a value gives it back, with the flags that the INC
/// alone would give; INC then DEC likewise with the flags of the DEC.
pub proof fn lemma_dec_inc(v: u8, f: u8)
    ensures
        inc_spec(dec_spec(v, f).0, dec_spec(v, f).1) == inc_spec(((v - 1) % 256) as u8, f),
        inc_spec(dec_spec(v, f).0, dec_spec(v, f).1) == (v, flags_spec(
            v == 0,
            false,
            v % 16 == 0,
            cf(f),
        )),
        dec_spec(inc_spec(v, f).0, inc_spec(v, f).1) == dec_spec(((v + 1) % 256) as u8, f),
        dec_spec(inc_spec(v, f).0, inc_spec(v, f).1) == (v, flags_spec(
            v == 0,
            true,
            v % 16 == 15,
            cf(f),
        )),
{
    let r1 = ((v - 1) % 256) as u8;
    lemma_flags(r1 == 0, true, r1 % 16 == 15, cf(f));
    let r2 = ((v + 1) % 256) as u8;
    lemma_flags(r2 == 0, false, r2 % 16 == 0, cf(f));
}

/// DEC r then INC r (and INC r then DEC r) on any 8-bit register leaves
/// the register as it was, with the flags of the second instruction.
pub proof fn lemma_dec_inc_register(y: u8, cpu: CPUState, m: MemView)
    requires
        y < 8,
        y != 6,
    ensures
        ({
            let (c1, m1, _t1) = execute_spec((0x05 + 8 * y) as u8, cpu, m);
            let (c2, m2, _t2) = execute_spec((0x04 + 8 * y) as u8, c1, m1);
            reg_spec(c2, y) == reg_spec(cpu, y) && c2.F == inc_spec(((reg_spec(cpu, y) - 1) % 256) as u8, cpu.F).1
                && m2 == m
        }),
        ({
            let (c1, m1, _t1) = execute_spec((0x04 + 8 * y) as u8, cpu, m);
            let (c2, m2, _t2) = execute_spec((0x05 + 8 * y) as u8, c1, m1);
            reg_spec(c2, y) == reg_spec(cpu, y) && c2.F == dec_spec(((reg_spec(cpu, y) + 1) % 256) as u8, cpu.F).1
                && m2 == m
        }),
{
    reveal(execute_spec);
    lemma_dec_inc(reg_spec(cpu, y), cpu.F);
    let d = (0x05 + 8 * y) as u8;
    let i = (0x04 + 8 * y) as u8;
    assert(d / 8 == y && d % 8 == 5 && i / 8 == y && i % 8 == 4);
}

proof fn lemma_all_flags()
    ensures
        forall|z: bool, n: bool, h: bool, c: bool| #[trigger] flags_spec(z, n, h, c) % 16 == 0,
{
    assert forall|z: bool, n: bool, h: bool, c: bool| #[trigger] flags_spec(z, n, h, c) % 16 == 0 by {
        lemma_flags(z, n, h, c);
    }
}

/// What `execute_spec` is on the opcodes of NOP, LD (a16),SP, STOP and the
/// relative jumps.
pub proof fn lemma_execute_misc0(op: u8, cpu: CPUState, m: MemView)
    requires
        op < 0x40 && op % 8 == 0,
    ensures
        execute_spec(op, cpu, m) == misc0_spec(op, cpu, m),
{
    reveal(execute_spec);
}

/// What `execute_spec` is on the opcodes of 16-bit loads, ADD HL, loads
/// through a pair, 16-bit INC and DEC.
pub proof fn lemma_execute_pairs0(op: u8, cpu: CPUState, m: MemView)
    requires
        op < 0x40 && 1 <= op % 8 <= 3,
    ensures
        execute_spec(op, cpu, m) == pairs0_spec(op, cpu, m),
{
    reveal(execute_spec);
}

/// What `execute_spec` is on the opcodes of 8-bit INC, DEC and LD r,d8.
pub proof fn lemma_execute_regs0(op: u8, cpu: CPUState, m: MemView)
    requires
        op < 0x40 && 4 <= op % 8 <= 6,
    ensures
        execute_spec(op, cpu, m) == regs0_spec(op, cpu, m),
{
    reveal(execute_spec);
}

/// What `execute_spec` is on the opcodes of the rotates of A, DAA, CPL, SCF
/// and CCF.
pub proof fn lemma_execute_acc0(op: u8, cpu: CPUState, m: MemView)
    requires
        op < 0x40 && op % 8 == 7,
    ensures
        execute_spec(op, cpu, m) == (acc0_spec(op, cpu), m, next(cpu, 1, 4)),
{
    reveal(execute_spec);
}

/// What `execute_spec` is on the opcodes of LD r,r' and HALT.
pub proof fn lemma_execute_load(op: u8, cpu: CPUState, m: MemView)
    requires
        0x40 <= op < 0x80,
    ensures
        execute_spec(op, cpu, m) == load_spec(op, cpu, m),
{
    reveal(execute_spec);
}

/// What `execute_spec` is on the opcodes of arithmetic and logic on A and a
/// register or (HL).
pub proof fn lemma_execute_alu_reg(op: u8, cpu: CPUState, m: MemView)
    requires
        0x80 <= op < 0xC0,
    ensures
        execute_spec(op, cpu, m) == alu_reg_spec(op, cpu, m),
{
    reveal(execute_spec);
}

/// What `execute_spec` is on the opcodes of the prefixed instructions.
pub proof fn lemma_execute_cb(op: u8, cpu: CPUState, m: MemView)
    requires
        op == 0xCB,
    ensures
        execute_spec(op, cpu, m) == cb_spec(imm8_spec(cpu, m), cpu, m),
{
    reveal(execute_spec);
}

/// What `execute_spec` is on the opcodes of RET cc, POP, RET, RETI, the
/// high page loads and the SP arithmetic.
pub proof fn lemma_execute_stack3(op: u8, cpu: CPUState, m: MemView)
    requires
        op >= 0xC0 && op != 0xCB && op % 8 <= 1,
    ensures
        execute_spec(op, cpu, m) == stack3_spec(op, cpu, m),
{
    reveal(execute_spec);
}

/// What `execute_spec` is on the opcodes of JP, JP cc, loads through (C)
/// and (a16), DI and EI.
pub proof fn lemma_execute_jump3(op: u8, cpu: CPUState, m: MemView)
    requires
        op >= 0xC0 && op != 0xCB && 2 <= op % 8 <= 3,
    ensures
        execute_spec(op, cpu, m) == jump3_spec(op, cpu, m),
{
    reveal(execute_spec);
}

/// What `execute_spec` is on the opcodes of CALL, CALL cc, PUSH, arithmetic
/// on an immediate byte and RST.
pub proof fn lemma_execute_call3(op: u8, cpu: CPUState, m: MemView)
    requires
        op >= 0xC0 && op % 8 >= 4,
    ensures
        execute_spec(op, cpu, m) == call3_spec(op, cpu, m),
{
    assert(op != 0xCB && op >= 0x80 && op % 8 > 3);
    reveal(execute_spec);
}

/// Every instruction keeps the low nibble of F clear.
pub proof fn lemma_flags_low_nibble(op: u8, cpu: CPUState, m: MemView)
    requires
        cpu.F % 16 == 0,
    ensures
        execute_spec(op, cpu, m).0.F % 16 == 0,
{
    if op < 0x40 && op % 8 == 0 {
        assert(execute_spec(op, cpu, m).0.F % 16 == 0) by {
            lemma_all_flags();
            lemma_execute_misc0(op, cpu, m);
        }
    } else if op < 0x40 && 1 <= op % 8 <= 3 {
        assert(execute_spec(op, cpu, m).0.F % 16 == 0) by {
            lemma_all_flags();
            lemma_execute_pairs0(op, cpu, m);
        }
    } else if op < 0x40 && 4 <= op % 8 <= 6 {
        assert(execute_spec(op, cpu, m).0.F % 16 == 0) by {
            lemma_all_flags();
            lemma_execute_regs0(op, cpu, m);
        }
    } else if op < 0x40 && op % 8 == 7 {
        assert(execute_spec(op, cpu, m).0.F % 16 == 0) by {
            lemma_all_flags();
            lemma_execute_acc0(op, cpu, m);
        }
    } else if 0x40 <= op < 0x80 {
        assert(execute_spec(op, cpu, m).0.F % 16 == 0) by {
            lemma_all_flags();
            lemma_execute_load(op, cpu, m);
        }
    } else if 0x80 <= op < 0xC0 {
        assert(execute_spec(op, cpu, m).0.F % 16 == 0) by {
            lemma_all_flags();
            lemma_execute_alu_reg(op, cpu, m);
        }
    } else if op == 0xCB {
        assert(execute_spec(op, cpu, m).0.F % 16 == 0) by {
            lemma_all_flags();
            lemma_execute_cb(op, cpu, m);
        }
    } else if op >= 0xC0 && op != 0xCB && op % 8 <= 1 {
        assert(execute_spec(op, cpu, m).0.F % 16 == 0) by {
            lemma_all_flags();
            lemma_execute_stack3(op, cpu, m);
        }
    } else if op >= 0xC0 && op != 0xCB && 2 <= op % 8 <= 3 {
        assert(execute_spec(op, cpu, m).0.F % 16 == 0) by {
            lemma_all_flags();
            lemma_execute_jump3(op, cpu, m);
        }
    } else if op >= 0xC0 && op % 8 >= 4 {
        assert(execute_spec(op, cpu, m).0.F % 16 == 0) by {
            lemma_all_flags();
            lemma_execute_call3(op, cpu, m);
        }
    }
}

/// So does every step, interrupt dispatch included.
pub proof fn lemma_step_flags_low_nibble(cpu: CPUState, m: MemView)
    requires
        cpu.F % 16 == 0,
    ensures
        step_spec(cpu, m).0.F % 16 == 0,
{
    lemma_flags_low_nibble(read_spec(m, cpu.PC), cpu, m);
}


/// ADD A,r with A and r exchanged gives the same A and flags, and its
/// Half-Carry is bit 4 of `a ^ r ^ result`.
pub proof fn lemma_add_operand_order(op: u8, cpu: CPUState, m: MemView, x: u8, y: u8)
    requires
        0x80 <= op <= 0x85,
    ensures
        ({
            let c1 = set_reg_spec(CPUState { A: x, ..cpu }, op % 8, y);
            let c2 = set_reg_spec(CPUState { A: y, ..cpu }, op % 8, x);
            let r1 = execute_spec(op, c1, m).0;
            let r2 = execute_spec(op, c2, m).0;
            &&& r1.A == r2.A
            &&& r1.F == r2.F
            &&& hf(r1.F) == ((x ^ y ^ r1.A) & 0x10 != 0)
        }),
{
    let c1 = set_reg_spec(CPUState { A: x, ..cpu }, op % 8, y);
    let c2 = set_reg_spec(CPUState { A: y, ..cpu }, op % 8, x);
    lemma_execute_alu_reg(op, c1, m);
    lemma_execute_alu_reg(op, c2, m);
    assert(op / 8 % 8 == 0 && op % 8 <= 5);
    assert(c1.A == x && operand_spec(c1, m, op % 8) == y && c1.F == cpu.F);
    assert(c2.A == y && operand_spec(c2, m, op % 8) == x && c2.F == cpu.F);
    lemma_half_carry_xor(0, x, y, cpu.F);
}

} // verus!
