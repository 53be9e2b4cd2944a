//! The memory bus: address decoding, cartridge banking, the I/O
//! registers, and the divider and timer.
use vstd::prelude::*;
use crate::gb_util::{word_spec, word, hb, lb};
use crate::gb_lcd::{LCDState, LcdView, LCDMode, SpriteHeight, PaletteColor};
use crate::gb_joypad::{JoypadState, ButtonGroup};

verus! {

pub const CYCLES_PER_DIVIDER_INCREMENT: u32 = 256;

/// The timer's rate, as selected by the two low bits of TAC.
#[derive(PartialEq, Eq, Structural, Copy, Clone, Debug)]
pub enum TimerMode {
    Mode0,
    Mode1,
    Mode2,
    Mode3,
}

impl TimerMode {
    /// Cycles per timer increment.
    pub open spec fn threshold_spec(self) -> u32 {
        match self {
            TimerMode::Mode0 => 1024,
            TimerMode::Mode1 => 16,
            TimerMode::Mode2 => 64,
            TimerMode::Mode3 => 256,
        }
    }

    pub fn threshold(self) -> (r: u32)
        ensures
            r == self.threshold_spec(),
    {
        match self {
            TimerMode::Mode0 => 1024,
            TimerMode::Mode1 => 16,
            TimerMode::Mode2 => 64,
            TimerMode::Mode3 => 256,
        }
    }

    pub open spec fn number_spec(self) -> u8 {
        match self {
            TimerMode::Mode0 => 0,
            TimerMode::Mode1 => 1,
            TimerMode::Mode2 => 2,
            TimerMode::Mode3 => 3,
        }
    }

    /// The mode selected by the two low bits of `b`.
    pub open spec fn from_bits_spec(b: u8) -> TimerMode {
        if b % 4 == 0 {
            TimerMode::Mode0
        } else if b % 4 == 1 {
            TimerMode::Mode1
        } else if b % 4 == 2 {
            TimerMode::Mode2
        } else {
            TimerMode::Mode3
        }
    }
}

/// The cartridge's bank controller: none, or the simplest one.
#[derive(PartialEq, Eq, Structural, Copy, Clone, Debug)]
pub enum MemoryBankControllerType {
    MBC0,
    MBC1,
}

/// Whether the upper bank-select bits go to the ROM bank (`Mode0`) or
/// to the RAM bank (`Mode1`).
#[derive(PartialEq, Eq, Structural, Copy, Clone, Debug)]
pub enum BankingMode {
    Mode0,
    Mode1,
}

/// Everything the bus reaches: RAM, the cartridge, the display
/// controller, the joypad, the timer and the interrupt registers.
pub struct MemoryMapState {
    /// The boot program, mapped over 0000-00FF while `inBios` holds.
    pub bios: [u8; 0x100],
    pub workingRAM: [u8; 0x2000],
    pub zeroPageRAM: [u8; 0x7F],
    pub inBios: bool,
    pub requestedInterrupts: u8,
    pub enabledInterrupts: u8,
    pub lcd: LCDState,
    pub joypad: JoypadState,
    /// DIV
    pub divider: u8,
    /// TIMA
    pub timerCounter: u8,
    /// TMA
    pub timerModulo: u8,
    pub timerMode: TimerMode,
    pub isTimerEnabled: bool,
    /// Cycles counted towards the next divider increment.
    pub dividerCycles: u32,
    /// Cycles counted towards the next timer increment.
    pub timerCycles: u32,
    /// Source address of the last OAM transfer.
    pub currentDMAAddress: u16,
    pub romData: Vec<u8>,
    pub mbcType: MemoryBankControllerType,
    pub cartRAM: Vec<u8>,
    pub currentMBCBank: u8,
    pub currentRAMBank: u8,
    pub isCartRAMEnabled: bool,
    pub bankingMode: BankingMode,
}

/// The bus state with its memories as sequences.
pub struct MemView {
    pub bios: Seq<u8>,
    pub workingRAM: Seq<u8>,
    pub zeroPageRAM: Seq<u8>,
    pub inBios: bool,
    pub requestedInterrupts: u8,
    pub enabledInterrupts: u8,
    pub lcd: LcdView,
    pub joypad: JoypadState,
    pub divider: u8,
    pub timerCounter: u8,
    pub timerModulo: u8,
    pub timerMode: TimerMode,
    pub isTimerEnabled: bool,
    pub dividerCycles: u32,
    pub timerCycles: u32,
    pub currentDMAAddress: u16,
    pub romData: Seq<u8>,
    pub mbcType: MemoryBankControllerType,
    pub cartRAM: Seq<u8>,
    pub currentMBCBank: u8,
    pub currentRAMBank: u8,
    pub isCartRAMEnabled: bool,
    pub bankingMode: BankingMode,
}

impl View for MemoryMapState {
    type V = MemView;

    open spec fn view(&self) -> MemView {
        MemView {
            bios: self.bios@,
            workingRAM: self.workingRAM@,
            zeroPageRAM: self.zeroPageRAM@,
            inBios: self.inBios,
            requestedInterrupts: self.requestedInterrupts,
            enabledInterrupts: self.enabledInterrupts,
            lcd: self.lcd@,
            joypad: self.joypad,
            divider: self.divider,
            timerCounter: self.timerCounter,
            timerModulo: self.timerModulo,
            timerMode: self.timerMode,
            isTimerEnabled: self.isTimerEnabled,
            dividerCycles: self.dividerCycles,
            timerCycles: self.timerCycles,
            currentDMAAddress: self.currentDMAAddress,
            romData: self.romData@,
            mbcType: self.mbcType,
            cartRAM: self.cartRAM@,
            currentMBCBank: self.currentMBCBank,
            currentRAMBank: self.currentRAMBank,
            isCartRAMEnabled: self.isCartRAMEnabled,
            bankingMode: self.bankingMode,
        }
    }
}

/// Byte `i` of a sequence, or 0 past its end.
pub open spec fn byte_or_zero(s: Seq<u8>, i: int) -> u8 {
    if 0 <= i < s.len() {
        s[i]
    } else {
        0
    }
}

/// Where in the cartridge ROM an address of the switchable window lies.
pub open spec fn rom_index_spec(m: MemView, addr: u16) -> int {
    match m.mbcType {
        MemoryBankControllerType::MBC0 => addr as int,
        MemoryBankControllerType::MBC1 => m.currentMBCBank as int * 0x4000 + (addr - 0x4000),
    }
}

/// Where in the cartridge RAM an address of A000-BFFF lies.
pub open spec fn ram_index_spec(m: MemView, addr: u16) -> int {
    match m.mbcType {
        MemoryBankControllerType::MBC0 => addr - 0xA000,
        MemoryBankControllerType::MBC1 => m.currentRAMBank as int * 0x2000 + (addr - 0xA000),
    }
}

/// A palette register: two bits per color number, color 0 lowest.
pub open spec fn palette_byte_spec(p: Seq<PaletteColor>) -> u8 {
    (p[0].number_spec() + 4 * p[1].number_spec() + 16 * p[2].number_spec() + 64
        * p[3].number_spec()) as u8
}

/// The palette that a palette register value selects.
pub open spec fn palette_from_byte_spec(b: u8) -> Seq<PaletteColor> {
    seq![
        PaletteColor::from_number_spec(b % 4),
        PaletteColor::from_number_spec(b / 4 % 4),
        PaletteColor::from_number_spec(b / 16 % 4),
        PaletteColor::from_number_spec(b / 64 % 4),
    ]
}

pub open spec fn bit(b: bool) -> u8 {
    if b {
        1
    } else {
        0
    }
}

/// What a read of an I/O register or the interrupt-enable register gives.
pub open spec fn read_io_spec(m: MemView, addr: u16) -> u8 {
    if addr == 0xFF00 {
        m.joypad.register_spec()
    } else if addr == 0xFF04 {
        m.divider
    } else if addr == 0xFF05 {
        m.timerCounter
    } else if addr == 0xFF06 {
        m.timerModulo
    } else if addr == 0xFF07 {
        (m.timerMode.number_spec() + 4 * bit(m.isTimerEnabled)) as u8
    } else if addr == 0xFF0F {
        m.requestedInterrupts
    } else if addr == 0xFF40 {
        (128 * bit(m.lcd.isEnabled) + 16 * (m.lcd.backgroundTileSet % 2) + 8 * (
        m.lcd.backgroundTileMap % 2) + 4 * bit(m.lcd.spriteHeight == SpriteHeight::Tall) + 2
            * bit(m.lcd.isOAMEnabled) + bit(m.lcd.isBackgroundEnabled)) as u8
    } else if addr == 0xFF41 {
        (m.lcd.lcdc / 4 % 32 * 4 + m.lcd.mode.number_spec()) as u8
    } else if addr == 0xFF42 {
        m.lcd.scy
    } else if addr == 0xFF43 {
        m.lcd.scx
    } else if addr == 0xFF44 {
        m.lcd.currScanLine
    } else if addr == 0xFF45 {
        m.lcd.lyc
    } else if addr == 0xFF46 {
        (m.currentDMAAddress / 256) as u8
    } else if addr == 0xFF47 {
        palette_byte_spec(m.lcd.palette)
    } else if addr == 0xFF48 {
        palette_byte_spec(m.lcd.spritePalette0)
    } else if addr == 0xFF49 {
        palette_byte_spec(m.lcd.spritePalette1)
    } else if addr == 0xFF50 {
        if m.inBios {
            0
        } else {
            1
        }
    } else if 0xFF80 <= addr <= 0xFFFE {
        m.zeroPageRAM[addr - 0xFF80]
    } else if addr == 0xFFFF {
        m.enabledInterrupts
    } else {
        0
    }
}

/// What a read of `addr` gives.
pub open spec fn read_spec(m: MemView, addr: u16) -> u8 {
    if addr <= 0xFF && m.inBios {
        m.bios[addr as int]
    } else if addr <= 0x3FFF {
        byte_or_zero(m.romData, addr as int)
    } else if addr <= 0x7FFF {
        byte_or_zero(m.romData, rom_index_spec(m, addr))
    } else if addr <= 0x9FFF {
        if m.lcd.mode != LCDMode::ScanVRAMAndOAM {
            m.lcd.videoRAM[addr - 0x8000]
        } else {
            0xFF
        }
    } else if addr <= 0xBFFF {
        if m.isCartRAMEnabled {
            byte_or_zero(m.cartRAM, ram_index_spec(m, addr))
        } else {
            0
        }
    } else if addr <= 0xDFFF {
        m.workingRAM[addr - 0xC000]
    } else if addr <= 0xFDFF {
        m.workingRAM[addr - 0xE000]
    } else if addr <= 0xFE9F {
        if m.lcd.mode != LCDMode::ScanVRAMAndOAM && m.lcd.mode != LCDMode::ScanOAM {
            m.lcd.oam[addr - 0xFE00]
        } else {
            0xFF
        }
    } else if addr < 0xFF00 {
        0
    } else {
        read_io_spec(m, addr)
    }
}

/// The little-endian word at `addr` and the address after it.
pub open spec fn read_word_spec(m: MemView, addr: u16) -> u16 {
    word_spec(read_spec(m, addr.wrapping_add(1)), read_spec(m, addr))
}

/// The palette register value for a palette.
fn u8ForColorPalette(colorPalette: &[PaletteColor; 4]) -> (r: u8)
    ensures
        r == palette_byte_spec(colorPalette@),
{
    colorPalette[0].number() + 4 * colorPalette[1].number() + 16 * colorPalette[2].number() + 64
        * colorPalette[3].number()
}

/// Sets a palette from a palette register value.
fn updateColorPaletteFromU8(colorPalette: &mut [PaletteColor; 4], val: u8)
    ensures
        final(colorPalette)@ == palette_from_byte_spec(val),
{
    colorPalette[0] = PaletteColor::from_number(val % 4);
    colorPalette[1] = PaletteColor::from_number(val / 4 % 4);
    colorPalette[2] = PaletteColor::from_number(val / 16 % 4);
    colorPalette[3] = PaletteColor::from_number(val / 64 % 4);
    assert(colorPalette@ =~= palette_from_byte_spec(val));
}

fn bit_of(b: bool) -> (r: u8)
    ensures
        r == bit(b),
{
    if b {
        1
    } else {
        0
    }
}

fn byte_at_or_zero(s: &Vec<u8>, i: usize) -> (r: u8)
    ensures
        r == byte_or_zero(s@, i as int),
{
    if i < s.len() {
        s[i]
    } else {
        0
    }
}

fn read_io(memory: &MemoryMapState, addr: u16) -> (r: u8)
    requires
        addr >= 0xFF00,
    ensures
        r == read_io_spec(memory@, addr),
{
    let lcd = &memory.lcd;
    if addr == 0xFF00 {
        memory.joypad.register()
    } else if addr == 0xFF04 {
        memory.divider
    } else if addr == 0xFF05 {
        memory.timerCounter
    } else if addr == 0xFF06 {
        memory.timerModulo
    } else if addr == 0xFF07 {
        let mode: u8 = match memory.timerMode {
            TimerMode::Mode0 => 0,
            TimerMode::Mode1 => 1,
            TimerMode::Mode2 => 2,
            TimerMode::Mode3 => 3,
        };
        mode + 4 * bit_of(memory.isTimerEnabled)
    } else if addr == 0xFF0F {
        memory.requestedInterrupts
    } else if addr == 0xFF40 {
        let tall = match lcd.spriteHeight {
            SpriteHeight::Short => false,
            SpriteHeight::Tall => true,
        };
        128 * bit_of(lcd.isEnabled) + 16 * (lcd.backgroundTileSet % 2) + 8 * (lcd.backgroundTileMap
            % 2) + 4 * bit_of(tall) + 2 * bit_of(lcd.isOAMEnabled) + bit_of(lcd.isBackgroundEnabled)
    } else if addr == 0xFF41 {
        lcd.lcdc / 4 % 32 * 4 + lcd.mode.number()
    } else if addr == 0xFF42 {
        lcd.scy
    } else if addr == 0xFF43 {
        lcd.scx
    } else if addr == 0xFF44 {
        lcd.currScanLine
    } else if addr == 0xFF45 {
        lcd.lyc
    } else if addr == 0xFF46 {
        (memory.currentDMAAddress / 256) as u8
    } else if addr == 0xFF47 {
        u8ForColorPalette(&lcd.palette)
    } else if addr == 0xFF48 {
        u8ForColorPalette(&lcd.spritePalette0)
    } else if addr == 0xFF49 {
        u8ForColorPalette(&lcd.spritePalette1)
    } else if addr == 0xFF50 {
        if memory.inBios {
            0
        } else {
            1
        }
    } else if 0xFF80 <= addr && addr <= 0xFFFE {
        memory.zeroPageRAM[(addr - 0xFF80) as usize]
    } else if addr == 0xFFFF {
        memory.enabledInterrupts
    } else {
        0
    }
}

/// Reads the byte at `addr`. Every address reads as something: regions
/// without storage read as 0, and video memory and sprite memory read as
/// 0xFF while the display controller holds them.
pub fn readByteFromMemory(memory: &MemoryMapState, addr: u16) -> (r: u8)
    ensures
        r == read_spec(memory@, addr),
{
    let lcd = &memory.lcd;
    if addr <= 0xFF && memory.inBios {
        memory.bios[addr as usize]
    } else if addr <= 0x3FFF {
        byte_at_or_zero(&memory.romData, addr as usize)
    } else if addr <= 0x7FFF {
        match memory.mbcType {
            MemoryBankControllerType::MBC0 => byte_at_or_zero(&memory.romData, addr as usize),
            MemoryBankControllerType::MBC1 => {
                let i = memory.currentMBCBank as usize * 0x4000 + (addr - 0x4000) as usize;
                byte_at_or_zero(&memory.romData, i)
            },
        }
    } else if addr <= 0x9FFF {
        if lcd.mode != LCDMode::ScanVRAMAndOAM {
            lcd.videoRAM[(addr - 0x8000) as usize]
        } else {
            0xFF
        }
    } else if addr <= 0xBFFF {
        if memory.isCartRAMEnabled {
            let i = match memory.mbcType {
                MemoryBankControllerType::MBC0 => (addr - 0xA000) as usize,
                MemoryBankControllerType::MBC1 => memory.currentRAMBank as usize * 0x2000 + (addr
                    - 0xA000) as usize,
            };
            byte_at_or_zero(&memory.cartRAM, i)
        } else {
            0
        }
    } else if addr <= 0xDFFF {
        memory.workingRAM[(addr - 0xC000) as usize]
    } else if addr <= 0xFDFF {
        memory.workingRAM[(addr - 0xE000) as usize]
    } else if addr <= 0xFE9F {
        if lcd.mode != LCDMode::ScanVRAMAndOAM && lcd.mode != LCDMode::ScanOAM {
            lcd.oam[(addr - 0xFE00) as usize]
        } else {
            0xFF
        }
    } else if addr < 0xFF00 {
        0
    } else {
        read_io(memory, addr)
    }
}

/// Reads the little-endian word at `addr`: the low byte at `addr`, the
/// high byte at the next address (wrapping past 0xFFFF).
pub fn readWordFromMemory(memory: &MemoryMapState, addr: u16) -> (r: u16)
    ensures
        r == read_word_spec(memory@, addr),
{
    let lo = readByteFromMemory(memory, addr);
    let hi = readByteFromMemory(memory, addr.wrapping_add(1));
    word(hi, lo)
}

/// A ROM bank number with bank 0 of each group of 32 moved to the next
/// bank: the switchable window never shows bank 0.
pub open spec fn fix_rom_bank_spec(bank: int) -> u8 {
    if bank % 32 == 0 {
        (bank + 1) as u8
    } else {
        bank as u8
    }
}

/// The page an OAM transfer copies from, for a write of `b` to FF46.
pub open spec fn dma_source_spec(b: u8) -> u16 {
    if b <= 0xF1 {
        (b as int * 256) as u16
    } else {
        0xF100
    }
}

/// The display controller after a write of `b` to one of its registers
/// (FF40 to FF45, FF47 to FF49).
pub open spec fn write_lcd_register_spec(lcd: LcdView, addr: u16, b: u8) -> LcdView {
    if addr == 0xFF40 {
        LcdView {
            isEnabled: b >= 128,
            backgroundTileSet: b / 16 % 2,
            backgroundTileMap: b / 8 % 2,
            spriteHeight: if b / 4 % 2 == 1 {
                SpriteHeight::Tall
            } else {
                SpriteHeight::Short
            },
            isOAMEnabled: b / 2 % 2 == 1,
            isBackgroundEnabled: b % 2 == 1,
            ..lcd
        }
    } else if addr == 0xFF41 {
        LcdView { lcdc: (b / 8 % 16 * 8 + lcd.lcdc / 4 % 2 * 4) as u8, ..lcd }
    } else if addr == 0xFF42 {
        LcdView { scy: b, ..lcd }
    } else if addr == 0xFF43 {
        LcdView { scx: b, ..lcd }
    } else if addr == 0xFF44 {
        LcdView { currScanLine: 0, ..lcd }
    } else if addr == 0xFF45 {
        LcdView { lyc: b, ..lcd }
    } else if addr == 0xFF47 {
        LcdView { palette: palette_from_byte_spec(b), ..lcd }
    } else if addr == 0xFF48 {
        LcdView { spritePalette0: palette_from_byte_spec(b), ..lcd }
    } else if addr == 0xFF49 {
        LcdView { spritePalette1: palette_from_byte_spec(b), ..lcd }
    } else {
        lcd
    }
}

/// The bank controller's state after a write of `b` to the ROM area.
pub open spec fn write_mbc_spec(m: MemView, addr: u16, b: u8) -> MemView {
    if addr <= 0x1FFF {
        MemView { isCartRAMEnabled: b % 16 == 0xA, ..m }
    } else if addr <= 0x3FFF {
        MemView {
            currentMBCBank: fix_rom_bank_spec(m.currentMBCBank % 128 / 32 * 32 + b % 32),
            ..m
        }
    } else if addr <= 0x5FFF {
        match m.bankingMode {
            BankingMode::Mode0 => MemView {
                currentMBCBank: fix_rom_bank_spec(m.currentMBCBank % 32 + b % 4 * 32),
                ..m
            },
            BankingMode::Mode1 => MemView { currentRAMBank: b % 4, ..m },
        }
    } else {
        MemView {
            bankingMode: if b % 2 == 1 {
                BankingMode::Mode1
            } else {
                BankingMode::Mode0
            },
            ..m
        }
    }
}

/// The state after a write of `b` to an I/O register or to the
/// interrupt-enable register.
pub open spec fn write_io_spec(m: MemView, addr: u16, b: u8) -> MemView {
    let lcd = m.lcd;
    if addr == 0xFF00 {
        MemView {
            joypad: JoypadState { selectedButtonGroup: JoypadState::group_for_spec(b), ..m.joypad },
            ..m
        }
    } else if addr == 0xFF04 {
        MemView { divider: 0, ..m }
    } else if addr == 0xFF05 {
        MemView { timerCounter: b, ..m }
    } else if addr == 0xFF06 {
        MemView { timerModulo: b, ..m }
    } else if addr == 0xFF07 {
        MemView {
            timerMode: TimerMode::from_bits_spec(b),
            isTimerEnabled: b / 4 % 2 == 1,
            ..m
        }
    } else if addr == 0xFF0F {
        MemView { requestedInterrupts: b, ..m }
    } else if 0xFF40 <= addr <= 0xFF45 || 0xFF47 <= addr <= 0xFF49 {
        MemView { lcd: write_lcd_register_spec(lcd, addr, b), ..m }
    } else if addr == 0xFF46 {
        MemView {
            currentDMAAddress: dma_source_spec(b),
            lcd: LcdView {
                oam: Seq::new(0xA0, |i: int| read_spec(m, (dma_source_spec(b) + i) as u16)),
                ..lcd
            },
            ..m
        }
    } else if addr == 0xFF50 {
        MemView { inBios: false, ..m }
    } else if 0xFF80 <= addr <= 0xFFFE {
        MemView { zeroPageRAM: m.zeroPageRAM.update(addr - 0xFF80, b), ..m }
    } else if addr == 0xFFFF {
        MemView { enabledInterrupts: b, ..m }
    } else {
        m
    }
}

/// The state after a write of `b` to `addr`.
pub open spec fn write_spec(m: MemView, addr: u16, b: u8) -> MemView {
    if addr <= 0x7FFF {
        write_mbc_spec(m, addr, b)
    } else if addr <= 0x9FFF {
        if m.lcd.mode != LCDMode::ScanVRAMAndOAM {
            MemView { lcd: LcdView { videoRAM: m.lcd.videoRAM.update(addr - 0x8000, b), ..m.lcd }, ..m }
        } else {
            m
        }
    } else if addr <= 0xBFFF {
        if m.isCartRAMEnabled && 0 <= ram_index_spec(m, addr) < m.cartRAM.len() {
            MemView { cartRAM: m.cartRAM.update(ram_index_spec(m, addr), b), ..m }
        } else {
            m
        }
    } else if addr <= 0xDFFF {
        MemView { workingRAM: m.workingRAM.update(addr - 0xC000, b), ..m }
    } else if addr <= 0xFDFF {
        MemView { workingRAM: m.workingRAM.update(addr - 0xE000, b), ..m }
    } else if addr <= 0xFE9F {
        if m.lcd.mode != LCDMode::ScanVRAMAndOAM && m.lcd.mode != LCDMode::ScanOAM {
            MemView { lcd: LcdView { oam: m.lcd.oam.update(addr - 0xFE00, b), ..m.lcd }, ..m }
        } else {
            m
        }
    } else if addr < 0xFF00 {
        m
    } else {
        write_io_spec(m, addr, b)
    }
}

/// The state after a little-endian word write at `addr`.
pub open spec fn write_word_spec(m: MemView, addr: u16, w: u16) -> MemView {
    write_spec(write_spec(m, addr, (w % 256) as u8), addr.wrapping_add(1), (w / 256) as u8)
}

fn fix_rom_bank(bank: u8) -> (r: u8)
    requires
        bank < 0x80,
    ensures
        r == fix_rom_bank_spec(bank as int),
{
    if bank % 32 == 0 {
        bank + 1
    } else {
        bank
    }
}

/// Copies the 160 bytes at the source page into sprite memory at once.
fn run_dma(memory: &mut MemoryMapState, byte: u8)
    ensures
        final(memory)@ == write_io_spec(old(memory)@, 0xFF46, byte),
{
    let src: u16 = if byte <= 0xF1 {
        byte as u16 * 256
    } else {
        0xF100
    };
    let mut buf: [u8; 0xA0] = [0u8; 0xA0];
    let mut i: usize = 0;
    while i < 0xA0
        invariant
            i <= 0xA0,
            src == dma_source_spec(byte),
            src <= 0xF100,
            forall|j: int| 0 <= j < i ==> buf@[j] == read_spec(memory@, (src + j) as u16),
        decreases 0xA0 - i,
    {
        buf[i] = readByteFromMemory(memory, src + i as u16);
        i = i + 1;
    }
    let ghost m0 = memory@;
    memory.currentDMAAddress = src;
    memory.lcd.oam = buf;
    assert(memory@.lcd.oam =~= Seq::new(0xA0, |i: int| read_spec(m0, (dma_source_spec(byte) + i) as u16)));
    assert(memory@ == write_io_spec(m0, 0xFF46, byte));
}

fn write_lcd_register(lcd: &mut LCDState, byte: u8, addr: u16)
    ensures
        final(lcd)@ == write_lcd_register_spec(old(lcd)@, addr, byte),
{
    if addr == 0xFF40 {
        lcd.isEnabled = byte >= 128;
        lcd.backgroundTileSet = byte / 16 % 2;
        lcd.backgroundTileMap = byte / 8 % 2;
        lcd.spriteHeight = if byte / 4 % 2 == 1 {
            SpriteHeight::Tall
        } else {
            SpriteHeight::Short
        };
        lcd.isOAMEnabled = byte / 2 % 2 == 1;
        lcd.isBackgroundEnabled = byte % 2 == 1;
    } else if addr == 0xFF41 {
        lcd.lcdc = byte / 8 % 16 * 8 + lcd.lcdc / 4 % 2 * 4;
    } else if addr == 0xFF42 {
        lcd.scy = byte;
    } else if addr == 0xFF43 {
        lcd.scx = byte;
    } else if addr == 0xFF44 {
        lcd.currScanLine = 0;
    } else if addr == 0xFF45 {
        lcd.lyc = byte;
    } else if addr == 0xFF47 {
        updateColorPaletteFromU8(&mut lcd.palette, byte);
    } else if addr == 0xFF48 {
        updateColorPaletteFromU8(&mut lcd.spritePalette0, byte);
    } else if addr == 0xFF49 {
        updateColorPaletteFromU8(&mut lcd.spritePalette1, byte);
    }
}

fn write_mbc(memory: &mut MemoryMapState, byte: u8, addr: u16)
    requires
        addr <= 0x7FFF,
    ensures
        final(memory)@ == write_mbc_spec(old(memory)@, addr, byte),
{
    if addr <= 0x1FFF {
        memory.isCartRAMEnabled = byte % 16 == 0xA;
    } else if addr <= 0x3FFF {
        let bank = memory.currentMBCBank % 0x80 / 32 * 32 + byte % 32;
        memory.currentMBCBank = fix_rom_bank(bank);
    } else if addr <= 0x5FFF {
        match memory.bankingMode {
            BankingMode::Mode0 => {
                let bank = memory.currentMBCBank % 32 + byte % 4 * 32;
                memory.currentMBCBank = fix_rom_bank(bank);
            },
            BankingMode::Mode1 => {
                memory.currentRAMBank = byte % 4;
            },
        }
    } else {
        memory.bankingMode = if byte % 2 == 1 {
            BankingMode::Mode1
        } else {
            BankingMode::Mode0
        };
    }
}

#[verifier::rlimit(60)]
fn write_io(memory: &mut MemoryMapState, byte: u8, addr: u16)
    requires
        addr >= 0xFF00,
    ensures
        final(memory)@ == write_io_spec(old(memory)@, addr, byte),
{
    let ghost m0 = memory@;
    if addr == 0xFF00 {
        memory.joypad.selectedButtonGroup = JoypadState::group_for(byte);
    } else if addr == 0xFF04 {
        memory.divider = 0;
    } else if addr == 0xFF05 {
        memory.timerCounter = byte;
    } else if addr == 0xFF06 {
        memory.timerModulo = byte;
    } else if addr == 0xFF07 {
        let bits = byte % 4;
        memory.timerMode = if bits == 0 {
            TimerMode::Mode0
        } else if bits == 1 {
            TimerMode::Mode1
        } else if bits == 2 {
            TimerMode::Mode2
        } else {
            TimerMode::Mode3
        };
        memory.isTimerEnabled = byte / 4 % 2 == 1;
    } else if addr == 0xFF0F {
        memory.requestedInterrupts = byte;
    } else if (0xFF40 <= addr && addr <= 0xFF45) || (0xFF47 <= addr && addr <= 0xFF49) {
        write_lcd_register(&mut memory.lcd, byte, addr);
    } else if addr == 0xFF46 {
        run_dma(memory, byte);
    } else if addr == 0xFF50 {
        memory.inBios = false;
    } else if 0xFF80 <= addr && addr <= 0xFFFE {
        memory.zeroPageRAM[(addr - 0xFF80) as usize] = byte;
    } else if addr == 0xFFFF {
        memory.enabledInterrupts = byte;
    }
}

/// Writes `byte` to `addr`: stores it, or changes the bank controller,
/// a device register, or nothing, as the address decides.
#[verifier::rlimit(60)]
pub fn writeByteToMemory(memory: &mut MemoryMapState, byte: u8, addr: u16)
    ensures
        final(memory)@ == write_spec(old(memory)@, addr, byte),
{
    if addr <= 0x7FFF {
        write_mbc(memory, byte, addr);
    } else if addr <= 0x9FFF {
        if memory.lcd.mode != LCDMode::ScanVRAMAndOAM {
            memory.lcd.videoRAM[(addr - 0x8000) as usize] = byte;
        }
    } else if addr <= 0xBFFF {
        if memory.isCartRAMEnabled {
            let i = match memory.mbcType {
                MemoryBankControllerType::MBC0 => (addr - 0xA000) as usize,
                MemoryBankControllerType::MBC1 => memory.currentRAMBank as usize * 0x2000 + (addr
                    - 0xA000) as usize,
            };
            if i < memory.cartRAM.len() {
                memory.cartRAM.set(i, byte);
            }
        }
    } else if addr <= 0xDFFF {
        memory.workingRAM[(addr - 0xC000) as usize] = byte;
    } else if addr <= 0xFDFF {
        memory.workingRAM[(addr - 0xE000) as usize] = byte;
    } else if addr <= 0xFE9F {
        if memory.lcd.mode != LCDMode::ScanVRAMAndOAM && memory.lcd.mode != LCDMode::ScanOAM {
            memory.lcd.oam[(addr - 0xFE00) as usize] = byte;
        }
    } else if addr >= 0xFF00 {
        write_io(memory, byte, addr);
    }
}

/// Writes a little-endian word: the low byte at `addr`, the high byte at
/// the next address (wrapping past 0xFFFF).
pub fn writeWordToMemory(memory: &mut MemoryMapState, word: u16, addr: u16)
    ensures
        final(memory)@ == write_word_spec(old(memory)@, addr, word),
{
    writeByteToMemory(memory, lb(word), addr);
    writeByteToMemory(memory, hb(word), addr.wrapping_add(1));
}

/// The boot program: it sets up the stack and the display, shows the
/// cartridge logo, checks the header and leaves through a write to FF50.
pub open spec fn boot_rom_spec() -> Seq<u8> {
    seq![
        0x31, 0xFE, 0xFF, 0xAF, 0x21, 0xFF, 0x9F, 0x32, 0xCB, 0x7C, 0x20, 0xFB, 0x21, 0x26, 0xFF, 0x0E,
        0x11, 0x3E, 0x80, 0x32, 0xE2, 0x0C, 0x3E, 0xF3, 0xE2, 0x32, 0x3E, 0x77, 0x77, 0x3E, 0xFC, 0xE0,
        0x47, 0x11, 0x04, 0x01, 0x21, 0x10, 0x80, 0x1A, 0xCD, 0x95, 0x00, 0xCD, 0x96, 0x00, 0x13, 0x7B,
        0xFE, 0x34, 0x20, 0xF3, 0x11, 0xD8, 0x00, 0x06, 0x08, 0x1A, 0x13, 0x22, 0x23, 0x05, 0x20, 0xF9,
        0x3E, 0x19, 0xEA, 0x10, 0x99, 0x21, 0x2F, 0x99, 0x0E, 0x0C, 0x3D, 0x28, 0x08, 0x32, 0x0D, 0x20,
        0xF9, 0x2E, 0x0F, 0x18, 0xF3, 0x67, 0x3E, 0x64, 0x57, 0xE0, 0x42, 0x3E, 0x91, 0xE0, 0x40, 0x04,
        0x1E, 0x02, 0x0E, 0x0C, 0xF0, 0x44, 0xFE, 0x90, 0x20, 0xFA, 0x0D, 0x20, 0xF7, 0x1D, 0x20, 0xF2,
        0x0E, 0x13, 0x24, 0x7C, 0x1E, 0x83, 0xFE, 0x62, 0x28, 0x06, 0x1E, 0xC1, 0xFE, 0x64, 0x20, 0x06,
        0x7B, 0xE2, 0x0C, 0x3E, 0x87, 0xE2, 0xF0, 0x42, 0x90, 0xE0, 0x42, 0x15, 0x20, 0xD2, 0x05, 0x20,
        0x4F, 0x16, 0x20, 0x18, 0xCB, 0x4F, 0x06, 0x04, 0xC5, 0xCB, 0x11, 0x17, 0xC1, 0xCB, 0x11, 0x17,
        0x05, 0x20, 0xF5, 0x22, 0x23, 0x22, 0x23, 0xC9, 0xCE, 0xED, 0x66, 0x66, 0xCC, 0x0D, 0x00, 0x0B,
        0x03, 0x73, 0x00, 0x83, 0x00, 0x0C, 0x00, 0x0D, 0x00, 0x08, 0x11, 0x1F, 0x88, 0x89, 0x00, 0x0E,
        0xDC, 0xCC, 0x6E, 0xE6, 0xDD, 0xDD, 0xD9, 0x99, 0xBB, 0xBB, 0x67, 0x63, 0x6E, 0x0E, 0xEC, 0xCC,
        0xDD, 0xDC, 0x99, 0x9F, 0xBB, 0xB9, 0x33, 0x3E, 0x3C, 0x42, 0xB9, 0xA5, 0xB9, 0xA5, 0x42, 0x3C,
        0x21, 0x04, 0x01, 0x11, 0xA8, 0x00, 0x1A, 0x13, 0xBE, 0x20, 0xFE, 0x23, 0x7D, 0xFE, 0x34, 0x20,
        0xF5, 0x06, 0x19, 0x78, 0x86, 0x23, 0x05, 0x20, 0xFB, 0x86, 0x20, 0xFE, 0x3E, 0x01, 0xE0, 0x50,
    ]
}

/// The bus at power-on: in the boot program, RAM and registers zero, no
/// cartridge, ROM bank 1 in the switchable window.
pub open spec fn power_on_spec() -> MemView {
    MemView {
        bios: boot_rom_spec(),
        workingRAM: Seq::new(0x2000, |i: int| 0u8),
        zeroPageRAM: Seq::new(0x7F, |i: int| 0u8),
        inBios: true,
        requestedInterrupts: 0,
        enabledInterrupts: 0,
        lcd: LCDState::initial_spec(),
        joypad: JoypadState::new_spec(),
        divider: 0,
        timerCounter: 0,
        timerModulo: 0,
        timerMode: TimerMode::Mode0,
        isTimerEnabled: false,
        dividerCycles: 0,
        timerCycles: 0,
        currentDMAAddress: 0,
        romData: Seq::empty(),
        mbcType: MemoryBankControllerType::MBC0,
        cartRAM: Seq::empty(),
        currentMBCBank: 1,
        currentRAMBank: 0,
        isCartRAMEnabled: false,
        bankingMode: BankingMode::Mode0,
    }
}

/// Why a cartridge image cannot be loaded.
#[derive(PartialEq, Eq, Structural, Copy, Clone, Debug)]
pub enum CartridgeError {
    /// The image is shorter than its declared number of ROM banks.
    TooShort,
}

impl MemoryMapState {
    /// Power-on state: in the boot program, all RAM and registers zero,
    /// no cartridge, ROM bank 1 in the switchable window.
    pub fn new() -> (r: MemoryMapState)
        ensures
            r@ == power_on_spec(),
    {
        let r = MemoryMapState {
            bios: [
    0x31, 0xFE, 0xFF, 0xAF, 0x21, 0xFF, 0x9F, 0x32, 0xCB, 0x7C, 0x20, 0xFB, 0x21, 0x26, 0xFF, 0x0E,
    0x11, 0x3E, 0x80, 0x32, 0xE2, 0x0C, 0x3E, 0xF3, 0xE2, 0x32, 0x3E, 0x77, 0x77, 0x3E, 0xFC, 0xE0,
    0x47, 0x11, 0x04, 0x01, 0x21, 0x10, 0x80, 0x1A, 0xCD, 0x95, 0x00, 0xCD, 0x96, 0x00, 0x13, 0x7B,
    0xFE, 0x34, 0x20, 0xF3, 0x11, 0xD8, 0x00, 0x06, 0x08, 0x1A, 0x13, 0x22, 0x23, 0x05, 0x20, 0xF9,
    0x3E, 0x19, 0xEA, 0x10, 0x99, 0x21, 0x2F, 0x99, 0x0E, 0x0C, 0x3D, 0x28, 0x08, 0x32, 0x0D, 0x20,
    0xF9, 0x2E, 0x0F, 0x18, 0xF3, 0x67, 0x3E, 0x64, 0x57, 0xE0, 0x42, 0x3E, 0x91, 0xE0, 0x40, 0x04,
    0x1E, 0x02, 0x0E, 0x0C, 0xF0, 0x44, 0xFE, 0x90, 0x20, 0xFA, 0x0D, 0x20, 0xF7, 0x1D, 0x20, 0xF2,
    0x0E, 0x13, 0x24, 0x7C, 0x1E, 0x83, 0xFE, 0x62, 0x28, 0x06, 0x1E, 0xC1, 0xFE, 0x64, 0x20, 0x06,
    0x7B, 0xE2, 0x0C, 0x3E, 0x87, 0xE2, 0xF0, 0x42, 0x90, 0xE0, 0x42, 0x15, 0x20, 0xD2, 0x05, 0x20,
    0x4F, 0x16, 0x20, 0x18, 0xCB, 0x4F, 0x06, 0x04, 0xC5, 0xCB, 0x11, 0x17, 0xC1, 0xCB, 0x11, 0x17,
    0x05, 0x20, 0xF5, 0x22, 0x23, 0x22, 0x23, 0xC9, 0xCE, 0xED, 0x66, 0x66, 0xCC, 0x0D, 0x00, 0x0B,
    0x03, 0x73, 0x00, 0x83, 0x00, 0x0C, 0x00, 0x0D, 0x00, 0x08, 0x11, 0x1F, 0x88, 0x89, 0x00, 0x0E,
    0xDC, 0xCC, 0x6E, 0xE6, 0xDD, 0xDD, 0xD9, 0x99, 0xBB, 0xBB, 0x67, 0x63, 0x6E, 0x0E, 0xEC, 0xCC,
    0xDD, 0xDC, 0x99, 0x9F, 0xBB, 0xB9, 0x33, 0x3E, 0x3C, 0x42, 0xB9, 0xA5, 0xB9, 0xA5, 0x42, 0x3C,
    0x21, 0x04, 0x01, 0x11, 0xA8, 0x00, 0x1A, 0x13, 0xBE, 0x20, 0xFE, 0x23, 0x7D, 0xFE, 0x34, 0x20,
    0xF5, 0x06, 0x19, 0x78, 0x86, 0x23, 0x05, 0x20, 0xFB, 0x86, 0x20, 0xFE, 0x3E, 0x01, 0xE0, 0x50
],
            workingRAM: [0u8; 0x2000],
            zeroPageRAM: [0u8; 0x7F],
            inBios: true,
            requestedInterrupts: 0,
            enabledInterrupts: 0,
            lcd: LCDState::new(),
            joypad: JoypadState::new(),
            divider: 0,
            timerCounter: 0,
            timerModulo: 0,
            timerMode: TimerMode::Mode0,
            isTimerEnabled: false,
            dividerCycles: 0,
            timerCycles: 0,
            currentDMAAddress: 0,
            romData: Vec::new(),
            mbcType: MemoryBankControllerType::MBC0,
            cartRAM: Vec::new(),
            currentMBCBank: 1,
            currentRAMBank: 0,
            isCartRAMEnabled: false,
            bankingMode: BankingMode::Mode0,
        };
        assert(r@.bios =~= boot_rom_spec());
        assert(r@.workingRAM =~= Seq::new(0x2000, |i: int| 0u8));
        assert(r@.zeroPageRAM =~= Seq::new(0x7F, |i: int| 0u8));
        assert(r@.romData =~= Seq::<u8>::empty());
        assert(r@.cartRAM =~= Seq::<u8>::empty());
        r
    }

    /// Installs a cartridge image with its bank controller, its declared
    /// number of 16 KiB ROM banks and its RAM size. Fails, changing
    /// nothing, when the image is shorter than its banks.
    pub fn load_rom(
        &mut self,
        rom: Vec<u8>,
        mbcType: MemoryBankControllerType,
        romBanks: usize,
        ramBytes: usize,
    ) -> (r: Result<(), CartridgeError>)
        ensures
            r is Err <==> rom@.len() < romBanks as int * 0x4000,
            r is Err ==> *final(self) == *old(self),
            r is Ok ==> final(self)@ == (MemView {
                romData: rom@,
                mbcType: mbcType,
                cartRAM: Seq::new(ramBytes as nat, |i: int| 0u8),
                ..old(self)@
            }),
    {
        if (rom.len() as u128) < romBanks as u128 * 0x4000 {
            return Err(CartridgeError::TooShort);
        }
        let mut ram: Vec<u8> = Vec::new();
        let mut i: usize = 0;
        while i < ramBytes
            invariant
                i <= ramBytes,
                ram@ == Seq::new(i as nat, |j: int| 0u8),
            decreases ramBytes - i,
        {
            ram.push(0);
            i = i + 1;
            assert(ram@ =~= Seq::new(i as nat, |j: int| 0u8));
        }
        self.romData = rom;
        self.mbcType = mbcType;
        self.cartRAM = ram;
        Ok(())
    }
}

/// The timer counter after `k` increments from `counter`, and whether it
/// overflowed on the way; each overflow reloads it from `modulo`.
pub open spec fn timer_run_spec(counter: u8, modulo: u8, k: nat) -> (u8, bool)
    decreases k,
{
    if k == 0 {
        (counter, false)
    } else {
        let (c, o) = timer_run_spec(counter, modulo, (k - 1) as nat);
        if c == 255 {
            (modulo, true)
        } else {
            ((c + 1) as u8, o)
        }
    }
}

/// The divider and timer after `cycles` more cycles.
pub open spec fn tick_spec(m: MemView, cycles: u32) -> MemView {
    let d = m.dividerCycles as int + cycles;
    let t = m.timerCycles as int + cycles;
    let th = m.timerMode.threshold_spec() as int;
    let (c, o) = timer_run_spec(m.timerCounter, m.timerModulo, (t / th) as nat);
    let m1 = MemView {
        divider: ((m.divider as int + d / 256) % 256) as u8,
        dividerCycles: (d % 256) as u32,
        ..m
    };
    if m.isTimerEnabled {
        MemView {
            timerCounter: c,
            timerCycles: (t % th) as u32,
            requestedInterrupts: if o {
                m.requestedInterrupts | 4
            } else {
                m.requestedInterrupts
            },
            ..m1
        }
    } else {
        m1
    }
}

/// Advances the divider and, when enabled, the timer by `cycles` cycles.
/// The divider counts once per 256 cycles; the timer once per threshold
/// of its mode, reloading from TMA and requesting the timer interrupt
/// when it overflows.
pub fn stepTimer(memory: &mut MemoryMapState, cycles: u32)
    ensures
        final(memory)@ == tick_spec(old(memory)@, cycles),
{
    let d: u64 = memory.dividerCycles as u64 + cycles as u64;
    memory.divider = ((memory.divider as u64 + d / 256) % 256) as u8;
    memory.dividerCycles = (d % 256) as u32;
    if memory.isTimerEnabled {
        let t: u64 = memory.timerCycles as u64 + cycles as u64;
        let th: u64 = memory.timerMode.threshold() as u64;
        let k: u64 = t / th;
        let mut c: u8 = memory.timerCounter;
        let mut o: bool = false;
        let mut j: u64 = 0;
        while j < k
            invariant
                j <= k,
                (c, o) == timer_run_spec(memory.timerCounter, memory.timerModulo, j as nat),
            decreases k - j,
        {
            if c == 255 {
                c = memory.timerModulo;
                o = true;
            } else {
                c = c + 1;
            }
            j = j + 1;
        }
        memory.timerCounter = c;
        memory.timerCycles = (t % th) as u32;
        if o {
            memory.requestedInterrupts = memory.requestedInterrupts | 4;
        }
    }
}

/// The memories of a view have the sizes of the state they come from.
pub open spec fn sizes_ok(m: MemView) -> bool {
    &&& m.bios.len() == 0x100
    &&& m.workingRAM.len() == 0x2000
    &&& m.zeroPageRAM.len() == 0x7F
    &&& m.lcd.videoRAM.len() == 0x2000
    &&& m.lcd.oam.len() == 0xA0
}

/// A word written to working RAM, to high RAM, or to video RAM while the
/// display controller leaves it free, reads back unchanged.
pub proof fn lemma_word_round_trip(m: MemView, addr: u16, v: u16)
    requires
        sizes_ok(m),
        (0xC000 <= addr <= 0xDFFE) || (0xFF80 <= addr <= 0xFFFD) || (0x8000 <= addr <= 0x9FFE
            && m.lcd.mode != LCDMode::ScanVRAMAndOAM),
    ensures
        read_word_spec(write_word_spec(m, addr, v), addr) == v,
{
}

/// During pixel transfer a word write to video RAM changes nothing.
pub proof fn lemma_vram_write_refused(m: MemView, addr: u16, v: u16)
    requires
        0x8000 <= addr <= 0x9FFE,
        m.lcd.mode == LCDMode::ScanVRAMAndOAM,
    ensures
        write_word_spec(m, addr, v) == m,
{
}

/// The echo area and working RAM are one storage: a byte written through
/// either address reads back through the other.
pub proof fn lemma_echo_ram(m: MemView, addr: u16, v: u8)
    requires
        sizes_ok(m),
        0xE000 <= addr <= 0xFDFF,
    ensures
        read_spec(write_spec(m, addr, v), (addr - 0x2000) as u16) == v,
        read_spec(write_spec(m, (addr - 0x2000) as u16, v), addr) == v,
{
}

} // verus!
