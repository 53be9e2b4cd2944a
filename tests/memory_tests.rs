use gbemu::gb_lcd::{LCDMode, BLACK, DARK_GRAY, LIGHT_GRAY};
use gbemu::gb_memory::{
    readByteFromMemory, readWordFromMemory, stepTimer, writeByteToMemory, writeWordToMemory, CartridgeError,
    MemoryBankControllerType, MemoryMapState,
};
use gbemu::gb_util::{hb, lb, word};

/// A 32 KiB cartridge image that starts with a jump.
fn mbc0_rom() -> Vec<u8> {
    let mut rom = vec![0u8; 0x8000];
    rom[0] = 0xC3;
    rom[1] = 0x0C;
    rom
}

#[test]
fn test_gb_memory_testReadAndWriteByte() {
    let romData = mbc0_rom();
    assert!(romData.len() == 0x8000);
    let mut memory = MemoryMapState::new();
    memory.romData = romData;

    assert!(readByteFromMemory(&memory, 0) == 0x31);
    memory.inBios = false;
    assert!(readByteFromMemory(&memory, 0) == 0xC3);
    memory.inBios = true;
    assert!(readByteFromMemory(&memory, 0xC001) == 0);

    writeByteToMemory(&mut memory, 0xAA, 0xDFFF);
    assert!(readByteFromMemory(&memory, 0xDFFF) == memory.workingRAM[memory.workingRAM.len() - 1]);
    assert!(readByteFromMemory(&memory, 0xDFFF) == 0xAA);

    writeByteToMemory(&mut memory, 0xAA, 0xE000);
    assert!(readByteFromMemory(&memory, 0xC000) == 0xAA);
    assert!(readByteFromMemory(&memory, 0xE000) == 0xAA);

    writeByteToMemory(&mut memory, 0xAA, 0xFF90);
    assert!(readByteFromMemory(&memory, 0xDFFF) == memory.zeroPageRAM[0x10]);
    assert!(readByteFromMemory(&memory, 0xFF90) == 0xAA);

    writeByteToMemory(&mut memory, 0xAA, 0x8010);
    assert!(readByteFromMemory(&memory, 0x8010) == memory.lcd.videoRAM[0x10]);
    assert!(readByteFromMemory(&memory, 0x8010) == 0xAA);

    writeByteToMemory(&mut memory, 0xAA, 0x8010);
    assert!(readByteFromMemory(&memory, 0x8010) == memory.lcd.videoRAM[0x10]);
    assert!(readByteFromMemory(&memory, 0x8010) == 0xAA);
}

#[test]
fn test_gb_memory_testReadAndWriteWord() {
    let romData = mbc0_rom();
    assert!(romData.len() == 0x8000);
    let mut memory = MemoryMapState::new();
    memory.romData = romData;

    assert!(readWordFromMemory(&memory, 0) == 0xFE31);
    memory.inBios = false;
    assert!(readWordFromMemory(&memory, 0) == 0x0CC3);
    memory.inBios = true;
    assert!(readWordFromMemory(&memory, 0xC001) == 0);

    writeWordToMemory(&mut memory, 0xAAFF, 0xDFFE);
    assert!(
        readWordFromMemory(&memory, 0xDFFE)
            == word(memory.workingRAM[memory.workingRAM.len() - 1], memory.workingRAM[memory.workingRAM.len() - 2])
    );
    assert!(readWordFromMemory(&memory, 0xDFFE) == 0xAAFF);

    writeWordToMemory(&mut memory, 0xAAFF, 0xFFFD);
    assert!(readWordFromMemory(&memory, 0xFFFD) == 0xAAFF);

    writeWordToMemory(&mut memory, 0xAAFF, 0x8000);
    assert!(readWordFromMemory(&memory, 0x8000) == 0xAAFF);
}

#[test]
fn test_gb_memory_testBIOSControls() {
    let mut mem = MemoryMapState::new();
    mem.inBios = true;
    writeByteToMemory(&mut mem, 0x1, 0xFF50);
    assert_eq!(mem.inBios, false);
    assert_eq!(readByteFromMemory(&mem, 0xFF50), 1);
}

#[test]
fn test_gb_memory_testLCDScanLine() {
    let mut mem = MemoryMapState::new();
    mem.lcd.currScanLine = 133;
    assert_eq!(readByteFromMemory(&mem, 0xFF44), mem.lcd.currScanLine);
    writeByteToMemory(&mut mem, 0xAA, 0xFF44);
    assert_eq!(readByteFromMemory(&mem, 0xFF44), 0);
}

#[test]
fn test_gb_memory_testLCDStatus() {
    let mut mem = MemoryMapState::new();
    mem.lcd.mode = LCDMode::VBlank;
    assert_eq!(readByteFromMemory(&mem, 0xFF41), 1);
}

#[test]
fn test_gb_memory_testLCDScrollReg() {
    let mut mem = MemoryMapState::new();
    writeByteToMemory(&mut mem, 32, 0xFF42);
    writeByteToMemory(&mut mem, 16, 0xFF43);
    assert_eq!(mem.lcd.scy, 32);
    assert_eq!(mem.lcd.scx, 16);
    assert_eq!(readByteFromMemory(&mem, 0xFF42), 32);
    assert_eq!(readByteFromMemory(&mem, 0xFF43), 16);
}

#[test]
fn test_gb_memory_testPalette() {
    let mut mem = MemoryMapState::new();
    writeByteToMemory(&mut mem, 0xE7, 0xFF47);
    assert_eq!(mem.lcd.palette, [BLACK, LIGHT_GRAY, DARK_GRAY, BLACK]);
    assert_eq!(readByteFromMemory(&mem, 0xFF47), 0xE7);
}

#[test]
fn test_gb_memory_testLCDControlRegister() {
    let mut mem = MemoryMapState::new();
    assert_eq!(mem.lcd.backgroundTileMap, 0);
    assert_eq!(mem.lcd.backgroundTileSet, 0);
    assert_eq!(mem.lcd.isBackgroundEnabled, false);
    writeByteToMemory(&mut mem, 0x19, 0xFF40);
    assert_eq!(mem.lcd.backgroundTileMap, 1);
    assert_eq!(mem.lcd.backgroundTileSet, 1);
    assert_eq!(mem.lcd.isBackgroundEnabled, true);
    assert_eq!(readByteFromMemory(&mem, 0xFF40), 0x19);
}

#[test]
fn word_helpers() {
    assert_eq!(word(0xAB, 0xCD), 0xABCD);
    assert_eq!(hb(0xABCD), 0xAB);
    assert_eq!(lb(0xABCD), 0xCD);
}

#[test]
fn echo_ram_aliasing() {
    let mut mem = MemoryMapState::new();
    writeByteToMemory(&mut mem, 0x5A, 0xE010);
    assert_eq!(readByteFromMemory(&mem, 0xC010), 0x5A);
    writeByteToMemory(&mut mem, 0xA5, 0xC010);
    assert_eq!(readByteFromMemory(&mem, 0xE010), 0xA5);
}

#[test]
fn word_round_trip_in_each_region() {
    let mut mem = MemoryMapState::new();
    for addr in [0xC000u16, 0xDFFE, 0xFF80, 0xFFFD, 0x8000, 0x9FFE] {
        writeWordToMemory(&mut mem, 0xBEEF, addr);
        assert_eq!(readWordFromMemory(&mem, addr), 0xBEEF);
    }
}

#[test]
fn vram_refused_during_pixel_transfer() {
    let mut mem = MemoryMapState::new();
    writeWordToMemory(&mut mem, 0x1234, 0x8100);
    mem.lcd.mode = LCDMode::ScanVRAMAndOAM;
    writeWordToMemory(&mut mem, 0xBEEF, 0x8100);
    assert_eq!(readByteFromMemory(&mem, 0x8100), 0xFF);
    mem.lcd.mode = LCDMode::HBlank;
    assert_eq!(readWordFromMemory(&mem, 0x8100), 0x1234);
}

#[test]
fn oam_refused_during_scans() {
    let mut mem = MemoryMapState::new();
    mem.lcd.mode = LCDMode::HBlank;
    writeByteToMemory(&mut mem, 0x42, 0xFE00);
    mem.lcd.mode = LCDMode::ScanOAM;
    assert_eq!(readByteFromMemory(&mem, 0xFE00), 0xFF);
    writeByteToMemory(&mut mem, 0x99, 0xFE00);
    mem.lcd.mode = LCDMode::HBlank;
    assert_eq!(readByteFromMemory(&mem, 0xFE00), 0x42);
}

#[test]
fn unmapped_reads_zero() {
    let mem = MemoryMapState::new();
    assert_eq!(readByteFromMemory(&mem, 0xFEA0), 0);
    assert_eq!(readByteFromMemory(&mem, 0xFF7F), 0);
    assert_eq!(readByteFromMemory(&mem, 0x5000), 0);
}

#[test]
fn dma_copies_page_into_oam() {
    let mut mem = MemoryMapState::new();
    mem.lcd.mode = LCDMode::HBlank;
    for i in 0..0xA0u16 {
        writeByteToMemory(&mut mem, i as u8 ^ 0x5A, 0xC100 + i);
    }
    writeByteToMemory(&mut mem, 0xC1, 0xFF46);
    for i in 0..0xA0usize {
        assert_eq!(mem.lcd.oam[i], i as u8 ^ 0x5A);
    }
    assert_eq!(readByteFromMemory(&mem, 0xFF46), 0xC1);
}

#[test]
fn cart_ram_latch_and_banks() {
    let mut mem = MemoryMapState::new();
    let mut rom = vec![0u8; 0x4000 * 4];
    rom[0x4000 * 2 + 5] = 0x77;
    rom[0x4000 + 5] = 0x11;
    assert_eq!(mem.load_rom(rom, MemoryBankControllerType::MBC1, 4, 0x2000 * 4), Ok(()));
    assert_eq!(readByteFromMemory(&mem, 0x4005), 0x11);
    writeByteToMemory(&mut mem, 2, 0x2000);
    assert_eq!(readByteFromMemory(&mem, 0x4005), 0x77);
    writeByteToMemory(&mut mem, 0, 0x2000);
    assert_eq!(mem.currentMBCBank, 1);

    writeByteToMemory(&mut mem, 0x55, 0xA000);
    assert_eq!(readByteFromMemory(&mem, 0xA000), 0);
    writeByteToMemory(&mut mem, 0x1A, 0x0000);
    assert!(mem.isCartRAMEnabled);
    writeByteToMemory(&mut mem, 0x55, 0xA000);
    assert_eq!(readByteFromMemory(&mem, 0xA000), 0x55);
    writeByteToMemory(&mut mem, 1, 0x6000);
    writeByteToMemory(&mut mem, 2, 0x4000);
    assert_eq!(mem.currentRAMBank, 2);
    assert_eq!(readByteFromMemory(&mem, 0xA000), 0);
    writeByteToMemory(&mut mem, 0x00, 0x0000);
    assert!(!mem.isCartRAMEnabled);
}

#[test]
fn short_cartridge_refused() {
    let mut mem = MemoryMapState::new();
    assert_eq!(mem.load_rom(vec![0u8; 0x4000], MemoryBankControllerType::MBC1, 2, 0), Err(CartridgeError::TooShort));
    assert_eq!(mem.romData.len(), 0);
}

#[test]
fn divider_counts_every_256_cycles() {
    let mut mem = MemoryMapState::new();
    stepTimer(&mut mem, 255);
    assert_eq!(readByteFromMemory(&mem, 0xFF04), 0);
    stepTimer(&mut mem, 1);
    assert_eq!(readByteFromMemory(&mem, 0xFF04), 1);
    stepTimer(&mut mem, 512);
    assert_eq!(readByteFromMemory(&mem, 0xFF04), 3);
    writeByteToMemory(&mut mem, 0x77, 0xFF04);
    assert_eq!(readByteFromMemory(&mem, 0xFF04), 0);
}

#[test]
fn timer_fastest_rate_increments_once() {
    let mut mem = MemoryMapState::new();
    writeByteToMemory(&mut mem, 0x05, 0xFF07);
    assert_eq!(readByteFromMemory(&mem, 0xFF07), 0x05);
    stepTimer(&mut mem, 16);
    assert_eq!(readByteFromMemory(&mem, 0xFF05), 1);
}

#[test]
fn timer_overflow_requests_one_interrupt() {
    let mut mem = MemoryMapState::new();
    writeByteToMemory(&mut mem, 0xF0, 0xFF06);
    writeByteToMemory(&mut mem, 0xF0, 0xFF05);
    writeByteToMemory(&mut mem, 0x05, 0xFF07);
    // 0x10 increments take TIMA from 0xF0 past 0xFF
    for _ in 0..0x0F {
        stepTimer(&mut mem, 16);
    }
    assert_eq!(mem.timerCounter, 0xFF);
    assert_eq!(mem.requestedInterrupts & 4, 0);
    stepTimer(&mut mem, 16);
    assert_eq!(mem.timerCounter, 0xF0);
    assert_eq!(mem.requestedInterrupts & 4, 4);
    mem.requestedInterrupts = 0;
    stepTimer(&mut mem, 16);
    assert_eq!(mem.requestedInterrupts & 4, 0);
}

#[test]
fn timer_disabled_does_not_count() {
    let mut mem = MemoryMapState::new();
    stepTimer(&mut mem, 4096);
    assert_eq!(mem.timerCounter, 0);
}

/// At the slowest rate, 256 * (0xFF - TMA + 1) cycles fed at once make
/// exactly one overflow, which reloads TIMA from TMA.
#[test]
fn timer_many_increments_in_one_feed() {
    let mut mem = MemoryMapState::new();
    writeByteToMemory(&mut mem, 0xF0, 0xFF06);
    writeByteToMemory(&mut mem, 0xF0, 0xFF05);
    writeByteToMemory(&mut mem, 0x07, 0xFF07);
    stepTimer(&mut mem, 256 * (0xFF - 0xF0 + 1));
    assert_eq!(mem.timerCounter, 0xF0);
    assert_eq!(mem.requestedInterrupts & 4, 4);
    assert_eq!(mem.timerCycles, 0);
}
