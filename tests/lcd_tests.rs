use gbemu::gb_lcd::{stepLCD, LCDMode, LCDState, PaletteColor, BLACK, DARK_GRAY, LIGHT_GRAY, WHITE};
use gbemu::gb_memory::{readByteFromMemory, writeByteToMemory, MemoryMapState};

#[test]
fn test_gb_lcd_testLCDScanLine() {
    let mut mem = MemoryMapState::new();
    mem.lcd.currScanLine = 133;
    assert_eq!(readByteFromMemory(&mem, 0xFF44), mem.lcd.currScanLine);
    writeByteToMemory(&mut mem, 0xAA, 0xFF44);
    assert_eq!(readByteFromMemory(&mem, 0xFF44), 0);
}

#[test]
fn test_gb_lcd_testLCDStatus() {
    let mut mem = MemoryMapState::new();
    mem.lcd.mode = LCDMode::VBlank;
    assert_eq!(readByteFromMemory(&mem, 0xFF41), 1);
}

#[test]
fn test_gb_lcd_testLCDScrollReg() {
    let mut mem = MemoryMapState::new();
    writeByteToMemory(&mut mem, 32, 0xFF42);
    writeByteToMemory(&mut mem, 16, 0xFF43);
    assert_eq!(mem.lcd.scy, 32);
    assert_eq!(mem.lcd.scx, 16);
    assert_eq!(readByteFromMemory(&mem, 0xFF42), 32);
    assert_eq!(readByteFromMemory(&mem, 0xFF43), 16);
}

#[test]
fn test_gb_lcd_testPalette() {
    let mut mem = MemoryMapState::new();
    writeByteToMemory(&mut mem, 0xE7, 0xFF47);
    assert_eq!(mem.lcd.palette, [BLACK, LIGHT_GRAY, DARK_GRAY, BLACK]);
    assert_eq!(readByteFromMemory(&mem, 0xFF47), 0xE7);
}

#[test]
fn test_gb_lcd_testLCDControlRegister() {
    let mut mem = MemoryMapState::new();
    assert_eq!(mem.lcd.backgroundTileMap, 0);
    assert_eq!(mem.lcd.backgroundTileSet, 0);
    assert_eq!(mem.lcd.isBackgroundEnabled, false);
    writeByteToMemory(&mut mem, 0x19, 0xFF40);
    assert_eq!(mem.lcd.backgroundTileMap, 1);
    assert_eq!(mem.lcd.backgroundTileSet, 1);
    assert_eq!(mem.lcd.isBackgroundEnabled, true);
    assert_eq!(readByteFromMemory(&mem, 0xFF40), 0x19);
}

/// A full frame fed 4 cycles at a time takes 144 * (80 + 172 + 204) +
/// 10 * 456 cycles from OAM scan at line 0 back to it, with one swap.
#[test]
fn frame_timing_and_single_swap() {
    let mut lcd = LCDState::new();
    lcd.isEnabled = true;
    lcd.screenBackBuffer[0] = BLACK;
    let mut req: u8 = 0;
    let mut cycles: u32 = 0;
    let mut swaps = 0;
    loop {
        stepLCD(&mut lcd, &mut req, 4);
        cycles += 4;
        if req & 1 != 0 {
            swaps += 1;
            req &= !1;
        }
        if lcd.mode == LCDMode::ScanOAM && lcd.currScanLine == 0 && lcd.modeClock == 0 {
            break;
        }
        assert!(cycles <= 100_000);
    }
    assert_eq!(cycles, 144 * (80 + 172 + 204) + 10 * 456);
    assert_eq!(swaps, 1);
    assert_eq!(lcd.screen[0], WHITE);
}

#[test]
fn mode_sequence_of_one_line() {
    let mut lcd = LCDState::new();
    lcd.isEnabled = true;
    let mut req: u8 = 0;
    stepLCD(&mut lcd, &mut req, 80);
    assert_eq!(lcd.mode, LCDMode::ScanVRAMAndOAM);
    stepLCD(&mut lcd, &mut req, 171);
    assert_eq!(lcd.mode, LCDMode::ScanVRAMAndOAM);
    stepLCD(&mut lcd, &mut req, 1);
    assert_eq!(lcd.mode, LCDMode::HBlank);
    stepLCD(&mut lcd, &mut req, 204);
    assert_eq!(lcd.mode, LCDMode::ScanOAM);
    assert_eq!(lcd.currScanLine, 1);
    assert_eq!(req, 0);
}

#[test]
fn display_off_does_nothing() {
    let mut lcd = LCDState::new();
    let mut req: u8 = 0;
    stepLCD(&mut lcd, &mut req, 1000);
    assert_eq!(lcd.mode, LCDMode::ScanOAM);
    assert_eq!(lcd.modeClock, 0);
}

#[test]
fn lyc_coincidence_raises_status_interrupt() {
    let mut lcd = LCDState::new();
    lcd.isEnabled = true;
    lcd.lyc = 1;
    lcd.lcdc = 0x40;
    let mut req: u8 = 0;
    stepLCD(&mut lcd, &mut req, 80);
    stepLCD(&mut lcd, &mut req, 172);
    stepLCD(&mut lcd, &mut req, 204);
    assert_eq!(lcd.currScanLine, 1);
    assert_eq!(lcd.lcdc & 4, 4);
    assert_eq!(req, 2);
}

/// Draws line 0 of `lcd` by running its pixel transfer.
fn draw_line_zero(lcd: &mut LCDState) {
    lcd.isEnabled = true;
    lcd.mode = LCDMode::ScanVRAMAndOAM;
    lcd.currScanLine = 0;
    let mut req: u8 = 0;
    stepLCD(lcd, &mut req, 172);
    assert_eq!(lcd.mode, LCDMode::HBlank);
}

#[test]
fn background_pixel_from_tile() {
    let mut lcd = LCDState::new();
    lcd.isBackgroundEnabled = true;
    lcd.backgroundTileSet = 1;
    lcd.palette = [WHITE, LIGHT_GRAY, DARK_GRAY, BLACK];
    // map entry (0, 0) names tile 1; its first row has bit planes 0x80 and 0xC0
    lcd.videoRAM[0x1800] = 1;
    lcd.videoRAM[16] = 0x80;
    lcd.videoRAM[17] = 0xC0;
    draw_line_zero(&mut lcd);
    assert_eq!(lcd.screenBackBuffer[0], BLACK);
    assert_eq!(lcd.screenBackBuffer[1], DARK_GRAY);
    assert_eq!(lcd.screenBackBuffer[2], WHITE);
}

fn two_sprites(first_tile: u8, second_tile: u8) -> LCDState {
    let mut lcd = LCDState::new();
    lcd.isOAMEnabled = true;
    lcd.spritePalette0 = [WHITE, LIGHT_GRAY, DARK_GRAY, BLACK];
    lcd.spritePalette1 = [WHITE, BLACK, BLACK, BLACK];
    // tile 1: color 1 everywhere on row 0; tile 2: color 2
    lcd.videoRAM[16] = 0xFF;
    lcd.videoRAM[33] = 0xFF;
    lcd.oam[0..4].copy_from_slice(&[16, 8, first_tile, 0x00]);
    lcd.oam[4..8].copy_from_slice(&[16, 8, second_tile, 0x10]);
    lcd
}

#[test]
fn lower_index_sprite_wins_at_equal_x() {
    let mut lcd = two_sprites(1, 2);
    draw_line_zero(&mut lcd);
    assert_eq!(lcd.screenBackBuffer[0], LIGHT_GRAY);
    let mut lcd = two_sprites(2, 1);
    draw_line_zero(&mut lcd);
    assert_eq!(lcd.screenBackBuffer[0], DARK_GRAY);
}

#[test]
fn sprite_below_background_hidden_by_opaque_background() {
    let mut lcd = two_sprites(1, 1);
    lcd.oam[3] = 0x80;
    lcd.oam[7] = 0x80;
    lcd.isBackgroundEnabled = true;
    lcd.backgroundTileSet = 1;
    lcd.palette = [WHITE, LIGHT_GRAY, DARK_GRAY, BLACK];
    lcd.videoRAM[0x1800] = 3;
    lcd.videoRAM[48] = 0x80;
    lcd.videoRAM[49] = 0x80;
    draw_line_zero(&mut lcd);
    assert_eq!(lcd.screenBackBuffer[0], BLACK);
    assert_eq!(lcd.screenBackBuffer[1], LIGHT_GRAY);
}

#[test]
fn palette_color_numbers() {
    assert_eq!(PaletteColor::from_number(6), DARK_GRAY);
    assert_eq!(BLACK.number(), 3);
    assert_eq!(LIGHT_GRAY.rgba(), (170, 170, 170, 255));
}

#[test]
fn status_interrupt_sources() {
    // bit 4 enables the HBlank source
    let mut lcd = LCDState::new();
    lcd.isEnabled = true;
    lcd.lcdc = 0x10;
    lcd.mode = LCDMode::ScanVRAMAndOAM;
    lcd.currScanLine = 10;
    let mut req: u8 = 0;
    stepLCD(&mut lcd, &mut req, 172);
    assert_eq!(lcd.mode, LCDMode::HBlank);
    assert_eq!(req, 2);

    // bit 3 enables the VBlank source
    let mut lcd = LCDState::new();
    lcd.isEnabled = true;
    lcd.lcdc = 0x08;
    lcd.mode = LCDMode::HBlank;
    lcd.currScanLine = 143;
    let mut req: u8 = 0;
    stepLCD(&mut lcd, &mut req, 204);
    assert_eq!(lcd.mode, LCDMode::VBlank);
    assert_eq!(req, 3);

    // bit 5 enables the OAM scan source; bit 3 alone does not fire on HBlank
    let mut lcd = LCDState::new();
    lcd.isEnabled = true;
    lcd.lcdc = 0x28;
    lcd.mode = LCDMode::HBlank;
    lcd.currScanLine = 5;
    let mut req: u8 = 0;
    stepLCD(&mut lcd, &mut req, 204);
    assert_eq!(lcd.mode, LCDMode::ScanOAM);
    assert_eq!(req, 2);
}

/// A handler that moves LYC to the next line still gets the request on
/// that line, although the coincidence bit was left set by this one.
#[test]
fn lyc_moved_to_next_line_still_requests() {
    let mut lcd = LCDState::new();
    lcd.isEnabled = true;
    lcd.mode = LCDMode::HBlank;
    lcd.modeClock = 200;
    lcd.currScanLine = 40;
    lcd.lyc = 41;
    lcd.lcdc = 0x44;
    let mut req: u8 = 0;
    stepLCD(&mut lcd, &mut req, 4);
    assert_eq!(lcd.currScanLine, 41);
    assert_eq!(req & 2, 2);
    assert_eq!(lcd.lcdc & 4, 4);
}
