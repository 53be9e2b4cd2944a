//! A plain model of the display: its modes, its four shades and two
//! screens stored column by column.
use vstd::prelude::*;

verus! {

#[derive(PartialEq, Eq, Structural, Copy, Clone, Debug)]
pub enum GPUMode {
    HBlank,
    VBlank,
    ScanOAM,
    ScanVRAM,
}

#[derive(PartialEq, Eq, Structural, Copy, Clone, Debug)]
pub enum LCDPixelColor {
    White,
    Light,
    Dark,
    Black,
}

/// A screen as 160 columns of 144 pixels.
pub struct GPUState {
    pub mode: GPUMode,
    pub modeClock: u32,
    pub currLine: u32,
    /// The screen being drawn.
    pub lcdInProgress: [[LCDPixelColor; 144]; 160],
    /// The last finished screen.
    pub readyLCD: [[LCDPixelColor; 144]; 160],
}

impl GPUState {
    /// OAM scan at line 0, both screens white.
    pub fn new() -> (r: GPUState)
        ensures
            r.mode == GPUMode::ScanOAM,
            r.modeClock == 0,
            r.currLine == 0,
            forall|x: int, y: int|
                0 <= x < 160 && 0 <= y < 144 ==> r.lcdInProgress@[x]@[y] == LCDPixelColor::White
                    && r.readyLCD@[x]@[y] == LCDPixelColor::White,
    {
        GPUState {
            mode: GPUMode::ScanOAM,
            modeClock: 0,
            currLine: 0,
            lcdInProgress: [[LCDPixelColor::White; 144]; 160],
            readyLCD: [[LCDPixelColor::White; 144]; 160],
        }
    }
}

} // verus!
