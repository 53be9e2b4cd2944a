//! The pixel processing unit: display modes, scanline timing and the
//! scanline renderer.
use vstd::prelude::*;

verus! {

/// One of the four output shades.
#[derive(PartialEq, Eq, Structural, Copy, Clone, Debug)]
pub enum PaletteColor {
    White,
    LightGray,
    DarkGray,
    Black,
}

pub const WHITE: PaletteColor = PaletteColor::White;

pub const LIGHT_GRAY: PaletteColor = PaletteColor::LightGray;

pub const DARK_GRAY: PaletteColor = PaletteColor::DarkGray;

pub const BLACK: PaletteColor = PaletteColor::Black;

pub const SCREEN_WIDTH: usize = 160;

pub const SCREEN_HEIGHT: usize = 144;

/// Number of pixels in one frame, stored row by row.
pub const SCREEN_PIXELS: usize = 23040;

impl PaletteColor {
    /// The shade's number in a palette register (0 lightest, 3 darkest).
    pub open spec fn number_spec(self) -> u8 {
        match self {
            PaletteColor::White => 0,
            PaletteColor::LightGray => 1,
            PaletteColor::DarkGray => 2,
            PaletteColor::Black => 3,
        }
    }

    pub fn number(self) -> (r: u8)
        ensures
            r == self.number_spec(),
    {
        match self {
            PaletteColor::White => 0,
            PaletteColor::LightGray => 1,
            PaletteColor::DarkGray => 2,
            PaletteColor::Black => 3,
        }
    }

    /// The shade with number `n % 4`.
    pub open spec fn from_number_spec(n: u8) -> PaletteColor {
        if n % 4 == 0 {
            PaletteColor::White
        } else if n % 4 == 1 {
            PaletteColor::LightGray
        } else if n % 4 == 2 {
            PaletteColor::DarkGray
        } else {
            PaletteColor::Black
        }
    }

    pub fn from_number(n: u8) -> (r: PaletteColor)
        ensures
            r == Self::from_number_spec(n),
    {
        let k = n % 4;
        if k == 0 {
            PaletteColor::White
        } else if k == 1 {
            PaletteColor::LightGray
        } else if k == 2 {
            PaletteColor::DarkGray
        } else {
            PaletteColor::Black
        }
    }

    /// Red, green, blue and alpha of the shade.
    pub fn rgba(self) -> (r: (u8, u8, u8, u8))
        ensures
            r.3 == 255,
            r.0 == r.1 && r.1 == r.2,
            r.0 as int == 255 - 85 * self.number_spec(),
    {
        match self {
            PaletteColor::White => (255, 255, 255, 255),
            PaletteColor::LightGray => (170, 170, 170, 255),
            PaletteColor::DarkGray => (85, 85, 85, 255),
            PaletteColor::Black => (0, 0, 0, 255),
        }
    }
}

/// The display mode. Its number is what the status register reports.
#[derive(PartialEq, Eq, Structural, Copy, Clone, Debug)]
pub enum LCDMode {
    HBlank,
    VBlank,
    ScanOAM,
    ScanVRAMAndOAM,
}

impl LCDMode {
    pub open spec fn number_spec(self) -> u8 {
        match self {
            LCDMode::HBlank => 0,
            LCDMode::VBlank => 1,
            LCDMode::ScanOAM => 2,
            LCDMode::ScanVRAMAndOAM => 3,
        }
    }

    pub fn number(self) -> (r: u8)
        ensures
            r == self.number_spec(),
    {
        match self {
            LCDMode::HBlank => 0,
            LCDMode::VBlank => 1,
            LCDMode::ScanOAM => 2,
            LCDMode::ScanVRAMAndOAM => 3,
        }
    }
}

/// Sprite height: 8 or 16 pixels.
#[derive(PartialEq, Eq, Structural, Copy, Clone, Debug)]
pub enum SpriteHeight {
    Short,
    Tall,
}

impl SpriteHeight {
    pub open spec fn pixels_spec(self) -> int {
        match self {
            SpriteHeight::Short => 8,
            SpriteHeight::Tall => 16,
        }
    }
}

/// The display controller's registers, memories and frame buffers.
pub struct LCDState {
    pub palette: [PaletteColor; 4],
    pub spritePalette0: [PaletteColor; 4],
    pub spritePalette1: [PaletteColor; 4],
    pub videoRAM: [u8; 0x2000],
    pub oam: [u8; 0xA0],
    pub mode: LCDMode,
    pub modeClock: u32,
    /// The current scanline (LY).
    pub currScanLine: u8,
    /// Which background tile map is selected (0 or 1).
    pub backgroundTileMap: u8,
    /// Which background tile set is selected (0 or 1).
    pub backgroundTileSet: u8,
    pub isBackgroundEnabled: bool,
    pub isEnabled: bool,
    pub isOAMEnabled: bool,
    pub scx: u8,
    pub scy: u8,
    pub spriteHeight: SpriteHeight,
    /// Status bits: bit 2 is LY == LYC; bits 3 to 6 enable the status
    /// interrupt on VBlank (bit 3), HBlank (bit 4), OAM scan (bit 5) and
    /// LY == LYC (bit 6).
    pub lcdc: u8,
    pub lyc: u8,
    /// The last completed frame, row by row.
    pub screen: [PaletteColor; 23040],
    /// The frame being drawn.
    pub screenBackBuffer: [PaletteColor; 23040],
}

/// The display controller's state with its memories as sequences.
pub struct LcdView {
    pub palette: Seq<PaletteColor>,
    pub spritePalette0: Seq<PaletteColor>,
    pub spritePalette1: Seq<PaletteColor>,
    pub videoRAM: Seq<u8>,
    pub oam: Seq<u8>,
    pub mode: LCDMode,
    pub modeClock: u32,
    pub currScanLine: u8,
    pub backgroundTileMap: u8,
    pub backgroundTileSet: u8,
    pub isBackgroundEnabled: bool,
    pub isEnabled: bool,
    pub isOAMEnabled: bool,
    pub scx: u8,
    pub scy: u8,
    pub spriteHeight: SpriteHeight,
    pub lcdc: u8,
    pub lyc: u8,
    pub screen: Seq<PaletteColor>,
    pub screenBackBuffer: Seq<PaletteColor>,
}

impl View for LCDState {
    type V = LcdView;

    open spec fn view(&self) -> LcdView {
        LcdView {
            palette: self.palette@,
            spritePalette0: self.spritePalette0@,
            spritePalette1: self.spritePalette1@,
            videoRAM: self.videoRAM@,
            oam: self.oam@,
            mode: self.mode,
            modeClock: self.modeClock,
            currScanLine: self.currScanLine,
            backgroundTileMap: self.backgroundTileMap,
            backgroundTileSet: self.backgroundTileSet,
            isBackgroundEnabled: self.isBackgroundEnabled,
            isEnabled: self.isEnabled,
            isOAMEnabled: self.isOAMEnabled,
            scx: self.scx,
            scy: self.scy,
            spriteHeight: self.spriteHeight,
            lcdc: self.lcdc,
            lyc: self.lyc,
            screen: self.screen@,
            screenBackBuffer: self.screenBackBuffer@,
        }
    }
}

impl LCDState {
    /// Display off, mode OAM scan at line 0, memories cleared, all
    /// palettes white and both frames blank.
    pub open spec fn initial_spec() -> LcdView {
        LcdView {
            palette: Seq::new(4, |i: int| PaletteColor::White),
            spritePalette0: Seq::new(4, |i: int| PaletteColor::White),
            spritePalette1: Seq::new(4, |i: int| PaletteColor::White),
            videoRAM: Seq::new(0x2000, |i: int| 0u8),
            oam: Seq::new(0xA0, |i: int| 0u8),
            mode: LCDMode::ScanOAM,
            modeClock: 0,
            currScanLine: 0,
            backgroundTileMap: 0,
            backgroundTileSet: 0,
            isBackgroundEnabled: false,
            isEnabled: false,
            isOAMEnabled: false,
            scx: 0,
            scy: 0,
            spriteHeight: SpriteHeight::Short,
            lcdc: 0,
            lyc: 0,
            screen: Seq::new(23040, |i: int| PaletteColor::White),
            screenBackBuffer: Seq::new(23040, |i: int| PaletteColor::White),
        }
    }

    pub fn new() -> (r: LCDState)
        ensures
            r@ == Self::initial_spec(),
            r.mode == LCDMode::ScanOAM,
            r.modeClock == 0,
            r.currScanLine == 0,
            r.scx == 0 && r.scy == 0 && r.lcdc == 0 && r.lyc == 0,
            r.backgroundTileMap == 0 && r.backgroundTileSet == 0,
            !r.isBackgroundEnabled && !r.isEnabled && !r.isOAMEnabled,
            r.spriteHeight == SpriteHeight::Short,
            forall|i: int| 0 <= i < 0x2000 ==> r.videoRAM@[i] == 0,
            forall|i: int| 0 <= i < 0xA0 ==> r.oam@[i] == 0,
            forall|i: int|
                0 <= i < 4 ==> r.palette@[i] == PaletteColor::White && r.spritePalette0@[i]
                    == PaletteColor::White && r.spritePalette1@[i] == PaletteColor::White,
            forall|i: int|
                0 <= i < 23040 ==> r.screen@[i] == PaletteColor::White
                    && r.screenBackBuffer@[i] == PaletteColor::White,
    {
        let r = LCDState {
            palette: [PaletteColor::White; 4],
            spritePalette0: [PaletteColor::White; 4],
            spritePalette1: [PaletteColor::White; 4],
            videoRAM: [0u8; 0x2000],
            oam: [0u8; 0xA0],
            mode: LCDMode::ScanOAM,
            modeClock: 0,
            currScanLine: 0,
            backgroundTileMap: 0,
            backgroundTileSet: 0,
            isBackgroundEnabled: false,
            isEnabled: false,
            isOAMEnabled: false,
            scx: 0,
            scy: 0,
            spriteHeight: SpriteHeight::Short,
            lcdc: 0,
            lyc: 0,
            screen: [PaletteColor::White; 23040],
            screenBackBuffer: [PaletteColor::White; 23040],
        };
        assert(r@.palette =~= Self::initial_spec().palette);
        assert(r@.spritePalette0 =~= Self::initial_spec().spritePalette0);
        assert(r@.spritePalette1 =~= Self::initial_spec().spritePalette1);
        assert(r@.videoRAM =~= Self::initial_spec().videoRAM);
        assert(r@.oam =~= Self::initial_spec().oam);
        assert(r@.screen =~= Self::initial_spec().screen);
        assert(r@.screenBackBuffer =~= Self::initial_spec().screenBackBuffer);
        r
    }
}

// ---------------------------------------------------------------------
// Scanline rendering
// ---------------------------------------------------------------------

/// Bit `col` of a tile row byte, counting from the most significant bit.
pub open spec fn tile_bit(b: u8, col: int) -> u8 {
    (b >> ((7 - col) as u8)) & 1
}

/// The 2-bit color number of column `col` of the tile row at `addr`.
pub open spec fn tile_color_spec(lcd: LcdView, addr: int, col: int) -> u8 {
    (tile_bit(lcd.videoRAM[addr + 1], col) * 2 + tile_bit(lcd.videoRAM[addr], col)) as u8
}

pub open spec fn signed_ref(b: u8) -> int {
    if b >= 128 {
        b - 256
    } else {
        b as int
    }
}

/// The background color number at column `x` of the current scanline.
pub open spec fn background_color_spec(lcd: LcdView, x: int) -> u8 {
    if !lcd.isBackgroundEnabled {
        0
    } else {
        let y = (lcd.scy + lcd.currScanLine) % 256;
        let xx = (lcd.scx + x) % 256;
        let map = if lcd.backgroundTileMap == 1 { 0x1C00int } else { 0x1800int };
        let tile = lcd.videoRAM[map + y / 8 * 32 + xx / 8];
        let base = if lcd.backgroundTileSet == 1 { tile * 16 } else { 0x1000 + signed_ref(tile) * 16 };
        tile_color_spec(lcd, base + y % 8 * 2, xx % 8)
    }
}

pub open spec fn sprite_y(lcd: LcdView, j: int) -> int {
    lcd.oam[4 * j] as int
}

pub open spec fn sprite_x(lcd: LcdView, j: int) -> int {
    lcd.oam[4 * j + 1] as int
}

pub open spec fn sprite_attr(lcd: LcdView, j: int) -> u8 {
    lcd.oam[4 * j + 3]
}

/// Whether sprite `j` covers the current scanline. The stored Y is the
/// screen row plus 16.
pub open spec fn on_line(lcd: LcdView, j: int) -> bool {
    sprite_y(lcd, j) <= lcd.currScanLine + 16 < sprite_y(lcd, j) + lcd.spriteHeight.pixels_spec()
}

/// The sprites drawn on the current scanline: the first ten, in OAM
/// order, among the first `n` entries that cover it.
pub open spec fn line_sprites(lcd: LcdView, n: int) -> Seq<int>
    decreases n,
{
    if n <= 0 {
        Seq::empty()
    } else {
        let s = line_sprites(lcd, n - 1);
        if on_line(lcd, n - 1) && s.len() < 10 {
            s.push(n - 1)
        } else {
            s
        }
    }
}

/// Whether sprite `j` covers column `x`. The stored X is the screen
/// column plus 8.
pub open spec fn covers(lcd: LcdView, j: int, x: int) -> bool {
    sprite_x(lcd, j) <= x + 8 < sprite_x(lcd, j) + 8
}

/// The color number of sprite `j` at column `x` of the current line,
/// with X and Y flips; 16-pixel sprites use the even tile and the next.
pub open spec fn sprite_color_spec(lcd: LcdView, j: int, x: int) -> u8 {
    let attr = sprite_attr(lcd, j);
    let h = lcd.spriteHeight.pixels_spec();
    let col0 = x + 8 - sprite_x(lcd, j);
    let row0 = lcd.currScanLine + 16 - sprite_y(lcd, j);
    let col = if attr & 0x20 != 0 { 7 - col0 } else { col0 };
    let row = if attr & 0x40 != 0 { h - 1 - row0 } else { row0 };
    let tile = if h == 16 { lcd.oam[4 * j + 2] & 0xFE } else { lcd.oam[4 * j + 2] };
    tile_color_spec(lcd, tile * 16 + row * 2, col)
}

/// Whether sprite `j` has a visible (nonzero) pixel at column `x`.
pub open spec fn opaque_at(lcd: LcdView, j: int, x: int) -> bool {
    covers(lcd, j, x) && sprite_color_spec(lcd, j, x) != 0
}

/// The sprite drawn at column `x` among the first `n` of `s`: of those
/// with a visible pixel there, the one with the least X, and among equal
/// X the one with the lower OAM index.
pub open spec fn winner(lcd: LcdView, s: Seq<int>, n: int, x: int) -> Option<int>
    decreases n,
{
    if n <= 0 {
        None
    } else {
        let b = winner(lcd, s, n - 1, x);
        let j = s[n - 1];
        if opaque_at(lcd, j, x) && (b is None || sprite_x(lcd, j) < sprite_x(lcd, b->Some_0) || (
        sprite_x(lcd, j) == sprite_x(lcd, b->Some_0) && j < b->Some_0)) {
            Some(j)
        } else {
            b
        }
    }
}

pub open spec fn sprite_palette(lcd: LcdView, j: int) -> Seq<PaletteColor> {
    if sprite_attr(lcd, j) & 0x10 != 0 {
        lcd.spritePalette1
    } else {
        lcd.spritePalette0
    }
}

/// The shade of column `x` of the current scanline.
pub open spec fn pixel_spec(lcd: LcdView, x: int) -> PaletteColor {
    let bg = background_color_spec(lcd, x);
    let w = if lcd.isOAMEnabled {
        winner(lcd, line_sprites(lcd, 40), line_sprites(lcd, 40).len() as int, x)
    } else {
        None
    };
    match w {
        None => lcd.palette[bg as int],
        Some(j) => if sprite_attr(lcd, j) & 0x80 != 0 && bg != 0 {
            lcd.palette[bg as int]
        } else {
            sprite_palette(lcd, j)[sprite_color_spec(lcd, j, x) as int]
        },
    }
}

/// The frame being drawn after the current scanline is rendered into it.
pub open spec fn render_spec(lcd: LcdView) -> Seq<PaletteColor> {
    Seq::new(
        23040,
        |i: int|
            if lcd.currScanLine * 160 <= i < lcd.currScanLine * 160 + 160 {
                pixel_spec(lcd, i - lcd.currScanLine * 160)
            } else {
                lcd.screenBackBuffer[i]
            },
    )
}

proof fn lemma_tile_bit(b: u8, col: int)
    requires
        0 <= col < 8,
    ensures
        tile_bit(b, col) <= 1,
{
    let c = (7 - col) as u8;
    assert((b >> c) & 1 <= 1) by (bit_vector);
}

fn tile_color(lcd: &LCDState, addr: usize, col: u8) -> (r: u8)
    requires
        addr + 1 < 0x2000,
        col < 8,
    ensures
        r == tile_color_spec(lcd@, addr as int, col as int),
        r < 4,
{
    proof {
        lemma_tile_bit(lcd.videoRAM@[addr + 1], col as int);
        lemma_tile_bit(lcd.videoRAM@[addr as int], col as int);
    }
    ((lcd.videoRAM[addr + 1] >> (7 - col)) & 1) * 2 + ((lcd.videoRAM[addr] >> (7 - col)) & 1)
}

fn background_color(lcd: &LCDState, x: u8) -> (r: u8)
    ensures
        r == background_color_spec(lcd@, x as int),
        r < 4,
{
    if !lcd.isBackgroundEnabled {
        0
    } else {
        let y: usize = (lcd.scy as usize + lcd.currScanLine as usize) % 256;
        let xx: usize = (lcd.scx as usize + x as usize) % 256;
        let map: usize = if lcd.backgroundTileMap == 1 { 0x1C00 } else { 0x1800 };
        let tile = lcd.videoRAM[map + y / 8 * 32 + xx / 8];
        let base: usize = if lcd.backgroundTileSet == 1 {
            tile as usize * 16
        } else if tile >= 128 {
            0x1000 - (256 - tile as usize) * 16
        } else {
            0x1000 + tile as usize * 16
        };
        tile_color(lcd, base + y % 8 * 2, (xx % 8) as u8)
    }
}

/// Indices of the sprites drawn on the current scanline.
fn collect_line_sprites(lcd: &LCDState) -> (r: Vec<usize>)
    ensures
        r@.len() == line_sprites(lcd@, 40).len(),
        forall|i: int| 0 <= i < r@.len() ==> r@[i] as int == line_sprites(lcd@, 40)[i],
{
    let mut r: Vec<usize> = Vec::new();
    let h: u16 = match lcd.spriteHeight {
        SpriteHeight::Short => 8,
        SpriteHeight::Tall => 16,
    };
    let mut j: usize = 0;
    while j < 40
        invariant
            j <= 40,
            h as int == lcd@.spriteHeight.pixels_spec(),
            r@.len() == line_sprites(lcd@, j as int).len(),
            forall|i: int| 0 <= i < r@.len() ==> r@[i] as int == line_sprites(lcd@, j as int)[i],
        decreases 40 - j,
    {
        let y = lcd.oam[4 * j] as u16;
        let ly = lcd.currScanLine as u16;
        if y <= ly + 16 && ly + 16 < y + h && r.len() < 10 {
            r.push(j);
        }
        j = j + 1;
    }
    r
}

/// Which of the two sprite palettes a sprite uses.
#[derive(PartialEq, Eq, Structural, Copy, Clone, Debug)]
enum SpritePalette {
    Palette0,
    Palette1,
}

/// One sprite's OAM entry, decoded.
struct Sprite {
    y: u8,
    x: u8,
    tileReference: u8,
    isBelowBackground: bool,
    isYFlipped: bool,
    isXFlipped: bool,
    selectedSpritePalette: SpritePalette,
    /// Where the entry sits in OAM; the lower index wins ties.
    oamIndex: usize,
}

impl Sprite {
    /// Decodes the attribute byte: bit 7 below background, bit 6 Y flip,
    /// bit 5 X flip, bit 4 the second palette.
    fn new(y: u8, x: u8, tileReference: u8, flags: u8, oamIndex: usize) -> (r: Sprite)
        ensures
            r.y == y && r.x == x && r.tileReference == tileReference && r.oamIndex == oamIndex,
            r.isBelowBackground == (flags & 0x80 != 0),
            r.isYFlipped == (flags & 0x40 != 0),
            r.isXFlipped == (flags & 0x20 != 0),
            (r.selectedSpritePalette == SpritePalette::Palette1) == (flags & 0x10 != 0),
    {
        Sprite {
            y: y,
            x: x,
            tileReference: tileReference,
            isBelowBackground: flags & 0x80 != 0,
            isYFlipped: flags & 0x40 != 0,
            isXFlipped: flags & 0x20 != 0,
            selectedSpritePalette: if flags & 0x10 != 0 {
                SpritePalette::Palette1
            } else {
                SpritePalette::Palette0
            },
            oamIndex: oamIndex,
        }
    }
}

fn sprite_at(lcd: &LCDState, j: usize) -> (r: Sprite)
    requires
        j < 40,
    ensures
        r.y as int == sprite_y(lcd@, j as int),
        r.x as int == sprite_x(lcd@, j as int),
        r.tileReference == lcd@.oam[4 * j + 2],
        r.isBelowBackground == (sprite_attr(lcd@, j as int) & 0x80 != 0),
        r.isYFlipped == (sprite_attr(lcd@, j as int) & 0x40 != 0),
        r.isXFlipped == (sprite_attr(lcd@, j as int) & 0x20 != 0),
        (r.selectedSpritePalette == SpritePalette::Palette1) == (sprite_attr(lcd@, j as int) & 0x10
            != 0),
        r.oamIndex == j,
{
    Sprite::new(lcd.oam[4 * j], lcd.oam[4 * j + 1], lcd.oam[4 * j + 2], lcd.oam[4 * j + 3], j)
}

/// The color number of a sprite at column `x` of the current line.
fn colorNumberForSprite(sprite: &Sprite, x: u8, lcd: &LCDState) -> (r: u8)
    requires
        sprite.oamIndex < 40,
        sprite.y as int == sprite_y(lcd@, sprite.oamIndex as int),
        sprite.x as int == sprite_x(lcd@, sprite.oamIndex as int),
        sprite.tileReference == lcd@.oam[4 * sprite.oamIndex + 2],
        sprite.isYFlipped == (sprite_attr(lcd@, sprite.oamIndex as int) & 0x40 != 0),
        sprite.isXFlipped == (sprite_attr(lcd@, sprite.oamIndex as int) & 0x20 != 0),
        covers(lcd@, sprite.oamIndex as int, x as int),
        on_line(lcd@, sprite.oamIndex as int),
    ensures
        r == sprite_color_spec(lcd@, sprite.oamIndex as int, x as int),
        r < 4,
{
    let h: usize = match lcd.spriteHeight {
        SpriteHeight::Short => 8,
        SpriteHeight::Tall => 16,
    };
    let col0: usize = x as usize + 8 - sprite.x as usize;
    let row0: usize = lcd.currScanLine as usize + 16 - sprite.y as usize;
    let col = if sprite.isXFlipped { 7 - col0 } else { col0 };
    let row = if sprite.isYFlipped { h - 1 - row0 } else { row0 };
    let tile = if h == 16 { sprite.tileReference & 0xFE } else { sprite.tileReference };
    tile_color(lcd, tile as usize * 16 + row * 2, col as u8)
}

fn sprite_color(lcd: &LCDState, j: usize, x: u8) -> (r: u8)
    requires
        j < 40,
        covers(lcd@, j as int, x as int),
        on_line(lcd@, j as int),
    ensures
        r == sprite_color_spec(lcd@, j as int, x as int),
        r < 4,
{
    let sprite = sprite_at(lcd, j);
    colorNumberForSprite(&sprite, x, lcd)
}

fn find_winner(lcd: &LCDState, sel: &Vec<usize>, x: u8) -> (r: Option<usize>)
    requires
        sel@.len() == line_sprites(lcd@, 40).len(),
        forall|i: int| 0 <= i < sel@.len() ==> sel@[i] as int == line_sprites(lcd@, 40)[i],
    ensures
        r is None <==> winner(lcd@, line_sprites(lcd@, 40), sel@.len() as int, x as int) is None,
        r is Some ==> r->Some_0 as int == winner(lcd@, line_sprites(lcd@, 40), sel@.len() as int, x as int)->Some_0,
        r is Some ==> r->Some_0 < 40,
{
    let ghost s = line_sprites(lcd@, 40);
    proof {
        lemma_line_sprites_range(lcd@, 40);
    }
    let mut best: Option<usize> = None;
    let mut i: usize = 0;
    while i < sel.len()
        invariant
            i <= sel@.len(),
            sel@.len() == s.len(),
            s == line_sprites(lcd@, 40),
            forall|k: int| 0 <= k < sel@.len() ==> sel@[k] as int == s[k],
            forall|k: int| 0 <= k < s.len() ==> 0 <= #[trigger] s[k] < 40 && on_line(lcd@, s[k]),
            best is None <==> winner(lcd@, s, i as int, x as int) is None,
            best is Some ==> best->Some_0 as int == winner(lcd@, s, i as int, x as int)->Some_0,
            best is Some ==> best->Some_0 < 40,
        decreases sel@.len() - i,
    {
        let j = sel[i];
        assert(s[i as int] < 40);
        let sx = lcd.oam[4 * j + 1] as u16;
        let xx = x as u16 + 8;
        if sx <= xx && xx < sx + 8 {
            let c = sprite_color(lcd, j, x);
            if c != 0 {
                let better = match best {
                    None => true,
                    Some(b) => {
                        let bx = lcd.oam[4 * b + 1];
                        (sx as u8) < bx || (sx as u8 == bx && j < b)
                    },
                };
                if better {
                    best = Some(j);
                }
            }
        }
        i = i + 1;
    }
    best
}

proof fn lemma_line_sprites_range(lcd: LcdView, n: int)
    requires
        0 <= n <= 40,
    ensures
        line_sprites(lcd, n).len() <= 10,
        forall|k: int|
            0 <= k < line_sprites(lcd, n).len() ==> 0 <= #[trigger] line_sprites(lcd, n)[k] < n
                && on_line(lcd, line_sprites(lcd, n)[k]),
    decreases n,
{
    if n > 0 {
        lemma_line_sprites_range(lcd, n - 1);
    }
}

fn pixel(lcd: &LCDState, sel: &Vec<usize>, x: u8) -> (r: PaletteColor)
    requires
        sel@.len() == line_sprites(lcd@, 40).len(),
        forall|i: int| 0 <= i < sel@.len() ==> sel@[i] as int == line_sprites(lcd@, 40)[i],
    ensures
        r == pixel_spec(lcd@, x as int),
{
    let bg = background_color(lcd, x);
    let w = if lcd.isOAMEnabled {
        find_winner(lcd, sel, x)
    } else {
        None
    };
    match w {
        None => lcd.palette[bg as usize],
        Some(j) => {
            let sprite = sprite_at(lcd, j);
            if sprite.isBelowBackground && bg != 0 {
                lcd.palette[bg as usize]
            } else {
                proof {
                    lemma_winner_in(lcd@, line_sprites(lcd@, 40), sel@.len() as int, x as int);
                    lemma_line_sprites_range(lcd@, 40);
                }
                let c = colorNumberForSprite(&sprite, x, lcd);
                match sprite.selectedSpritePalette {
                    SpritePalette::Palette0 => lcd.spritePalette0[c as usize],
                    SpritePalette::Palette1 => lcd.spritePalette1[c as usize],
                }
            }
        },
    }
}

/// The sprite drawn at a column is one of the list, covers the column,
/// and has a visible pixel there.
proof fn lemma_winner_in(lcd: LcdView, s: Seq<int>, n: int, x: int)
    requires
        0 <= n <= s.len(),
    ensures
        winner(lcd, s, n, x) is Some ==> (exists|k: int|
            0 <= k < n && s[k] == winner(lcd, s, n, x)->Some_0) && opaque_at(
            lcd,
            winner(lcd, s, n, x)->Some_0,
            x,
        ),
    decreases n,
{
    if n > 0 {
        lemma_winner_in(lcd, s, n - 1, x);
    }
}

/// Draws the current scanline into the frame being drawn.
fn render_scanline(lcd: &mut LCDState)
    requires
        old(lcd).currScanLine < 144,
    ensures
        final(lcd)@ == (LcdView { screenBackBuffer: render_spec(old(lcd)@), ..old(lcd)@ }),
{
    let sel = collect_line_sprites(lcd);
    let ghost l0 = lcd@;
    let mut line: [PaletteColor; 160] = [PaletteColor::White; 160];
    let mut x: usize = 0;
    while x < 160
        invariant
            x <= 160,
            lcd@ == l0,
            sel@.len() == line_sprites(l0, 40).len(),
            forall|i: int| 0 <= i < sel@.len() ==> sel@[i] as int == line_sprites(l0, 40)[i],
            forall|i: int| 0 <= i < x ==> line@[i] == pixel_spec(l0, i),
        decreases 160 - x,
    {
        line[x] = pixel(lcd, &sel, x as u8);
        x = x + 1;
    }
    let base: usize = lcd.currScanLine as usize * 160;
    let mut x: usize = 0;
    while x < 160
        invariant
            x <= 160,
            base == l0.currScanLine * 160,
            l0.currScanLine < 144,
            lcd@ == (LcdView { screenBackBuffer: lcd@.screenBackBuffer, ..l0 }),
            lcd@.screenBackBuffer.len() == 23040,
            forall|i: int| 0 <= i < 160 ==> line@[i] == pixel_spec(l0, i),
            forall|i: int|
                0 <= i < 23040 ==> lcd@.screenBackBuffer[i] == if base <= i < base + x {
                    pixel_spec(l0, i - base)
                } else {
                    l0.screenBackBuffer[i]
                },
        decreases 160 - x,
    {
        lcd.screenBackBuffer[base + x] = line[x];
        x = x + 1;
    }
    assert(lcd@.screenBackBuffer =~= render_spec(l0));
}

// ---------------------------------------------------------------------
// Mode timing
// ---------------------------------------------------------------------

pub const OAM_SCAN_CYCLES: u32 = 80;

pub const PIXEL_TRANSFER_CYCLES: u32 = 172;

pub const HBLANK_CYCLES: u32 = 204;

pub const LINE_CYCLES: u32 = 456;

/// Moves to scanline `line`, setting the LY == LYC status bit when they
/// match and clearing it otherwise. When the new line matches LYC and
/// the LY == LYC source is enabled, the status interrupt is requested
/// (each call moves to a new line, so every such match is a new one).
pub open spec fn change_line_spec(lcd: LcdView, req: u8, line: u8) -> (LcdView, u8) {
    let hit = line == lcd.lyc;
    (
        LcdView {
            currScanLine: line,
            lcdc: if hit { lcd.lcdc | 4 } else { lcd.lcdc & !4u8 },
            ..lcd
        },
        if hit && lcd.lcdc & 0x40 != 0 { req | 2 } else { req },
    )
}

/// Enters a mode, requesting the status interrupt when that mode's source
/// is enabled (VBlank bit 3, HBlank bit 4, OAM scan bit 5).
pub open spec fn enter_mode_spec(lcd: LcdView, req: u8, mode: LCDMode) -> (LcdView, u8) {
    let mask: u8 = match mode {
        LCDMode::HBlank => 0x10,
        LCDMode::VBlank => 0x08,
        LCDMode::ScanOAM => 0x20,
        LCDMode::ScanVRAMAndOAM => 0,
    };
    (LcdView { mode: mode, ..lcd }, if lcd.lcdc & mask != 0 { req | 2 } else { req })
}

/// The display controller and the interrupt requests after `cycles`
/// more cycles. Each mode lasts its fixed number of cycles: OAM scan,
/// then pixel transfer (which ends by drawing the line), then HBlank,
/// for lines 0 to 143; then VBlank for lines 144 to 153, entered with the
/// finished frame swapped in and the VBlank interrupt requested.
pub open spec fn step_lcd_spec(lcd: LcdView, req: u8, cycles: u32) -> (LcdView, u8) {
    if !lcd.isEnabled {
        (lcd, req)
    } else {
        let clock = lcd.modeClock.saturating_add(cycles);
        let l = LcdView { modeClock: clock, ..lcd };
        let l0 = LcdView { modeClock: 0, ..lcd };
        let ly = lcd.currScanLine;
        let next_line = ((ly + 1) % 256) as u8;
        match lcd.mode {
            LCDMode::HBlank => if clock < HBLANK_CYCLES {
                (l, req)
            } else {
                let (l1, r1) = change_line_spec(l0, req, next_line);
                if next_line == 144 {
                    let (l2, r2) = enter_mode_spec(l1, r1, LCDMode::VBlank);
                    (
                        LcdView { screen: l2.screenBackBuffer, screenBackBuffer: l2.screen, ..l2 },
                        r2 | 1,
                    )
                } else {
                    enter_mode_spec(l1, r1, LCDMode::ScanOAM)
                }
            },
            LCDMode::VBlank => if clock < LINE_CYCLES {
                (l, req)
            } else if ly == 153 {
                let (l1, r1) = change_line_spec(l0, req, 0);
                enter_mode_spec(l1, r1, LCDMode::ScanOAM)
            } else {
                change_line_spec(l0, req, next_line)
            },
            LCDMode::ScanOAM => if clock < OAM_SCAN_CYCLES {
                (l, req)
            } else {
                enter_mode_spec(l0, req, LCDMode::ScanVRAMAndOAM)
            },
            LCDMode::ScanVRAMAndOAM => if clock < PIXEL_TRANSFER_CYCLES {
                (l, req)
            } else {
                let l1 = if ly < 144 {
                    LcdView { screenBackBuffer: render_spec(l0), ..l0 }
                } else {
                    l0
                };
                enter_mode_spec(l1, req, LCDMode::HBlank)
            },
        }
    }
}

fn changeScanLine(newScanLine: u8, lcd: &mut LCDState, requestedInterrupts: &mut u8)
    ensures
        (final(lcd)@, *final(requestedInterrupts)) == change_line_spec(
            old(lcd)@,
            *old(requestedInterrupts),
            newScanLine,
        ),
{
    lcd.currScanLine = newScanLine;
    if newScanLine == lcd.lyc {
        if lcd.lcdc & 0x40 != 0 {
            *requestedInterrupts = *requestedInterrupts | 2;
        }
        lcd.lcdc = lcd.lcdc | 4;
    } else {
        lcd.lcdc = lcd.lcdc & !4u8;
    }
}

fn changeToNewLCDMode(newMode: LCDMode, lcd: &mut LCDState, requestedInterrupts: &mut u8)
    ensures
        (final(lcd)@, *final(requestedInterrupts)) == enter_mode_spec(
            old(lcd)@,
            *old(requestedInterrupts),
            newMode,
        ),
{
    let mask: u8 = match newMode {
        LCDMode::HBlank => 0x10,
        LCDMode::VBlank => 0x08,
        LCDMode::ScanOAM => 0x20,
        LCDMode::ScanVRAMAndOAM => 0,
    };
    lcd.mode = newMode;
    if lcd.lcdc & mask != 0 {
        *requestedInterrupts = *requestedInterrupts | 2;
    }
}

/// Advances the display controller by the cycles of the last step (see
/// `step_lcd_spec`). Nothing happens while the display is off.
pub fn stepLCD(lcd: &mut LCDState, requestedInterrupts: &mut u8, cyclesTakenOfLastInstruction: u32)
    ensures
        (final(lcd)@, *final(requestedInterrupts)) == step_lcd_spec(
            old(lcd)@,
            *old(requestedInterrupts),
            cyclesTakenOfLastInstruction,
        ),
{
    if lcd.isEnabled {
        let clock = lcd.modeClock.saturating_add(cyclesTakenOfLastInstruction);
        lcd.modeClock = clock;
        let ly = lcd.currScanLine;
        let next_line: u8 = if ly == 255 { 0 } else { ly + 1 };
        match lcd.mode {
            LCDMode::HBlank => {
                if clock >= HBLANK_CYCLES {
                    lcd.modeClock = 0;
                    changeScanLine(next_line, lcd, requestedInterrupts);
                    if next_line == 144 {
                        changeToNewLCDMode(LCDMode::VBlank, lcd, requestedInterrupts);
                        core::mem::swap(&mut lcd.screen, &mut lcd.screenBackBuffer);
                        *requestedInterrupts = *requestedInterrupts | 1;
                    } else {
                        changeToNewLCDMode(LCDMode::ScanOAM, lcd, requestedInterrupts);
                    }
                }
            },
            LCDMode::VBlank => {
                if clock >= LINE_CYCLES {
                    lcd.modeClock = 0;
                    if ly == 153 {
                        changeScanLine(0, lcd, requestedInterrupts);
                        changeToNewLCDMode(LCDMode::ScanOAM, lcd, requestedInterrupts);
                    } else {
                        changeScanLine(next_line, lcd, requestedInterrupts);
                    }
                }
            },
            LCDMode::ScanOAM => {
                if clock >= OAM_SCAN_CYCLES {
                    lcd.modeClock = 0;
                    changeToNewLCDMode(LCDMode::ScanVRAMAndOAM, lcd, requestedInterrupts);
                }
            },
            LCDMode::ScanVRAMAndOAM => {
                if clock >= PIXEL_TRANSFER_CYCLES {
                    lcd.modeClock = 0;
                    if ly < 144 {
                        render_scanline(lcd);
                    }
                    changeToNewLCDMode(LCDMode::HBlank, lcd, requestedInterrupts);
                }
            },
        }
    }
}

/// The sprite drawn at a column has, among all sprites of the list with
/// a visible pixel there, the least X, and among equal X the least OAM
/// index.
pub proof fn lemma_winner_least(lcd: LcdView, s: Seq<int>, n: int, x: int, k: int)
    requires
        0 <= k < n <= s.len(),
        opaque_at(lcd, s[k], x),
    ensures
        winner(lcd, s, n, x) is Some,
        sprite_x(lcd, winner(lcd, s, n, x)->Some_0) < sprite_x(lcd, s[k]) || (sprite_x(
            lcd,
            winner(lcd, s, n, x)->Some_0,
        ) == sprite_x(lcd, s[k]) && winner(lcd, s, n, x)->Some_0 <= s[k]),
    decreases n,
{
    if k < n - 1 {
        lemma_winner_least(lcd, s, n - 1, x, k);
    }
}

/// Two overlapping sprites with visible pixels at the same column and
/// the same X: the one with the lower OAM index is drawn there.
pub proof fn lemma_sprite_priority(lcd: LcdView, a: int, b: int, x: int)
    requires
        line_sprites(lcd, 40).contains(a),
        line_sprites(lcd, 40).contains(b),
        a < b,
        sprite_x(lcd, a) == sprite_x(lcd, b),
        opaque_at(lcd, a, x),
        opaque_at(lcd, b, x),
    ensures
        winner(lcd, line_sprites(lcd, 40), line_sprites(lcd, 40).len() as int, x) is Some,
        winner(lcd, line_sprites(lcd, 40), line_sprites(lcd, 40).len() as int, x)->Some_0 != b,
{
    let s = line_sprites(lcd, 40);
    let k = choose|k: int| 0 <= k < s.len() && s[k] == a;
    lemma_winner_least(lcd, s, s.len() as int, x, k);
}

// ---------------------------------------------------------------------
// Frame timing
// ---------------------------------------------------------------------

/// The state after `k` steps of 4 cycles each.
pub open spec fn run_lcd(l: LcdView, r: u8, k: nat) -> (LcdView, u8)
    decreases k,
{
    if k == 0 {
        (l, r)
    } else {
        let (l1, r1) = step_lcd_spec(l, r, 4);
        run_lcd(l1, r1, (k - 1) as nat)
    }
}

pub open spec fn mode_cycles(mode: LCDMode) -> int {
    match mode {
        LCDMode::HBlank => 204,
        LCDMode::VBlank => 456,
        LCDMode::ScanOAM => 80,
        LCDMode::ScanVRAMAndOAM => 172,
    }
}

/// The display is on and at the start of a mode on line `y`.
pub open spec fn mode_start(l: LcdView, mode: LCDMode, y: u8) -> bool {
    l.isEnabled && l.mode == mode && l.currScanLine == y && l.modeClock == 0
}

/// The start of a frame: OAM scan of line 0, at clock 0.
pub open spec fn frame_start(l: LcdView) -> bool {
    mode_start(l, LCDMode::ScanOAM, 0)
}

/// No state after 1 to `n` steps is the start of a frame.
pub open spec fn no_frame_start_within(l: LcdView, r: u8, n: nat) -> bool {
    forall|j: nat| 1 <= j <= n ==> !frame_start(#[trigger] run_lcd(l, r, j).0)
}

proof fn lemma_run_compose(l: LcdView, r: u8, a: nat, b: nat)
    ensures
        run_lcd(l, r, a + b) == run_lcd(run_lcd(l, r, a).0, run_lcd(l, r, a).1, b),
    decreases a,
{
    if a > 0 {
        let (l1, r1) = step_lcd_spec(l, r, 4);
        lemma_run_compose(l1, r1, (a - 1) as nat, b);
        assert((a + b - 1) as nat == (a - 1) as nat + b);
    }
}

proof fn lemma_no_start_concat(l: LcdView, r: u8, a: nat, b: nat)
    requires
        no_frame_start_within(l, r, a),
        no_frame_start_within(run_lcd(l, r, a).0, run_lcd(l, r, a).1, b),
    ensures
        no_frame_start_within(l, r, a + b),
{
    assert forall|j: nat| 1 <= j <= a + b implies !frame_start(#[trigger] run_lcd(l, r, j).0) by {
        if j > a {
            lemma_run_compose(l, r, a, (j - a) as nat);
            assert(a + (j - a) as nat == j);
        }
    }
}

/// Within a mode, steps of 4 cycles only advance the clock.
pub proof fn lemma_wait(l: LcdView, r: u8, k: nat)
    requires
        l.isEnabled,
        l.modeClock + 4 * k < mode_cycles(l.mode),
    ensures
        run_lcd(l, r, k) == (LcdView { modeClock: (l.modeClock + 4 * k) as u32, ..l }, r),
    decreases k,
{
    if k > 0 {
        let l1 = LcdView { modeClock: (l.modeClock + 4) as u32, ..l };
        assert(step_lcd_spec(l, r, 4) == (l1, r));
        lemma_wait(l1, r, (k - 1) as nat);
        assert(LcdView { modeClock: (l1.modeClock + 4 * (k - 1)) as u32, ..l1 } == LcdView {
            modeClock: (l.modeClock + 4 * k) as u32,
            ..l
        });
    }
}

/// A mode entered at clock 0 lasts `mode_cycles(mode)` cycles: its
/// first steps of 4 cycles only wait (see `lemma_wait`), and the last one
/// ends it; no step before the last is a frame start.
pub proof fn lemma_phase(l: LcdView, r: u8)
    requires
        l.isEnabled,
        l.modeClock == 0,
    ensures
        ({
            let n = (mode_cycles(l.mode) / 4) as nat;
            let lw = LcdView { modeClock: (mode_cycles(l.mode) - 4) as u32, ..l };
            &&& run_lcd(l, r, n) == step_lcd_spec(lw, r, 4)
            &&& no_frame_start_within(l, r, (n - 1) as nat)
            &&& !frame_start(run_lcd(l, r, n).0) ==> no_frame_start_within(l, r, n)
        }),
{
    let n = (mode_cycles(l.mode) / 4) as nat;
    let lw = LcdView { modeClock: (mode_cycles(l.mode) - 4) as u32, ..l };
    lemma_wait(l, r, (n - 1) as nat);
    assert forall|j: nat| 1 <= j <= (n - 1) as nat implies !frame_start(
        #[trigger] run_lcd(l, r, j).0,
    ) by {
        lemma_wait(l, r, j);
    }
    lemma_run_compose(l, r, (n - 1) as nat, 1);
    assert((n - 1) as nat + 1 == n);
    assert(run_lcd(lw, r, 1) == step_lcd_spec(lw, r, 4)) by {
        let (l1, r1) = step_lcd_spec(lw, r, 4);
        assert(run_lcd(l1, r1, 0) == (l1, r1));
    }
}

/// A visible line other than the last, from the start of its OAM scan to
/// the start of the next line's: 114 steps, the shown frame untouched.
pub proof fn lemma_visible_line(l: LcdView, r: u8, y: u8)
    requires
        mode_start(l, LCDMode::ScanOAM, y),
        y < 143,
    ensures
        mode_start(run_lcd(l, r, 114).0, LCDMode::ScanOAM, (y + 1) as u8),
        run_lcd(l, r, 114).0.screen == l.screen,
        no_frame_start_within(l, r, 114),
{
    lemma_phase(l, r);
    let (l1, r1) = run_lcd(l, r, 20);
    assert(mode_start(l1, LCDMode::ScanVRAMAndOAM, y) && l1.screen == l.screen);
    lemma_phase(l1, r1);
    let (l2, r2) = run_lcd(l1, r1, 43);
    assert(mode_start(l2, LCDMode::HBlank, y) && l2.screen == l.screen);
    lemma_phase(l2, r2);
    let (l3, r3) = run_lcd(l2, r2, 51);
    assert(mode_start(l3, LCDMode::ScanOAM, (y + 1) as u8) && l3.screen == l.screen);
    lemma_run_compose(l, r, 20, 43);
    lemma_run_compose(l, r, 63, 51);
    lemma_no_start_concat(l, r, 20, 43);
    lemma_no_start_concat(l, r, 63, 51);
}

/// The last visible line: it ends by entering VBlank at line 144, with
/// the drawn frame swapped in and the shown one behind it.
pub proof fn lemma_last_visible_line(l: LcdView, r: u8)
    requires
        mode_start(l, LCDMode::ScanOAM, 143),
    ensures
        mode_start(run_lcd(l, r, 114).0, LCDMode::VBlank, 144),
        run_lcd(l, r, 114).0.screenBackBuffer == l.screen,
        run_lcd(l, r, 114).0.screen == run_lcd(l, r, 113).0.screenBackBuffer,
        no_frame_start_within(l, r, 114),
{
    lemma_phase(l, r);
    let (l1, r1) = run_lcd(l, r, 20);
    lemma_phase(l1, r1);
    let (l2, r2) = run_lcd(l1, r1, 43);
    assert(mode_start(l2, LCDMode::HBlank, 143) && l2.screen == l.screen);
    lemma_phase(l2, r2);
    lemma_wait(l2, r2, 50);
    lemma_run_compose(l, r, 20, 43);
    lemma_run_compose(l, r, 63, 51);
    lemma_run_compose(l, r, 63, 50);
    lemma_no_start_concat(l, r, 20, 43);
    lemma_no_start_concat(l, r, 63, 51);
}

/// A VBlank line from 144 to 152: 114 steps to the next VBlank line.
pub proof fn lemma_vblank_line(l: LcdView, r: u8, y: u8)
    requires
        mode_start(l, LCDMode::VBlank, y),
        144 <= y < 153,
    ensures
        mode_start(run_lcd(l, r, 114).0, LCDMode::VBlank, (y + 1) as u8),
        run_lcd(l, r, 114).0.screen == l.screen,
        run_lcd(l, r, 114).0.screenBackBuffer == l.screenBackBuffer,
        no_frame_start_within(l, r, 114),
{
    lemma_phase(l, r);
}

/// Line 153 ends at the start of the next frame.
pub proof fn lemma_last_line(l: LcdView, r: u8)
    requires
        mode_start(l, LCDMode::VBlank, 153),
    ensures
        frame_start(run_lcd(l, r, 114).0),
        run_lcd(l, r, 114).0.screen == l.screen,
        run_lcd(l, r, 114).0.screenBackBuffer == l.screenBackBuffer,
        no_frame_start_within(l, r, 113),
{
    lemma_phase(l, r);
}

pub proof fn lemma_visible_lines(l: LcdView, r: u8, y: u8, n: nat)
    requires
        mode_start(l, LCDMode::ScanOAM, y),
        y + n <= 143,
    ensures
        mode_start(run_lcd(l, r, 114 * n).0, LCDMode::ScanOAM, (y + n) as u8),
        run_lcd(l, r, 114 * n).0.screen == l.screen,
        no_frame_start_within(l, r, 114 * n),
    decreases n,
{
    if n > 0 {
        lemma_visible_line(l, r, y);
        let (l1, r1) = run_lcd(l, r, 114);
        lemma_visible_lines(l1, r1, (y + 1) as u8, (n - 1) as nat);
        lemma_run_compose(l, r, 114, 114 * (n - 1) as nat);
        lemma_no_start_concat(l, r, 114, 114 * (n - 1) as nat);
        assert(114 + 114 * (n - 1) as nat == 114 * n) by (nonlinear_arith)
            requires
                n > 0,
        ;
    }
}

pub proof fn lemma_vblank_lines(l: LcdView, r: u8, y: u8, n: nat)
    requires
        mode_start(l, LCDMode::VBlank, y),
        144 <= y,
        y + n <= 153,
    ensures
        mode_start(run_lcd(l, r, 114 * n).0, LCDMode::VBlank, (y + n) as u8),
        run_lcd(l, r, 114 * n).0.screen == l.screen,
        run_lcd(l, r, 114 * n).0.screenBackBuffer == l.screenBackBuffer,
        no_frame_start_within(l, r, 114 * n),
    decreases n,
{
    if n > 0 {
        lemma_vblank_line(l, r, y);
        let (l1, r1) = run_lcd(l, r, 114);
        lemma_vblank_lines(l1, r1, (y + 1) as u8, (n - 1) as nat);
        lemma_run_compose(l, r, 114, 114 * (n - 1) as nat);
        lemma_no_start_concat(l, r, 114, 114 * (n - 1) as nat);
        assert(114 + 114 * (n - 1) as nat == 114 * n) by (nonlinear_arith)
            requires
                n > 0,
        ;
    }
}

/// A frame fed 4 cycles per step, from the start of line 0's OAM scan,
/// returns to that start after exactly 144 * (80 + 172 + 204) + 10 * 456
/// cycles and not before. On the way the frame drawn in the visible
/// lines is swapped in once: it is shown at the end, and the frame shown
/// at the start is the one behind it.
pub proof fn lemma_frame_timing(l: LcdView, r: u8)
    requires
        frame_start(l),
    ensures
        4 * 17556 == 144 * (80 + 172 + 204) + 10 * 456,
        frame_start(run_lcd(l, r, 17556).0),
        no_frame_start_within(l, r, 17555),
        run_lcd(l, r, 17556).0.screenBackBuffer == l.screen,
        run_lcd(l, r, 17556).0.screen == run_lcd(l, r, 143 * 114 + 113).0.screenBackBuffer,
{
    lemma_visible_lines(l, r, 0, 143);
    let (l1, r1) = run_lcd(l, r, 16302);
    lemma_last_visible_line(l1, r1);
    let (l2, r2) = run_lcd(l1, r1, 114);
    lemma_vblank_lines(l2, r2, 144, 9);
    let (l3, r3) = run_lcd(l2, r2, 1026);
    lemma_last_line(l3, r3);
    lemma_run_compose(l, r, 16302, 114);
    lemma_run_compose(l, r, 16302, 113);
    lemma_run_compose(l, r, 16416, 1026);
    lemma_run_compose(l, r, 17442, 114);
    lemma_no_start_concat(l, r, 16302, 114);
    lemma_no_start_concat(l, r, 16416, 1026);
    lemma_no_start_concat(l, r, 17442, 113);
}


/// The sprite drawn at a column is exactly the one of the line's sprites
/// with a visible pixel there that has the least X, and among equal X
/// the lower OAM index.
pub proof fn lemma_sprite_drawn(lcd: LcdView, a: int, x: int)
    requires
        line_sprites(lcd, 40).contains(a),
        opaque_at(lcd, a, x),
        forall|b: int|
            line_sprites(lcd, 40).contains(b) && opaque_at(lcd, b, x) && b != a ==> sprite_x(lcd, a)
                < sprite_x(lcd, b) || (sprite_x(lcd, a) == sprite_x(lcd, b) && a < b),
    ensures
        winner(lcd, line_sprites(lcd, 40), line_sprites(lcd, 40).len() as int, x) == Some(a),
{
    let s = line_sprites(lcd, 40);
    let n = s.len() as int;
    let k = choose|k: int| 0 <= k < s.len() && s[k] == a;
    lemma_winner_least(lcd, s, n, x, k);
    lemma_winner_in(lcd, s, n, x);
    let w = winner(lcd, s, n, x)->Some_0;
    assert(s.contains(w));
}


/// A step changes the frame on show only when it leaves the HBlank of
/// line 143 for VBlank at line 144: then the drawn frame and the shown
/// one trade places and the VBlank interrupt is requested.
pub proof fn lemma_swap_only_on_vblank_entry(l: LcdView, r: u8, cycles: u32)
    ensures
        ({
            let (l2, r2) = step_lcd_spec(l, r, cycles);
            l2.screen == l.screen || (l.isEnabled && l.mode == LCDMode::HBlank && l.currScanLine
                == 143 && l2.mode == LCDMode::VBlank && l2.currScanLine == 144 && l2.screen
                == l.screenBackBuffer && l2.screenBackBuffer == l.screen && r2 & 1 == 1)
        }),
{
    assert(forall|x: u8| #[trigger] (x | 1) & 1 == 1) by (bit_vector);
}

/// Lines and modes agree: OAM scan, pixel transfer and HBlank happen on
/// lines 0 to 143 and VBlank on lines 144 to 153.
pub open spec fn line_in_range(l: LcdView) -> bool {
    if l.mode == LCDMode::VBlank {
        144 <= l.currScanLine <= 153
    } else {
        l.currScanLine <= 143
    }
}

/// Every step keeps lines and modes in agreement, so LY stays within 0
/// to 153.
pub proof fn lemma_line_in_range(l: LcdView, r: u8, cycles: u32)
    requires
        line_in_range(l),
    ensures
        line_in_range(step_lcd_spec(l, r, cycles).0),
        step_lcd_spec(l, r, cycles).0.currScanLine <= 153,
{
}

} // verus!
