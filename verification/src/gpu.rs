//! The picture unit: VRAM and OAM storage, the four-phase scanline state
//! machine, the decoded sprite cache, and the background/sprite compositor.

use vstd::prelude::*;

verus! {

/// First VRAM address.
pub const VRAM_START: u16 = 0x8000;

/// Last VRAM address.
pub const VRAM_END: u16 = 0x9fff;

/// First OAM address.
pub const OAM_START: u16 = 0xfe00;

/// Last OAM address.
pub const OAM_END: u16 = 0xfe9f;

/// Screen width in pixels.
pub const WIDTH: usize = 160;

/// Screen height in pixels.
pub const HEIGHT: usize = 144;

/// The scanline state machine's phase.
#[derive(Debug, Clone, Copy, PartialEq, Eq, Structural)]
pub enum GpuMode {
    /// First part of a visible line: the unit reads OAM (80 cycles).
    ScanlineOAM,
    /// Second part: the unit reads VRAM (172 cycles).
    ScanlineVRAM,
    /// Rest of a visible line (204 cycles).
    HBlank,
    /// Ten full lines between frames (456 cycles each).
    VBlank,
}

/// The LCDC control register at 0xFF40, as a bitfield: bit 7 operation,
/// bit 6 window tile map select, bit 5 window enable, bit 4 BG tile data
/// select, bit 3 BG tile map select, bit 2 sprite size (8x16 when set),
/// bit 1 sprite enable, bit 0 BG enable.
#[derive(Debug, Clone, Copy, PartialEq, Eq, Structural)]
pub struct LCDC {
    pub operation: bool,
    pub windows_tile_map: bool,
    pub window_display: bool,
    pub bg_tile_data_select: bool,
    pub bg_tile_map_select: bool,
    pub obj_size: bool,
    pub obj_display: bool,
    pub bg_display: bool,
}

/// The LCDC bitfield encoded by a byte.
pub open spec fn lcdc_of_byte(byte: u8) -> LCDC {
    LCDC {
        operation: byte & 0x80 != 0,
        windows_tile_map: byte & 0x40 != 0,
        window_display: byte & 0x20 != 0,
        bg_tile_data_select: byte & 0x10 != 0,
        bg_tile_map_select: byte & 0x08 != 0,
        obj_size: byte & 0x04 != 0,
        obj_display: byte & 0x02 != 0,
        bg_display: byte & 0x01 != 0,
    }
}

/// The byte encoding of an LCDC bitfield.
pub open spec fn lcdc_value(l: LCDC) -> u8 {
    ((if l.operation { 0x80u8 } else { 0u8 }) + (if l.windows_tile_map { 0x40u8 } else { 0u8 })
        + (if l.window_display { 0x20u8 } else { 0u8 }) + (if l.bg_tile_data_select {
        0x10u8
    } else {
        0u8
    }) + (if l.bg_tile_map_select { 0x08u8 } else { 0u8 }) + (if l.obj_size { 0x04u8 } else { 0u8 })
        + (if l.obj_display { 0x02u8 } else { 0u8 }) + (if l.bg_display { 0x01u8 } else { 0u8 }))
        as u8
}

impl LCDC {
    /// Decodes the LCDC byte into its eight control bits.
    pub fn from_u8(byte: u8) -> (r: LCDC)
        ensures
            r == lcdc_of_byte(byte),
    {
        LCDC {
            operation: byte & 0x80 != 0,
            windows_tile_map: byte & 0x40 != 0,
            window_display: byte & 0x20 != 0,
            bg_tile_data_select: byte & 0x10 != 0,
            bg_tile_map_select: byte & 0x08 != 0,
            obj_size: byte & 0x04 != 0,
            obj_display: byte & 0x02 != 0,
            bg_display: byte & 0x01 != 0,
        }
    }

    /// Encodes the eight control bits back into the LCDC byte.
    pub fn to_u8(&self) -> (r: u8)
        ensures
            r == lcdc_value(*self),
    {
        (if self.operation { 0x80u8 } else { 0u8 }) + (if self.windows_tile_map {
            0x40u8
        } else {
            0u8
        }) + (if self.window_display { 0x20u8 } else { 0u8 }) + (if self.bg_tile_data_select {
            0x10u8
        } else {
            0u8
        }) + (if self.bg_tile_map_select { 0x08u8 } else { 0u8 }) + (if self.obj_size {
            0x04u8
        } else {
            0u8
        }) + (if self.obj_display { 0x02u8 } else { 0u8 }) + (if self.bg_display {
            0x01u8
        } else {
            0u8
        })
    }
}

/// One decoded OAM record. `x` and `y` hold the screen position already
/// biased (raw Y minus 16, raw X minus 8), so they can sit off-screen.
#[derive(Debug, Default, Clone, Copy, PartialEq, Eq, Structural)]
pub struct Sprite {
    pub tile_idx: u8,
    pub x: i16,
    pub y: i16,
    /// When set, the background wins over the sprite wherever the raw
    /// background index is non-zero.
    pub priority: bool,
    pub flip_y: bool,
    pub flip_x: bool,
    /// Selects OBP1 over OBP0.
    pub palette_number: bool,
}

/// A cleared sprite record.
pub open spec fn sprite_zero() -> Sprite {
    Sprite {
        tile_idx: 0,
        x: 0,
        y: 0,
        priority: false,
        flip_y: false,
        flip_x: false,
        palette_number: false,
    }
}

/// The mathematical value of the picture unit.
#[verifier::ext_equal]
pub struct GpuV {
    pub clock: u64,
    pub line: u8,
    pub lcdc: LCDC,
    pub bg_palette: u8,
    pub ob0_palette: u8,
    pub ob1_palette: u8,
    pub mode: GpuMode,
    pub scy: u8,
    pub scx: u8,
    pub vram: Seq<u8>,
    pub oam: Seq<u8>,
    pub sprite: Seq<Sprite>,
    pub unmapped_bg: Seq<u8>,
    pub is_interrupt: bool,
}

/// The picture unit.
pub struct Gpu {
    /// Cycles accumulated toward the current phase's end.
    pub clock: u64,
    /// LY: the current line, 0..=153.
    pub line: u8,
    pub lcdc: LCDC,
    /// BGP: the background palette byte.
    pub bg_palette: u8,
    /// OBP0.
    pub ob0_palette: u8,
    /// OBP1.
    pub ob1_palette: u8,
    pub mode: GpuMode,
    pub scy: u8,
    pub scx: u8,
    /// 0x8000..=0x9FFF.
    pub vram: Vec<u8>,
    /// 0xFE00..=0xFE9F: 40 records of 4 bytes.
    pub oam: Vec<u8>,
    /// The decoded mirror of OAM, kept in step on every OAM store.
    pub sprite: Vec<Sprite>,
    /// The raw 2-bit background index of every screen pixel, for
    /// sprite-priority compositing.
    pub unmapped_bg: Vec<u8>,
    /// The VBlank interrupt request latch (IF bit 0).
    pub is_interrupt: bool,
}

impl View for Gpu {
    type V = GpuV;

    open spec fn view(&self) -> GpuV {
        GpuV {
            clock: self.clock,
            line: self.line,
            lcdc: self.lcdc,
            bg_palette: self.bg_palette,
            ob0_palette: self.ob0_palette,
            ob1_palette: self.ob1_palette,
            mode: self.mode,
            scy: self.scy,
            scx: self.scx,
            vram: self.vram@,
            oam: self.oam@,
            sprite: self.sprite@,
            unmapped_bg: self.unmapped_bg@,
            is_interrupt: self.is_interrupt,
        }
    }
}

/// Well-formedness: the stores have their fixed sizes and LY stays inside a
/// frame, below 144 outside VBlank.
pub open spec fn gpu_wf(g: GpuV) -> bool {
    &&& g.vram.len() == 0x2000
    &&& g.oam.len() == 160
    &&& g.sprite.len() == 40
    &&& g.unmapped_bg.len() == WIDTH * HEIGHT
    &&& g.line <= 153
    &&& (!(g.mode is VBlank) ==> g.line <= 143)
}

/// The scanline state machine after `clock` more cycles: at most one phase
/// transition fires per call, when the accumulated cycles reach the current
/// phase's duration. The VBlank interrupt latch is set exactly at the
/// HBlank-to-VBlank transition on line 143.
pub open spec fn gpu_update_s(g: GpuV, clock: u64) -> GpuV {
    let k = g.clock.wrapping_add(clock);
    match g.mode {
        GpuMode::ScanlineOAM => {
            if k >= 80 {
                GpuV { clock: (k - 80) as u64, mode: GpuMode::ScanlineVRAM, ..g }
            } else {
                GpuV { clock: k, ..g }
            }
        },
        GpuMode::ScanlineVRAM => {
            if k >= 172 {
                GpuV { clock: (k - 172) as u64, mode: GpuMode::HBlank, ..g }
            } else {
                GpuV { clock: k, ..g }
            }
        },
        GpuMode::HBlank => {
            if k >= 204 {
                if g.line >= 143 {
                    GpuV {
                        clock: (k - 204) as u64,
                        mode: GpuMode::VBlank,
                        line: (g.line + 1) as u8,
                        is_interrupt: true,
                        ..g
                    }
                } else {
                    GpuV {
                        clock: (k - 204) as u64,
                        mode: GpuMode::ScanlineOAM,
                        line: (g.line + 1) as u8,
                        ..g
                    }
                }
            } else {
                GpuV { clock: k, ..g }
            }
        },
        GpuMode::VBlank => {
            if k >= 456 {
                if g.line + 1 >= 154 {
                    GpuV { clock: (k - 456) as u64, mode: GpuMode::ScanlineOAM, line: 0, ..g }
                } else {
                    GpuV { clock: (k - 456) as u64, line: (g.line + 1) as u8, ..g }
                }
            } else {
                GpuV { clock: k, ..g }
            }
        },
    }
}

/// The eight raw 2-bit pixels of one tile row, leftmost first: bit `7-i` of
/// the row's first byte is the high bit of pixel `i`, the same bit of the
/// second byte the low bit.
pub open spec fn tile_line_s(vram: Seq<u8>, tile_idx: int, line_idx: int) -> Seq<u8> {
    Seq::new(
        8,
        |i: int|
            ((((vram[(tile_idx * 8 + line_idx) * 2] >> (7 - i) as u8) & 1) << 1) | ((vram[(tile_idx
                * 8 + line_idx) * 2 + 1] >> (7 - i) as u8) & 1)) as u8,
    )
}

/// The 2-bit palette slot a raw pixel index selects: slot `p` sits in
/// palette bits `2p+1..2p`.
pub open spec fn palette_map_s(palette: u8, pixel: u8) -> u8 {
    if pixel == 3 {
        (palette >> 6u8) & 0x3
    } else if pixel == 2 {
        (palette >> 4u8) & 0x3
    } else if pixel == 1 {
        (palette >> 2u8) & 0x3
    } else {
        palette & 0x3
    }
}

/// The ARGB word of a mapped 2-bit shade: white, light gray, dark gray,
/// black.
pub open spec fn color_s(pixel: u8) -> u32 {
    if pixel == 3 {
        0x00000000u32
    } else if pixel == 2 {
        0x00555555u32
    } else if pixel == 1 {
        0x00AAAAAAu32
    } else {
        0x00FFFFFFu32
    }
}

/// The sprite record at `idx` after the OAM byte `sub` of that record (its
/// address modulo 4) was set to `value`: byte 0 is Y biased by -16, byte 1
/// is X biased by -8, byte 2 the tile index, byte 3 the attribute bits.
pub open spec fn sprite_field_s(s: Sprite, sub: int, value: u8) -> Sprite {
    if sub == 0 {
        Sprite { y: (value - 16) as i16, ..s }
    } else if sub == 1 {
        Sprite { x: (value - 8) as i16, ..s }
    } else if sub == 2 {
        Sprite { tile_idx: value, ..s }
    } else {
        Sprite {
            priority: (value >> 7u8) & 1 != 0,
            flip_y: (value >> 6u8) & 1 != 0,
            flip_x: (value >> 5u8) & 1 != 0,
            palette_number: (value >> 4u8) & 1 != 0,
            ..s
        }
    }
}

/// What a load from VRAM or OAM returns; other addresses are not the
/// picture unit's.
pub open spec fn gpu_load_s(g: GpuV, addr: u16) -> Result<u8, ()> {
    if VRAM_START <= addr <= VRAM_END && g.vram.len() == 0x2000 {
        Ok(g.vram[addr - VRAM_START])
    } else if OAM_START <= addr <= OAM_END && g.oam.len() == 160 {
        Ok(g.oam[addr - OAM_START])
    } else {
        Err(())
    }
}

/// What a store to VRAM or OAM leaves behind: the byte is written, and an
/// OAM store also refreshes the decoded sprite record it belongs to.
pub open spec fn gpu_store_s(g: GpuV, addr: u16, value: u8) -> Result<GpuV, ()> {
    if VRAM_START <= addr <= VRAM_END && g.vram.len() == 0x2000 {
        Ok(GpuV { vram: g.vram.update(addr - VRAM_START, value), ..g })
    } else if OAM_START <= addr <= OAM_END && g.oam.len() == 160 && g.sprite.len() == 40 {
        let i = addr - OAM_START;
        Ok(
            GpuV {
                oam: g.oam.update(i, value),
                sprite: g.sprite.update(i / 4, sprite_field_s(g.sprite[i / 4], i % 4, value)),
                ..g
            },
        )
    } else {
        Err(())
    }
}

/// The picture unit's post-boot state: LCDC 0x91, BGP 0xFC, object
/// palettes 0xFF, line 0, OAM-scan phase, zeroed stores.
pub open spec fn gpu_reset_s() -> GpuV {
    GpuV {
        clock: 0,
        line: 0,
        lcdc: lcdc_of_byte(0x91),
        bg_palette: 0xfc,
        ob0_palette: 0xff,
        ob1_palette: 0xff,
        mode: GpuMode::ScanlineOAM,
        scy: 0,
        scx: 0,
        vram: Seq::new(0x2000, |i: int| 0u8),
        oam: Seq::new(160, |i: int| 0u8),
        sprite: Seq::new(40, |i: int| sprite_zero()),
        unmapped_bg: Seq::new((WIDTH * HEIGHT) as nat, |i: int| 0u8),
        is_interrupt: false,
    }
}

impl Gpu {
    /// Builds the picture unit in its post-boot state, as `gpu_reset_s`
    /// describes.
    pub fn new() -> (r: Gpu)
        ensures
            r@ == gpu_reset_s(),
            gpu_wf(r@),
    {
        let vram = byte_vec(0x2000);
        let oam = byte_vec(160);
        let unmapped_bg = byte_vec(WIDTH * HEIGHT);
        let mut sprite: Vec<Sprite> = Vec::new();
        while sprite.len() < 40
            invariant
                sprite@.len() <= 40,
                sprite@ == Seq::new(sprite@.len(), |i: int| sprite_zero()),
            decreases 40 - sprite.len(),
        {
            sprite.push(
                Sprite {
                    tile_idx: 0,
                    x: 0,
                    y: 0,
                    priority: false,
                    flip_y: false,
                    flip_x: false,
                    palette_number: false,
                },
            );
            proof {
                assert(sprite@ =~= Seq::new(sprite@.len(), |i: int| sprite_zero()));
            }
        }
        Gpu {
            clock: 0,
            line: 0,
            lcdc: LCDC::from_u8(0x91),
            bg_palette: 0xfc,
            ob0_palette: 0xff,
            ob1_palette: 0xff,
            mode: GpuMode::ScanlineOAM,
            scy: 0,
            scx: 0,
            vram,
            oam,
            sprite,
            unmapped_bg,
            is_interrupt: false,
        }
    }

    /// Advances the scanline state machine, as `gpu_update_s` describes.
    #[verifier::rlimit(50)]
    pub fn update(&mut self, clock: u64)
        requires
            gpu_wf(old(self)@),
        ensures
            final(self)@ == gpu_update_s(old(self)@, clock),
            gpu_wf(final(self)@),
    {
        self.clock = self.clock.wrapping_add(clock);
        match self.mode {
            GpuMode::ScanlineOAM => {
                if self.clock >= 80 {
                    self.clock = self.clock - 80;
                    self.mode = GpuMode::ScanlineVRAM;
                }
            },
            GpuMode::ScanlineVRAM => {
                if self.clock >= 172 {
                    self.clock = self.clock - 172;
                    self.mode = GpuMode::HBlank;
                }
            },
            GpuMode::HBlank => {
                if self.clock >= 204 {
                    self.clock = self.clock - 204;
                    if self.line >= 143 {
                        self.mode = GpuMode::VBlank;
                        self.is_interrupt = true;
                    } else {
                        self.mode = GpuMode::ScanlineOAM;
                    }
                    self.line = self.line + 1;
                }
            },
            GpuMode::VBlank => {
                if self.clock >= 456 {
                    self.clock = self.clock - 456;
                    self.line = self.line + 1;
                    if self.line >= 154 {
                        self.line = 0;
                        self.mode = GpuMode::ScanlineOAM;
                    }
                }
            },
        }
        proof {
            assert(self@ =~= gpu_update_s(old(self)@, clock));
        }
    }

    /// Returns the eight raw 2-bit pixels of row `line_idx` of tile
    /// `tile_idx`, leftmost first, as `tile_line_s` describes.
    pub fn get_tile_line(&self, tile_idx: usize, line_idx: usize) -> (r: Vec<u8>)
        requires
            gpu_wf(self@),
            tile_idx < 256,
            line_idx < 8,
        ensures
            r@ == tile_line_s(self@.vram, tile_idx as int, line_idx as int),
            r@.len() == 8,
            forall|i: int| 0 <= i < 8 ==> r@[i] < 4,
    {
        let addr = (tile_idx * 8 + line_idx) * 2;
        let byte1 = self.vram[addr];
        let byte2 = self.vram[addr + 1];
        let mut pxs: Vec<u8> = Vec::new();
        let mut j: usize = 0;
        while j < 8
            invariant
                j <= 8,
                pxs@.len() == j,
                forall|i: int|
                    0 <= i < j ==> pxs@[i] == ((((byte1 >> (7 - i) as u8) & 1) << 1) | ((byte2 >> (
                    7 - i) as u8) & 1)) as u8,
                byte1 == self@.vram[(tile_idx * 8 + line_idx) * 2],
                byte2 == self@.vram[(tile_idx * 8 + line_idx) * 2 + 1],
            decreases 8 - j,
        {
            let sh = (7 - j) as u8;
            let bit1 = (byte1 >> sh) & 1;
            let bit2 = (byte2 >> sh) & 1;
            let pixel = (bit1 << 1u8) | bit2;
            pxs.push(pixel);
            j = j + 1;
        }
        proof {
            assert(pxs@ =~= tile_line_s(self@.vram, tile_idx as int, line_idx as int));
            assert forall|i: int| 0 <= i < 8 implies pxs@[i] < 4 by {
                let b1 = self@.vram[(tile_idx * 8 + line_idx) * 2];
                let b2 = self@.vram[(tile_idx * 8 + line_idx) * 2 + 1];
                let sh = (7 - i) as u8;
                assert(((((b1 >> sh) & 1) << 1) | ((b2 >> sh) & 1)) < 4) by (bit_vector);
            }
        }
        pxs
    }

    /// Maps a raw 2-bit pixel index through a palette byte, as
    /// `palette_map_s` describes.
    pub fn pixel_map_by_palette(&self, palette: u8, pixel: u8) -> (r: u8)
        requires
            pixel < 4,
        ensures
            r == palette_map_s(palette, pixel),
            r < 4,
    {
        let r = match pixel {
            3 => (palette >> 6u8) & 0x3,
            2 => (palette >> 4u8) & 0x3,
            1 => (palette >> 2u8) & 0x3,
            _ => palette & 0x3,
        };
        proof {
            assert((palette >> 6u8) & 0x3 < 4 && (palette >> 4u8) & 0x3 < 4 && (palette >> 2u8)
                & 0x3 < 4 && palette & 0x3 < 4) by (bit_vector);
        }
        r
    }

    /// Maps a mapped 2-bit shade to its ARGB word, as `color_s` describes.
    pub fn pixel_to_color(&self, pixel: u8) -> (r: u32)
        requires
            pixel < 4,
        ensures
            r == color_s(pixel),
    {
        match pixel {
            3 => 0x00000000u32,
            2 => 0x00555555u32,
            1 => 0x00AAAAAAu32,
            _ => 0x00FFFFFFu32,
        }
    }

    /// Reads a VRAM or OAM byte, as `gpu_load_s` describes.
    pub fn load(&self, addr: u16) -> (r: Result<u8, ()>)
        requires
            gpu_wf(self@),
        ensures
            r == gpu_load_s(self@, addr),
    {
        if VRAM_START <= addr && addr <= VRAM_END {
            Ok(self.vram[(addr - VRAM_START) as usize])
        } else if OAM_START <= addr && addr <= OAM_END {
            Ok(self.oam[(addr - OAM_START) as usize])
        } else {
            Err(())
        }
    }

    /// Writes a VRAM or OAM byte, refreshing the decoded sprite record on an
    /// OAM store, as `gpu_store_s` describes.
    pub fn store(&mut self, addr: u16, value: u8) -> (r: Result<(), ()>)
        requires
            gpu_wf(old(self)@),
        ensures
            match gpu_store_s(old(self)@, addr, value) {
                Ok(g) => r is Ok && final(self)@ == g && gpu_wf(g),
                Err(()) => r is Err && final(self)@ == old(self)@,
            },
    {
        if VRAM_START <= addr && addr <= VRAM_END {
            self.vram.set((addr - VRAM_START) as usize, value);
            Ok(())
        } else if OAM_START <= addr && addr <= OAM_END {
            let i = (addr - OAM_START) as usize;
            self.oam.set(i, value);
            self.update_sprite(i);
            proof {
                assert(self@ =~= gpu_store_s(old(self)@, addr, value).unwrap());
            }
            Ok(())
        } else {
            Err(())
        }
    }

    /// Refreshes the decoded sprite record that OAM byte `addr` belongs to,
    /// from the byte already stored there.
    fn update_sprite(&mut self, addr: usize)
        requires
            gpu_wf(old(self)@),
            addr < 160,
        ensures
            final(self)@ == (GpuV {
                sprite: old(self)@.sprite.update(
                    addr as int / 4,
                    sprite_field_s(
                        old(self)@.sprite[addr as int / 4],
                        addr as int % 4,
                        old(self)@.oam[addr as int],
                    ),
                ),
                ..old(self)@
            }),
    {
        let sprite_idx = addr / 4;
        let value = self.oam[addr];
        let mut s = self.sprite[sprite_idx];
        match addr % 4 {
            0 => s.y = value as i16 - 16,
            1 => s.x = value as i16 - 8,
            2 => s.tile_idx = value,
            _ => {
                s.priority = (value >> 7u8) & 1 != 0;
                s.flip_y = (value >> 6u8) & 1 != 0;
                s.flip_x = (value >> 5u8) & 1 != 0;
                s.palette_number = (value >> 4u8) & 1 != 0;
            },
        }
        self.sprite.set(sprite_idx, s);
        proof {
            assert(self@ =~= GpuV {
                sprite: old(self)@.sprite.update(
                    addr as int / 4,
                    sprite_field_s(
                        old(self)@.sprite[addr as int / 4],
                        addr as int % 4,
                        old(self)@.oam[addr as int],
                    ),
                ),
                ..old(self)@
            });
        }
    }
}

/// A zero-filled byte vector of the given length.
fn byte_vec(size: usize) -> (r: Vec<u8>)
    ensures
        r@ == Seq::new(size as nat, |i: int| 0u8),
{
    let mut v: Vec<u8> = Vec::new();
    while v.len() < size
        invariant
            v@.len() <= size,
            v@ == Seq::new(v@.len(), |i: int| 0u8),
        decreases size - v.len(),
    {
        v.push(0);
        proof {
            assert(v@ =~= Seq::new(v@.len(), |i: int| 0u8));
        }
    }
    v
}


/// The VRAM offset of the selected background tile map.
pub open spec fn bg_tile_base(l: LCDC) -> int {
    if l.bg_tile_map_select {
        0x1c00
    } else {
        0x1800
    }
}

/// The raw 2-bit background index at screen pixel (row, col): the virtual
/// coordinates wrap at 256, the selected tile map names the tile, and the
/// tile row supplies the pixel. Horizontal scroll is applied per
/// eight-pixel block.
pub open spec fn bg_index_s(g: GpuV, row: int, col: int) -> u8 {
    let vrow = (row + g.scy) % 256;
    let vcol = ((col / 8) * 8 + g.scx) % 256;
    let tile_idx = g.vram[bg_tile_base(g.lcdc) + (vrow / 8) * 32 + vcol / 8];
    tile_line_s(g.vram, tile_idx as int, vrow % 8)[col % 8]
}

/// The background index at flat frame-buffer position `i`.
pub open spec fn bg_index_flat(g: GpuV, i: int) -> u8 {
    bg_index_s(g, i / 160, i % 160)
}

/// The ARGB background color at flat frame-buffer position `i`.
pub open spec fn bg_color_flat(g: GpuV, i: int) -> u32 {
    color_s(palette_map_s(g.bg_palette, bg_index_flat(g, i)))
}

/// The whole background shadow buffer.
pub open spec fn bg_unmapped_s(g: GpuV) -> Seq<u8> {
    Seq::new((WIDTH * HEIGHT) as nat, |i: int| bg_index_flat(g, i))
}

/// The frame buffer with the background painted over it.
pub open spec fn bg_buffer_s(g: GpuV, buf: Seq<u32>) -> Seq<u32> {
    Seq::new(buf.len(), |i: int| if 0 <= i < WIDTH * HEIGHT {
        bg_color_flat(g, i)
    } else {
        buf[i]
    })
}

/// Sprite height in pixels, from the LCDC size bit.
pub open spec fn sprite_height(l: LCDC) -> int {
    if l.obj_size {
        16
    } else {
        8
    }
}

/// Whether any part of a sprite's box can reach the screen; sprites
/// entirely off-screen are skipped whole.
pub open spec fn sprite_visible(g: GpuV, s: Sprite) -> bool {
    !(s.y + sprite_height(g.lcdc) <= 0 || s.x + 8 <= 0 || s.x >= WIDTH || s.y >= HEIGHT)
}

/// The object palette a sprite selects.
pub open spec fn sprite_palette(g: GpuV, s: Sprite) -> u8 {
    if s.palette_number {
        g.ob1_palette
    } else {
        g.ob0_palette
    }
}

/// The mapped 2-bit shade of a sprite at screen pixel (row, col), honoring
/// the flip bits; 0 is transparent. A double-height sprite spans two
/// consecutive tiles: its tile index is taken with bit 0 masked off, and
/// rows 8..=15 read the second tile of the pair.
pub open spec fn sprite_dibit(g: GpuV, s: Sprite, row: int, col: int) -> u8 {
    let h = sprite_height(g.lcdc);
    let ry = if s.flip_y {
        h - 1 - (row - s.y)
    } else {
        row - s.y
    };
    let tile = if h == 16 {
        (s.tile_idx / 2) * 2 + (if ry >= 8 {
            1int
        } else {
            0int
        })
    } else {
        s.tile_idx as int
    };
    let x_idx = if s.flip_x {
        7 - (col - s.x)
    } else {
        col - s.x
    };
    palette_map_s(sprite_palette(g, s), tile_line_s(g.vram, tile, ry % 8)[x_idx])
}

/// Whether a sprite writes screen pixel (row, col): the pixel lies in the
/// sprite's rows (8 or 16 of them) and eight columns, its shade is not
/// transparent, and a priority sprite yields to a non-zero background
/// index.
pub open spec fn sprite_paints(g: GpuV, s: Sprite, row: int, col: int) -> bool {
    &&& sprite_visible(g, s)
    &&& s.y <= row < s.y + sprite_height(g.lcdc)
    &&& s.x <= col < s.x + 8
    &&& sprite_dibit(g, s, row, col) != 0
    &&& !(s.priority && g.unmapped_bg[row * 160 + col] != 0)
}

/// The frame buffer after one sprite has painted its pixels.
pub open spec fn paint_sprite_s(g: GpuV, s: Sprite, buf: Seq<u32>) -> Seq<u32> {
    Seq::new(buf.len(), |i: int| if 0 <= i < WIDTH * HEIGHT && sprite_paints(g, s, i / 160, i % 160) {
        color_s(sprite_dibit(g, s, i / 160, i % 160))
    } else {
        buf[i]
    })
}

/// The frame buffer after the first `n` sprite records have painted, in
/// OAM order, which is the draw order: a later record overwrites an
/// earlier one.
pub open spec fn sprites_pass_s(g: GpuV, buf: Seq<u32>, n: nat) -> Seq<u32>
    decreases n,
{
    if n == 0 {
        buf
    } else {
        paint_sprite_s(g, g.sprite[n - 1], sprites_pass_s(g, buf, (n - 1) as nat))
    }
}

/// The frame buffer after one sprite has painted only its rows before
/// `rows`, plus the columns before `cols` of row `rows` (rows and columns
/// counted inside the sprite).
pub open spec fn paint_upto_s(g: GpuV, s: Sprite, buf: Seq<u32>, rows: int, cols: int) -> Seq<
    u32,
> {
    Seq::new(buf.len(), |i: int| if 0 <= i < WIDTH * HEIGHT && sprite_paints(g, s, i / 160, i % 160)
        && (i / 160 - s.y < rows || (i / 160 - s.y == rows && i % 160 - s.x < cols)) {
        color_s(sprite_dibit(g, s, i / 160, i % 160))
    } else {
        buf[i]
    })
}

/// The whole-screen compositor's result: with the background enabled the
/// frame buffer and shadow buffer hold the background, otherwise the
/// shadow buffer is cleared and the frame buffer is left; with sprites
/// enabled all forty records then paint over it in order.
pub open spec fn screen_s(g: GpuV, buf: Seq<u32>) -> (GpuV, Seq<u32>) {
    let gb = if g.lcdc.bg_display {
        GpuV { unmapped_bg: bg_unmapped_s(g), ..g }
    } else {
        GpuV { unmapped_bg: Seq::new((WIDTH * HEIGHT) as nat, |i: int| 0u8), ..g }
    };
    let bb = if g.lcdc.bg_display {
        bg_buffer_s(g, buf)
    } else {
        buf
    };
    if g.lcdc.obj_display {
        (gb, sprites_pass_s(gb, bb, 40))
    } else {
        (gb, bb)
    }
}

/// A flat frame-buffer position decomposes uniquely into a row and a
/// column.
proof fn lemma_rc_flat(r: int, c: int)
    requires
        0 <= r,
        0 <= c < 160,
    ensures
        (r * 160 + c) / 160 == r,
        (r * 160 + c) % 160 == c,
{
    vstd::arithmetic::div_mod::lemma_fundamental_div_mod_converse(r * 160 + c, 160, r, c);
}

impl Gpu {
    /// Paints the background into the frame buffer and records the raw
    /// 2-bit indices in the shadow buffer, pixel for pixel as
    /// `bg_buffer_s` and `bg_unmapped_s` describe.
    #[verifier::rlimit(100)]
    pub fn build_background(&mut self, buffer: &mut Vec<u32>)
        requires
            gpu_wf(old(self)@),
            old(buffer)@.len() == WIDTH * HEIGHT,
        ensures
            gpu_wf(final(self)@),
            final(self)@ == (GpuV { unmapped_bg: bg_unmapped_s(old(self)@), ..old(self)@ }),
            final(buffer)@ == bg_buffer_s(old(self)@, old(buffer)@),
    {
        let ghost g0 = self@;
        let ghost buf0 = buffer@;
        let tile_base: usize = if self.lcdc.bg_tile_map_select {
            0x1c00
        } else {
            0x1800
        };
        let mut row: usize = 0;
        while row < HEIGHT
            invariant
                gpu_wf(self@),
                row <= HEIGHT,
                tile_base == bg_tile_base(g0.lcdc),
                self@ == (GpuV { unmapped_bg: self@.unmapped_bg, ..g0 }),
                self@.unmapped_bg.len() == WIDTH * HEIGHT,
                buffer@.len() == WIDTH * HEIGHT,
                buf0.len() == WIDTH * HEIGHT,
                forall|i: int|
                    0 <= i < row * 160 ==> buffer@[i] == bg_color_flat(g0, i)
                        && self@.unmapped_bg[i] == bg_index_flat(g0, i),
            decreases HEIGHT - row,
        {
            let vrow = (row + self.scy as usize) % 256;
            let tile_row = vrow / 8;
            let line_idx = vrow % 8;
            let mut colb: usize = 0;
            while colb < 20
                invariant
                    gpu_wf(self@),
                    row < HEIGHT,
                    colb <= 20,
                    vrow == (row + g0.scy) % 256,
                    tile_row == vrow / 8,
                    line_idx == vrow % 8,
                    tile_base == bg_tile_base(g0.lcdc),
                    self@ == (GpuV { unmapped_bg: self@.unmapped_bg, ..g0 }),
                    self@.unmapped_bg.len() == WIDTH * HEIGHT,
                    buffer@.len() == WIDTH * HEIGHT,
                    buf0.len() == WIDTH * HEIGHT,
                    forall|i: int|
                        0 <= i < row * 160 + colb * 8 ==> buffer@[i] == bg_color_flat(g0, i)
                            && self@.unmapped_bg[i] == bg_index_flat(g0, i),
                decreases 20 - colb,
            {
                let vcol = (colb * 8 + self.scx as usize) % 256;
                let tile_col = vcol / 8;
                let tile_addr = tile_base + tile_row * 32 + tile_col;
                let tile_idx = self.vram[tile_addr] as usize;
                let pixels = self.get_tile_line(tile_idx, line_idx);
                let mut k: usize = 0;
                while k < 8
                    invariant
                        gpu_wf(self@),
                        row < HEIGHT,
                        colb < 20,
                        k <= 8,
                        vrow == (row + g0.scy) % 256,
                        tile_row == vrow / 8,
                        line_idx == vrow % 8,
                        vcol == (colb * 8 + g0.scx) % 256,
                        tile_col == vcol / 8,
                        tile_base == bg_tile_base(g0.lcdc),
                        tile_idx == g0.vram[bg_tile_base(g0.lcdc) + (vrow / 8) * 32 + vcol / 8],
                        pixels@ == tile_line_s(g0.vram, tile_idx as int, line_idx as int),
                        pixels@.len() == 8,
                        forall|i: int| 0 <= i < 8 ==> pixels@[i] < 4,
                        self@ == (GpuV { unmapped_bg: self@.unmapped_bg, ..g0 }),
                        self@.unmapped_bg.len() == WIDTH * HEIGHT,
                        buffer@.len() == WIDTH * HEIGHT,
                        buf0.len() == WIDTH * HEIGHT,
                        forall|i: int|
                            0 <= i < row * 160 + colb * 8 + k ==> buffer@[i] == bg_color_flat(
                                g0,
                                i,
                            ) && self@.unmapped_bg[i] == bg_index_flat(g0, i),
                    decreases 8 - k,
                {
                    let px = pixels[k];
                    let mapped = self.pixel_map_by_palette(self.bg_palette, px);
                    let color = self.pixel_to_color(mapped);
                    let idx = row * 160 + colb * 8 + k;
                    self.unmapped_bg.set(idx, px);
                    buffer.set(idx, color);
                    proof {
                        let c = colb * 8 + k;
                        lemma_rc_flat(row as int, c as int);
                        vstd::arithmetic::div_mod::lemma_fundamental_div_mod_converse(
                            c as int,
                            8,
                            colb as int,
                            k as int,
                        );
                        assert(bg_index_s(g0, row as int, c as int) == pixels@[k as int]);
                    }
                    k = k + 1;
                }
                colb = colb + 1;
            }
            row = row + 1;
        }
        proof {
            assert(final(buffer)@ =~= bg_buffer_s(g0, buf0));
            assert(self@.unmapped_bg =~= bg_unmapped_s(g0));
            assert(self@ =~= (GpuV { unmapped_bg: bg_unmapped_s(g0), ..g0 }));
        }
    }
}


/// A sprite pass keeps the frame buffer's length.
pub proof fn lemma_sprites_pass_len(g: GpuV, buf: Seq<u32>, n: nat)
    ensures
        sprites_pass_s(g, buf, n).len() == buf.len(),
    decreases n,
{
    if n > 0 {
        lemma_sprites_pass_len(g, buf, (n - 1) as nat);
    }
}

/// A flat frame-buffer position sits in one row and one column.
proof fn lemma_flat_bounds(i: int)
    requires
        0 <= i < 23040,
    ensures
        i == 160 * (i / 160) + i % 160,
        0 <= i % 160 < 160,
        0 <= i / 160 < 144,
{
    vstd::arithmetic::div_mod::lemma_fundamental_div_mod(i, 160);
    vstd::arithmetic::div_mod::lemma_mod_bound(i, 160);
}

impl Gpu {
    /// Paints the forty sprite records over the frame buffer in OAM
    /// order, as `sprites_pass_s` describes: within a sprite's rows and
    /// eight columns, a non-transparent pixel is written unless the
    /// sprite defers to a non-zero background index.
    #[verifier::rlimit(100)]
    pub fn build_sprite(&self, buffer: &mut Vec<u32>)
        requires
            gpu_wf(self@),
            old(buffer)@.len() == WIDTH * HEIGHT,
        ensures
            final(buffer)@ == sprites_pass_s(self@, old(buffer)@, 40),
    {
        let ghost g = self@;
        let ghost buf0 = buffer@;
        let mut si: usize = 0;
        while si < 40
            invariant
                gpu_wf(self@),
                g == self@,
                si <= 40,
                buf0.len() == WIDTH * HEIGHT,
                buffer@.len() == WIDTH * HEIGHT,
                buffer@ == sprites_pass_s(g, buf0, si as nat),
            decreases 40 - si,
        {
            let s = self.sprite[si];
            let ghost base = buffer@;
            let hu: usize = if self.lcdc.obj_size {
                16
            } else {
                8
            };
            let ys = s.y as i32;
            let xs = s.x as i32;
            if ys + hu as i32 <= 0 || xs + 8 <= 0 || xs >= 160 || ys >= 144 {
                proof {
                    assert forall|i: int| 0 <= i < base.len() implies paint_sprite_s(g, s, base)[i]
                        == base[i] by {}
                    assert(buffer@ =~= paint_sprite_s(g, s, base));
                }
            } else {
                let pal = if s.palette_number {
                    self.ob1_palette
                } else {
                    self.ob0_palette
                };
                let mut row: usize = 0;
                proof {
                    assert forall|i: int| 0 <= i < base.len() implies paint_upto_s(
                        g,
                        s,
                        base,
                        0,
                        0,
                    )[i] == base[i] by {
                        if 0 <= i < 23040 {
                            lemma_flat_bounds(i);
                        }
                    }
                    assert(buffer@ =~= paint_upto_s(g, s, base, 0, 0));
                }
                while row < hu
                    invariant
                        gpu_wf(self@),
                        g == self@,
                        hu == sprite_height(g.lcdc),
                        row <= hu,
                        si < 40,
                        s == g.sprite[si as int],
                        sprite_visible(g, s),
                        pal == sprite_palette(g, s),
                        ys == s.y as int,
                        xs == s.x as int,
                        buf0.len() == WIDTH * HEIGHT,
                        base.len() == WIDTH * HEIGHT,
                        buffer@ == paint_upto_s(g, s, base, row as int, 0),
                    decreases hu - row,
                {
                    let y = ys + row as i32;
                    if y < 0 || y >= 144 {
                        proof {
                            assert forall|i: int| 0 <= i < base.len() implies paint_upto_s(
                                g,
                                s,
                                base,
                                row + 1,
                                0,
                            )[i] == paint_upto_s(g, s, base, row as int, 0)[i] by {
                                if 0 <= i < 23040 {
                                    lemma_flat_bounds(i);
                                }
                            }
                            assert(buffer@ =~= paint_upto_s(g, s, base, row + 1, 0));
                        }
                    } else {
                        let ry: usize = if s.flip_y {
                            hu - 1 - row
                        } else {
                            row
                        };
                        let tile: usize = if hu == 16 {
                            (s.tile_idx as usize / 2) * 2 + (if ry >= 8 {
                                1
                            } else {
                                0
                            })
                        } else {
                            s.tile_idx as usize
                        };
                        let pixels = self.get_tile_line(tile, ry % 8);
                        let mut col: usize = 0;
                        while col < 8
                            invariant
                                gpu_wf(self@),
                                g == self@,
                                hu == sprite_height(g.lcdc),
                                row < hu,
                                col <= 8,
                                si < 40,
                                s == g.sprite[si as int],
                                sprite_visible(g, s),
                                pal == sprite_palette(g, s),
                                ys == s.y as int,
                                xs == s.x as int,
                                y == s.y + row,
                                0 <= y < 144,
                                ry == (if s.flip_y {
                                    hu - 1 - (row as int)
                                } else {
                                    row as int
                                }),
                                tile as int == (if hu == 16 {
                                    (s.tile_idx / 2) * 2 + (if ry >= 8 {
                                        1int
                                    } else {
                                        0int
                                    })
                                } else {
                                    s.tile_idx as int
                                }),
                                pixels@ == tile_line_s(g.vram, tile as int, ry as int % 8),
                                pixels@.len() == 8,
                                forall|i: int| 0 <= i < 8 ==> pixels@[i] < 4,
                                buf0.len() == WIDTH * HEIGHT,
                                base.len() == WIDTH * HEIGHT,
                                buffer@ == paint_upto_s(g, s, base, row as int, col as int),
                            decreases 8 - col,
                        {
                            let x = xs + col as i32;
                            let mut skip = false;
                            if x < 0 || x >= 160 {
                                skip = true;
                                proof {
                                    assert forall|i: int| 0 <= i < base.len() implies paint_upto_s(
                                        g,
                                        s,
                                        base,
                                        row as int,
                                        col + 1,
                                    )[i] == paint_upto_s(g, s, base, row as int, col as int)[i] by {
                                        if 0 <= i < 23040 {
                                            lemma_flat_bounds(i);
                                        }
                                    }
                                    assert(buffer@ =~= paint_upto_s(
                                        g,
                                        s,
                                        base,
                                        row as int,
                                        col + 1,
                                    ));
                                }
                            } else {
                                let idx = (y as usize) * 160 + (x as usize);
                                proof {
                                    lemma_rc_flat(y as int, x as int);
                                }
                                let x_idx: usize = if s.flip_x {
                                    7 - col
                                } else {
                                    col
                                };
                                let dibit = self.pixel_map_by_palette(pal, pixels[x_idx]);
                                let blocked = s.priority && self.unmapped_bg[idx] != 0;
                                if dibit == 0 || blocked {
                                    skip = true;
                                    proof {
                                        assert(!sprite_paints(g, s, y as int, x as int));
                                        assert forall|i: int|
                                            0 <= i < base.len() implies paint_upto_s(
                                            g,
                                            s,
                                            base,
                                            row as int,
                                            col + 1,
                                        )[i] == paint_upto_s(g, s, base, row as int, col as int)[i]
                                            by {
                                            if 0 <= i < 23040 {
                                                lemma_flat_bounds(i);
                                            }
                                        }
                                        assert(buffer@ =~= paint_upto_s(
                                            g,
                                            s,
                                            base,
                                            row as int,
                                            col + 1,
                                        ));
                                    }
                                } else {
                                    let color = self.pixel_to_color(dibit);
                                    let ghost before = buffer@;
                                    buffer.set(idx, color);
                                    proof {
                                        assert(sprite_paints(g, s, y as int, x as int));
                                        assert(color == color_s(
                                            sprite_dibit(g, s, y as int, x as int),
                                        ));
                                        assert forall|i: int|
                                            0 <= i < base.len() implies paint_upto_s(
                                            g,
                                            s,
                                            base,
                                            row as int,
                                            col + 1,
                                        )[i] == before.update(idx as int, color)[i] by {
                                            if 0 <= i < 23040 {
                                                lemma_flat_bounds(i);
                                            }
                                        }
                                        assert(buffer@ =~= paint_upto_s(
                                            g,
                                            s,
                                            base,
                                            row as int,
                                            col + 1,
                                        ));
                                    }
                                }
                            }
                            col = col + 1;
                        }
                        proof {
                            assert forall|i: int| 0 <= i < base.len() implies paint_upto_s(
                                g,
                                s,
                                base,
                                row + 1,
                                0,
                            )[i] == paint_upto_s(g, s, base, row as int, 8)[i] by {
                                if 0 <= i < 23040 {
                                    lemma_flat_bounds(i);
                                }
                            }
                            assert(buffer@ =~= paint_upto_s(g, s, base, row + 1, 0));
                        }
                    }
                    row = row + 1;
                }
                proof {
                    assert forall|i: int| 0 <= i < base.len() implies paint_sprite_s(g, s, base)[i]
                        == paint_upto_s(g, s, base, hu as int, 0)[i] by {
                        if 0 <= i < 23040 {
                            lemma_flat_bounds(i);
                        }
                    }
                    assert(buffer@ =~= paint_sprite_s(g, s, base));
                }
            }
            si = si + 1;
        }
    }

    /// Composites one whole frame, as `screen_s` describes: the
    /// background pass (or a cleared shadow buffer when the background is
    /// off), then the sprite pass when sprites are on.
    pub fn build_screen(&mut self, buffer: &mut Vec<u32>)
        requires
            gpu_wf(old(self)@),
            old(buffer)@.len() == WIDTH * HEIGHT,
        ensures
            gpu_wf(final(self)@),
            (final(self)@, final(buffer)@) == screen_s(old(self)@, old(buffer)@),
    {
        if self.lcdc.bg_display {
            self.build_background(buffer);
        } else {
            self.unmapped_bg = byte_vec(WIDTH * HEIGHT);
        }
        if self.lcdc.obj_display {
            self.build_sprite(buffer);
        }
        proof {
            assert(self@ =~= screen_s(old(self)@, old(buffer)@).0);
            assert(buffer@ =~= screen_s(old(self)@, old(buffer)@).1);
        }
    }
}

} // verus!
