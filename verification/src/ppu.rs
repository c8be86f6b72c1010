use vstd::prelude::*;
use crate::constants::{INT_VBLANK, LCDC_TILE_SIZE, LCDC_TILE_BG_DATA, LCDC_WIN_ON,
    SPRITE_PRIORITY, SPRITE_Y_FLIP, SPRITE_X_FLIP};
use crate::state::{GameState, StateView};

verus! {

/// One sprite descriptor from the object attribute table.
#[derive(Copy, Clone, Debug, PartialEq, Eq, Structural)]
pub struct OamEntry {
    pub y_pos: u8,
    pub x_pos: u8,
    pub tile_index: u8,
    pub attrs: u8,
}

/// The mathematical model of the video pipeline: the dot accumulator, the
/// per-line active-sprite buffer and the frame buffer.
#[verifier::ext_equal]
pub struct PpuView {
    pub dots: u128,
    pub sprites: Seq<Option<OamEntry>>,
    pub fb: Seq<u32>,
}

impl PpuView {
    pub open spec fn wf(self) -> bool {
        &&& self.sprites.len() == 10
        &&& self.fb.len() == 144 * 160
    }
}

/// The fixed four-entry palette from 2-bit color indices to display colors;
/// indices outside it map to a sentinel color.
pub open spec fn color_u32(code: u8) -> u32 {
    if code == 0 {
        0xFFFFFFFF
    } else if code == 1 {
        0xFF9BB7FF
    } else if code == 2 {
        0xFF4863A0
    } else if code == 3 {
        0xFF0A0A40
    } else {
        0xFFFF00FF
    }
}

pub fn gb_color_to_u32(code: u8) -> (color: u32)
    ensures
        color == color_u32(code),
{
    match code {
        0b00 => 0xFFFFFFFF,
        0b01 => 0xFF9BB7FF,
        0b10 => 0xFF4863A0,
        0b11 => 0xFF0A0A40,
        _ => 0xFFFF00FF,
    }
}

/// The height of sprites minus one, chosen by the LCD-control sprite-size bit.
pub open spec fn sprite_height(lcdc: u8) -> u8 {
    if lcdc & LCDC_TILE_SIZE == 0 {
        7
    } else {
        15
    }
}

/// The 2-bit color index at an in-tile coordinate of a tile pattern. A
/// LCD-control bit chooses the background addressing mode: signed (clear),
/// where the tile index is a two's-complement offset from 0x9000, or
/// unsigned (set) from 0x8000; sprites always use the unsigned mode.
pub open spec fn tile_pixel(v: StateView, lcdc: u8, tile_index: u8, x_tile: u8, y_tile: u8, sprite: bool) -> u8 {
    let tile_addr: u16 = if lcdc & LCDC_TILE_BG_DATA == 0 && !sprite {
        if tile_index <= 127 {
            (0x9000 + tile_index * 16) as u16
        } else {
            (0x8800 + (tile_index - 128) * 16) as u16
        }
    } else {
        (0x8000 + tile_index * 16) as u16
    };
    let tile_row = v.tile_row(tile_addr, y_tile as int);
    let upper_byte: u16 = (tile_row & 0xFF00) >> 8;
    let lower_byte: u16 = tile_row & 0x00FF;
    let upper_bit: u16 = (upper_byte >> ((7 - x_tile) as u16)) & 1;
    let lower_bit: u16 = (lower_byte >> ((7 - x_tile) as u16)) & 1;
    ((upper_bit << 1) | lower_bit) as u8
}

fn get_tile_pixel(lcdc: u8, tile_index: u8, x_tile: u8, y_tile: u8, game_state: &mut GameState, sprite: bool) -> (pix: u8)
    requires
        old(game_state).wf(),
        x_tile <= 7,
        y_tile <= 7,
    ensures
        *final(game_state) == *old(game_state),
        pix == tile_pixel(old(game_state)@, lcdc, tile_index, x_tile, y_tile, sprite),
{
    let tile_addr: u16;
    if lcdc & LCDC_TILE_BG_DATA == 0 && !sprite {
        if tile_index <= 127 {
            tile_addr = 0x9000 + (tile_index as u16) * 16;
        } else {
            tile_addr = 0x8800 + ((tile_index - 128) as u16) * 16;
        }
    } else {
        tile_addr = 0x8000 + (tile_index as u16) * 16;
    }
    let tile = game_state.get_tile_from_addr(tile_addr);
    let tile_row: u16 = tile[y_tile as usize];
    let upper_byte: u16 = (tile_row & 0xFF00) >> 8;
    let lower_byte: u16 = tile_row & 0x00FF;
    let upper_bit: u16 = (upper_byte >> ((7 - x_tile) as u16)) & 1;
    let lower_bit: u16 = (lower_byte >> ((7 - x_tile) as u16)) & 1;
    proof {
        let u = upper_bit;
        let l = lower_bit;
        assert((u << 1) | l <= 3) by (bit_vector)
            requires
                u == (upper_byte >> ((7 - x_tile) as u16)) & 1,
                l == (lower_byte >> ((7 - x_tile) as u16)) & 1,
        ;
    }
    ((upper_bit << 1) | lower_bit) as u8
}

/// The background or window color index at screen column `x` of the current
/// line: the window wins when it is enabled and covers the position,
/// otherwise the scroll-adjusted background tile is sampled.
pub open spec fn bgwin_pixel(v: StateView, x: u8) -> u8 {
    if v.lcdc & LCDC_WIN_ON != 0 && v.ly >= v.wy && x >= v.wx.wrapping_sub(7) {
        let win_x = x.wrapping_sub(v.wx).wrapping_add(7);
        let win_y = (v.ly - v.wy) as u8;
        let t_x = win_x / 8;
        let t_y = win_y / 8;
        let x_tile = win_x % 8;
        let y_tile = win_y % 8;
        let i_in_tmap = (t_y * 32 + t_x) as u16;
        tile_pixel(v, v.lcdc, v.tile_index_at(i_in_tmap), x_tile, y_tile, false)
    } else {
        let bg_x = ((v.scx + x) % 256) as u16;
        let bg_y = ((v.scy + v.ly) % 256) as u16;
        let t_x = bg_x / 8;
        let t_y = bg_y / 8;
        let i_in_tmap = (t_y * 32 + t_x) as u16;
        tile_pixel(v, v.lcdc, v.tile_index_at(i_in_tmap), (bg_x % 8) as u8, (bg_y % 8) as u8, false)
    }
}

fn bgwin_exec(game_state: &mut GameState, x: u8) -> (pix: u8)
    requires
        old(game_state).wf(),
    ensures
        *final(game_state) == *old(game_state),
        pix == bgwin_pixel(old(game_state)@, x),
{
    let ly = game_state.get_ly();
    let scx = game_state.get_scx();
    let scy = game_state.get_scy();
    let wx = game_state.get_wx();
    let wy = game_state.get_wy();
    let lcdc = game_state.get_lcdc();
    if lcdc & LCDC_WIN_ON != 0 && ly >= wy && x >= wx.wrapping_sub(7) {
        let win_x = x.wrapping_sub(wx).wrapping_add(7);
        let win_y = ly - wy;
        let t_x = win_x / 8;
        let t_y = win_y / 8;
        let x_tile = win_x % 8;
        let y_tile = win_y % 8;
        let i_in_tmap: u16 = (t_y as u16) * 32 + (t_x as u16);
        let tile_index = game_state.get_tile_index(i_in_tmap);
        get_tile_pixel(lcdc, tile_index, x_tile, y_tile, game_state, false)
    } else {
        let bg_x: u16 = ((scx as u16) + (x as u16)) % 256;
        let bg_y: u16 = ((scy as u16) + (ly as u16)) % 256;
        let t_x: u16 = bg_x / 8;
        let t_y: u16 = bg_y / 8;
        let i_in_tmap: u16 = t_y * 32 + t_x;
        let tile_index = game_state.get_tile_index(i_in_tmap);
        get_tile_pixel(lcdc, tile_index, (bg_x % 8) as u8, (bg_y % 8) as u8, game_state, false)
    }
}

/// With the window disabled and no scrolling, the pixel at column `x` of the
/// top line depends only on the tile-map byte at map index `x / 8` and the
/// tile pattern it selects, sampled at row 0, column `x % 8`.
pub proof fn lemma_scanline_origin(v: StateView, x: u8)
    requires
        v.lcdc & LCDC_WIN_ON == 0,
        v.ly == 0,
        v.scx == 0,
        v.scy == 0,
        x < 160,
    ensures
        bgwin_pixel(v, x) == tile_pixel(
            v,
            v.lcdc,
            v.tile_index_at((x / 8) as u16),
            (x % 8) as u8,
            0,
            false,
        ),
{
}

/// Whether a selected sprite covers screen column `x` on the current line.
pub open spec fn sprite_in_range(v: StateView, e: OamEntry, x: u8) -> bool {
    let h = sprite_height(v.lcdc);
    let top = e.y_pos.wrapping_sub(16);
    let left = e.x_pos.wrapping_sub(8);
    &&& top <= v.ly
    &&& v.ly <= top.wrapping_add(h)
    &&& left <= x
    &&& x <= left.wrapping_add(7)
}

/// The color index a covering sprite contributes at screen column `x`, with
/// the flip attribute bits inverting the in-tile coordinates and tall sprites
/// selecting their lower tile for rows 8 and up.
pub open spec fn sprite_pixel_at(v: StateView, e: OamEntry, x: u8) -> u8 {
    let h = sprite_height(v.lcdc);
    let top = e.y_pos.wrapping_sub(16);
    let left = e.x_pos.wrapping_sub(8);
    let v_offset: u8 = if e.attrs & SPRITE_Y_FLIP != 0 {
        (h - (v.ly - top)) as u8
    } else {
        (v.ly - top) as u8
    };
    let h_offset: u8 = if e.attrs & SPRITE_X_FLIP != 0 {
        (7 - (x - left)) as u8
    } else {
        (x - left) as u8
    };
    let tile_index: u8 = if h == 7 {
        e.tile_index
    } else {
        ((e.tile_index & 0xFE) + (if v_offset >= 8 {
            1u8
        } else {
            0u8
        })) as u8
    };
    tile_pixel(v, v.lcdc, tile_index, h_offset, v_offset % 8, true)
}

/// The color index at column `x` after laying the active sprites over the
/// background/window pixel: the first listed sprite with a non-transparent
/// pixel at the column decides, showing over the base unless its priority
/// bit defers to a non-transparent base.
pub open spec fn overlay(v: StateView, sprites: Seq<Option<OamEntry>>, i: int, x: u8, base: u8) -> u8
    decreases 10 - i,
{
    if i >= 10 || i < 0 {
        base
    } else {
        match sprites[i] {
            Option::Some(e) => {
                if sprite_in_range(v, e, x) && sprite_pixel_at(v, e, x) != 0 {
                    if e.attrs & SPRITE_PRIORITY == 0 {
                        sprite_pixel_at(v, e, x)
                    } else if base == 0 {
                        sprite_pixel_at(v, e, x)
                    } else {
                        base
                    }
                } else {
                    overlay(v, sprites, i + 1, x, base)
                }
            }
            Option::None => overlay(v, sprites, i + 1, x, base),
        }
    }
}

/// The final color index of screen column `x` on the current line.
pub open spec fn scanline_pixel(v: StateView, sprites: Seq<Option<OamEntry>>, x: u8) -> u8 {
    overlay(v, sprites, 0, x, bgwin_pixel(v, x))
}

/// Whether object attribute entry `i` is selected for the current line:
/// not positioned fully off-screen, and its vertical extent covers the line.
pub open spec fn sprite_hit(v: StateView, i: int) -> bool {
    let y = v.oam[4 * i];
    let h = sprite_height(v.lcdc);
    if (y <= 8 && y + h < 16) || y >= 160 {
        false
    } else {
        let y_min = y.wrapping_sub(16);
        let y_max = y_min.wrapping_add(h);
        y_min <= v.ly && v.ly <= y_max
    }
}

pub open spec fn oam_entry_at(v: StateView, i: int) -> OamEntry {
    OamEntry {
        y_pos: v.oam[4 * i],
        x_pos: v.oam[4 * i + 1],
        tile_index: v.oam[4 * i + 2],
        attrs: v.oam[4 * i + 3],
    }
}

/// The sprites selected among the first `n` object attribute entries, in
/// table order, capped at ten.
pub open spec fn scan_upto(v: StateView, n: int) -> Seq<OamEntry>
    decreases n,
{
    if n <= 0 {
        Seq::empty()
    } else {
        let pre = scan_upto(v, n - 1);
        if pre.len() >= 10 {
            pre
        } else if sprite_hit(v, n - 1) {
            pre.push(oam_entry_at(v, n - 1))
        } else {
            pre
        }
    }
}

proof fn lemma_scan_upto_len(v: StateView, n: int)
    ensures
        scan_upto(v, n).len() <= 10,
    decreases n,
{
    if n > 0 {
        lemma_scan_upto_len(v, n - 1);
    }
}

/// The active-sprite buffer after a scan: the selected sprites in order,
/// remaining slots untouched.
pub open spec fn scanned_sprites(v: StateView, prev: Seq<Option<OamEntry>>) -> Seq<Option<OamEntry>> {
    let sel = scan_upto(v, 40);
    Seq::new(10, |i: int| if i < sel.len() {
        Option::Some(sel[i])
    } else {
        prev[i]
    })
}

/// The video pipeline: the dot accumulator, the per-line active-sprite
/// buffer, and the 160×144 frame buffer of resolved display colors.
pub struct PPU {
    pub dot_counter: u128,
    pub active_sprites: Vec<Option<OamEntry>>,
    pub current_fb: Vec<u32>,
}

impl View for PPU {
    type V = PpuView;

    open spec fn view(&self) -> PpuView {
        PpuView { dots: self.dot_counter, sprites: self.active_sprites@, fb: self.current_fb@ }
    }
}

/// The pipeline after rendering the current line: sprites scanned, the
/// line's row of the frame buffer recomputed, everything else kept.
pub open spec fn render_line(p: PpuView, v: StateView) -> PpuView {
    let sprites2 = scanned_sprites(v, p.sprites);
    let off = v.ly * 160;
    let fb2 = Seq::new(144 * 160, |j: int| if off <= j < off + 160 {
        color_u32(scanline_pixel(v, sprites2, (j - off) as u8))
    } else {
        p.fb[j]
    });
    PpuView { sprites: sprites2, fb: fb2, ..p }
}

/// The drain loop of the video pipeline: while a full 456-dot scanline
/// period has accumulated, consume it; render the line if it is visible;
/// advance LY (wrapping at 154) and clear the active-sprite buffer; and at
/// the transition into line 144 raise the vertical-blank interrupt flag and
/// stop, reporting the frame ready.
pub open spec fn ppu_step_rec(p: PpuView, v: StateView) -> (PpuView, StateView, bool)
    decreases p.dots,
{
    if p.dots < 456 {
        (p, v, false)
    } else {
        let p1 = PpuView { dots: (p.dots - 456) as u128, ..p };
        let ly = v.ly;
        let rendered = if ly < 144 {
            render_line(p1, v)
        } else {
            p1
        };
        let v1 = StateView { ly: ((ly + 1) % 154) as u8, ..v };
        let p2 = PpuView { sprites: Seq::new(10, |i: int| Option::None::<OamEntry>), ..rendered };
        if ly + 1 == 144 {
            let v2 = v1.write8(v1.i_flag | INT_VBLANK, 0xFF0F);
            (p2, v2, true)
        } else if ly + 1 > 153 {
            ppu_step_rec(p2, StateView { ly: 0, ..v1 })
        } else {
            ppu_step_rec(p2, v1)
        }
    }
}

impl PPU {
    pub open spec fn wf(&self) -> bool {
        self@.wf()
    }

    /// The pipeline at power-on: no accumulated dots, no active sprites, a
    /// zeroed frame buffer.
    pub fn initialize() -> (ppu: PPU)
        ensures
            ppu@.dots == 0,
            ppu@.sprites == Seq::new(10, |i: int| Option::None::<OamEntry>),
            ppu@.fb == Seq::new(144 * 160, |i: int| 0u32),
            ppu.wf(),
    {
        let mut active_sprites: Vec<Option<OamEntry>> = Vec::new();
        let mut i: usize = 0;
        while i < 10
            invariant
                i <= 10,
                active_sprites@.len() == i,
                forall|j: int| 0 <= j < i ==> active_sprites@[j] is None,
            decreases 10 - i,
        {
            active_sprites.push(None);
            i = i + 1;
        }
        let mut current_fb: Vec<u32> = Vec::new();
        current_fb.resize(144 * 160, 0u32);
        let ppu = PPU { dot_counter: 0, active_sprites, current_fb };
        proof {
            assert(ppu@.sprites =~= Seq::new(10, |i: int| Option::None::<OamEntry>));
            assert(ppu@.fb =~= Seq::new(144 * 160, |i: int| 0u32));
        }
        ppu
    }

    /// Clear the active-sprite buffer.
    fn reset_active_entries(&mut self)
        requires
            old(self).wf(),
        ensures
            final(self).wf(),
            final(self)@ == (PpuView {
                sprites: Seq::new(10, |i: int| Option::None::<OamEntry>),
                ..old(self)@
            }),
    {
        let mut i: usize = 0;
        while i < 10
            invariant
                i <= 10,
                self@.sprites.len() == 10,
                self@.dots == old(self)@.dots,
                self@.fb == old(self)@.fb,
                forall|j: int| 0 <= j < i ==> self@.sprites[j] is None,
            decreases 10 - i,
        {
            self.active_sprites[i] = None;
            i = i + 1;
        }
        proof {
            assert(self@.sprites =~= Seq::new(10, |i: int| Option::None::<OamEntry>));
            assert(self@ =~= (PpuView {
                sprites: Seq::new(10, |i: int| Option::None::<OamEntry>),
                ..old(self)@
            }));
        }
    }

    /// Walk the 40 object attribute entries in table order and keep, up to
    /// ten, those whose vertical extent covers the current line.
    fn oam_scan(&mut self, game_state: &mut GameState)
        requires
            old(self).wf(),
            old(game_state).wf(),
        ensures
            final(self).wf(),
            *final(game_state) == *old(game_state),
            final(self)@ == (PpuView {
                sprites: scanned_sprites(old(game_state)@, old(self)@.sprites),
                ..old(self)@
            }),
    {
        let ghost v = game_state@;
        let mut selected: Vec<OamEntry> = Vec::new();
        let sprite_height: u8 = if game_state.get_lcdc() & LCDC_TILE_SIZE == 0 {
            7
        } else {
            15
        };
        let mut i: usize = 0;
        while i < 40
            invariant
                i <= 40,
                *game_state == *old(game_state),
                game_state@ == v,
                old(game_state).wf(),
                sprite_height == crate::ppu::sprite_height(v.lcdc),
                selected@ == scan_upto(v, i as int),
            decreases 40 - i,
        {
            proof {
                lemma_scan_upto_len(v, i as int);
            }
            if selected.len() < 10 {
                let sprite_loc = (i * 4) as u8;
                let obj_entry = game_state.get_oam_entry(sprite_loc);
                let skip = (obj_entry[0] <= 8 && obj_entry[0] + sprite_height < 16)
                    || (obj_entry[0] >= 160);
                if !skip {
                    let y_min = obj_entry[0].wrapping_sub(16);
                    let y_max = y_min.wrapping_add(sprite_height);
                    let ly = game_state.get_ly();
                    if y_min <= ly && ly <= y_max {
                        selected.push(OamEntry {
                            y_pos: obj_entry[0],
                            x_pos: obj_entry[1],
                            tile_index: obj_entry[2],
                            attrs: obj_entry[3],
                        });
                    }
                }
            }
            i = i + 1;
        }
        proof {
            lemma_scan_upto_len(v, 40);
        }
        let mut j: usize = 0;
        while j < selected.len()
            invariant
                j <= selected@.len() <= 10,
                self@.sprites.len() == 10,
                self@.dots == old(self)@.dots,
                self@.fb == old(self)@.fb,
                forall|k: int| 0 <= k < j ==> self@.sprites[k] == Option::Some(selected@[k]),
                forall|k: int| j <= k < 10 ==> self@.sprites[k] == old(self)@.sprites[k],
            decreases selected.len() - j,
        {
            let e = selected[j];
            self.active_sprites[j] = Some(e);
            j = j + 1;
        }
        proof {
            assert(self@.sprites =~= scanned_sprites(v, old(self)@.sprites));
            assert(self@ =~= (PpuView {
                sprites: scanned_sprites(v, old(self)@.sprites),
                ..old(self)@
            }));
        }
    }

    /// Lay the active sprites over the base pixel at column `x`, walking the
    /// buffer from entry `i` in priority order.
    fn sprite_overlay(&self, game_state: &mut GameState, i: usize, x: u8, base: u8) -> (pix: u8)
        requires
            self.wf(),
            old(game_state).wf(),
            i <= 10,
        ensures
            *final(game_state) == *old(game_state),
            pix == overlay(old(game_state)@, self@.sprites, i as int, x, base),
        decreases 10 - i,
    {
        if i >= 10 {
            return base;
        }
        let entry = self.active_sprites[i];
        match entry {
            None => self.sprite_overlay(game_state, i + 1, x, base),
            Some(e) => {
                let lcdc = game_state.get_lcdc();
                let ly = game_state.get_ly();
                let h: u8 = if lcdc & LCDC_TILE_SIZE == 0 {
                    7
                } else {
                    15
                };
                let sprite_top = e.y_pos.wrapping_sub(16);
                let sprite_left = e.x_pos.wrapping_sub(8);
                let in_range = sprite_top <= ly && ly <= sprite_top.wrapping_add(h)
                    && sprite_left <= x && x <= sprite_left.wrapping_add(7);
                if in_range {
                    let v_offset: u8 = if e.attrs & SPRITE_Y_FLIP != 0 {
                        h - (ly - sprite_top)
                    } else {
                        ly - sprite_top
                    };
                    let h_offset: u8 = if e.attrs & SPRITE_X_FLIP != 0 {
                        7 - (x - sprite_left)
                    } else {
                        x - sprite_left
                    };
                    let tile_index: u8;
                    if h == 7 {
                        tile_index = e.tile_index;
                    } else {
                        proof {
                            let ti = e.tile_index;
                            assert(ti & 0xFE <= 0xFE) by (bit_vector);
                        }
                        tile_index = (e.tile_index & 0xFE) + (if v_offset >= 8 {
                            1
                        } else {
                            0
                        });
                    }
                    let pix_val = get_tile_pixel(lcdc, tile_index, h_offset, v_offset % 8, game_state, true);
                    if pix_val != 0 {
                        if e.attrs & SPRITE_PRIORITY == 0 {
                            pix_val
                        } else {
                            if base == 0 {
                                pix_val
                            } else {
                                base
                            }
                        }
                    } else {
                        self.sprite_overlay(game_state, i + 1, x, base)
                    }
                } else {
                    self.sprite_overlay(game_state, i + 1, x, base)
                }
            }
        }
    }

    /// Render one row of color indices for the current line from the
    /// background, the window and the active sprites.
    fn gen_scanline(&self, game_state: &mut GameState) -> (result: Vec<u8>)
        requires
            self.wf(),
            old(game_state).wf(),
        ensures
            *final(game_state) == *old(game_state),
            result@.len() == 160,
            forall|x: int| 0 <= x < 160 ==> result@[x] == scanline_pixel(
                old(game_state)@,
                self@.sprites,
                x as u8,
            ),
    {
        let mut result: Vec<u8> = Vec::new();
        let mut x: u8 = 0;
        while x < 160
            invariant
                x <= 160,
                self.wf(),
                *game_state == *old(game_state),
                old(game_state).wf(),
                result@.len() == x,
                forall|k: int| 0 <= k < x ==> result@[k] == scanline_pixel(
                    old(game_state)@,
                    self@.sprites,
                    k as u8,
                ),
            decreases 160 - x,
        {
            let base = bgwin_exec(game_state, x);
            let pix = self.sprite_overlay(game_state, 0, x, base);
            result.push(pix);
            x = x + 1;
        }
        result
    }

    /// One 456-dot drain: render the current line if it is visible, advance
    /// LY and clear the sprite buffer, raising vertical-blank at line 144.
    #[verifier::rlimit(100)]
    fn line_step(&mut self, game_state: &mut GameState) -> (frame: bool)
        requires
            old(self).wf(),
            old(game_state).wf(),
            old(self)@.dots >= 456,
        ensures
            final(self).wf(),
            final(game_state).wf(),
            final(self)@.dots < old(self)@.dots,
            frame ==> ppu_step_rec(old(self)@, old(game_state)@) == (
                final(self)@,
                final(game_state)@,
                true,
            ),
            !frame ==> ppu_step_rec(old(self)@, old(game_state)@) == ppu_step_rec(
                final(self)@,
                final(game_state)@,
            ),
    {
        {
            let ghost p_head = self@;
            let ghost v_head = game_state@;
            self.dot_counter = self.dot_counter - 456;
            let ghost p1 = PpuView { dots: (p_head.dots - 456) as u128, ..p_head };
            let ly = game_state.get_ly();
            if ly < 144 {
                self.oam_scan(game_state);
                let next_scanline = self.gen_scanline(game_state);
                let off: usize = (ly as usize) * 160;
                let mut i: usize = 0;
                while i < 160
                    invariant
                        i <= 160,
                        ly < 144,
                        off == ly * 160,
                        game_state.wf(),
                        game_state@ == v_head,
                        v_head.ly == ly,
                        self@.dots == p1.dots,
                        self@.sprites == scanned_sprites(v_head, p_head.sprites),
                        self@.fb.len() == 144 * 160,
                        next_scanline@.len() == 160,
                        forall|x: int| 0 <= x < 160 ==> next_scanline@[x] == scanline_pixel(
                            v_head,
                            scanned_sprites(v_head, p_head.sprites),
                            x as u8,
                        ),
                        forall|k: int| 0 <= k < i ==> self@.fb[off + k] == color_u32(
                            next_scanline@[k],
                        ),
                        forall|j: int| 0 <= j < 144 * 160 && !(off <= j < off + i)
                            ==> self@.fb[j] == p_head.fb[j],
                    decreases 160 - i,
                {
                    self.current_fb[off + i] = gb_color_to_u32(next_scanline[i]);
                    i = i + 1;
                }
                proof {
                    let rl = render_line(p1, v_head);
                    let off_spec = v_head.ly * 160;
                    assert forall|j: int| 0 <= j < 144 * 160 implies self@.fb[j] == rl.fb[j] by {
                        if off_spec <= j < off_spec + 160 {
                            let k = j - off_spec;
                            assert(self@.fb[off + k] == color_u32(next_scanline@[k]));
                            assert(next_scanline@[k] == scanline_pixel(
                                v_head,
                                scanned_sprites(v_head, p_head.sprites),
                                k as u8,
                            ));
                        }
                    }
                    assert(self@.fb =~= rl.fb);
                    assert(self@ =~= rl);
                }
            }
            game_state.inc_ly(1);
            self.reset_active_entries();
            let ghost rendered = if v_head.ly < 144 {
                render_line(p1, v_head)
            } else {
                p1
            };
            let ghost p2 = PpuView {
                sprites: Seq::new(10, |i: int| Option::None::<OamEntry>),
                ..rendered
            };
            proof {
                assert(self@ =~= p2);
            }
            if (ly as u16) + 1 == 144 {
                let flags = game_state.read(0xFF0F);
                game_state.write(flags | INT_VBLANK, 0xFF0F);
                proof {
                    assert(ppu_step_rec(p_head, v_head) == (self@, game_state@, true));
                }
                return true;
            }
            if (ly as u16) + 1 > 153 {
                game_state.set_ly(0);
            }
            proof {
                assert(ppu_step_rec(p_head, v_head) == ppu_step_rec(self@, game_state@));
            }
        }
        false
    }

    /// Feed dots into the pipeline and drain whole scanline periods,
    /// rendering visible lines; reports whether a frame became ready.
    pub fn step(&mut self, cycles: u8, game_state: &mut GameState) -> (frame: bool)
        requires
            old(self).wf(),
            old(game_state).wf(),
            old(self)@.dots + cycles <= u128::MAX,
        ensures
            final(self).wf(),
            final(game_state).wf(),
            (final(self)@, final(game_state)@, frame) == ppu_step_rec(
                PpuView { dots: (old(self)@.dots + cycles) as u128, ..old(self)@ },
                old(game_state)@,
            ),
    {
        self.dot_counter = self.dot_counter + (cycles as u128);
        let ghost p0 = self@;
        let ghost v0 = game_state@;
        while self.dot_counter >= 456
            invariant
                self.wf(),
                game_state.wf(),
                p0 == (PpuView { dots: (old(self)@.dots + cycles) as u128, ..old(self)@ }),
                v0 == old(game_state)@,
                ppu_step_rec(self@, game_state@) == ppu_step_rec(p0, v0),
            decreases self.dot_counter,
        {
            if self.line_step(game_state) {
                return true;
            }
        }
        proof {
            assert(ppu_step_rec(self@, game_state@) == (self@, game_state@, false));
        }
        false
    }
}

} // verus!
