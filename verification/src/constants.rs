use vstd::prelude::*;

verus! {

pub const FLAG_Z: u8 = 0b1000_0000;
pub const FLAG_N: u8 = 0b0100_0000;
pub const FLAG_H: u8 = 0b0010_0000;
pub const FLAG_C: u8 = 0b0001_0000;

pub const INT_VBLANK: u8 = 0b0000_0001;
pub const INT_LCD: u8 = 0b0000_0010;
pub const INT_TIMER: u8 = 0b0000_0100;
pub const INT_SERIAL: u8 = 0b0000_1000;
pub const INT_JOYPAD: u8 = 0b0001_0000;

pub const DOTS_PER_SL: u16 = 456;
pub const VISIBLE_SL: u8 = 144;
pub const MAX_SL: u8 = 153;

pub const LCDC_TILE_SIZE: u8 = 0b0000_0100;
pub const LCDC_TILE_MAP: u8 = 0b0000_1000;
pub const LCDC_TILE_BG_DATA: u8 = 0b0001_0000;
pub const LCDC_WIN_ON: u8 = 0b0010_0000;
pub const LCDC_TILE_WIN_DATA: u8 = 0b0100_0000;

pub const SPRITE_PRIORITY: u8 = 0b1000_0000;
pub const SPRITE_Y_FLIP: u8 = 0b0100_0000;
pub const SPRITE_X_FLIP: u8 = 0b0010_0000;

} // verus!
