use gbcore::cpu::CPU;
use gbcore::ppu::{PPU, gb_color_to_u32};
use gbcore::state::GameState;

fn blank_state() -> GameState {
    GameState::start_game(vec![0u8; 0x8000])
}

fn run_one_line(ppu: &mut PPU, gs: &mut GameState) -> bool {
    let first = ppu.step(228, gs);
    let second = ppu.step(228, gs);
    first || second
}

#[test]
fn palette_maps_the_four_color_indices() {
    assert_eq!(gb_color_to_u32(0), 0xFFFFFFFF);
    assert_eq!(gb_color_to_u32(1), 0xFF9BB7FF);
    assert_eq!(gb_color_to_u32(2), 0xFF4863A0);
    assert_eq!(gb_color_to_u32(3), 0xFF0A0A40);
    assert_eq!(gb_color_to_u32(7), 0xFFFF00FF);
}

#[test]
fn scanline_repeats_the_selected_tile_pattern() {
    let mut gs = blank_state();
    let mut ppu = PPU::initialize();
    // window disabled, background from tile map 0 and unsigned tile data
    gs.write(0x91, 0xFF40);
    // tile 0, row 0: low plane 0xAA, high plane 0xCC
    gs.write(0xAA, 0x8000);
    gs.write(0xCC, 0x8001);
    let frame = run_one_line(&mut ppu, &mut gs);
    assert!(!frame);
    assert_eq!(gs.get_ly(), 1);
    let slice: Vec<u32> = (0..8).map(|i| ppu.current_fb[i]).collect();
    let expected: Vec<u32> = [3u8, 2, 1, 0, 3, 2, 1, 0].iter().map(|c| gb_color_to_u32(*c)).collect();
    assert_eq!(slice, expected);
    // the 8-pixel slice repeats across the row's tile columns
    for t in 0..20 {
        for x in 0..8 {
            assert_eq!(ppu.current_fb[t * 8 + x], expected[x]);
        }
    }
    // the sprite buffer is cleared after the line
    for i in 0..10 {
        assert!(ppu.active_sprites[i].is_none());
    }
}

#[test]
fn sprite_pixels_override_transparent_background() {
    let mut gs = blank_state();
    let mut ppu = PPU::initialize();
    gs.write(0x91, 0xFF40);
    // tile 1, row 0: low plane solid -> color index 1
    gs.write(0xFF, 0x8010);
    // sprite 0 at the top-left corner, tile 1, no flips, normal priority
    gs.write(16, 0xFE00);
    gs.write(8, 0xFE01);
    gs.write(1, 0xFE02);
    gs.write(0, 0xFE03);
    run_one_line(&mut ppu, &mut gs);
    for x in 0..8 {
        assert_eq!(ppu.current_fb[x], gb_color_to_u32(1));
    }
    // past the sprite the background shows through
    assert_eq!(ppu.current_fb[8], gb_color_to_u32(0));
}

#[test]
fn signed_tile_addressing_reaches_the_0x9000_half() {
    let mut gs = blank_state();
    let mut ppu = PPU::initialize();
    // window off, tile-data select bit clear: signed addressing for the
    // background, so tile index 0 samples the pattern at 0x9000
    gs.write(0x81, 0xFF40);
    gs.write(0xFF, 0x9000); // row 0 of tile 0, signed half: solid color 1
    gs.write(0xAA, 0x8000); // the unsigned half must not be read
    run_one_line(&mut ppu, &mut gs);
    for x in 0..8 {
        assert_eq!(ppu.current_fb[x], gb_color_to_u32(1));
    }
    // tile index 0x80 (-128) maps to the 0x8800 half
    let mut gs2 = blank_state();
    let mut ppu2 = PPU::initialize();
    gs2.write(0x81, 0xFF40);
    gs2.write(0x80, 0x9800); // tile map entry 0 selects index 0x80
    gs2.write(0xFF, 0x8800);
    run_one_line(&mut ppu2, &mut gs2);
    for x in 0..8 {
        assert_eq!(ppu2.current_fb[x], gb_color_to_u32(1));
    }
}

#[test]
fn window_pixels_replace_the_background() {
    let mut gs = blank_state();
    let mut ppu = PPU::initialize();
    // window enabled at the top-left corner (WX=7 covers column 0)
    gs.write(0xB1, 0xFF40);
    gs.write(0, 0xFF4A);
    gs.write(7, 0xFF4B);
    // tile 0, row 0: low plane 0x0F -> right half of the tile at color 1
    gs.write(0x0F, 0x8000);
    run_one_line(&mut ppu, &mut gs);
    for x in 0..4 {
        assert_eq!(ppu.current_fb[x], gb_color_to_u32(0));
    }
    for x in 4..8 {
        assert_eq!(ppu.current_fb[x], gb_color_to_u32(1));
    }
}

#[test]
fn sprite_priority_bit_defers_to_opaque_background() {
    let mut gs = blank_state();
    let mut ppu = PPU::initialize();
    gs.write(0x91, 0xFF40);
    // background tile 0, row 0: solid color 2
    gs.write(0x00, 0x8000);
    gs.write(0xFF, 0x8001);
    // sprite tile 1, row 0: solid color 1
    gs.write(0xFF, 0x8010);
    // sprite 0 over the first tile, priority bit set: background wins
    gs.write(16, 0xFE00);
    gs.write(8, 0xFE01);
    gs.write(1, 0xFE02);
    gs.write(0x80, 0xFE03);
    run_one_line(&mut ppu, &mut gs);
    for x in 0..8 {
        assert_eq!(ppu.current_fb[x], gb_color_to_u32(2));
    }
}

#[test]
fn nop_loop_advances_one_scanline_per_114_steps() {
    let mut gs = blank_state();
    let cpu = CPU::initialize();
    let mut ppu = PPU::initialize();
    for _ in 0..114 {
        let cycles = cpu.step(&mut gs);
        assert_eq!(cycles, 1);
        let frame = ppu.step(4 * cycles, &mut gs);
        assert!(!frame);
    }
    assert_eq!(gs.get_ly(), 1);
    for i in 0..10 {
        assert!(ppu.active_sprites[i].is_none());
    }
}

#[test]
fn frame_becomes_ready_at_vertical_blank() {
    let mut gs = blank_state();
    let cpu = CPU::initialize();
    let mut ppu = PPU::initialize();
    let mut frames = 0;
    let mut steps = 0;
    while frames == 0 {
        let cycles = cpu.step(&mut gs);
        if ppu.step(4 * cycles, &mut gs) {
            frames += 1;
        }
        steps += 1;
        assert!(steps <= 114 * 144);
    }
    assert_eq!(steps, 114 * 144);
    assert_eq!(gs.get_ly(), 144);
    assert_eq!(gs.get_i_flag() & 0x01, 0x01);
}

#[test]
fn scanline_counter_wraps_after_line_153() {
    let mut gs = blank_state();
    let mut ppu = PPU::initialize();
    gs.set_ly(153);
    let frame = run_one_line(&mut ppu, &mut gs);
    assert!(!frame);
    assert_eq!(gs.get_ly(), 0);
}
