use gbcore::state::{GameState, Register};

fn blank_state() -> GameState {
    GameState::start_game(vec![0u8; 0x8000])
}

#[test]
fn rom_writes_are_discarded() {
    let mut rom = vec![0u8; 0x8000];
    rom[0x1000] = 0x42;
    let mut gs = GameState::start_game(rom);
    gs.write(0x55, 0x1000);
    assert_eq!(gs.read(0x1000), 0x42);
}

#[test]
fn reads_past_rom_end_yield_sentinel() {
    let gs = GameState::start_game(vec![0u8; 0x200]);
    assert_eq!(gs.read(0x0300), 0xFF);
}

#[test]
fn external_ram_reads_yield_sentinel() {
    let mut gs = blank_state();
    gs.write(0x11, 0xA000);
    assert_eq!(gs.read(0xA000), 0xFF);
    assert_eq!(gs.read(0xBFFF), 0xFF);
}

#[test]
fn unmapped_io_reads_yield_sentinel() {
    let gs = blank_state();
    assert_eq!(gs.read(0xFF50), 0xFF);
    assert_eq!(gs.read(0xFF7F), 0xFF);
}

#[test]
fn working_ram_is_mirrored_at_echo() {
    let mut gs = blank_state();
    gs.write(0x77, 0xC123);
    assert_eq!(gs.read(0xE123), 0x77);
    gs.write(0x88, 0xE456);
    assert_eq!(gs.read(0xC456), 0x88);
}

#[test]
fn video_ram_and_high_ram_store_bytes() {
    let mut gs = blank_state();
    gs.write(0x5A, 0x8000);
    assert_eq!(gs.read(0x8000), 0x5A);
    gs.write(0xA5, 0xFF80);
    assert_eq!(gs.read(0xFF80), 0xA5);
    gs.write(0x3C, 0xFFFE);
    assert_eq!(gs.read(0xFFFE), 0x3C);
}

#[test]
fn dma_copies_a_page_into_oam() {
    let mut gs = blank_state();
    let mut i: u16 = 0;
    while i < 0xA0 {
        gs.write(i as u8, 0xC000 + i);
        i += 1;
    }
    gs.write(0xC0, 0xFF46);
    assert_eq!(gs.read(0xFF46), 0xC0);
    assert_eq!(gs.read(0xFE00), 0);
    assert_eq!(gs.read(0xFE01), 1);
    assert_eq!(gs.read(0xFE9F), 0x9F);
    let entry = gs.get_oam_entry(4);
    assert_eq!(entry, [4, 5, 6, 7]);
}

#[test]
fn joypad_read_combines_selected_group() {
    let mut gs = blank_state();
    gs.update_joypad(true, false, false, false, false, false, false, false);
    // select the button group (bit 5 low, bit 4 high); bits 6-7 read as one
    gs.write(0x10, 0xFF00);
    assert_eq!(gs.read(0xFF00), 0xDE);
    // select the d-pad group (bit 4 low, bit 5 high): A is not in it
    gs.write(0x20, 0xFF00);
    assert_eq!(gs.read(0xFF00), 0xEF);
    gs.update_joypad(false, false, false, false, false, true, false, false);
    assert_eq!(gs.read(0xFF00), 0xE7);
    // with neither group selected the low nibble reads all ones
    gs.write(0x30, 0xFF00);
    assert_eq!(gs.read(0xFF00), 0xFF);
}

#[test]
fn divider_write_resets_it() {
    let mut gs = blank_state();
    gs.inc_div(0xFF);
    gs.inc_div(0xFF);
    gs.inc_div(0x07);
    assert_eq!(gs.read(0xFF04), 0x02);
    gs.write(0xAA, 0xFF04);
    assert_eq!(gs.read(0xFF04), 0x00);
}

#[test]
fn timer_overflow_reloads_and_raises_interrupt() {
    let mut gs = blank_state();
    gs.write(0x42, 0xFF06);
    gs.write(0xFF, 0xFF05);
    gs.update_tima();
    assert_eq!(gs.read(0xFF05), 0x42);
    assert_eq!(gs.get_i_flag() & 0x04, 0x04);
    gs.write(0x05, 0xFF05);
    gs.update_tima();
    assert_eq!(gs.read(0xFF05), 0x06);
}

#[test]
fn available_cycles_accumulate_and_drain() {
    let mut gs = blank_state();
    gs.inc_available_cycles(10);
    gs.inc_available_cycles(5);
    assert_eq!(gs.get_available_cycles(), 15);
    gs.dec_available_cycles(6);
    assert_eq!(gs.get_available_cycles(), 9);
}

#[test]
fn register_pairs_compose_high_and_low_bytes() {
    let mut gs = blank_state();
    gs.set_register16(Register::BC, 0xBEEF);
    assert_eq!(gs.get_register8(Register::B), 0xBE);
    assert_eq!(gs.get_register8(Register::C), 0xEF);
    gs.set_register8(Register::H, 0x12);
    gs.set_register8(Register::L, 0x34);
    assert_eq!(gs.get_register16(Register::HL), 0x1234);
}

#[test]
fn tile_rows_combine_the_two_planes() {
    let mut gs = blank_state();
    gs.write(0xAA, 0x8000);
    gs.write(0xCC, 0x8001);
    let rows = gs.get_tile_from_addr(0x8000);
    assert_eq!(rows[0], 0xCCAA);
    assert_eq!(rows[1], 0x0000);
}

#[test]
fn tile_index_follows_map_select_bit() {
    let mut gs = blank_state();
    gs.write(0x21, 0x9800);
    gs.write(0x42, 0x9C00);
    gs.write(gs.read(0xFF40) & !0x08, 0xFF40);
    assert_eq!(gs.get_tile_index(0), 0x21);
    gs.write(gs.read(0xFF40) | 0x08, 0xFF40);
    assert_eq!(gs.get_tile_index(0), 0x42);
}
