use gbcore::cpu::CPU;
use gbcore::instructions::{add8, sub8, daa, rlca, rrca, push_r16, pop_r16, interrupt_handler,
    bit_u3_r8, res_u3_r8, set_u3_r8, inc_r8, dec_r8, add_hl_r16};
use gbcore::state::{GameState, Register};

fn make_state(program: &[u8]) -> GameState {
    let mut rom = vec![0u8; 0x8000];
    for (i, b) in program.iter().enumerate() {
        rom[0x100 + i] = *b;
    }
    GameState::start_game(rom)
}

#[test]
fn add8_matches_reference_formulas() {
    assert_eq!(add8(0xFF, 0x01, 0), (0x00, true, true));
    assert_eq!(add8(0x0F, 0x01, 0), (0x10, true, false));
    assert_eq!(add8(0x10, 0x20, 0), (0x30, false, false));
    assert_eq!(add8(0x0E, 0x01, 1), (0x10, true, false));
    assert_eq!(add8(0xFE, 0x01, 1), (0x00, true, true));
    assert_eq!(add8(0x00, 0x00, 1), (0x01, false, false));
}

#[test]
fn sub8_matches_reference_formulas() {
    assert_eq!(sub8(0x10, 0x01, 0), (0x0F, true, false));
    assert_eq!(sub8(0x00, 0x01, 0), (0xFF, true, true));
    assert_eq!(sub8(0x20, 0x10, 0), (0x10, false, false));
    assert_eq!(sub8(0x10, 0x0F, 1), (0x00, true, false));
    assert_eq!(sub8(0x05, 0x03, 1), (0x01, false, false));
    assert_eq!(sub8(0x42, 0x42, 0), (0x00, false, false));
}

#[test]
fn subtract_with_borrow_takes_the_borrow_from_the_value() {
    let mut gs = make_state(&[]);
    gs.set_register8(Register::A, 0x10);
    gs.set_register8(Register::B, 0x01);
    gs.set_register8(Register::F, 0x10); // carry set
    gbcore::instructions::sbc_a_r8(&mut gs, Register::B);
    assert_eq!(gs.get_register8(Register::A), 0x0E);
    assert!(gs.get_flags().H);
    assert!(!gs.get_flags().C);
    assert!(!gs.get_flags().Z);
}

#[test]
fn flag_packing_is_idempotent() {
    let mut gs = make_state(&[]);
    gs.set_register8(Register::F, 0xA0);
    let flags = gs.get_flags();
    gs.set_flags(&flags);
    assert_eq!(gs.get_register8(Register::F), 0xA0);
}

#[test]
fn flag_writes_zero_the_low_nibble() {
    let mut gs = make_state(&[]);
    gs.set_register8(Register::F, 0xAB);
    let flags = gs.get_flags();
    gs.set_flags(&flags);
    assert_eq!(gs.get_register8(Register::F), 0xA0);
}

#[test]
fn af_stores_mask_the_low_nibble_of_f() {
    let mut gs = make_state(&[]);
    gs.set_register16(Register::AF, 0x12FF);
    assert_eq!(gs.get_register16(Register::AF), 0x12F0);
    // popping into AF goes through the same masking
    gs.write(0xCD, 0xFFF0);
    gs.write(0xAB, 0xFFF1);
    gs.set_register16(Register::SP, 0xFFF0);
    pop_r16(&mut gs, Register::AF);
    assert_eq!(gs.get_register16(Register::AF), 0xABC0);
}

#[test]
fn flag_low_nibble_stays_zero_after_arithmetic() {
    let mut gs = make_state(&[]);
    // F starts at the post-boot value 0xB0, with a zero low nibble.
    gs.set_register8(Register::A, 0x3C);
    gs.set_register8(Register::B, 0x2F);
    gbcore::instructions::add_a_r8(&mut gs, Register::B);
    assert_eq!(gs.get_register8(Register::F) & 0x0F, 0);
    gbcore::instructions::sub_a_r8(&mut gs, Register::B);
    assert_eq!(gs.get_register8(Register::F) & 0x0F, 0);
}

#[test]
fn push_pop_roundtrip_restores_sp() {
    let mut gs = make_state(&[]);
    gs.set_register16(Register::SP, 0xFFFE);
    gs.set_register16(Register::BC, 0x1234);
    push_r16(&mut gs, Register::BC);
    assert_eq!(gs.get_register16(Register::SP), 0xFFFC);
    pop_r16(&mut gs, Register::DE);
    assert_eq!(gs.get_register16(Register::DE), 0x1234);
    assert_eq!(gs.get_register16(Register::SP), 0xFFFE);
}

#[test]
fn relative_jump_back_two_lands_on_same_instruction() {
    // JR with offset 0xFE (signed -2) at 0x0100: target 0x0100 + 2 - 2.
    let mut gs = make_state(&[0x18, 0xFE]);
    let cpu = CPU::initialize();
    let cycles = cpu.step(&mut gs);
    assert_eq!(cycles, 3);
    assert_eq!(gs.get_register16(Register::PC), 0x0100);
}

#[test]
fn daa_corrects_low_nibble_after_add() {
    let mut gs = make_state(&[]);
    gs.set_register8(Register::A, 0x0F);
    gs.set_register8(Register::F, 0x00);
    daa(&mut gs);
    assert_eq!(gs.get_register8(Register::A), 0x15);
    let flags = gs.get_flags();
    assert!(!flags.H);
    assert!(!flags.C);
    assert!(!flags.Z);
}

#[test]
fn daa_sets_carry_on_high_digit_overflow() {
    let mut gs = make_state(&[]);
    gs.set_register8(Register::A, 0x9A);
    gs.set_register8(Register::F, 0x00);
    daa(&mut gs);
    assert_eq!(gs.get_register8(Register::A), 0x00);
    let flags = gs.get_flags();
    assert!(flags.C);
    assert!(flags.Z);
}

#[test]
fn interrupt_priority_serves_vblank_before_timer() {
    let mut gs = make_state(&[]);
    gs.set_register16(Register::SP, 0xFFFE);
    gs.set_interrupts(true);
    gs.write(0x05, 0xFF0F); // vertical-blank and timer pending
    gs.write(0x05, 0xFFFF); // both enabled
    interrupt_handler(&mut gs);
    assert_eq!(gs.get_register16(Register::PC), 0x0040);
    assert_eq!(gs.get_i_flag(), 0x04); // timer still pending, vblank cleared
    assert!(!gs.get_interrupts());
    // the old PC sits on the stack in little-endian order
    assert_eq!(gs.read(0xFFFC), 0x00);
    assert_eq!(gs.read(0xFFFD), 0x01);
}

#[test]
fn interrupt_handler_idle_without_ime() {
    let mut gs = make_state(&[]);
    gs.write(0x05, 0xFF0F);
    gs.write(0x05, 0xFFFF);
    interrupt_handler(&mut gs);
    assert_eq!(gs.get_register16(Register::PC), 0x0100);
    assert_eq!(gs.get_i_flag(), 0x05);
}

#[test]
fn rotates_move_the_edge_bit_into_carry() {
    let mut gs = make_state(&[]);
    gs.set_register8(Register::A, 0x85);
    rlca(&mut gs);
    assert_eq!(gs.get_register8(Register::A), 0x0B);
    assert!(gs.get_flags().C);
    gs.set_register8(Register::A, 0x01);
    gs.set_register8(Register::F, 0x00);
    rrca(&mut gs);
    assert_eq!(gs.get_register8(Register::A), 0x80);
    assert!(gs.get_flags().C);
}

#[test]
fn cb_swap_exchanges_nibbles() {
    let mut gs = make_state(&[0xCB, 0x37]);
    gs.set_register8(Register::A, 0xAB);
    let cpu = CPU::initialize();
    let cycles = cpu.step(&mut gs);
    assert_eq!(cycles, 2);
    assert_eq!(gs.get_register8(Register::A), 0xBA);
    assert_eq!(gs.get_register16(Register::PC), 0x0102);
}

#[test]
fn cb_bit_set_and_clear() {
    let mut gs = make_state(&[]);
    gs.set_register8(Register::B, 0x00);
    set_u3_r8(&mut gs, 3, Register::B);
    assert_eq!(gs.get_register8(Register::B), 0x08);
    bit_u3_r8(&mut gs, 3, Register::B);
    assert!(!gs.get_flags().Z);
    bit_u3_r8(&mut gs, 4, Register::B);
    assert!(gs.get_flags().Z);
    res_u3_r8(&mut gs, 3, Register::B);
    assert_eq!(gs.get_register8(Register::B), 0x00);
}

#[test]
fn immediate_load_and_add_through_step() {
    let mut gs = make_state(&[0x3E, 0x05, 0xC6, 0x07]);
    let cpu = CPU::initialize();
    let c1 = cpu.step(&mut gs);
    assert_eq!(c1, 2);
    assert_eq!(gs.get_register8(Register::A), 0x05);
    assert_eq!(gs.get_register16(Register::PC), 0x0102);
    let c2 = cpu.step(&mut gs);
    assert_eq!(c2, 2);
    assert_eq!(gs.get_register8(Register::A), 0x0C);
    assert_eq!(gs.get_register16(Register::PC), 0x0104);
}

#[test]
fn call_and_return_balance_the_stack() {
    let mut rom = vec![0u8; 0x8000];
    rom[0x100] = 0xCD;
    rom[0x101] = 0x00;
    rom[0x102] = 0x02;
    rom[0x200] = 0xC9;
    let mut gs = GameState::start_game(rom);
    let cpu = CPU::initialize();
    let c1 = cpu.step(&mut gs);
    assert_eq!(c1, 6);
    assert_eq!(gs.get_register16(Register::PC), 0x0200);
    assert_eq!(gs.get_register16(Register::SP), 0xFFFC);
    let c2 = cpu.step(&mut gs);
    assert_eq!(c2, 4);
    assert_eq!(gs.get_register16(Register::PC), 0x0103);
    assert_eq!(gs.get_register16(Register::SP), 0xFFFE);
}

#[test]
fn conditional_relative_jump_follows_zero_flag() {
    // JR NZ, +3 with Z set: fall through.
    let mut gs = make_state(&[0x20, 0x03]);
    gs.set_register8(Register::F, 0x80);
    let cpu = CPU::initialize();
    let c1 = cpu.step(&mut gs);
    assert_eq!(c1, 2);
    assert_eq!(gs.get_register16(Register::PC), 0x0102);
    // JR NZ, +3 with Z clear: taken.
    let mut gs2 = make_state(&[0x20, 0x03]);
    gs2.set_register8(Register::F, 0x00);
    let c2 = cpu.step(&mut gs2);
    assert_eq!(c2, 3);
    assert_eq!(gs2.get_register16(Register::PC), 0x0105);
}

#[test]
fn inc_dec_touch_half_carry_and_keep_carry() {
    let mut gs = make_state(&[]);
    gs.set_register8(Register::F, 0x10); // carry set
    gs.set_register8(Register::B, 0x0F);
    inc_r8(&mut gs, Register::B);
    assert_eq!(gs.get_register8(Register::B), 0x10);
    assert!(gs.get_flags().H);
    assert!(gs.get_flags().C); // preserved
    gs.set_register8(Register::C, 0x10);
    dec_r8(&mut gs, Register::C);
    assert_eq!(gs.get_register8(Register::C), 0x0F);
    assert!(gs.get_flags().H);
    assert!(gs.get_flags().N);
    assert!(gs.get_flags().C);
}

#[test]
fn add_hl_reports_bit_11_and_bit_15_carries() {
    let mut gs = make_state(&[]);
    gs.set_register8(Register::F, 0x80); // zero flag set, must be preserved
    gs.set_register16(Register::HL, 0x0FFF);
    gs.set_register16(Register::BC, 0x0001);
    add_hl_r16(&mut gs, Register::BC);
    assert_eq!(gs.get_register16(Register::HL), 0x1000);
    assert!(gs.get_flags().H);
    assert!(!gs.get_flags().C);
    assert!(gs.get_flags().Z);
    gs.set_register16(Register::HL, 0xFFFF);
    gs.set_register16(Register::DE, 0x0001);
    add_hl_r16(&mut gs, Register::DE);
    assert_eq!(gs.get_register16(Register::HL), 0x0000);
    assert!(gs.get_flags().C);
}

#[test]
fn sp_relative_add_uses_low_byte_carries() {
    let mut gs = make_state(&[0xE8, 0x01]);
    gs.set_register16(Register::SP, 0x000F);
    let cpu = CPU::initialize();
    let c = cpu.step(&mut gs);
    assert_eq!(c, 4);
    assert_eq!(gs.get_register16(Register::SP), 0x0010);
    assert!(gs.get_flags().H);
    assert!(!gs.get_flags().C);
    assert!(!gs.get_flags().Z);
    // negative offset wraps the stack pointer down
    let mut gs2 = make_state(&[0xE8, 0xFF]);
    gs2.set_register16(Register::SP, 0x0100);
    cpu.step(&mut gs2);
    assert_eq!(gs2.get_register16(Register::SP), 0x00FF);
}

#[test]
fn stop_and_halt_consume_no_cycles() {
    let mut gs = make_state(&[0x10]);
    let cpu = CPU::initialize();
    let c = cpu.step(&mut gs);
    assert_eq!(c, 0);
    assert_eq!(gs.get_register16(Register::PC), 0x0101);
    let mut gs2 = make_state(&[0x76]);
    let c2 = cpu.step(&mut gs2);
    assert_eq!(c2, 0);
    assert_eq!(gs2.get_register16(Register::PC), 0x0101);
}

#[test]
fn undefined_opcode_is_a_one_byte_no_op() {
    let mut gs = make_state(&[0xD3]);
    let cpu = CPU::initialize();
    let c = cpu.step(&mut gs);
    assert_eq!(c, 1);
    assert_eq!(gs.get_register16(Register::PC), 0x0101);
    assert_eq!(gs.get_register8(Register::A), 0x01);
}

#[test]
fn high_page_store_and_load() {
    let mut gs = make_state(&[0xE0, 0x80, 0x3E, 0x00, 0xF0, 0x80]);
    let cpu = CPU::initialize();
    cpu.step(&mut gs); // LDH (0x80), A with the post-boot A of 0x01
    assert_eq!(gs.read(0xFF80), 0x01);
    cpu.step(&mut gs); // LD A, 0
    assert_eq!(gs.get_register8(Register::A), 0x00);
    cpu.step(&mut gs); // LDH A, (0x80)
    assert_eq!(gs.get_register8(Register::A), 0x01);
}

#[test]
fn hl_indirect_post_increment_and_decrement() {
    let mut gs = make_state(&[0x22, 0x3A]);
    gs.set_register16(Register::HL, 0x8000);
    gs.set_register8(Register::A, 0x5A);
    let cpu = CPU::initialize();
    cpu.step(&mut gs); // LD (HL+), A
    assert_eq!(gs.read(0x8000), 0x5A);
    assert_eq!(gs.get_register16(Register::HL), 0x8001);
    cpu.step(&mut gs); // LD A, (HL-)
    assert_eq!(gs.get_register8(Register::A), 0x00);
    assert_eq!(gs.get_register16(Register::HL), 0x8000);
}

#[test]
fn cb_rotate_on_memory_operand() {
    let mut gs = make_state(&[0xCB, 0x16]);
    gs.set_register16(Register::HL, 0xC000);
    gs.set_register8(Register::F, 0x00);
    gs.write(0x80, 0xC000);
    let cpu = CPU::initialize();
    let c = cpu.step(&mut gs); // RL (HL)
    assert_eq!(c, 4);
    assert_eq!(gs.read(0xC000), 0x00);
    assert!(gs.get_flags().C);
    assert!(gs.get_flags().Z);
    assert_eq!(gs.get_register16(Register::PC), 0x0102);
}

#[test]
fn compare_sets_flags_without_touching_a() {
    let mut gs = make_state(&[0xFE, 0x2A]);
    gs.set_register8(Register::A, 0x2A);
    let cpu = CPU::initialize();
    cpu.step(&mut gs); // CP A, 0x2A
    assert_eq!(gs.get_register8(Register::A), 0x2A);
    assert!(gs.get_flags().Z);
    assert!(gs.get_flags().N);
    assert!(!gs.get_flags().C);
}

#[test]
fn power_on_state_matches_documented_values() {
    let gs = make_state(&[]);
    assert_eq!(gs.get_register16(Register::AF), 0x01B0);
    assert_eq!(gs.get_register16(Register::BC), 0x0013);
    assert_eq!(gs.get_register16(Register::DE), 0x00D8);
    assert_eq!(gs.get_register16(Register::HL), 0x014D);
    assert_eq!(gs.get_register16(Register::PC), 0x0100);
    assert_eq!(gs.get_register16(Register::SP), 0xFFFE);
    assert!(!gs.get_interrupts());
}
