use vstd::prelude::*;
use crate::constants::{INT_VBLANK, INT_LCD, INT_TIMER, INT_SERIAL, INT_JOYPAD};
use crate::state::{Flags, GameState, Register, StateView, CC, hi16, lo16, is_reg8, is_reg16,
    generate_16bit};

verus! {

// ---------------------------------------------------------------------------
// Arithmetic reference formulas
// ---------------------------------------------------------------------------

/// 8-bit sum, truncated to a byte.
pub open spec fn add8_val(a: u8, b: u8, carry_in: u8) -> u8 {
    ((a + b + carry_in) % 256) as u8
}

/// Half-carry of an 8-bit add: carry out of bit 3.
pub open spec fn add8_half(a: u8, b: u8, carry_in: u8) -> bool {
    (a & 0xF) + (b & 0xF) + carry_in > 0xF
}

/// Carry of an 8-bit add: carry out of bit 7.
pub open spec fn add8_carry(a: u8, b: u8, carry_in: u8) -> bool {
    a + b + carry_in > 0xFF
}

/// 8-bit difference with borrow-in, wrapping below zero.
pub open spec fn sub8_val(a: u8, b: u8, carry_in: u8) -> u8 {
    a.wrapping_sub(b).wrapping_sub(carry_in)
}

/// Half-borrow of an 8-bit subtract: borrow into bit 3.
pub open spec fn sub8_half(a: u8, b: u8, carry_in: u8) -> bool {
    (a & 0xF) < (b & 0xF) + carry_in
}

/// Borrow of an 8-bit subtract: borrow into bit 7.
pub open spec fn sub8_borrow(a: u8, b: u8, carry_in: u8) -> bool {
    (a as int) < b + carry_in
}

/// 16-bit sum, truncated.
pub open spec fn add16_val(a: u16, b: u16) -> u16 {
    a.wrapping_add(b)
}

/// Half-carry of a 16-bit add: carry out of bit 11.
pub open spec fn add16_half(a: u16, b: u16) -> bool {
    (a & 0xFFF) + (b & 0xFFF) > 0xFFF
}

/// Carry of a 16-bit add: carry out of bit 15.
pub open spec fn add16_carry(a: u16, b: u16) -> bool {
    a + b > 0xFFFF
}

/// Half-carry of the stack-pointer-relative add: carry out of bit 3,
/// computed on the low bytes only.
pub open spec fn addsp_half(a: u16, b: u16) -> bool {
    (a & 0xF) + (b & 0xF) > 0xF
}

/// Carry of the stack-pointer-relative add: carry out of bit 7,
/// computed on the low bytes only.
pub open spec fn addsp_carry(a: u16, b: u16) -> bool {
    (a & 0xFF) + (b & 0xFF) > 0xFF
}

/// Sign-extend an offset byte to 16 bits.
pub open spec fn sign_extend(off: u8) -> u16 {
    if off < 0x80 {
        off as u16
    } else {
        (off + 0xFF00) as u16
    }
}

/// Whether a condition code holds of the given flags.
pub open spec fn cc_holds(fl: Flags, cc: CC) -> bool {
    match cc {
        CC::Z => fl.Z,
        CC::NZ => !fl.Z,
        CC::C => fl.C,
        CC::NC => !fl.C,
    }
}

/// The 8-bit add helper: sum, half-carry out of bit 3, carry out of bit 7.
pub fn add8(a: u8, b: u8, carry_in: u8) -> (r: (u8, bool, bool))
    requires
        carry_in <= 1,
    ensures
        r.0 == add8_val(a, b, carry_in),
        r.1 == add8_half(a, b, carry_in),
        r.2 == add8_carry(a, b, carry_in),
{
    let sum: u16 = (a as u16) + (b as u16) + (carry_in as u16);
    let trunc_sum: u8 = (sum % 256) as u8;
    let half_carry: bool = ((a & 0xF) as u16) + ((b & 0xF) as u16) + (carry_in as u16) > 0xF;
    let carry_out: bool = sum > 0xFF;
    (trunc_sum, half_carry, carry_out)
}

/// The 8-bit subtract helper: difference, half-borrow into bit 3, borrow.
pub fn sub8(a: u8, b: u8, carry_in: u8) -> (r: (u8, bool, bool))
    requires
        carry_in <= 1,
    ensures
        r.0 == sub8_val(a, b, carry_in),
        r.1 == sub8_half(a, b, carry_in),
        r.2 == sub8_borrow(a, b, carry_in),
{
    let result: u8 = a.wrapping_sub(b).wrapping_sub(carry_in);
    let half_borrow: bool = ((a & 0xF) as u16) < ((b & 0xF) as u16) + (carry_in as u16);
    let borrow: bool = (a as u16) < (b as u16) + (carry_in as u16);
    (result, half_borrow, borrow)
}

/// The 16-bit add helper: sum, half-carry out of bit 11, carry out of bit 15.
pub fn add16(a: u16, b: u16) -> (r: (u16, bool, bool))
    ensures
        r.0 == add16_val(a, b),
        r.1 == add16_half(a, b),
        r.2 == add16_carry(a, b),
{
    let sum: u32 = (a as u32) + (b as u32);
    let half_carry: bool = ((a & 0xFFF) as u32) + ((b & 0xFFF) as u32) > 0xFFF;
    let carry_out: bool = sum > 0xFFFF;
    (a.wrapping_add(b), half_carry, carry_out)
}

/// The stack-pointer-relative add helper: sum, half-carry out of bit 3 and
/// carry out of bit 7, both computed on the low bytes only.
pub fn add16_special(a: u16, b: u16) -> (r: (u16, bool, bool))
    ensures
        r.0 == add16_val(a, b),
        r.1 == addsp_half(a, b),
        r.2 == addsp_carry(a, b),
{
    let half_carry: bool = ((a & 0xF) as u32) + ((b & 0xF) as u32) > 0xF;
    let carry_out: bool = ((a & 0xFF) as u32) + ((b & 0xFF) as u32) > 0xFF;
    (a.wrapping_add(b), half_carry, carry_out)
}

// ---------------------------------------------------------------------------
// Load instructions
// ---------------------------------------------------------------------------

pub fn ld_r8_r8(game_state: &mut GameState, r1: Register, r2: Register) -> (cycles: u8)
    requires
        old(game_state).wf(),
        is_reg8(r1),
        is_reg8(r2),
    ensures
        final(game_state).wf(),
        final(game_state)@ == old(game_state)@.with_reg8(r1, old(game_state)@.reg8(r2)),
        cycles == 1,
{
    let v = game_state.get_register8(r2);
    game_state.set_register8(r1, v);
    1
}

pub fn ld_r8_n8(game_state: &mut GameState, r1: Register) -> (cycles: u8)
    requires
        old(game_state).wf(),
        is_reg8(r1),
    ensures
        final(game_state).wf(),
        final(game_state)@ == old(game_state)@.with_reg8(
            r1,
            old(game_state)@.read8(old(game_state)@.pc.wrapping_add(1)),
        ),
        cycles == 2,
{
    let val = game_state.read(game_state.get_register16(Register::PC).wrapping_add(1));
    game_state.set_register8(r1, val);
    2
}

pub fn ld_r16_n16(game_state: &mut GameState, r1: Register) -> (cycles: u8)
    requires
        old(game_state).wf(),
        is_reg16(r1),
    ensures
        final(game_state).wf(),
        final(game_state)@ == old(game_state)@.with_reg16(
            r1,
            (old(game_state)@.read8(old(game_state)@.pc.wrapping_add(2)) * 256
                + old(game_state)@.read8(old(game_state)@.pc.wrapping_add(1))) as u16,
        ),
        cycles == 2,
{
    let lsb = game_state.read(game_state.get_register16(Register::PC).wrapping_add(1));
    let msb = game_state.read(game_state.get_register16(Register::PC).wrapping_add(2));
    let val = generate_16bit(lsb, msb);
    game_state.set_register16(r1, val);
    2
}

pub fn ld_hladdr_r8(game_state: &mut GameState, r: Register) -> (cycles: u8)
    requires
        old(game_state).wf(),
        is_reg8(r),
    ensures
        final(game_state).wf(),
        final(game_state)@ == old(game_state)@.write8(
            old(game_state)@.reg8(r),
            old(game_state)@.reg16(Register::HL),
        ),
        cycles == 2,
{
    let v = game_state.get_register8(r);
    let addr = game_state.get_register16(Register::HL);
    game_state.write(v, addr);
    2
}

pub fn ld_hladdr_n8(game_state: &mut GameState) -> (cycles: u8)
    requires
        old(game_state).wf(),
    ensures
        final(game_state).wf(),
        final(game_state)@ == old(game_state)@.write8(
            old(game_state)@.read8(old(game_state)@.pc.wrapping_add(1)),
            old(game_state)@.reg16(Register::HL),
        ),
        cycles == 3,
{
    let val = game_state.read(game_state.get_register16(Register::PC).wrapping_add(1));
    let addr = game_state.get_register16(Register::HL);
    game_state.write(val, addr);
    3
}

pub fn ld_r8_hladdr(game_state: &mut GameState, r: Register) -> (cycles: u8)
    requires
        old(game_state).wf(),
        is_reg8(r),
    ensures
        final(game_state).wf(),
        final(game_state)@ == old(game_state)@.with_reg8(
            r,
            old(game_state)@.read8(old(game_state)@.reg16(Register::HL)),
        ),
        cycles == 2,
{
    let val = game_state.read(game_state.get_register16(Register::HL));
    game_state.set_register8(r, val);
    2
}

pub fn ld_r16addr_a(game_state: &mut GameState, r: Register) -> (cycles: u8)
    requires
        old(game_state).wf(),
        is_reg16(r),
    ensures
        final(game_state).wf(),
        final(game_state)@ == old(game_state)@.write8(
            old(game_state)@.a,
            old(game_state)@.reg16(r),
        ),
        cycles == 2,
{
    let v = game_state.get_register8(Register::A);
    let addr = game_state.get_register16(r);
    game_state.write(v, addr);
    2
}

pub fn ld_n16addr_a(game_state: &mut GameState) -> (cycles: u8)
    requires
        old(game_state).wf(),
    ensures
        final(game_state).wf(),
        final(game_state)@ == old(game_state)@.write8(
            old(game_state)@.a,
            (old(game_state)@.read8(old(game_state)@.pc.wrapping_add(2)) * 256
                + old(game_state)@.read8(old(game_state)@.pc.wrapping_add(1))) as u16,
        ),
        cycles == 4,
{
    let lsb = game_state.read(game_state.get_register16(Register::PC).wrapping_add(1));
    let msb = game_state.read(game_state.get_register16(Register::PC).wrapping_add(2));
    let addr = generate_16bit(lsb, msb);
    let v = game_state.get_register8(Register::A);
    game_state.write(v, addr);
    4
}

pub fn ldh_n8addr_a(game_state: &mut GameState) -> (cycles: u8)
    requires
        old(game_state).wf(),
    ensures
        final(game_state).wf(),
        final(game_state)@ == old(game_state)@.write8(
            old(game_state)@.a,
            (0xFF00 + old(game_state)@.read8(old(game_state)@.pc.wrapping_add(1))) as u16,
        ),
        cycles == 3,
{
    let lsb = game_state.read(game_state.get_register16(Register::PC).wrapping_add(1));
    let addr: u16 = 0xFF00 + (lsb as u16);
    let v = game_state.get_register8(Register::A);
    game_state.write(v, addr);
    3
}

pub fn ldh_caddr_a(game_state: &mut GameState) -> (cycles: u8)
    requires
        old(game_state).wf(),
    ensures
        final(game_state).wf(),
        final(game_state)@ == old(game_state)@.write8(
            old(game_state)@.a,
            (0xFF00 + old(game_state)@.c) as u16,
        ),
        cycles == 2,
{
    let v = game_state.get_register8(Register::A);
    let addr: u16 = 0xFF00 + (game_state.get_register8(Register::C) as u16);
    game_state.write(v, addr);
    2
}

pub fn ld_a_r16addr(game_state: &mut GameState, r: Register) -> (cycles: u8)
    requires
        old(game_state).wf(),
        is_reg16(r),
    ensures
        final(game_state).wf(),
        final(game_state)@ == old(game_state)@.with_reg8(
            Register::A,
            old(game_state)@.read8(old(game_state)@.reg16(r)),
        ),
        cycles == 2,
{
    let val = game_state.read(game_state.get_register16(r));
    game_state.set_register8(Register::A, val);
    2
}

pub fn ld_a_n16addr(game_state: &mut GameState) -> (cycles: u8)
    requires
        old(game_state).wf(),
    ensures
        final(game_state).wf(),
        final(game_state)@ == old(game_state)@.with_reg8(
            Register::A,
            old(game_state)@.read8(
                (old(game_state)@.read8(old(game_state)@.pc.wrapping_add(2)) * 256
                    + old(game_state)@.read8(old(game_state)@.pc.wrapping_add(1))) as u16,
            ),
        ),
        cycles == 4,
{
    let lsb = game_state.read(game_state.get_register16(Register::PC).wrapping_add(1));
    let msb = game_state.read(game_state.get_register16(Register::PC).wrapping_add(2));
    let addr = generate_16bit(lsb, msb);
    let val = game_state.read(addr);
    game_state.set_register8(Register::A, val);
    4
}

pub fn ldh_a_n8addr(game_state: &mut GameState) -> (cycles: u8)
    requires
        old(game_state).wf(),
    ensures
        final(game_state).wf(),
        final(game_state)@ == old(game_state)@.with_reg8(
            Register::A,
            old(game_state)@.read8(
                (0xFF00 + old(game_state)@.read8(old(game_state)@.pc.wrapping_add(1))) as u16,
            ),
        ),
        cycles == 3,
{
    let lsb = game_state.read(game_state.get_register16(Register::PC).wrapping_add(1));
    let addr: u16 = 0xFF00 + (lsb as u16);
    let val = game_state.read(addr);
    game_state.set_register8(Register::A, val);
    3
}

pub fn ldh_a_caddr(game_state: &mut GameState) -> (cycles: u8)
    requires
        old(game_state).wf(),
    ensures
        final(game_state).wf(),
        final(game_state)@ == old(game_state)@.with_reg8(
            Register::A,
            old(game_state)@.read8((0xFF00 + old(game_state)@.c) as u16),
        ),
        cycles == 2,
{
    let addr: u16 = (game_state.get_register8(Register::C) as u16) + 0xFF00;
    let val = game_state.read(addr);
    game_state.set_register8(Register::A, val);
    2
}

pub fn ld_hliaddr_a(game_state: &mut GameState) -> (cycles: u8)
    requires
        old(game_state).wf(),
    ensures
        final(game_state).wf(),
        final(game_state)@ == old(game_state)@.write8(
            old(game_state)@.a,
            old(game_state)@.reg16(Register::HL),
        ).with_reg16(Register::HL, old(game_state)@.reg16(Register::HL).wrapping_add(1)),
        cycles == 2,
{
    ld_hladdr_r8(game_state, Register::A);
    let hl = game_state.get_register16(Register::HL);
    game_state.set_register16(Register::HL, hl.wrapping_add(1));
    2
}

pub fn ld_hldaddr_a(game_state: &mut GameState) -> (cycles: u8)
    requires
        old(game_state).wf(),
    ensures
        final(game_state).wf(),
        final(game_state)@ == old(game_state)@.write8(
            old(game_state)@.a,
            old(game_state)@.reg16(Register::HL),
        ).with_reg16(Register::HL, old(game_state)@.reg16(Register::HL).wrapping_sub(1)),
        cycles == 2,
{
    ld_hladdr_r8(game_state, Register::A);
    let hl = game_state.get_register16(Register::HL);
    game_state.set_register16(Register::HL, hl.wrapping_sub(1));
    2
}

pub fn ld_a_hld(game_state: &mut GameState) -> (cycles: u8)
    requires
        old(game_state).wf(),
    ensures
        final(game_state).wf(),
        final(game_state)@ == old(game_state)@.with_reg8(
            Register::A,
            old(game_state)@.read8(old(game_state)@.reg16(Register::HL)),
        ).with_reg16(Register::HL, old(game_state)@.reg16(Register::HL).wrapping_sub(1)),
        cycles == 2,
{
    ld_a_r16addr(game_state, Register::HL);
    let hl = game_state.get_register16(Register::HL);
    game_state.set_register16(Register::HL, hl.wrapping_sub(1));
    2
}

pub fn ld_a_hli(game_state: &mut GameState) -> (cycles: u8)
    requires
        old(game_state).wf(),
    ensures
        final(game_state).wf(),
        final(game_state)@ == old(game_state)@.with_reg8(
            Register::A,
            old(game_state)@.read8(old(game_state)@.reg16(Register::HL)),
        ).with_reg16(Register::HL, old(game_state)@.reg16(Register::HL).wrapping_add(1)),
        cycles == 2,
{
    ld_a_r16addr(game_state, Register::HL);
    let hl = game_state.get_register16(Register::HL);
    game_state.set_register16(Register::HL, hl.wrapping_add(1));
    2
}

// ---------------------------------------------------------------------------
// 8-bit adds and subtracts
// ---------------------------------------------------------------------------

/// The state after an 8-bit add of `val` into the accumulator: A holds the
/// truncated sum, Z/N/H/C are recomputed; carry-in is the C flag if asked for.
pub open spec fn sp_add_a(v: StateView, val: u8, carry_on: bool) -> StateView {
    let cin: u8 = if carry_on && v.flags().C {
        1
    } else {
        0
    };
    let r = add8_val(v.a, val, cin);
    v.with_reg8(Register::A, r).with_flags(Flags {
        Z: r == 0,
        N: false,
        H: add8_half(v.a, val, cin),
        C: add8_carry(v.a, val, cin),
    })
}

fn general_add_a_n8(game_state: &mut GameState, val: u8, carry_on: bool)
    requires
        old(game_state).wf(),
    ensures
        final(game_state).wf(),
        final(game_state)@ == sp_add_a(old(game_state)@, val, carry_on),
{
    let c: u8 = if carry_on && game_state.get_flags().C {
        1
    } else {
        0
    };
    let (result, half_carry, carry_out) = add8(game_state.get_register8(Register::A), val, c);
    game_state.set_register8(Register::A, result);
    let new_flags = Flags { Z: result == 0, N: false, H: half_carry, C: carry_out };
    game_state.set_flags(&new_flags);
}

pub fn adc_a_r8(game_state: &mut GameState, r: Register) -> (cycles: u8)
    requires
        old(game_state).wf(),
        is_reg8(r),
    ensures
        final(game_state).wf(),
        final(game_state)@ == sp_add_a(old(game_state)@, old(game_state)@.reg8(r), true),
        cycles == 1,
{
    let v = game_state.get_register8(r);
    general_add_a_n8(game_state, v, true);
    1
}

pub fn adc_a_hladdr(game_state: &mut GameState) -> (cycles: u8)
    requires
        old(game_state).wf(),
    ensures
        final(game_state).wf(),
        final(game_state)@ == sp_add_a(
            old(game_state)@,
            old(game_state)@.read8(old(game_state)@.reg16(Register::HL)),
            true,
        ),
        cycles == 2,
{
    let v = game_state.read(game_state.get_register16(Register::HL));
    general_add_a_n8(game_state, v, true);
    2
}

pub fn adc_a_n8(game_state: &mut GameState) -> (cycles: u8)
    requires
        old(game_state).wf(),
    ensures
        final(game_state).wf(),
        final(game_state)@ == sp_add_a(
            old(game_state)@,
            old(game_state)@.read8(old(game_state)@.pc.wrapping_add(1)),
            true,
        ),
        cycles == 2,
{
    let val = game_state.read(game_state.get_register16(Register::PC).wrapping_add(1));
    general_add_a_n8(game_state, val, true);
    2
}

pub fn add_a_r8(game_state: &mut GameState, r: Register) -> (cycles: u8)
    requires
        old(game_state).wf(),
        is_reg8(r),
    ensures
        final(game_state).wf(),
        final(game_state)@ == sp_add_a(old(game_state)@, old(game_state)@.reg8(r), false),
        cycles == 1,
{
    let v = game_state.get_register8(r);
    general_add_a_n8(game_state, v, false);
    1
}

pub fn add_a_hladdr(game_state: &mut GameState) -> (cycles: u8)
    requires
        old(game_state).wf(),
    ensures
        final(game_state).wf(),
        final(game_state)@ == sp_add_a(
            old(game_state)@,
            old(game_state)@.read8(old(game_state)@.reg16(Register::HL)),
            false,
        ),
        cycles == 2,
{
    let v = game_state.read(game_state.get_register16(Register::HL));
    general_add_a_n8(game_state, v, false);
    2
}

pub fn add_a_n8(game_state: &mut GameState) -> (cycles: u8)
    requires
        old(game_state).wf(),
    ensures
        final(game_state).wf(),
        final(game_state)@ == sp_add_a(
            old(game_state)@,
            old(game_state)@.read8(old(game_state)@.pc.wrapping_add(1)),
            false,
        ),
        cycles == 2,
{
    let val = game_state.read(game_state.get_register16(Register::PC).wrapping_add(1));
    general_add_a_n8(game_state, val, false);
    2
}

/// The state after a 16-bit add into HL: Z is left untouched, N cleared,
/// H/C from bits 11 and 15.
pub open spec fn sp_add_hl(v: StateView, val: u16) -> StateView {
    let hl = v.reg16(Register::HL);
    v.with_reg16(Register::HL, add16_val(hl, val)).with_flags(Flags {
        Z: v.flags().Z,
        N: false,
        H: add16_half(hl, val),
        C: add16_carry(hl, val),
    })
}

pub fn add_hl_r16(game_state: &mut GameState, r: Register) -> (cycles: u8)
    requires
        old(game_state).wf(),
        is_reg16(r),
    ensures
        final(game_state).wf(),
        final(game_state)@ == sp_add_hl(old(game_state)@, old(game_state)@.reg16(r)),
        cycles == 2,
{
    let (result, half_carry, carry_out) = add16(
        game_state.get_register16(Register::HL),
        game_state.get_register16(r),
    );
    game_state.set_register16(Register::HL, result);
    let new_flags = Flags {
        Z: game_state.get_flags().Z,
        N: false,
        H: half_carry,
        C: carry_out,
    };
    game_state.set_flags(&new_flags);
    2
}

pub fn add_hl_sp(game_state: &mut GameState) -> (cycles: u8)
    requires
        old(game_state).wf(),
    ensures
        final(game_state).wf(),
        final(game_state)@ == sp_add_hl(old(game_state)@, old(game_state)@.sp),
        cycles == 2,
{
    add_hl_r16(game_state, Register::SP);
    2
}

/// The state after an 8-bit subtract of `val` from the accumulator, with
/// the C flag as borrow-in when asked for; a compare (`discard`) leaves A
/// untouched.
pub open spec fn sp_sub_a(v: StateView, val: u8, borrow_on: bool, discard: bool) -> StateView {
    let cin: u8 = if borrow_on && v.flags().C {
        1
    } else {
        0
    };
    let r = sub8_val(v.a, val, cin);
    let v1 = if discard {
        v
    } else {
        v.with_reg8(Register::A, r)
    };
    v1.with_flags(Flags {
        Z: r == 0,
        N: true,
        H: sub8_half(v.a, val, cin),
        C: sub8_borrow(v.a, val, cin),
    })
}

fn general_sub_a_n8(game_state: &mut GameState, val: u8, borrow_on: bool, discard: bool)
    requires
        old(game_state).wf(),
    ensures
        final(game_state).wf(),
        final(game_state)@ == sp_sub_a(old(game_state)@, val, borrow_on, discard),
{
    let c: u8 = if borrow_on && game_state.get_flags().C {
        1
    } else {
        0
    };
    let (result, half_borrow, borrow) = sub8(game_state.get_register8(Register::A), val, c);
    if !discard {
        game_state.set_register8(Register::A, result);
    }
    let new_flags = Flags { Z: result == 0, N: true, H: half_borrow, C: borrow };
    game_state.set_flags(&new_flags);
}

pub fn sbc_a_r8(game_state: &mut GameState, r: Register) -> (cycles: u8)
    requires
        old(game_state).wf(),
        is_reg8(r),
    ensures
        final(game_state).wf(),
        final(game_state)@ == sp_sub_a(old(game_state)@, old(game_state)@.reg8(r), true, false),
        cycles == 1,
{
    let v = game_state.get_register8(r);
    general_sub_a_n8(game_state, v, true, false);
    1
}

pub fn sbc_a_hladdr(game_state: &mut GameState) -> (cycles: u8)
    requires
        old(game_state).wf(),
    ensures
        final(game_state).wf(),
        final(game_state)@ == sp_sub_a(
            old(game_state)@,
            old(game_state)@.read8(old(game_state)@.reg16(Register::HL)),
            true,
            false,
        ),
        cycles == 2,
{
    let v = game_state.read(game_state.get_register16(Register::HL));
    general_sub_a_n8(game_state, v, true, false);
    2
}

pub fn sbc_a_n8(game_state: &mut GameState) -> (cycles: u8)
    requires
        old(game_state).wf(),
    ensures
        final(game_state).wf(),
        final(game_state)@ == sp_sub_a(
            old(game_state)@,
            old(game_state)@.read8(old(game_state)@.pc.wrapping_add(1)),
            true,
            false,
        ),
        cycles == 2,
{
    let val = game_state.read(game_state.get_register16(Register::PC).wrapping_add(1));
    general_sub_a_n8(game_state, val, true, false);
    2
}

pub fn sub_a_r8(game_state: &mut GameState, r: Register) -> (cycles: u8)
    requires
        old(game_state).wf(),
        is_reg8(r),
    ensures
        final(game_state).wf(),
        final(game_state)@ == sp_sub_a(old(game_state)@, old(game_state)@.reg8(r), false, false),
        cycles == 1,
{
    let v = game_state.get_register8(r);
    general_sub_a_n8(game_state, v, false, false);
    1
}

pub fn sub_a_hladdr(game_state: &mut GameState) -> (cycles: u8)
    requires
        old(game_state).wf(),
    ensures
        final(game_state).wf(),
        final(game_state)@ == sp_sub_a(
            old(game_state)@,
            old(game_state)@.read8(old(game_state)@.reg16(Register::HL)),
            false,
            false,
        ),
        cycles == 2,
{
    let v = game_state.read(game_state.get_register16(Register::HL));
    general_sub_a_n8(game_state, v, false, false);
    2
}

pub fn sub_a_n8(game_state: &mut GameState) -> (cycles: u8)
    requires
        old(game_state).wf(),
    ensures
        final(game_state).wf(),
        final(game_state)@ == sp_sub_a(
            old(game_state)@,
            old(game_state)@.read8(old(game_state)@.pc.wrapping_add(1)),
            false,
            false,
        ),
        cycles == 2,
{
    let val = game_state.read(game_state.get_register16(Register::PC).wrapping_add(1));
    general_sub_a_n8(game_state, val, false, false);
    2
}

pub fn cp_a_r8(game_state: &mut GameState, r: Register) -> (cycles: u8)
    requires
        old(game_state).wf(),
        is_reg8(r),
    ensures
        final(game_state).wf(),
        final(game_state)@ == sp_sub_a(old(game_state)@, old(game_state)@.reg8(r), false, true),
        cycles == 1,
{
    let v = game_state.get_register8(r);
    general_sub_a_n8(game_state, v, false, true);
    1
}

pub fn cp_a_hladdr(game_state: &mut GameState) -> (cycles: u8)
    requires
        old(game_state).wf(),
    ensures
        final(game_state).wf(),
        final(game_state)@ == sp_sub_a(
            old(game_state)@,
            old(game_state)@.read8(old(game_state)@.reg16(Register::HL)),
            false,
            true,
        ),
        cycles == 2,
{
    let v = game_state.read(game_state.get_register16(Register::HL));
    general_sub_a_n8(game_state, v, false, true);
    2
}

pub fn cp_a_n8(game_state: &mut GameState) -> (cycles: u8)
    requires
        old(game_state).wf(),
    ensures
        final(game_state).wf(),
        final(game_state)@ == sp_sub_a(
            old(game_state)@,
            old(game_state)@.read8(old(game_state)@.pc.wrapping_add(1)),
            false,
            true,
        ),
        cycles == 2,
{
    let val = game_state.read(game_state.get_register16(Register::PC).wrapping_add(1));
    general_sub_a_n8(game_state, val, false, true);
    2
}

// ---------------------------------------------------------------------------
// Increments and decrements
// ---------------------------------------------------------------------------

/// The state after an 8-bit decrement of register `r`: C is preserved
/// (read back after the register write, as the hardware-facing order has it).
pub open spec fn sp_dec8(v: StateView, r: Register) -> StateView {
    let x = v.reg8(r);
    let v1 = v.with_reg8(r, sub8_val(x, 1, 0));
    v1.with_flags(Flags {
        Z: sub8_val(x, 1, 0) == 0,
        N: true,
        H: sub8_half(x, 1, 0),
        C: v1.flags().C,
    })
}

pub fn dec_r8(game_state: &mut GameState, r: Register) -> (cycles: u8)
    requires
        old(game_state).wf(),
        is_reg8(r),
    ensures
        final(game_state).wf(),
        final(game_state)@ == sp_dec8(old(game_state)@, r),
        cycles == 1,
{
    let (result, half_borrow, _) = sub8(game_state.get_register8(r), 1, 0);
    game_state.set_register8(r, result);
    let new_flags = Flags {
        Z: result == 0,
        N: true,
        H: half_borrow,
        C: game_state.get_flags().C,
    };
    game_state.set_flags(&new_flags);
    1
}

pub fn dec_hladdr(game_state: &mut GameState) -> (cycles: u8)
    requires
        old(game_state).wf(),
    ensures
        final(game_state).wf(),
        final(game_state)@ == ({
            let v = old(game_state)@;
            let addr = v.reg16(Register::HL);
            let x = v.read8(addr);
            v.write8(sub8_val(x, 1, 0), addr).with_flags(Flags {
                Z: sub8_val(x, 1, 0) == 0,
                N: true,
                H: sub8_half(x, 1, 0),
                C: v.flags().C,
            })
        }),
        cycles == 3,
{
    let addr = game_state.get_register16(Register::HL);
    let (result, half_borrow, _) = sub8(game_state.read(addr), 1, 0);
    game_state.write(result, addr);
    let new_flags = Flags {
        Z: result == 0,
        N: true,
        H: half_borrow,
        C: game_state.get_flags().C,
    };
    game_state.set_flags(&new_flags);
    3
}

pub fn dec_r16(game_state: &mut GameState, r: Register) -> (cycles: u8)
    requires
        old(game_state).wf(),
        is_reg16(r),
    ensures
        final(game_state).wf(),
        final(game_state)@ == old(game_state)@.with_reg16(
            r,
            old(game_state)@.reg16(r).wrapping_sub(1),
        ),
        cycles == 2,
{
    let v = game_state.get_register16(r);
    game_state.set_register16(r, v.wrapping_sub(1));
    2
}

/// The state after an 8-bit increment of register `r`: C is preserved
/// (read back after the register write, as the hardware-facing order has it).
pub open spec fn sp_inc8(v: StateView, r: Register) -> StateView {
    let x = v.reg8(r);
    let v1 = v.with_reg8(r, add8_val(x, 1, 0));
    v1.with_flags(Flags {
        Z: add8_val(x, 1, 0) == 0,
        N: false,
        H: add8_half(x, 1, 0),
        C: v1.flags().C,
    })
}

pub fn inc_r8(game_state: &mut GameState, r: Register) -> (cycles: u8)
    requires
        old(game_state).wf(),
        is_reg8(r),
    ensures
        final(game_state).wf(),
        final(game_state)@ == sp_inc8(old(game_state)@, r),
        cycles == 1,
{
    let (result, half_carry, _) = add8(game_state.get_register8(r), 1, 0);
    game_state.set_register8(r, result);
    let new_flags = Flags {
        Z: result == 0,
        N: false,
        H: half_carry,
        C: game_state.get_flags().C,
    };
    game_state.set_flags(&new_flags);
    1
}

pub fn inc_hladdr(game_state: &mut GameState) -> (cycles: u8)
    requires
        old(game_state).wf(),
    ensures
        final(game_state).wf(),
        final(game_state)@ == ({
            let v = old(game_state)@;
            let addr = v.reg16(Register::HL);
            let x = v.read8(addr);
            v.write8(add8_val(x, 1, 0), addr).with_flags(Flags {
                Z: add8_val(x, 1, 0) == 0,
                N: false,
                H: add8_half(x, 1, 0),
                C: v.flags().C,
            })
        }),
        cycles == 3,
{
    let addr = game_state.get_register16(Register::HL);
    let (result, half_carry, _) = add8(game_state.read(addr), 1, 0);
    game_state.write(result, addr);
    let new_flags = Flags {
        Z: result == 0,
        N: false,
        H: half_carry,
        C: game_state.get_flags().C,
    };
    game_state.set_flags(&new_flags);
    3
}

pub fn inc_r16(game_state: &mut GameState, r: Register) -> (cycles: u8)
    requires
        old(game_state).wf(),
        is_reg16(r),
    ensures
        final(game_state).wf(),
        final(game_state)@ == old(game_state)@.with_reg16(
            r,
            old(game_state)@.reg16(r).wrapping_add(1),
        ),
        cycles == 2,
{
    let v = game_state.get_register16(r);
    game_state.set_register16(r, v.wrapping_add(1));
    2
}

// ---------------------------------------------------------------------------
// Bitwise logic
// ---------------------------------------------------------------------------

/// The flags of a bitwise AND with the accumulator: Z from the result, H set.
pub open spec fn and_flags(result: u8) -> Flags {
    Flags { Z: result == 0, N: false, H: true, C: false }
}

/// The flags of a bitwise OR or XOR with the accumulator: Z from the result.
pub open spec fn or_flags(result: u8) -> Flags {
    Flags { Z: result == 0, N: false, H: false, C: false }
}

fn general_and_a(game_state: &mut GameState, val: u8) -> (result: u8)
    requires
        old(game_state).wf(),
    ensures
        final(game_state).wf(),
        result == old(game_state)@.a & val,
        final(game_state)@ == old(game_state)@.with_flags(and_flags(old(game_state)@.a & val)),
{
    let result = game_state.get_register8(Register::A) & val;
    let new_flags = Flags { Z: result == 0, N: false, H: true, C: false };
    game_state.set_flags(&new_flags);
    result
}

pub fn and_a_r8(game_state: &mut GameState, r: Register) -> (cycles: u8)
    requires
        old(game_state).wf(),
        is_reg8(r),
    ensures
        final(game_state).wf(),
        final(game_state)@ == ({
            let v = old(game_state)@;
            let result = v.a & v.reg8(r);
            v.with_flags(and_flags(result)).with_reg8(Register::A, result)
        }),
        cycles == 1,
{
    let x = game_state.get_register8(r);
    let result = general_and_a(game_state, x);
    game_state.set_register8(Register::A, result);
    1
}

pub fn and_a_hladdr(game_state: &mut GameState) -> (cycles: u8)
    requires
        old(game_state).wf(),
    ensures
        final(game_state).wf(),
        final(game_state)@ == ({
            let v = old(game_state)@;
            let result = v.a & v.read8(v.reg16(Register::HL));
            v.with_flags(and_flags(result)).with_reg8(Register::A, result)
        }),
        cycles == 2,
{
    let x = game_state.read(game_state.get_register16(Register::HL));
    let result = general_and_a(game_state, x);
    game_state.set_register8(Register::A, result);
    2
}

pub fn and_a_n8(game_state: &mut GameState) -> (cycles: u8)
    requires
        old(game_state).wf(),
    ensures
        final(game_state).wf(),
        final(game_state)@ == ({
            let v = old(game_state)@;
            let result = v.a & v.read8(v.pc.wrapping_add(1));
            v.with_flags(and_flags(result)).with_reg8(Register::A, result)
        }),
        cycles == 2,
{
    let val = game_state.read(game_state.get_register16(Register::PC).wrapping_add(1));
    let result = general_and_a(game_state, val);
    game_state.set_register8(Register::A, result);
    2
}

pub fn cpl(game_state: &mut GameState) -> (cycles: u8)
    requires
        old(game_state).wf(),
    ensures
        final(game_state).wf(),
        final(game_state)@ == ({
            let v = old(game_state)@;
            v.with_reg8(Register::A, !v.a).with_flags(Flags {
                Z: v.flags().Z,
                N: true,
                H: true,
                C: v.flags().C,
            })
        }),
        cycles == 1,
{
    let a = game_state.get_register8(Register::A);
    game_state.set_register8(Register::A, !a);
    let old_flags = game_state.get_flags();
    let new_flags = Flags { Z: old_flags.Z, N: true, H: true, C: old_flags.C };
    game_state.set_flags(&new_flags);
    1
}

fn general_or_a(game_state: &mut GameState, val: u8, exclusive: bool) -> (result: u8)
    requires
        old(game_state).wf(),
    ensures
        final(game_state).wf(),
        result == (if exclusive {
            old(game_state)@.a ^ val
        } else {
            old(game_state)@.a | val
        }),
        final(game_state)@ == old(game_state)@.with_flags(or_flags(
            if exclusive {
                old(game_state)@.a ^ val
            } else {
                old(game_state)@.a | val
            },
        )),
{
    let a = game_state.get_register8(Register::A);
    let result = if exclusive {
        a ^ val
    } else {
        a | val
    };
    let new_flags = Flags { Z: result == 0, N: false, H: false, C: false };
    game_state.set_flags(&new_flags);
    result
}

pub fn or_a_r8(game_state: &mut GameState, r: Register) -> (cycles: u8)
    requires
        old(game_state).wf(),
        is_reg8(r),
    ensures
        final(game_state).wf(),
        final(game_state)@ == ({
            let v = old(game_state)@;
            let result = v.a | v.reg8(r);
            v.with_flags(or_flags(result)).with_reg8(Register::A, result)
        }),
        cycles == 1,
{
    let x = game_state.get_register8(r);
    let result = general_or_a(game_state, x, false);
    game_state.set_register8(Register::A, result);
    1
}

pub fn or_a_hladdr(game_state: &mut GameState) -> (cycles: u8)
    requires
        old(game_state).wf(),
    ensures
        final(game_state).wf(),
        final(game_state)@ == ({
            let v = old(game_state)@;
            let result = v.a | v.read8(v.reg16(Register::HL));
            v.with_flags(or_flags(result)).with_reg8(Register::A, result)
        }),
        cycles == 2,
{
    let x = game_state.read(game_state.get_register16(Register::HL));
    let result = general_or_a(game_state, x, false);
    game_state.set_register8(Register::A, result);
    2
}

pub fn or_a_n8(game_state: &mut GameState) -> (cycles: u8)
    requires
        old(game_state).wf(),
    ensures
        final(game_state).wf(),
        final(game_state)@ == ({
            let v = old(game_state)@;
            let result = v.a | v.read8(v.pc.wrapping_add(1));
            v.with_flags(or_flags(result)).with_reg8(Register::A, result)
        }),
        cycles == 2,
{
    let val = game_state.read(game_state.get_register16(Register::PC).wrapping_add(1));
    let result = general_or_a(game_state, val, false);
    game_state.set_register8(Register::A, result);
    2
}

pub fn xor_a_r8(game_state: &mut GameState, r: Register) -> (cycles: u8)
    requires
        old(game_state).wf(),
        is_reg8(r),
    ensures
        final(game_state).wf(),
        final(game_state)@ == ({
            let v = old(game_state)@;
            let result = v.a ^ v.reg8(r);
            v.with_flags(or_flags(result)).with_reg8(Register::A, result)
        }),
        cycles == 1,
{
    let x = game_state.get_register8(r);
    let result = general_or_a(game_state, x, true);
    game_state.set_register8(Register::A, result);
    1
}

pub fn xor_a_hladdr(game_state: &mut GameState) -> (cycles: u8)
    requires
        old(game_state).wf(),
    ensures
        final(game_state).wf(),
        final(game_state)@ == ({
            let v = old(game_state)@;
            let result = v.a ^ v.read8(v.reg16(Register::HL));
            v.with_flags(or_flags(result)).with_reg8(Register::A, result)
        }),
        cycles == 2,
{
    let x = game_state.read(game_state.get_register16(Register::HL));
    let result = general_or_a(game_state, x, true);
    game_state.set_register8(Register::A, result);
    2
}

pub fn xor_a_n8(game_state: &mut GameState) -> (cycles: u8)
    requires
        old(game_state).wf(),
    ensures
        final(game_state).wf(),
        final(game_state)@ == ({
            let v = old(game_state)@;
            let result = v.a ^ v.read8(v.pc.wrapping_add(1));
            v.with_flags(or_flags(result)).with_reg8(Register::A, result)
        }),
        cycles == 2,
{
    let val = game_state.read(game_state.get_register16(Register::PC).wrapping_add(1));
    let result = general_or_a(game_state, val, true);
    game_state.set_register8(Register::A, result);
    2
}

// ---------------------------------------------------------------------------
// Bit test, set and clear
// ---------------------------------------------------------------------------

pub fn bit_u3_r8(game_state: &mut GameState, u: u8, r: Register) -> (cycles: u8)
    requires
        old(game_state).wf(),
        u <= 7,
        is_reg8(r),
    ensures
        final(game_state).wf(),
        final(game_state)@ == ({
            let v = old(game_state)@;
            v.with_flags(Flags {
                Z: v.reg8(r) & (1u8 << u) == 0,
                N: false,
                H: true,
                C: v.flags().C,
            })
        }),
        cycles == 2,
{
    let zero_flag = (game_state.get_register8(r) & (1u8 << u)) == 0;
    let new_flags = Flags { Z: zero_flag, N: false, H: true, C: game_state.get_flags().C };
    game_state.set_flags(&new_flags);
    2
}

pub fn bit_u3_hladdr(game_state: &mut GameState, u: u8) -> (cycles: u8)
    requires
        old(game_state).wf(),
        u <= 7,
    ensures
        final(game_state).wf(),
        final(game_state)@ == ({
            let v = old(game_state)@;
            v.with_flags(Flags {
                Z: v.read8(v.reg16(Register::HL)) & (1u8 << u) == 0,
                N: false,
                H: true,
                C: v.flags().C,
            })
        }),
        cycles == 3,
{
    let zero_flag = (game_state.read(game_state.get_register16(Register::HL)) & (1u8 << u)) == 0;
    let new_flags = Flags { Z: zero_flag, N: false, H: true, C: game_state.get_flags().C };
    game_state.set_flags(&new_flags);
    3
}

pub fn res_u3_r8(game_state: &mut GameState, u: u8, r: Register) -> (cycles: u8)
    requires
        old(game_state).wf(),
        u <= 7,
        is_reg8(r),
    ensures
        final(game_state).wf(),
        final(game_state)@ == old(game_state)@.with_reg8(
            r,
            old(game_state)@.reg8(r) & !(1u8 << u),
        ),
        cycles == 2,
{
    let x = game_state.get_register8(r);
    game_state.set_register8(r, x & !(1u8 << u));
    2
}

pub fn res_u3_hladdr(game_state: &mut GameState, u: u8) -> (cycles: u8)
    requires
        old(game_state).wf(),
        u <= 7,
    ensures
        final(game_state).wf(),
        final(game_state)@ == ({
            let v = old(game_state)@;
            let addr = v.reg16(Register::HL);
            v.write8(v.read8(addr) & !(1u8 << u), addr)
        }),
        cycles == 4,
{
    let addr = game_state.get_register16(Register::HL);
    let x = game_state.read(addr);
    game_state.write(x & !(1u8 << u), addr);
    4
}

pub fn set_u3_r8(game_state: &mut GameState, u: u8, r: Register) -> (cycles: u8)
    requires
        old(game_state).wf(),
        u <= 7,
        is_reg8(r),
    ensures
        final(game_state).wf(),
        final(game_state)@ == old(game_state)@.with_reg8(
            r,
            old(game_state)@.reg8(r) | (1u8 << u),
        ),
        cycles == 2,
{
    let x = game_state.get_register8(r);
    game_state.set_register8(r, x | (1u8 << u));
    2
}

pub fn set_u3_hladdr(game_state: &mut GameState, u: u8) -> (cycles: u8)
    requires
        old(game_state).wf(),
        u <= 7,
    ensures
        final(game_state).wf(),
        final(game_state)@ == ({
            let v = old(game_state)@;
            let addr = v.reg16(Register::HL);
            v.write8(v.read8(addr) | (1u8 << u), addr)
        }),
        cycles == 4,
{
    let addr = game_state.get_register16(Register::HL);
    let x = game_state.read(addr);
    game_state.write(x | (1u8 << u), addr);
    4
}

// ---------------------------------------------------------------------------
// Rotates, shifts and nibble swap
// ---------------------------------------------------------------------------

/// Rotate left through carry: the old C flag feeds bit 0.
pub open spec fn rl_val(x: u8, c: bool) -> u8 {
    let old_c: u8 = if c {
        1
    } else {
        0
    };
    (x << 1) | old_c
}

/// Rotate left circular: bit 7 feeds bit 0.
pub open spec fn rlc_val(x: u8) -> u8 {
    (x << 1) | (x >> 7)
}

/// Rotate right through carry: the old C flag feeds bit 7.
pub open spec fn rr_val(x: u8, c: bool) -> u8 {
    let old_c: u8 = if c {
        1
    } else {
        0
    };
    (x >> 1) | (old_c << 7)
}

/// Rotate right circular: bit 0 feeds bit 7.
pub open spec fn rrc_val(x: u8) -> u8 {
    (x >> 1) | ((x & 1) << 7)
}

/// Arithmetic shift left.
pub open spec fn sla_val(x: u8) -> u8 {
    x << 1
}

/// Arithmetic shift right: bit 7 is kept.
pub open spec fn sra_val(x: u8) -> u8 {
    (x >> 1) | (x & 0x80)
}

/// Logical shift right.
pub open spec fn srl_val(x: u8) -> u8 {
    x >> 1
}

/// Swap the two nibbles.
pub open spec fn swap_val(x: u8) -> u8 {
    (x << 4) | (x >> 4)
}

/// The flags every rotate and shift writes: N and H cleared, C the ejected
/// bit; the accumulator-only forms suppress Z.
pub open spec fn rot_flags(v: StateView, result: u8, c: bool, check_zero: bool) -> StateView {
    v.with_flags(Flags { Z: result == 0 && check_zero, N: false, H: false, C: c })
}

fn general_rl(game_state: &mut GameState, val: u8, check_zero: bool) -> (result: u8)
    requires
        old(game_state).wf(),
    ensures
        final(game_state).wf(),
        result == rl_val(val, old(game_state)@.flags().C),
        final(game_state)@ == rot_flags(
            old(game_state)@,
            rl_val(val, old(game_state)@.flags().C),
            val >> 7 == 1,
            check_zero,
        ),
{
    let old_c: u8 = if game_state.get_flags().C {
        1
    } else {
        0
    };
    let new_c: u8 = val >> 7;
    let result: u8 = (val << 1) | old_c;
    let new_flags = Flags { Z: result == 0 && check_zero, N: false, H: false, C: new_c == 1 };
    game_state.set_flags(&new_flags);
    result
}

pub fn rl_r8(game_state: &mut GameState, r: Register) -> (cycles: u8)
    requires
        old(game_state).wf(),
        is_reg8(r),
    ensures
        final(game_state).wf(),
        final(game_state)@ == ({
            let v = old(game_state)@;
            let x = v.reg8(r);
            rot_flags(v, rl_val(x, v.flags().C), x >> 7 == 1, true).with_reg8(r, rl_val(x, v.flags().C))
        }),
        cycles == 2,
{
    let x = game_state.get_register8(r);
    let result = general_rl(game_state, x, true);
    game_state.set_register8(r, result);
    2
}

pub fn rl_hladdr(game_state: &mut GameState) -> (cycles: u8)
    requires
        old(game_state).wf(),
    ensures
        final(game_state).wf(),
        final(game_state)@ == ({
            let v = old(game_state)@;
            let addr = v.reg16(Register::HL);
            let x = v.read8(addr);
            rot_flags(v, rl_val(x, v.flags().C), x >> 7 == 1, true).write8(rl_val(x, v.flags().C), addr)
        }),
        cycles == 4,
{
    let addr = game_state.get_register16(Register::HL);
    let x = game_state.read(addr);
    let result = general_rl(game_state, x, true);
    game_state.write(result, addr);
    4
}

pub fn rla(game_state: &mut GameState) -> (cycles: u8)
    requires
        old(game_state).wf(),
    ensures
        final(game_state).wf(),
        final(game_state)@ == ({
            let v = old(game_state)@;
            rot_flags(v, rl_val(v.a, v.flags().C), v.a >> 7 == 1, false).with_reg8(
                Register::A,
                rl_val(v.a, v.flags().C),
            )
        }),
        cycles == 1,
{
    let x = game_state.get_register8(Register::A);
    let result = general_rl(game_state, x, false);
    game_state.set_register8(Register::A, result);
    1
}

fn general_rlc(game_state: &mut GameState, val: u8, check_zero: bool) -> (result: u8)
    requires
        old(game_state).wf(),
    ensures
        final(game_state).wf(),
        result == rlc_val(val),
        final(game_state)@ == rot_flags(old(game_state)@, rlc_val(val), val >> 7 == 1, check_zero),
{
    let old_msb: u8 = val >> 7;
    let result: u8 = (val << 1) | old_msb;
    let new_flags = Flags { Z: result == 0 && check_zero, N: false, H: false, C: old_msb == 1 };
    game_state.set_flags(&new_flags);
    result
}

pub fn rlc_r8(game_state: &mut GameState, r: Register) -> (cycles: u8)
    requires
        old(game_state).wf(),
        is_reg8(r),
    ensures
        final(game_state).wf(),
        final(game_state)@ == ({
            let v = old(game_state)@;
            let x = v.reg8(r);
            rot_flags(v, rlc_val(x), x >> 7 == 1, true).with_reg8(r, rlc_val(x))
        }),
        cycles == 2,
{
    let x = game_state.get_register8(r);
    let result = general_rlc(game_state, x, true);
    game_state.set_register8(r, result);
    2
}

pub fn rlc_hladdr(game_state: &mut GameState) -> (cycles: u8)
    requires
        old(game_state).wf(),
    ensures
        final(game_state).wf(),
        final(game_state)@ == ({
            let v = old(game_state)@;
            let addr = v.reg16(Register::HL);
            let x = v.read8(addr);
            rot_flags(v, rlc_val(x), x >> 7 == 1, true).write8(rlc_val(x), addr)
        }),
        cycles == 4,
{
    let addr = game_state.get_register16(Register::HL);
    let x = game_state.read(addr);
    let result = general_rlc(game_state, x, true);
    game_state.write(result, addr);
    4
}

pub fn rlca(game_state: &mut GameState) -> (cycles: u8)
    requires
        old(game_state).wf(),
    ensures
        final(game_state).wf(),
        final(game_state)@ == ({
            let v = old(game_state)@;
            rot_flags(v, rlc_val(v.a), v.a >> 7 == 1, false).with_reg8(Register::A, rlc_val(v.a))
        }),
        cycles == 1,
{
    let x = game_state.get_register8(Register::A);
    let result = general_rlc(game_state, x, false);
    game_state.set_register8(Register::A, result);
    1
}

fn general_rr(game_state: &mut GameState, val: u8, check_zero: bool) -> (result: u8)
    requires
        old(game_state).wf(),
    ensures
        final(game_state).wf(),
        result == rr_val(val, old(game_state)@.flags().C),
        final(game_state)@ == rot_flags(
            old(game_state)@,
            rr_val(val, old(game_state)@.flags().C),
            val & 1 == 1,
            check_zero,
        ),
{
    let old_c: u8 = if game_state.get_flags().C {
        1
    } else {
        0
    };
    let new_c: u8 = val & 1;
    let result: u8 = (val >> 1) | (old_c << 7);
    let new_flags = Flags { Z: result == 0 && check_zero, N: false, H: false, C: new_c == 1 };
    game_state.set_flags(&new_flags);
    result
}

pub fn rr_r8(game_state: &mut GameState, r: Register) -> (cycles: u8)
    requires
        old(game_state).wf(),
        is_reg8(r),
    ensures
        final(game_state).wf(),
        final(game_state)@ == ({
            let v = old(game_state)@;
            let x = v.reg8(r);
            rot_flags(v, rr_val(x, v.flags().C), x & 1 == 1, true).with_reg8(r, rr_val(x, v.flags().C))
        }),
        cycles == 2,
{
    let x = game_state.get_register8(r);
    let result = general_rr(game_state, x, true);
    game_state.set_register8(r, result);
    2
}

pub fn rr_hladdr(game_state: &mut GameState) -> (cycles: u8)
    requires
        old(game_state).wf(),
    ensures
        final(game_state).wf(),
        final(game_state)@ == ({
            let v = old(game_state)@;
            let addr = v.reg16(Register::HL);
            let x = v.read8(addr);
            rot_flags(v, rr_val(x, v.flags().C), x & 1 == 1, true).write8(rr_val(x, v.flags().C), addr)
        }),
        cycles == 4,
{
    let addr = game_state.get_register16(Register::HL);
    let x = game_state.read(addr);
    let result = general_rr(game_state, x, true);
    game_state.write(result, addr);
    4
}

pub fn rra(game_state: &mut GameState) -> (cycles: u8)
    requires
        old(game_state).wf(),
    ensures
        final(game_state).wf(),
        final(game_state)@ == ({
            let v = old(game_state)@;
            rot_flags(v, rr_val(v.a, v.flags().C), v.a & 1 == 1, false).with_reg8(
                Register::A,
                rr_val(v.a, v.flags().C),
            )
        }),
        cycles == 1,
{
    let x = game_state.get_register8(Register::A);
    let result = general_rr(game_state, x, false);
    game_state.set_register8(Register::A, result);
    1
}

fn general_rrc(game_state: &mut GameState, val: u8, check_zero: bool) -> (result: u8)
    requires
        old(game_state).wf(),
    ensures
        final(game_state).wf(),
        result == rrc_val(val),
        final(game_state)@ == rot_flags(old(game_state)@, rrc_val(val), val & 1 == 1, check_zero),
{
    let old_lsb: u8 = val & 1;
    let result: u8 = (val >> 1) | (old_lsb << 7);
    let new_flags = Flags { Z: result == 0 && check_zero, N: false, H: false, C: old_lsb == 1 };
    game_state.set_flags(&new_flags);
    result
}

pub fn rrc_r8(game_state: &mut GameState, r: Register) -> (cycles: u8)
    requires
        old(game_state).wf(),
        is_reg8(r),
    ensures
        final(game_state).wf(),
        final(game_state)@ == ({
            let v = old(game_state)@;
            let x = v.reg8(r);
            rot_flags(v, rrc_val(x), x & 1 == 1, true).with_reg8(r, rrc_val(x))
        }),
        cycles == 2,
{
    let x = game_state.get_register8(r);
    let result = general_rrc(game_state, x, true);
    game_state.set_register8(r, result);
    2
}

pub fn rrc_hladdr(game_state: &mut GameState) -> (cycles: u8)
    requires
        old(game_state).wf(),
    ensures
        final(game_state).wf(),
        final(game_state)@ == ({
            let v = old(game_state)@;
            let addr = v.reg16(Register::HL);
            let x = v.read8(addr);
            rot_flags(v, rrc_val(x), x & 1 == 1, true).write8(rrc_val(x), addr)
        }),
        cycles == 4,
{
    let addr = game_state.get_register16(Register::HL);
    let x = game_state.read(addr);
    let result = general_rrc(game_state, x, true);
    game_state.write(result, addr);
    4
}

pub fn rrca(game_state: &mut GameState) -> (cycles: u8)
    requires
        old(game_state).wf(),
    ensures
        final(game_state).wf(),
        final(game_state)@ == ({
            let v = old(game_state)@;
            rot_flags(v, rrc_val(v.a), v.a & 1 == 1, false).with_reg8(Register::A, rrc_val(v.a))
        }),
        cycles == 1,
{
    let x = game_state.get_register8(Register::A);
    let result = general_rrc(game_state, x, false);
    game_state.set_register8(Register::A, result);
    1
}

fn general_sla(game_state: &mut GameState, val: u8) -> (result: u8)
    requires
        old(game_state).wf(),
    ensures
        final(game_state).wf(),
        result == sla_val(val),
        final(game_state)@ == rot_flags(old(game_state)@, sla_val(val), val >> 7 == 1, true),
{
    let old_msb: u8 = val >> 7;
    let result: u8 = val << 1;
    let new_flags = Flags { Z: result == 0, N: false, H: false, C: old_msb == 1 };
    game_state.set_flags(&new_flags);
    result
}

pub fn sla_r8(game_state: &mut GameState, r: Register) -> (cycles: u8)
    requires
        old(game_state).wf(),
        is_reg8(r),
    ensures
        final(game_state).wf(),
        final(game_state)@ == ({
            let v = old(game_state)@;
            let x = v.reg8(r);
            rot_flags(v, sla_val(x), x >> 7 == 1, true).with_reg8(r, sla_val(x))
        }),
        cycles == 2,
{
    let x = game_state.get_register8(r);
    let result = general_sla(game_state, x);
    game_state.set_register8(r, result);
    2
}

pub fn sla_hladdr(game_state: &mut GameState) -> (cycles: u8)
    requires
        old(game_state).wf(),
    ensures
        final(game_state).wf(),
        final(game_state)@ == ({
            let v = old(game_state)@;
            let addr = v.reg16(Register::HL);
            let x = v.read8(addr);
            rot_flags(v, sla_val(x), x >> 7 == 1, true).write8(sla_val(x), addr)
        }),
        cycles == 4,
{
    let addr = game_state.get_register16(Register::HL);
    let x = game_state.read(addr);
    let result = general_sla(game_state, x);
    game_state.write(result, addr);
    4
}

fn general_sra(game_state: &mut GameState, val: u8) -> (result: u8)
    requires
        old(game_state).wf(),
    ensures
        final(game_state).wf(),
        result == sra_val(val),
        final(game_state)@ == rot_flags(old(game_state)@, sra_val(val), val & 1 == 1, true),
{
    let old_lsb: u8 = val & 1;
    let msb_mask: u8 = val & 0x80;
    let result: u8 = (val >> 1) | msb_mask;
    let new_flags = Flags { Z: result == 0, N: false, H: false, C: old_lsb == 1 };
    game_state.set_flags(&new_flags);
    result
}

pub fn sra_r8(game_state: &mut GameState, r: Register) -> (cycles: u8)
    requires
        old(game_state).wf(),
        is_reg8(r),
    ensures
        final(game_state).wf(),
        final(game_state)@ == ({
            let v = old(game_state)@;
            let x = v.reg8(r);
            rot_flags(v, sra_val(x), x & 1 == 1, true).with_reg8(r, sra_val(x))
        }),
        cycles == 2,
{
    let x = game_state.get_register8(r);
    let result = general_sra(game_state, x);
    game_state.set_register8(r, result);
    2
}

pub fn sra_hladdr(game_state: &mut GameState) -> (cycles: u8)
    requires
        old(game_state).wf(),
    ensures
        final(game_state).wf(),
        final(game_state)@ == ({
            let v = old(game_state)@;
            let addr = v.reg16(Register::HL);
            let x = v.read8(addr);
            rot_flags(v, sra_val(x), x & 1 == 1, true).write8(sra_val(x), addr)
        }),
        cycles == 4,
{
    let addr = game_state.get_register16(Register::HL);
    let x = game_state.read(addr);
    let result = general_sra(game_state, x);
    game_state.write(result, addr);
    4
}

fn general_srl(game_state: &mut GameState, val: u8) -> (result: u8)
    requires
        old(game_state).wf(),
    ensures
        final(game_state).wf(),
        result == srl_val(val),
        final(game_state)@ == rot_flags(old(game_state)@, srl_val(val), val & 1 == 1, true),
{
    let old_lsb: u8 = val & 1;
    let result: u8 = val >> 1;
    let new_flags = Flags { Z: result == 0, N: false, H: false, C: old_lsb == 1 };
    game_state.set_flags(&new_flags);
    result
}

pub fn srl_r8(game_state: &mut GameState, r: Register) -> (cycles: u8)
    requires
        old(game_state).wf(),
        is_reg8(r),
    ensures
        final(game_state).wf(),
        final(game_state)@ == ({
            let v = old(game_state)@;
            let x = v.reg8(r);
            rot_flags(v, srl_val(x), x & 1 == 1, true).with_reg8(r, srl_val(x))
        }),
        cycles == 2,
{
    let x = game_state.get_register8(r);
    let result = general_srl(game_state, x);
    game_state.set_register8(r, result);
    2
}

pub fn srl_hladdr(game_state: &mut GameState) -> (cycles: u8)
    requires
        old(game_state).wf(),
    ensures
        final(game_state).wf(),
        final(game_state)@ == ({
            let v = old(game_state)@;
            let addr = v.reg16(Register::HL);
            let x = v.read8(addr);
            rot_flags(v, srl_val(x), x & 1 == 1, true).write8(srl_val(x), addr)
        }),
        cycles == 4,
{
    let addr = game_state.get_register16(Register::HL);
    let x = game_state.read(addr);
    let result = general_srl(game_state, x);
    game_state.write(result, addr);
    4
}

fn swap_general(game_state: &mut GameState, val: u8) -> (result: u8)
    requires
        old(game_state).wf(),
    ensures
        final(game_state).wf(),
        result == swap_val(val),
        final(game_state)@ == rot_flags(old(game_state)@, swap_val(val), false, true),
{
    let lower_mask: u8 = val << 4;
    let upper_mask: u8 = val >> 4;
    let result: u8 = lower_mask | upper_mask;
    let new_flags = Flags { Z: result == 0, N: false, H: false, C: false };
    game_state.set_flags(&new_flags);
    result
}

pub fn swap_r8(game_state: &mut GameState, r: Register) -> (cycles: u8)
    requires
        old(game_state).wf(),
        is_reg8(r),
    ensures
        final(game_state).wf(),
        final(game_state)@ == ({
            let v = old(game_state)@;
            let x = v.reg8(r);
            rot_flags(v, swap_val(x), false, true).with_reg8(r, swap_val(x))
        }),
        cycles == 2,
{
    let x = game_state.get_register8(r);
    let result = swap_general(game_state, x);
    game_state.set_register8(r, result);
    2
}

pub fn swap_hladdr(game_state: &mut GameState) -> (cycles: u8)
    requires
        old(game_state).wf(),
    ensures
        final(game_state).wf(),
        final(game_state)@ == ({
            let v = old(game_state)@;
            let addr = v.reg16(Register::HL);
            let x = v.read8(addr);
            rot_flags(v, swap_val(x), false, true).write8(swap_val(x), addr)
        }),
        cycles == 4,
{
    let addr = game_state.get_register16(Register::HL);
    let x = game_state.read(addr);
    let result = swap_general(game_state, x);
    game_state.write(result, addr);
    4
}

// ---------------------------------------------------------------------------
// Carry-flag operations, decimal adjust, power states, interrupt switches
// ---------------------------------------------------------------------------

pub fn ccf(game_state: &mut GameState) -> (cycles: u8)
    requires
        old(game_state).wf(),
    ensures
        final(game_state).wf(),
        final(game_state)@ == ({
            let v = old(game_state)@;
            v.with_flags(Flags { Z: v.flags().Z, N: false, H: false, C: !v.flags().C })
        }),
        cycles == 1,
{
    let old_flags = game_state.get_flags();
    let new_flags = Flags { Z: old_flags.Z, N: false, H: false, C: !old_flags.C };
    game_state.set_flags(&new_flags);
    1
}

pub fn scf(game_state: &mut GameState) -> (cycles: u8)
    requires
        old(game_state).wf(),
    ensures
        final(game_state).wf(),
        final(game_state)@ == ({
            let v = old(game_state)@;
            v.with_flags(Flags { Z: v.flags().Z, N: false, H: false, C: true })
        }),
        cycles == 1,
{
    let old_flags = game_state.get_flags();
    let new_flags = Flags { Z: old_flags.Z, N: false, H: false, C: true };
    game_state.set_flags(&new_flags);
    1
}

/// The decimal (BCD) adjustment of the accumulator after a binary add or
/// subtract: 0x06/0x60 corrections chosen from H, C and the digit values,
/// added after an add and subtracted after a subtract; Z is recomputed,
/// H cleared, C set when the high-digit correction fires on the add path.
pub open spec fn sp_daa(v: StateView) -> StateView {
    let fl = v.flags();
    let adj1: u8 = if (fl.N && fl.H) || (!fl.N && (fl.H || v.a & 0x0F > 0x09)) {
        0x06
    } else {
        0
    };
    let adj: u8 = if (fl.N && fl.C) || (!fl.N && (fl.C || v.a > 0x99)) {
        (adj1 + 0x60) as u8
    } else {
        adj1
    };
    let result = if fl.N {
        v.a.wrapping_sub(adj)
    } else {
        v.a.wrapping_add(adj)
    };
    let new_c = if !fl.N && (fl.C || v.a > 0x99) {
        true
    } else {
        fl.C
    };
    v.with_reg8(Register::A, result).with_flags(Flags { Z: result == 0, N: fl.N, H: false, C: new_c })
}

pub fn daa(game_state: &mut GameState) -> (cycles: u8)
    requires
        old(game_state).wf(),
    ensures
        final(game_state).wf(),
        final(game_state)@ == sp_daa(old(game_state)@),
        cycles == 1,
{
    let flags = game_state.get_flags();
    let a_val = game_state.get_register8(Register::A);
    let mut adjustment: u8 = 0;
    let mut new_c: bool = flags.C;
    if flags.N {
        if flags.H {
            adjustment = adjustment + 0x06;
        }
        if flags.C {
            adjustment = adjustment + 0x60;
        }
    } else {
        if flags.H || (a_val & 0x0F) > 0x09 {
            adjustment = adjustment + 0x06;
        }
        if flags.C || a_val > 0x99 {
            adjustment = adjustment + 0x60;
            new_c = true;
        }
    }
    let result: u8 = if flags.N {
        a_val.wrapping_sub(adjustment)
    } else {
        a_val.wrapping_add(adjustment)
    };
    game_state.set_register8(Register::A, result);
    let new_flags = Flags { Z: result == 0, N: flags.N, H: false, C: new_c };
    game_state.set_flags(&new_flags);
    1
}

/// A hardware power-saving state: no cycles pass and the state is untouched;
/// the wake mechanism is an outside concern.
pub fn stop(game_state: &mut GameState) -> (cycles: u8)
    ensures
        *final(game_state) == *old(game_state),
        cycles == 0,
{
    0
}

/// A hardware power-saving state: no cycles pass and the state is untouched;
/// the wake mechanism is an outside concern.
pub fn halt(game_state: &mut GameState) -> (cycles: u8)
    ensures
        *final(game_state) == *old(game_state),
        cycles == 0,
{
    0
}

pub fn di(game_state: &mut GameState) -> (cycles: u8)
    ensures
        final(game_state)@ == (StateView { ime: false, ..old(game_state)@ }),
        cycles == 1,
{
    game_state.set_interrupts(false);
    1
}

pub fn ei(game_state: &mut GameState) -> (cycles: u8)
    ensures
        final(game_state)@ == (StateView { ime: true, ..old(game_state)@ }),
        cycles == 1,
{
    game_state.set_interrupts(true);
    1
}

// ---------------------------------------------------------------------------
// Stack-pointer operations
// ---------------------------------------------------------------------------

pub fn dec_sp(game_state: &mut GameState) -> (cycles: u8)
    ensures
        final(game_state)@ == (StateView { sp: old(game_state).sp.wrapping_sub(1), ..old(game_state)@ }),
        cycles == 2,
{
    let sp = game_state.get_register16(Register::SP);
    game_state.set_register16(Register::SP, sp.wrapping_sub(1));
    2
}

pub fn inc_sp(game_state: &mut GameState) -> (cycles: u8)
    ensures
        final(game_state)@ == (StateView { sp: old(game_state).sp.wrapping_add(1), ..old(game_state)@ }),
        cycles == 2,
{
    let sp = game_state.get_register16(Register::SP);
    game_state.set_register16(Register::SP, sp.wrapping_add(1));
    2
}

/// The state after pushing a 16-bit value: SP pre-decremented before each
/// byte, high byte first, so the value sits in memory in little-endian order.
pub open spec fn sp_push16(v: StateView, val: u16) -> StateView {
    let v1 = StateView { sp: v.sp.wrapping_sub(1), ..v };
    let v2 = v1.write8(hi16(val), v1.sp);
    let v3 = StateView { sp: v2.sp.wrapping_sub(1), ..v2 };
    v3.write8(lo16(val), v3.sp)
}

/// The 16-bit value a pop reads: low byte at SP, high byte above it.
pub open spec fn sp_pop_value(v: StateView) -> u16 {
    (v.read8(v.sp.wrapping_add(1)) * 256 + v.read8(v.sp)) as u16
}

/// The state after popping into register pair `r`: SP post-incremented after
/// each byte.
pub open spec fn sp_pop16(v: StateView, r: Register) -> StateView {
    StateView { sp: v.sp.wrapping_add(1).wrapping_add(1), ..v }.with_reg16(r, sp_pop_value(v))
}

pub fn pop_r16(game_state: &mut GameState, r: Register) -> (cycles: u8)
    requires
        old(game_state).wf(),
        is_reg16(r),
    ensures
        final(game_state).wf(),
        final(game_state)@ == sp_pop16(old(game_state)@, r),
        cycles == 3,
{
    let lsb = game_state.read(game_state.get_register16(Register::SP));
    inc_sp(game_state);
    let msb = game_state.read(game_state.get_register16(Register::SP));
    inc_sp(game_state);
    let val = generate_16bit(lsb, msb);
    game_state.set_register16(r, val);
    3
}

pub fn push_r16(game_state: &mut GameState, r: Register) -> (cycles: u8)
    requires
        old(game_state).wf(),
        is_reg16(r),
    ensures
        final(game_state).wf(),
        final(game_state)@ == sp_push16(old(game_state)@, old(game_state)@.reg16(r)),
        cycles == 4,
{
    let reg_val = game_state.get_register16(r);
    let lsb: u8 = (reg_val % 256) as u8;
    let msb: u8 = (reg_val / 256) as u8;
    dec_sp(game_state);
    game_state.write(msb, game_state.get_register16(Register::SP));
    dec_sp(game_state);
    game_state.write(lsb, game_state.get_register16(Register::SP));
    4
}

// ---------------------------------------------------------------------------
// Jumps, calls, returns and resets
// ---------------------------------------------------------------------------

/// The state after an absolute jump to the 16-bit immediate: PC set, generic
/// advance suppressed.
pub open spec fn sp_jp_n16(v: StateView) -> StateView {
    let target = (v.read8(v.pc.wrapping_add(2)) * 256 + v.read8(v.pc.wrapping_add(1))) as u16;
    StateView { pc: target, pc_moved: true, ..v }
}

pub fn jp_n16(game_state: &mut GameState) -> (cycles: u8)
    requires
        old(game_state).wf(),
    ensures
        final(game_state).wf(),
        final(game_state)@ == sp_jp_n16(old(game_state)@),
        cycles == 4,
{
    let lsb = game_state.read(game_state.get_register16(Register::PC).wrapping_add(1));
    let msb = game_state.read(game_state.get_register16(Register::PC).wrapping_add(2));
    let jump_addr = generate_16bit(lsb, msb);
    game_state.set_register16(Register::PC, jump_addr);
    game_state.set_pc_moved(true);
    4
}

pub fn jp_hl(game_state: &mut GameState) -> (cycles: u8)
    requires
        old(game_state).wf(),
    ensures
        final(game_state).wf(),
        final(game_state)@ == (StateView {
            pc: old(game_state)@.reg16(Register::HL),
            pc_moved: true,
            ..old(game_state)@
        }),
        cycles == 1,
{
    let hl = game_state.get_register16(Register::HL);
    game_state.set_register16(Register::PC, hl);
    game_state.set_pc_moved(true);
    1
}

pub fn jp_cc(game_state: &mut GameState, cc: CC) -> (cycles: u8)
    requires
        old(game_state).wf(),
    ensures
        final(game_state).wf(),
        cc_holds(old(game_state)@.flags(), cc) ==> final(game_state)@ == sp_jp_n16(old(game_state)@)
            && cycles == 4,
        !cc_holds(old(game_state)@.flags(), cc) ==> final(game_state)@ == old(game_state)@
            && cycles == 3,
{
    let flags = game_state.get_flags();
    if (matches!(cc, CC::Z) && flags.Z) || (matches!(cc, CC::NZ) && !flags.Z)
        || (matches!(cc, CC::C) && flags.C) || (matches!(cc, CC::NC) && !flags.C) {
        jp_n16(game_state);
        return 4;
    }
    3
}

/// The state after a relative jump: the target is the address of the next
/// instruction (PC + 2) plus the sign-extended offset byte.
pub open spec fn sp_jr(v: StateView) -> StateView {
    let target = v.pc.wrapping_add(2).wrapping_add(sign_extend(v.read8(v.pc.wrapping_add(1))));
    StateView { pc: target, pc_moved: true, ..v }
}

pub fn jr_e8(game_state: &mut GameState) -> (cycles: u8)
    requires
        old(game_state).wf(),
    ensures
        final(game_state).wf(),
        final(game_state)@ == sp_jr(old(game_state)@),
        cycles == 3,
{
    let offset = game_state.read(game_state.get_register16(Register::PC).wrapping_add(1));
    let e: u16 = if offset < 0x80 {
        offset as u16
    } else {
        (offset as u16) + 0xFF00
    };
    let base = game_state.get_register16(Register::PC).wrapping_add(2);
    game_state.set_register16(Register::PC, base.wrapping_add(e));
    game_state.set_pc_moved(true);
    3
}

pub fn jr_cc(game_state: &mut GameState, cc: CC) -> (cycles: u8)
    requires
        old(game_state).wf(),
    ensures
        final(game_state).wf(),
        cc_holds(old(game_state)@.flags(), cc) ==> final(game_state)@ == sp_jr(old(game_state)@)
            && cycles == 3,
        !cc_holds(old(game_state)@.flags(), cc) ==> final(game_state)@ == old(game_state)@
            && cycles == 2,
{
    let flags = game_state.get_flags();
    if (matches!(cc, CC::Z) && flags.Z) || (matches!(cc, CC::NZ) && !flags.Z)
        || (matches!(cc, CC::C) && flags.C) || (matches!(cc, CC::NC) && !flags.C) {
        jr_e8(game_state);
        return 3;
    }
    2
}

/// The state after a call: the address of the next instruction (PC + 3) is
/// pushed, then control transfers to the 16-bit immediate target.
pub open spec fn sp_call(v: StateView) -> StateView {
    sp_jp_n16(sp_push16(v, v.pc.wrapping_add(3)))
}

pub fn call_n16(game_state: &mut GameState) -> (cycles: u8)
    requires
        old(game_state).wf(),
    ensures
        final(game_state).wf(),
        final(game_state)@ == sp_call(old(game_state)@),
        cycles == 6,
{
    let next_addr = game_state.get_register16(Register::PC).wrapping_add(3);
    let lsb: u8 = (next_addr % 256) as u8;
    let msb: u8 = (next_addr / 256) as u8;
    dec_sp(game_state);
    game_state.write(msb, game_state.get_register16(Register::SP));
    dec_sp(game_state);
    game_state.write(lsb, game_state.get_register16(Register::SP));
    jp_n16(game_state);
    6
}

pub fn call_cc(game_state: &mut GameState, cc: CC) -> (cycles: u8)
    requires
        old(game_state).wf(),
    ensures
        final(game_state).wf(),
        cc_holds(old(game_state)@.flags(), cc) ==> final(game_state)@ == sp_call(old(game_state)@)
            && cycles == 6,
        !cc_holds(old(game_state)@.flags(), cc) ==> final(game_state)@ == old(game_state)@
            && cycles == 3,
{
    let flags = game_state.get_flags();
    if (matches!(cc, CC::Z) && flags.Z) || (matches!(cc, CC::NZ) && !flags.Z)
        || (matches!(cc, CC::C) && flags.C) || (matches!(cc, CC::NC) && !flags.C) {
        call_n16(game_state);
        return 6;
    }
    3
}

/// The state after a return: the 16-bit value at SP is popped into PC.
pub open spec fn sp_ret(v: StateView) -> StateView {
    StateView { pc_moved: true, ..sp_pop16(v, Register::PC) }
}

pub fn ret(game_state: &mut GameState) -> (cycles: u8)
    requires
        old(game_state).wf(),
    ensures
        final(game_state).wf(),
        final(game_state)@ == sp_ret(old(game_state)@),
        cycles == 4,
{
    pop_r16(game_state, Register::PC);
    game_state.set_pc_moved(true);
    4
}

/// Return and re-enable interrupts, atomically with the return.
pub fn reti(game_state: &mut GameState) -> (cycles: u8)
    requires
        old(game_state).wf(),
    ensures
        final(game_state).wf(),
        final(game_state)@ == sp_ret(StateView { ime: true, ..old(game_state)@ }),
        cycles == 4,
{
    game_state.set_interrupts(true);
    pop_r16(game_state, Register::PC);
    game_state.set_pc_moved(true);
    4
}

pub fn ret_cc(game_state: &mut GameState, cc: CC) -> (cycles: u8)
    requires
        old(game_state).wf(),
    ensures
        final(game_state).wf(),
        cc_holds(old(game_state)@.flags(), cc) ==> final(game_state)@ == sp_ret(old(game_state)@)
            && cycles == 5,
        !cc_holds(old(game_state)@.flags(), cc) ==> final(game_state)@ == old(game_state)@
            && cycles == 2,
{
    let flags = game_state.get_flags();
    if (matches!(cc, CC::Z) && flags.Z) || (matches!(cc, CC::NZ) && !flags.Z)
        || (matches!(cc, CC::C) && flags.C) || (matches!(cc, CC::NC) && !flags.C) {
        ret(game_state);
        return 5;
    }
    2
}

/// The state after a reset: the address of the next instruction (PC + 1) is
/// pushed, then control transfers to the fixed one-byte vector.
pub open spec fn sp_rst(v: StateView, vec: u8) -> StateView {
    let v1 = sp_push16(v, v.pc.wrapping_add(1));
    StateView { pc: vec as u16, pc_moved: true, ..v1 }
}

pub fn rst_vec(game_state: &mut GameState, vec: u8) -> (cycles: u8)
    requires
        old(game_state).wf(),
    ensures
        final(game_state).wf(),
        final(game_state)@ == sp_rst(old(game_state)@, vec),
        cycles == 4,
{
    let next_addr = game_state.get_register16(Register::PC).wrapping_add(1);
    let n_lsb: u8 = (next_addr % 256) as u8;
    let n_msb: u8 = (next_addr / 256) as u8;
    dec_sp(game_state);
    game_state.write(n_msb, game_state.get_register16(Register::SP));
    dec_sp(game_state);
    game_state.write(n_lsb, game_state.get_register16(Register::SP));
    let jump_addr = generate_16bit(vec, 0);
    game_state.set_register16(Register::PC, jump_addr);
    game_state.set_pc_moved(true);
    4
}

// ---------------------------------------------------------------------------
// Stack-pointer-relative adds and 16-bit loads
// ---------------------------------------------------------------------------

/// The flags of the stack-pointer-relative signed add: Z and N cleared,
/// H and C computed on the low byte only.
pub open spec fn addsp_flags(sp: u16, e: u16) -> Flags {
    Flags { Z: false, N: false, H: addsp_half(sp, e), C: addsp_carry(sp, e) }
}

pub fn add_sp_e8(game_state: &mut GameState) -> (cycles: u8)
    requires
        old(game_state).wf(),
    ensures
        final(game_state).wf(),
        final(game_state)@ == ({
            let v = old(game_state)@;
            let e = sign_extend(v.read8(v.pc.wrapping_add(1)));
            v.with_reg16(Register::SP, add16_val(v.sp, e)).with_flags(addsp_flags(v.sp, e))
        }),
        cycles == 4,
{
    let offset = game_state.read(game_state.get_register16(Register::PC).wrapping_add(1));
    let e: u16 = if offset < 0x80 {
        offset as u16
    } else {
        (offset as u16) + 0xFF00
    };
    let (result, half_carry, carry_out) = add16_special(game_state.get_register16(Register::SP), e);
    game_state.set_register16(Register::SP, result);
    let new_flags = Flags { Z: false, N: false, H: half_carry, C: carry_out };
    game_state.set_flags(&new_flags);
    4
}

pub fn ld_hl_spe8(game_state: &mut GameState) -> (cycles: u8)
    requires
        old(game_state).wf(),
    ensures
        final(game_state).wf(),
        final(game_state)@ == ({
            let v = old(game_state)@;
            let e = sign_extend(v.read8(v.pc.wrapping_add(1)));
            let r = add16_val(v.sp, e);
            v.with_reg16(Register::HL, r).with_flags(addsp_flags(v.sp, e))
        }),
        cycles == 3,
{
    let offset = game_state.read(game_state.get_register16(Register::PC).wrapping_add(1));
    let e: u16 = if offset < 0x80 {
        offset as u16
    } else {
        (offset as u16) + 0xFF00
    };
    let (result, half_carry, carry_out) = add16_special(game_state.get_register16(Register::SP), e);
    game_state.set_register16(Register::HL, result);
    let new_flags = Flags { Z: false, N: false, H: half_carry, C: carry_out };
    game_state.set_flags(&new_flags);
    3
}

pub fn ld_n16addr_sp(game_state: &mut GameState) -> (cycles: u8)
    requires
        old(game_state).wf(),
    ensures
        final(game_state).wf(),
        final(game_state)@ == ({
            let v = old(game_state)@;
            let addr = (v.read8(v.pc.wrapping_add(2)) * 256 + v.read8(v.pc.wrapping_add(1))) as u16;
            v.write8(lo16(v.sp), addr).write8(hi16(v.sp), addr.wrapping_add(1))
        }),
        cycles == 5,
{
    let lsb = game_state.read(game_state.get_register16(Register::PC).wrapping_add(1));
    let msb = game_state.read(game_state.get_register16(Register::PC).wrapping_add(2));
    let addr = generate_16bit(lsb, msb);
    let sp_val = game_state.get_register16(Register::SP);
    let val1: u8 = (sp_val % 256) as u8;
    let val2: u8 = (sp_val / 256) as u8;
    game_state.write(val1, addr);
    game_state.write(val2, addr.wrapping_add(1));
    5
}

/// Load SP with the 16-bit immediate.
pub fn ld_sp_n16addr(game_state: &mut GameState) -> (cycles: u8)
    requires
        old(game_state).wf(),
    ensures
        final(game_state).wf(),
        final(game_state)@ == ({
            let v = old(game_state)@;
            let val = (v.read8(v.pc.wrapping_add(2)) * 256 + v.read8(v.pc.wrapping_add(1))) as u16;
            StateView { sp: val, ..v }
        }),
        cycles == 3,
{
    let lsb = game_state.read(game_state.get_register16(Register::PC).wrapping_add(1));
    let msb = game_state.read(game_state.get_register16(Register::PC).wrapping_add(2));
    let val = generate_16bit(lsb, msb);
    game_state.set_register16(Register::SP, val);
    3
}

pub fn ld_sp_hl(game_state: &mut GameState) -> (cycles: u8)
    requires
        old(game_state).wf(),
    ensures
        final(game_state).wf(),
        final(game_state)@ == (StateView {
            sp: old(game_state)@.reg16(Register::HL),
            ..old(game_state)@
        }),
        cycles == 2,
{
    let hl = game_state.get_register16(Register::HL);
    game_state.set_register16(Register::SP, hl);
    2
}

// ---------------------------------------------------------------------------
// Interrupt dispatch
// ---------------------------------------------------------------------------

/// The interrupt controller at an instruction boundary. When interrupts are
/// armed and some source is both pending and enabled, the dispatch: disarms,
/// clears the chosen pending bit (priority order vertical-blank, LCD status,
/// timer, serial, joypad), pushes PC, jumps to the source's fixed vector and
/// consumes the fixed dispatch cost. Otherwise nothing changes.
pub open spec fn sp_interrupt(v: StateView) -> StateView {
    let pending = v.i_flag & v.i_enable & 0x1F;
    if v.ime && pending != 0 {
        let cleared = if pending & INT_VBLANK != 0 {
            v.i_flag & !INT_VBLANK
        } else if pending & INT_LCD != 0 {
            v.i_flag & !INT_LCD
        } else if pending & INT_TIMER != 0 {
            v.i_flag & !INT_TIMER
        } else if pending & INT_SERIAL != 0 {
            v.i_flag & !INT_SERIAL
        } else {
            v.i_flag & !INT_JOYPAD
        };
        let vector: u16 = if pending & INT_VBLANK != 0 {
            0x0040
        } else if pending & INT_LCD != 0 {
            0x0048
        } else if pending & INT_TIMER != 0 {
            0x0050
        } else if pending & INT_SERIAL != 0 {
            0x0058
        } else {
            0x0060
        };
        sp_int_tail(StateView { ime: false, ..v }, cleared, vector)
    } else {
        v
    }
}

/// The common tail of the dispatch: clear the chosen pending bit, push PC,
/// jump to the vector and consume the fixed dispatch cost.
pub open spec fn sp_int_tail(v: StateView, cleared: u8, vector: u16) -> StateView {
    let v1 = v.write8(cleared, 0xFF0F);
    let v2 = sp_push16(v1, v1.pc);
    let v3 = v2.with_reg16(Register::PC, vector);
    let v4 = StateView { pc_moved: true, ..v3 };
    StateView { cycles: v4.cycles.wrapping_add(5), ..v4 }
}

fn interrupt_dispatch(game_state: &mut GameState, cleared: u8, vector: u16)
    requires
        old(game_state).wf(),
    ensures
        final(game_state).wf(),
        final(game_state)@ == sp_int_tail(old(game_state)@, cleared, vector),
{
    game_state.write(cleared, 0xFF0F);
    let curr_addr = game_state.get_register16(Register::PC);
    let lsb: u8 = (curr_addr % 256) as u8;
    let msb: u8 = (curr_addr / 256) as u8;
    dec_sp(game_state);
    game_state.write(msb, game_state.get_register16(Register::SP));
    dec_sp(game_state);
    game_state.write(lsb, game_state.get_register16(Register::SP));
    game_state.set_register16(Register::PC, vector);
    game_state.set_pc_moved(true);
    game_state.update_clock(5);
}

pub fn interrupt_handler(game_state: &mut GameState)
    requires
        old(game_state).wf(),
    ensures
        final(game_state).wf(),
        final(game_state)@ == sp_interrupt(old(game_state)@),
{
    let i_flag = game_state.read(0xFF0F);
    let pending = i_flag & game_state.get_i_enable() & 0x1F;
    if game_state.get_interrupts() && pending != 0 {
        game_state.set_interrupts(false);
        if pending & INT_VBLANK != 0 {
            interrupt_dispatch(game_state, i_flag & !INT_VBLANK, 0x0040);
        } else if pending & INT_LCD != 0 {
            interrupt_dispatch(game_state, i_flag & !INT_LCD, 0x0048);
        } else if pending & INT_TIMER != 0 {
            interrupt_dispatch(game_state, i_flag & !INT_TIMER, 0x0050);
        } else if pending & INT_SERIAL != 0 {
            interrupt_dispatch(game_state, i_flag & !INT_SERIAL, 0x0058);
        } else {
            interrupt_dispatch(game_state, i_flag & !INT_JOYPAD, 0x0060);
        }
    }
}

// ---------------------------------------------------------------------------
// Laws
// ---------------------------------------------------------------------------

/// An address whose write is stored and read back unchanged: video RAM,
/// working RAM with its echo, the sprite attribute table, or high RAM.
pub open spec fn ram_backed(addr: u16) -> bool {
    ||| 0x8000 <= addr && addr < 0xA000
    ||| 0xC000 <= addr && addr <= 0xFE9F
    ||| 0xFF80 <= addr && addr <= 0xFFFE
}

/// Pushing a 16-bit value and popping it back yields the original value, and
/// a balanced push/pop restores SP to its pre-push value. This is the
/// mechanism shared by call, reset and return, whose transitions are defined
/// over the same push and pop. It holds whenever the two stack bytes land in
/// memory that stores what is written.
pub proof fn lemma_stack_roundtrip(v: StateView, val: u16)
    requires
        v.wf(),
        ram_backed(v.sp.wrapping_sub(1)),
        ram_backed(v.sp.wrapping_sub(2)),
    ensures
        sp_pop_value(sp_push16(v, val)) == val,
        sp_push16(v, val).sp == v.sp.wrapping_sub(2),
        sp_pop16(sp_push16(v, val), Register::PC).sp == v.sp,
        sp_pop16(sp_push16(v, val), Register::PC).pc == val,
{
    let hi = hi16(val);
    let lo = lo16(val);
    assert(hi * 256 + lo == val);
    let a1 = v.sp.wrapping_sub(1);
    let a2 = v.sp.wrapping_sub(2);
    let pushed = sp_push16(v, val);
    assert(pushed.sp == a2);
    assert(a2.wrapping_add(1) == a1);
    assert(pushed.read8(a1) == hi);
    assert(pushed.read8(a2) == lo);
    assert(a2.wrapping_add(1).wrapping_add(1) == v.sp);
}

/// With the vertical-blank and timer sources both pending and both enabled,
/// the dispatch services vertical-blank first: PC gets vector 0x0040, the
/// vertical-blank flag bit is cleared, and the timer bit stays pending. The
/// stack bytes must not land on the interrupt-flag register itself.
pub proof fn lemma_interrupt_priority(v: StateView)
    requires
        v.wf(),
        v.ime,
        v.i_flag & INT_VBLANK != 0,
        v.i_flag & INT_TIMER != 0,
        v.i_enable & INT_VBLANK != 0,
        v.i_enable & INT_TIMER != 0,
        v.sp.wrapping_sub(1) != 0xFF0F,
        v.sp.wrapping_sub(2) != 0xFF0F,
    ensures
        sp_interrupt(v).pc == 0x0040,
        sp_interrupt(v).i_flag & INT_VBLANK == 0,
        sp_interrupt(v).i_flag & INT_TIMER != 0,
        !sp_interrupt(v).ime,
{
    let f = v.i_flag;
    let e = v.i_enable;
    assert((f & e & 0x1F) != 0 && (f & e & 0x1F) & 0x01 != 0) by (bit_vector)
        requires
            f & 0x01 != 0,
            e & 0x01 != 0,
    ;
    assert((f & !0x01) & 0x01 == 0 && (f & !0x01) & 0x04 != 0) by (bit_vector)
        requires
            f & 0x01 != 0,
            f & 0x04 != 0,
    ;
}

} // verus!
