use vstd::prelude::*;
use crate::state::{GameState, Register, StateView, CC, is_reg8};
use crate::instructions::{ld_r8_r8, ld_r8_n8, ld_r16_n16, ld_hladdr_r8, ld_hladdr_n8,
    ld_r8_hladdr, ld_r16addr_a, ld_n16addr_a, ldh_n8addr_a, ldh_caddr_a, ld_a_r16addr,
    ld_a_n16addr, ldh_a_n8addr, ldh_a_caddr, ld_hliaddr_a, ld_hldaddr_a, ld_a_hld, ld_a_hli,
    adc_a_r8, adc_a_hladdr, adc_a_n8, add_a_r8, add_a_hladdr, add_a_n8, add_hl_r16, sbc_a_r8,
    sbc_a_hladdr, sbc_a_n8, sub_a_r8, sub_a_hladdr, sub_a_n8, cp_a_r8, cp_a_hladdr, cp_a_n8,
    dec_r8, dec_hladdr, dec_r16, inc_r8, inc_hladdr, inc_r16, and_a_r8, and_a_hladdr, and_a_n8,
    cpl, or_a_r8, or_a_hladdr, or_a_n8, xor_a_r8, xor_a_hladdr, xor_a_n8, bit_u3_r8,
    bit_u3_hladdr, res_u3_r8, res_u3_hladdr, set_u3_r8, set_u3_hladdr, rl_r8, rl_hladdr, rla,
    rlc_r8, rlc_hladdr, rlca, rr_r8, rr_hladdr, rra, rrc_r8, rrc_hladdr, rrca, sla_r8,
    sla_hladdr, sra_r8, sra_hladdr, srl_r8, srl_hladdr, swap_r8, swap_hladdr, call_n16, call_cc,
    jp_hl, jp_n16, jp_cc, jr_e8, jr_cc, ret, reti, ret_cc, rst_vec, ccf, scf, add_hl_sp,
    add_sp_e8, dec_sp, inc_sp, ld_hl_spe8, ld_n16addr_sp, ld_sp_n16addr, ld_sp_hl, pop_r16,
    push_r16, di, ei, daa, stop, halt};
use crate::instructions::{add8_val, add8_half, add8_carry, sub8_val, sub8_half, sub8_borrow,
    add16_val, add16_half, add16_carry, addsp_flags, sign_extend, cc_holds, sp_add_a, sp_sub_a,
    sp_add_hl, sp_inc8, sp_dec8, sp_daa, sp_jr, sp_jp_n16, sp_call, sp_ret, sp_rst, sp_pop16,
    sp_push16, rot_flags, and_flags, or_flags, rl_val, rlc_val, rr_val, rrc_val, sla_val,
    sra_val, srl_val, swap_val};
use crate::state::{lo16, hi16};
use crate::state::Flags;

verus! {

/// The 8-bit register selected by a 3-bit field of an opcode; index 6 stands
/// for the HL-indirect byte and is never passed here.
pub open spec fn reg_idx(i: u8) -> Register {
    if i == 0 {
        Register::B
    } else if i == 1 {
        Register::C
    } else if i == 2 {
        Register::D
    } else if i == 3 {
        Register::E
    } else if i == 4 {
        Register::H
    } else if i == 5 {
        Register::L
    } else {
        Register::A
    }
}

fn reg_of(i: u8) -> (r: Register)
    ensures
        r == reg_idx(i),
        is_reg8(r),
{
    if i == 0 {
        Register::B
    } else if i == 1 {
        Register::C
    } else if i == 2 {
        Register::D
    } else if i == 3 {
        Register::E
    } else if i == 4 {
        Register::H
    } else if i == 5 {
        Register::L
    } else {
        Register::A
    }
}

/// The primary opcodes that carry one immediate byte.
pub open spec fn is_two_byte(op: u8) -> bool {
    ||| op == 0x06 ||| op == 0x0E ||| op == 0x16 ||| op == 0x18 ||| op == 0x1E ||| op == 0x20
    ||| op == 0x26 ||| op == 0x28 ||| op == 0x2E ||| op == 0x30 ||| op == 0x36 ||| op == 0x38
    ||| op == 0x3E ||| op == 0xC6 ||| op == 0xCE ||| op == 0xD6 ||| op == 0xDE ||| op == 0xE0
    ||| op == 0xE6 ||| op == 0xE8 ||| op == 0xEE ||| op == 0xF0 ||| op == 0xF6 ||| op == 0xF8
    ||| op == 0xFE
}

/// The primary opcodes that carry a two-byte immediate.
pub open spec fn is_three_byte(op: u8) -> bool {
    ||| op == 0x01 ||| op == 0x08 ||| op == 0x11 ||| op == 0x21 ||| op == 0x31 ||| op == 0xC2
    ||| op == 0xC3 ||| op == 0xC4 ||| op == 0xCA ||| op == 0xCC ||| op == 0xCD ||| op == 0xD2
    ||| op == 0xD4 ||| op == 0xDA ||| op == 0xDC ||| op == 0xEA ||| op == 0xFA
}

/// The byte length of a primary-table instruction, which drives the generic
/// program-counter advance.
pub open spec fn instr_len(op: u8) -> u16 {
    if is_two_byte(op) {
        2
    } else if is_three_byte(op) {
        3
    } else {
        1
    }
}

fn instruction_length(op: u8) -> (n: u16)
    ensures
        n == instr_len(op),
{
    match op {
        0x06 | 0x0E | 0x16 | 0x18 | 0x1E | 0x20 | 0x26 | 0x28 | 0x2E | 0x30 | 0x36 | 0x38
            | 0x3E | 0xC6 | 0xCE | 0xD6 | 0xDE | 0xE0 | 0xE6 | 0xE8 | 0xEE | 0xF0 | 0xF6 | 0xF8
            | 0xFE => 2,
        0x01 | 0x08 | 0x11 | 0x21 | 0x31 | 0xC2 | 0xC3 | 0xC4 | 0xCA | 0xCC | 0xCD | 0xD2
            | 0xD4 | 0xDA | 0xDC | 0xEA | 0xFA => 3,
        _ => 1,
    }
}

/// The immediate byte after the opcode.
pub open spec fn imm8(v: StateView) -> u8 {
    v.read8(v.pc.wrapping_add(1))
}

/// The 16-bit immediate after the opcode, little-endian.
pub open spec fn imm16(v: StateView) -> u16 {
    (v.read8(v.pc.wrapping_add(2)) * 256 + v.read8(v.pc.wrapping_add(1))) as u16
}

// ---------------------------------------------------------------------------
// The secondary (CB-prefixed) table
// ---------------------------------------------------------------------------

/// The cycle cost of a CB-prefixed operation: the HL-indirect forms cost 4
/// (3 for a bit test), the register forms 2.
pub open spec fn cb_cycles(op: u8) -> u8 {
    let t = op % 8;
    let class = op / 8;
    if t == 6 {
        if class < 8 {
            4
        } else if class < 16 {
            3
        } else {
            4
        }
    } else {
        2
    }
}

/// The transition of one CB-prefixed operation: the low three bits select the
/// target (a register, or the HL-indirect byte for 6), the upper five bits
/// select among the eight rotate/shift/swap forms, bit test, bit clear and
/// bit set.
pub open spec fn sp_exec_cb(v: StateView, op: u8) -> StateView {
    let t = op % 8;
    let class = op / 8;
    if class < 8 {
        if t == 6 {
            let addr = v.reg16(Register::HL);
            let x = v.read8(addr);
            if class == 0 {
                rot_flags(v, rlc_val(x), x >> 7 == 1, true).write8(rlc_val(x), addr)
            } else if class == 1 {
                rot_flags(v, rrc_val(x), x & 1 == 1, true).write8(rrc_val(x), addr)
            } else if class == 2 {
                rot_flags(v, rl_val(x, v.flags().C), x >> 7 == 1, true).write8(rl_val(x, v.flags().C), addr)
            } else if class == 3 {
                rot_flags(v, rr_val(x, v.flags().C), x & 1 == 1, true).write8(rr_val(x, v.flags().C), addr)
            } else if class == 4 {
                rot_flags(v, sla_val(x), x >> 7 == 1, true).write8(sla_val(x), addr)
            } else if class == 5 {
                rot_flags(v, sra_val(x), x & 1 == 1, true).write8(sra_val(x), addr)
            } else if class == 6 {
                rot_flags(v, swap_val(x), false, true).write8(swap_val(x), addr)
            } else {
                rot_flags(v, srl_val(x), x & 1 == 1, true).write8(srl_val(x), addr)
            }
        } else {
            let r = reg_idx(t);
            let x = v.reg8(r);
            if class == 0 {
                rot_flags(v, rlc_val(x), x >> 7 == 1, true).with_reg8(r, rlc_val(x))
            } else if class == 1 {
                rot_flags(v, rrc_val(x), x & 1 == 1, true).with_reg8(r, rrc_val(x))
            } else if class == 2 {
                rot_flags(v, rl_val(x, v.flags().C), x >> 7 == 1, true).with_reg8(r, rl_val(x, v.flags().C))
            } else if class == 3 {
                rot_flags(v, rr_val(x, v.flags().C), x & 1 == 1, true).with_reg8(r, rr_val(x, v.flags().C))
            } else if class == 4 {
                rot_flags(v, sla_val(x), x >> 7 == 1, true).with_reg8(r, sla_val(x))
            } else if class == 5 {
                rot_flags(v, sra_val(x), x & 1 == 1, true).with_reg8(r, sra_val(x))
            } else if class == 6 {
                rot_flags(v, swap_val(x), false, true).with_reg8(r, swap_val(x))
            } else {
                rot_flags(v, srl_val(x), x & 1 == 1, true).with_reg8(r, srl_val(x))
            }
        }
    } else if class < 16 {
        let u = (class - 8) as u8;
        if t == 6 {
            v.with_flags(Flags {
                Z: v.read8(v.reg16(Register::HL)) & (1u8 << u) == 0,
                N: false,
                H: true,
                C: v.flags().C,
            })
        } else {
            let r = reg_idx(t);
            v.with_flags(Flags {
                Z: v.reg8(r) & (1u8 << u) == 0,
                N: false,
                H: true,
                C: v.flags().C,
            })
        }
    } else if class < 24 {
        let u = (class - 16) as u8;
        if t == 6 {
            let addr = v.reg16(Register::HL);
            v.write8(v.read8(addr) & !(1u8 << u), addr)
        } else {
            let r = reg_idx(t);
            v.with_reg8(r, v.reg8(r) & !(1u8 << u))
        }
    } else {
        let u = (class - 24) as u8;
        if t == 6 {
            let addr = v.reg16(Register::HL);
            v.write8(v.read8(addr) | (1u8 << u), addr)
        } else {
            let r = reg_idx(t);
            v.with_reg8(r, v.reg8(r) | (1u8 << u))
        }
    }
}

fn execute_cb_opcode(game_state: &mut GameState, op: u8) -> (cycles: u8)
    requires
        old(game_state).wf(),
    ensures
        final(game_state).wf(),
        final(game_state)@ == sp_exec_cb(old(game_state)@, op),
        cycles == cb_cycles(op),
{
    let t: u8 = op % 8;
    let class: u8 = op / 8;
    if class < 8 {
        if t == 6 {
            match class {
                0 => rlc_hladdr(game_state),
                1 => rrc_hladdr(game_state),
                2 => rl_hladdr(game_state),
                3 => rr_hladdr(game_state),
                4 => sla_hladdr(game_state),
                5 => sra_hladdr(game_state),
                6 => swap_hladdr(game_state),
                _ => srl_hladdr(game_state),
            }
        } else {
            let r = reg_of(t);
            match class {
                0 => rlc_r8(game_state, r),
                1 => rrc_r8(game_state, r),
                2 => rl_r8(game_state, r),
                3 => rr_r8(game_state, r),
                4 => sla_r8(game_state, r),
                5 => sra_r8(game_state, r),
                6 => swap_r8(game_state, r),
                _ => srl_r8(game_state, r),
            }
        }
    } else if class < 16 {
        let u: u8 = class - 8;
        if t == 6 {
            bit_u3_hladdr(game_state, u)
        } else {
            bit_u3_r8(game_state, u, reg_of(t))
        }
    } else if class < 24 {
        let u: u8 = class - 16;
        if t == 6 {
            res_u3_hladdr(game_state, u)
        } else {
            res_u3_r8(game_state, u, reg_of(t))
        }
    } else {
        let u: u8 = class - 24;
        if t == 6 {
            set_u3_hladdr(game_state, u)
        } else {
            set_u3_r8(game_state, u, reg_of(t))
        }
    }
}

// ---------------------------------------------------------------------------
// The primary table
// ---------------------------------------------------------------------------

/// Rows 0x00..0x1F of the primary table: loads, 16-bit arithmetic on BC/DE,
/// rotates of the accumulator, the relative jump and the power states.
pub open spec fn sp_op_00_1f(v: StateView, op: u8) -> (StateView, u8) {
    if op == 0x00 {
        (v, 1)
    } else if op == 0x01 {
        (v.with_reg16(Register::BC, imm16(v)), 2)
    } else if op == 0x02 {
        (v.write8(v.a, v.reg16(Register::BC)), 2)
    } else if op == 0x03 {
        (v.with_reg16(Register::BC, v.reg16(Register::BC).wrapping_add(1)), 2)
    } else if op == 0x04 {
        (sp_inc8(v, Register::B), 1)
    } else if op == 0x05 {
        (sp_dec8(v, Register::B), 1)
    } else if op == 0x06 {
        (v.with_reg8(Register::B, imm8(v)), 2)
    } else if op == 0x07 {
        (rot_flags(v, rlc_val(v.a), v.a >> 7 == 1, false).with_reg8(Register::A, rlc_val(v.a)), 1)
    } else if op == 0x08 {
        let addr = imm16(v);
        (v.write8(lo16(v.sp), addr).write8(hi16(v.sp), addr.wrapping_add(1)), 5)
    } else if op == 0x09 {
        (sp_add_hl(v, v.reg16(Register::BC)), 2)
    } else if op == 0x0A {
        (v.with_reg8(Register::A, v.read8(v.reg16(Register::BC))), 2)
    } else if op == 0x0B {
        (v.with_reg16(Register::BC, v.reg16(Register::BC).wrapping_sub(1)), 2)
    } else if op == 0x0C {
        (sp_inc8(v, Register::C), 1)
    } else if op == 0x0D {
        (sp_dec8(v, Register::C), 1)
    } else if op == 0x0E {
        (v.with_reg8(Register::C, imm8(v)), 2)
    } else if op == 0x0F {
        (rot_flags(v, rrc_val(v.a), v.a & 1 == 1, false).with_reg8(Register::A, rrc_val(v.a)), 1)
    } else if op == 0x10 {
        (v, 0)
    } else if op == 0x11 {
        (v.with_reg16(Register::DE, imm16(v)), 2)
    } else if op == 0x12 {
        (v.write8(v.a, v.reg16(Register::DE)), 2)
    } else if op == 0x13 {
        (v.with_reg16(Register::DE, v.reg16(Register::DE).wrapping_add(1)), 2)
    } else if op == 0x14 {
        (sp_inc8(v, Register::D), 1)
    } else if op == 0x15 {
        (sp_dec8(v, Register::D), 1)
    } else if op == 0x16 {
        (v.with_reg8(Register::D, imm8(v)), 2)
    } else if op == 0x17 {
        (rot_flags(v, rl_val(v.a, v.flags().C), v.a >> 7 == 1, false).with_reg8(
            Register::A,
            rl_val(v.a, v.flags().C),
        ), 1)
    } else if op == 0x18 {
        (sp_jr(v), 3)
    } else if op == 0x19 {
        (sp_add_hl(v, v.reg16(Register::DE)), 2)
    } else if op == 0x1A {
        (v.with_reg8(Register::A, v.read8(v.reg16(Register::DE))), 2)
    } else if op == 0x1B {
        (v.with_reg16(Register::DE, v.reg16(Register::DE).wrapping_sub(1)), 2)
    } else if op == 0x1C {
        (sp_inc8(v, Register::E), 1)
    } else if op == 0x1D {
        (sp_dec8(v, Register::E), 1)
    } else if op == 0x1E {
        (v.with_reg8(Register::E, imm8(v)), 2)
    } else {
        (rot_flags(v, rr_val(v.a, v.flags().C), v.a & 1 == 1, false).with_reg8(
            Register::A,
            rr_val(v.a, v.flags().C),
        ), 1)
    }
}

/// Rows 0x20..0x3F of the primary table: conditional relative jumps, HL and
/// SP loads and arithmetic, the HL-indirect increments, DAA and the flag ops.
pub open spec fn sp_op_20_3f(v: StateView, op: u8) -> (StateView, u8) {
    if op == 0x20 {
        if cc_holds(v.flags(), CC::NZ) {
            (sp_jr(v), 3)
        } else {
            (v, 2)
        }
    } else if op == 0x21 {
        (v.with_reg16(Register::HL, imm16(v)), 2)
    } else if op == 0x22 {
        (v.write8(v.a, v.reg16(Register::HL)).with_reg16(
            Register::HL,
            v.reg16(Register::HL).wrapping_add(1),
        ), 2)
    } else if op == 0x23 {
        (v.with_reg16(Register::HL, v.reg16(Register::HL).wrapping_add(1)), 2)
    } else if op == 0x24 {
        (sp_inc8(v, Register::H), 1)
    } else if op == 0x25 {
        (sp_dec8(v, Register::H), 1)
    } else if op == 0x26 {
        (v.with_reg8(Register::H, imm8(v)), 2)
    } else if op == 0x27 {
        (sp_daa(v), 1)
    } else if op == 0x28 {
        if cc_holds(v.flags(), CC::Z) {
            (sp_jr(v), 3)
        } else {
            (v, 2)
        }
    } else if op == 0x29 {
        (sp_add_hl(v, v.reg16(Register::HL)), 2)
    } else if op == 0x2A {
        (v.with_reg8(Register::A, v.read8(v.reg16(Register::HL))).with_reg16(
            Register::HL,
            v.reg16(Register::HL).wrapping_add(1),
        ), 2)
    } else if op == 0x2B {
        (v.with_reg16(Register::HL, v.reg16(Register::HL).wrapping_sub(1)), 2)
    } else if op == 0x2C {
        (sp_inc8(v, Register::L), 1)
    } else if op == 0x2D {
        (sp_dec8(v, Register::L), 1)
    } else if op == 0x2E {
        (v.with_reg8(Register::L, imm8(v)), 2)
    } else if op == 0x2F {
        (v.with_reg8(Register::A, !v.a).with_flags(Flags {
            Z: v.flags().Z,
            N: true,
            H: true,
            C: v.flags().C,
        }), 1)
    } else if op == 0x30 {
        if cc_holds(v.flags(), CC::NC) {
            (sp_jr(v), 3)
        } else {
            (v, 2)
        }
    } else if op == 0x31 {
        (StateView { sp: imm16(v), ..v }, 3)
    } else if op == 0x32 {
        (v.write8(v.a, v.reg16(Register::HL)).with_reg16(
            Register::HL,
            v.reg16(Register::HL).wrapping_sub(1),
        ), 2)
    } else if op == 0x33 {
        (StateView { sp: v.sp.wrapping_add(1), ..v }, 2)
    } else if op == 0x34 {
        let addr = v.reg16(Register::HL);
        let x = v.read8(addr);
        (v.write8(add8_val(x, 1, 0), addr).with_flags(Flags {
            Z: add8_val(x, 1, 0) == 0,
            N: false,
            H: add8_half(x, 1, 0),
            C: v.flags().C,
        }), 3)
    } else if op == 0x35 {
        let addr = v.reg16(Register::HL);
        let x = v.read8(addr);
        (v.write8(sub8_val(x, 1, 0), addr).with_flags(Flags {
            Z: sub8_val(x, 1, 0) == 0,
            N: true,
            H: sub8_half(x, 1, 0),
            C: v.flags().C,
        }), 3)
    } else if op == 0x36 {
        (v.write8(imm8(v), v.reg16(Register::HL)), 3)
    } else if op == 0x37 {
        (v.with_flags(Flags { Z: v.flags().Z, N: false, H: false, C: true }), 1)
    } else if op == 0x38 {
        if cc_holds(v.flags(), CC::C) {
            (sp_jr(v), 3)
        } else {
            (v, 2)
        }
    } else if op == 0x39 {
        (sp_add_hl(v, v.sp), 2)
    } else if op == 0x3A {
        (v.with_reg8(Register::A, v.read8(v.reg16(Register::HL))).with_reg16(
            Register::HL,
            v.reg16(Register::HL).wrapping_sub(1),
        ), 2)
    } else if op == 0x3B {
        (StateView { sp: v.sp.wrapping_sub(1), ..v }, 2)
    } else if op == 0x3C {
        (sp_inc8(v, Register::A), 1)
    } else if op == 0x3D {
        (sp_dec8(v, Register::A), 1)
    } else if op == 0x3E {
        (v.with_reg8(Register::A, imm8(v)), 2)
    } else {
        (v.with_flags(Flags { Z: v.flags().Z, N: false, H: false, C: !v.flags().C }), 1)
    }
}

/// Rows 0x40..0x7F of the primary table: the 8-bit register-to-register
/// loads, with the HL-indirect byte at field 6 and halt at 0x76.
pub open spec fn sp_op_ld(v: StateView, op: u8) -> (StateView, u8) {
    if op == 0x76 {
        (v, 0)
    } else {
        let d = ((op - 0x40) / 8) as u8;
        let s = (op % 8) as u8;
        if s == 6 {
            (v.with_reg8(reg_idx(d), v.read8(v.reg16(Register::HL))), 2)
        } else if d == 6 {
            (v.write8(v.reg8(reg_idx(s)), v.reg16(Register::HL)), 2)
        } else {
            (v.with_reg8(reg_idx(d), v.reg8(reg_idx(s))), 1)
        }
    }
}

/// Rows 0x80..0xBF of the primary table: the eight arithmetic/logic families
/// over the eight source fields, with the HL-indirect byte at field 6.
pub open spec fn sp_op_alu(v: StateView, op: u8) -> (StateView, u8) {
    let class = ((op - 0x80) / 8) as u8;
    let s = (op % 8) as u8;
    let cyc: u8 = if s == 6 {
        2
    } else {
        1
    };
    let x = if s == 6 {
        v.read8(v.reg16(Register::HL))
    } else {
        v.reg8(reg_idx(s))
    };
    if class == 0 {
        (sp_add_a(v, x, false), cyc)
    } else if class == 1 {
        (sp_add_a(v, x, true), cyc)
    } else if class == 2 {
        (sp_sub_a(v, x, false, false), cyc)
    } else if class == 3 {
        (sp_sub_a(v, x, true, false), cyc)
    } else if class == 4 {
        let result = v.a & x;
        (v.with_flags(and_flags(result)).with_reg8(Register::A, result), cyc)
    } else if class == 5 {
        let result = v.a ^ x;
        (v.with_flags(or_flags(result)).with_reg8(Register::A, result), cyc)
    } else if class == 6 {
        let result = v.a | x;
        (v.with_flags(or_flags(result)).with_reg8(Register::A, result), cyc)
    } else {
        (sp_sub_a(v, x, false, true), cyc)
    }
}

/// Rows 0xC0..0xDF of the primary table: conditional and unconditional
/// returns, jumps and calls, the BC/DE stack operations and resets.
pub open spec fn sp_op_c0_df(v: StateView, op: u8) -> (StateView, u8) {
    if op == 0xC0 {
        if cc_holds(v.flags(), CC::NZ) {
            (sp_ret(v), 5)
        } else {
            (v, 2)
        }
    } else if op == 0xC1 {
        (sp_pop16(v, Register::BC), 3)
    } else if op == 0xC2 {
        if cc_holds(v.flags(), CC::NZ) {
            (sp_jp_n16(v), 4)
        } else {
            (v, 3)
        }
    } else if op == 0xC3 {
        (sp_jp_n16(v), 4)
    } else if op == 0xC4 {
        if cc_holds(v.flags(), CC::NZ) {
            (sp_call(v), 6)
        } else {
            (v, 3)
        }
    } else if op == 0xC5 {
        (sp_push16(v, v.reg16(Register::BC)), 4)
    } else if op == 0xC6 {
        (sp_add_a(v, imm8(v), false), 2)
    } else if op == 0xC7 {
        (sp_rst(v, 0x00), 4)
    } else if op == 0xC8 {
        if cc_holds(v.flags(), CC::Z) {
            (sp_ret(v), 5)
        } else {
            (v, 2)
        }
    } else if op == 0xC9 {
        (sp_ret(v), 4)
    } else if op == 0xCA {
        if cc_holds(v.flags(), CC::Z) {
            (sp_jp_n16(v), 4)
        } else {
            (v, 3)
        }
    } else if op == 0xCB {
        (v, 1)
    } else if op == 0xCC {
        if cc_holds(v.flags(), CC::Z) {
            (sp_call(v), 6)
        } else {
            (v, 3)
        }
    } else if op == 0xCD {
        (sp_call(v), 6)
    } else if op == 0xCE {
        (sp_add_a(v, imm8(v), true), 2)
    } else if op == 0xCF {
        (sp_rst(v, 0x08), 4)
    } else if op == 0xD0 {
        if cc_holds(v.flags(), CC::NC) {
            (sp_ret(v), 5)
        } else {
            (v, 2)
        }
    } else if op == 0xD1 {
        (sp_pop16(v, Register::DE), 3)
    } else if op == 0xD2 {
        if cc_holds(v.flags(), CC::NC) {
            (sp_jp_n16(v), 4)
        } else {
            (v, 3)
        }
    } else if op == 0xD3 {
        (v, 1)
    } else if op == 0xD4 {
        if cc_holds(v.flags(), CC::NC) {
            (sp_call(v), 6)
        } else {
            (v, 3)
        }
    } else if op == 0xD5 {
        (sp_push16(v, v.reg16(Register::DE)), 4)
    } else if op == 0xD6 {
        (sp_sub_a(v, imm8(v), false, false), 2)
    } else if op == 0xD7 {
        (sp_rst(v, 0x10), 4)
    } else if op == 0xD8 {
        if cc_holds(v.flags(), CC::C) {
            (sp_ret(v), 5)
        } else {
            (v, 2)
        }
    } else if op == 0xD9 {
        (sp_ret(StateView { ime: true, ..v }), 4)
    } else if op == 0xDA {
        if cc_holds(v.flags(), CC::C) {
            (sp_jp_n16(v), 4)
        } else {
            (v, 3)
        }
    } else if op == 0xDB {
        (v, 1)
    } else if op == 0xDC {
        if cc_holds(v.flags(), CC::C) {
            (sp_call(v), 6)
        } else {
            (v, 3)
        }
    } else if op == 0xDD {
        (v, 1)
    } else if op == 0xDE {
        (sp_sub_a(v, imm8(v), true, false), 2)
    } else {
        (sp_rst(v, 0x18), 4)
    }
}

/// Rows 0xE0..0xFF of the primary table: the high-page loads, the AF and
/// HL stack operations, the interrupt switches, the stack-pointer-relative
/// adds and the remaining immediate arithmetic.
pub open spec fn sp_op_e0_ff(v: StateView, op: u8) -> (StateView, u8) {
    if op == 0xE0 {
        (v.write8(v.a, (0xFF00 + imm8(v)) as u16), 3)
    } else if op == 0xE1 {
        (sp_pop16(v, Register::HL), 3)
    } else if op == 0xE2 {
        (v.write8(v.a, (0xFF00 + v.c) as u16), 2)
    } else if op == 0xE3 {
        (v, 1)
    } else if op == 0xE4 {
        (v, 1)
    } else if op == 0xE5 {
        (sp_push16(v, v.reg16(Register::HL)), 4)
    } else if op == 0xE6 {
        let result = v.a & imm8(v);
        (v.with_flags(and_flags(result)).with_reg8(Register::A, result), 2)
    } else if op == 0xE7 {
        (sp_rst(v, 0x20), 4)
    } else if op == 0xE8 {
        let e = sign_extend(imm8(v));
        (v.with_reg16(Register::SP, add16_val(v.sp, e)).with_flags(addsp_flags(v.sp, e)), 4)
    } else if op == 0xE9 {
        (StateView { pc: v.reg16(Register::HL), pc_moved: true, ..v }, 1)
    } else if op == 0xEA {
        (v.write8(v.a, imm16(v)), 4)
    } else if op == 0xEB {
        (v, 1)
    } else if op == 0xEC {
        (v, 1)
    } else if op == 0xED {
        (v, 1)
    } else if op == 0xEE {
        let result = v.a ^ imm8(v);
        (v.with_flags(or_flags(result)).with_reg8(Register::A, result), 2)
    } else if op == 0xEF {
        (sp_rst(v, 0x28), 4)
    } else if op == 0xF0 {
        (v.with_reg8(Register::A, v.read8((0xFF00 + imm8(v)) as u16)), 3)
    } else if op == 0xF1 {
        (sp_pop16(v, Register::AF), 3)
    } else if op == 0xF2 {
        (v.with_reg8(Register::A, v.read8((0xFF00 + v.c) as u16)), 2)
    } else if op == 0xF3 {
        (StateView { ime: false, ..v }, 1)
    } else if op == 0xF4 {
        (v, 1)
    } else if op == 0xF5 {
        (sp_push16(v, v.reg16(Register::AF)), 4)
    } else if op == 0xF6 {
        let result = v.a | imm8(v);
        (v.with_flags(or_flags(result)).with_reg8(Register::A, result), 2)
    } else if op == 0xF7 {
        (sp_rst(v, 0x30), 4)
    } else if op == 0xF8 {
        let e = sign_extend(imm8(v));
        let r = add16_val(v.sp, e);
        (v.with_reg16(Register::HL, r).with_flags(addsp_flags(v.sp, e)), 3)
    } else if op == 0xF9 {
        (StateView { sp: v.reg16(Register::HL), ..v }, 2)
    } else if op == 0xFA {
        (v.with_reg8(Register::A, v.read8(imm16(v))), 4)
    } else if op == 0xFB {
        (StateView { ime: true, ..v }, 1)
    } else if op == 0xFC {
        (v, 1)
    } else if op == 0xFD {
        (v, 1)
    } else if op == 0xFE {
        (sp_sub_a(v, imm8(v), false, true), 2)
    } else {
        (sp_rst(v, 0x38), 4)
    }
}

/// The transition and cycle cost of one primary-table operation.
pub open spec fn sp_exec_op(v: StateView, op: u8) -> (StateView, u8) {
    if op < 0x20 {
        sp_op_00_1f(v, op)
    } else if op < 0x40 {
        sp_op_20_3f(v, op)
    } else if op < 0x80 {
        sp_op_ld(v, op)
    } else if op < 0xC0 {
        sp_op_alu(v, op)
    } else if op < 0xE0 {
        sp_op_c0_df(v, op)
    } else {
        sp_op_e0_ff(v, op)
    }
}

fn execute_00_1f(game_state: &mut GameState, op: u8) -> (cycles: u8)
    requires
        old(game_state).wf(),
        op < 0x20,
    ensures
        final(game_state).wf(),
        (final(game_state)@, cycles) == sp_op_00_1f(old(game_state)@, op),
{
    match op {
        0x00 => 1,
        0x01 => ld_r16_n16(game_state, Register::BC),
        0x02 => ld_r16addr_a(game_state, Register::BC),
        0x03 => inc_r16(game_state, Register::BC),
        0x04 => inc_r8(game_state, Register::B),
        0x05 => dec_r8(game_state, Register::B),
        0x06 => ld_r8_n8(game_state, Register::B),
        0x07 => rlca(game_state),
        0x08 => ld_n16addr_sp(game_state),
        0x09 => add_hl_r16(game_state, Register::BC),
        0x0A => ld_a_r16addr(game_state, Register::BC),
        0x0B => dec_r16(game_state, Register::BC),
        0x0C => inc_r8(game_state, Register::C),
        0x0D => dec_r8(game_state, Register::C),
        0x0E => ld_r8_n8(game_state, Register::C),
        0x0F => rrca(game_state),
        0x10 => stop(game_state),
        0x11 => ld_r16_n16(game_state, Register::DE),
        0x12 => ld_r16addr_a(game_state, Register::DE),
        0x13 => inc_r16(game_state, Register::DE),
        0x14 => inc_r8(game_state, Register::D),
        0x15 => dec_r8(game_state, Register::D),
        0x16 => ld_r8_n8(game_state, Register::D),
        0x17 => rla(game_state),
        0x18 => jr_e8(game_state),
        0x19 => add_hl_r16(game_state, Register::DE),
        0x1A => ld_a_r16addr(game_state, Register::DE),
        0x1B => dec_r16(game_state, Register::DE),
        0x1C => inc_r8(game_state, Register::E),
        0x1D => dec_r8(game_state, Register::E),
        0x1E => ld_r8_n8(game_state, Register::E),
        _ => rra(game_state),
    }
}

fn execute_20_3f(game_state: &mut GameState, op: u8) -> (cycles: u8)
    requires
        old(game_state).wf(),
        0x20 <= op < 0x40,
    ensures
        final(game_state).wf(),
        (final(game_state)@, cycles) == sp_op_20_3f(old(game_state)@, op),
{
    match op {
        0x20 => jr_cc(game_state, CC::NZ),
        0x21 => ld_r16_n16(game_state, Register::HL),
        0x22 => ld_hliaddr_a(game_state),
        0x23 => inc_r16(game_state, Register::HL),
        0x24 => inc_r8(game_state, Register::H),
        0x25 => dec_r8(game_state, Register::H),
        0x26 => ld_r8_n8(game_state, Register::H),
        0x27 => daa(game_state),
        0x28 => jr_cc(game_state, CC::Z),
        0x29 => add_hl_r16(game_state, Register::HL),
        0x2A => ld_a_hli(game_state),
        0x2B => dec_r16(game_state, Register::HL),
        0x2C => inc_r8(game_state, Register::L),
        0x2D => dec_r8(game_state, Register::L),
        0x2E => ld_r8_n8(game_state, Register::L),
        0x2F => cpl(game_state),
        0x30 => jr_cc(game_state, CC::NC),
        0x31 => ld_sp_n16addr(game_state),
        0x32 => ld_hldaddr_a(game_state),
        0x33 => inc_sp(game_state),
        0x34 => inc_hladdr(game_state),
        0x35 => dec_hladdr(game_state),
        0x36 => ld_hladdr_n8(game_state),
        0x37 => scf(game_state),
        0x38 => jr_cc(game_state, CC::C),
        0x39 => add_hl_sp(game_state),
        0x3A => ld_a_hld(game_state),
        0x3B => dec_sp(game_state),
        0x3C => inc_r8(game_state, Register::A),
        0x3D => dec_r8(game_state, Register::A),
        0x3E => ld_r8_n8(game_state, Register::A),
        _ => ccf(game_state),
    }
}

fn execute_ld_block(game_state: &mut GameState, op: u8) -> (cycles: u8)
    requires
        old(game_state).wf(),
        0x40 <= op < 0x80,
    ensures
        final(game_state).wf(),
        (final(game_state)@, cycles) == sp_op_ld(old(game_state)@, op),
{
    if op == 0x76 {
        halt(game_state)
    } else {
        let d: u8 = (op - 0x40) / 8;
        let s: u8 = op % 8;
        if s == 6 {
            ld_r8_hladdr(game_state, reg_of(d))
        } else if d == 6 {
            ld_hladdr_r8(game_state, reg_of(s))
        } else {
            ld_r8_r8(game_state, reg_of(d), reg_of(s))
        }
    }
}

fn execute_alu_block(game_state: &mut GameState, op: u8) -> (cycles: u8)
    requires
        old(game_state).wf(),
        0x80 <= op < 0xC0,
    ensures
        final(game_state).wf(),
        (final(game_state)@, cycles) == sp_op_alu(old(game_state)@, op),
{
    let class: u8 = (op - 0x80) / 8;
    let s: u8 = op % 8;
    if class == 0 {
        if s == 6 {
            add_a_hladdr(game_state)
        } else {
            add_a_r8(game_state, reg_of(s))
        }
    } else if class == 1 {
        if s == 6 {
            adc_a_hladdr(game_state)
        } else {
            adc_a_r8(game_state, reg_of(s))
        }
    } else if class == 2 {
        if s == 6 {
            sub_a_hladdr(game_state)
        } else {
            sub_a_r8(game_state, reg_of(s))
        }
    } else if class == 3 {
        if s == 6 {
            sbc_a_hladdr(game_state)
        } else {
            sbc_a_r8(game_state, reg_of(s))
        }
    } else if class == 4 {
        if s == 6 {
            and_a_hladdr(game_state)
        } else {
            and_a_r8(game_state, reg_of(s))
        }
    } else if class == 5 {
        if s == 6 {
            xor_a_hladdr(game_state)
        } else {
            xor_a_r8(game_state, reg_of(s))
        }
    } else if class == 6 {
        if s == 6 {
            or_a_hladdr(game_state)
        } else {
            or_a_r8(game_state, reg_of(s))
        }
    } else {
        if s == 6 {
            cp_a_hladdr(game_state)
        } else {
            cp_a_r8(game_state, reg_of(s))
        }
    }
}

fn execute_c0_df(game_state: &mut GameState, op: u8) -> (cycles: u8)
    requires
        old(game_state).wf(),
        0xC0 <= op < 0xE0,
    ensures
        final(game_state).wf(),
        (final(game_state)@, cycles) == sp_op_c0_df(old(game_state)@, op),
{
    match op {
        0xC0 => ret_cc(game_state, CC::NZ),
        0xC1 => pop_r16(game_state, Register::BC),
        0xC2 => jp_cc(game_state, CC::NZ),
        0xC3 => jp_n16(game_state),
        0xC4 => call_cc(game_state, CC::NZ),
        0xC5 => push_r16(game_state, Register::BC),
        0xC6 => add_a_n8(game_state),
        0xC7 => rst_vec(game_state, 0x00),
        0xC8 => ret_cc(game_state, CC::Z),
        0xC9 => ret(game_state),
        0xCA => jp_cc(game_state, CC::Z),
        0xCB => 1,
        0xCC => call_cc(game_state, CC::Z),
        0xCD => call_n16(game_state),
        0xCE => adc_a_n8(game_state),
        0xCF => rst_vec(game_state, 0x08),
        0xD0 => ret_cc(game_state, CC::NC),
        0xD1 => pop_r16(game_state, Register::DE),
        0xD2 => jp_cc(game_state, CC::NC),
        0xD3 => 1,
        0xD4 => call_cc(game_state, CC::NC),
        0xD5 => push_r16(game_state, Register::DE),
        0xD6 => sub_a_n8(game_state),
        0xD7 => rst_vec(game_state, 0x10),
        0xD8 => ret_cc(game_state, CC::C),
        0xD9 => reti(game_state),
        0xDA => jp_cc(game_state, CC::C),
        0xDB => 1,
        0xDC => call_cc(game_state, CC::C),
        0xDD => 1,
        0xDE => sbc_a_n8(game_state),
        _ => rst_vec(game_state, 0x18),
    }
}

fn execute_e0_ff(game_state: &mut GameState, op: u8) -> (cycles: u8)
    requires
        old(game_state).wf(),
        0xE0 <= op,
    ensures
        final(game_state).wf(),
        (final(game_state)@, cycles) == sp_op_e0_ff(old(game_state)@, op),
{
    match op {
        0xE0 => ldh_n8addr_a(game_state),
        0xE1 => pop_r16(game_state, Register::HL),
        0xE2 => ldh_caddr_a(game_state),
        0xE3 => 1,
        0xE4 => 1,
        0xE5 => push_r16(game_state, Register::HL),
        0xE6 => and_a_n8(game_state),
        0xE7 => rst_vec(game_state, 0x20),
        0xE8 => add_sp_e8(game_state),
        0xE9 => jp_hl(game_state),
        0xEA => ld_n16addr_a(game_state),
        0xEB => 1,
        0xEC => 1,
        0xED => 1,
        0xEE => xor_a_n8(game_state),
        0xEF => rst_vec(game_state, 0x28),
        0xF0 => ldh_a_n8addr(game_state),
        0xF1 => pop_r16(game_state, Register::AF),
        0xF2 => ldh_a_caddr(game_state),
        0xF3 => di(game_state),
        0xF4 => 1,
        0xF5 => push_r16(game_state, Register::AF),
        0xF6 => or_a_n8(game_state),
        0xF7 => rst_vec(game_state, 0x30),
        0xF8 => ld_hl_spe8(game_state),
        0xF9 => ld_sp_hl(game_state),
        0xFA => ld_a_n16addr(game_state),
        0xFB => ei(game_state),
        0xFC => 1,
        0xFD => 1,
        0xFE => cp_a_n8(game_state),
        _ => rst_vec(game_state, 0x38),
    }
}

fn execute_opcode(game_state: &mut GameState, op: u8) -> (cycles: u8)
    requires
        old(game_state).wf(),
    ensures
        final(game_state).wf(),
        (final(game_state)@, cycles) == sp_exec_op(old(game_state)@, op),
{
    if op < 0x20 {
        execute_00_1f(game_state, op)
    } else if op < 0x40 {
        execute_20_3f(game_state, op)
    } else if op < 0x80 {
        execute_ld_block(game_state, op)
    } else if op < 0xC0 {
        execute_alu_block(game_state, op)
    } else if op < 0xE0 {
        execute_c0_df(game_state, op)
    } else {
        execute_e0_ff(game_state, op)
    }
}

// ---------------------------------------------------------------------------
// The fetch-decode-execute step
// ---------------------------------------------------------------------------

/// One step of the instruction engine: fetch the byte at PC, dispatch through
/// the primary table or — after the 0xCB prefix — the secondary table, add
/// the cycle cost to the clock, and advance PC by the instruction length
/// unless the operation redirected control flow, which suppresses the
/// generic advance for this step only.
pub open spec fn sp_step(v: StateView) -> (StateView, u8) {
    let op = v.read8(v.pc);
    let executed = if op != 0xCB {
        (sp_exec_op(v, op), instr_len(op))
    } else {
        (
            (sp_exec_cb(v, v.read8(v.pc.wrapping_add(1))), cb_cycles(v.read8(v.pc.wrapping_add(1)))),
            2u16,
        )
    };
    let v1 = executed.0.0;
    let cycles = executed.0.1;
    let adv0 = executed.1;
    let moved = v1.pc_moved;
    let v2 = if moved {
        StateView { pc_moved: false, ..v1 }
    } else {
        v1
    };
    let advance: u16 = if moved {
        0
    } else {
        adv0
    };
    let v3 = StateView { cycles: v2.cycles.wrapping_add(cycles as u128), ..v2 };
    (StateView { pc: v3.pc.wrapping_add(advance), ..v3 }, cycles)
}

/// The instruction engine. The two 256-entry dispatch tables are fixed, so
/// the engine itself carries no state.
pub struct CPU {}

impl CPU {
    pub fn initialize() -> (cpu: CPU) {
        CPU {  }
    }

    /// Execute the instruction at PC and report its cycle cost.
    pub fn step(&self, game_state: &mut GameState) -> (cycles: u8)
        requires
            old(game_state).wf(),
        ensures
            final(game_state).wf(),
            (final(game_state)@, cycles) == sp_step(old(game_state)@),
    {
        let curr_pc = game_state.get_register16(Register::PC);
        let next_instruction = game_state.read(curr_pc);
        let cycles: u8;
        let mut advance_amount: u16 = 1;
        if next_instruction != 0xCB {
            advance_amount = instruction_length(next_instruction);
            cycles = execute_opcode(game_state, next_instruction);
        } else {
            let actual_ins = game_state.read(curr_pc.wrapping_add(1));
            cycles = execute_cb_opcode(game_state, actual_ins);
            advance_amount = 2;
        }
        if game_state.pc_moved() {
            advance_amount = 0;
            game_state.set_pc_moved(false);
        }
        game_state.update_clock(cycles);
        let pc_now = game_state.get_register16(Register::PC);
        game_state.set_register16(Register::PC, pc_now.wrapping_add(advance_amount));
        cycles
    }
}

} // verus!
