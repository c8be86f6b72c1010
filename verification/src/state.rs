use vstd::prelude::*;
use crate::constants::{FLAG_Z, FLAG_N, FLAG_H, FLAG_C, INT_TIMER, LCDC_TILE_MAP};

verus! {

/// The eight 8-bit registers, the four 16-bit pairs they form, and the two
/// dedicated 16-bit registers.
#[derive(Copy, Clone, Debug)]
pub enum Register {
    A,
    F,
    AF,
    B,
    C,
    BC,
    D,
    E,
    DE,
    H,
    L,
    HL,
    PC,
    SP,
}

/// The four condition codes of conditional jumps, calls and returns.
#[derive(Copy, Clone, Debug)]
pub enum CC {
    Z,
    NZ,
    C,
    NC,
}

/// The four named flags held in the top nibble of F.
#[allow(non_snake_case)]
#[derive(Copy, Clone, Debug, PartialEq, Eq, Structural)]
pub struct Flags {
    pub Z: bool,
    pub N: bool,
    pub H: bool,
    pub C: bool,
}

pub open spec fn is_reg8(r: Register) -> bool {
    match r {
        Register::A => true,
        Register::F => true,
        Register::B => true,
        Register::C => true,
        Register::D => true,
        Register::E => true,
        Register::H => true,
        Register::L => true,
        _ => false,
    }
}

pub open spec fn is_reg16(r: Register) -> bool {
    match r {
        Register::AF => true,
        Register::BC => true,
        Register::DE => true,
        Register::HL => true,
        Register::PC => true,
        Register::SP => true,
        _ => false,
    }
}

/// Combine two bytes into a 16-bit value, low byte first.
pub fn generate_16bit(lsb: u8, msb: u8) -> (v: u16)
    ensures
        v == msb * 256 + lsb,
{
    (msb as u16) * 256 + (lsb as u16)
}

/// High byte of a 16-bit value.
pub open spec fn hi16(v: u16) -> u8 {
    (v / 256) as u8
}

/// Low byte of a 16-bit value.
pub open spec fn lo16(v: u16) -> u8 {
    (v % 256) as u8
}

/// The F byte holding the four named flags in its top nibble; the low
/// nibble is always zero.
pub open spec fn pack_flags(fl: Flags) -> u8 {
    (if fl.Z {
        FLAG_Z
    } else {
        0
    }) | (if fl.N {
        FLAG_N
    } else {
        0
    }) | (if fl.H {
        FLAG_H
    } else {
        0
    }) | (if fl.C {
        FLAG_C
    } else {
        0
    })
}

/// The mathematical model of the whole machine state: plain integers for the
/// registers and I/O registers, sequences for the four RAM regions and the ROM.
#[verifier::ext_equal]
pub struct StateView {
    pub a: u8,
    pub f: u8,
    pub b: u8,
    pub c: u8,
    pub d: u8,
    pub e: u8,
    pub h: u8,
    pub l: u8,
    pub pc: u16,
    pub sp: u16,
    pub ime: bool,
    pub i_enable: u8,
    pub i_flag: u8,
    pub dma: u8,
    pub a_button: bool,
    pub b_button: bool,
    pub start_button: bool,
    pub select_button: bool,
    pub up_button: bool,
    pub down_button: bool,
    pub left_button: bool,
    pub right_button: bool,
    pub joyp: u8,
    pub lcdc: u8,
    pub ly: u8,
    pub lyc: u8,
    pub stat: u8,
    pub scy: u8,
    pub scx: u8,
    pub wy: u8,
    pub wx: u8,
    pub bgp: u8,
    pub obp0: u8,
    pub obp1: u8,
    pub div: u16,
    pub tima: u8,
    pub tma: u8,
    pub tac: u8,
    pub available_cycles: u16,
    pub wram: Seq<u8>,
    pub vram: Seq<u8>,
    pub oam: Seq<u8>,
    pub hram: Seq<u8>,
    pub pc_moved: bool,
    pub cycles: u128,
    pub rom: Seq<u8>,
}

impl StateView {
    /// The four RAM regions have their fixed hardware sizes.
    pub open spec fn wf(self) -> bool {
        &&& self.wram.len() == 0x2000
        &&& self.vram.len() == 0x2000
        &&& self.oam.len() == 0xA0
        &&& self.hram.len() == 0x7F
    }

    pub open spec fn reg8(self, r: Register) -> u8 {
        match r {
            Register::A => self.a,
            Register::F => self.f,
            Register::B => self.b,
            Register::C => self.c,
            Register::D => self.d,
            Register::E => self.e,
            Register::H => self.h,
            Register::L => self.l,
            _ => 0,
        }
    }

    pub open spec fn with_reg8(self, r: Register, v: u8) -> StateView {
        match r {
            Register::A => StateView { a: v, ..self },
            Register::F => StateView { f: v, ..self },
            Register::B => StateView { b: v, ..self },
            Register::C => StateView { c: v, ..self },
            Register::D => StateView { d: v, ..self },
            Register::E => StateView { e: v, ..self },
            Register::H => StateView { h: v, ..self },
            Register::L => StateView { l: v, ..self },
            _ => self,
        }
    }

    pub open spec fn reg16(self, r: Register) -> u16 {
        match r {
            Register::AF => (self.a * 256 + self.f) as u16,
            Register::BC => (self.b * 256 + self.c) as u16,
            Register::DE => (self.d * 256 + self.e) as u16,
            Register::HL => (self.h * 256 + self.l) as u16,
            Register::PC => self.pc,
            Register::SP => self.sp,
            _ => 0,
        }
    }

    pub open spec fn with_reg16(self, r: Register, v: u16) -> StateView {
        match r {
            Register::AF => StateView { a: hi16(v), f: lo16(v) & 0xF0, ..self },
            Register::BC => StateView { b: hi16(v), c: lo16(v), ..self },
            Register::DE => StateView { d: hi16(v), e: lo16(v), ..self },
            Register::HL => StateView { h: hi16(v), l: lo16(v), ..self },
            Register::PC => StateView { pc: v, ..self },
            Register::SP => StateView { sp: v, ..self },
            _ => self,
        }
    }

    pub open spec fn flags(self) -> Flags {
        Flags {
            Z: self.f & FLAG_Z != 0,
            N: self.f & FLAG_N != 0,
            H: self.f & FLAG_H != 0,
            C: self.f & FLAG_C != 0,
        }
    }

    pub open spec fn with_flags(self, fl: Flags) -> StateView {
        StateView { f: pack_flags(fl), ..self }
    }

    /// The value the joypad register yields on a read: the selected button
    /// group's live state in the low nibble, the two group-select bits as
    /// written, and the two unused top bits reading as one.
    pub open spec fn joyp_read(self) -> u8 {
        let b0 = if self.a_button { 0x0Fu8 & 0xFE } else { 0x0Fu8 };
        let b1 = if self.b_button { b0 & 0xFD } else { b0 };
        let b2 = if self.select_button { b1 & 0xFB } else { b1 };
        let button_bits = if self.start_button { b2 & 0xF7 } else { b2 };
        let d0 = if self.right_button { 0x0Fu8 & 0xFE } else { 0x0Fu8 };
        let d1 = if self.left_button { d0 & 0xFD } else { d0 };
        let d2 = if self.up_button { d1 & 0xFB } else { d1 };
        let d_pad_bits = if self.down_button { d2 & 0xF7 } else { d2 };
        let select_buttons = self.joyp & 0x20;
        let select_d_pad = self.joyp & 0x10;
        let high = (self.joyp & 0x30) | 0xC0;
        if select_buttons == 0 && select_d_pad == 0 {
            high | (button_bits & d_pad_bits)
        } else if select_buttons == 0 {
            high | button_bits
        } else if select_d_pad == 0 {
            high | d_pad_bits
        } else {
            high | 0x0F
        }
    }

    /// The memory bus read: region dispatch over the 16-bit address space.
    /// Unmapped addresses and reads past the end of the ROM image yield 0xFF.
    pub open spec fn read8(self, addr: u16) -> u8 {
        if addr < 0x8000 {
            if addr < self.rom.len() {
                self.rom[addr as int]
            } else {
                0xFF
            }
        } else if addr < 0xA000 {
            self.vram[addr - 0x8000]
        } else if addr < 0xC000 {
            0xFF
        } else if addr < 0xE000 {
            self.wram[addr - 0xC000]
        } else if addr < 0xFE00 {
            self.wram[addr - 0xE000]
        } else if addr <= 0xFE9F {
            self.oam[addr - 0xFE00]
        } else if addr == 0xFF00 {
            self.joyp_read()
        } else if addr == 0xFF04 {
            (self.div / 256) as u8
        } else if addr == 0xFF05 {
            self.tima
        } else if addr == 0xFF06 {
            self.tma
        } else if addr == 0xFF07 {
            self.tac
        } else if addr == 0xFF0F {
            self.i_flag
        } else if addr == 0xFF40 {
            self.lcdc
        } else if addr == 0xFF41 {
            self.stat
        } else if addr == 0xFF42 {
            self.scy
        } else if addr == 0xFF43 {
            self.scx
        } else if addr == 0xFF44 {
            self.ly
        } else if addr == 0xFF45 {
            self.lyc
        } else if addr == 0xFF46 {
            self.dma
        } else if addr == 0xFF4A {
            self.wy
        } else if addr == 0xFF4B {
            self.wx
        } else if 0xFF80 <= addr && addr <= 0xFFFE {
            self.hram[addr - 0xFF80]
        } else if addr == 0xFFFF {
            self.i_enable
        } else {
            0xFF
        }
    }

    /// The tile index at a position of the active background tile map.
    pub open spec fn tile_index_at(self, tile_in_map: u16) -> u8 {
        if self.lcdc & LCDC_TILE_MAP == 0 {
            self.read8((0x9800 + tile_in_map) as u16)
        } else {
            self.read8((0x9C00 + tile_in_map) as u16)
        }
    }

    /// Row `i` of the tile pattern starting at `addr`: the two plane bytes
    /// combined, high plane in the high byte.
    pub open spec fn tile_row(self, addr: u16, i: int) -> u16 {
        (self.vram[addr - 0x8000 + 2 * i + 1] * 256 + self.vram[addr - 0x8000 + 2 * i]) as u16
    }

    /// The DMA trigger: record the written value, then copy 160 bytes from
    /// `value * 256` into the sprite attribute table.
    pub open spec fn dma_write(self, value: u8) -> StateView {
        let mid = StateView { dma: value, ..self };
        StateView { oam: Seq::new(0xA0, |i: int| mid.read8((value * 256 + i) as u16)), ..mid }
    }

    /// The memory bus write: region dispatch; ROM and unmapped addresses are
    /// no-ops, 0xFF46 triggers DMA, 0xFF04 resets the divider, and the joypad
    /// register keeps only the two group-select bits of the written value.
    pub open spec fn write8(self, value: u8, addr: u16) -> StateView {
        if addr < 0x8000 {
            self
        } else if addr < 0xA000 {
            StateView { vram: self.vram.update(addr - 0x8000, value), ..self }
        } else if addr < 0xC000 {
            self
        } else if addr < 0xE000 {
            StateView { wram: self.wram.update(addr - 0xC000, value), ..self }
        } else if addr < 0xFE00 {
            StateView { wram: self.wram.update(addr - 0xE000, value), ..self }
        } else if addr <= 0xFE9F {
            StateView { oam: self.oam.update(addr - 0xFE00, value), ..self }
        } else if addr == 0xFF00 {
            StateView { joyp: (self.joyp & 0xCF) | (value & 0x30), ..self }
        } else if addr == 0xFF04 {
            StateView { div: 0, ..self }
        } else if addr == 0xFF05 {
            StateView { tima: value, ..self }
        } else if addr == 0xFF06 {
            StateView { tma: value, ..self }
        } else if addr == 0xFF07 {
            StateView { tac: value, ..self }
        } else if addr == 0xFF0F {
            StateView { i_flag: value, ..self }
        } else if addr == 0xFF40 {
            StateView { lcdc: value, ..self }
        } else if addr == 0xFF41 {
            StateView { stat: value, ..self }
        } else if addr == 0xFF42 {
            StateView { scy: value, ..self }
        } else if addr == 0xFF43 {
            StateView { scx: value, ..self }
        } else if addr == 0xFF45 {
            StateView { lyc: value, ..self }
        } else if addr == 0xFF46 {
            self.dma_write(value)
        } else if addr == 0xFF4A {
            StateView { wy: value, ..self }
        } else if addr == 0xFF4B {
            StateView { wx: value, ..self }
        } else if 0xFF80 <= addr && addr <= 0xFFFE {
            StateView { hram: self.hram.update(addr - 0xFF80, value), ..self }
        } else if addr == 0xFFFF {
            StateView { i_enable: value, ..self }
        } else {
            self
        }
    }
}

/// The machine state at power-on with a given ROM image: the documented
/// post-boot register and I/O register values, zeroed RAM.
pub open spec fn initial_state(rom: Seq<u8>) -> StateView {
    StateView {
        a: 0x01,
        f: 0xB0,
        b: 0x00,
        c: 0x13,
        d: 0x00,
        e: 0xD8,
        h: 0x01,
        l: 0x4D,
        pc: 0x0100,
        sp: 0xFFFE,
        ime: false,
        i_enable: 0,
        i_flag: 0,
        dma: 0,
        a_button: false,
        b_button: false,
        start_button: false,
        select_button: false,
        up_button: false,
        down_button: false,
        left_button: false,
        right_button: false,
        joyp: 0xCF,
        lcdc: 0x91,
        ly: 0,
        lyc: 0,
        stat: 0x85,
        scy: 0,
        scx: 0,
        wy: 0,
        wx: 0,
        bgp: 0xFC,
        obp0: 0xFF,
        obp1: 0xFF,
        div: 0,
        tima: 0,
        tma: 0,
        tac: 0xF8,
        available_cycles: 0,
        wram: Seq::new(0x2000, |i: int| 0u8),
        vram: Seq::new(0x2000, |i: int| 0u8),
        oam: Seq::new(0xA0, |i: int| 0u8),
        hram: Seq::new(0x7F, |i: int| 0u8),
        pc_moved: false,
        cycles: 0,
        rom: rom,
    }
}

/// The whole emulated machine: registers, flags, interrupt state, joypad,
/// memory-mapped I/O registers, timers, the four RAM regions and the ROM.
pub struct GameState {
    pub a: u8,
    pub f: u8,
    pub b: u8,
    pub c: u8,
    pub d: u8,
    pub e: u8,
    pub h: u8,
    pub l: u8,
    pub pc: u16,
    pub sp: u16,
    pub ime: bool,
    pub i_enable: u8,
    pub i_flag: u8,
    pub dma: u8,
    pub a_button: bool,
    pub b_button: bool,
    pub start_button: bool,
    pub select_button: bool,
    pub up_button: bool,
    pub down_button: bool,
    pub left_button: bool,
    pub right_button: bool,
    pub joyp: u8,
    pub lcdc: u8,
    pub ly: u8,
    pub lyc: u8,
    pub stat: u8,
    pub scy: u8,
    pub scx: u8,
    pub wy: u8,
    pub wx: u8,
    pub bgp: u8,
    pub obp0: u8,
    pub obp1: u8,
    pub div: u16,
    pub tima: u8,
    pub tma: u8,
    pub tac: u8,
    pub available_cycles: u16,
    pub wram: Vec<u8>,
    pub vram: Vec<u8>,
    pub oam: Vec<u8>,
    pub hram: Vec<u8>,
    pub pc_moved: bool,
    pub cycles: u128,
    pub rom: Vec<u8>,
}

impl View for GameState {
    type V = StateView;

    open spec fn view(&self) -> StateView {
        StateView {
            a: self.a,
            f: self.f,
            b: self.b,
            c: self.c,
            d: self.d,
            e: self.e,
            h: self.h,
            l: self.l,
            pc: self.pc,
            sp: self.sp,
            ime: self.ime,
            i_enable: self.i_enable,
            i_flag: self.i_flag,
            dma: self.dma,
            a_button: self.a_button,
            b_button: self.b_button,
            start_button: self.start_button,
            select_button: self.select_button,
            up_button: self.up_button,
            down_button: self.down_button,
            left_button: self.left_button,
            right_button: self.right_button,
            joyp: self.joyp,
            lcdc: self.lcdc,
            ly: self.ly,
            lyc: self.lyc,
            stat: self.stat,
            scy: self.scy,
            scx: self.scx,
            wy: self.wy,
            wx: self.wx,
            bgp: self.bgp,
            obp0: self.obp0,
            obp1: self.obp1,
            div: self.div,
            tima: self.tima,
            tma: self.tma,
            tac: self.tac,
            available_cycles: self.available_cycles,
            wram: self.wram@,
            vram: self.vram@,
            oam: self.oam@,
            hram: self.hram@,
            pc_moved: self.pc_moved,
            cycles: self.cycles,
            rom: self.rom@,
        }
    }
}

impl GameState {
    pub open spec fn wf(&self) -> bool {
        self@.wf()
    }

    /// Power the machine on with the given ROM image.
    pub fn start_game(rom: Vec<u8>) -> (gs: GameState)
        ensures
            gs@ == initial_state(rom@),
            gs.wf(),
    {
        let mut wram: Vec<u8> = Vec::new();
        let mut vram: Vec<u8> = Vec::new();
        let mut oam: Vec<u8> = Vec::new();
        let mut hram: Vec<u8> = Vec::new();
        wram.resize(0x2000, 0u8);
        vram.resize(0x2000, 0u8);
        oam.resize(0xA0, 0u8);
        hram.resize(0x7F, 0u8);
        let gs = GameState {
            a: 0x01,
            f: 0xB0,
            b: 0x00,
            c: 0x13,
            d: 0x00,
            e: 0xD8,
            h: 0x01,
            l: 0x4D,
            pc: 0x0100,
            sp: 0xFFFE,
            ime: false,
            i_enable: 0,
            i_flag: 0,
            dma: 0,
            a_button: false,
            b_button: false,
            start_button: false,
            select_button: false,
            up_button: false,
            down_button: false,
            left_button: false,
            right_button: false,
            joyp: 0xCF,
            lcdc: 0x91,
            ly: 0,
            lyc: 0,
            stat: 0x85,
            scy: 0,
            scx: 0,
            wy: 0,
            wx: 0,
            bgp: 0xFC,
            obp0: 0xFF,
            obp1: 0xFF,
            div: 0,
            tima: 0,
            tma: 0,
            tac: 0xF8,
            available_cycles: 0,
            wram,
            vram,
            oam,
            hram,
            pc_moved: false,
            cycles: 0,
            rom,
        };
        proof {
            assert(gs@.wram =~= initial_state(gs@.rom).wram);
            assert(gs@.vram =~= initial_state(gs@.rom).vram);
            assert(gs@.oam =~= initial_state(gs@.rom).oam);
            assert(gs@.hram =~= initial_state(gs@.rom).hram);
            assert(gs@ =~= initial_state(gs@.rom));
        }
        gs
    }

    pub fn get_register8(&self, reg: Register) -> (v: u8)
        requires
            is_reg8(reg),
        ensures
            v == self@.reg8(reg),
    {
        match reg {
            Register::A => self.a,
            Register::F => self.f,
            Register::B => self.b,
            Register::C => self.c,
            Register::D => self.d,
            Register::E => self.e,
            Register::H => self.h,
            Register::L => self.l,
            _ => 0,
        }
    }

    pub fn get_register16(&self, reg: Register) -> (v: u16)
        requires
            is_reg16(reg),
        ensures
            v == self@.reg16(reg),
    {
        match reg {
            Register::AF => (self.a as u16) * 256 + (self.f as u16),
            Register::BC => (self.b as u16) * 256 + (self.c as u16),
            Register::DE => (self.d as u16) * 256 + (self.e as u16),
            Register::HL => (self.h as u16) * 256 + (self.l as u16),
            Register::PC => self.pc,
            Register::SP => self.sp,
            _ => 0,
        }
    }

    pub fn set_register8(&mut self, reg: Register, val: u8)
        requires
            is_reg8(reg),
        ensures
            final(self)@ == old(self)@.with_reg8(reg, val),
    {
        match reg {
            Register::A => self.a = val,
            Register::F => self.f = val,
            Register::B => self.b = val,
            Register::C => self.c = val,
            Register::D => self.d = val,
            Register::E => self.e = val,
            Register::H => self.h = val,
            Register::L => self.l = val,
            _ => (),
        }
    }

    pub fn set_register16(&mut self, reg: Register, val: u16)
        requires
            is_reg16(reg),
        ensures
            final(self)@ == old(self)@.with_reg16(reg, val),
    {
        match reg {
            Register::AF => {
                // the low nibble of F holds no flag and always reads zero
                self.a = (val / 256) as u8;
                self.f = ((val % 256) as u8) & 0xF0;
            }
            Register::BC => {
                self.b = (val / 256) as u8;
                self.c = (val % 256) as u8;
            }
            Register::DE => {
                self.d = (val / 256) as u8;
                self.e = (val % 256) as u8;
            }
            Register::HL => {
                self.h = (val / 256) as u8;
                self.l = (val % 256) as u8;
            }
            Register::PC => self.pc = val,
            Register::SP => self.sp = val,
            _ => (),
        }
    }

    /// Write the four named flags into the top nibble of F, leaving the low
    /// nibble zero.
    pub fn set_flags(&mut self, flags: &Flags)
        ensures
            final(self)@ == old(self)@.with_flags(*flags),
            final(self).f & 0x0F == 0,
    {
        let zf: u8 = if flags.Z {
            FLAG_Z
        } else {
            0
        };
        let nf: u8 = if flags.N {
            FLAG_N
        } else {
            0
        };
        let hf: u8 = if flags.H {
            FLAG_H
        } else {
            0
        };
        let cf: u8 = if flags.C {
            FLAG_C
        } else {
            0
        };
        self.f = zf | nf | hf | cf;
        proof {
            lemma_pack_flags_low_nibble(*flags);
        }
    }

    pub fn get_flags(&self) -> (fl: Flags)
        ensures
            fl == self@.flags(),
    {
        Flags {
            Z: self.f & FLAG_Z != 0,
            N: self.f & FLAG_N != 0,
            H: self.f & FLAG_H != 0,
            C: self.f & FLAG_C != 0,
        }
    }

    pub fn read(&self, addr: u16) -> (v: u8)
        requires
            self.wf(),
        ensures
            v == self@.read8(addr),
    {
        if addr < 0x8000 {
            if (addr as usize) < self.rom.len() {
                self.rom[addr as usize]
            } else {
                0xFF
            }
        } else if addr < 0xA000 {
            self.vram[(addr - 0x8000) as usize]
        } else if addr < 0xC000 {
            0xFF
        } else if addr < 0xE000 {
            self.wram[(addr - 0xC000) as usize]
        } else if addr < 0xFE00 {
            self.wram[(addr - 0xE000) as usize]
        } else if addr <= 0xFE9F {
            self.oam[(addr - 0xFE00) as usize]
        } else if addr == 0xFF00 {
            let mut button_bits: u8 = 0x0F;
            if self.a_button {
                button_bits = button_bits & 0xFE;
            }
            if self.b_button {
                button_bits = button_bits & 0xFD;
            }
            if self.select_button {
                button_bits = button_bits & 0xFB;
            }
            if self.start_button {
                button_bits = button_bits & 0xF7;
            }
            let mut d_pad_bits: u8 = 0x0F;
            if self.right_button {
                d_pad_bits = d_pad_bits & 0xFE;
            }
            if self.left_button {
                d_pad_bits = d_pad_bits & 0xFD;
            }
            if self.up_button {
                d_pad_bits = d_pad_bits & 0xFB;
            }
            if self.down_button {
                d_pad_bits = d_pad_bits & 0xF7;
            }
            let select_buttons = self.joyp & 0x20;
            let select_d_pad = self.joyp & 0x10;
            // the two unused top bits read as one, the group selects as written
            let high = (self.joyp & 0x30) | 0xC0;
            if select_buttons == 0 && select_d_pad == 0 {
                high | (button_bits & d_pad_bits)
            } else if select_buttons == 0 {
                high | button_bits
            } else if select_d_pad == 0 {
                high | d_pad_bits
            } else {
                high | 0x0F
            }
        } else if addr == 0xFF04 {
            (self.div / 256) as u8
        } else if addr == 0xFF05 {
            self.tima
        } else if addr == 0xFF06 {
            self.tma
        } else if addr == 0xFF07 {
            self.tac
        } else if addr == 0xFF0F {
            self.i_flag
        } else if addr == 0xFF40 {
            self.lcdc
        } else if addr == 0xFF41 {
            self.stat
        } else if addr == 0xFF42 {
            self.scy
        } else if addr == 0xFF43 {
            self.scx
        } else if addr == 0xFF44 {
            self.ly
        } else if addr == 0xFF45 {
            self.lyc
        } else if addr == 0xFF46 {
            self.dma
        } else if addr == 0xFF4A {
            self.wy
        } else if addr == 0xFF4B {
            self.wx
        } else if 0xFF80 <= addr && addr <= 0xFFFE {
            self.hram[(addr - 0xFF80) as usize]
        } else if addr == 0xFFFF {
            self.i_enable
        } else {
            0xFF
        }
    }

    /// The DMA trigger: record the value, then copy 160 bytes from
    /// `value * 256` into the sprite attribute table.
    fn dma_oam(&mut self, value: u8)
        requires
            old(self).wf(),
        ensures
            final(self)@ == old(self)@.dma_write(value),
            final(self).wf(),
    {
        self.dma = value;
        let ghost mid = self@;
        let start: u16 = (value as u16) * 256;
        let mut new_oam: Vec<u8> = Vec::new();
        let mut i: usize = 0;
        while i < 0xA0
            invariant
                i <= 0xA0,
                self@ == mid,
                mid.wf(),
                start == value * 256,
                new_oam@.len() == i,
                forall|j: int| 0 <= j < i ==> new_oam@[j] == mid.read8((value * 256 + j) as u16),
            decreases 0xA0 - i,
        {
            new_oam.push(self.read(start + (i as u16)));
            i = i + 1;
        }
        self.oam = new_oam;
        proof {
            assert(self@.oam =~= old(self)@.dma_write(value).oam);
            assert(self@ =~= old(self)@.dma_write(value));
        }
    }

    #[verifier::rlimit(60)]
    pub fn write(&mut self, value: u8, addr: u16)
        requires
            old(self).wf(),
        ensures
            final(self)@ == old(self)@.write8(value, addr),
            final(self).wf(),
    {
        if addr < 0x8000 {
            // the ROM region is read-only: the write is discarded
        } else if addr < 0xA000 {
            self.vram[(addr - 0x8000) as usize] = value;
        } else if addr < 0xC000 {
            // external RAM is not mapped: the write is discarded
        } else if addr < 0xE000 {
            self.wram[(addr - 0xC000) as usize] = value;
        } else if addr < 0xFE00 {
            self.wram[(addr - 0xE000) as usize] = value;
        } else if addr <= 0xFE9F {
            self.oam[(addr - 0xFE00) as usize] = value;
        } else if addr == 0xFF00 {
            self.joyp = (self.joyp & 0xCF) | (value & 0x30);
        } else if addr == 0xFF04 {
            self.div = 0;
        } else if addr == 0xFF05 {
            self.tima = value;
        } else if addr == 0xFF06 {
            self.tma = value;
        } else if addr == 0xFF07 {
            self.tac = value;
        } else if addr == 0xFF0F {
            self.i_flag = value;
        } else if addr == 0xFF40 {
            self.lcdc = value;
        } else if addr == 0xFF41 {
            self.stat = value;
        } else if addr == 0xFF42 {
            self.scy = value;
        } else if addr == 0xFF43 {
            self.scx = value;
        } else if addr == 0xFF45 {
            self.lyc = value;
        } else if addr == 0xFF46 {
            self.dma_oam(value);
        } else if addr == 0xFF4A {
            self.wy = value;
        } else if addr == 0xFF4B {
            self.wx = value;
        } else if 0xFF80 <= addr && addr <= 0xFFFE {
            self.hram[(addr - 0xFF80) as usize] = value;
        } else if addr == 0xFFFF {
            self.i_enable = value;
        } else {
            // no register is mapped here: the write is discarded
        }
    }

    pub fn set_interrupts(&mut self, on: bool)
        ensures
            final(self)@ == (StateView { ime: on, ..old(self)@ }),
    {
        self.ime = on;
    }

    pub fn get_interrupts(&self) -> (b: bool)
        ensures
            b == self@.ime,
    {
        self.ime
    }

    pub fn get_i_flag(&self) -> (v: u8)
        ensures
            v == self@.i_flag,
    {
        self.i_flag
    }

    pub fn get_i_enable(&self) -> (v: u8)
        ensures
            v == self@.i_enable,
    {
        self.i_enable
    }

    pub fn pc_moved(&mut self) -> (b: bool)
        ensures
            *final(self) == *old(self),
            b == old(self)@.pc_moved,
    {
        self.pc_moved
    }

    pub fn set_pc_moved(&mut self, val: bool)
        ensures
            final(self)@ == (StateView { pc_moved: val, ..old(self)@ }),
    {
        self.pc_moved = val;
    }

    /// Add an instruction's cycle cost to the running cycle counter.
    pub fn update_clock(&mut self, add_cycles: u8)
        ensures
            final(self)@ == (StateView {
                cycles: old(self).cycles.wrapping_add(add_cycles as u128),
                ..old(self)@
            }),
    {
        self.cycles = self.cycles.wrapping_add(add_cycles as u128);
    }

    pub fn inc_div(&mut self, amount: u8)
        ensures
            final(self)@ == (StateView {
                div: old(self).div.wrapping_add(amount as u16),
                ..old(self)@
            }),
    {
        self.div = self.div.wrapping_add(amount as u16);
    }

    pub fn get_tac(&self) -> (v: u8)
        ensures
            v == self@.tac,
    {
        self.tac
    }

    pub fn inc_available_cycles(&mut self, val: u16)
        requires
            old(self).available_cycles + val <= 0xFFFF,
        ensures
            final(self)@ == (StateView {
                available_cycles: (old(self).available_cycles + val) as u16,
                ..old(self)@
            }),
    {
        self.available_cycles = self.available_cycles + val;
    }

    pub fn dec_available_cycles(&mut self, val: u16)
        requires
            old(self).available_cycles >= val,
        ensures
            final(self)@ == (StateView {
                available_cycles: (old(self).available_cycles - val) as u16,
                ..old(self)@
            }),
    {
        self.available_cycles = self.available_cycles - val;
    }

    pub fn get_available_cycles(&self) -> (v: u16)
        ensures
            v == self@.available_cycles,
    {
        self.available_cycles
    }

    /// One timer tick: on overflow, reload TIMA from TMA and raise the timer
    /// interrupt flag; otherwise count up by one.
    pub fn update_tima(&mut self)
        requires
            old(self).wf(),
        ensures
            final(self).wf(),
            old(self).tima == 0xFF ==> final(self)@ == (StateView {
                tima: old(self).tma,
                i_flag: old(self).i_flag | INT_TIMER,
                ..old(self)@
            }),
            old(self).tima < 0xFF ==> final(self)@ == (StateView {
                tima: (old(self).tima + 1) as u8,
                ..old(self)@
            }),
    {
        if self.tima > 0xFF - 1 {
            self.tima = self.tma;
            let flags = self.read(0xFF0F);
            self.write(flags | INT_TIMER, 0xFF0F);
        } else {
            self.tima = self.tima + 1;
        }
    }

    /// The four bytes of one sprite attribute table entry.
    pub fn get_oam_entry(&self, loc: u8) -> (entry: [u8; 4])
        requires
            self.wf(),
            loc % 0xA0 <= 0x9C,
        ensures
            entry@ == seq![
                self@.oam[(loc % 0xA0) as int],
                self@.oam[(loc % 0xA0) as int + 1],
                self@.oam[(loc % 0xA0) as int + 2],
                self@.oam[(loc % 0xA0) as int + 3],
            ],
    {
        let l = (loc % 0xA0) as usize;
        let entry = [self.oam[l], self.oam[l + 1], self.oam[l + 2], self.oam[l + 3]];
        proof {
            assert(entry@ =~= seq![
                self@.oam[(loc % 0xA0) as int],
                self@.oam[(loc % 0xA0) as int + 1],
                self@.oam[(loc % 0xA0) as int + 2],
                self@.oam[(loc % 0xA0) as int + 3],
            ]);
        }
        entry
    }

    pub fn get_lcdc(&self) -> (v: u8)
        ensures
            v == self@.lcdc,
    {
        self.lcdc
    }

    pub fn get_ly(&self) -> (v: u8)
        ensures
            v == self@.ly,
    {
        self.ly
    }

    pub fn get_scx(&self) -> (v: u8)
        ensures
            v == self@.scx,
    {
        self.scx
    }

    pub fn get_scy(&self) -> (v: u8)
        ensures
            v == self@.scy,
    {
        self.scy
    }

    pub fn get_wx(&self) -> (v: u8)
        ensures
            v == self@.wx,
    {
        self.wx
    }

    pub fn get_wy(&self) -> (v: u8)
        ensures
            v == self@.wy,
    {
        self.wy
    }

    /// Advance the current scanline index, wrapping after line 153.
    pub fn inc_ly(&mut self, amount: u8)
        ensures
            final(self)@ == (StateView {
                ly: ((old(self).ly + amount) % 154) as u8,
                ..old(self)@
            }),
    {
        self.ly = ((self.ly as u16 + amount as u16) % 154) as u8;
    }

    pub fn set_ly(&mut self, val: u8)
        ensures
            final(self)@ == (StateView { ly: val, ..old(self)@ }),
    {
        self.ly = val;
    }

    /// The tile index at a position of the active background tile map; an
    /// LCD-control bit selects which of the two maps is read.
    pub fn get_tile_index(&self, tile_in_map: u16) -> (v: u8)
        requires
            self.wf(),
            tile_in_map <= 0x3FF,
        ensures
            v == self@.tile_index_at(tile_in_map),
    {
        if self.lcdc & LCDC_TILE_MAP == 0 {
            self.read(0x9800 + tile_in_map)
        } else {
            self.read(0x9C00 + tile_in_map)
        }
    }

    /// The eight rows of one 16-byte tile pattern, each row as the pair of
    /// plane bytes combined into one 16-bit value (high plane in the high byte).
    pub fn get_tile_from_addr(&self, addr: u16) -> (rows: [u16; 8])
        requires
            self.wf(),
            0x8000 <= addr,
            addr + 15 <= 0x9FFF,
        ensures
            rows@.len() == 8,
            forall|i: int| 0 <= i < 8 ==> rows@[i] == self@.tile_row(addr, i),
    {
        let base = (addr - 0x8000) as usize;
        let rows = [
            (self.vram[base + 1] as u16) * 256 + (self.vram[base] as u16),
            (self.vram[base + 3] as u16) * 256 + (self.vram[base + 2] as u16),
            (self.vram[base + 5] as u16) * 256 + (self.vram[base + 4] as u16),
            (self.vram[base + 7] as u16) * 256 + (self.vram[base + 6] as u16),
            (self.vram[base + 9] as u16) * 256 + (self.vram[base + 8] as u16),
            (self.vram[base + 11] as u16) * 256 + (self.vram[base + 10] as u16),
            (self.vram[base + 13] as u16) * 256 + (self.vram[base + 12] as u16),
            (self.vram[base + 15] as u16) * 256 + (self.vram[base + 14] as u16),
        ];
        rows
    }

    /// Record the live state of the eight buttons.
    pub fn update_joypad(
        &mut self,
        a: bool,
        b: bool,
        start: bool,
        select: bool,
        up: bool,
        down: bool,
        left: bool,
        right: bool,
    )
        ensures
            final(self)@ == (StateView {
                a_button: a,
                b_button: b,
                start_button: start,
                select_button: select,
                up_button: up,
                down_button: down,
                left_button: left,
                right_button: right,
                ..old(self)@
            }),
    {
        self.a_button = a;
        self.b_button = b;
        self.start_button = start;
        self.select_button = select;
        self.up_button = up;
        self.down_button = down;
        self.left_button = left;
        self.right_button = right;
    }
}

/// The packed flag byte carries nothing in its low nibble.
proof fn lemma_pack_flags_low_nibble(fl: Flags)
    ensures
        pack_flags(fl) & 0x0F == 0,
{
    let zf: u8 = if fl.Z {
        FLAG_Z
    } else {
        0
    };
    let nf: u8 = if fl.N {
        FLAG_N
    } else {
        0
    };
    let hf: u8 = if fl.H {
        FLAG_H
    } else {
        0
    };
    let cf: u8 = if fl.C {
        FLAG_C
    } else {
        0
    };
    assert((zf | nf | hf | cf) & 0x0F == 0) by (bit_vector)
        requires
            zf == 0 || zf == 0x80,
            nf == 0 || nf == 0x40,
            hf == 0 || hf == 0x20,
            cf == 0 || cf == 0x10,
    ;
}

/// The low nibble of F is zero after any flag-writing operation.
pub proof fn lemma_flags_low_nibble_zero(v: StateView, fl: Flags)
    ensures
        v.with_flags(fl).f & 0x0F == 0,
{
    lemma_pack_flags_low_nibble(fl);
}

/// Packing the flags read back from F reproduces F exactly: F never holds
/// anything but the four named flags.
pub proof fn lemma_flags_pack_identity(v: StateView)
    requires
        v.f & 0x0F == 0,
    ensures
        v.with_flags(v.flags()) == v,
{
    let f = v.f;
    let zf: u8 = if f & FLAG_Z != 0 {
        FLAG_Z
    } else {
        0
    };
    let nf: u8 = if f & FLAG_N != 0 {
        FLAG_N
    } else {
        0
    };
    let hf: u8 = if f & FLAG_H != 0 {
        FLAG_H
    } else {
        0
    };
    let cf: u8 = if f & FLAG_C != 0 {
        FLAG_C
    } else {
        0
    };
    assert((zf | nf | hf | cf) == f) by (bit_vector)
        requires
            f & 0x0F == 0,
            zf == (if f & 0x80 != 0 {
                0x80u8
            } else {
                0u8
            }),
            nf == (if f & 0x40 != 0 {
                0x40u8
            } else {
                0u8
            }),
            hf == (if f & 0x20 != 0 {
                0x20u8
            } else {
                0u8
            }),
            cf == (if f & 0x10 != 0 {
                0x10u8
            } else {
                0u8
            }),
    ;
    assert(v.with_flags(v.flags()) =~= v);
}

} // verus!
