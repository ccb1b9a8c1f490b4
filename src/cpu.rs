//! The LR35902 core: register file, flag arithmetic, the instruction
//! interpreter, interrupt dispatch, and the per-cycle drive of the PPU, timer,
//! serial port and joypad.
use crate::bits::{bit_of, from_be_bytes, get_bit, hi8, lo8, pair16, set_bit, to_be_bytes, with_bit};
use crate::logger::Logger;
use crate::mbc::MemState;
use crate::ppu::{raise, PPU};
use crate::ram::Reg;
use vstd::prelude::*;

verus! {

/// `a + b` on 8 bits, wrapping.
pub open spec fn wadd8(a: u8, b: u8) -> u8 {
    ((a + b) % 0x100) as u8
}

/// `a - b` on 8 bits, wrapping.
pub open spec fn wsub8(a: u8, b: u8) -> u8 {
    ((a - b + 0x100) % 0x100) as u8
}

/// `a + b` on 16 bits, wrapping.
pub open spec fn wadd16(a: u16, b: u16) -> u16 {
    ((a + b) % 0x10000) as u16
}

/// `a - b` on 16 bits, wrapping.
pub open spec fn wsub16(a: u16, b: u16) -> u16 {
    ((a - b + 0x10000) % 0x10000) as u16
}

/// A byte read as a signed displacement and widened to 16 bits.
pub open spec fn sext16(n: u8) -> u16 {
    if n < 0x80 {
        n as u16
    } else {
        (n + 0xff00) as u16
    }
}

/// Result, carry and half-carry of `a + b` on 8 bits.
pub open spec fn alu_add8(a: u8, b: u8) -> (u8, bool, bool) {
    (wadd8(a, b), a + b > 0xff, (a ^ b ^ wadd8(a, b)) & 0x10 != 0)
}

/// Result, borrow and half-carry of `a - b` on 8 bits.
pub open spec fn alu_sub8(a: u8, b: u8) -> (u8, bool, bool) {
    (wsub8(a, b), a < b, (a ^ b ^ wsub8(a, b)) & 0x10 != 0)
}

/// Result, carry and half-carry of `a + b` on 16 bits.
pub open spec fn alu_add16(a: u16, b: u16) -> (u16, bool, bool) {
    (wadd16(a, b), a + b > 0xffff, (a ^ b ^ wadd16(a, b)) & 0x1000 != 0)
}

/// Result, carry and half-carry of `n` plus the signed displacement `a`.
pub open spec fn alu_add_signed(n: u16, a: u8) -> (u16, bool, bool) {
    let r = wadd16(n, sext16(a));
    (r, (n ^ sext16(a) ^ r) & 0x100 != 0, (n ^ sext16(a) ^ r) & 0x10 != 0)
}

/// 8-bit addition: result, carry out of bit 7, and half-carry, which is bit 4
/// of `a ^ b ^ result`.
pub fn add8_carry_half(a: u8, b: u8) -> (r: (u8, bool, bool))
    ensures
        r.0 == wadd8(a, b),
        r.1 == (a + b > 0xff),
        r.2 == ((a ^ b ^ r.0) & 0x10 != 0),
        r == alu_add8(a, b),
{
    let s = a as u16 + b as u16;
    let v = (s % 0x100) as u8;
    (v, s > 0xff, (a ^ b ^ v) & 0x10 != 0)
}

/// 8-bit subtraction: result, borrow, and half-carry, which is bit 4 of
/// `a ^ b ^ result`.
pub fn sub8_carry_half(a: u8, b: u8) -> (r: (u8, bool, bool))
    ensures
        r.0 == wsub8(a, b),
        r.1 == (a < b),
        r.2 == ((a ^ b ^ r.0) & 0x10 != 0),
        r == alu_sub8(a, b),
{
    let v = a.wrapping_sub(b);
    (v, a < b, (a ^ b ^ v) & 0x10 != 0)
}

/// 16-bit addition: result, carry out of bit 15, and half-carry, which is
/// bit 12 of `a ^ b ^ result`.
pub fn add16_carry_half(a: u16, b: u16) -> (r: (u16, bool, bool))
    ensures
        r.0 == wadd16(a, b),
        r.1 == (a + b > 0xffff),
        r.2 == ((a ^ b ^ r.0) & 0x1000 != 0),
        r == alu_add16(a, b),
{
    let v = a.wrapping_add(b);
    (v, a as u32 + b as u32 > 0xffff, (a ^ b ^ v) & 0x1000 != 0)
}

/// 16-bit subtraction: result, borrow, and half-carry, which is bit 12 of
/// `a ^ b ^ result`.
pub fn sub16_carry_half(a: u16, b: u16) -> (r: (u16, bool, bool))
    ensures
        r.0 == wsub16(a, b),
        r.1 == (a < b),
        r.2 == ((a ^ b ^ r.0) & 0x1000 != 0),
{
    let v = a.wrapping_sub(b);
    (v, a < b, (a ^ b ^ v) & 0x1000 != 0)
}

/// Adds the signed displacement `a` to `n`: result, carry (bit 8 of
/// `n ^ a' ^ result`) and half-carry (bit 4), where `a'` is `a` sign-extended.
pub fn add_signed_u8_carry_half(n: u16, a: u8) -> (r: (u16, bool, bool))
    ensures
        r.0 == wadd16(n, sext16(a)),
        r.1 == ((n ^ sext16(a) ^ r.0) & 0x100 != 0),
        r.2 == ((n ^ sext16(a) ^ r.0) & 0x10 != 0),
        r == alu_add_signed(n, a),
{
    let u: u16 = if a < 0x80 {
        a as u16
    } else {
        a as u16 + 0xff00
    };
    let res = n.wrapping_add(u);
    (res, (n ^ u ^ res) & 0x100 != 0, (n ^ u ^ res) & 0x10 != 0)
}

/// Bit of F that holds the Zero flag.
pub const ZERO: u8 = 7;

/// Bit of F that holds the Negative flag.
pub const NEGATIVE: u8 = 6;

/// Bit of F that holds the HalfCarry flag.
pub const HALF: u8 = 5;

/// Bit of F that holds the Carry flag.
pub const CARRY: u8 = 4;

/// Largest value of the per-instruction cycle counter.
pub const CYCLE_ROOM: usize = usize::MAX;

/// Operand tags: registers, register pairs, immediates, memory operands
/// and branch conditions. `A_` is A as the rotate-accumulator opcodes name
/// it: the result never sets Zero.
#[allow(non_camel_case_types)]
#[derive(Debug, PartialEq, Eq, Clone, Copy, Default, Structural)]
pub enum OP {
    A,
    B,
    C,
    D,
    E,
    H,
    L,
    A_,
    AF,
    BC,
    DE,
    HL,
    SP,
    N,
    NN,
    P_BC,
    P_DE,
    P_HL,
    P_NN,
    P_FF00_N,
    P_FF00_C,
    P_HL_INC,
    P_HL_DEC,
    Zero,
    Carry,
    NotZero,
    NotCarry,
    Always,
    #[default]
    Nothing,
}

/// The operand that an instruction log entry shows after its mnemonic.
#[derive(Debug, PartialEq, Eq, Clone, Copy, Default, Structural)]
pub enum LogInfo {
    U8h(u8),
    U16h(u16),
    I8h(u8),
    #[default]
    Empty,
}

/// A snapshot of the registers before one instruction, with its bytes.
#[derive(Debug, Clone, Default)]
pub struct CPULog {
    pub a: u8,
    pub f: u8,
    pub b: u8,
    pub c: u8,
    pub d: u8,
    pub e: u8,
    pub h: u8,
    pub l: u8,
    pub sp: u16,
    pub pc: u16,
    pub ime: bool,
    pub halting: bool,
    pub cycle: usize,
    pub sys_counter: usize,
    pub exe_counter: usize,
    pub reg_if: u8,
    pub reg_ie: u8,
    pub rom_bank: usize,
    pub ram_ex_bank: usize,
    pub codes: Vec<u8>,
    pub instr: &'static str,
    pub op1: OP,
    pub op2: OP,
    pub info: LogInfo,
}

impl CPULog {
    pub fn get_carry(&self) -> (r: bool)
        ensures
            r == bit_of(self.f, CARRY),
    {
        get_bit(self.f, CARRY as usize)
    }

    pub fn get_half(&self) -> (r: bool)
        ensures
            r == bit_of(self.f, HALF),
    {
        get_bit(self.f, HALF as usize)
    }

    pub fn get_negative(&self) -> (r: bool)
        ensures
            r == bit_of(self.f, NEGATIVE),
    {
        get_bit(self.f, NEGATIVE as usize)
    }

    pub fn get_zero(&self) -> (r: bool)
        ensures
            r == bit_of(self.f, ZERO),
    {
        get_bit(self.f, ZERO as usize)
    }
}

/// The CPU as the contracts see it: registers, flags, interrupt state, the
/// cycles spent by the current instruction, and memory.
pub struct CpuState {
    pub a: u8,
    pub f: u8,
    pub b: u8,
    pub c: u8,
    pub d: u8,
    pub e: u8,
    pub h: u8,
    pub l: u8,
    pub sp: u16,
    pub pc: u16,
    pub ime: bool,
    pub halting: bool,
    pub cycle: int,
    pub mem: MemState,
}

/// Operands that an 8-bit load reads.
pub open spec fn is_src8(op: OP) -> bool {
    match op {
        OP::A | OP::A_ | OP::B | OP::C | OP::D | OP::E | OP::H | OP::L | OP::N | OP::P_BC | OP::P_DE
        | OP::P_HL | OP::P_NN | OP::P_HL_INC | OP::P_HL_DEC | OP::P_FF00_C | OP::P_FF00_N => true,
        _ => false,
    }
}

/// Operands that an 8-bit store writes.
pub open spec fn is_dst8(op: OP) -> bool {
    is_src8(op) && op != OP::N
}

/// Operands that a 16-bit load reads.
pub open spec fn is_src16(op: OP) -> bool {
    match op {
        OP::AF | OP::BC | OP::DE | OP::HL | OP::SP | OP::NN => true,
        _ => false,
    }
}

/// Operands that a 16-bit store writes.
pub open spec fn is_dst16(op: OP) -> bool {
    match op {
        OP::AF | OP::BC | OP::DE | OP::HL | OP::SP | OP::P_NN => true,
        _ => false,
    }
}

/// Branch conditions.
pub open spec fn is_cond(op: OP) -> bool {
    match op {
        OP::Zero | OP::NotZero | OP::Carry | OP::NotCarry | OP::Always => true,
        _ => false,
    }
}

impl CpuState {
    pub open spec fn af(self) -> u16 {
        pair16(self.a, self.f)
    }

    pub open spec fn bc(self) -> u16 {
        pair16(self.b, self.c)
    }

    pub open spec fn de(self) -> u16 {
        pair16(self.d, self.e)
    }

    pub open spec fn hl(self) -> u16 {
        pair16(self.h, self.l)
    }

    /// AF takes the high byte into A and the high nibble of the low byte into F.
    pub open spec fn set_af(self, v: u16) -> CpuState {
        CpuState { a: hi8(v), f: lo8(v) & 0xf0, ..self }
    }

    pub open spec fn set_bc(self, v: u16) -> CpuState {
        CpuState { b: hi8(v), c: lo8(v), ..self }
    }

    pub open spec fn set_de(self, v: u16) -> CpuState {
        CpuState { d: hi8(v), e: lo8(v), ..self }
    }

    pub open spec fn set_hl(self, v: u16) -> CpuState {
        CpuState { h: hi8(v), l: lo8(v), ..self }
    }

    pub open spec fn flag(self, i: u8) -> bool {
        bit_of(self.f, i)
    }

    pub open spec fn with_flag(self, i: u8, b: bool) -> CpuState {
        CpuState { f: with_bit(self.f, i, b), ..self }
    }

    /// Sets Carry, HalfCarry, Negative and Zero, in that order.
    pub open spec fn with_flags(self, z: bool, n: bool, h: bool, c: bool) -> CpuState {
        self.with_flag(CARRY, c).with_flag(HALF, h).with_flag(NEGATIVE, n).with_flag(ZERO, z)
    }

    pub open spec fn tick(self) -> CpuState {
        CpuState { cycle: self.cycle + 1, ..self }
    }

    pub open spec fn ticks(self, n: int) -> CpuState {
        CpuState { cycle: self.cycle + n, ..self }
    }

    pub open spec fn read(self, i: u16) -> u8 {
        self.mem.read(i)
    }

    pub open spec fn write(self, i: u16, v: u8) -> CpuState {
        CpuState { mem: self.mem.write(i, v), ..self }
    }

    pub open spec fn fetch8(self) -> (u8, CpuState) {
        (self.read(self.pc), CpuState { pc: wadd16(self.pc, 1), ..self }.tick())
    }

    /// Two bytes at PC, low byte first.
    pub open spec fn fetch16(self) -> (u16, CpuState) {
        let (lo, s1) = self.fetch8();
        let (hi, s2) = s1.fetch8();
        (pair16(hi, lo), s2)
    }

    pub open spec fn load8(self, op: OP) -> (u8, CpuState) {
        match op {
            OP::A | OP::A_ => (self.a, self),
            OP::B => (self.b, self),
            OP::C => (self.c, self),
            OP::D => (self.d, self),
            OP::E => (self.e, self),
            OP::H => (self.h, self),
            OP::L => (self.l, self),
            OP::N => self.fetch8(),
            OP::P_BC => (self.read(self.bc()), self),
            OP::P_DE => (self.read(self.de()), self),
            OP::P_HL => (self.read(self.hl()), self),
            OP::P_NN => {
                let (i, s1) = self.fetch16();
                (s1.read(i), s1)
            },
            OP::P_HL_INC => (self.read(self.hl()), self.set_hl(wadd16(self.hl(), 1))),
            OP::P_HL_DEC => (self.read(self.hl()), self.set_hl(wsub16(self.hl(), 1))),
            OP::P_FF00_C => (self.read((0xff00 + self.c) as u16), self),
            OP::P_FF00_N => {
                let (i, s1) = self.fetch8();
                (s1.read((0xff00 + i) as u16), s1)
            },
            _ => (0, self),
        }
    }

    pub open spec fn store8(self, op: OP, v: u8) -> CpuState {
        match op {
            OP::A | OP::A_ => CpuState { a: v, ..self },
            OP::B => CpuState { b: v, ..self },
            OP::C => CpuState { c: v, ..self },
            OP::D => CpuState { d: v, ..self },
            OP::E => CpuState { e: v, ..self },
            OP::H => CpuState { h: v, ..self },
            OP::L => CpuState { l: v, ..self },
            OP::P_BC => self.write(self.bc(), v),
            OP::P_DE => self.write(self.de(), v),
            OP::P_HL => self.write(self.hl(), v),
            OP::P_NN => {
                let (i, s1) = self.fetch16();
                s1.write(i, v)
            },
            OP::P_HL_INC => self.set_hl(wadd16(self.hl(), 1)).write(self.hl(), v),
            OP::P_HL_DEC => self.set_hl(wsub16(self.hl(), 1)).write(self.hl(), v),
            OP::P_FF00_C => self.write((0xff00 + self.c) as u16, v),
            OP::P_FF00_N => {
                let (i, s1) = self.fetch8();
                s1.write((0xff00 + i) as u16, v)
            },
            _ => self,
        }
    }

    pub open spec fn load16(self, op: OP) -> (u16, CpuState) {
        match op {
            OP::AF => (self.af(), self),
            OP::BC => (self.bc(), self),
            OP::DE => (self.de(), self),
            OP::HL => (self.hl(), self),
            OP::SP => (self.sp, self),
            OP::NN => self.fetch16(),
            _ => (0, self),
        }
    }

    /// `(NN)` stores the low byte first; the store itself costs one cycle
    /// less than its two operand fetches.
    pub open spec fn store16(self, op: OP, v: u16) -> CpuState {
        match op {
            OP::AF => self.set_af(v),
            OP::BC => self.set_bc(v),
            OP::DE => self.set_de(v),
            OP::HL => self.set_hl(v),
            OP::P_NN => {
                let (i, s1) = self.fetch16();
                s1.write(i, lo8(v)).write(wadd16(i, 1), hi8(v)).ticks(-1)
            },
            OP::SP => CpuState { sp: v, ..self },
            _ => self,
        }
    }

    pub open spec fn push8(self, v: u8) -> CpuState {
        let sp = wsub16(self.sp, 1);
        CpuState { sp: sp, ..self }.write(sp, v).tick()
    }

    pub open spec fn pop8(self) -> (u8, CpuState) {
        (self.read(self.sp), CpuState { sp: wadd16(self.sp, 1), ..self }.tick())
    }

    /// High byte first, so that the low byte ends at the lower address.
    pub open spec fn push16(self, v: u16) -> CpuState {
        self.push8(hi8(v)).push8(lo8(v))
    }

    pub open spec fn pop16(self) -> (u16, CpuState) {
        let (lo, s1) = self.pop8();
        let (hi, s2) = s1.pop8();
        (pair16(hi, lo), s2)
    }

    pub open spec fn cond(self, op: OP) -> bool {
        match op {
            OP::Zero => self.flag(ZERO),
            OP::NotZero => !self.flag(ZERO),
            OP::Carry => self.flag(CARRY),
            OP::NotCarry => !self.flag(CARRY),
            _ => true,
        }
    }
}

pub struct CPU {
    pub ppu: PPU,
    pub cpu_logger: Logger<CPULog>,
    pub serial_logger: Logger<u8>,
    pub joypad_buffer: u8,
    pub a: u8,
    pub f: u8,
    pub b: u8,
    pub c: u8,
    pub d: u8,
    pub e: u8,
    pub h: u8,
    pub l: u8,
    pub sp: u16,
    pub pc: u16,
    pub halting: bool,
    pub ime: bool,
    pub cycle: usize,
    pub sys_counter: usize,
    pub exe_counter: usize,
}

/// Setting one of the four flag bits keeps F's low nibble clear.
proof fn lemma_flag_keeps_low_nibble(f: u8, i: u8, b: bool)
    requires
        f & 0x0f == 0,
        4 <= i < 8,
    ensures
        with_bit(f, i, b) & 0x0f == 0,
{
    assert(f & 0x0f == 0 && 4 <= i < 8 ==> (f | (1u8 << i)) & 0x0f == 0 && (f & !(1u8 << i)) & 0x0f == 0)
        by (bit_vector);
}

impl CPU {
    pub open spec fn wf(&self) -> bool {
        &&& self.ppu.wf()
        &&& self.f & 0x0f == 0
        &&& self.cpu_logger.wf()
        &&& self.serial_logger.wf()
    }

    pub open spec fn state(&self) -> CpuState {
        CpuState {
            a: self.a,
            f: self.f,
            b: self.b,
            c: self.c,
            d: self.d,
            e: self.e,
            h: self.h,
            l: self.l,
            sp: self.sp,
            pc: self.pc,
            ime: self.ime,
            halting: self.halting,
            cycle: self.cycle as int,
            mem: self.ppu.mbc@,
        }
    }

    /// What the instruction helpers leave alone: the screen, the dot
    /// counter, the ROM header, the serial log and the counters.
    pub open spec fn frame(&self, other: &CPU) -> bool {
        &&& self.ppu.same_screen(&other.ppu)
        &&& self.ppu.mbc.rom == other.ppu.mbc.rom
        &&& self.serial_logger == other.serial_logger
        &&& self.cpu_logger.logging == other.cpu_logger.logging
        &&& self.joypad_buffer == other.joypad_buffer
        &&& self.sys_counter == other.sys_counter
        &&& self.exe_counter == other.exe_counter
    }

    /// `self` is well formed, in state `s`, and otherwise as `other` was.
    pub open spec fn moved(&self, other: &CPU, s: CpuState) -> bool {
        &&& self.wf()
        &&& self.state() == s
        &&& self.frame(other)
    }

    fn get_carry(&self) -> (r: bool)
        ensures
            r == self.state().flag(CARRY),
    {
        get_bit(self.f, CARRY as usize)
    }

    fn get_half(&self) -> (r: bool)
        ensures
            r == self.state().flag(HALF),
    {
        get_bit(self.f, HALF as usize)
    }

    fn get_negative(&self) -> (r: bool)
        ensures
            r == self.state().flag(NEGATIVE),
    {
        get_bit(self.f, NEGATIVE as usize)
    }

    fn get_zero(&self) -> (r: bool)
        ensures
            r == self.state().flag(ZERO),
    {
        get_bit(self.f, ZERO as usize)
    }

    fn set_flag(&mut self, i: u8, b: bool)
        requires
            old(self).wf(),
            4 <= i < 8,
        ensures
            final(self).moved(old(self), old(self).state().with_flag(i, b)),
    {
        proof {
            lemma_flag_keeps_low_nibble(self.f, i, b);
        }
        self.f = set_bit(self.f, i as usize, b);
    }

    fn set_carry(&mut self, b: bool)
        requires
            old(self).wf(),
        ensures
            final(self).moved(old(self), old(self).state().with_flag(CARRY, b)),
    {
        self.set_flag(CARRY, b);
    }

    fn set_half(&mut self, b: bool)
        requires
            old(self).wf(),
        ensures
            final(self).moved(old(self), old(self).state().with_flag(HALF, b)),
    {
        self.set_flag(HALF, b);
    }

    fn set_negative(&mut self, b: bool)
        requires
            old(self).wf(),
        ensures
            final(self).moved(old(self), old(self).state().with_flag(NEGATIVE, b)),
    {
        self.set_flag(NEGATIVE, b);
    }

    fn set_zero(&mut self, b: bool)
        requires
            old(self).wf(),
        ensures
            final(self).moved(old(self), old(self).state().with_flag(ZERO, b)),
    {
        self.set_flag(ZERO, b);
    }

    /// Sets Carry, HalfCarry, Negative and Zero, in that order.
    fn set_flags(&mut self, z: bool, n: bool, h: bool, c: bool)
        requires
            old(self).wf(),
        ensures
            final(self).moved(old(self), old(self).state().with_flags(z, n, h, c)),
    {
        self.set_carry(c);
        self.set_half(h);
        self.set_negative(n);
        self.set_zero(z);
    }

    pub fn get_af(&self) -> (r: u16)
        ensures
            r == self.state().af(),
    {
        from_be_bytes(self.a, self.f)
    }

    pub fn get_bc(&self) -> (r: u16)
        ensures
            r == self.state().bc(),
    {
        from_be_bytes(self.b, self.c)
    }

    pub fn get_de(&self) -> (r: u16)
        ensures
            r == self.state().de(),
    {
        from_be_bytes(self.d, self.e)
    }

    pub fn get_hl(&self) -> (r: u16)
        ensures
            r == self.state().hl(),
    {
        from_be_bytes(self.h, self.l)
    }

    pub fn set_af(&mut self, v: u16)
        requires
            old(self).wf(),
        ensures
            final(self).moved(old(self), old(self).state().set_af(v)),
    {
        let bs = to_be_bytes(v);
        let lo = bs.1;
        self.a = bs.0;
        self.f = lo & 0xf0;
        assert(lo & 0xf0 & 0x0f == 0) by (bit_vector);
    }

    pub fn set_bc(&mut self, v: u16)
        requires
            old(self).wf(),
        ensures
            final(self).moved(old(self), old(self).state().set_bc(v)),
    {
        let bs = to_be_bytes(v);
        self.b = bs.0;
        self.c = bs.1;
    }

    pub fn set_de(&mut self, v: u16)
        requires
            old(self).wf(),
        ensures
            final(self).moved(old(self), old(self).state().set_de(v)),
    {
        let bs = to_be_bytes(v);
        self.d = bs.0;
        self.e = bs.1;
    }

    pub fn set_hl(&mut self, v: u16)
        requires
            old(self).wf(),
        ensures
            final(self).moved(old(self), old(self).state().set_hl(v)),
    {
        let bs = to_be_bytes(v);
        self.h = bs.0;
        self.l = bs.1;
    }

    fn read(&self, i: u16) -> (r: u8)
        requires
            self.wf(),
        ensures
            r == self.state().read(i),
    {
        self.ppu.mbc.read(i)
    }

    fn write(&mut self, i: u16, v: u8)
        requires
            old(self).wf(),
        ensures
            final(self).moved(old(self), old(self).state().write(i, v)),
    {
        self.ppu.mbc.write(i, v);
    }

    fn read_reg(&self, r: Reg) -> (v: u8)
        requires
            self.wf(),
        ensures
            v == self.state().mem.reg(r),
    {
        self.ppu.mbc.read_reg(r)
    }

    fn write_reg(&mut self, r: Reg, v: u8)
        requires
            old(self).wf(),
        ensures
            final(self).moved(
                old(self),
                CpuState { mem: old(self).state().mem.set_reg(r, v), ..old(self).state() },
            ),
    {
        self.ppu.mbc.write_reg(r, v);
    }

    /// Raises interrupt request `bit` in IF.
    fn request_interrupt(&mut self, bit: u8)
        requires
            old(self).wf(),
            bit < 5,
        ensures
            final(self).moved(
                old(self),
                CpuState { mem: raise(old(self).state().mem, bit), ..old(self).state() },
            ),
    {
        self.ppu.mbc.modify_reg(Reg::IF, |u: u8| -> (r: u8)
            requires bit < 8
            ensures r == with_bit(u, bit, true)
            { set_bit(u, bit as usize, true) });
    }

    fn tick(&mut self)
        requires
            old(self).wf(),
            old(self).cycle < CYCLE_ROOM,
        ensures
            final(self).moved(old(self), old(self).state().tick()),
    {
        self.cycle = self.cycle + 1;
    }

    fn fetch8(&mut self) -> (r: u8)
        requires
            old(self).wf(),
            old(self).cycle < CYCLE_ROOM,
        ensures
            final(self).moved(old(self), old(self).state().fetch8().1),
            r == old(self).state().fetch8().0,
    {
        let v = self.read(self.pc);
        self.pc = self.pc.wrapping_add(1);
        self.tick();
        v
    }

    fn fetch16(&mut self) -> (r: u16)
        requires
            old(self).wf(),
            old(self).cycle + 1 < CYCLE_ROOM,
        ensures
            final(self).moved(old(self), old(self).state().fetch16().1),
            r == old(self).state().fetch16().0,
    {
        let lo = self.fetch8();
        let hi = self.fetch8();
        from_be_bytes(hi, lo)
    }
}


impl CPU {
    fn load8(&mut self, op: OP) -> (r: u8)
        requires
            old(self).wf(),
            old(self).cycle + 2 < CYCLE_ROOM,
            is_src8(op),
        ensures
            final(self).moved(old(self), old(self).state().load8(op).1),
            r == old(self).state().load8(op).0,
            final(self).cycle <= old(self).cycle + 2,
    {
        match op {
            OP::A | OP::A_ => self.a,
            OP::B => self.b,
            OP::C => self.c,
            OP::D => self.d,
            OP::E => self.e,
            OP::H => self.h,
            OP::L => self.l,
            OP::N => self.fetch8(),
            OP::P_BC => self.read(self.get_bc()),
            OP::P_DE => self.read(self.get_de()),
            OP::P_HL => self.read(self.get_hl()),
            OP::P_NN => {
                let i = self.fetch16();
                self.read(i)
            },
            OP::P_HL_INC => {
                let hl = self.get_hl();
                self.set_hl(hl.wrapping_add(1));
                self.read(hl)
            },
            OP::P_HL_DEC => {
                let hl = self.get_hl();
                self.set_hl(hl.wrapping_sub(1));
                self.read(hl)
            },
            OP::P_FF00_C => self.read(0xff00 + (self.c as u16)),
            OP::P_FF00_N => {
                let i = self.fetch8();
                self.read(0xff00 + (i as u16))
            },
            _ => 0,
        }
    }

    fn store8(&mut self, op: OP, v: u8)
        requires
            old(self).wf(),
            old(self).cycle + 2 < CYCLE_ROOM,
            is_dst8(op),
        ensures
            final(self).moved(old(self), old(self).state().store8(op, v)),
            final(self).cycle <= old(self).cycle + 2,
    {
        match op {
            OP::A | OP::A_ => self.a = v,
            OP::B => self.b = v,
            OP::C => self.c = v,
            OP::D => self.d = v,
            OP::E => self.e = v,
            OP::H => self.h = v,
            OP::L => self.l = v,
            OP::P_BC => {
                let i = self.get_bc();
                self.write(i, v);
            },
            OP::P_DE => {
                let i = self.get_de();
                self.write(i, v);
            },
            OP::P_HL => {
                let i = self.get_hl();
                self.write(i, v);
            },
            OP::P_NN => {
                let i = self.fetch16();
                self.write(i, v);
            },
            OP::P_HL_INC => {
                let hl = self.get_hl();
                self.set_hl(hl.wrapping_add(1));
                self.write(hl, v);
            },
            OP::P_HL_DEC => {
                let hl = self.get_hl();
                self.set_hl(hl.wrapping_sub(1));
                self.write(hl, v);
            },
            OP::P_FF00_C => {
                let i = 0xff00 + (self.c as u16);
                self.write(i, v);
            },
            OP::P_FF00_N => {
                let i = self.fetch8();
                self.write(0xff00 + (i as u16), v);
            },
            _ => {},
        }
    }

    fn load16(&mut self, op: OP) -> (r: u16)
        requires
            old(self).wf(),
            old(self).cycle + 2 < CYCLE_ROOM,
            is_src16(op),
        ensures
            final(self).moved(old(self), old(self).state().load16(op).1),
            r == old(self).state().load16(op).0,
            final(self).cycle <= old(self).cycle + 2,
    {
        match op {
            OP::AF => self.get_af(),
            OP::BC => self.get_bc(),
            OP::DE => self.get_de(),
            OP::HL => self.get_hl(),
            OP::SP => self.sp,
            OP::NN => self.fetch16(),
            _ => 0,
        }
    }

    fn store16(&mut self, op: OP, v: u16)
        requires
            old(self).wf(),
            old(self).cycle + 2 < CYCLE_ROOM,
            is_dst16(op),
        ensures
            final(self).moved(old(self), old(self).state().store16(op, v)),
            final(self).cycle <= old(self).cycle + 1,
    {
        match op {
            OP::AF => self.set_af(v),
            OP::BC => self.set_bc(v),
            OP::DE => self.set_de(v),
            OP::HL => self.set_hl(v),
            OP::P_NN => {
                let bs = to_be_bytes(v);
                let i = self.fetch16();
                self.write(i, bs.1);
                self.write(i.wrapping_add(1), bs.0);
                self.cycle = self.cycle - 1;
            },
            OP::SP => self.sp = v,
            _ => {},
        }
    }

    fn push8(&mut self, v: u8)
        requires
            old(self).wf(),
            old(self).cycle < CYCLE_ROOM,
        ensures
            final(self).moved(old(self), old(self).state().push8(v)),
    {
        self.sp = self.sp.wrapping_sub(1);
        self.write(self.sp, v);
        self.tick();
    }

    fn pop8(&mut self) -> (r: u8)
        requires
            old(self).wf(),
            old(self).cycle < CYCLE_ROOM,
        ensures
            final(self).moved(old(self), old(self).state().pop8().1),
            r == old(self).state().pop8().0,
    {
        let v = self.read(self.sp);
        self.sp = self.sp.wrapping_add(1);
        self.tick();
        v
    }

    /// Pushes `v` high byte first; SP ends two bytes lower.
    pub fn push16(&mut self, v: u16)
        requires
            old(self).wf(),
            old(self).cycle + 1 < CYCLE_ROOM,
        ensures
            final(self).moved(old(self), old(self).state().push16(v)),
    {
        let bs = to_be_bytes(v);
        self.push8(bs.0);
        self.push8(bs.1);
    }

    /// Pops a word, low byte first; SP ends two bytes higher.
    pub fn pop16(&mut self) -> (r: u16)
        requires
            old(self).wf(),
            old(self).cycle + 1 < CYCLE_ROOM,
        ensures
            final(self).moved(old(self), old(self).state().pop16().1),
            r == old(self).state().pop16().0,
    {
        let l = self.pop8();
        let h = self.pop8();
        from_be_bytes(h, l)
    }

    fn cond_flag(&self, op: OP) -> (r: bool)
        requires
            is_cond(op),
        ensures
            r == self.state().cond(op),
    {
        match op {
            OP::Zero => self.get_zero(),
            OP::NotZero => !self.get_zero(),
            OP::Carry => self.get_carry(),
            OP::NotCarry => !self.get_carry(),
            _ => true,
        }
    }

    /// When instruction logging is on, records the registers and the three
    /// bytes at the current instruction, whose opcode lies `back + 1` bytes
    /// before PC.
    fn log(&mut self, instr: &'static str, op1: OP, op2: OP, info: LogInfo, back: u16)
        requires
            old(self).wf(),
        ensures
            final(self).moved(old(self), old(self).state()),
    {
        if self.cpu_logger.logging {
            let at = self.pc.wrapping_sub(1).wrapping_sub(back);
            let mut codes: Vec<u8> = Vec::new();
            codes.push(self.read(at));
            codes.push(self.read(at.wrapping_add(1)));
            codes.push(self.read(at.wrapping_add(2)));
            let c = CPULog {
                a: self.a,
                f: self.f,
                b: self.b,
                c: self.c,
                d: self.d,
                e: self.e,
                h: self.h,
                l: self.l,
                sp: self.sp,
                pc: at,
                ime: self.ime,
                halting: self.halting,
                cycle: self.cycle,
                sys_counter: self.sys_counter,
                exe_counter: self.exe_counter,
                reg_if: self.read_reg(Reg::IF),
                reg_ie: self.read_reg(Reg::IE),
                rom_bank: self.ppu.mbc.get_rom_bank(),
                ram_ex_bank: self.ppu.mbc.get_ram_ex_bank(),
                codes: codes,
                instr: instr,
                op1: op1,
                op2: op2,
                info: info,
            };
            self.cpu_logger.write(c);
        }
    }
}


/// The instructions, each as the state it leaves behind.
impl CpuState {
    pub open spec fn set_a(self, v: u8) -> CpuState {
        CpuState { a: v, ..self }
    }

    #[verifier::opaque]
    pub open spec fn ld8(self, op1: OP, op2: OP) -> CpuState {
        let (n, s1) = self.load8(op2);
        s1.store8(op1, n)
    }

    #[verifier::opaque]
    pub open spec fn ld16(self, op1: OP, op2: OP) -> CpuState {
        let (n, s1) = self.load16(op2);
        s1.store16(op1, n)
    }

    #[verifier::opaque]
    pub open spec fn ld16_hl_sp_n(self) -> CpuState {
        let (n, s1) = self.fetch8();
        let r = alu_add_signed(s1.sp, n);
        s1.set_hl(r.0).with_flags(false, false, r.2, r.1).tick()
    }

    #[verifier::opaque]
    pub open spec fn push(self, op: OP) -> CpuState {
        let (v, s1) = self.load16(op);
        s1.tick().push16(v)
    }

    #[verifier::opaque]
    pub open spec fn pop(self, op: OP) -> CpuState {
        let (v, s1) = self.pop16();
        s1.store16(op, v)
    }

    #[verifier::opaque]
    pub open spec fn add(self, op: OP) -> CpuState {
        let (v, s1) = self.load8(op);
        let r = alu_add8(s1.a, v);
        s1.set_a(r.0).with_flags(r.0 == 0, false, r.2, r.1)
    }

    /// Adds the operand, then the old carry; carries and half-carries of the
    /// two stages are or-ed.
    #[verifier::opaque]
    pub open spec fn adc(self, op: OP) -> CpuState {
        let (v, s1) = self.load8(op);
        let r1 = alu_add8(s1.a, v);
        let r2 = alu_add8(r1.0, if s1.flag(CARRY) { 1u8 } else { 0u8 });
        s1.set_a(r2.0).with_flags(r2.0 == 0, false, r1.2 || r2.2, r1.1 || r2.1)
    }

    #[verifier::opaque]
    pub open spec fn sub(self, op: OP) -> CpuState {
        let (v, s1) = self.load8(op);
        let r = alu_sub8(s1.a, v);
        s1.set_a(r.0).with_flags(r.0 == 0, true, r.2, r.1)
    }

    #[verifier::opaque]
    pub open spec fn sbc(self, op: OP) -> CpuState {
        let (v, s1) = self.load8(op);
        let r1 = alu_sub8(s1.a, v);
        let r2 = alu_sub8(r1.0, if s1.flag(CARRY) { 1u8 } else { 0u8 });
        s1.set_a(r2.0).with_flags(r2.0 == 0, true, r1.2 || r2.2, r1.1 || r2.1)
    }

    #[verifier::opaque]
    pub open spec fn and_(self, op: OP) -> CpuState {
        let (v, s1) = self.load8(op);
        let r = s1.a & v;
        s1.set_a(r).with_flags(r == 0, false, true, false)
    }

    #[verifier::opaque]
    pub open spec fn or_(self, op: OP) -> CpuState {
        let (v, s1) = self.load8(op);
        let r = s1.a | v;
        s1.set_a(r).with_flags(r == 0, false, false, false)
    }

    #[verifier::opaque]
    pub open spec fn xor(self, op: OP) -> CpuState {
        let (v, s1) = self.load8(op);
        let r = s1.a ^ v;
        s1.set_a(r).with_flags(r == 0, false, false, false)
    }

    #[verifier::opaque]
    pub open spec fn cp(self, op: OP) -> CpuState {
        let (v, s1) = self.load8(op);
        let r = alu_sub8(s1.a, v);
        s1.with_flags(r.0 == 0, true, r.2, r.1)
    }

    /// Carry is kept.
    #[verifier::opaque]
    pub open spec fn inc8(self, op: OP) -> CpuState {
        let (v, s1) = self.load8(op);
        let r = alu_add8(v, 1);
        s1.store8(op, r.0).with_flag(HALF, r.2).with_flag(NEGATIVE, false).with_flag(ZERO, r.0 == 0)
    }

    /// Carry is kept.
    #[verifier::opaque]
    pub open spec fn dec8(self, op: OP) -> CpuState {
        let (v, s1) = self.load8(op);
        let r = alu_sub8(v, 1);
        s1.store8(op, r.0).with_flag(HALF, r.2).with_flag(NEGATIVE, true).with_flag(ZERO, r.0 == 0)
    }

    /// Zero is kept.
    #[verifier::opaque]
    pub open spec fn add_hl(self, op: OP) -> CpuState {
        let hl = self.hl();
        let (v, s1) = self.load16(op);
        let r = alu_add16(hl, v);
        s1.set_hl(r.0).with_flag(CARRY, r.1).with_flag(HALF, r.2).with_flag(NEGATIVE, false)
    }

    #[verifier::opaque]
    pub open spec fn add_sp_n(self) -> CpuState {
        let (n, s1) = self.fetch8();
        let r = alu_add_signed(s1.sp, n);
        CpuState { sp: r.0, ..s1 }.with_flags(false, false, r.2, r.1).ticks(2)
    }

    #[verifier::opaque]
    pub open spec fn inc16(self, op: OP) -> CpuState {
        let (v, s1) = self.load16(op);
        s1.store16(op, wadd16(v, 1))
    }

    #[verifier::opaque]
    pub open spec fn dec16(self, op: OP) -> CpuState {
        let (v, s1) = self.load16(op);
        s1.store16(op, wsub16(v, 1))
    }

    /// The adjustment after a BCD add (Negative clear) or subtract.
    pub open spec fn daa_adjust(self) -> u8 {
        let base = (if self.flag(CARRY) { 0x60u8 } else { 0u8 }) | (if self.flag(HALF) { 0x06u8 } else { 0u8 });
        if !self.flag(NEGATIVE) {
            base | (if self.a & 0x0f > 0x09 { 0x06u8 } else { 0u8 }) | (if self.a > 0x99 { 0x60u8 } else { 0u8 })
        } else {
            base
        }
    }

    #[verifier::opaque]
    pub open spec fn daa(self) -> CpuState {
        let adj = self.daa_adjust();
        let r = if !self.flag(NEGATIVE) { wadd8(self.a, adj) } else { wsub8(self.a, adj) };
        self.set_a(r).with_flag(CARRY, adj >= 0x60).with_flag(HALF, false).with_flag(ZERO, r == 0)
    }

    #[verifier::opaque]
    pub open spec fn ime_off(self) -> CpuState {
        CpuState { ime: false, ..self }
    }

    #[verifier::opaque]
    pub open spec fn ime_on(self) -> CpuState {
        CpuState { ime: true, ..self }
    }

    #[verifier::opaque]
    pub open spec fn halted(self) -> CpuState {
        CpuState { halting: true, ..self }
    }

    /// STOP and NOP change nothing.
    pub open spec fn stopped(self) -> CpuState {
        self
    }

    #[verifier::opaque]
    pub open spec fn cpl(self) -> CpuState {
        self.set_a(self.a ^ 0xff).with_flag(HALF, true).with_flag(NEGATIVE, true)
    }

    #[verifier::opaque]
    pub open spec fn ccf(self) -> CpuState {
        self.with_flag(CARRY, !self.flag(CARRY)).with_flag(HALF, false).with_flag(NEGATIVE, false)
    }

    #[verifier::opaque]
    pub open spec fn scf(self) -> CpuState {
        self.with_flag(CARRY, true).with_flag(HALF, false).with_flag(NEGATIVE, false)
    }

    #[verifier::opaque]
    pub open spec fn jp(self, op: OP) -> CpuState {
        let (nn, s1) = self.fetch16();
        if s1.cond(op) {
            CpuState { pc: nn, ..s1 }.tick()
        } else {
            s1
        }
    }

    #[verifier::opaque]
    pub open spec fn jp_p_hl(self) -> CpuState {
        CpuState { pc: self.hl(), ..self }.tick()
    }

    /// The displacement counts from the end of the instruction.
    #[verifier::opaque]
    pub open spec fn jr(self, op: OP) -> CpuState {
        let (n, s1) = self.fetch8();
        if s1.cond(op) {
            CpuState { pc: alu_add_signed(s1.pc, n).0, ..s1 }.tick()
        } else {
            s1
        }
    }

    /// Pushes the address after the instruction and jumps.
    #[verifier::opaque]
    pub open spec fn call(self, op: OP) -> CpuState {
        let (nn, s1) = self.fetch16();
        if s1.cond(op) {
            let s2 = s1.tick();
            CpuState { pc: nn, ..s2.push16(s2.pc) }
        } else {
            s1
        }
    }

    #[verifier::opaque]
    pub open spec fn ret(self, op: OP) -> CpuState {
        if self.cond(op) {
            let (pc, s1) = self.pop16();
            CpuState { pc: pc, ..s1 }.tick()
        } else {
            self
        }
    }

    #[verifier::opaque]
    pub open spec fn reti(self) -> CpuState {
        let (pc, s1) = self.pop16();
        CpuState { pc: pc, ime: true, ..s1 }.tick()
    }

    #[verifier::opaque]
    pub open spec fn rst(self, addr: u16) -> CpuState {
        let s1 = self.tick();
        CpuState { pc: addr, ..s1.push16(s1.pc) }
    }

    /// Stores a shift or rotate result `v` with carry `c`; Zero stays clear for
    /// the accumulator forms.
    pub open spec fn shifted(self, op: OP, v: u8, c: bool) -> CpuState {
        self.store8(op, v).with_flags(if op == OP::A_ { false } else { v == 0 }, false, false, c)
    }

    #[verifier::opaque]
    pub open spec fn swap(self, op: OP) -> CpuState {
        let (r, s1) = self.load8(op);
        let v = (r << 4u8) | (r >> 4u8);
        s1.store8(op, v).with_flags(v == 0, false, false, false)
    }

    #[verifier::opaque]
    pub open spec fn rlc(self, op: OP) -> CpuState {
        let (r, s1) = self.load8(op);
        let c = r >> 7u8;
        s1.shifted(op, (r << 1u8) | c, c == 1)
    }

    #[verifier::opaque]
    pub open spec fn rl(self, op: OP) -> CpuState {
        let (r, s1) = self.load8(op);
        let c: u8 = if s1.flag(CARRY) { 1 } else { 0 };
        s1.shifted(op, (r << 1u8) | c, r >> 7u8 == 1)
    }

    #[verifier::opaque]
    pub open spec fn rrc(self, op: OP) -> CpuState {
        let (r, s1) = self.load8(op);
        let c = r & 1;
        s1.shifted(op, (c << 7u8) | (r >> 1u8), c == 1)
    }

    #[verifier::opaque]
    pub open spec fn rr(self, op: OP) -> CpuState {
        let (r, s1) = self.load8(op);
        let c: u8 = if s1.flag(CARRY) { 1 } else { 0 };
        s1.shifted(op, (c << 7u8) | (r >> 1u8), r & 1 == 1)
    }

    #[verifier::opaque]
    pub open spec fn sla(self, op: OP) -> CpuState {
        let (r, s1) = self.load8(op);
        let v = r << 1u8;
        s1.store8(op, v).with_flags(v == 0, false, false, r >> 7u8 == 1)
    }

    /// Bit 7 is kept.
    #[verifier::opaque]
    pub open spec fn sra(self, op: OP) -> CpuState {
        let (r, s1) = self.load8(op);
        let v = (r & 0x80) | (r >> 1u8);
        s1.store8(op, v).with_flags(v == 0, false, false, r & 1 == 1)
    }

    #[verifier::opaque]
    pub open spec fn srl(self, op: OP) -> CpuState {
        let (r, s1) = self.load8(op);
        let v = r >> 1u8;
        s1.store8(op, v).with_flags(v == 0, false, false, r & 1 == 1)
    }

    /// Zero tells whether bit `n` is clear; Carry is kept.
    #[verifier::opaque]
    pub open spec fn bit(self, n: u8, op: OP) -> CpuState {
        let (r, s1) = self.load8(op);
        s1.with_flag(HALF, true).with_flag(NEGATIVE, false).with_flag(ZERO, !bit_of(r, n))
    }

    #[verifier::opaque]
    pub open spec fn set(self, n: u8, op: OP) -> CpuState {
        let (r, s1) = self.load8(op);
        s1.store8(op, with_bit(r, n, true))
    }

    #[verifier::opaque]
    pub open spec fn res(self, n: u8, op: OP) -> CpuState {
        let (r, s1) = self.load8(op);
        s1.store8(op, with_bit(r, n, false))
    }
}
impl CPU {
    fn ld8(&mut self, op1: OP, op2: OP)
        requires
            old(self).wf(),
            old(self).cycle + 5 <= CYCLE_ROOM,
            is_dst8(op1),
            is_src8(op2),
        ensures
            final(self).moved(old(self), old(self).state().ld8(op1, op2)),
            final(self).cycle <= old(self).cycle + 5,
    {
        proof {
            reveal(CpuState::ld8);
        }
        self.log("LD", op1, op2, LogInfo::Empty, 0);
        let n = self.load8(op2);
        self.store8(op1, n);
    }

    fn ld16(&mut self, op1: OP, op2: OP)
        requires
            old(self).wf(),
            old(self).cycle + 5 <= CYCLE_ROOM,
            is_dst16(op1),
            is_src16(op2),
        ensures
            final(self).moved(old(self), old(self).state().ld16(op1, op2)),
            final(self).cycle <= old(self).cycle + 5,
    {
        proof {
            reveal(CpuState::ld16);
        }
        self.log("LD", op1, op2, LogInfo::Empty, 0);
        let n = self.load16(op2);
        self.store16(op1, n);
    }

    fn ld16_hl_sp_n(&mut self)
        requires
            old(self).wf(),
            old(self).cycle + 5 <= CYCLE_ROOM,
        ensures
            final(self).moved(old(self), old(self).state().ld16_hl_sp_n()),
            final(self).cycle <= old(self).cycle + 5,
    {
        proof {
            reveal(CpuState::ld16_hl_sp_n);
        }
        let n = self.fetch8();
        self.log("LD", OP::HL, OP::SP, LogInfo::I8h(n), 1);
        let (a, carry, half) = add_signed_u8_carry_half(self.sp, n);
        self.set_hl(a);
        self.set_flags(false, false, half, carry);
        self.tick();
    }

    fn push(&mut self, op: OP)
        requires
            old(self).wf(),
            old(self).cycle + 5 <= CYCLE_ROOM,
            is_src16(op),
        ensures
            final(self).moved(old(self), old(self).state().push(op)),
            final(self).cycle <= old(self).cycle + 5,
    {
        proof {
            reveal(CpuState::push);
        }
        self.log("PUSH", op, OP::Nothing, LogInfo::Empty, 0);
        let v = self.load16(op);
        self.tick();
        self.push16(v);
    }

    fn pop(&mut self, op: OP)
        requires
            old(self).wf(),
            old(self).cycle + 5 <= CYCLE_ROOM,
            is_dst16(op),
        ensures
            final(self).moved(old(self), old(self).state().pop(op)),
            final(self).cycle <= old(self).cycle + 5,
    {
        proof {
            reveal(CpuState::pop);
        }
        self.log("POP", op, OP::Nothing, LogInfo::Empty, 0);
        let n = self.pop16();
        self.store16(op, n);
    }

    fn add(&mut self, op: OP)
        requires
            old(self).wf(),
            old(self).cycle + 5 <= CYCLE_ROOM,
            is_src8(op),
        ensures
            final(self).moved(old(self), old(self).state().add(op)),
            final(self).cycle <= old(self).cycle + 5,
    {
        proof {
            reveal(CpuState::add);
        }
        self.log("ADD", op, OP::Nothing, LogInfo::Empty, 0);
        let v = self.load8(op);
        let (a, carry, half) = add8_carry_half(self.a, v);
        self.a = a;
        self.set_flags(a == 0, false, half, carry);
    }

    fn sub(&mut self, op: OP)
        requires
            old(self).wf(),
            old(self).cycle + 5 <= CYCLE_ROOM,
            is_src8(op),
        ensures
            final(self).moved(old(self), old(self).state().sub(op)),
            final(self).cycle <= old(self).cycle + 5,
    {
        proof {
            reveal(CpuState::sub);
        }
        self.log("SUB", op, OP::Nothing, LogInfo::Empty, 0);
        let v = self.load8(op);
        let (a, carry, half) = sub8_carry_half(self.a, v);
        self.a = a;
        self.set_flags(a == 0, true, half, carry);
    }

    fn adc(&mut self, op: OP)
        requires
            old(self).wf(),
            old(self).cycle + 5 <= CYCLE_ROOM,
            is_src8(op),
        ensures
            final(self).moved(old(self), old(self).state().adc(op)),
            final(self).cycle <= old(self).cycle + 5,
    {
        proof {
            reveal(CpuState::adc);
        }
        self.log("ADC", op, OP::Nothing, LogInfo::Empty, 0);
        let v = self.load8(op);
        let (a, a_carry, a_half) = add8_carry_half(self.a, v);
        let c: u8 = if self.get_carry() {
            1
        } else {
            0
        };
        let (b, b_carry, b_half) = add8_carry_half(a, c);
        self.a = b;
        self.set_flags(b == 0, false, a_half || b_half, a_carry || b_carry);
    }

    fn sbc(&mut self, op: OP)
        requires
            old(self).wf(),
            old(self).cycle + 5 <= CYCLE_ROOM,
            is_src8(op),
        ensures
            final(self).moved(old(self), old(self).state().sbc(op)),
            final(self).cycle <= old(self).cycle + 5,
    {
        proof {
            reveal(CpuState::sbc);
        }
        self.log("SBC", op, OP::Nothing, LogInfo::Empty, 0);
        let v = self.load8(op);
        let (a, a_carry, a_half) = sub8_carry_half(self.a, v);
        let c: u8 = if self.get_carry() {
            1
        } else {
            0
        };
        let (b, b_carry, b_half) = sub8_carry_half(a, c);
        self.a = b;
        self.set_flags(b == 0, true, a_half || b_half, a_carry || b_carry);
    }

    fn and_(&mut self, op: OP)
        requires
            old(self).wf(),
            old(self).cycle + 5 <= CYCLE_ROOM,
            is_src8(op),
        ensures
            final(self).moved(old(self), old(self).state().and_(op)),
            final(self).cycle <= old(self).cycle + 5,
    {
        proof {
            reveal(CpuState::and_);
        }
        self.log("AND", op, OP::Nothing, LogInfo::Empty, 0);
        let v = self.load8(op);
        self.a = self.a & v;
        self.set_flags(self.a == 0, false, true, false);
    }

    fn or_(&mut self, op: OP)
        requires
            old(self).wf(),
            old(self).cycle + 5 <= CYCLE_ROOM,
            is_src8(op),
        ensures
            final(self).moved(old(self), old(self).state().or_(op)),
            final(self).cycle <= old(self).cycle + 5,
    {
        proof {
            reveal(CpuState::or_);
        }
        self.log("OR", op, OP::Nothing, LogInfo::Empty, 0);
        let v = self.load8(op);
        self.a = self.a | v;
        self.set_flags(self.a == 0, false, false, false);
    }

    fn xor(&mut self, op: OP)
        requires
            old(self).wf(),
            old(self).cycle + 5 <= CYCLE_ROOM,
            is_src8(op),
        ensures
            final(self).moved(old(self), old(self).state().xor(op)),
            final(self).cycle <= old(self).cycle + 5,
    {
        proof {
            reveal(CpuState::xor);
        }
        self.log("XOR", op, OP::Nothing, LogInfo::Empty, 0);
        let v = self.load8(op);
        self.a = self.a ^ v;
        self.set_flags(self.a == 0, false, false, false);
    }

    fn cp(&mut self, op: OP)
        requires
            old(self).wf(),
            old(self).cycle + 5 <= CYCLE_ROOM,
            is_src8(op),
        ensures
            final(self).moved(old(self), old(self).state().cp(op)),
            final(self).cycle <= old(self).cycle + 5,
    {
        proof {
            reveal(CpuState::cp);
        }
        self.log("CP", op, OP::Nothing, LogInfo::Empty, 0);
        let v = self.load8(op);
        let (a, carry, half) = sub8_carry_half(self.a, v);
        self.set_flags(a == 0, true, half, carry);
    }

    fn inc8(&mut self, op: OP)
        requires
            old(self).wf(),
            old(self).cycle + 5 <= CYCLE_ROOM,
            is_dst8(op),
        ensures
            final(self).moved(old(self), old(self).state().inc8(op)),
            final(self).cycle <= old(self).cycle + 5,
    {
        proof {
            reveal(CpuState::inc8);
        }
        self.log("INC", op, OP::Nothing, LogInfo::Empty, 0);
        let v = self.load8(op);
        let (a, _, half) = add8_carry_half(v, 1);
        self.store8(op, a);
        self.set_half(half);
        self.set_negative(false);
        self.set_zero(a == 0);
    }

    fn dec8(&mut self, op: OP)
        requires
            old(self).wf(),
            old(self).cycle + 5 <= CYCLE_ROOM,
            is_dst8(op),
        ensures
            final(self).moved(old(self), old(self).state().dec8(op)),
            final(self).cycle <= old(self).cycle + 5,
    {
        proof {
            reveal(CpuState::dec8);
        }
        self.log("DEC", op, OP::Nothing, LogInfo::Empty, 0);
        let v = self.load8(op);
        let (a, _, half) = sub8_carry_half(v, 1);
        self.store8(op, a);
        self.set_half(half);
        self.set_negative(true);
        self.set_zero(a == 0);
    }

    fn add_hl(&mut self, op: OP)
        requires
            old(self).wf(),
            old(self).cycle + 5 <= CYCLE_ROOM,
            is_src16(op),
            op != OP::NN,
        ensures
            final(self).moved(old(self), old(self).state().add_hl(op)),
            final(self).cycle <= old(self).cycle + 5,
    {
        proof {
            reveal(CpuState::add_hl);
        }
        self.log("ADD", OP::HL, op, LogInfo::Empty, 0);
        let hl = self.get_hl();
        let v = self.load16(op);
        let (a, carry, half) = add16_carry_half(hl, v);
        self.set_hl(a);
        self.set_carry(carry);
        self.set_half(half);
        self.set_negative(false);
    }

    fn add_sp_n(&mut self)
        requires
            old(self).wf(),
            old(self).cycle + 5 <= CYCLE_ROOM,
        ensures
            final(self).moved(old(self), old(self).state().add_sp_n()),
            final(self).cycle <= old(self).cycle + 5,
    {
        proof {
            reveal(CpuState::add_sp_n);
        }
        let n = self.fetch8();
        self.log("ADD", OP::SP, OP::N, LogInfo::I8h(n), 1);
        let (a, carry, half) = add_signed_u8_carry_half(self.sp, n);
        self.sp = a;
        self.set_flags(false, false, half, carry);
        self.tick();
        self.tick();
    }

    fn inc16(&mut self, op: OP)
        requires
            old(self).wf(),
            old(self).cycle + 5 <= CYCLE_ROOM,
            is_src16(op),
            is_dst16(op),
        ensures
            final(self).moved(old(self), old(self).state().inc16(op)),
            final(self).cycle <= old(self).cycle + 5,
    {
        proof {
            reveal(CpuState::inc16);
        }
        self.log("INC", op, OP::Nothing, LogInfo::Empty, 0);
        let v = self.load16(op);
        self.store16(op, v.wrapping_add(1));
    }

    fn dec16(&mut self, op: OP)
        requires
            old(self).wf(),
            old(self).cycle + 5 <= CYCLE_ROOM,
            is_src16(op),
            is_dst16(op),
        ensures
            final(self).moved(old(self), old(self).state().dec16(op)),
            final(self).cycle <= old(self).cycle + 5,
    {
        proof {
            reveal(CpuState::dec16);
        }
        self.log("DEC", op, OP::Nothing, LogInfo::Empty, 0);
        let v = self.load16(op);
        self.store16(op, v.wrapping_sub(1));
    }

    #[verifier::rlimit(40)]
    fn daa(&mut self)
        requires
            old(self).wf(),
            old(self).cycle + 5 <= CYCLE_ROOM,
        ensures
            final(self).moved(old(self), old(self).state().daa()),
            final(self).cycle <= old(self).cycle + 5,
    {
        proof {
            reveal(CpuState::daa);
        }
        self.log("DAA", OP::Nothing, OP::Nothing, LogInfo::Empty, 0);
        let mut adjust: u8 = (if self.get_carry() {
            0x60u8
        } else {
            0u8
        }) | (if self.get_half() {
            0x06u8
        } else {
            0u8
        });
        if !self.get_negative() {
            adjust = adjust | (if self.a & 0x0f > 0x09 {
                0x06u8
            } else {
                0u8
            }) | (if self.a > 0x99 {
                0x60u8
            } else {
                0u8
            });
            self.a = self.a.wrapping_add(adjust);
        } else {
            self.a = self.a.wrapping_sub(adjust);
        }
        self.set_carry(adjust >= 0x60);
        self.set_half(false);
        self.set_zero(self.a == 0);
    }

    fn cpl(&mut self)
        requires
            old(self).wf(),
            old(self).cycle + 5 <= CYCLE_ROOM,
        ensures
            final(self).moved(old(self), old(self).state().cpl()),
            final(self).cycle <= old(self).cycle + 5,
    {
        proof {
            reveal(CpuState::cpl);
        }
        self.log("CPL", OP::Nothing, OP::Nothing, LogInfo::Empty, 0);
        self.a = self.a ^ 0xff;
        self.set_half(true);
        self.set_negative(true);
    }

    fn ccf(&mut self)
        requires
            old(self).wf(),
            old(self).cycle + 5 <= CYCLE_ROOM,
        ensures
            final(self).moved(old(self), old(self).state().ccf()),
            final(self).cycle <= old(self).cycle + 5,
    {
        proof {
            reveal(CpuState::ccf);
        }
        self.log("CCF", OP::Nothing, OP::Nothing, LogInfo::Empty, 0);
        let c = self.get_carry();
        self.set_carry(!c);
        self.set_half(false);
        self.set_negative(false);
    }

    fn scf(&mut self)
        requires
            old(self).wf(),
            old(self).cycle + 5 <= CYCLE_ROOM,
        ensures
            final(self).moved(old(self), old(self).state().scf()),
            final(self).cycle <= old(self).cycle + 5,
    {
        proof {
            reveal(CpuState::scf);
        }
        self.log("SCF", OP::Nothing, OP::Nothing, LogInfo::Empty, 0);
        self.set_carry(true);
        self.set_half(false);
        self.set_negative(false);
    }

    fn di(&mut self)
        requires
            old(self).wf(),
            old(self).cycle + 5 <= CYCLE_ROOM,
        ensures
            final(self).moved(old(self), old(self).state().ime_off()),
            final(self).cycle <= old(self).cycle + 5,
    {
        proof {
            reveal(CpuState::ime_off);
        }
        self.log("DI", OP::Nothing, OP::Nothing, LogInfo::Empty, 0);
        self.ime = false;
    }

    fn ei(&mut self)
        requires
            old(self).wf(),
            old(self).cycle + 5 <= CYCLE_ROOM,
        ensures
            final(self).moved(old(self), old(self).state().ime_on()),
            final(self).cycle <= old(self).cycle + 5,
    {
        proof {
            reveal(CpuState::ime_on);
        }
        self.log("EI", OP::Nothing, OP::Nothing, LogInfo::Empty, 0);
        self.ime = true;
    }

    fn halt(&mut self)
        requires
            old(self).wf(),
            old(self).cycle + 5 <= CYCLE_ROOM,
        ensures
            final(self).moved(old(self), old(self).state().halted()),
            final(self).cycle <= old(self).cycle + 5,
    {
        proof {
            reveal(CpuState::halted);
        }
        self.log("HALT", OP::Nothing, OP::Nothing, LogInfo::Empty, 0);
        self.halting = true;
    }

    fn stop(&mut self)
        requires
            old(self).wf(),
            old(self).cycle + 5 <= CYCLE_ROOM,
        ensures
            final(self).moved(old(self), old(self).state().stopped()),
            final(self).cycle <= old(self).cycle + 5,
    {
        self.log("STOP", OP::Nothing, OP::Nothing, LogInfo::Empty, 0);
    }

    fn nop(&mut self)
        requires
            old(self).wf(),
            old(self).cycle + 5 <= CYCLE_ROOM,
        ensures
            final(self).moved(old(self), old(self).state().stopped()),
            final(self).cycle <= old(self).cycle + 5,
    {
        self.log("NOP", OP::Nothing, OP::Nothing, LogInfo::Empty, 0);
    }

    fn jp(&mut self, op: OP)
        requires
            old(self).wf(),
            old(self).cycle + 5 <= CYCLE_ROOM,
            is_cond(op),
        ensures
            final(self).moved(old(self), old(self).state().jp(op)),
            final(self).cycle <= old(self).cycle + 5,
    {
        proof {
            reveal(CpuState::jp);
        }
        let nn = self.fetch16();
        self.log("JP", op, OP::Nothing, LogInfo::U16h(nn), 2);
        if self.cond_flag(op) {
            self.pc = nn;
            self.tick();
        }
    }

    fn jp_p_hl(&mut self)
        requires
            old(self).wf(),
            old(self).cycle + 5 <= CYCLE_ROOM,
        ensures
            final(self).moved(old(self), old(self).state().jp_p_hl()),
            final(self).cycle <= old(self).cycle + 5,
    {
        proof {
            reveal(CpuState::jp_p_hl);
        }
        let hl = self.get_hl();
        self.log("JP", OP::HL, OP::Nothing, LogInfo::U16h(hl), 0);
        self.pc = hl;
        self.tick();
    }

    fn jr(&mut self, op: OP)
        requires
            old(self).wf(),
            old(self).cycle + 5 <= CYCLE_ROOM,
            is_cond(op),
        ensures
            final(self).moved(old(self), old(self).state().jr(op)),
            final(self).cycle <= old(self).cycle + 5,
    {
        proof {
            reveal(CpuState::jr);
        }
        let n = self.fetch8();
        self.log("JR", op, OP::Nothing, LogInfo::I8h(n), 1);
        if self.cond_flag(op) {
            self.pc = add_signed_u8_carry_half(self.pc, n).0;
            self.tick();
        }
    }

    fn call(&mut self, op: OP)
        requires
            old(self).wf(),
            old(self).cycle + 5 <= CYCLE_ROOM,
            is_cond(op),
        ensures
            final(self).moved(old(self), old(self).state().call(op)),
            final(self).cycle <= old(self).cycle + 5,
    {
        proof {
            reveal(CpuState::call);
        }
        let nn = self.fetch16();
        self.log("CALL", op, OP::Nothing, LogInfo::U16h(nn), 2);
        if self.cond_flag(op) {
            self.tick();
            self.push16(self.pc);
            self.pc = nn;
        }
    }

    fn ret(&mut self, op: OP)
        requires
            old(self).wf(),
            old(self).cycle + 5 <= CYCLE_ROOM,
            is_cond(op),
        ensures
            final(self).moved(old(self), old(self).state().ret(op)),
            final(self).cycle <= old(self).cycle + 5,
    {
        proof {
            reveal(CpuState::ret);
        }
        self.log("RET", op, OP::Nothing, LogInfo::Empty, 0);
        if self.cond_flag(op) {
            self.pc = self.pop16();
            self.tick();
        }
    }

    fn reti(&mut self)
        requires
            old(self).wf(),
            old(self).cycle + 5 <= CYCLE_ROOM,
        ensures
            final(self).moved(old(self), old(self).state().reti()),
            final(self).cycle <= old(self).cycle + 5,
    {
        proof {
            reveal(CpuState::reti);
        }
        self.log("RETI", OP::Nothing, OP::Nothing, LogInfo::Empty, 0);
        let pc = self.pop16();
        self.pc = pc;
        self.tick();
        self.ime = true;
    }

    fn rst(&mut self, addr: u16)
        requires
            old(self).wf(),
            old(self).cycle + 5 <= CYCLE_ROOM,
        ensures
            final(self).moved(old(self), old(self).state().rst(addr)),
            final(self).cycle <= old(self).cycle + 5,
    {
        proof {
            reveal(CpuState::rst);
        }
        self.log("RST", OP::Nothing, OP::Nothing, LogInfo::U16h(addr), 0);
        self.tick();
        self.push16(self.pc);
        self.pc = addr;
    }

    fn swap(&mut self, op: OP)
        requires
            old(self).wf(),
            old(self).cycle + 5 <= CYCLE_ROOM,
            is_dst8(op),
        ensures
            final(self).moved(old(self), old(self).state().swap(op)),
            final(self).cycle <= old(self).cycle + 5,
    {
        proof {
            reveal(CpuState::swap);
        }
        self.log("SWAP", op, OP::Nothing, LogInfo::Empty, 0);
        let r = self.load8(op);
        let a = (r << 4u8) | (r >> 4u8);
        self.store8(op, a);
        self.set_flags(a == 0, false, false, false);
    }

    fn rlc(&mut self, op: OP)
        requires
            old(self).wf(),
            old(self).cycle + 5 <= CYCLE_ROOM,
            is_dst8(op),
        ensures
            final(self).moved(old(self), old(self).state().rlc(op)),
            final(self).cycle <= old(self).cycle + 5,
    {
        proof {
            reveal(CpuState::rlc);
        }
        self.log("RLC", op, OP::Nothing, LogInfo::Empty, 0);
        let r = self.load8(op);
        let c = r >> 7u8;
        let a = (r << 1u8) | c;
        self.store8(op, a);
        self.set_flags(if op == OP::A_ { false } else { a == 0 }, false, false, c == 1);
    }

    fn rl(&mut self, op: OP)
        requires
            old(self).wf(),
            old(self).cycle + 5 <= CYCLE_ROOM,
            is_dst8(op),
        ensures
            final(self).moved(old(self), old(self).state().rl(op)),
            final(self).cycle <= old(self).cycle + 5,
    {
        proof {
            reveal(CpuState::rl);
        }
        self.log("RL", op, OP::Nothing, LogInfo::Empty, 0);
        let r = self.load8(op);
        let c: u8 = if self.get_carry() {
            1
        } else {
            0
        };
        let a = (r << 1u8) | c;
        self.store8(op, a);
        self.set_flags(if op == OP::A_ { false } else { a == 0 }, false, false, r >> 7u8 == 1);
    }

    fn rrc(&mut self, op: OP)
        requires
            old(self).wf(),
            old(self).cycle + 5 <= CYCLE_ROOM,
            is_dst8(op),
        ensures
            final(self).moved(old(self), old(self).state().rrc(op)),
            final(self).cycle <= old(self).cycle + 5,
    {
        proof {
            reveal(CpuState::rrc);
        }
        self.log("RRC", op, OP::Nothing, LogInfo::Empty, 0);
        let r = self.load8(op);
        let c = r & 1;
        let a = (c << 7u8) | (r >> 1u8);
        self.store8(op, a);
        self.set_flags(if op == OP::A_ { false } else { a == 0 }, false, false, c == 1);
    }

    fn rr(&mut self, op: OP)
        requires
            old(self).wf(),
            old(self).cycle + 5 <= CYCLE_ROOM,
            is_dst8(op),
        ensures
            final(self).moved(old(self), old(self).state().rr(op)),
            final(self).cycle <= old(self).cycle + 5,
    {
        proof {
            reveal(CpuState::rr);
        }
        self.log("RR", op, OP::Nothing, LogInfo::Empty, 0);
        let r = self.load8(op);
        let c: u8 = if self.get_carry() {
            1
        } else {
            0
        };
        let a = (c << 7u8) | (r >> 1u8);
        self.store8(op, a);
        self.set_flags(if op == OP::A_ { false } else { a == 0 }, false, false, r & 1 == 1);
    }

    fn sla(&mut self, op: OP)
        requires
            old(self).wf(),
            old(self).cycle + 5 <= CYCLE_ROOM,
            is_dst8(op),
        ensures
            final(self).moved(old(self), old(self).state().sla(op)),
            final(self).cycle <= old(self).cycle + 5,
    {
        proof {
            reveal(CpuState::sla);
        }
        self.log("SLA", op, OP::Nothing, LogInfo::Empty, 0);
        let r = self.load8(op);
        let a = r << 1u8;
        self.store8(op, a);
        self.set_flags(a == 0, false, false, r >> 7u8 == 1);
    }

    fn sra(&mut self, op: OP)
        requires
            old(self).wf(),
            old(self).cycle + 5 <= CYCLE_ROOM,
            is_dst8(op),
        ensures
            final(self).moved(old(self), old(self).state().sra(op)),
            final(self).cycle <= old(self).cycle + 5,
    {
        proof {
            reveal(CpuState::sra);
        }
        self.log("SRA", op, OP::Nothing, LogInfo::Empty, 0);
        let r = self.load8(op);
        let a = (r & 0x80) | (r >> 1u8);
        self.store8(op, a);
        self.set_flags(a == 0, false, false, r & 1 == 1);
    }

    fn srl(&mut self, op: OP)
        requires
            old(self).wf(),
            old(self).cycle + 5 <= CYCLE_ROOM,
            is_dst8(op),
        ensures
            final(self).moved(old(self), old(self).state().srl(op)),
            final(self).cycle <= old(self).cycle + 5,
    {
        proof {
            reveal(CpuState::srl);
        }
        self.log("SRL", op, OP::Nothing, LogInfo::Empty, 0);
        let r = self.load8(op);
        let a = r >> 1u8;
        self.store8(op, a);
        self.set_flags(a == 0, false, false, r & 1 == 1);
    }

    fn bit(&mut self, n: u8, op: OP)
        requires
            old(self).wf(),
            old(self).cycle + 5 <= CYCLE_ROOM,
            n < 8,
            is_src8(op),
        ensures
            final(self).moved(old(self), old(self).state().bit(n, op)),
            final(self).cycle <= old(self).cycle + 5,
    {
        proof {
            reveal(CpuState::bit);
        }
        self.log("BIT", op, OP::Nothing, LogInfo::U8h(n), 0);
        let a = get_bit(self.load8(op), n as usize);
        self.set_half(true);
        self.set_negative(false);
        self.set_zero(!a);
    }

    fn set(&mut self, n: u8, op: OP)
        requires
            old(self).wf(),
            old(self).cycle + 5 <= CYCLE_ROOM,
            n < 8,
            is_dst8(op),
        ensures
            final(self).moved(old(self), old(self).state().set(n, op)),
            final(self).cycle <= old(self).cycle + 5,
    {
        proof {
            reveal(CpuState::set);
        }
        self.log("SET", op, OP::Nothing, LogInfo::U8h(n), 0);
        let v = set_bit(self.load8(op), n as usize, true);
        self.store8(op, v);
    }

    fn res(&mut self, n: u8, op: OP)
        requires
            old(self).wf(),
            old(self).cycle + 5 <= CYCLE_ROOM,
            n < 8,
            is_dst8(op),
        ensures
            final(self).moved(old(self), old(self).state().res(n, op)),
            final(self).cycle <= old(self).cycle + 5,
    {
        proof {
            reveal(CpuState::res);
        }
        self.log("RES", op, OP::Nothing, LogInfo::U8h(n), 0);
        let v = set_bit(self.load8(op), n as usize, false);
        self.store8(op, v);
    }
}

/// A decoded instruction.
#[derive(Debug, PartialEq, Eq, Clone, Copy, Structural)]
pub enum Instr {
    Nop,
    Stop,
    Halt,
    Ld8(OP, OP),
    Ld16(OP, OP),
    LdHlSpN,
    Push(OP),
    Pop(OP),
    Add(OP),
    Adc(OP),
    Sub(OP),
    Sbc(OP),
    And(OP),
    Or(OP),
    Xor(OP),
    Cp(OP),
    Inc8(OP),
    Dec8(OP),
    AddHl(OP),
    AddSpN,
    Inc16(OP),
    Dec16(OP),
    Daa,
    Cpl,
    Ccf,
    Scf,
    Di,
    Ei,
    Jp(OP),
    JpHl,
    Jr(OP),
    Call(OP),
    Ret(OP),
    Reti,
    Rst(u16),
    Rlc(OP),
    Rl(OP),
    Rrc(OP),
    Rr(OP),
    Sla(OP),
    Sra(OP),
    Srl(OP),
    Swap(OP),
    Bit(u8, OP),
    SetBit(u8, OP),
    ResBit(u8, OP),
    Prefix,
    Undefined,
}

/// The 8-bit operand that a 3-bit register field names.
pub open spec fn r8(i: u8) -> OP {
    match i {
        0 => OP::B,
        1 => OP::C,
        2 => OP::D,
        3 => OP::E,
        4 => OP::H,
        5 => OP::L,
        6 => OP::P_HL,
        _ => OP::A,
    }
}

/// The register pair that a 2-bit field names in loads and arithmetic.
pub open spec fn rp(i: u8) -> OP {
    match i {
        0 => OP::BC,
        1 => OP::DE,
        2 => OP::HL,
        _ => OP::SP,
    }
}

/// The register pair that a 2-bit field names in PUSH and POP.
pub open spec fn rp2(i: u8) -> OP {
    match i {
        0 => OP::BC,
        1 => OP::DE,
        2 => OP::HL,
        _ => OP::AF,
    }
}

/// The condition that a 2-bit field names.
pub open spec fn cc(i: u8) -> OP {
    match i {
        0 => OP::NotZero,
        1 => OP::Zero,
        2 => OP::NotCarry,
        _ => OP::Carry,
    }
}

/// The accumulator operation that a 3-bit field names.
pub open spec fn alu(i: u8, op: OP) -> Instr {
    match i {
        0 => Instr::Add(op),
        1 => Instr::Adc(op),
        2 => Instr::Sub(op),
        3 => Instr::Sbc(op),
        4 => Instr::And(op),
        5 => Instr::Xor(op),
        6 => Instr::Or(op),
        _ => Instr::Cp(op),
    }
}

/// The memory operand of the accumulator loads 0x02..0x3a.
pub open spec fn indirect(i: u8) -> OP {
    match i {
        0 => OP::P_BC,
        1 => OP::P_DE,
        2 => OP::P_HL_INC,
        _ => OP::P_HL_DEC,
    }
}

/// The first-level opcode map, read from the opcode's fields: `x` (bits
/// 7-6), `y` (bits 5-3, split into `p` = bits 5-4 and `q` = bit 3) and `z`
/// (bits 2-0).
pub open spec fn spec_decode(code: u8) -> Instr {
    let x = (code / 64) as u8;
    let y = ((code / 8) % 8) as u8;
    let z = (code % 8) as u8;
    let p = (y / 2) as u8;
    let q = (y % 2) as u8;
    if x == 0 {
        if z == 0 {
            if y == 0 {
                Instr::Nop
            } else if y == 1 {
                Instr::Ld16(OP::P_NN, OP::SP)
            } else if y == 2 {
                Instr::Stop
            } else if y == 3 {
                Instr::Jr(OP::Always)
            } else {
                Instr::Jr(cc((y - 4) as u8))
            }
        } else if z == 1 {
            if q == 0 {
                Instr::Ld16(rp(p), OP::NN)
            } else {
                Instr::AddHl(rp(p))
            }
        } else if z == 2 {
            if q == 0 {
                Instr::Ld8(indirect(p), OP::A)
            } else {
                Instr::Ld8(OP::A, indirect(p))
            }
        } else if z == 3 {
            if q == 0 {
                Instr::Inc16(rp(p))
            } else {
                Instr::Dec16(rp(p))
            }
        } else if z == 4 {
            Instr::Inc8(r8(y))
        } else if z == 5 {
            Instr::Dec8(r8(y))
        } else if z == 6 {
            Instr::Ld8(r8(y), OP::N)
        } else {
            match y {
                0 => Instr::Rlc(OP::A_),
                1 => Instr::Rrc(OP::A_),
                2 => Instr::Rl(OP::A_),
                3 => Instr::Rr(OP::A_),
                4 => Instr::Daa,
                5 => Instr::Cpl,
                6 => Instr::Scf,
                _ => Instr::Ccf,
            }
        }
    } else if x == 1 {
        if code == 0x76 {
            Instr::Halt
        } else {
            Instr::Ld8(r8(y), r8(z))
        }
    } else if x == 2 {
        alu(y, r8(z))
    } else if z == 0 {
        if y < 4 {
            Instr::Ret(cc(y))
        } else if y == 4 {
            Instr::Ld8(OP::P_FF00_N, OP::A)
        } else if y == 5 {
            Instr::AddSpN
        } else if y == 6 {
            Instr::Ld8(OP::A, OP::P_FF00_N)
        } else {
            Instr::LdHlSpN
        }
    } else if z == 1 {
        if q == 0 {
            Instr::Pop(rp2(p))
        } else if p == 0 {
            Instr::Ret(OP::Always)
        } else if p == 1 {
            Instr::Reti
        } else if p == 2 {
            Instr::JpHl
        } else {
            Instr::Ld16(OP::SP, OP::HL)
        }
    } else if z == 2 {
        if y < 4 {
            Instr::Jp(cc(y))
        } else if y == 4 {
            Instr::Ld8(OP::P_FF00_C, OP::A)
        } else if y == 5 {
            Instr::Ld8(OP::P_NN, OP::A)
        } else if y == 6 {
            Instr::Ld8(OP::A, OP::P_FF00_C)
        } else {
            Instr::Ld8(OP::A, OP::P_NN)
        }
    } else if z == 3 {
        if y == 0 {
            Instr::Jp(OP::Always)
        } else if y == 1 {
            Instr::Prefix
        } else if y == 6 {
            Instr::Di
        } else if y == 7 {
            Instr::Ei
        } else {
            Instr::Undefined
        }
    } else if z == 4 {
        if y < 4 {
            Instr::Call(cc(y))
        } else {
            Instr::Undefined
        }
    } else if z == 5 {
        if q == 0 {
            Instr::Push(rp2(p))
        } else if p == 0 {
            Instr::Call(OP::Always)
        } else {
            Instr::Undefined
        }
    } else if z == 6 {
        alu(y, OP::N)
    } else {
        Instr::Rst((y * 8) as u16)
    }
}

/// The 0xcb-prefixed opcode map: rotates and shifts, then BIT, RES and SET,
/// each over the eight register fields.
pub open spec fn spec_decode_cb(code: u8) -> Instr {
    let x = (code / 64) as u8;
    let y = ((code / 8) % 8) as u8;
    let op = r8((code % 8) as u8);
    if x == 0 {
        match y {
            0 => Instr::Rlc(op),
            1 => Instr::Rrc(op),
            2 => Instr::Rl(op),
            3 => Instr::Rr(op),
            4 => Instr::Sla(op),
            5 => Instr::Sra(op),
            6 => Instr::Swap(op),
            _ => Instr::Srl(op),
        }
    } else if x == 1 {
        Instr::Bit(y as u8, op)
    } else if x == 2 {
        Instr::ResBit(y as u8, op)
    } else {
        Instr::SetBit(y as u8, op)
    }
}

/// The operands fit the instruction; what the decoders produce.
pub open spec fn instr_ok(i: Instr) -> bool {
    match i {
        Instr::Ld8(a, b) => is_dst8(a) && is_src8(b),
        Instr::Ld16(a, b) => is_dst16(a) && is_src16(b),
        Instr::Push(op) => is_src16(op),
        Instr::Pop(op) => is_dst16(op),
        Instr::Add(op) | Instr::Adc(op) | Instr::Sub(op) | Instr::Sbc(op) | Instr::And(op)
        | Instr::Or(op) | Instr::Xor(op) | Instr::Cp(op) => is_src8(op),
        Instr::Inc8(op) | Instr::Dec8(op) => is_dst8(op),
        Instr::AddHl(op) => is_src16(op) && op != OP::NN,
        Instr::Inc16(op) | Instr::Dec16(op) => is_src16(op) && is_dst16(op),
        Instr::Jp(op) | Instr::Jr(op) | Instr::Call(op) | Instr::Ret(op) => is_cond(op),
        Instr::Rlc(op) | Instr::Rl(op) | Instr::Rrc(op) | Instr::Rr(op) | Instr::Sla(op)
        | Instr::Sra(op) | Instr::Srl(op) | Instr::Swap(op) => is_dst8(op),
        Instr::Bit(n, op) => n < 8 && is_src8(op),
        Instr::SetBit(n, op) | Instr::ResBit(n, op) => n < 8 && is_dst8(op),
        _ => true,
    }
}

/// Whatever the decoders produce has operands that fit.
pub proof fn lemma_decode_ok(code: u8)
    ensures
        instr_ok(spec_decode(code)),
        instr_ok(spec_decode_cb(code)),
{
}

/// First-level decode.
pub fn decode(code: u8) -> (r: Instr)
    ensures
        r == spec_decode(code),
{
    match code {
        0x3e => Instr::Ld8(OP::A, OP::N),
        0x06 => Instr::Ld8(OP::B, OP::N),
        0x0e => Instr::Ld8(OP::C, OP::N),
        0x16 => Instr::Ld8(OP::D, OP::N),
        0x1e => Instr::Ld8(OP::E, OP::N),
        0x26 => Instr::Ld8(OP::H, OP::N),
        0x2e => Instr::Ld8(OP::L, OP::N),
        0x7f => Instr::Ld8(OP::A, OP::A),
        0x78 => Instr::Ld8(OP::A, OP::B),
        0x79 => Instr::Ld8(OP::A, OP::C),
        0x7a => Instr::Ld8(OP::A, OP::D),
        0x7b => Instr::Ld8(OP::A, OP::E),
        0x7c => Instr::Ld8(OP::A, OP::H),
        0x7d => Instr::Ld8(OP::A, OP::L),
        0x7e => Instr::Ld8(OP::A, OP::P_HL),
        0x0a => Instr::Ld8(OP::A, OP::P_BC),
        0x1a => Instr::Ld8(OP::A, OP::P_DE),
        0x47 => Instr::Ld8(OP::B, OP::A),
        0x40 => Instr::Ld8(OP::B, OP::B),
        0x41 => Instr::Ld8(OP::B, OP::C),
        0x42 => Instr::Ld8(OP::B, OP::D),
        0x43 => Instr::Ld8(OP::B, OP::E),
        0x44 => Instr::Ld8(OP::B, OP::H),
        0x45 => Instr::Ld8(OP::B, OP::L),
        0x46 => Instr::Ld8(OP::B, OP::P_HL),
        0x4f => Instr::Ld8(OP::C, OP::A),
        0x48 => Instr::Ld8(OP::C, OP::B),
        0x49 => Instr::Ld8(OP::C, OP::C),
        0x4a => Instr::Ld8(OP::C, OP::D),
        0x4b => Instr::Ld8(OP::C, OP::E),
        0x4c => Instr::Ld8(OP::C, OP::H),
        0x4d => Instr::Ld8(OP::C, OP::L),
        0x4e => Instr::Ld8(OP::C, OP::P_HL),
        0x57 => Instr::Ld8(OP::D, OP::A),
        0x50 => Instr::Ld8(OP::D, OP::B),
        0x51 => Instr::Ld8(OP::D, OP::C),
        0x52 => Instr::Ld8(OP::D, OP::D),
        0x53 => Instr::Ld8(OP::D, OP::E),
        0x54 => Instr::Ld8(OP::D, OP::H),
        0x55 => Instr::Ld8(OP::D, OP::L),
        0x56 => Instr::Ld8(OP::D, OP::P_HL),
        0x5f => Instr::Ld8(OP::E, OP::A),
        0x58 => Instr::Ld8(OP::E, OP::B),
        0x59 => Instr::Ld8(OP::E, OP::C),
        0x5a => Instr::Ld8(OP::E, OP::D),
        0x5b => Instr::Ld8(OP::E, OP::E),
        0x5c => Instr::Ld8(OP::E, OP::H),
        0x5d => Instr::Ld8(OP::E, OP::L),
        0x5e => Instr::Ld8(OP::E, OP::P_HL),
        0x67 => Instr::Ld8(OP::H, OP::A),
        0x60 => Instr::Ld8(OP::H, OP::B),
        0x61 => Instr::Ld8(OP::H, OP::C),
        0x62 => Instr::Ld8(OP::H, OP::D),
        0x63 => Instr::Ld8(OP::H, OP::E),
        0x64 => Instr::Ld8(OP::H, OP::H),
        0x65 => Instr::Ld8(OP::H, OP::L),
        0x66 => Instr::Ld8(OP::H, OP::P_HL),
        0x6f => Instr::Ld8(OP::L, OP::A),
        0x68 => Instr::Ld8(OP::L, OP::B),
        0x69 => Instr::Ld8(OP::L, OP::C),
        0x6a => Instr::Ld8(OP::L, OP::D),
        0x6b => Instr::Ld8(OP::L, OP::E),
        0x6c => Instr::Ld8(OP::L, OP::H),
        0x6d => Instr::Ld8(OP::L, OP::L),
        0x6e => Instr::Ld8(OP::L, OP::P_HL),
        0x70 => Instr::Ld8(OP::P_HL, OP::B),
        0x71 => Instr::Ld8(OP::P_HL, OP::C),
        0x72 => Instr::Ld8(OP::P_HL, OP::D),
        0x73 => Instr::Ld8(OP::P_HL, OP::E),
        0x74 => Instr::Ld8(OP::P_HL, OP::H),
        0x75 => Instr::Ld8(OP::P_HL, OP::L),
        0x36 => Instr::Ld8(OP::P_HL, OP::N),
        0x02 => Instr::Ld8(OP::P_BC, OP::A),
        0x12 => Instr::Ld8(OP::P_DE, OP::A),
        0x77 => Instr::Ld8(OP::P_HL, OP::A),
        0xea => Instr::Ld8(OP::P_NN, OP::A),
        0xf0 => Instr::Ld8(OP::A, OP::P_FF00_N),
        0xf2 => Instr::Ld8(OP::A, OP::P_FF00_C),
        0xfa => Instr::Ld8(OP::A, OP::P_NN),
        0xe0 => Instr::Ld8(OP::P_FF00_N, OP::A),
        0xe2 => Instr::Ld8(OP::P_FF00_C, OP::A),
        0x22 => Instr::Ld8(OP::P_HL_INC, OP::A),
        0x2a => Instr::Ld8(OP::A, OP::P_HL_INC),
        0x32 => Instr::Ld8(OP::P_HL_DEC, OP::A),
        0x3a => Instr::Ld8(OP::A, OP::P_HL_DEC),
        0x01 => Instr::Ld16(OP::BC, OP::NN),
        0x11 => Instr::Ld16(OP::DE, OP::NN),
        0x21 => Instr::Ld16(OP::HL, OP::NN),
        0x31 => Instr::Ld16(OP::SP, OP::NN),
        0xf9 => Instr::Ld16(OP::SP, OP::HL),
        0x08 => Instr::Ld16(OP::P_NN, OP::SP),
        0xf8 => Instr::LdHlSpN,
        0xf5 => Instr::Push(OP::AF),
        0xc5 => Instr::Push(OP::BC),
        0xd5 => Instr::Push(OP::DE),
        0xe5 => Instr::Push(OP::HL),
        0xf1 => Instr::Pop(OP::AF),
        0xc1 => Instr::Pop(OP::BC),
        0xd1 => Instr::Pop(OP::DE),
        0xe1 => Instr::Pop(OP::HL),
        0x87 => Instr::Add(OP::A),
        0x80 => Instr::Add(OP::B),
        0x81 => Instr::Add(OP::C),
        0x82 => Instr::Add(OP::D),
        0x83 => Instr::Add(OP::E),
        0x84 => Instr::Add(OP::H),
        0x85 => Instr::Add(OP::L),
        0x86 => Instr::Add(OP::P_HL),
        0xc6 => Instr::Add(OP::N),
        0x8f => Instr::Adc(OP::A),
        0x88 => Instr::Adc(OP::B),
        0x89 => Instr::Adc(OP::C),
        0x8a => Instr::Adc(OP::D),
        0x8b => Instr::Adc(OP::E),
        0x8c => Instr::Adc(OP::H),
        0x8d => Instr::Adc(OP::L),
        0x8e => Instr::Adc(OP::P_HL),
        0xce => Instr::Adc(OP::N),
        0x97 => Instr::Sub(OP::A),
        0x90 => Instr::Sub(OP::B),
        0x91 => Instr::Sub(OP::C),
        0x92 => Instr::Sub(OP::D),
        0x93 => Instr::Sub(OP::E),
        0x94 => Instr::Sub(OP::H),
        0x95 => Instr::Sub(OP::L),
        0x96 => Instr::Sub(OP::P_HL),
        0xd6 => Instr::Sub(OP::N),
        0x9f => Instr::Sbc(OP::A),
        0x98 => Instr::Sbc(OP::B),
        0x99 => Instr::Sbc(OP::C),
        0x9a => Instr::Sbc(OP::D),
        0x9b => Instr::Sbc(OP::E),
        0x9c => Instr::Sbc(OP::H),
        0x9d => Instr::Sbc(OP::L),
        0x9e => Instr::Sbc(OP::P_HL),
        0xde => Instr::Sbc(OP::N),
        0xa7 => Instr::And(OP::A),
        0xa0 => Instr::And(OP::B),
        0xa1 => Instr::And(OP::C),
        0xa2 => Instr::And(OP::D),
        0xa3 => Instr::And(OP::E),
        0xa4 => Instr::And(OP::H),
        0xa5 => Instr::And(OP::L),
        0xa6 => Instr::And(OP::P_HL),
        0xe6 => Instr::And(OP::N),
        0xb7 => Instr::Or(OP::A),
        0xb0 => Instr::Or(OP::B),
        0xb1 => Instr::Or(OP::C),
        0xb2 => Instr::Or(OP::D),
        0xb3 => Instr::Or(OP::E),
        0xb4 => Instr::Or(OP::H),
        0xb5 => Instr::Or(OP::L),
        0xb6 => Instr::Or(OP::P_HL),
        0xf6 => Instr::Or(OP::N),
        0xaf => Instr::Xor(OP::A),
        0xa8 => Instr::Xor(OP::B),
        0xa9 => Instr::Xor(OP::C),
        0xaa => Instr::Xor(OP::D),
        0xab => Instr::Xor(OP::E),
        0xac => Instr::Xor(OP::H),
        0xad => Instr::Xor(OP::L),
        0xae => Instr::Xor(OP::P_HL),
        0xee => Instr::Xor(OP::N),
        0xbf => Instr::Cp(OP::A),
        0xb8 => Instr::Cp(OP::B),
        0xb9 => Instr::Cp(OP::C),
        0xba => Instr::Cp(OP::D),
        0xbb => Instr::Cp(OP::E),
        0xbc => Instr::Cp(OP::H),
        0xbd => Instr::Cp(OP::L),
        0xbe => Instr::Cp(OP::P_HL),
        0xfe => Instr::Cp(OP::N),
        0x3c => Instr::Inc8(OP::A),
        0x04 => Instr::Inc8(OP::B),
        0x0c => Instr::Inc8(OP::C),
        0x14 => Instr::Inc8(OP::D),
        0x1c => Instr::Inc8(OP::E),
        0x24 => Instr::Inc8(OP::H),
        0x2c => Instr::Inc8(OP::L),
        0x34 => Instr::Inc8(OP::P_HL),
        0x3d => Instr::Dec8(OP::A),
        0x05 => Instr::Dec8(OP::B),
        0x0d => Instr::Dec8(OP::C),
        0x15 => Instr::Dec8(OP::D),
        0x1d => Instr::Dec8(OP::E),
        0x25 => Instr::Dec8(OP::H),
        0x2d => Instr::Dec8(OP::L),
        0x35 => Instr::Dec8(OP::P_HL),
        0x09 => Instr::AddHl(OP::BC),
        0x19 => Instr::AddHl(OP::DE),
        0x29 => Instr::AddHl(OP::HL),
        0x39 => Instr::AddHl(OP::SP),
        0xe8 => Instr::AddSpN,
        0x03 => Instr::Inc16(OP::BC),
        0x13 => Instr::Inc16(OP::DE),
        0x23 => Instr::Inc16(OP::HL),
        0x33 => Instr::Inc16(OP::SP),
        0x0b => Instr::Dec16(OP::BC),
        0x1b => Instr::Dec16(OP::DE),
        0x2b => Instr::Dec16(OP::HL),
        0x3b => Instr::Dec16(OP::SP),
        0x07 => Instr::Rlc(OP::A_),
        0x17 => Instr::Rl(OP::A_),
        0x0f => Instr::Rrc(OP::A_),
        0x1f => Instr::Rr(OP::A_),
        0x27 => Instr::Daa,
        0x2f => Instr::Cpl,
        0x3f => Instr::Ccf,
        0x37 => Instr::Scf,
        0xf3 => Instr::Di,
        0xfb => Instr::Ei,
        0x76 => Instr::Halt,
        0x00 => Instr::Nop,
        0xc3 => Instr::Jp(OP::Always),
        0xc2 => Instr::Jp(OP::NotZero),
        0xca => Instr::Jp(OP::Zero),
        0xd2 => Instr::Jp(OP::NotCarry),
        0xda => Instr::Jp(OP::Carry),
        0xe9 => Instr::JpHl,
        0x18 => Instr::Jr(OP::Always),
        0x20 => Instr::Jr(OP::NotZero),
        0x28 => Instr::Jr(OP::Zero),
        0x30 => Instr::Jr(OP::NotCarry),
        0x38 => Instr::Jr(OP::Carry),
        0xcd => Instr::Call(OP::Always),
        0xc4 => Instr::Call(OP::NotZero),
        0xcc => Instr::Call(OP::Zero),
        0xd4 => Instr::Call(OP::NotCarry),
        0xdc => Instr::Call(OP::Carry),
        0xc7 => Instr::Rst(0x00),
        0xcf => Instr::Rst(0x08),
        0xd7 => Instr::Rst(0x10),
        0xdf => Instr::Rst(0x18),
        0xe7 => Instr::Rst(0x20),
        0xef => Instr::Rst(0x28),
        0xf7 => Instr::Rst(0x30),
        0xff => Instr::Rst(0x38),
        0xc9 => Instr::Ret(OP::Always),
        0xc0 => Instr::Ret(OP::NotZero),
        0xc8 => Instr::Ret(OP::Zero),
        0xd0 => Instr::Ret(OP::NotCarry),
        0xd8 => Instr::Ret(OP::Carry),
        0xd9 => Instr::Reti,
        0x10 => Instr::Stop,
        0xcb => Instr::Prefix,
        _ => Instr::Undefined,
    }
}

/// Decode of the byte after 0xcb.
pub fn decode_cb(code: u8) -> (r: Instr)
    ensures
        r == spec_decode_cb(code),
{
    match code {
        0x37 => Instr::Swap(OP::A),
        0x30 => Instr::Swap(OP::B),
        0x31 => Instr::Swap(OP::C),
        0x32 => Instr::Swap(OP::D),
        0x33 => Instr::Swap(OP::E),
        0x34 => Instr::Swap(OP::H),
        0x35 => Instr::Swap(OP::L),
        0x36 => Instr::Swap(OP::P_HL),
        0x07 => Instr::Rlc(OP::A),
        0x00 => Instr::Rlc(OP::B),
        0x01 => Instr::Rlc(OP::C),
        0x02 => Instr::Rlc(OP::D),
        0x03 => Instr::Rlc(OP::E),
        0x04 => Instr::Rlc(OP::H),
        0x05 => Instr::Rlc(OP::L),
        0x06 => Instr::Rlc(OP::P_HL),
        0x17 => Instr::Rl(OP::A),
        0x10 => Instr::Rl(OP::B),
        0x11 => Instr::Rl(OP::C),
        0x12 => Instr::Rl(OP::D),
        0x13 => Instr::Rl(OP::E),
        0x14 => Instr::Rl(OP::H),
        0x15 => Instr::Rl(OP::L),
        0x16 => Instr::Rl(OP::P_HL),
        0x0f => Instr::Rrc(OP::A),
        0x08 => Instr::Rrc(OP::B),
        0x09 => Instr::Rrc(OP::C),
        0x0a => Instr::Rrc(OP::D),
        0x0b => Instr::Rrc(OP::E),
        0x0c => Instr::Rrc(OP::H),
        0x0d => Instr::Rrc(OP::L),
        0x0e => Instr::Rrc(OP::P_HL),
        0x1f => Instr::Rr(OP::A),
        0x18 => Instr::Rr(OP::B),
        0x19 => Instr::Rr(OP::C),
        0x1a => Instr::Rr(OP::D),
        0x1b => Instr::Rr(OP::E),
        0x1c => Instr::Rr(OP::H),
        0x1d => Instr::Rr(OP::L),
        0x1e => Instr::Rr(OP::P_HL),
        0x27 => Instr::Sla(OP::A),
        0x20 => Instr::Sla(OP::B),
        0x21 => Instr::Sla(OP::C),
        0x22 => Instr::Sla(OP::D),
        0x23 => Instr::Sla(OP::E),
        0x24 => Instr::Sla(OP::H),
        0x25 => Instr::Sla(OP::L),
        0x26 => Instr::Sla(OP::P_HL),
        0x2f => Instr::Sra(OP::A),
        0x28 => Instr::Sra(OP::B),
        0x29 => Instr::Sra(OP::C),
        0x2a => Instr::Sra(OP::D),
        0x2b => Instr::Sra(OP::E),
        0x2c => Instr::Sra(OP::H),
        0x2d => Instr::Sra(OP::L),
        0x2e => Instr::Sra(OP::P_HL),
        0x3f => Instr::Srl(OP::A),
        0x38 => Instr::Srl(OP::B),
        0x39 => Instr::Srl(OP::C),
        0x3a => Instr::Srl(OP::D),
        0x3b => Instr::Srl(OP::E),
        0x3c => Instr::Srl(OP::H),
        0x3d => Instr::Srl(OP::L),
        0x3e => Instr::Srl(OP::P_HL),
        0x47 => Instr::Bit(0, OP::A),
        0x40 => Instr::Bit(0, OP::B),
        0x41 => Instr::Bit(0, OP::C),
        0x42 => Instr::Bit(0, OP::D),
        0x43 => Instr::Bit(0, OP::E),
        0x44 => Instr::Bit(0, OP::H),
        0x45 => Instr::Bit(0, OP::L),
        0x46 => Instr::Bit(0, OP::P_HL),
        0x4f => Instr::Bit(1, OP::A),
        0x48 => Instr::Bit(1, OP::B),
        0x49 => Instr::Bit(1, OP::C),
        0x4a => Instr::Bit(1, OP::D),
        0x4b => Instr::Bit(1, OP::E),
        0x4c => Instr::Bit(1, OP::H),
        0x4d => Instr::Bit(1, OP::L),
        0x4e => Instr::Bit(1, OP::P_HL),
        0x57 => Instr::Bit(2, OP::A),
        0x50 => Instr::Bit(2, OP::B),
        0x51 => Instr::Bit(2, OP::C),
        0x52 => Instr::Bit(2, OP::D),
        0x53 => Instr::Bit(2, OP::E),
        0x54 => Instr::Bit(2, OP::H),
        0x55 => Instr::Bit(2, OP::L),
        0x56 => Instr::Bit(2, OP::P_HL),
        0x5f => Instr::Bit(3, OP::A),
        0x58 => Instr::Bit(3, OP::B),
        0x59 => Instr::Bit(3, OP::C),
        0x5a => Instr::Bit(3, OP::D),
        0x5b => Instr::Bit(3, OP::E),
        0x5c => Instr::Bit(3, OP::H),
        0x5d => Instr::Bit(3, OP::L),
        0x5e => Instr::Bit(3, OP::P_HL),
        0x67 => Instr::Bit(4, OP::A),
        0x60 => Instr::Bit(4, OP::B),
        0x61 => Instr::Bit(4, OP::C),
        0x62 => Instr::Bit(4, OP::D),
        0x63 => Instr::Bit(4, OP::E),
        0x64 => Instr::Bit(4, OP::H),
        0x65 => Instr::Bit(4, OP::L),
        0x66 => Instr::Bit(4, OP::P_HL),
        0x6f => Instr::Bit(5, OP::A),
        0x68 => Instr::Bit(5, OP::B),
        0x69 => Instr::Bit(5, OP::C),
        0x6a => Instr::Bit(5, OP::D),
        0x6b => Instr::Bit(5, OP::E),
        0x6c => Instr::Bit(5, OP::H),
        0x6d => Instr::Bit(5, OP::L),
        0x6e => Instr::Bit(5, OP::P_HL),
        0x77 => Instr::Bit(6, OP::A),
        0x70 => Instr::Bit(6, OP::B),
        0x71 => Instr::Bit(6, OP::C),
        0x72 => Instr::Bit(6, OP::D),
        0x73 => Instr::Bit(6, OP::E),
        0x74 => Instr::Bit(6, OP::H),
        0x75 => Instr::Bit(6, OP::L),
        0x76 => Instr::Bit(6, OP::P_HL),
        0x7f => Instr::Bit(7, OP::A),
        0x78 => Instr::Bit(7, OP::B),
        0x79 => Instr::Bit(7, OP::C),
        0x7a => Instr::Bit(7, OP::D),
        0x7b => Instr::Bit(7, OP::E),
        0x7c => Instr::Bit(7, OP::H),
        0x7d => Instr::Bit(7, OP::L),
        0x7e => Instr::Bit(7, OP::P_HL),
        0xc7 => Instr::SetBit(0, OP::A),
        0xc0 => Instr::SetBit(0, OP::B),
        0xc1 => Instr::SetBit(0, OP::C),
        0xc2 => Instr::SetBit(0, OP::D),
        0xc3 => Instr::SetBit(0, OP::E),
        0xc4 => Instr::SetBit(0, OP::H),
        0xc5 => Instr::SetBit(0, OP::L),
        0xc6 => Instr::SetBit(0, OP::P_HL),
        0xcf => Instr::SetBit(1, OP::A),
        0xc8 => Instr::SetBit(1, OP::B),
        0xc9 => Instr::SetBit(1, OP::C),
        0xca => Instr::SetBit(1, OP::D),
        0xcb => Instr::SetBit(1, OP::E),
        0xcc => Instr::SetBit(1, OP::H),
        0xcd => Instr::SetBit(1, OP::L),
        0xce => Instr::SetBit(1, OP::P_HL),
        0xd7 => Instr::SetBit(2, OP::A),
        0xd0 => Instr::SetBit(2, OP::B),
        0xd1 => Instr::SetBit(2, OP::C),
        0xd2 => Instr::SetBit(2, OP::D),
        0xd3 => Instr::SetBit(2, OP::E),
        0xd4 => Instr::SetBit(2, OP::H),
        0xd5 => Instr::SetBit(2, OP::L),
        0xd6 => Instr::SetBit(2, OP::P_HL),
        0xdf => Instr::SetBit(3, OP::A),
        0xd8 => Instr::SetBit(3, OP::B),
        0xd9 => Instr::SetBit(3, OP::C),
        0xda => Instr::SetBit(3, OP::D),
        0xdb => Instr::SetBit(3, OP::E),
        0xdc => Instr::SetBit(3, OP::H),
        0xdd => Instr::SetBit(3, OP::L),
        0xde => Instr::SetBit(3, OP::P_HL),
        0xe7 => Instr::SetBit(4, OP::A),
        0xe0 => Instr::SetBit(4, OP::B),
        0xe1 => Instr::SetBit(4, OP::C),
        0xe2 => Instr::SetBit(4, OP::D),
        0xe3 => Instr::SetBit(4, OP::E),
        0xe4 => Instr::SetBit(4, OP::H),
        0xe5 => Instr::SetBit(4, OP::L),
        0xe6 => Instr::SetBit(4, OP::P_HL),
        0xef => Instr::SetBit(5, OP::A),
        0xe8 => Instr::SetBit(5, OP::B),
        0xe9 => Instr::SetBit(5, OP::C),
        0xea => Instr::SetBit(5, OP::D),
        0xeb => Instr::SetBit(5, OP::E),
        0xec => Instr::SetBit(5, OP::H),
        0xed => Instr::SetBit(5, OP::L),
        0xee => Instr::SetBit(5, OP::P_HL),
        0xf7 => Instr::SetBit(6, OP::A),
        0xf0 => Instr::SetBit(6, OP::B),
        0xf1 => Instr::SetBit(6, OP::C),
        0xf2 => Instr::SetBit(6, OP::D),
        0xf3 => Instr::SetBit(6, OP::E),
        0xf4 => Instr::SetBit(6, OP::H),
        0xf5 => Instr::SetBit(6, OP::L),
        0xf6 => Instr::SetBit(6, OP::P_HL),
        0xff => Instr::SetBit(7, OP::A),
        0xf8 => Instr::SetBit(7, OP::B),
        0xf9 => Instr::SetBit(7, OP::C),
        0xfa => Instr::SetBit(7, OP::D),
        0xfb => Instr::SetBit(7, OP::E),
        0xfc => Instr::SetBit(7, OP::H),
        0xfd => Instr::SetBit(7, OP::L),
        0xfe => Instr::SetBit(7, OP::P_HL),
        0x87 => Instr::ResBit(0, OP::A),
        0x80 => Instr::ResBit(0, OP::B),
        0x81 => Instr::ResBit(0, OP::C),
        0x82 => Instr::ResBit(0, OP::D),
        0x83 => Instr::ResBit(0, OP::E),
        0x84 => Instr::ResBit(0, OP::H),
        0x85 => Instr::ResBit(0, OP::L),
        0x86 => Instr::ResBit(0, OP::P_HL),
        0x8f => Instr::ResBit(1, OP::A),
        0x88 => Instr::ResBit(1, OP::B),
        0x89 => Instr::ResBit(1, OP::C),
        0x8a => Instr::ResBit(1, OP::D),
        0x8b => Instr::ResBit(1, OP::E),
        0x8c => Instr::ResBit(1, OP::H),
        0x8d => Instr::ResBit(1, OP::L),
        0x8e => Instr::ResBit(1, OP::P_HL),
        0x97 => Instr::ResBit(2, OP::A),
        0x90 => Instr::ResBit(2, OP::B),
        0x91 => Instr::ResBit(2, OP::C),
        0x92 => Instr::ResBit(2, OP::D),
        0x93 => Instr::ResBit(2, OP::E),
        0x94 => Instr::ResBit(2, OP::H),
        0x95 => Instr::ResBit(2, OP::L),
        0x96 => Instr::ResBit(2, OP::P_HL),
        0x9f => Instr::ResBit(3, OP::A),
        0x98 => Instr::ResBit(3, OP::B),
        0x99 => Instr::ResBit(3, OP::C),
        0x9a => Instr::ResBit(3, OP::D),
        0x9b => Instr::ResBit(3, OP::E),
        0x9c => Instr::ResBit(3, OP::H),
        0x9d => Instr::ResBit(3, OP::L),
        0x9e => Instr::ResBit(3, OP::P_HL),
        0xa7 => Instr::ResBit(4, OP::A),
        0xa0 => Instr::ResBit(4, OP::B),
        0xa1 => Instr::ResBit(4, OP::C),
        0xa2 => Instr::ResBit(4, OP::D),
        0xa3 => Instr::ResBit(4, OP::E),
        0xa4 => Instr::ResBit(4, OP::H),
        0xa5 => Instr::ResBit(4, OP::L),
        0xa6 => Instr::ResBit(4, OP::P_HL),
        0xaf => Instr::ResBit(5, OP::A),
        0xa8 => Instr::ResBit(5, OP::B),
        0xa9 => Instr::ResBit(5, OP::C),
        0xaa => Instr::ResBit(5, OP::D),
        0xab => Instr::ResBit(5, OP::E),
        0xac => Instr::ResBit(5, OP::H),
        0xad => Instr::ResBit(5, OP::L),
        0xae => Instr::ResBit(5, OP::P_HL),
        0xb7 => Instr::ResBit(6, OP::A),
        0xb0 => Instr::ResBit(6, OP::B),
        0xb1 => Instr::ResBit(6, OP::C),
        0xb2 => Instr::ResBit(6, OP::D),
        0xb3 => Instr::ResBit(6, OP::E),
        0xb4 => Instr::ResBit(6, OP::H),
        0xb5 => Instr::ResBit(6, OP::L),
        0xb6 => Instr::ResBit(6, OP::P_HL),
        0xbf => Instr::ResBit(7, OP::A),
        0xb8 => Instr::ResBit(7, OP::B),
        0xb9 => Instr::ResBit(7, OP::C),
        0xba => Instr::ResBit(7, OP::D),
        0xbb => Instr::ResBit(7, OP::E),
        0xbc => Instr::ResBit(7, OP::H),
        0xbd => Instr::ResBit(7, OP::L),
        0xbe => Instr::ResBit(7, OP::P_HL),
    }
}

impl CpuState {
    /// The state after `i` runs, its operand bytes still to fetch at PC.
    pub open spec fn run(self, i: Instr) -> CpuState {
        match i {
            Instr::Ld8(a, b) => self.ld8(a, b),
            Instr::Ld16(a, b) => self.ld16(a, b),
            Instr::LdHlSpN => self.ld16_hl_sp_n(),
            Instr::Push(op) => self.push(op),
            Instr::Pop(op) => self.pop(op),
            Instr::Add(op) => self.add(op),
            Instr::Adc(op) => self.adc(op),
            Instr::Sub(op) => self.sub(op),
            Instr::Sbc(op) => self.sbc(op),
            Instr::And(op) => self.and_(op),
            Instr::Or(op) => self.or_(op),
            Instr::Xor(op) => self.xor(op),
            Instr::Cp(op) => self.cp(op),
            Instr::Inc8(op) => self.inc8(op),
            Instr::Dec8(op) => self.dec8(op),
            Instr::AddHl(op) => self.add_hl(op),
            Instr::AddSpN => self.add_sp_n(),
            Instr::Inc16(op) => self.inc16(op),
            Instr::Dec16(op) => self.dec16(op),
            Instr::Daa => self.daa(),
            Instr::Cpl => self.cpl(),
            Instr::Ccf => self.ccf(),
            Instr::Scf => self.scf(),
            Instr::Di => self.ime_off(),
            Instr::Ei => self.ime_on(),
            Instr::Halt => self.halted(),
            Instr::Jp(op) => self.jp(op),
            Instr::JpHl => self.jp_p_hl(),
            Instr::Jr(op) => self.jr(op),
            Instr::Call(op) => self.call(op),
            Instr::Ret(op) => self.ret(op),
            Instr::Reti => self.reti(),
            Instr::Rst(addr) => self.rst(addr),
            Instr::Rlc(op) => self.rlc(op),
            Instr::Rl(op) => self.rl(op),
            Instr::Rrc(op) => self.rrc(op),
            Instr::Rr(op) => self.rr(op),
            Instr::Sla(op) => self.sla(op),
            Instr::Sra(op) => self.sra(op),
            Instr::Srl(op) => self.srl(op),
            Instr::Swap(op) => self.swap(op),
            Instr::Bit(n, op) => self.bit(n, op),
            Instr::SetBit(n, op) => self.set(n, op),
            Instr::ResBit(n, op) => self.res(n, op),
            _ => self,
        }
    }

    /// The opcode at PC is defined: not a hole of the first-level map, and
    /// STOP is followed by 0x00.
    pub open spec fn executable(self) -> bool {
        let code = self.read(self.pc);
        &&& spec_decode(code) != Instr::Undefined
        &&& spec_decode(code) == Instr::Stop ==> self.read(wadd16(self.pc, 1)) == 0
    }

    /// The state after one instruction: fetch the opcode, and after 0xcb
    /// the second byte, decode, run.
    pub open spec fn execute(self) -> CpuState {
        let (code, s1) = self.fetch8();
        match spec_decode(code) {
            Instr::Prefix => {
                let (code_cb, s2) = s1.fetch8();
                s2.run(spec_decode_cb(code_cb))
            },
            Instr::Stop => s1.fetch8().1,
            i => s1.run(i),
        }
    }
}

impl CPU {
    /// Loads, stack and 16-bit arithmetic.
    fn run_load(&mut self, i: Instr)
        requires
            old(self).wf(),
            old(self).cycle + 5 <= CYCLE_ROOM,
            instr_ok(i),
            (
                i is Ld8
                || i is Ld16
                || i is LdHlSpN
                || i is Push
                || i is Pop
                || i is AddSpN
                || i is Inc16
                || i is Dec16
                || i is AddHl
            ),
        ensures
            final(self).moved(old(self), old(self).state().run(i)),
            final(self).cycle <= old(self).cycle + 5,
    {
        match i {
            Instr::Ld8(a, b) => self.ld8(a, b),
            Instr::Ld16(a, b) => self.ld16(a, b),
            Instr::LdHlSpN => self.ld16_hl_sp_n(),
            Instr::Push(op) => self.push(op),
            Instr::Pop(op) => self.pop(op),
            Instr::AddHl(op) => self.add_hl(op),
            Instr::AddSpN => self.add_sp_n(),
            Instr::Inc16(op) => self.inc16(op),
            Instr::Dec16(op) => self.dec16(op),
            _ => {},
        }
    }

    /// 8-bit arithmetic and flag instructions.
    fn run_alu(&mut self, i: Instr)
        requires
            old(self).wf(),
            old(self).cycle + 5 <= CYCLE_ROOM,
            instr_ok(i),
            (
                i is Add
                || i is Adc
                || i is Sub
                || i is Sbc
                || i is And
                || i is Or
                || i is Xor
                || i is Cp
                || i is Inc8
                || i is Dec8
                || i is Daa
                || i is Cpl
                || i is Ccf
                || i is Scf
            ),
        ensures
            final(self).moved(old(self), old(self).state().run(i)),
            final(self).cycle <= old(self).cycle + 5,
    {
        match i {
            Instr::Add(op) => self.add(op),
            Instr::Adc(op) => self.adc(op),
            Instr::Sub(op) => self.sub(op),
            Instr::Sbc(op) => self.sbc(op),
            Instr::And(op) => self.and_(op),
            Instr::Or(op) => self.or_(op),
            Instr::Xor(op) => self.xor(op),
            Instr::Cp(op) => self.cp(op),
            Instr::Inc8(op) => self.inc8(op),
            Instr::Dec8(op) => self.dec8(op),
            Instr::Daa => self.daa(),
            Instr::Cpl => self.cpl(),
            Instr::Ccf => self.ccf(),
            Instr::Scf => self.scf(),
            _ => {},
        }
    }

    /// Jumps, calls, returns and CPU control.
    fn run_control(&mut self, i: Instr)
        requires
            old(self).wf(),
            old(self).cycle + 5 <= CYCLE_ROOM,
            instr_ok(i),
            (
                i is Di
                || i is Ei
                || i is Halt
                || i is Nop
                || i is Jp
                || i is JpHl
                || i is Jr
                || i is Call
                || i is Ret
                || i is Reti
                || i is Rst
            ),
        ensures
            final(self).moved(old(self), old(self).state().run(i)),
            final(self).cycle <= old(self).cycle + 5,
    {
        match i {
            Instr::Di => self.di(),
            Instr::Ei => self.ei(),
            Instr::Halt => self.halt(),
            Instr::Nop => self.nop(),
            Instr::Jp(op) => self.jp(op),
            Instr::JpHl => self.jp_p_hl(),
            Instr::Jr(op) => self.jr(op),
            Instr::Call(op) => self.call(op),
            Instr::Ret(op) => self.ret(op),
            Instr::Reti => self.reti(),
            Instr::Rst(addr) => self.rst(addr),
            _ => {},
        }
    }

    /// Rotates, shifts and bit instructions.
    fn run_cb(&mut self, i: Instr)
        requires
            old(self).wf(),
            old(self).cycle + 5 <= CYCLE_ROOM,
            instr_ok(i),
            (
                i is Rlc
                || i is Rl
                || i is Rrc
                || i is Rr
                || i is Sla
                || i is Sra
                || i is Srl
                || i is Swap
                || i is Bit
                || i is SetBit
                || i is ResBit
            ),
        ensures
            final(self).moved(old(self), old(self).state().run(i)),
            final(self).cycle <= old(self).cycle + 5,
    {
        match i {
            Instr::Rlc(op) => self.rlc(op),
            Instr::Rl(op) => self.rl(op),
            Instr::Rrc(op) => self.rrc(op),
            Instr::Rr(op) => self.rr(op),
            Instr::Sla(op) => self.sla(op),
            Instr::Sra(op) => self.sra(op),
            Instr::Srl(op) => self.srl(op),
            Instr::Swap(op) => self.swap(op),
            Instr::Bit(n, op) => self.bit(n, op),
            Instr::SetBit(n, op) => self.set(n, op),
            Instr::ResBit(n, op) => self.res(n, op),
            _ => {},
        }
    }

    fn run(&mut self, i: Instr)
        requires
            old(self).wf(),
            old(self).cycle + 5 <= CYCLE_ROOM,
            instr_ok(i),
        ensures
            final(self).moved(old(self), old(self).state().run(i)),
            final(self).cycle <= old(self).cycle + 5,
    {
        match i {
            Instr::Ld8(..) | Instr::Ld16(..) | Instr::LdHlSpN | Instr::Push(_) | Instr::Pop(_) | Instr::AddSpN | Instr::Inc16(_) | Instr::Dec16(_) | Instr::AddHl(_) => self.run_load(i),
            Instr::Add(_) | Instr::Adc(_) | Instr::Sub(_) | Instr::Sbc(_) | Instr::And(_) | Instr::Or(_) | Instr::Xor(_) | Instr::Cp(_) | Instr::Inc8(_) | Instr::Dec8(_) | Instr::Daa | Instr::Cpl | Instr::Ccf | Instr::Scf => self.run_alu(i),
            Instr::Di | Instr::Ei | Instr::Halt | Instr::Nop | Instr::Jp(_) | Instr::JpHl | Instr::Jr(_) | Instr::Call(_) | Instr::Ret(_) | Instr::Reti | Instr::Rst(_) => self.run_control(i),
            Instr::Rlc(_) | Instr::Rl(_) | Instr::Rrc(_) | Instr::Rr(_) | Instr::Sla(_) | Instr::Sra(_) | Instr::Srl(_) | Instr::Swap(_) | Instr::Bit(..) | Instr::SetBit(..) | Instr::ResBit(..) => self.run_cb(i),
            _ => {},
        }
    }

    /// Fetches, decodes and runs the instruction at PC.
    pub fn execute(&mut self)
        requires
            old(self).wf(),
            old(self).cycle + 7 <= CYCLE_ROOM,
            old(self).state().executable(),
        ensures
            final(self).moved(old(self), old(self).state().execute()),
            final(self).cycle <= old(self).cycle + 7,
    {
        let code = self.fetch8();
        let i = decode(code);
        proof {
            lemma_decode_ok(code);
        }
        match i {
            Instr::Prefix => {
                let code_cb = self.fetch8();
                proof {
                    lemma_decode_ok(code_cb);
                }
                self.run(decode_cb(code_cb));
            },
            Instr::Stop => {
                let _ = self.fetch8();
                self.stop();
            },
            _ => self.run(i),
        }
    }
}

/// Cycles between two serial transfers for the clock field of SC.
pub open spec fn serial_period(sc: u8) -> nat {
    match sc & 3 {
        0 => 512,
        1 => 256,
        2 => 16,
        _ => 8,
    }
}

/// Cycles between two TIMA increments for the clock field of TAC.
pub open spec fn timer_period(tac: u8) -> nat {
    match tac & 3 {
        0 => 1024,
        1 => 16,
        2 => 64,
        _ => 256,
    }
}

/// Whether a serial transfer completes at T-cycle `t`.
pub open spec fn serial_fires(m: MemState, t: nat) -> bool {
    bit_of(m.reg(Reg::SC), 7) && t % serial_period(m.reg(Reg::SC)) == 0
}

/// The memory after a completed transfer: SC's start bit cleared, Serial requested.
pub open spec fn serial_mem(m: MemState) -> MemState {
    raise(m.set_reg(Reg::SC, with_bit(m.reg(Reg::SC), 7, false)), 3)
}

/// The memory after the timer runs at T-cycle `t`: DIV counts every 256
/// cycles; when TAC enables it, TIMA counts at TAC's rate and on overflow
/// is reloaded from TMA and requests the Timer interrupt.
pub open spec fn timer_mem(m: MemState, t: nat) -> MemState {
    let m1 = if t % 256 == 0 {
        m.set_reg(Reg::DIV, wadd8(m.reg(Reg::DIV), 1))
    } else {
        m
    };
    let tac = m1.reg(Reg::TAC);
    if bit_of(tac, 2) && t % timer_period(tac) == 0 {
        if m1.reg(Reg::TIMA) == 0xff {
            raise(m1, 2).set_reg(Reg::TIMA, raise(m1, 2).reg(Reg::TMA))
        } else {
            m1.set_reg(Reg::TIMA, (m1.reg(Reg::TIMA) + 1) as u8)
        }
    } else {
        m1
    }
}

/// The memory after the joypad runs with host buttons `jb` (0 = pressed):
/// a cleared select bit 4 puts the low nibble of `jb` into JOYP, a cleared
/// select bit 5 its high nibble, and either requests the Joypad interrupt.
pub open spec fn joypad_mem(m: MemState, jb: u8) -> MemState {
    let jp = m.reg(Reg::JOYP);
    let m1 = if !bit_of(jp, 4) {
        raise(m.set_reg(Reg::JOYP, 0x20 | (jb & 0x0f)), 4)
    } else {
        m
    };
    if !bit_of(jp, 5) {
        raise(m1.set_reg(Reg::JOYP, 0x10 | (jb >> 4u8)), 4)
    } else {
        m1
    }
}

/// The highest-priority interrupt that is both enabled and requested.
pub open spec fn first_pending(ie: u8, if_: u8) -> Option<u8> {
    if bit_of(ie, 0) && bit_of(if_, 0) {
        Some(0u8)
    } else if bit_of(ie, 1) && bit_of(if_, 1) {
        Some(1u8)
    } else if bit_of(ie, 2) && bit_of(if_, 2) {
        Some(2u8)
    } else if bit_of(ie, 3) && bit_of(if_, 3) {
        Some(3u8)
    } else if bit_of(ie, 4) && bit_of(if_, 4) {
        Some(4u8)
    } else {
        None
    }
}

/// PC is one of the five interrupt vectors.
pub open spec fn is_vector(pc: u16) -> bool {
    pc == 0x40 || pc == 0x48 || pc == 0x50 || pc == 0x58 || pc == 0x60
}

/// Handler address of interrupt `n`.
pub open spec fn vector(n: u8) -> u16 {
    (0x40 + 8 * n) as u16
}

impl CpuState {
    /// The interrupt check between instructions: any enabled request wakes a
    /// halted CPU; with IME set the first one is served: PC pushed, IME
    /// cleared, its request cleared, PC at its vector, three cycles spent.
    pub open spec fn interrupt(self) -> CpuState {
        let s1 = if self.mem.reg(Reg::IE) & self.mem.reg(Reg::IF) != 0 {
            CpuState { halting: false, ..self }
        } else {
            self
        };
        if s1.ime {
            match first_pending(s1.mem.reg(Reg::IE), s1.mem.reg(Reg::IF)) {
                Some(n) => {
                    let s2 = s1.push16(s1.pc);
                    CpuState {
                        pc: vector(n),
                        ime: false,
                        halting: false,
                        mem: s2.mem.set_reg(Reg::IF, with_bit(s2.mem.reg(Reg::IF), n, false)),
                        ..s2
                    }.ticks(3)
                },
                None => s1,
            }
        } else {
            s1
        }
    }

    /// The state after the instruction part of a step, counted from a fresh
    /// cycle counter: one idle cycle while halted, else the instruction at PC.
    pub open spec fn step_start(self) -> CpuState {
        let s0 = CpuState { cycle: 0, ..self };
        if self.halting {
            s0.tick()
        } else {
            s0.execute()
        }
    }

    /// The eight 8-bit registers agree.
    pub open spec fn same_regs8(self, other: CpuState) -> bool {
        &&& self.a == other.a
        &&& self.f == other.f
        &&& self.b == other.b
        &&& self.c == other.c
        &&& self.d == other.d
        &&& self.e == other.e
        &&& self.h == other.h
        &&& self.l == other.l
    }
}

impl CPU {
    /// Post-boot state: registers clear, SP = 0xfffe, PC = 0x0100, IME off.
    pub fn new(ppu: PPU) -> (r: CPU)
        requires
            ppu.wf(),
        ensures
            r.wf(),
            r.ppu == ppu,
            r.a == 0 && r.f == 0 && r.b == 0 && r.c == 0 && r.d == 0 && r.e == 0 && r.h == 0 && r.l == 0,
            r.sp == 0xfffe,
            r.pc == 0x0100,
            !r.ime,
            !r.halting,
            r.cycle == 0,
            r.sys_counter == 0,
            r.exe_counter == 0,
            r.joypad_buffer == 0x3f,
            r.cpu_logger.logging,
            r.serial_logger.logging,
    {
        assert(0u8 & 0x0f == 0) by (bit_vector);
        CPU {
            ppu: ppu,
            cpu_logger: Logger::new(0x1000),
            serial_logger: Logger::new(0x1000),
            joypad_buffer: 0x3f,
            a: 0,
            f: 0,
            b: 0,
            c: 0,
            d: 0,
            e: 0,
            h: 0,
            l: 0,
            sp: 0xfffe,
            pc: 0x100,
            halting: false,
            ime: false,
            cycle: 0,
            sys_counter: 0,
            exe_counter: 0,
        }
    }

    /// The serial port at the current T-cycle: a completed transfer logs SB.
    pub fn serial(&mut self)
        requires
            old(self).wf(),
        ensures
            final(self).wf(),
            serial_fires(old(self).state().mem, old(self).sys_counter as nat) ==> {
                &&& final(self).state() == CpuState { mem: serial_mem(old(self).state().mem), ..old(self).state() }
                &&& old(self).serial_logger.wrote(final(self).serial_logger, old(self).state().mem.reg(Reg::SB))
            },
            !serial_fires(old(self).state().mem, old(self).sys_counter as nat) ==> {
                &&& final(self).state() == old(self).state()
                &&& final(self).serial_logger == old(self).serial_logger
            },
            final(self).ppu.same_screen(&old(self).ppu),
            final(self).ppu.mbc.rom == old(self).ppu.mbc.rom,
            final(self).cpu_logger.logging == old(self).cpu_logger.logging,
            final(self).joypad_buffer == old(self).joypad_buffer,
            final(self).sys_counter == old(self).sys_counter,
            final(self).exe_counter == old(self).exe_counter,
    {
        let sc = self.read_reg(Reg::SC);
        if get_bit(sc, 7) {
            let clock: usize = match sc & 3 {
                0 => 512,
                1 => 256,
                2 => 16,
                _ => 8,
            };
            if self.sys_counter % clock == 0 {
                let sb = self.read_reg(Reg::SB);
                self.serial_logger.write(sb);
                self.write_reg(Reg::SC, set_bit(sc, 7, false));
                self.request_interrupt(3);
            }
        }
    }

    /// The timer at the current T-cycle.
    pub fn timer(&mut self)
        requires
            old(self).wf(),
        ensures
            final(self).moved(
                old(self),
                CpuState { mem: timer_mem(old(self).state().mem, old(self).sys_counter as nat), ..old(self).state() },
            ),
    {
        if self.sys_counter % 256 == 0 {
            let div = self.read_reg(Reg::DIV);
            self.write_reg(Reg::DIV, div.wrapping_add(1));
        }
        let tac = self.read_reg(Reg::TAC);
        if get_bit(tac, 2) {
            let clock: usize = match tac & 3 {
                0 => 1024,
                1 => 16,
                2 => 64,
                _ => 256,
            };
            if self.sys_counter % clock == 0 {
                let tima = self.read_reg(Reg::TIMA);
                if tima == 0xff {
                    self.request_interrupt(2);
                    let tma = self.read_reg(Reg::TMA);
                    self.write_reg(Reg::TIMA, tma);
                } else {
                    self.write_reg(Reg::TIMA, tima + 1);
                }
            }
        }
    }

    /// The joypad at the current T-cycle.
    pub fn joypad(&mut self)
        requires
            old(self).wf(),
        ensures
            final(self).moved(
                old(self),
                CpuState { mem: joypad_mem(old(self).state().mem, old(self).joypad_buffer), ..old(self).state() },
            ),
    {
        let jb = self.joypad_buffer;
        let jp = self.read_reg(Reg::JOYP);
        if !get_bit(jp, 4) {
            self.write_reg(Reg::JOYP, 0x20 | (jb & 0x0f));
            self.request_interrupt(4);
        }
        if !get_bit(jp, 5) {
            self.write_reg(Reg::JOYP, 0x10 | (jb >> 4u8));
            self.request_interrupt(4);
        }
    }

    /// The interrupt check between instructions.
    pub fn interrupt(&mut self)
        requires
            old(self).wf(),
            old(self).cycle + 5 <= CYCLE_ROOM,
        ensures
            final(self).moved(old(self), old(self).state().interrupt()),
    {
        if self.read_reg(Reg::IE) & self.read_reg(Reg::IF) != 0 {
            self.halting = false;
        }
        if self.ime {
            let enable = self.read_reg(Reg::IE);
            let request = self.read_reg(Reg::IF);
            let (addr, n): (u16, u8) = if get_bit(enable, 0) && get_bit(request, 0) {
                (0x40, 0)
            } else if get_bit(enable, 1) && get_bit(request, 1) {
                (0x48, 1)
            } else if get_bit(enable, 2) && get_bit(request, 2) {
                (0x50, 2)
            } else if get_bit(enable, 3) && get_bit(request, 3) {
                (0x58, 3)
            } else if get_bit(enable, 4) && get_bit(request, 4) {
                (0x60, 4)
            } else {
                (0, 0)
            };
            if addr != 0 {
                self.push16(self.pc);
                self.pc = addr;
                self.ime = false;
                self.halting = false;
                let if_ = self.read_reg(Reg::IF);
                self.write_reg(Reg::IF, set_bit(if_, n as usize, false));
                self.tick();
                self.tick();
                self.tick();
            }
        }
    }
}


impl CPU {
    /// One T-cycle of the peripherals: PPU, serial, timer, joypad, then the
    /// interrupt check.
    fn tcycle(&mut self)
        requires
            old(self).wf(),
            old(self).cycle + 6 * (if old(self).ime { 1int } else { 0int }) <= 13,
        ensures
            final(self).wf(),
            final(self).state().same_regs8(old(self).state()),
            final(self).cycle + 6 * (if final(self).ime { 1int } else { 0int }) <= old(self).cycle + 6 * (
            if old(self).ime {
                1int
            } else {
                0int
            }),
            final(self).exe_counter == old(self).exe_counter,
            final(self).cpu_logger.logging == old(self).cpu_logger.logging,
            final(self).serial_logger.logging == old(self).serial_logger.logging,
            ({
                ||| final(self).pc == old(self).pc && final(self).sp == old(self).sp && final(self).ime
                    == old(self).ime && final(self).cycle == old(self).cycle
                ||| old(self).ime && !final(self).ime && final(self).sp == wsub16(old(self).sp, 2)
                    && is_vector(final(self).pc) && final(self).cycle == old(self).cycle + 5
            }),
            old(self).sys_counter < usize::MAX ==> final(self).sys_counter == old(self).sys_counter + 1,
    {
        self.ppu.step();
        self.serial();
        self.timer();
        self.joypad();
        self.interrupt();
        self.sys_counter = self.sys_counter.wrapping_add(1);
    }

    /// Whether `step` may run: the CPU is halted, or the opcode at PC is
    /// defined (an undefined one stops the machine).
    pub fn can_step(&self) -> (r: bool)
        requires
            self.wf(),
        ensures
            r == (self.halting || self.state().executable()),
    {
        if self.halting {
            return true;
        }
        match decode(self.read(self.pc)) {
            Instr::Undefined => false,
            Instr::Stop => self.read(self.pc.wrapping_add(1)) == 0,
            _ => true,
        }
    }

    /// Runs one instruction, or one idle cycle while halted, then drives the
    /// peripherals four T-cycles per machine cycle spent, serving interrupts
    /// between T-cycles. Registers, PC and SP are those the instruction left,
    /// unless an interrupt was served, which pushed PC and jumped to its
    /// vector.
    pub fn step(&mut self)
        requires
            old(self).wf(),
            old(self).halting || old(self).state().executable(),
        ensures
            final(self).wf(),
            final(self).cycle == 0,
            final(self).state().same_regs8(old(self).state().step_start()),
            ({
                let x = old(self).state().step_start();
                ||| final(self).pc == x.pc && final(self).sp == x.sp && final(self).ime == x.ime
                ||| x.ime && !final(self).ime && final(self).sp == wsub16(x.sp, 2) && is_vector(final(self).pc)
            }),
            old(self).sys_counter + 64 <= usize::MAX ==> final(self).sys_counter == old(self).sys_counter + 4
                * old(self).state().step_start().cycle + (if final(self).ime == old(self).state().step_start().ime {
                0int
            } else {
                20int
            }),
            !old(self).halting && old(self).exe_counter < usize::MAX ==> final(self).exe_counter
                == old(self).exe_counter + 1,
            old(self).halting ==> final(self).exe_counter == old(self).exe_counter,
            final(self).cpu_logger.logging == old(self).cpu_logger.logging,
            final(self).serial_logger.logging == old(self).serial_logger.logging,
    {
        self.cycle = 0;
        if self.halting {
            self.tick();
        } else {
            self.execute();
            self.exe_counter = self.exe_counter.wrapping_add(1);
        }
        let ghost x = self.state();
        let ghost exe = self.exe_counter;
        let ghost s0 = old(self).sys_counter as int;
        let ghost mut spent: int = 0;
        assert(x == old(self).state().step_start());
        while self.cycle > 0
            invariant
                self.wf(),
                self.cycle + 6 * (if self.ime { 1int } else { 0int }) <= 13,
                x.cycle <= 7,
                self.state().same_regs8(x),
                self.exe_counter == exe,
                self.cpu_logger.logging == old(self).cpu_logger.logging,
                self.serial_logger.logging == old(self).serial_logger.logging,
                s0 == old(self).sys_counter,
                ({
                    ||| self.pc == x.pc && self.sp == x.sp && self.ime == x.ime
                    ||| x.ime && !self.ime && self.sp == wsub16(x.sp, 2) && is_vector(self.pc)
                }),
                spent + 4 * self.cycle == 4 * (x.cycle + (if self.ime == x.ime { 0int } else { 5int })),
                0 <= spent,
                s0 + 64 <= usize::MAX ==> self.sys_counter == s0 + spent,
            decreases self.cycle + 6 * (if self.ime { 1int } else { 0int }),
        {
            let ghost start = self.cycle + 6 * (if self.ime { 1int } else { 0int });
            self.cycle = self.cycle - 1;
            let mut k: u8 = 0;
            while k < 4
                invariant
                    self.wf(),
                    self.cycle + 6 * (if self.ime { 1int } else { 0int }) < start,
                    start <= 13,
                    x.cycle <= 7,
                    self.state().same_regs8(x),
                    self.exe_counter == exe,
                    self.cpu_logger.logging == old(self).cpu_logger.logging,
                    self.serial_logger.logging == old(self).serial_logger.logging,
                    s0 == old(self).sys_counter,
                    ({
                        ||| self.pc == x.pc && self.sp == x.sp && self.ime == x.ime
                        ||| x.ime && !self.ime && self.sp == wsub16(x.sp, 2) && is_vector(self.pc)
                    }),
                    spent + 4 * self.cycle + 4 - k == 4 * (x.cycle + (if self.ime == x.ime { 0int } else { 5int })),
                    0 <= spent,
                    s0 + 64 <= usize::MAX ==> self.sys_counter == s0 + spent,
                    k <= 4,
                decreases 4 - k,
            {
                self.tcycle();
                proof {
                    spent = spent + 1;
                }
                k += 1;
            }
        }
    }
}

/// Pushing a word and popping it back gives the word and the stack pointer
/// back, when the two stack bytes live in memory that reads back what was
/// written.
pub proof fn lemma_push_pop(s: CpuState, v: u16)
    requires
        s.mem.wf(),
        s.mem.ram_backed(wsub16(s.sp, 1)),
        s.mem.ram_backed(wsub16(s.sp, 2)),
    ensures
        s.push16(v).pop16().0 == v,
        s.push16(v).pop16().1.sp == s.sp,
{
    assert(pair16(hi8(v), lo8(v)) == v) by (bit_vector);
}

/// Writing a register pair and reading it back gives the value written; for
/// AF the low nibble of F reads as zero.
pub proof fn lemma_pair_round_trip(s: CpuState, v: u16)
    ensures
        s.set_bc(v).bc() == v,
        s.set_de(v).de() == v,
        s.set_hl(v).hl() == v,
        s.set_af(v).af() == v & 0xfff0,
{
    assert(pair16(hi8(v), lo8(v)) == v) by (bit_vector);
    assert(pair16(hi8(v), lo8(v) & 0xf0) == v & 0xfff0) by (bit_vector);
}

/// The register pairs are big-endian: the first register is the high byte.
pub proof fn lemma_pair_big_endian(s: CpuState)
    ensures
        s.hl() == ((s.h as u16) << 8u16) | (s.l as u16),
        s.hl() == s.h * 256 + s.l,
        s.bc() == s.b * 256 + s.c,
        s.de() == s.d * 256 + s.e,
        s.af() == s.a * 256 + s.f,
{
    let (a, f, b, c, d, e, h, l) = (s.a, s.f, s.b, s.c, s.d, s.e, s.h, s.l);
    assert(pair16(h, l) == h as u16 * 256 + l as u16) by (bit_vector);
    assert(pair16(b, c) == b as u16 * 256 + c as u16) by (bit_vector);
    assert(pair16(d, e) == d as u16 * 256 + e as u16) by (bit_vector);
    assert(pair16(a, f) == a as u16 * 256 + f as u16) by (bit_vector);
}


/// Operand bytes that an operand adds to its instruction.
pub open spec fn operand_len(op: OP) -> int {
    match op {
        OP::N | OP::P_FF00_N => 1,
        OP::NN | OP::P_NN => 2,
        _ => 0,
    }
}

/// Length in bytes of an instruction that does not jump, opcode included.
/// An operand that is read and then written back is fetched for each access
/// (no opcode of the maps uses such an operand with bytes of its own).
pub open spec fn instr_len(i: Instr) -> int {
    match i {
        Instr::Ld8(a, b) | Instr::Ld16(a, b) => 1 + operand_len(a) + operand_len(b),
        Instr::LdHlSpN | Instr::AddSpN | Instr::Prefix | Instr::Stop => 2,
        Instr::Add(op) | Instr::Adc(op) | Instr::Sub(op) | Instr::Sbc(op) | Instr::And(op)
        | Instr::Or(op) | Instr::Xor(op) | Instr::Cp(op) | Instr::Push(op) | Instr::Pop(op)
        | Instr::AddHl(op) | Instr::Bit(_, op) => 1 + operand_len(op),
        Instr::Inc8(op) | Instr::Dec8(op) | Instr::Inc16(op) | Instr::Dec16(op) | Instr::Rlc(op)
        | Instr::Rl(op) | Instr::Rrc(op) | Instr::Rr(op) | Instr::Sla(op) | Instr::Sra(op)
        | Instr::Srl(op) | Instr::Swap(op) | Instr::SetBit(_, op) | Instr::ResBit(_, op) => 1 + 2
            * operand_len(op),
        _ => 1,
    }
}

/// The instructions that may load PC with a target.
pub open spec fn is_jump(i: Instr) -> bool {
    match i {
        Instr::Jp(_) | Instr::JpHl | Instr::Jr(_) | Instr::Call(_) | Instr::Ret(_) | Instr::Reti
        | Instr::Rst(_) => true,
        _ => false,
    }
}

/// Where PC points after the instruction at PC: just past it, or for a
/// taken branch at its target (an absolute operand, HL, the end of the
/// instruction plus a signed displacement, the popped return address, or a
/// restart vector).
pub open spec fn next_pc(s: CpuState) -> u16 {
    let i = spec_decode(s.read(s.pc));
    let b1 = s.read(wadd16(s.pc, 1));
    let nn = pair16(s.read(wadd16(s.pc, 2)), b1);
    let popped = pair16(s.read(wadd16(s.sp, 1)), s.read(s.sp));
    match i {
        Instr::Jp(cc) => if s.cond(cc) { nn } else { wadd16(s.pc, 3) },
        Instr::Call(cc) => if s.cond(cc) { nn } else { wadd16(s.pc, 3) },
        Instr::JpHl => s.hl(),
        Instr::Jr(cc) => if s.cond(cc) {
            alu_add_signed(wadd16(s.pc, 2), b1).0
        } else {
            wadd16(s.pc, 2)
        },
        Instr::Ret(cc) => if s.cond(cc) { popped } else { wadd16(s.pc, 1) },
        Instr::Reti => popped,
        Instr::Rst(addr) => addr,
        _ => wadd16(s.pc, instr_len(i) as u16),
    }
}

proof fn lemma_wadd16_compose(a: u16, x: int, y: int)
    requires
        0 <= x <= 3,
        0 <= y <= 3,
    ensures
        wadd16(wadd16(a, x as u16), y as u16) == wadd16(a, (x + y) as u16),
        wadd16(a, 0) == a,
{
}

proof fn lemma_load8_pc(s: CpuState, op: OP)
    requires
        is_src8(op),
    ensures
        s.load8(op).1.pc == wadd16(s.pc, operand_len(op) as u16),
        s.load8(op).1.flag(ZERO) == s.flag(ZERO),
        s.load8(op).1.flag(CARRY) == s.flag(CARRY),
{
    lemma_wadd16_compose(s.pc, 1, 1);
    match op {
        OP::N => {},
        OP::P_FF00_N => {},
        OP::NN => {},
        OP::P_NN => {},
        _ => {},
    }
}

proof fn lemma_store8_pc(s: CpuState, op: OP, v: u8)
    requires
        is_dst8(op),
    ensures
        s.store8(op, v).pc == wadd16(s.pc, operand_len(op) as u16),
{
    lemma_wadd16_compose(s.pc, 1, 1);
    match op {
        OP::N => {},
        OP::P_FF00_N => {},
        OP::NN => {},
        OP::P_NN => {},
        _ => {},
    }
}

proof fn lemma_load16_pc(s: CpuState, op: OP)
    requires
        is_src16(op),
    ensures
        s.load16(op).1.pc == wadd16(s.pc, operand_len(op) as u16),
{
    lemma_wadd16_compose(s.pc, 1, 1);
    match op {
        OP::N => {},
        OP::P_FF00_N => {},
        OP::NN => {},
        OP::P_NN => {},
        _ => {},
    }
}

proof fn lemma_store16_pc(s: CpuState, op: OP, v: u16)
    requires
        is_dst16(op),
    ensures
        s.store16(op, v).pc == wadd16(s.pc, operand_len(op) as u16),
{
    lemma_wadd16_compose(s.pc, 1, 1);
    match op {
        OP::N => {},
        OP::P_FF00_N => {},
        OP::NN => {},
        OP::P_NN => {},
        _ => {},
    }
}

/// PC after an instruction that does not jump, its opcode already fetched.
proof fn lemma_run_pc(s: CpuState, i: Instr)
    requires
        instr_ok(i),
        !is_jump(i),
        i != Instr::Prefix,
        i != Instr::Stop,
    ensures
        s.run(i).pc == wadd16(s.pc, (instr_len(i) - 1) as u16),
{
    lemma_wadd16_compose(s.pc, 0, 0);
    match i {
        Instr::Ld8(a, b) => {
            reveal(CpuState::ld8);
            lemma_load8_pc(s, b);
            lemma_store8_pc(s.load8(b).1, a, s.load8(b).0);
            lemma_wadd16_compose(s.pc, operand_len(b), operand_len(a));
            assert(s.run(i).pc == wadd16(s.pc, (instr_len(i) - 1) as u16));
        },
        Instr::Ld16(a, b) => {
            reveal(CpuState::ld16);
            lemma_load16_pc(s, b);
            lemma_store16_pc(s.load16(b).1, a, s.load16(b).0);
            lemma_wadd16_compose(s.pc, operand_len(b), operand_len(a));
            assert(s.run(i).pc == wadd16(s.pc, (instr_len(i) - 1) as u16));
        },
        Instr::LdHlSpN => {
            reveal(CpuState::ld16_hl_sp_n);
            assert(s.run(i).pc == wadd16(s.pc, (instr_len(i) - 1) as u16));
        },
        Instr::Push(op) => {
            reveal(CpuState::push);
            lemma_load16_pc(s, op);
            assert(s.run(i).pc == wadd16(s.pc, (instr_len(i) - 1) as u16));
        },
        Instr::Pop(op) => {
            reveal(CpuState::pop);
            lemma_store16_pc(s.pop16().1, op, s.pop16().0);
            assert(s.run(i).pc == wadd16(s.pc, (instr_len(i) - 1) as u16));
        },
        Instr::Add(op) => {
            reveal(CpuState::add);
            lemma_load8_pc(s, op);
            assert(s.run(i).pc == wadd16(s.pc, (instr_len(i) - 1) as u16));
        },
        Instr::Adc(op) => {
            reveal(CpuState::adc);
            lemma_load8_pc(s, op);
            assert(s.run(i).pc == wadd16(s.pc, (instr_len(i) - 1) as u16));
        },
        Instr::Sub(op) => {
            reveal(CpuState::sub);
            lemma_load8_pc(s, op);
            assert(s.run(i).pc == wadd16(s.pc, (instr_len(i) - 1) as u16));
        },
        Instr::Sbc(op) => {
            reveal(CpuState::sbc);
            lemma_load8_pc(s, op);
            assert(s.run(i).pc == wadd16(s.pc, (instr_len(i) - 1) as u16));
        },
        Instr::And(op) => {
            reveal(CpuState::and_);
            lemma_load8_pc(s, op);
            assert(s.run(i).pc == wadd16(s.pc, (instr_len(i) - 1) as u16));
        },
        Instr::Or(op) => {
            reveal(CpuState::or_);
            lemma_load8_pc(s, op);
            assert(s.run(i).pc == wadd16(s.pc, (instr_len(i) - 1) as u16));
        },
        Instr::Xor(op) => {
            reveal(CpuState::xor);
            lemma_load8_pc(s, op);
            assert(s.run(i).pc == wadd16(s.pc, (instr_len(i) - 1) as u16));
        },
        Instr::Cp(op) => {
            reveal(CpuState::cp);
            lemma_load8_pc(s, op);
            assert(s.run(i).pc == wadd16(s.pc, (instr_len(i) - 1) as u16));
        },
        Instr::Inc8(op) => {
            reveal(CpuState::inc8);
            lemma_load8_pc(s, op);
            lemma_store8_pc(s.load8(op).1, op, alu_add8(s.load8(op).0, 1).0);
            lemma_wadd16_compose(s.pc, operand_len(op), operand_len(op));
            assert(s.run(i).pc == wadd16(s.pc, (instr_len(i) - 1) as u16));
        },
        Instr::Dec8(op) => {
            reveal(CpuState::dec8);
            lemma_load8_pc(s, op);
            lemma_store8_pc(s.load8(op).1, op, alu_sub8(s.load8(op).0, 1).0);
            lemma_wadd16_compose(s.pc, operand_len(op), operand_len(op));
            assert(s.run(i).pc == wadd16(s.pc, (instr_len(i) - 1) as u16));
        },
        Instr::AddHl(op) => {
            reveal(CpuState::add_hl);
            lemma_load16_pc(s, op);
            assert(s.run(i).pc == wadd16(s.pc, (instr_len(i) - 1) as u16));
        },
        Instr::AddSpN => {
            reveal(CpuState::add_sp_n);
            assert(s.run(i).pc == wadd16(s.pc, (instr_len(i) - 1) as u16));
        },
        Instr::Inc16(op) => {
            reveal(CpuState::inc16);
            lemma_load16_pc(s, op);
            lemma_store16_pc(s.load16(op).1, op, wadd16(s.load16(op).0, 1));
            lemma_wadd16_compose(s.pc, operand_len(op), operand_len(op));
            assert(s.run(i).pc == wadd16(s.pc, (instr_len(i) - 1) as u16));
        },
        Instr::Dec16(op) => {
            reveal(CpuState::dec16);
            lemma_load16_pc(s, op);
            lemma_store16_pc(s.load16(op).1, op, wsub16(s.load16(op).0, 1));
            lemma_wadd16_compose(s.pc, operand_len(op), operand_len(op));
            assert(s.run(i).pc == wadd16(s.pc, (instr_len(i) - 1) as u16));
        },
        Instr::Daa => {
            reveal(CpuState::daa);
            assert(s.run(i).pc == wadd16(s.pc, (instr_len(i) - 1) as u16));
        },
        Instr::Cpl => {
            reveal(CpuState::cpl);
            assert(s.run(i).pc == wadd16(s.pc, (instr_len(i) - 1) as u16));
        },
        Instr::Ccf => {
            reveal(CpuState::ccf);
            assert(s.run(i).pc == wadd16(s.pc, (instr_len(i) - 1) as u16));
        },
        Instr::Scf => {
            reveal(CpuState::scf);
            assert(s.run(i).pc == wadd16(s.pc, (instr_len(i) - 1) as u16));
        },
        Instr::Di => {
            reveal(CpuState::ime_off);
            assert(s.run(i).pc == wadd16(s.pc, (instr_len(i) - 1) as u16));
        },
        Instr::Ei => {
            reveal(CpuState::ime_on);
            assert(s.run(i).pc == wadd16(s.pc, (instr_len(i) - 1) as u16));
        },
        Instr::Halt => {
            reveal(CpuState::halted);
            assert(s.run(i).pc == wadd16(s.pc, (instr_len(i) - 1) as u16));
        },
        Instr::Rlc(op) => {
            reveal(CpuState::rlc);
            lemma_load8_pc(s, op);
            lemma_store8_pc(s.load8(op).1, op, (s.load8(op).0 << 1u8) | (s.load8(op).0 >> 7u8));
            lemma_wadd16_compose(s.pc, operand_len(op), operand_len(op));
            assert(s.run(i).pc == wadd16(s.pc, (instr_len(i) - 1) as u16));
        },
        Instr::Rl(op) => {
            reveal(CpuState::rl);
            lemma_load8_pc(s, op);
            let (r, s1) = s.load8(op);
            lemma_store8_pc(s1, op, (r << 1u8) | (if s1.flag(CARRY) { 1u8 } else { 0u8 }));
            lemma_wadd16_compose(s.pc, operand_len(op), operand_len(op));
            assert(s.run(i).pc == wadd16(s.pc, (instr_len(i) - 1) as u16));
        },
        Instr::Rrc(op) => {
            reveal(CpuState::rrc);
            lemma_load8_pc(s, op);
            let (r, s1) = s.load8(op);
            lemma_store8_pc(s1, op, ((r & 1) << 7u8) | (r >> 1u8));
            lemma_wadd16_compose(s.pc, operand_len(op), operand_len(op));
            assert(s.run(i).pc == wadd16(s.pc, (instr_len(i) - 1) as u16));
        },
        Instr::Rr(op) => {
            reveal(CpuState::rr);
            lemma_load8_pc(s, op);
            let (r, s1) = s.load8(op);
            lemma_store8_pc(s1, op, ((if s1.flag(CARRY) { 1u8 } else { 0u8 }) << 7u8) | (r >> 1u8));
            lemma_wadd16_compose(s.pc, operand_len(op), operand_len(op));
            assert(s.run(i).pc == wadd16(s.pc, (instr_len(i) - 1) as u16));
        },
        Instr::Sla(op) => {
            reveal(CpuState::sla);
            lemma_load8_pc(s, op);
            lemma_store8_pc(s.load8(op).1, op, s.load8(op).0 << 1u8);
            lemma_wadd16_compose(s.pc, operand_len(op), operand_len(op));
            assert(s.run(i).pc == wadd16(s.pc, (instr_len(i) - 1) as u16));
        },
        Instr::Sra(op) => {
            reveal(CpuState::sra);
            lemma_load8_pc(s, op);
            let r = s.load8(op).0;
            lemma_store8_pc(s.load8(op).1, op, (r & 0x80) | (r >> 1u8));
            lemma_wadd16_compose(s.pc, operand_len(op), operand_len(op));
            assert(s.run(i).pc == wadd16(s.pc, (instr_len(i) - 1) as u16));
        },
        Instr::Srl(op) => {
            reveal(CpuState::srl);
            lemma_load8_pc(s, op);
            lemma_store8_pc(s.load8(op).1, op, s.load8(op).0 >> 1u8);
            lemma_wadd16_compose(s.pc, operand_len(op), operand_len(op));
            assert(s.run(i).pc == wadd16(s.pc, (instr_len(i) - 1) as u16));
        },
        Instr::Swap(op) => {
            reveal(CpuState::swap);
            lemma_load8_pc(s, op);
            let r = s.load8(op).0;
            lemma_store8_pc(s.load8(op).1, op, (r << 4u8) | (r >> 4u8));
            lemma_wadd16_compose(s.pc, operand_len(op), operand_len(op));
            assert(s.run(i).pc == wadd16(s.pc, (instr_len(i) - 1) as u16));
        },
        Instr::Bit(n, op) => {
            reveal(CpuState::bit);
            lemma_load8_pc(s, op);
            assert(s.run(i).pc == wadd16(s.pc, (instr_len(i) - 1) as u16));
        },
        Instr::SetBit(n, op) => {
            reveal(CpuState::set);
            lemma_load8_pc(s, op);
            lemma_store8_pc(s.load8(op).1, op, with_bit(s.load8(op).0, n, true));
            lemma_wadd16_compose(s.pc, operand_len(op), operand_len(op));
            assert(s.run(i).pc == wadd16(s.pc, (instr_len(i) - 1) as u16));
        },
        Instr::ResBit(n, op) => {
            reveal(CpuState::res);
            lemma_load8_pc(s, op);
            lemma_store8_pc(s.load8(op).1, op, with_bit(s.load8(op).0, n, false));
            lemma_wadd16_compose(s.pc, operand_len(op), operand_len(op));
            assert(s.run(i).pc == wadd16(s.pc, (instr_len(i) - 1) as u16));
        },
        _ => {},
    }
}

/// After every instruction PC has moved past it by its length, or, for a
/// taken branch, points at the branch target.
pub proof fn lemma_execute_pc(s: CpuState)
    requires
        s.executable(),
    ensures
        s.execute().pc == next_pc(s),
{
    let (code, s1) = s.fetch8();
    let i = spec_decode(code);
    lemma_wadd16_compose(s.pc, 1, 1);
    lemma_wadd16_compose(s.pc, 1, 2);
    lemma_wadd16_compose(s.pc, 2, 1);
    if is_jump(i) {
        match i {
            Instr::Jp(cc) => {
                reveal(CpuState::jp);
            },
            Instr::JpHl => {
                reveal(CpuState::jp_p_hl);
            },
            Instr::Jr(cc) => {
                reveal(CpuState::jr);
            },
            Instr::Call(cc) => {
                reveal(CpuState::call);
            },
            Instr::Ret(cc) => {
                reveal(CpuState::ret);
            },
            Instr::Reti => {
                reveal(CpuState::reti);
            },
            Instr::Rst(addr) => {
                reveal(CpuState::rst);
            },
            _ => {},
        }
    } else if i == Instr::Prefix {
        let (code_cb, s2) = s1.fetch8();
        lemma_decode_ok(code_cb);
        assert(!is_jump(spec_decode_cb(code_cb)));
        assert(instr_len(spec_decode_cb(code_cb)) == 1);
        lemma_run_pc(s2, spec_decode_cb(code_cb));
    } else if i == Instr::Stop {
    } else {
        lemma_run_pc(s1, i);
        lemma_wadd16_compose(s.pc, 1, instr_len(i) - 1);
    }
}

} // verus!
