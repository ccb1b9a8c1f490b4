//! The MBC1 memory bank controller: maps the CPU's 16-bit addresses onto the
//! ROM image, main RAM and external RAM, and serves bank-select writes.
use crate::ram::{dma_result, Reg, ADDR_SPACE, RAM};
use crate::rom::ROM;
use vstd::prelude::*;

verus! {

/// The memory side of the machine as the contracts see it.
pub struct MemState {
    pub rom: Seq<u8>,
    pub ram: Seq<u8>,
    pub ram_ex: Seq<u8>,
    pub rom_bank: usize,
    pub rom_bank1: usize,
    pub rom_bank2: usize,
    pub ram_ex_bank: usize,
    pub ram_ex_enable: bool,
    pub banking_mode: bool,
    pub vram_blocking: bool,
    pub oam_blocking: bool,
}

/// Offset of the switchable ROM bank in the image.
pub open spec fn bank_offset(rom_bank1: usize, rom_bank2: usize) -> usize {
    (rom_bank2 * 0x80000 + rom_bank1 * 0x4000) as usize
}

/// The bank number that a write to 0x2000..0x4000 selects: five bits, 0 read as 1.
pub open spec fn bank1_of(v: u8) -> usize {
    if v & 0x1f == 0 {
        1
    } else {
        (v & 0x1f) as usize
    }
}

impl MemState {
    pub open spec fn wf(self) -> bool {
        &&& self.ram.len() == ADDR_SPACE
        &&& 1 <= self.rom_bank1 <= 31
        &&& self.rom_bank2 <= 3
        &&& self.rom_bank == bank_offset(self.rom_bank1, self.rom_bank2)
        &&& self.ram_ex_bank <= 0x6000
    }

    /// ROM byte `k`; past the end of the image the bus reads 0xff.
    pub open spec fn rom_byte(self, k: int) -> u8 {
        if 0 <= k < self.rom.len() {
            self.rom[k]
        } else {
            0xff
        }
    }

    /// External RAM byte `k`; past its end the bus reads 0xff.
    pub open spec fn ex_byte(self, k: int) -> u8 {
        if 0 <= k < self.ram_ex.len() {
            self.ram_ex[k]
        } else {
            0xff
        }
    }

    /// What the CPU reads at address `i`.
    pub open spec fn read(self, i: u16) -> u8 {
        if i < 0x4000 {
            self.rom_byte(i as int)
        } else if i < 0x8000 {
            self.rom_byte(self.rom_bank + (i - 0x4000))
        } else if i < 0xa000 {
            self.ram[i as int]
        } else if i < 0xc000 {
            if self.ram_ex_enable {
                self.ex_byte(self.ram_ex_bank + (i - 0xa000))
            } else {
                0
            }
        } else {
            self.ram[i as int]
        }
    }

    /// The state after the CPU writes `v` at address `i`.
    pub open spec fn write(self, i: u16, v: u8) -> MemState {
        if i < 0x2000 {
            MemState { ram_ex_enable: v & 0xf == 0xa, ..self }
        } else if i < 0x4000 {
            MemState {
                rom_bank1: bank1_of(v),
                rom_bank: bank_offset(bank1_of(v), self.rom_bank2),
                ..self
            }
        } else if i < 0x6000 {
            MemState {
                rom_bank2: (v & 0x3) as usize,
                rom_bank: bank_offset(self.rom_bank1, (v & 0x3) as usize),
                ..self
            }
        } else if i < 0x8000 {
            if v != 0 {
                MemState {
                    ram_ex_enable: true,
                    ram_ex_bank: (self.rom_bank2 * 0x2000) as usize,
                    banking_mode: true,
                    ..self
                }
            } else {
                MemState { ram_ex_enable: false, ram_ex_bank: 0, banking_mode: false, ..self }
            }
        } else if i < 0xa000 {
            if self.vram_blocking {
                self
            } else {
                MemState { ram: self.ram.update(i as int, v), ..self }
            }
        } else if i < 0xc000 {
            let k = self.ram_ex_bank + (i - 0xa000);
            if self.ram_ex_enable && k < self.ram_ex.len() {
                MemState { ram_ex: self.ram_ex.update(k, v), ..self }
            } else {
                self
            }
        } else if i == 0xff46 {
            let copied = if self.oam_blocking {
                self.ram
            } else {
                dma_result(self.ram, v as int)
            };
            MemState { ram: copied.update(i as int, v), ..self }
        } else {
            MemState { ram: self.ram.update(i as int, v), ..self }
        }
    }

    /// Address `a` reads back what was last written there: work RAM and
    /// above, unblocked VRAM, or enabled external RAM that exists.
    pub open spec fn ram_backed(self, a: u16) -> bool {
        ||| a >= 0xc000
        ||| 0x8000 <= a < 0xa000 && !self.vram_blocking
        ||| 0xa000 <= a < 0xc000 && self.ram_ex_enable && self.ram_ex_bank + (a - 0xa000)
            < self.ram_ex.len()
    }

    /// Value of a register's cell.
    pub open spec fn reg(self, r: Reg) -> u8 {
        self.ram[r.spec_addr() as int]
    }

    /// The state after a register's cell is set to `v`, with no side effect.
    pub open spec fn set_reg(self, r: Reg, v: u8) -> MemState {
        MemState { ram: self.ram.update(r.spec_addr() as int, v), ..self }
    }
}

/// Any write keeps the bank registers in range: `rom_bank1` in 1..=31 and
/// `rom_bank2` in 0..=3.
pub proof fn lemma_write_keeps_banks(m: MemState, i: u16, v: u8)
    requires
        m.wf(),
    ensures
        m.write(i, v).wf(),
        1 <= m.write(i, v).rom_bank1 <= 31,
        m.write(i, v).rom_bank2 <= 3,
{
    assert(v & 0x1f <= 31 && v & 0x3 <= 3) by (bit_vector);
}

#[derive(Debug)]
pub struct MBC1 {
    pub rom: ROM,
    pub ram: RAM,
    pub rom_bank: usize,
    pub rom_bank1: usize,
    pub rom_bank2: usize,
    pub ram_ex_bank: usize,
    pub ram_ex_enable: bool,
    pub banking_mode: bool,
    pub vram_blocking: bool,
    pub oam_blocking: bool,
}

impl View for MBC1 {
    type V = MemState;

    open spec fn view(&self) -> MemState {
        MemState {
            rom: self.rom.raw@,
            ram: self.ram.ram@,
            ram_ex: self.ram.ram_ex@,
            rom_bank: self.rom_bank,
            rom_bank1: self.rom_bank1,
            rom_bank2: self.rom_bank2,
            ram_ex_bank: self.ram_ex_bank,
            ram_ex_enable: self.ram_ex_enable,
            banking_mode: self.banking_mode,
            vram_blocking: self.vram_blocking,
            oam_blocking: self.oam_blocking,
        }
    }
}

/// The controller for a cartridge. Cartridges without a controller are served
/// by MBC1 too: their image fits in the first two banks, which MBC1 maps as
/// such a cartridge expects.
pub fn select_mbc(rom: ROM) -> (r: MBC1)
    ensures
        r.wf(),
        r@.rom == rom.raw@,
        r.rom == rom,
        r@.ram == Seq::new(ADDR_SPACE as nat, |i: int| 0u8),
        r@.ram_ex == Seq::new(rom.ram_ex_size as nat, |i: int| 0u8),
        r.rom_bank1 == 1,
        r.rom_bank2 == 0,
        r.rom_bank == 0x4000,
        r.ram_ex_bank == 0,
        !r.ram_ex_enable,
        !r.banking_mode,
        !r.vram_blocking,
        !r.oam_blocking,
{
    MBC1::new(rom)
}

impl MBC1 {
    pub open spec fn wf(&self) -> bool {
        self.ram.wf() && self@.wf()
    }

    /// Power-on state: bank 1 in the switchable window, external RAM off.
    pub fn new(rom: ROM) -> (r: MBC1)
        ensures
            r.wf(),
            r.rom == rom,
            r@.ram == Seq::new(ADDR_SPACE as nat, |i: int| 0u8),
            r@.ram_ex == Seq::new(rom.ram_ex_size as nat, |i: int| 0u8),
            r.rom_bank1 == 1,
            r.rom_bank2 == 0,
            r.rom_bank == 0x4000,
            r.ram_ex_bank == 0,
            !r.ram_ex_enable,
            !r.banking_mode,
            !r.vram_blocking,
            !r.oam_blocking,
    {
        let ram = RAM::new(rom.ram_ex_size);
        MBC1 {
            rom: rom,
            ram: ram,
            rom_bank: 0x4000,
            rom_bank1: 1,
            rom_bank2: 0,
            ram_ex_bank: 0,
            ram_ex_enable: false,
            banking_mode: false,
            vram_blocking: false,
            oam_blocking: false,
        }
    }

    pub fn read_reg(&self, r: Reg) -> (v: u8)
        requires
            self.wf(),
        ensures
            v == self@.reg(r),
    {
        self.ram.read_reg(r)
    }

    pub fn write_reg(&mut self, r: Reg, v: u8)
        requires
            old(self).wf(),
        ensures
            final(self).wf(),
            final(self)@ == old(self)@.set_reg(r, v),
            final(self).rom == old(self).rom,
    {
        self.ram.write_reg(r, v);
    }

    /// Replaces a register's value `u` by `f(u)`.
    pub fn modify_reg<F: Fn(u8) -> u8>(&mut self, r: Reg, f: F)
        requires
            old(self).wf(),
            f.requires((old(self)@.reg(r),)),
        ensures
            final(self).wf(),
            f.ensures((old(self)@.reg(r),), final(self)@.reg(r)),
            final(self)@ == old(self)@.set_reg(r, final(self)@.reg(r)),
            final(self).rom == old(self).rom,
    {
        self.ram.modify_reg(r, f);
    }

    pub fn get_rom(&self) -> (r: &ROM)
        ensures
            *r == self.rom,
    {
        &self.rom
    }

    pub fn get_ram(&self) -> (r: &RAM)
        ensures
            *r == self.ram,
    {
        &self.ram
    }

    pub fn get_rom_bank(&self) -> (r: usize)
        ensures
            r == self.rom_bank,
    {
        self.rom_bank
    }

    pub fn get_ram_ex_bank(&self) -> (r: usize)
        ensures
            r == self.ram_ex_bank,
    {
        self.ram_ex_bank
    }

    pub fn set_oam_blocking(&mut self, b: bool)
        requires
            old(self).wf(),
        ensures
            final(self).wf(),
            final(self)@ == (MemState { oam_blocking: b, ..old(self)@ }),
            final(self).rom == old(self).rom,
    {
        self.oam_blocking = b;
    }

    pub fn set_vram_blocking(&mut self, b: bool)
        requires
            old(self).wf(),
        ensures
            final(self).wf(),
            final(self)@ == (MemState { vram_blocking: b, ..old(self)@ }),
            final(self).rom == old(self).rom,
    {
        self.vram_blocking = b;
    }

    fn rom_byte(&self, k: usize) -> (r: u8)
        ensures
            r == self@.rom_byte(k as int),
    {
        if k < self.rom.raw.len() {
            self.rom.read(k)
        } else {
            0xff
        }
    }

    fn ex_byte(&self, k: usize) -> (r: u8)
        ensures
            r == self@.ex_byte(k as int),
    {
        if k < self.ram.ram_ex.len() {
            self.ram.read_ex(k)
        } else {
            0xff
        }
    }

    /// What the CPU reads at address `i`.
    pub fn read(&self, i: u16) -> (r: u8)
        requires
            self.wf(),
        ensures
            r == self@.read(i),
    {
        let i = i as usize;
        if i < 0x4000 {
            self.rom_byte(i)
        } else if i < 0x8000 {
            self.rom_byte(self.rom_bank + (i - 0x4000))
        } else if i < 0xa000 {
            self.ram.read(i)
        } else if i < 0xc000 {
            if self.ram_ex_enable {
                self.ex_byte(self.ram_ex_bank + (i - 0xa000))
            } else {
                0
            }
        } else {
            self.ram.read(i)
        }
    }

    /// The CPU writes `v` at address `i`: bank-select registers below 0x8000,
    /// VRAM unless blocked, external RAM when enabled, OAM DMA at 0xff46.
    pub fn write(&mut self, i: u16, v: u8)
        requires
            old(self).wf(),
        ensures
            final(self).wf(),
            final(self)@ == old(self)@.write(i, v),
            final(self).rom == old(self).rom,
    {
        let i = i as usize;
        if i < 0x2000 {
            self.ram_ex_enable = v & 0xf == 0xa;
        } else if i < 0x4000 {
            let b = v & 0x1f;
            self.rom_bank1 = if b == 0 { 1 } else { b as usize };
            self.rom_bank = self.rom_bank2 * 0x80000 + self.rom_bank1 * 0x4000;
        } else if i < 0x6000 {
            self.rom_bank2 = (v & 0x3) as usize;
            proof {
                assert(v & 0x3 <= 3) by (bit_vector);
            }
            self.rom_bank = self.rom_bank2 * 0x80000 + self.rom_bank1 * 0x4000;
        } else if i < 0x8000 {
            if v != 0 {
                self.ram_ex_enable = true;
                self.ram_ex_bank = self.rom_bank2 * 0x2000;
                self.banking_mode = true;
            } else {
                self.ram_ex_enable = false;
                self.ram_ex_bank = 0;
                self.banking_mode = false;
            }
        } else if i < 0xa000 {
            if !self.vram_blocking {
                self.ram.write(i, v);
            }
        } else if i < 0xc000 {
            let k = self.ram_ex_bank + (i - 0xa000);
            if self.ram_ex_enable && k < self.ram.ram_ex.len() {
                self.ram.write_ex(k, v);
            }
        } else if i == 0xff46 {
            if !self.oam_blocking {
                self.ram.transfer_dma(v as usize);
            }
            self.ram.write(i, v);
        } else {
            self.ram.write(i, v);
        }
        proof {
            assert(v & 0x1f <= 31) by (bit_vector);
            assert(self@ =~= old(self)@.write(i as u16, v));
        }
    }
}

} // verus!
