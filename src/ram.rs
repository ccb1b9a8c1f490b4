//! Main memory: the flat 64 KiB address space and the external RAM vector.
use vstd::prelude::*;

verus! {

/// Size of the CPU's address space.
pub const ADDR_SPACE: usize = 0x10000;

/// First OAM byte; OAM DMA writes here.
pub const OAM_START: usize = 0xfe00;

/// Number of bytes that one OAM DMA copies.
pub const DMA_LEN: usize = 0xa0;

#[derive(Debug)]
pub struct RAM {
    pub ram: Vec<u8>,
    pub ram_ex: Vec<u8>,
}

/// The memory-mapped I/O registers, each at a fixed address.
#[derive(Debug, Copy, Clone, PartialEq, Eq, Structural)]
pub enum Reg {
    JOYP,

    SB,
    SC,

    DIV,
    TIMA,
    TMA,
    TAC,

    NR10,
    NR11,
    NR12,
    NR13,
    NR14,
    NR21,
    NR22,
    NR23,
    NR24,
    NR30,
    NR31,
    NR32,
    NR33,
    NR34,
    NR41,
    NR42,
    NR43,
    NR44,
    NR50,
    NR51,
    NR52,
    WPR,

    LCDC,
    STAT,
    SCY,
    SCX,
    LY,
    LYC,
    WY,
    WX,
    BGP,
    OBP0,
    OBP1,
    BCPS,
    BCPD,
    OCPS,
    DMA,
    VBK,
    HDMA1,
    HDMA2,
    HDMA3,
    HDMA4,
    HDMA5,

    IF,
    IE,
}

impl Reg {
    /// Address of the register's cell.
    pub open spec fn spec_addr(self) -> usize {
        match self {
            Reg::JOYP => 0xff00,
            Reg::SB => 0xff01,
            Reg::SC => 0xff02,
            Reg::DIV => 0xff04,
            Reg::TIMA => 0xff05,
            Reg::TMA => 0xff06,
            Reg::TAC => 0xff07,
            Reg::NR10 => 0xff10,
            Reg::NR11 => 0xff11,
            Reg::NR12 => 0xff12,
            Reg::NR13 => 0xff13,
            Reg::NR14 => 0xff14,
            Reg::NR21 => 0xff16,
            Reg::NR22 => 0xff17,
            Reg::NR23 => 0xff18,
            Reg::NR24 => 0xff19,
            Reg::NR30 => 0xff1a,
            Reg::NR31 => 0xff1b,
            Reg::NR32 => 0xff1c,
            Reg::NR33 => 0xff1d,
            Reg::NR34 => 0xff1e,
            Reg::NR41 => 0xff20,
            Reg::NR42 => 0xff21,
            Reg::NR43 => 0xff22,
            Reg::NR44 => 0xff23,
            Reg::NR50 => 0xff24,
            Reg::NR51 => 0xff25,
            Reg::NR52 => 0xff26,
            Reg::WPR => 0xff30,
            Reg::LCDC => 0xff40,
            Reg::STAT => 0xff41,
            Reg::SCY => 0xff42,
            Reg::SCX => 0xff43,
            Reg::LY => 0xff44,
            Reg::LYC => 0xff45,
            Reg::WY => 0xff4a,
            Reg::WX => 0xff4b,
            Reg::BGP => 0xff47,
            Reg::OBP0 => 0xff48,
            Reg::OBP1 => 0xff49,
            Reg::BCPS => 0xff68,
            Reg::BCPD => 0xff69,
            Reg::OCPS => 0xff6a,
            Reg::DMA => 0xff46,
            Reg::VBK => 0xff4f,
            Reg::HDMA1 => 0xff51,
            Reg::HDMA2 => 0xff52,
            Reg::HDMA3 => 0xff53,
            Reg::HDMA4 => 0xff54,
            Reg::HDMA5 => 0xff55,
            Reg::IF => 0xff0f,
            Reg::IE => 0xffff,
        }
    }

    #[verifier::when_used_as_spec(spec_addr)]
    pub fn addr(self) -> (r: usize)
        ensures
            r == self.spec_addr(),
            0xff00 <= r < ADDR_SPACE,
    {
        match self {
            Reg::JOYP => 0xff00,
            Reg::SB => 0xff01,
            Reg::SC => 0xff02,
            Reg::DIV => 0xff04,
            Reg::TIMA => 0xff05,
            Reg::TMA => 0xff06,
            Reg::TAC => 0xff07,
            Reg::NR10 => 0xff10,
            Reg::NR11 => 0xff11,
            Reg::NR12 => 0xff12,
            Reg::NR13 => 0xff13,
            Reg::NR14 => 0xff14,
            Reg::NR21 => 0xff16,
            Reg::NR22 => 0xff17,
            Reg::NR23 => 0xff18,
            Reg::NR24 => 0xff19,
            Reg::NR30 => 0xff1a,
            Reg::NR31 => 0xff1b,
            Reg::NR32 => 0xff1c,
            Reg::NR33 => 0xff1d,
            Reg::NR34 => 0xff1e,
            Reg::NR41 => 0xff20,
            Reg::NR42 => 0xff21,
            Reg::NR43 => 0xff22,
            Reg::NR44 => 0xff23,
            Reg::NR50 => 0xff24,
            Reg::NR51 => 0xff25,
            Reg::NR52 => 0xff26,
            Reg::WPR => 0xff30,
            Reg::LCDC => 0xff40,
            Reg::STAT => 0xff41,
            Reg::SCY => 0xff42,
            Reg::SCX => 0xff43,
            Reg::LY => 0xff44,
            Reg::LYC => 0xff45,
            Reg::WY => 0xff4a,
            Reg::WX => 0xff4b,
            Reg::BGP => 0xff47,
            Reg::OBP0 => 0xff48,
            Reg::OBP1 => 0xff49,
            Reg::BCPS => 0xff68,
            Reg::BCPD => 0xff69,
            Reg::OCPS => 0xff6a,
            Reg::DMA => 0xff46,
            Reg::VBK => 0xff4f,
            Reg::HDMA1 => 0xff51,
            Reg::HDMA2 => 0xff52,
            Reg::HDMA3 => 0xff53,
            Reg::HDMA4 => 0xff54,
            Reg::HDMA5 => 0xff55,
            Reg::IF => 0xff0f,
            Reg::IE => 0xffff,
        }
    }
}

impl RAM {
    /// Main RAM spans the whole address space.
    pub open spec fn wf(&self) -> bool {
        self.ram@.len() == ADDR_SPACE
    }

    /// Value of a register's cell.
    pub open spec fn reg(&self, r: Reg) -> u8 {
        self.ram@[r.spec_addr() as int]
    }

    pub fn new(ram_ex_size: usize) -> (r: RAM)
        ensures
            r.wf(),
            r.ram@ == Seq::new(ADDR_SPACE as nat, |i: int| 0u8),
            r.ram_ex@ == Seq::new(ram_ex_size as nat, |i: int| 0u8),
    {
        let ram: Vec<u8> = vec![0u8; ADDR_SPACE];
        let ram_ex: Vec<u8> = vec![0u8; ram_ex_size];
        let r = RAM { ram: ram, ram_ex: ram_ex };
        assert(r.ram@ =~= Seq::new(ADDR_SPACE as nat, |i: int| 0u8));
        assert(r.ram_ex@ =~= Seq::new(ram_ex_size as nat, |i: int| 0u8));
        r
    }

    pub fn read(&self, i: usize) -> (r: u8)
        requires
            i < self.ram@.len(),
        ensures
            r == self.ram@[i as int],
    {
        self.ram[i]
    }

    pub fn read_reg(&self, r: Reg) -> (v: u8)
        requires
            self.wf(),
        ensures
            v == self.reg(r),
    {
        self.ram[r.addr()]
    }

    pub fn read_ex(&self, i: usize) -> (r: u8)
        requires
            i < self.ram_ex@.len(),
        ensures
            r == self.ram_ex@[i as int],
    {
        self.ram_ex[i]
    }

    pub fn write(&mut self, i: usize, v: u8)
        requires
            i < old(self).ram@.len(),
        ensures
            final(self).ram@ == old(self).ram@.update(i as int, v),
            final(self).ram_ex@ == old(self).ram_ex@,
    {
        self.ram.set(i, v);
    }

    pub fn write_reg(&mut self, r: Reg, v: u8)
        requires
            old(self).wf(),
        ensures
            final(self).ram@ == old(self).ram@.update(r.spec_addr() as int, v),
            final(self).ram_ex@ == old(self).ram_ex@,
    {
        self.ram.set(r.addr(), v);
    }

    pub fn write_ex(&mut self, i: usize, v: u8)
        requires
            i < old(self).ram_ex@.len(),
        ensures
            final(self).ram@ == old(self).ram@,
            final(self).ram_ex@ == old(self).ram_ex@.update(i as int, v),
    {
        self.ram_ex.set(i, v);
    }

    /// Replaces a register's value `u` by `f(u)`.
    pub fn modify_reg<F: Fn(u8) -> u8>(&mut self, r: Reg, f: F)
        requires
            old(self).wf(),
            f.requires((old(self).reg(r),)),
        ensures
            f.ensures((old(self).reg(r),), final(self).reg(r)),
            final(self).ram@ == old(self).ram@.update(r.spec_addr() as int, final(self).reg(r)),
            final(self).ram_ex@ == old(self).ram_ex@,
    {
        let u = self.read_reg(r);
        let v = f(u);
        self.write_reg(r, v);
    }

    /// OAM DMA: copies the `DMA_LEN` bytes that start at `dma << 8` to OAM.
    pub fn transfer_dma(&mut self, dma: usize)
        requires
            old(self).wf(),
            dma < 0x100,
        ensures
            final(self).wf(),
            final(self).ram@ == dma_result(old(self).ram@, dma as int),
            final(self).ram_ex@ == old(self).ram_ex@,
    {
        let base: usize = dma * 0x100;
        let mut i: usize = 0;
        while i < DMA_LEN
            invariant
                self.wf(),
                i <= DMA_LEN,
                base == dma * 0x100,
                dma < 0x100,
                self.ram_ex@ == old(self).ram_ex@,
                forall|a: int|
                    0 <= a < ADDR_SPACE ==> #[trigger] self.ram@[a] == if OAM_START <= a < OAM_START + i {
                        old(self).ram@[base + a - OAM_START]
                    } else {
                        old(self).ram@[a]
                    },
            decreases DMA_LEN - i,
        {
            let v = self.read(base + i);
            self.write(OAM_START + i, v);
            i += 1;
        }
        assert(self.ram@ =~= dma_result(old(self).ram@, dma as int));
    }
}

/// Memory after an OAM DMA from page `dma`.
pub open spec fn dma_result(ram: Seq<u8>, dma: int) -> Seq<u8> {
    Seq::new(
        ram.len(),
        |a: int|
            if OAM_START <= a < OAM_START + DMA_LEN {
                ram[dma * 0x100 + a - OAM_START]
            } else {
                ram[a]
            },
    )
}

} // verus!
