//! A cartridge image and the header fields that the core reads from it.
use vstd::prelude::*;
use vstd::arithmetic::power2::pow2;
use crate::bits::from_be_bytes;

verus! {

/// Offset of the first byte past the cartridge header.
pub const HEADER_END: usize = 0x150;

#[derive(Debug)]
pub struct ROMType {
    pub mbc_type: MBCType,
    pub ram_ex: bool,
    pub battery: bool,
    pub timer: bool,
}

#[derive(Debug, PartialEq, Eq, Structural)]
pub enum MBCType {
    RomOnly,
    MBC1,
}

#[derive(Debug)]
pub struct ROM {
    pub title: String,
    pub manufacturer_code: Vec<u8>,
    pub cgb_flag: u8,
    pub new_licensee_code: Vec<u8>,
    pub sgb_flag: u8,
    pub rom_type: ROMType,
    pub rom_size: usize,
    pub ram_ex_size: usize,
    pub destination_code: u8,
    pub old_licensee_code: u8,
    pub mask_rom_version_number: u8,
    pub header_checksum: u8,
    pub global_checksum: u16,
    pub raw: Vec<u8>,
}

/// The controller and extras that a cartridge-type byte announces.
pub open spec fn spec_rom_type(code: u8) -> ROMType {
    match code {
        0x00 => ROMType { mbc_type: MBCType::RomOnly, ram_ex: false, battery: false, timer: false },
        0x01 => ROMType { mbc_type: MBCType::MBC1, ram_ex: false, battery: false, timer: false },
        0x02 => ROMType { mbc_type: MBCType::MBC1, ram_ex: true, battery: false, timer: false },
        0x03 => ROMType { mbc_type: MBCType::MBC1, ram_ex: true, battery: true, timer: false },
        0x08 => ROMType { mbc_type: MBCType::RomOnly, ram_ex: true, battery: false, timer: false },
        0x09 => ROMType { mbc_type: MBCType::RomOnly, ram_ex: true, battery: true, timer: false },
        _ => ROMType { mbc_type: MBCType::RomOnly, ram_ex: false, battery: false, timer: false },
    }
}

/// Bytes of external RAM that a RAM-size code announces.
pub open spec fn spec_ram_ex_size(code: u8) -> usize {
    match code {
        0x2 => 0x2000,
        0x3 => 0x8000,
        0x4 => 0x20000,
        0x5 => 0x10000,
        _ => 0,
    }
}

/// The header title: each byte of `raw[0x134..=0x143]` read as a Latin-1 character.
pub open spec fn spec_title(raw: Seq<u8>) -> Seq<char> {
    Seq::new(16, |i: int| raw[0x134 + i] as char)
}

fn rom_type_of(code: u8) -> (r: ROMType)
    ensures
        r == spec_rom_type(code),
{
    match code {
        0x00 => ROMType { mbc_type: MBCType::RomOnly, ram_ex: false, battery: false, timer: false },
        0x01 => ROMType { mbc_type: MBCType::MBC1, ram_ex: false, battery: false, timer: false },
        0x02 => ROMType { mbc_type: MBCType::MBC1, ram_ex: true, battery: false, timer: false },
        0x03 => ROMType { mbc_type: MBCType::MBC1, ram_ex: true, battery: true, timer: false },
        0x08 => ROMType { mbc_type: MBCType::RomOnly, ram_ex: true, battery: false, timer: false },
        0x09 => ROMType { mbc_type: MBCType::RomOnly, ram_ex: true, battery: true, timer: false },
        _ => ROMType { mbc_type: MBCType::RomOnly, ram_ex: false, battery: false, timer: false },
    }
}

fn ram_ex_size_of(code: u8) -> (r: usize)
    ensures
        r == spec_ram_ex_size(code),
{
    match code {
        0x2 => 0x2000,
        0x3 => 0x8000,
        0x4 => 0x20000,
        0x5 => 0x10000,
        _ => 0,
    }
}

/// Relies on `String::push`: appends one character.
#[verifier::external_body]
fn push_char(s: &mut String, c: char)
    ensures
        final(s)@ == old(s)@.push(c),
{
    s.push(c);
}

/// The bytes `raw[start..end]`.
fn copy_range(raw: &Vec<u8>, start: usize, end: usize) -> (r: Vec<u8>)
    requires
        start <= end <= raw@.len(),
    ensures
        r@ == raw@.subrange(start as int, end as int),
{
    let mut r: Vec<u8> = Vec::new();
    let mut i: usize = start;
    while i < end
        invariant
            start <= i <= end <= raw@.len(),
            r@ == raw@.subrange(start as int, i as int),
        decreases end - i,
    {
        r.push(raw[i]);
        i += 1;
        assert(r@ =~= raw@.subrange(start as int, i as int));
    }
    r
}

impl ROM {
    /// Parses the header of a cartridge image. The image must hold the whole
    /// header, and its ROM-size code must give a size that fits in `usize`.
    pub fn new(raw: Vec<u8>) -> (r: ROM)
        requires
            raw@.len() >= HEADER_END,
            raw@[0x148] <= 16,
        ensures
            r.raw@ == raw@,
            r.title@ == spec_title(raw@),
            r.manufacturer_code@ == raw@.subrange(0x13f, 0x143),
            r.cgb_flag == raw@[0x143],
            r.new_licensee_code@ == raw@.subrange(0x144, 0x146),
            r.sgb_flag == raw@[0x146],
            r.rom_type == spec_rom_type(raw@[0x147]),
            r.rom_size == 0x8000 * pow2(raw@[0x148] as nat),
            r.ram_ex_size == spec_ram_ex_size(raw@[0x149]),
            r.destination_code == raw@[0x14a],
            r.old_licensee_code == raw@[0x14b],
            r.mask_rom_version_number == raw@[0x14c],
            r.header_checksum == raw@[0x14d],
            r.global_checksum == raw@[0x14e] as u16 * 0x100 + raw@[0x14f] as u16,
    {
        let mut title = String::new();
        let mut i: usize = 0x134;
        while i <= 0x143
            invariant
                0x134 <= i <= 0x144,
                raw@.len() >= HEADER_END,
                title@ == spec_title(raw@).subrange(0, i - 0x134),
            decreases 0x144 - i,
        {
            push_char(&mut title, raw[i] as char);
            i += 1;
            assert(title@ =~= spec_title(raw@).subrange(0, i - 0x134));
        }
        assert(title@ =~= spec_title(raw@));
        let code = raw[0x148];
        let rom_size = shifted_size(code);
        ROM {
            title: title,
            manufacturer_code: copy_range(&raw, 0x13f, 0x143),
            cgb_flag: raw[0x143],
            new_licensee_code: copy_range(&raw, 0x144, 0x146),
            sgb_flag: raw[0x146],
            rom_type: rom_type_of(raw[0x147]),
            rom_size: rom_size,
            ram_ex_size: ram_ex_size_of(raw[0x149]),
            destination_code: raw[0x14a],
            old_licensee_code: raw[0x14b],
            mask_rom_version_number: raw[0x14c],
            header_checksum: raw[0x14d],
            global_checksum: from_be_bytes(raw[0x14e], raw[0x14f]),
            raw: raw,
        }
    }

    pub fn read(&self, i: usize) -> (r: u8)
        requires
            i < self.raw@.len(),
        ensures
            r == self.raw@[i as int],
    {
        self.raw[i]
    }
}

/// `0x8000 * (1 << code)`.
fn shifted_size(code: u8) -> (r: usize)
    requires
        code <= 16,
    ensures
        r == 0x8000 * pow2(code as nat),
{
    let mut r: usize = 0x8000;
    let mut k: u8 = 0;
    proof {
        vstd::arithmetic::power2::lemma2_to64();
    }
    while k < code
        invariant
            k <= code <= 16,
            r == 0x8000 * pow2(k as nat),
        decreases code - k,
    {
        proof {
            vstd::arithmetic::power2::lemma_pow2_unfold((k + 1) as nat);
            vstd::arithmetic::power2::lemma_pow2_strictly_increases(k as nat, 16);
            vstd::arithmetic::power2::lemma2_to64();
        }
        r = r * 2;
        k += 1;
    }
    r
}

} // verus!
