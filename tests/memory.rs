use gbe_rs::logger::Logger;
use gbe_rs::mbc::{select_mbc, MBC1};
use gbe_rs::ram::{Reg, RAM};
use gbe_rs::rom::{MBCType, ROM};

fn image(len: usize, cart: u8, rom_code: u8, ram_code: u8) -> Vec<u8> {
    let mut raw = vec![0u8; len];
    raw[0x147] = cart;
    raw[0x148] = rom_code;
    raw[0x149] = ram_code;
    raw
}

#[test]
fn bank_switch() {
    let mut raw = image(0x20000, 0x01, 0x02, 0x00);
    raw[0x4000] = 0x11;
    raw[0xc000] = 0x33;
    let mut mbc = select_mbc(ROM::new(raw));
    mbc.write(0x2000, 0x01);
    assert_eq!(mbc.read(0x4000), 0x11);
    mbc.write(0x2000, 0x03);
    assert_eq!(mbc.read(0x4000), 0x33);
    assert_eq!(mbc.get_rom_bank(), 3 << 14);
    mbc.write(0x2000, 0x00);
    assert_eq!(mbc.rom_bank1, 1);
    assert_eq!(mbc.read(0x4000), 0x11);
}

#[test]
fn bank_registers_stay_in_range() {
    let mut mbc = select_mbc(ROM::new(image(0x8000, 0x01, 0x00, 0x00)));
    for v in 0..=255u8 {
        mbc.write(0x2000, v);
        mbc.write(0x4000, v);
        assert!(mbc.rom_bank1 >= 1 && mbc.rom_bank1 <= 31);
        assert!(mbc.rom_bank2 <= 3);
    }
    mbc.write(0x2000, 0x20);
    assert_eq!(mbc.rom_bank1, 1);
}

#[test]
fn bank_past_end_reads_open_bus() {
    let mut mbc = select_mbc(ROM::new(image(0x8000, 0x01, 0x00, 0x00)));
    mbc.write(0x2000, 0x05);
    assert_eq!(mbc.read(0x4000), 0xff);
}

#[test]
fn oam_dma_copies_page() {
    let mut mbc = select_mbc(ROM::new(image(0x8000, 0x01, 0x00, 0x00)));
    for i in 0..0xa0u16 {
        mbc.write(0xc100 + i, (i as u8).wrapping_mul(7).wrapping_add(1));
    }
    mbc.write(0xff46, 0xc1);
    for i in 0..0xa0u16 {
        assert_eq!(mbc.read(0xfe00 + i), mbc.read(0xc100 + i));
    }
    assert_eq!(mbc.read_reg(Reg::DMA), 0xc1);
}

#[test]
fn external_ram_gate() {
    let mut mbc = select_mbc(ROM::new(image(0x8000, 0x03, 0x00, 0x02)));
    assert_eq!(mbc.ram.ram_ex.len(), 0x2000);
    mbc.write(0xa010, 0x99);
    assert_eq!(mbc.read(0xa010), 0x00);
    mbc.write(0x0000, 0x0a);
    assert!(mbc.ram_ex_enable);
    mbc.write(0xa010, 0x99);
    assert_eq!(mbc.read(0xa010), 0x99);
    mbc.write(0x0000, 0x00);
    assert_eq!(mbc.read(0xa010), 0x00);
    mbc.write(0x0000, 0x1a);
    assert_eq!(mbc.read(0xa010), 0x99);
}

#[test]
fn vram_blocking_discards_writes() {
    let mut mbc = MBC1::new(ROM::new(image(0x8000, 0x01, 0x00, 0x00)));
    mbc.set_vram_blocking(true);
    mbc.write(0x8000, 0x42);
    assert_eq!(mbc.read(0x8000), 0x00);
    mbc.set_vram_blocking(false);
    mbc.write(0x8000, 0x42);
    assert_eq!(mbc.read(0x8000), 0x42);
}

#[test]
fn rom_header_fields() {
    let mut raw = image(0x8000, 0x03, 0x02, 0x03);
    for (k, b) in b"TETRIS".iter().enumerate() {
        raw[0x134 + k] = *b;
    }
    raw[0x14d] = 0x0a;
    raw[0x14e] = 0x12;
    raw[0x14f] = 0x34;
    let rom = ROM::new(raw);
    assert!(rom.title.starts_with("TETRIS"));
    assert_eq!(rom.title.chars().count(), 16);
    assert!(rom.rom_type.mbc_type == MBCType::MBC1);
    assert!(rom.rom_type.ram_ex && rom.rom_type.battery);
    assert_eq!(rom.rom_size, 0x20000);
    assert_eq!(rom.ram_ex_size, 0x8000);
    assert_eq!(rom.header_checksum, 0x0a);
    assert_eq!(rom.global_checksum, 0x1234);
    assert_eq!(rom.read(0x14e), 0x12);
}

#[test]
fn rom_only_cartridge() {
    let rom = ROM::new(image(0x8000, 0x00, 0x00, 0x09));
    assert!(rom.rom_type.mbc_type == MBCType::RomOnly);
    assert_eq!(rom.ram_ex_size, 0);
    assert_eq!(rom.rom_size, 0x8000);
}

#[test]
fn ram_accessors() {
    let mut ram = RAM::new(0x10);
    ram.write(0xc000, 7);
    assert_eq!(ram.read(0xc000), 7);
    ram.write_reg(Reg::LY, 100);
    assert_eq!(ram.read_reg(Reg::LY), 100);
    assert_eq!(ram.read(0xff44), 100);
    ram.modify_reg(Reg::LY, |u| u + 1);
    assert_eq!(ram.read_reg(Reg::LY), 101);
    ram.write_ex(3, 9);
    assert_eq!(ram.read_ex(3), 9);
    for i in 0..0x100usize {
        ram.write(0xd000 + i, i as u8);
    }
    ram.transfer_dma(0xd0);
    assert_eq!(ram.read(0xfe05), 5);
    assert_eq!(ram.read(0xfe9f), 0x9f);
    assert_eq!(ram.read(0xfea0), 0);
}

#[test]
fn logger_ring_wraps() {
    let mut log: Logger<u8> = Logger::new(3);
    log.write(1);
    log.write(2);
    assert_eq!(*log.read(), 2);
    assert_eq!(log.reads(1), &[1, 2]);
    log.write(3);
    assert_eq!(*log.read(), 3);
    assert!(log.overflow);
    log.logging = false;
    log.write(4);
    assert_eq!(*log.read(), 3);
}
