use nes_core::cartridge::{Cartridge, ICartridge, LoadError, Mirror, RomImage};

fn image(prg_banks: u8, chr_banks: u8, mapper_id: u8) -> RomImage {
    let mut prg_rom = vec![0u8; prg_banks as usize * 16384];
    for (i, byte) in prg_rom.iter_mut().enumerate() {
        *byte = (i % 251) as u8;
    }
    let mut chr_rom = vec![0u8; chr_banks as usize * 8192];
    for (i, byte) in chr_rom.iter_mut().enumerate() {
        *byte = (i % 241) as u8;
    }
    RomImage { prg_rom, chr_rom, mapper_id, prg_banks, chr_banks, mirror: Mirror::Horizontal }
}

fn container(prg_banks: u8, chr_banks: u8, flags6: u8, flags7: u8) -> Vec<u8> {
    let mut bytes = vec![0x4E, 0x45, 0x53, 0x1A, prg_banks, chr_banks, flags6, flags7];
    bytes.extend_from_slice(&[0u8; 8]);
    if flags6 & 0x04 != 0 {
        bytes.extend_from_slice(&[0xEE; 512]);
    }
    for i in 0..prg_banks as usize * 16384 {
        bytes.push((i % 251) as u8);
    }
    for i in 0..chr_banks as usize * 8192 {
        bytes.push((i % 241) as u8);
    }
    bytes
}

#[test]
fn load_keeps_the_image() {
    let cartridge = Cartridge::load(image(2, 1, 0)).unwrap();
    assert_eq!(cartridge.prg_memory.len(), 32768);
    assert_eq!(cartridge.chr_memory.len(), 8192);
    assert_eq!(cartridge.mapper_id, 0);
    assert_eq!(cartridge.prg_banks, 2);
    assert_eq!(cartridge.chr_banks, 1);
    assert_eq!(cartridge.mirror, Mirror::Horizontal);
    assert!(cartridge.image_valid);
    assert_eq!(cartridge.mapper.prg_banks, 2);
    assert_eq!(cartridge.prg_memory[300], (300 % 251) as u8);
}

#[test]
fn load_refuses_an_unknown_mapper() {
    assert_eq!(Cartridge::load(image(1, 1, 1)).err(), Some(LoadError::UnknownMapper(1)));
    assert_eq!(Cartridge::load(image(1, 1, 200)).err(), Some(LoadError::UnknownMapper(200)));
}

#[test]
fn load_reports_an_unknown_mapper_before_a_bad_size() {
    let mut bad = image(1, 1, 7);
    bad.prg_rom.pop();
    assert_eq!(Cartridge::load(bad).err(), Some(LoadError::UnknownMapper(7)));
}

#[test]
fn load_refuses_memories_that_do_not_fit_the_banks() {
    let mut short = image(1, 1, 0);
    short.prg_rom.pop();
    assert_eq!(Cartridge::load(short).err(), Some(LoadError::Malformed));
    let mut long = image(1, 1, 0);
    long.chr_rom.push(0);
    assert_eq!(Cartridge::load(long).err(), Some(LoadError::Malformed));
    let mut miscounted = image(2, 1, 0);
    miscounted.prg_banks = 1;
    assert_eq!(Cartridge::load(miscounted).err(), Some(LoadError::Malformed));
}

#[test]
fn load_accepts_an_image_without_pattern_banks() {
    let cartridge = Cartridge::load(image(1, 0, 0)).unwrap();
    assert_eq!(cartridge.prg_banks, 1);
    assert_eq!(cartridge.chr_banks, 0);
    assert_eq!(cartridge.prg_memory.len(), 16384);
    assert_eq!(cartridge.chr_memory.len(), 0);
    assert!(cartridge.image_valid);
    assert!(cartridge.is_well_formed());
    assert_eq!(cartridge.cpu_read(0x8000), Some(0));
    assert_eq!(cartridge.cpu_read(0xC001), Some(1));
    assert_eq!(cartridge.ppu_read(0x0000), None);
    assert_eq!(cartridge.ppu_read(0x1FFF), None);
    assert_eq!(cartridge.ppu_read(0x2000), None);
}

#[test]
fn load_accepts_an_image_without_program_banks() {
    let mut cartridge = Cartridge::load(image(0, 1, 0)).unwrap();
    assert_eq!(cartridge.prg_banks, 0);
    assert_eq!(cartridge.prg_memory.len(), 0);
    assert!(cartridge.is_well_formed());
    assert_eq!(cartridge.cpu_read(0x8000), None);
    assert_eq!(cartridge.cpu_read(0xFFFF), None);
    assert_eq!(cartridge.cpu_read(0x0000), None);
    assert!(cartridge.cpu_write(0x8000, 0x12));
    assert!(!cartridge.cpu_write(0x7FFF, 0x12));
    assert_eq!(cartridge.ppu_read(0x0005), Some(5));
}

#[test]
fn load_accepts_an_image_without_any_bank() {
    let cartridge = Cartridge::load(image(0, 0, 0)).unwrap();
    assert!(cartridge.is_well_formed());
    assert_eq!(cartridge.cpu_read(0x8000), None);
    assert_eq!(cartridge.ppu_read(0x0000), None);
}

#[test]
fn load_refuses_a_count_that_the_bytes_do_not_fit() {
    let mut empty = image(1, 0, 0);
    empty.chr_banks = 1;
    assert_eq!(Cartridge::load(empty).err(), Some(LoadError::Malformed));
    let mut counted = image(1, 1, 0);
    counted.chr_banks = 0;
    assert_eq!(Cartridge::load(counted).err(), Some(LoadError::Malformed));
    let mut none = image(1, 1, 0);
    none.prg_banks = 0;
    assert_eq!(Cartridge::load(none).err(), Some(LoadError::Malformed));
}

#[test]
fn parse_reads_the_header() {
    let bytes = container(2, 1, 0x01, 0x00);
    let image = RomImage::parse(&bytes).unwrap();
    assert_eq!(image.prg_banks, 2);
    assert_eq!(image.chr_banks, 1);
    assert_eq!(image.mapper_id, 0);
    assert_eq!(image.mirror, Mirror::Vertical);
    assert_eq!(image.prg_rom.len(), 32768);
    assert_eq!(image.chr_rom.len(), 8192);
    assert_eq!(image.prg_rom[0], 0);
    assert_eq!(image.prg_rom[252], 1);
    assert_eq!(image.chr_rom[242], 1);
}

#[test]
fn parse_puts_the_mapper_nibbles_together() {
    let image = RomImage::parse(&container(1, 1, 0x40, 0x20)).unwrap();
    assert_eq!(image.mapper_id, 0x24);
    assert_eq!(image.mirror, Mirror::Horizontal);
    let image = RomImage::parse(&container(1, 1, 0xF1, 0xFF)).unwrap();
    assert_eq!(image.mapper_id, 0xFF);
    assert_eq!(image.mirror, Mirror::Vertical);
    let image = RomImage::parse(&container(1, 1, 0x0F, 0x0F)).unwrap();
    assert_eq!(image.mapper_id, 0x00);
}

#[test]
fn parse_skips_the_trainer() {
    let bytes = container(1, 1, 0x04, 0x00);
    assert_eq!(bytes.len(), 16 + 512 + 16384 + 8192);
    let image = RomImage::parse(&bytes).unwrap();
    assert_eq!(image.prg_rom.len(), 16384);
    assert_eq!(image.prg_rom[0], 0);
    assert_eq!(image.prg_rom[1], 1);
    assert_eq!(image.chr_rom[5], 5);
}

#[test]
fn parse_ignores_the_signature_and_what_follows_the_banks() {
    let mut bytes = container(1, 1, 0x00, 0x00);
    bytes[0] = 0;
    bytes[1] = 0;
    bytes[2] = 0;
    bytes[3] = 0;
    bytes.extend_from_slice(&[0xAB; 100]);
    let image = RomImage::parse(&bytes).unwrap();
    assert_eq!(image.prg_rom.len(), 16384);
    assert_eq!(image.chr_rom.len(), 8192);
    assert_eq!(image.chr_rom[8191], (8191 % 241) as u8);
}

#[test]
fn parse_accepts_a_header_without_banks() {
    let image = RomImage::parse(&container(0, 0, 0x00, 0x00)).unwrap();
    assert_eq!(image.prg_rom.len(), 0);
    assert_eq!(image.chr_rom.len(), 0);
}

#[test]
fn parse_refuses_a_short_container() {
    assert_eq!(RomImage::parse(&[]).err(), Some(LoadError::Malformed));
    assert_eq!(RomImage::parse(&[0x4E, 0x45, 0x53, 0x1A, 1, 1]).err(), Some(LoadError::Malformed));
    let mut bytes = container(1, 1, 0x00, 0x00);
    bytes.pop();
    assert_eq!(RomImage::parse(&bytes).err(), Some(LoadError::Malformed));
    let mut bytes = container(1, 1, 0x04, 0x00);
    bytes.truncate(16 + 16384 + 8192);
    assert_eq!(RomImage::parse(&bytes).err(), Some(LoadError::Malformed));
}

#[test]
fn new_makes_a_cartridge_from_a_container() {
    let cartridge = Cartridge::new(&container(1, 1, 0x01, 0x00)).unwrap();
    assert_eq!(cartridge.prg_banks, 1);
    assert_eq!(cartridge.chr_banks, 1);
    assert_eq!(cartridge.mirror, Mirror::Vertical);
    assert_eq!(cartridge.cpu_read(0x8001), Some(1));
    assert_eq!(cartridge.cpu_read(0xC001), Some(1));
}

#[test]
fn new_reports_each_error() {
    assert_eq!(Cartridge::new(&[1, 2, 3]).err(), Some(LoadError::Malformed));
    assert_eq!(
        Cartridge::new(&container(1, 1, 0x10, 0x00)).err(),
        Some(LoadError::UnknownMapper(1))
    );
    assert_eq!(
        Cartridge::new(&container(1, 1, 0x20, 0x40)).err(),
        Some(LoadError::UnknownMapper(0x42))
    );
    let mut short = container(1, 0, 0x00, 0x00);
    short.pop();
    assert_eq!(Cartridge::new(&short).err(), Some(LoadError::Malformed));
}

#[test]
fn new_accepts_a_container_without_pattern_banks() {
    let cartridge = Cartridge::new(&container(1, 0, 0x01, 0x00)).unwrap();
    assert_eq!(cartridge.prg_banks, 1);
    assert_eq!(cartridge.chr_banks, 0);
    assert_eq!(cartridge.mapper_id, 0);
    assert_eq!(cartridge.mirror, Mirror::Vertical);
    assert_eq!(cartridge.prg_memory.len(), 16384);
    assert!(cartridge.chr_memory.is_empty());
    assert!(cartridge.image_valid);
    assert_eq!(cartridge.cpu_read(0x8002), Some(2));
    assert_eq!(cartridge.ppu_read(0x0002), None);
    let bare = Cartridge::new(&container(0, 0, 0x00, 0x00)).unwrap();
    assert_eq!(bare.cpu_read(0x8000), None);
}

#[test]
fn processor_reads_go_through_the_mapper() {
    let one = Cartridge::load(image(1, 1, 0)).unwrap();
    assert_eq!(one.cpu_read(0x7FFF), None);
    assert_eq!(one.cpu_read(0x8000), Some(0));
    assert_eq!(one.cpu_read(0x8100), Some((0x100 % 251) as u8));
    assert_eq!(one.cpu_read(0xC100), Some((0x100 % 251) as u8));
    assert_eq!(one.cpu_read(0xFFFF), Some((0x3FFF % 251) as u8));
    let two = Cartridge::load(image(2, 1, 0)).unwrap();
    assert_eq!(two.cpu_read(0xC100), Some((0x4100 % 251) as u8));
    assert_eq!(two.cpu_read(0xFFFF), Some((0x7FFF % 251) as u8));
}

#[test]
fn picture_unit_reads_go_through_the_mapper() {
    let cartridge = Cartridge::load(image(1, 1, 0)).unwrap();
    assert_eq!(cartridge.ppu_read(0x0000), Some(0));
    assert_eq!(cartridge.ppu_read(0x1FFF), Some((0x1FFF % 241) as u8));
    assert_eq!(cartridge.ppu_read(0x2000), None);
}

#[test]
fn program_memory_claims_writes_and_keeps_its_bytes() {
    let mut cartridge = Cartridge::load(image(1, 1, 0)).unwrap();
    assert!(cartridge.cpu_write(0x8000, 0xAA));
    assert!(cartridge.cpu_write(0xFFFF, 0xAA));
    assert!(!cartridge.cpu_write(0x7FFF, 0xAA));
    assert!(!cartridge.cpu_write(0x0000, 0xAA));
    assert_eq!(cartridge.cpu_read(0x8000), Some(0));
    assert_eq!(cartridge.cpu_read(0xFFFF), Some((0x3FFF % 251) as u8));
}

#[test]
fn pattern_memory_claims_no_write() {
    let mut cartridge = Cartridge::load(image(1, 1, 0)).unwrap();
    assert!(!cartridge.ppu_write(0x0000, 0xAA));
    assert!(!cartridge.ppu_write(0x1FFF, 0xAA));
    assert!(!cartridge.ppu_write(0x2000, 0xAA));
    assert_eq!(cartridge.ppu_read(0x0000), Some(0));
}
