use nes_core::cartridge::LoadError;
use nes_core::cartridge::Mirroring;
use nes_core::cartridge::Rom;

fn image(prg_banks: u8, chr_banks: u8, ctrl1: u8, ctrl2: u8) -> Vec<u8> {
    let mut raw = vec![0x4e, 0x45, 0x53, 0x1a, prg_banks, chr_banks, ctrl1, ctrl2];
    raw.extend(vec![0u8; 8]);
    raw.extend(vec![0u8; prg_banks as usize * 0x4000]);
    raw.extend(vec![0u8; chr_banks as usize * 0x2000]);
    raw
}

#[test]
fn load_minimal_image() {
    let raw = image(1, 1, 0, 0);
    let rom = Rom::new(&raw).unwrap();
    assert_eq!(rom.prg.len(), 0x4000);
    assert_eq!(rom.chr.len(), 0x2000);
    assert_eq!(rom.mapper, 0);
    assert_eq!(rom.mirroring, Mirroring::Horizontal);
}

#[test]
fn load_copies_declared_regions() {
    let mut raw = image(1, 1, 0, 0);
    raw[16] = 0xab; // first PRG byte
    raw[16 + 0x4000] = 0xcd; // first CHR byte
    let rom = Rom::new(&raw).unwrap();
    assert_eq!(rom.prg[0], 0xab);
    assert_eq!(rom.chr[0], 0xcd);
}

#[test]
fn wrong_magic_is_invalid_format() {
    let mut raw = image(1, 1, 0, 0);
    raw[0] = 0x4d;
    match Rom::new(&raw) {
        Err(LoadError::InvalidFormat) => {}
        other => panic!("expected InvalidFormat, got {:?}", other.map(|_| ())),
    }
}

#[test]
fn empty_buffer_is_invalid_format() {
    let raw: Vec<u8> = Vec::new();
    assert!(matches!(Rom::new(&raw), Err(LoadError::InvalidFormat)));
}

#[test]
fn short_header_is_truncated() {
    let raw = vec![0x4e, 0x45, 0x53, 0x1a, 1, 1];
    assert!(matches!(Rom::new(&raw), Err(LoadError::TruncatedImage)));
}

#[test]
fn missing_bank_bytes_is_truncated() {
    let mut raw = image(1, 1, 0, 0);
    raw.truncate(16 + 0x4000); // CHR bank missing
    assert!(matches!(Rom::new(&raw), Err(LoadError::TruncatedImage)));
}

#[test]
fn nonzero_mapper_is_unsupported() {
    let raw = image(1, 0, 0x10, 0); // mapper low nibble 1
    assert!(matches!(Rom::new(&raw), Err(LoadError::UnsupportedMapper)));
    let raw = image(1, 0, 0, 0x20); // mapper high nibble 2
    assert!(matches!(Rom::new(&raw), Err(LoadError::UnsupportedMapper)));
}

#[test]
fn later_container_revision_is_invalid_format() {
    let raw = image(1, 0, 0, 0x08); // revision bits nonzero
    assert!(matches!(Rom::new(&raw), Err(LoadError::InvalidFormat)));
}

#[test]
fn mirroring_flags_decode() {
    let raw = image(1, 0, 0x01, 0);
    assert_eq!(Rom::new(&raw).unwrap().mirroring, Mirroring::Vertical);
    let raw = image(1, 0, 0x08, 0);
    assert_eq!(Rom::new(&raw).unwrap().mirroring, Mirroring::FourScreen);
    let raw = image(1, 0, 0x09, 0); // four-screen wins over vertical
    assert_eq!(Rom::new(&raw).unwrap().mirroring, Mirroring::FourScreen);
}

#[test]
fn trainer_block_is_skipped() {
    let mut raw = vec![0x4e, 0x45, 0x53, 0x1a, 1, 0, 0x04, 0];
    raw.extend(vec![0u8; 8]);
    raw.extend(vec![0x55u8; 512]); // trainer, must not land in PRG
    let mut prg = vec![0u8; 0x4000];
    prg[0] = 0x99;
    raw.extend(prg);
    let rom = Rom::new(&raw).unwrap();
    assert_eq!(rom.prg.len(), 0x4000);
    assert_eq!(rom.prg[0], 0x99);
}

#[test]
fn trainer_flag_without_trainer_bytes_is_truncated() {
    let mut raw = vec![0x4e, 0x45, 0x53, 0x1a, 1, 0, 0x04, 0];
    raw.extend(vec![0u8; 8]);
    raw.extend(vec![0u8; 0x4000]); // PRG only, trainer bytes missing
    assert!(matches!(Rom::new(&raw), Err(LoadError::TruncatedImage)));
}
