use gb::mapper::{Error, HeaderField, Mapper};

fn image(mapper: u8, rom_code: u8, ram_code: u8) -> Vec<u8> {
    let banks = 2usize << rom_code;
    let mut rom = vec![0u8; banks * 0x4000];
    for b in 0..banks {
        rom[b * 0x4000] = b as u8;
        rom[b * 0x4000 + 0x3fff] = 0xa0 | (b as u8 & 0x0f);
    }
    rom[0x147] = mapper;
    rom[0x148] = rom_code;
    rom[0x149] = ram_code;
    seal(&mut rom);
    rom
}

fn seal(rom: &mut [u8]) {
    let mut sum = 0u8;
    for a in 0x134..=0x14c {
        sum = sum.wrapping_sub(rom[a]).wrapping_sub(1);
    }
    rom[0x14d] = sum;
}

fn error_of(rom: &[u8]) -> Error {
    match Mapper::from_bin(rom) {
        Ok(_) => panic!("the image was accepted"),
        Err(e) => e,
    }
}

#[test]
fn header_checksum_is_the_negated_sum() {
    let mut rom = vec![0u8; 0x8000];
    // 25 bytes: the sum of byte + 1 is 25 + 1 + 2 + 0x80
    rom[0x134] = 1;
    rom[0x140] = 2;
    rom[0x14c] = 0x80;
    rom[0x14d] = (256 - (25 + 1 + 2 + 0x80)) as u8;
    assert!(Mapper::from_bin(&rom).is_ok());
    rom[0x14d] = rom[0x14d].wrapping_add(1);
    assert_eq!(error_of(&rom), Error::InvalidCartridge(HeaderField::Checksum));
}

#[test]
fn short_image_is_refused() {
    assert_eq!(error_of(&[0u8; 0x14f]), Error::InvalidCartridge(HeaderField::Length));
    assert_eq!(error_of(&[]), Error::InvalidCartridge(HeaderField::Length));
}

#[test]
fn unknown_ram_size_codes_are_refused() {
    for code in [0x01u8, 0x06, 0x07, 0x80, 0xff] {
        let mut rom = image(0x01, 1, 0);
        rom[0x149] = code;
        seal(&mut rom);
        assert_eq!(error_of(&rom), Error::InvalidCartridge(HeaderField::RamSize));
    }
}

#[test]
fn every_rom_size_code_is_taken() {
    for code in 0..=255u8 {
        let mut rom = image(0x01, 1, 0);
        rom[0x148] = code;
        seal(&mut rom);
        let mut m = match Mapper::from_bin(&rom) {
            Ok(m) => m,
            Err(e) => panic!("size code {} refused: {:?}", code, e),
        };
        match &m {
            Mapper::Mbc1 { rom_mask, .. } => {
                let size = 0x8000u128 << code.min(100);
                let expected = if size - 1 <= usize::MAX as u128 {
                    (size - 1) as usize
                } else {
                    usize::MAX
                };
                assert_eq!(*rom_mask, expected, "size code {}", code);
            }
            _ => panic!("another controller"),
        }
        // the image has four banks, whatever the header says of the size
        m.store(0x2000, 3);
        assert_eq!(m.load(0x4000), if code == 0 { 1 } else { 3 });
        if code >= 2 {
            m.store(0x2000, 5);
            assert_eq!(m.load(0x4000), 0xff);
        }
    }
}

#[test]
fn unknown_controllers_are_refused() {
    for code in [0x04u8, 0x05, 0x0f, 0x10, 0x14, 0x18, 0x1f, 0x20, 0xfc, 0xff] {
        let mut rom = image(0x01, 1, 0);
        rom[0x147] = code;
        seal(&mut rom);
        assert_eq!(error_of(&rom), Error::UnsupportedMapper(code));
    }
    for code in [0x00u8, 0x01, 0x02, 0x03, 0x11, 0x12, 0x13, 0x19, 0x1a, 0x1b, 0x1c, 0x1d, 0x1e] {
        let mut rom = image(0x01, 0, 0);
        rom[0x147] = code;
        seal(&mut rom);
        assert!(Mapper::from_bin(&rom).is_ok(), "controller {:02x}", code);
    }
}

#[test]
fn rom_only_layout_is_checked() {
    assert_eq!(error_of(&image(0x00, 1, 0)), Error::InvalidCartridge(HeaderField::Layout));
    assert_eq!(error_of(&image(0x00, 0, 2)), Error::InvalidCartridge(HeaderField::Layout));
    let mut rom = image(0x00, 0, 0);
    rom.push(0);
    assert_eq!(error_of(&rom), Error::InvalidCartridge(HeaderField::Layout));
    assert!(Mapper::from_bin(&image(0x00, 0, 0)).is_ok());
}

#[test]
fn faults_are_named() {
    assert_eq!(HeaderField::Checksum.name(), "header checksum");
    assert_eq!(HeaderField::Length.name(), "image length");
    assert_eq!(HeaderField::RamSize.name(), "RAM size code");
    assert_eq!(HeaderField::Layout.name(), "ROM-only layout");
}

#[test]
fn ram_sizes_follow_the_code() {
    for (code, banks) in [(0x00u8, 0usize), (0x02, 1), (0x03, 4), (0x04, 16), (0x05, 8)] {
        let m = Mapper::from_bin(&image(0x03, 1, code)).unwrap();
        let ram = m.get_sram().unwrap();
        assert_eq!(ram.len(), banks * 0x2000);
        assert!(ram.iter().all(|b| *b == 0xff));
    }
}

#[test]
fn no_mbc_is_flat_and_has_no_save() {
    let mut m = Mapper::from_bin(&image(0x00, 0, 0)).unwrap();
    assert_eq!(m.load(0x0000), 0);
    assert_eq!(m.load(0x4000), 1);
    assert_eq!(m.load(0x7fff), 0xa1);
    m.store(0x2000, 0);
    m.store(0x0000, 0x0a);
    m.store(0xa000, 0x12);
    assert_eq!(m.load(0x4000), 1);
    assert_eq!(m.load(0xa000), 0xff);
    assert_eq!(m.load(0x8000), 0xff);
    assert!(m.get_sram().is_none());
    assert_eq!(m.set_sram(&[1, 2, 3]), Ok(()));
    assert!(m.get_sram().is_none());
    assert_eq!(m.load(0xa000), 0xff);
}

#[test]
fn mbc1_bank_zero_selects_bank_one() {
    let mut m = Mapper::from_bin(&image(0x01, 2, 0)).unwrap();
    assert_eq!(m.load(0x4000), 1);
    m.store(0x2000, 3);
    assert_eq!(m.load(0x4000), 3);
    assert_eq!(m.load(0x7fff), 0xa3);
    assert_eq!(m.load(0x0000), 0);
    m.store(0x2000, 0);
    assert_eq!(m.load(0x4000), 1);
    m.store(0x3fff, 0xe0);
    assert_eq!(m.load(0x4000), 1);
    // the bank wraps at the size of the ROM
    m.store(0x2000, 0x0a);
    assert_eq!(m.load(0x4000), 2);
}

#[test]
fn mbc1_ram_needs_enabling_and_banks_in_mode_one() {
    let mut m = Mapper::from_bin(&image(0x03, 1, 0x03)).unwrap();
    m.store(0xa000, 0x11);
    assert_eq!(m.load(0xa000), 0xff);
    m.store(0x0000, 0x3a);
    m.store(0xa000, 0x11);
    assert_eq!(m.load(0xa000), 0x11);
    m.store(0x4000, 2);
    assert_eq!(m.load(0xa000), 0x11);
    m.store(0x6000, 1);
    assert_eq!(m.load(0xa000), 0xff);
    m.store(0xa000, 0x22);
    assert_eq!(m.load(0xa000), 0x22);
    assert_eq!(m.get_sram().unwrap()[2 * 0x2000], 0x22);
    m.store(0x6000, 0);
    assert_eq!(m.load(0xa000), 0x11);
    m.store(0x0000, 0x00);
    assert_eq!(m.load(0xa000), 0xff);
}

#[test]
fn mbc3_banks() {
    let mut m = Mapper::from_bin(&image(0x13, 3, 0x03)).unwrap();
    assert_eq!(m.load(0x4000), 1);
    m.store(0x2000, 0);
    assert_eq!(m.load(0x4000), 1);
    m.store(0x3000, 0x0f);
    assert_eq!(m.load(0x4000), 0x0f);
    m.store(0x2000, 0x85);
    assert_eq!(m.load(0x4000), 5);
    m.store(0x0000, 0x0a);
    m.store(0x4000, 3);
    m.store(0xbfff, 0x33);
    m.store(0x4000, 8);
    assert_eq!(m.load(0xbfff), 0x33);
    assert_eq!(m.get_sram().unwrap()[3 * 0x2000 + 0x1fff], 0x33);
}

#[test]
fn mbc5_banks() {
    let mut m = Mapper::from_bin(&image(0x1b, 8, 0x04)).unwrap();
    assert_eq!(m.load(0x4000), 1);
    m.store(0x2000, 0);
    assert_eq!(m.load(0x4000), 0);
    assert_eq!(m.load(0x7fff), 0xa0);
    m.store(0x2000, 0x23);
    assert_eq!(m.load(0x4000), 0x23);
    m.store(0x3000, 0xff);
    assert_eq!(m.load(0x4000), 0x23);
    assert_eq!(m.load(0x7fff), 0xa3);
    m.store(0x2000, 0x00);
    assert_eq!(m.load(0x4000), 0x00);
    assert_eq!(m.load(0x4001), 0x00);
    m.store(0x3000, 0);
    m.store(0x0000, 0x0a);
    m.store(0x4000, 0x1f);
    m.store(0xa001, 0x55);
    assert_eq!(m.get_sram().unwrap()[15 * 0x2000 + 1], 0x55);
}

#[test]
fn restoring_the_save_changes_no_read() {
    let mut m = Mapper::from_bin(&image(0x1b, 1, 0x02)).unwrap();
    m.store(0x0000, 0x0a);
    for a in 0xa000u16..0xa100 {
        m.store(a, (a & 0xff) as u8 ^ 0x5a);
    }
    let before: Vec<u8> = (0..=0xffffu16).map(|a| m.load(a)).collect();
    let save = m.get_sram().unwrap().to_vec();
    assert_eq!(m.set_sram(&save), Ok(()));
    let after: Vec<u8> = (0..=0xffffu16).map(|a| m.load(a)).collect();
    assert_eq!(before, after);
    assert_eq!(
        m.set_sram(&save[..10]),
        Err(Error::SramSizeMismatch { expected: 0x2000, found: 10 })
    );
    let mut other = save.clone();
    other[5] = 0x99;
    assert_eq!(m.set_sram(&other), Ok(()));
    assert_eq!(m.load(0xa005), 0x99);
}

#[test]
fn first_controller_ram_bank_helper() {
    assert_eq!(gb::mapper::mbc1_get_ram_bank(3, true), 3);
    assert_eq!(gb::mapper::mbc1_get_ram_bank(3, false), 0);
}

#[test]
fn mbc1_upper_bank_bits_in_mode_zero() {
    // 64 banks: more than the five bits of the bank register reach
    let mut m = Mapper::from_bin(&image(0x01, 5, 0)).unwrap();
    m.store(0x2000, 2);
    m.store(0x4000, 1);
    assert_eq!(m.load(0x4000), 34);
    m.store(0x2000, 0);
    assert_eq!(m.load(0x4000), 33);
    m.store(0x6000, 1);
    assert_eq!(m.load(0x4000), 1);
    assert_eq!(m.load(0x0000), 0);
}
