use pico::cart::{Cart, Mirroring, RomFormat};

const PRG_ROM_PAGE_SIZE: usize = 16384;
const CHR_ROM_PAGE_SIZE: usize = 8192;

struct TestRom {
    header: Vec<u8>,
    trainer: Option<Vec<u8>>,
    pgp_rom: Vec<u8>,
    chr_rom: Vec<u8>,
}

fn create_rom(rom: TestRom) -> Vec<u8> {
    let mut result = Vec::with_capacity(
        rom.header.len()
            + rom.trainer.as_ref().map_or(0, |t| t.len())
            + rom.pgp_rom.len()
            + rom.chr_rom.len(),
    );

    result.extend(&rom.header);
    if let Some(t) = rom.trainer {
        result.extend(t);
    }
    result.extend(&rom.pgp_rom);
    result.extend(&rom.chr_rom);

    result
}

#[test]
fn test() {
    let test_rom = create_rom(TestRom {
        header: vec![
            0x4E, 0x45, 0x53, 0x1A, 0x02, 0x01, 0x31, 00, 00, 00, 00, 00, 00, 00, 00, 00,
        ],
        trainer: None,
        pgp_rom: vec![1; 2 * PRG_ROM_PAGE_SIZE],
        chr_rom: vec![2; 1 * CHR_ROM_PAGE_SIZE],
    });

    let rom: Cart = Cart::new(&test_rom).unwrap();

    assert_eq!(rom.screen_mirroring, Mirroring::Vertical);
}

#[test]
fn test_with_trainer() {
    let test_rom = create_rom(TestRom {
        header: vec![
            0x4E,
            0x45,
            0x53,
            0x1A,
            0x02,
            0x01,
            0x31 | 0b100,
            00,
            00,
            00,
            00,
            00,
            00,
            00,
            00,
            00,
        ],
        trainer: Some(vec![0; 512]),
        pgp_rom: vec![1; 2 * PRG_ROM_PAGE_SIZE],
        chr_rom: vec![2; 1 * CHR_ROM_PAGE_SIZE],
    });

    let rom: Cart = Cart::new(&test_rom).unwrap();

    assert_eq!(rom.screen_mirroring, Mirroring::Vertical);
}

#[test]
fn test_nes2_is_supported() {
    let test_rom = create_rom(TestRom {
        header: vec![
            0x4E, 0x45, 0x53, 0x1A, 0x01, 0x01, 0x01, 0x8, 00, 00, 00, 00, 00, 00, 00, 00,
        ],
        trainer: None,
        pgp_rom: vec![1; 1 * PRG_ROM_PAGE_SIZE],
        chr_rom: vec![2; 1 * CHR_ROM_PAGE_SIZE],
    });
    let rom = Cart::new(&test_rom);
    match rom {
        Result::Ok(cart) => {
            assert_eq!(cart.format, RomFormat::Nes2);
            assert!(cart.nes2_data.is_some());
        }
        Result::Err(_) => assert!(false, "should load NES 2.0 rom"),
    }
}

#[test]
fn rejects_bad_signature() {
    let mut raw = vec![0u8; 16 + 2 * PRG_ROM_PAGE_SIZE + CHR_ROM_PAGE_SIZE];
    raw[0] = 0x4E;
    raw[1] = 0x45;
    raw[2] = 0x53;
    raw[3] = 0x00;
    raw[4] = 0x02;
    raw[5] = 0x01;
    assert!(Cart::new(&raw).is_err());
}

#[test]
fn rejects_bad_ines_version() {
    let mut raw = vec![0u8; 16 + 2 * PRG_ROM_PAGE_SIZE + CHR_ROM_PAGE_SIZE];
    raw[0] = 0x4E;
    raw[1] = 0x45;
    raw[2] = 0x53;
    raw[3] = 0x1A;
    raw[4] = 0x02;
    raw[5] = 0x01;
    raw[7] = 0x04;
    assert!(Cart::new(&raw).is_err());
}

#[test]
fn rejects_unsupported_mapper() {
    let mut raw = vec![0u8; 16 + 2 * PRG_ROM_PAGE_SIZE + CHR_ROM_PAGE_SIZE];
    raw[0] = 0x4E;
    raw[1] = 0x45;
    raw[2] = 0x53;
    raw[3] = 0x1A;
    raw[4] = 0x02;
    raw[5] = 0x01;
    raw[6] = 0x50;
    assert!(Cart::new(&raw).is_err());
}

#[test]
fn rejects_truncated_rom() {
    let mut raw = vec![0u8; 16 + PRG_ROM_PAGE_SIZE];
    raw[0] = 0x4E;
    raw[1] = 0x45;
    raw[2] = 0x53;
    raw[3] = 0x1A;
    raw[4] = 0x02;
    raw[5] = 0x01;
    assert!(Cart::new(&raw).is_err());
}
