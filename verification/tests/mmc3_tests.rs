use pico::cart::Mirroring;
use pico::mapper::mmc3::Mmc3Mapper;
use pico::mapper::{ChrSource, Mapper};

const PRG_BANK_SIZE: usize = 0x2000;
const CHR_BANK_SIZE_1K: usize = 0x0400;

fn patterned_prg(banks: usize) -> Vec<u8> {
    let mut data = vec![0u8; banks * PRG_BANK_SIZE];
    for bank in 0..banks {
        let start = bank * PRG_BANK_SIZE;
        for i in 0..PRG_BANK_SIZE {
            data[start + i] = bank as u8;
        }
    }
    data
}

#[test]
fn prg_bank_mode_switches_slots() {
    let prg_rom = patterned_prg(4);
    let chr_rom = vec![0; 0x2000];
    let mut mapper = Mmc3Mapper::new(prg_rom, chr_rom, Mirroring::Vertical);

    mapper.write_prg(0x8000, 0x06);
    mapper.write_prg(0x8001, 0x03);
    mapper.write_prg(0x8000, 0x07);
    mapper.write_prg(0x8001, 0x00);

    assert_eq!(mapper.read_prg(0x8000), 3);
    assert_eq!(mapper.read_prg(0xA000), 0);
    assert_eq!(mapper.read_prg(0xC000), 2);
    assert_eq!(mapper.read_prg(0xE000), 3);

    mapper.write_prg(0x8000, 0x46);
    mapper.write_prg(0x8001, 0x01);

    assert_eq!(mapper.read_prg(0x8000), 2);
    assert_eq!(mapper.read_prg(0xC000), 1);
}

#[test]
fn irq_counter_respects_latch_and_enable() {
    let prg_rom = patterned_prg(2);
    let chr_rom = vec![0; 0x2000];
    let mut mapper = Mmc3Mapper::new(prg_rom, chr_rom, Mirroring::Horizontal);

    mapper.write_prg(0xC000, 1);
    mapper.write_prg(0xC001, 0);
    mapper.write_prg(0xE001, 0);

    mapper.handle_scanline(true);
    assert!(mapper.poll_irq().is_none());

    mapper.handle_scanline(true);
    assert!(mapper.poll_irq().is_some());

    mapper.write_prg(0xE000, 0);
    assert!(mapper.poll_irq().is_none());

    mapper.write_prg(0xE001, 0);
    mapper.write_prg(0xC001, 0);
    mapper.handle_scanline(false);
    mapper.handle_scanline(true);
    assert!(mapper.poll_irq().is_none());
    mapper.handle_scanline(true);
    assert!(mapper.poll_irq().is_some());
}

#[test]
fn irq_disable_does_not_reset_counter() {
    let prg_rom = patterned_prg(2);
    let chr_rom = vec![0; 0x2000];
    let mut mapper = Mmc3Mapper::new(prg_rom, chr_rom, Mirroring::Vertical);

    mapper.write_prg(0xC000, 2);
    mapper.write_prg(0xC001, 0);
    mapper.write_prg(0xE001, 0);

    mapper.handle_scanline(true); // counter reloads to 2
    mapper.handle_scanline(true); // counter decrements to 1
    mapper.write_prg(0xE000, 0);
    assert!(mapper.poll_irq().is_none());

    mapper.write_prg(0xE001, 0);
    mapper.handle_scanline(true);
    assert!(mapper.poll_irq().is_some());
}

fn patterned_chr() -> Vec<u8> {
    let mut chr = vec![0u8; 0x2000];
    for bank in 0..8 {
        let start = bank * CHR_BANK_SIZE_1K;
        for i in 0..CHR_BANK_SIZE_1K {
            chr[start + i] = bank as u8;
        }
    }
    chr
}

fn select_register(mapper: &mut Mmc3Mapper, reg: u8) {
    mapper.write_prg(0x8000, (reg & 0x07) as u8);
}

#[test]
fn chr_banks_map_correct_regions() {
    let prg_rom = vec![0; 0x8000];
    let chr_rom = patterned_chr();
    let mut mapper = Mmc3Mapper::new(prg_rom, chr_rom, Mirroring::Vertical);

    select_register(&mut mapper, 0);
    mapper.write_prg(0x8001, 0x02);
    assert_eq!(mapper.read_chr(0x0000, ChrSource::Cpu), 2);
    assert_eq!(mapper.read_chr(0x0400, ChrSource::Cpu), 3);

    select_register(&mut mapper, 2);
    mapper.write_prg(0x8001, 0x07);
    assert_eq!(mapper.read_chr(0x1000, ChrSource::Cpu), 7);

    select_register(&mut mapper, 3);
    mapper.write_prg(0x8001, 0x01);
    assert_eq!(mapper.read_chr(0x1400, ChrSource::Cpu), 1);
}

#[test]
fn chr_inversion_swaps_regions() {
    let prg_rom = vec![0; 0x8000];
    let chr_rom = patterned_chr();
    let mut mapper = Mmc3Mapper::new(prg_rom, chr_rom, Mirroring::Vertical);

    mapper.write_prg(0x8000, 0x80 | 0x00);
    mapper.write_prg(0x8001, 0x04);
    assert_eq!(mapper.read_chr(0x1000, ChrSource::Cpu), 4);

    mapper.write_prg(0x8000, 0x80 | 0x01);
    mapper.write_prg(0x8001, 0x06);
    assert_eq!(mapper.read_chr(0x1800, ChrSource::Cpu), 6);
    assert_eq!(mapper.read_chr(0x1C00, ChrSource::Cpu), 7);

    mapper.write_prg(0x8000, 0x82);
    mapper.write_prg(0x8001, 0x03);
    assert_eq!(mapper.read_chr(0x0000, ChrSource::Cpu), 3);
}
