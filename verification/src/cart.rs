//! Cartridge loading: parses an iNES / NES 2.0 image from raw bytes,
//! classifies it and instantiates the right mapper variant.
//!
//! [`Cart::new`] accepts an image exactly when the signature is present, the
//! iNES version bits are clean, the mapper number is supported and the
//! declared program and character sizes fit inside the file.

use vstd::prelude::*;

use crate::mapper::cnrom::CnromMapper;
use crate::mapper::mmc1::Mmc1Mapper;
use crate::mapper::mmc3::Mmc3Mapper;
use crate::mapper::nrom::NromMapper;
use crate::mapper::uxrom::UxromMapper;
use crate::mapper::{AnyMapper, Mapper};

verus! {

pub const PRG_ROM_PAGE_SIZE: usize = 16384;
pub const CHR_ROM_PAGE_SIZE: usize = 8192;

#[derive(Clone, Copy, PartialEq, Eq, Structural, Debug)]
pub enum Mirroring {
    Vertical,
    Horizontal,
    FourScreen,
    SingleScreenLower,
    SingleScreenUpper,
}

#[derive(Clone, Copy, PartialEq, Eq, Structural, Debug)]
pub enum RomFormat {
    INes,
    Nes2,
}

#[derive(Clone, Copy, PartialEq, Eq, Structural, Debug)]
pub struct Nes2Data {
    pub submapper: u8,
    pub console_type: u8,
    pub timing: u8,
    pub prg_ram_size: usize,
    pub chr_ram_size: usize,
    pub misc_rom_count: u8,
    pub default_expansion_device: u8,
}

/// The file starts with the four iNES signature bytes.
pub open spec fn spec_has_signature(raw: Seq<u8>) -> bool {
    &&& raw.len() >= 16
    &&& raw[0] == 0x4E
    &&& raw[1] == 0x45
    &&& raw[2] == 0x53
    &&& raw[3] == 0x1A
}

/// Bits 2-3 of byte 7 mark a NES 2.0 image.
pub open spec fn spec_is_nes2(raw: Seq<u8>) -> bool {
    raw[7] & 0x0C == 0x08
}

/// For plain iNES the version bits of byte 7 must be zero.
pub open spec fn spec_ines_version_ok(raw: Seq<u8>) -> bool {
    spec_is_nes2(raw) || (raw[7] >> 2) & 0x03 == 0
}

pub open spec fn spec_mapper_number(raw: Seq<u8>) -> u8 {
    (raw[7] & 0xF0) | (raw[6] >> 4)
}

pub open spec fn spec_mirroring_of(raw: Seq<u8>) -> Mirroring {
    if raw[6] & 0x08 != 0 {
        Mirroring::FourScreen
    } else if raw[6] & 0x01 != 0 {
        Mirroring::Vertical
    } else {
        Mirroring::Horizontal
    }
}

/// NES 2.0 size field: either exponent-multiplier notation or a 12-bit page
/// count.
pub open spec fn spec_nes2_size(lsb: u8, msb_nibble: u8, exp_src: u8, page: int) -> int {
    if msb_nibble == 0x0F {
        ((1u64 << (((exp_src >> 2) % 64) as u64)) as int) * ((exp_src & 0x03) * 2 + 1)
    } else {
        (msb_nibble * 256 + lsb) * page
    }
}

pub open spec fn spec_prg_size(raw: Seq<u8>) -> int {
    if spec_is_nes2(raw) {
        spec_nes2_size(raw[4], (raw[9] >> 4) & 0x0F, raw[9], PRG_ROM_PAGE_SIZE as int)
    } else {
        raw[4] * PRG_ROM_PAGE_SIZE
    }
}

pub open spec fn spec_chr_size(raw: Seq<u8>) -> int {
    if spec_is_nes2(raw) {
        spec_nes2_size(raw[5], raw[9] & 0x0F, raw[5], CHR_ROM_PAGE_SIZE as int)
    } else {
        raw[5] * CHR_ROM_PAGE_SIZE
    }
}

pub open spec fn spec_trainer_size(raw: Seq<u8>) -> int {
    if raw[6] & 0x04 != 0 {
        512
    } else {
        0
    }
}

/// The declared layout fits inside the file.
pub open spec fn spec_layout_fits(raw: Seq<u8>) -> bool {
    16 + spec_trainer_size(raw) + spec_prg_size(raw) + spec_chr_size(raw) <= raw.len()
}

/// The program bytes of an image: after the 16-byte header and the optional
/// 512-byte trainer.
pub open spec fn spec_prg_slice(raw: Seq<u8>) -> Seq<u8> {
    raw.subrange(
        16 + spec_trainer_size(raw),
        16 + spec_trainer_size(raw) + spec_prg_size(raw),
    )
}

/// The character bytes of an image: after the program bytes.
pub open spec fn spec_chr_slice(raw: Seq<u8>) -> Seq<u8> {
    raw.subrange(
        16 + spec_trainer_size(raw) + spec_prg_size(raw),
        16 + spec_trainer_size(raw) + spec_prg_size(raw) + spec_chr_size(raw),
    )
}

/// Exactly the images the loader accepts.
pub open spec fn spec_cart_good(raw: Seq<u8>) -> bool {
    &&& spec_has_signature(raw)
    &&& spec_ines_version_ok(raw)
    &&& spec_mapper_number(raw) <= 4
    &&& spec_layout_fits(raw)
}

/// A copy of `src[start .. start + len]`.
fn copy_range(src: &Vec<u8>, start: usize, len: usize) -> (r: Vec<u8>)
    requires
        start + len <= src.len(),
    ensures
        r@ == src@.subrange(start as int, start + len),
{
    let mut out: Vec<u8> = Vec::new();
    let mut k: usize = 0;
    while k < len
        invariant
            k <= len,
            start + len <= src.len(),
            out@.len() == k,
            forall|i: int| 0 <= i < k ==> out@[i] == src@[start + i],
        decreases len - k,
    {
        out.push(src[start + k]);
        k = k + 1;
    }
    proof {
        assert(out@ =~= src@.subrange(start as int, start + len));
    }
    out
}

fn shift_ram_size(shift_count: u8) -> (r: usize)
    ensures
        r <= 0x200000,
{
    if shift_count == 0 {
        0
    } else {
        let k = (shift_count % 16) as usize;
        let r = 64usize << k;
        proof {
            assert(64usize << k <= 0x200000) by (bit_vector)
                requires
                    k <= 15usize,
            ;
        }
        r
    }
}

pub struct Cart {
    pub mapper: AnyMapper,
    pub screen_mirroring: Mirroring,
    pub format: RomFormat,
    pub nes2_data: Option<Nes2Data>,
}

impl Cart {
    pub open spec fn wf(&self) -> bool {
        self.mapper.inv()
    }

    /// Parses a cartridge image. Succeeds exactly on well-formed images
    /// (`spec_cart_good`); the mirroring and format of the result follow the
    /// header bytes.
    pub fn new(raw: &Vec<u8>) -> (r: Result<Cart, String>)
        ensures
            r is Ok <==> spec_cart_good(raw@),
            r matches Ok(c) ==> {
                &&& c.wf()
                &&& c.screen_mirroring == spec_mirroring_of(raw@)
                &&& (c.format == RomFormat::Nes2 <==> spec_is_nes2(raw@))
                &&& (c.nes2_data is Some <==> spec_is_nes2(raw@))
                &&& (spec_mapper_number(raw@) == 0 ==> c.mapper is Nrom)
                &&& (spec_mapper_number(raw@) == 1 ==> c.mapper is Mmc1)
                &&& (spec_mapper_number(raw@) == 2 ==> c.mapper is Uxrom)
                &&& (spec_mapper_number(raw@) == 3 ==> c.mapper is Cnrom)
                &&& (spec_mapper_number(raw@) == 4 ==> c.mapper is Mmc3)
                &&& (c.mapper matches AnyMapper::Nrom(m) ==> m.spec_prg_rom() == spec_prg_slice(
                    raw@,
                ) && (spec_chr_size(raw@) > 0 ==> m.spec_chr_rom() == spec_chr_slice(raw@)))
                &&& (c.mapper matches AnyMapper::Mmc1(m) ==> m.spec_prg_rom() == spec_prg_slice(
                    raw@,
                ) && (spec_chr_size(raw@) > 0 ==> m.spec_chr_rom() == spec_chr_slice(raw@)))
                &&& (c.mapper matches AnyMapper::Uxrom(m) ==> m.spec_prg_rom() == spec_prg_slice(
                    raw@,
                ) && (spec_chr_size(raw@) > 0 ==> m.spec_chr_rom() == spec_chr_slice(raw@)))
                &&& (c.mapper matches AnyMapper::Cnrom(m) ==> m.spec_prg_rom() == spec_prg_slice(
                    raw@,
                ) && (spec_chr_size(raw@) > 0 ==> m.spec_chr_rom() == spec_chr_slice(raw@)))
                &&& (c.mapper matches AnyMapper::Mmc3(m) ==> m.spec_prg_rom() == spec_prg_slice(
                    raw@,
                ) && (spec_chr_size(raw@) > 0 ==> m.spec_chr_rom() == spec_chr_slice(raw@)))
            },
    {
        if raw.len() < 16 {
            return Err("File is not in iNES file format".to_owned());
        }
        if !(raw[0] == 0x4E && raw[1] == 0x45 && raw[2] == 0x53 && raw[3] == 0x1A) {
            return Err("File is not in iNES file format".to_owned());
        }

        let is_nes2 = (raw[7] & 0x0C) == 0x08;
        let format = if is_nes2 {
            RomFormat::Nes2
        } else {
            RomFormat::INes
        };

        let mapper_num = (raw[7] & 0xF0) | (raw[6] >> 4u8);

        if !is_nes2 && (raw[7] >> 2u8) & 0x03 != 0 {
            return Err("Invalid iNES format version".to_owned());
        }

        let four_screen = raw[6] & 0x08 != 0;
        let vertical_mirroring = raw[6] & 0x01 != 0;
        let screen_mirroring = if four_screen {
            Mirroring::FourScreen
        } else if vertical_mirroring {
            Mirroring::Vertical
        } else {
            Mirroring::Horizontal
        };

        let prg_rom_size_u64: Option<u64> = if is_nes2 {
            nes2_size(raw[4], (raw[9] >> 4u8) & 0x0F, raw[9], PRG_ROM_PAGE_SIZE as u64)
        } else {
            Some(raw[4] as u64 * PRG_ROM_PAGE_SIZE as u64)
        };
        let chr_rom_size_u64: Option<u64> = if is_nes2 {
            nes2_size(raw[5], raw[9] & 0x0F, raw[5], CHR_ROM_PAGE_SIZE as u64)
        } else {
            Some(raw[5] as u64 * CHR_ROM_PAGE_SIZE as u64)
        };

        let trainer: u64 = if raw[6] & 0x04 != 0 {
            512
        } else {
            0
        };

        let (prg_u64, chr_u64) = match (prg_rom_size_u64, chr_rom_size_u64) {
            (Some(p), Some(c)) => (p, c),
            _ => {
                return Err("ROM file is truncated".to_owned());
            },
        };

        let total: Option<u64> = match (16u64 + trainer).checked_add(prg_u64) {
            Some(t) => t.checked_add(chr_u64),
            None => None,
        };
        let fits = match total {
            Some(t) => t <= raw.len() as u64,
            None => false,
        };
        if !fits {
            return Err("ROM file is truncated".to_owned());
        }

        if mapper_num > 4 {
            return Err("Mapper not supported".to_owned());
        }

        let prg_rom_size = prg_u64 as usize;
        let chr_rom_size = chr_u64 as usize;
        let prg_rom_start = 16 + trainer as usize;
        let chr_rom_start = prg_rom_start + prg_rom_size;

        let prg_rom = copy_range(raw, prg_rom_start, prg_rom_size);
        let chr_rom = copy_range(raw, chr_rom_start, chr_rom_size);

        let nes2_data = if is_nes2 {
            Some(
                Nes2Data {
                    submapper: raw[8] >> 4u8,
                    console_type: raw[7] & 0x03,
                    timing: raw[12],
                    prg_ram_size: shift_ram_size(raw[10] & 0x0F) + shift_ram_size(raw[10] >> 4u8),
                    chr_ram_size: shift_ram_size(raw[11] & 0x0F) + shift_ram_size(raw[11] >> 4u8),
                    misc_rom_count: raw[14] & 0x03,
                    default_expansion_device: raw[15],
                },
            )
        } else {
            None
        };

        let mapper: AnyMapper = if mapper_num == 0 {
            AnyMapper::Nrom(NromMapper::new(prg_rom, chr_rom, screen_mirroring))
        } else if mapper_num == 1 {
            AnyMapper::Mmc1(Mmc1Mapper::new(prg_rom, chr_rom, screen_mirroring))
        } else if mapper_num == 2 {
            AnyMapper::Uxrom(UxromMapper::new(prg_rom, chr_rom, screen_mirroring))
        } else if mapper_num == 3 {
            AnyMapper::Cnrom(CnromMapper::new(prg_rom, chr_rom, screen_mirroring))
        } else {
            AnyMapper::Mmc3(Mmc3Mapper::new(prg_rom, chr_rom, screen_mirroring))
        };

        Ok(Cart { mapper, screen_mirroring, format, nes2_data })
    }

    pub fn empty() -> (r: Cart)
        ensures
            r.wf(),
            r.screen_mirroring == Mirroring::Vertical,
    {
        Cart {
            mapper: AnyMapper::Nrom(NromMapper::new(Vec::new(), Vec::new(), Mirroring::Vertical)),
            screen_mirroring: Mirroring::Vertical,
            format: RomFormat::INes,
            nes2_data: None,
        }
    }
}

/// NES 2.0 size computation; `None` when the exponent form overflows, which
/// can never fit in a real file anyway.
fn nes2_size(lsb: u8, msb_nibble: u8, exp_src: u8, page: u64) -> (r: Option<u64>)
    requires
        page == PRG_ROM_PAGE_SIZE || page == CHR_ROM_PAGE_SIZE,
    ensures
        r matches Some(v) ==> v == spec_nes2_size(lsb, msb_nibble, exp_src, page as int),
        r is None ==> spec_nes2_size(lsb, msb_nibble, exp_src, page as int) > u64::MAX,
{
    if msb_nibble == 0x0F {
        let exp: u64 = ((exp_src >> 2u8) % 64) as u64;
        let multiplier: u64 = ((exp_src & 0x03) as u64) * 2 + 1;
        let base: u64 = 1u64 << exp;
        base.checked_mul(multiplier)
    } else {
        Some((msb_nibble as u64 * 256 + lsb as u64) * page)
    }
}

/// Builds a two-bank test cartridge around the given program bytes, padded
/// with zeros, with one character page of 2s and vertical mirroring.
pub fn test_rom(program: Vec<u8>) -> (r: Cart)
    ensures
        r.wf(),
        r.screen_mirroring == Mirroring::Vertical,
        r.mapper is Cnrom,
        r.mapper matches AnyMapper::Cnrom(m) ==> {
            &&& m.spec_prg_rom().len() == 0x8000
            &&& forall|i: int|
                0 <= i < 0x8000 ==> m.spec_prg_rom()[i] == (if i < program@.len() {
                    program@[i]
                } else {
                    0u8
                })
            &&& m.spec_chr_rom().len() == 0x2000
            &&& forall|i: int| 0 <= i < 0x2000 ==> m.spec_chr_rom()[i] == 2u8
        },
{
    let mut raw: Vec<u8> = Vec::new();
    raw.push(0x4E);
    raw.push(0x45);
    raw.push(0x53);
    raw.push(0x1A);
    raw.push(0x02);
    raw.push(0x01);
    raw.push(0x31);
    raw.push(0x00);
    raw.push(0x00);
    raw.push(0x00);
    raw.push(0x00);
    raw.push(0x00);
    raw.push(0x00);
    raw.push(0x00);
    raw.push(0x00);
    raw.push(0x00);

    let prg_len: usize = 2 * PRG_ROM_PAGE_SIZE;
    let mut k: usize = 0;
    while k < prg_len
        invariant
            k <= prg_len,
            raw@.len() == 16 + k,
            spec_has_signature(raw@),
            raw@[4] == 0x02,
            raw@[5] == 0x01,
            raw@[6] == 0x31,
            raw@[7] == 0x00,
            forall|i: int|
                0 <= i < k ==> #[trigger] raw@[16 + i] == (if i < program@.len() {
                    program@[i]
                } else {
                    0u8
                }),
        decreases prg_len - k,
    {
        if k < program.len() {
            raw.push(program[k]);
        } else {
            raw.push(0);
        }
        k = k + 1;
    }

    let mut j: usize = 0;
    while j < CHR_ROM_PAGE_SIZE
        invariant
            j <= CHR_ROM_PAGE_SIZE,
            raw@.len() == 16 + 2 * PRG_ROM_PAGE_SIZE + j,
            spec_has_signature(raw@),
            raw@[4] == 0x02,
            raw@[5] == 0x01,
            raw@[6] == 0x31,
            raw@[7] == 0x00,
            forall|i: int|
                0 <= i < 2 * PRG_ROM_PAGE_SIZE ==> #[trigger] raw@[16 + i] == (if i
                    < program@.len() {
                    program@[i]
                } else {
                    0u8
                }),
            forall|i: int| 0 <= i < j ==> #[trigger] raw@[16 + 2 * PRG_ROM_PAGE_SIZE + i] == 2u8,
        decreases CHR_ROM_PAGE_SIZE - j,
    {
        raw.push(2);
        j = j + 1;
    }

    proof {
        assert((0u8 & 0x0C) != 0x08) by (bit_vector);
        assert((0u8 >> 2) & 0x03 == 0) by (bit_vector);
        assert((0u8 & 0xF0) | (0x31u8 >> 4) == 3) by (bit_vector);
        assert(0x31u8 & 0x08 == 0) by (bit_vector);
        assert(0x31u8 & 0x01 == 1) by (bit_vector);
        assert(0x31u8 & 0x04 == 0) by (bit_vector);
        assert(spec_cart_good(raw@));
        assert(spec_mirroring_of(raw@) == Mirroring::Vertical);
    }
    let cart_result = Cart::new(&raw);
    let cart = cart_result.unwrap();
    proof {
        assert(spec_trainer_size(raw@) == 0);
        assert(spec_prg_size(raw@) == 0x8000);
        assert(spec_chr_size(raw@) == 0x2000);
        assert forall|i: int| 0 <= i < 0x8000 implies #[trigger] spec_prg_slice(raw@)[i] == (if i
            < program@.len() {
            program@[i]
        } else {
            0u8
        }) by {
            assert(spec_prg_slice(raw@)[i] == raw@[16 + i]);
        }
        assert forall|i: int| 0 <= i < 0x2000 implies #[trigger] spec_chr_slice(raw@)[i] == 2u8 by {
            assert(spec_chr_slice(raw@)[i] == raw@[16 + 0x8000 + i]);
        }
    }
    cart
}

} // verus!
