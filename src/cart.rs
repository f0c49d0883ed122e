//! iNES v1 cartridge images: header decoding and the PRG/CHR slices.
use vstd::prelude::*;
use crate::bits::{bit_of, get_bit};

verus! {

pub const PRG_ROM_PAGE_SIZE: usize = 16384;
pub const CHR_ROM_PAGE_SIZE: usize = 8192;
pub const HEADER_SIZE: usize = 16;
pub const TRAINER_SIZE: usize = 512;

/// How the four logical nametables map onto the console's 2 KiB of VRAM.
#[derive(Clone, Copy, Debug, PartialEq, Eq, Structural)]
pub enum Mirroring {
    Vertical,
    Horizontal,
    FourScreen,
}

/// Why an image could not be loaded.
#[derive(Clone, Copy, Debug, PartialEq, Eq, Structural)]
pub enum LoaderError {
    /// The first four bytes are not `4E 45 53 1A`.
    BadMagic,
    /// Header byte 7 announces an iNES version other than 1 (e.g. NES 2.0).
    UnsupportedVersion,
    /// The image is shorter than its header says.
    Truncated,
    /// The image could not be read at all.
    Io,
}

/// The four-byte tag that starts every iNES image.
pub open spec fn has_magic(b: Seq<u8>) -> bool {
    b.len() >= 4 && b[0] == 0x4Eu8 && b[1] == 0x45u8 && b[2] == 0x53u8 && b[3] == 0x1Au8
}

/// The iNES version field, bits 2-3 of header byte 7.
pub open spec fn ines_version(b: Seq<u8>) -> u8 {
    (b[7] >> 2u8) & 3u8
}

/// Mirroring selected by header byte 6.
pub open spec fn mirroring_of(flags6: u8) -> Mirroring {
    if bit_of(flags6, 3) {
        Mirroring::FourScreen
    } else if bit_of(flags6, 0) {
        Mirroring::Vertical
    } else {
        Mirroring::Horizontal
    }
}

/// Offset of the PRG data: after the header and, if present, the trainer.
pub open spec fn prg_start_of(b: Seq<u8>) -> int {
    16 + if bit_of(b[6], 2) { 512int } else { 0int }
}

/// The decoded 16-byte iNES header.
#[derive(Clone, Copy, Debug, PartialEq, Eq, Structural)]
pub struct RomHeader {
    pub prg_rom_start: usize,
    pub chr_rom_start: usize,
    pub prg_rom_size: usize,
    pub chr_rom_size: usize,
    pub mapper: u8,
    pub screen_mirroring: Mirroring,
}

/// The header that a well-tagged version-1 image describes.
pub open spec fn header_of(b: Seq<u8>) -> RomHeader {
    RomHeader {
        prg_rom_start: prg_start_of(b) as usize,
        chr_rom_start: (prg_start_of(b) + b[4] * 16384) as usize,
        prg_rom_size: (b[4] * 16384) as usize,
        chr_rom_size: (b[5] * 8192) as usize,
        mapper: (b[7] & 0xF0u8) | (b[6] >> 4u8),
        screen_mirroring: mirroring_of(b[6]),
    }
}

impl RomHeader {
    /// Decodes the header at the start of `buffer`.
    pub fn new(buffer: &Vec<u8>) -> (r: Result<RomHeader, LoaderError>)
        ensures
            !has_magic(buffer@) ==> r == Err::<RomHeader, LoaderError>(LoaderError::BadMagic),
            has_magic(buffer@) && buffer@.len() < 16 ==> r == Err::<RomHeader, LoaderError>(
                LoaderError::Truncated,
            ),
            buffer@.len() >= 16 && has_magic(buffer@) && ines_version(buffer@) != 0 ==> r == Err::<
                RomHeader,
                LoaderError,
            >(LoaderError::UnsupportedVersion),
            buffer@.len() >= 16 && has_magic(buffer@) && ines_version(buffer@) == 0 ==> r == Ok::<
                RomHeader,
                LoaderError,
            >(header_of(buffer@)),
    {
        if buffer.len() < 4 || buffer[0] != 0x4E || buffer[1] != 0x45 || buffer[2] != 0x53
            || buffer[3] != 0x1A {
            return Err(LoaderError::BadMagic);
        }
        if buffer.len() < HEADER_SIZE {
            return Err(LoaderError::Truncated);
        }
        let mapper: u8 = (buffer[7] & 0b1111_0000) | (buffer[6] >> 4);
        let ines_ver: u8 = (buffer[7] >> 2) & 0b11;
        if ines_ver != 0 {
            return Err(LoaderError::UnsupportedVersion);
        }
        let four_screen = get_bit(buffer[6], 3);
        let mirroring = get_bit(buffer[6], 0);
        let screen_mirroring = if four_screen {
            Mirroring::FourScreen
        } else if mirroring {
            Mirroring::Vertical
        } else {
            Mirroring::Horizontal
        };
        let prg_rom_size: usize = buffer[4] as usize * PRG_ROM_PAGE_SIZE;
        let chr_rom_size: usize = buffer[5] as usize * CHR_ROM_PAGE_SIZE;
        let has_trainer = get_bit(buffer[6], 2);
        let prg_rom_start: usize = HEADER_SIZE + if has_trainer {
            TRAINER_SIZE
        } else {
            0
        };
        let chr_rom_start: usize = prg_rom_start + prg_rom_size;
        Ok(
            RomHeader {
                prg_rom_start,
                chr_rom_start,
                prg_rom_size,
                chr_rom_size,
                mapper,
                screen_mirroring,
            },
        )
    }
}

/// A loaded cartridge: program ROM, character ROM and its header.
pub struct Cart {
    pub rom_size: usize,
    pub prg_rom: Vec<u8>,
    pub chr_rom: Vec<u8>,
    pub rom_header: RomHeader,
}

/// `len` bytes of `buffer` from `start`.
fn copy_range(buffer: &Vec<u8>, start: usize, len: usize) -> (r: Vec<u8>)
    requires
        start + len <= buffer@.len(),
    ensures
        r@ == buffer@.subrange(start as int, start + len),
{
    let mut out: Vec<u8> = Vec::with_capacity(len);
    let mut i: usize = 0;
    while i < len
        invariant
            start + len <= buffer.len(),
            i <= len,
            out@ == buffer@.subrange(start as int, start + i),
        decreases len - i,
    {
        out.push(buffer[start + i]);
        i = i + 1;
        assert(out@ =~= buffer@.subrange(start as int, start + i));
    }
    out
}

impl Cart {
    /// Loads an iNES image: header, then PRG data, then CHR data.
    pub fn new(rom_data: &Vec<u8>) -> (r: Result<Cart, LoaderError>)
        ensures
            match RomHeader::new_result(rom_data@) {
                Err(e) => r matches Err(e2) && e2 == e,
                Ok(h) => if h.chr_rom_start + h.chr_rom_size > rom_data@.len() {
                    r == Err::<Cart, LoaderError>(LoaderError::Truncated)
                } else {
                    r matches Ok(c) && c.rom_header == h && c.rom_size == rom_data@.len()
                        && c.prg_rom@ == rom_data@.subrange(
                        h.prg_rom_start as int,
                        h.prg_rom_start + h.prg_rom_size,
                    ) && c.chr_rom@ == rom_data@.subrange(
                        h.chr_rom_start as int,
                        h.chr_rom_start + h.chr_rom_size,
                    )
                },
            },
    {
        let header = match RomHeader::new(rom_data) {
            Ok(h) => h,
            Err(e) => return Err(e),
        };
        if header.chr_rom_start + header.chr_rom_size > rom_data.len() {
            return Err(LoaderError::Truncated);
        }
        let prg_rom = copy_range(rom_data, header.prg_rom_start, header.prg_rom_size);
        let chr_rom = copy_range(rom_data, header.chr_rom_start, header.chr_rom_size);
        Ok(Cart { rom_size: rom_data.len(), prg_rom, chr_rom, rom_header: header })
    }
}

impl RomHeader {
    /// What `RomHeader::new` returns on an image.
    pub open spec fn new_result(b: Seq<u8>) -> Result<RomHeader, LoaderError> {
        if !has_magic(b) {
            Err(LoaderError::BadMagic)
        } else if b.len() < 16 {
            Err(LoaderError::Truncated)
        } else if ines_version(b) != 0 {
            Err(LoaderError::UnsupportedVersion)
        } else {
            Ok(header_of(b))
        }
    }
}

} // verus!
