use vstd::prelude::*;
use crate::cpu::mirroring::Mirroring;

verus! {

/// Why an iNES image was refused.
#[derive(Debug, Clone, Copy, PartialEq, Eq, Structural)]
pub enum CartridgeError {
    /// The first four bytes are not "NES" and $1A.
    InvalidMagic,
    /// Bits 2-3 of byte 7 are not zero.
    UnsupportedVersion,
    /// Four-screen mirroring, which needs VRAM that this machine does not have.
    UnsupportedMapper,
    /// The image is shorter than its header says.
    Truncated,
}

/// Size of the iNES header.
pub const HEADER_LEN: usize = 16;
/// Size of the optional trainer.
pub const TRAINER_LEN: usize = 512;
/// Size of one PRG ROM bank.
pub const PRG_BANK: usize = 0x4000;
/// Size of one CHR ROM bank.
pub const CHR_BANK: usize = 0x2000;

/// Where PRG ROM starts in an image.
pub open spec fn prg_start(data: Seq<u8>) -> int {
    HEADER_LEN + if data[6] & 4 != 0 { TRAINER_LEN as int } else { 0 }
}

pub open spec fn prg_len(data: Seq<u8>) -> int {
    data[4] as int * PRG_BANK
}

pub open spec fn chr_len(data: Seq<u8>) -> int {
    data[5] as int * CHR_BANK
}

/// The mirroring that byte 6 selects (bit 3 four-screen, else bit 0 vertical).
pub open spec fn mirroring_of(flags6: u8) -> Mirroring {
    if flags6 & 8 != 0 {
        Mirroring::FourScreen
    } else if flags6 & 1 != 0 {
        Mirroring::Vertical
    } else {
        Mirroring::Horizontal
    }
}

/// The mapper number: high nibble of byte 7, low nibble from the high nibble of byte 6.
pub open spec fn mapper_of(data: Seq<u8>) -> u8 {
    (data[7] & 0xF0u8) | ((data[6] & 0xF0u8) >> 4u8)
}

/// Whether bytes 0..4 are the iNES magic.
pub open spec fn has_magic(data: Seq<u8>) -> bool {
    data[0] == 0x4E && data[1] == 0x45 && data[2] == 0x53 && data[3] == 0x1A
}

/// The reason an image is refused, if any, checked in this order.
pub open spec fn rom_error(data: Seq<u8>) -> Option<CartridgeError> {
    if data.len() < HEADER_LEN {
        Some(CartridgeError::Truncated)
    } else if !has_magic(data) {
        Some(CartridgeError::InvalidMagic)
    } else if (data[7] >> 2u8) & 3 != 0 {
        Some(CartridgeError::UnsupportedVersion)
    } else if mirroring_of(data[6]) == Mirroring::FourScreen {
        Some(CartridgeError::UnsupportedMapper)
    } else if data.len() < prg_start(data) + prg_len(data) + chr_len(data) {
        Some(CartridgeError::Truncated)
    } else {
        None
    }
}

/// A cartridge loaded from an iNES image.
#[derive(Debug)]
pub struct Cartridge {
    pub prg_rom: Vec<u8>,
    pub chr_rom: Vec<u8>,
    pub mapper: u8,
    pub mirroring: Mirroring,
}

/// Copies `len` bytes of `data` from `start`.
fn copy_range(data: &Vec<u8>, start: usize, len: usize) -> (r: Vec<u8>)
    requires
        start + len <= data@.len(),
    ensures
        r@ == data@.subrange(start as int, start + len),
{
    let mut r: Vec<u8> = Vec::with_capacity(len);
    let mut i: usize = 0;
    let n = data.len();
    while i < len
        invariant
            n == data@.len(),
            start + len <= n,
            i <= len,
            r@ == data@.subrange(start as int, start + i),
        decreases len - i,
    {
        r.push(data[start + i]);
        i = i + 1;
        assert(r@ =~= data@.subrange(start as int, start + i));
    }
    r
}

impl Cartridge {
    /// Parses an iNES image: header, optional trainer (skipped), PRG ROM, then CHR ROM.
    pub fn new(data: Vec<u8>) -> (r: Result<Cartridge, CartridgeError>)
        ensures
            rom_error(data@) is None <==> r is Ok,
            r matches Err(e) ==> rom_error(data@) == Some(e),
            r matches Ok(c) ==> {
                &&& c.prg_rom@ == data@.subrange(prg_start(data@), prg_start(data@) + prg_len(data@))
                &&& c.chr_rom@ == data@.subrange(
                    prg_start(data@) + prg_len(data@),
                    prg_start(data@) + prg_len(data@) + chr_len(data@),
                )
                &&& c.mapper == mapper_of(data@)
                &&& c.mirroring == mirroring_of(data@[6])
                &&& c.mirroring != Mirroring::FourScreen
            },
    {
        if data.len() < HEADER_LEN {
            return Err(CartridgeError::Truncated);
        }
        if !(data[0] == 0x4E && data[1] == 0x45 && data[2] == 0x53 && data[3] == 0x1A) {
            return Err(CartridgeError::InvalidMagic);
        }
        let mapper_id = (data[7] & 0xF0) | ((data[6] & 0xF0) >> 4);
        if (data[7] >> 2) & 3 != 0 {
            return Err(CartridgeError::UnsupportedVersion);
        }
        let mirroring = if data[6] & 8 != 0 {
            Mirroring::FourScreen
        } else if data[6] & 1 != 0 {
            Mirroring::Vertical
        } else {
            Mirroring::Horizontal
        };
        if mirroring == Mirroring::FourScreen {
            return Err(CartridgeError::UnsupportedMapper);
        }
        let prg_rom_size = data[4] as usize * PRG_BANK;
        let chr_rom_size = data[5] as usize * CHR_BANK;
        let has_trainer = data[6] & 4 != 0;
        let prg_rom_start = HEADER_LEN + if has_trainer { TRAINER_LEN } else { 0 };
        let chr_rom_start = prg_rom_start + prg_rom_size;
        if data.len() < chr_rom_start || data.len() - chr_rom_start < chr_rom_size {
            return Err(CartridgeError::Truncated);
        }
        Ok(Cartridge {
            prg_rom: copy_range(&data, prg_rom_start, prg_rom_size),
            chr_rom: copy_range(&data, chr_rom_start, chr_rom_size),
            mapper: mapper_id,
            mirroring,
        })
    }
}

} // verus!
