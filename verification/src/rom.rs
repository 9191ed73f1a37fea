//! The cartridge container: a 16-byte header followed by the program bank(s)
//! and the (reserved) character bank(s).

use vstd::prelude::*;
use vstd::slice::{slice_subrange, slice_to_vec};

verus! {

/// Why a container image is rejected.
#[derive(Clone, Copy, Debug, PartialEq, Eq, Structural)]
pub enum RomError {
    /// The input ends before the header plus the declared banks.
    TooShort,
}

/// Declared size in bytes of the program bank(s): header byte 4 counts
/// units of 16 KiB.
pub open spec fn spec_prg_size(data: Seq<u8>) -> int {
    data[4] * 0x4000
}

/// Declared size in bytes of the character bank(s): header byte 5 counts
/// units of 8 KiB.
pub open spec fn spec_chr_size(data: Seq<u8>) -> int {
    data[5] * 0x2000
}

/// A container is well formed when it holds the whole 16-byte header and
/// both declared banks.
pub open spec fn container_ok(data: Seq<u8>) -> bool {
    &&& data.len() >= 16
    &&& data.len() >= 16 + spec_prg_size(data) + spec_chr_size(data)
}

/// A parsed cartridge image: program bytes, and character bytes that the
/// core keeps but does not interpret.
pub struct Rom {
    pub prg_rom: Vec<u8>,
    pub chr_rom: Vec<u8>,
}

impl Rom {
    /// Parses a container image. The header is read in place; the program
    /// bytes follow it, and the character bytes follow those. An image that
    /// ends before its declared payload is rejected.
    pub fn new(data: Vec<u8>) -> (r: Result<Rom, RomError>)
        ensures
            r is Ok <==> container_ok(data@),
            r matches Ok(rom) ==> {
                &&& rom.prg_rom@ == data@.subrange(16, 16 + spec_prg_size(data@))
                &&& rom.chr_rom@ == data@.subrange(
                    16 + spec_prg_size(data@),
                    16 + spec_prg_size(data@) + spec_chr_size(data@),
                )
            },
            r matches Err(e) ==> e == RomError::TooShort,
    {
        if data.len() < 16 {
            return Err(RomError::TooShort);
        }
        let prg_size: usize = (data[4] as usize) * 0x4000;
        let chr_size: usize = (data[5] as usize) * 0x2000;
        if data.len() < 16 + prg_size || data.len() - 16 - prg_size < chr_size {
            return Err(RomError::TooShort);
        }
        let prg_rom: Vec<u8> = slice_to_vec(slice_subrange(data.as_slice(), 16, 16 + prg_size));
        let chr_rom: Vec<u8> = slice_to_vec(
            slice_subrange(data.as_slice(), 16 + prg_size, 16 + prg_size + chr_size),
        );
        Ok(Rom { prg_rom, chr_rom })
    }

    /// Reads one program byte by index.
    pub fn read(&self, idx: usize) -> (r: u8)
        requires
            idx < self.prg_rom@.len(),
        ensures
            r == self.prg_rom@[idx as int],
    {
        self.prg_rom[idx]
    }
}

} // verus!
