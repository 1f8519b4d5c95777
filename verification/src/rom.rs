use vstd::prelude::*;

verus! {

/// What the library keeps of a parsed iNES image: the PRG and CHR bank
/// counts from the header.  The banks themselves are outside the core.
#[derive(Clone)]
pub struct Rom {
    pub prg_rom_bytes: usize,
    pub chr_rom_bytes: usize,
}

/// An iNES image opens with the magic bytes `N`, `E`, `S`, 0x1A.
pub open spec fn rom_magic_ok(data: Seq<u8>) -> bool {
    &&& data.len() >= 4
    &&& data[0] == 0x4e
    &&& data[1] == 0x45
    &&& data[2] == 0x53
    &&& data[3] == 0x1a
}

impl Rom {
    /// Whether the image carries the iNES magic; an image too short to
    /// hold it is invalid.
    pub fn is_valid(data: &mut Vec<u8>) -> (r: bool)
        ensures
            final(data)@ == old(data)@,
            r == rom_magic_ok(old(data)@),
    {
        data.len() >= 4 && data[0] == 0x4e && data[1] == 0x45 && data[2] == 0x53 && data[3]
            == 0x1a
    }

    /// Reads the PRG-ROM and CHR-ROM bank counts from header bytes 4
    /// and 5.
    pub fn new(data: &mut Vec<u8>) -> (r: Self)
        requires
            old(data)@.len() >= 6,
        ensures
            final(data)@ == old(data)@,
            r.prg_rom_bytes == old(data)@[4] as usize,
            r.chr_rom_bytes == old(data)@[5] as usize,
    {
        Rom { prg_rom_bytes: data[4] as usize, chr_rom_bytes: data[5] as usize }
    }
}

} // verus!
