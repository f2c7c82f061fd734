use vstd::prelude::*;

verus! {

/// Why an iNES image could not be turned into a `Rom` or a mapper.
#[derive(Debug, PartialEq, Eq, Structural, Clone, Copy)]
pub enum RomError {
    /// The four magic bytes are not `4E 45 53 1A`.
    InvalidMagic,
    /// The image ends before the payload its header declares.
    TruncatedImage,
    /// The mapper id selects a mapper this library does not implement.
    UnsupportedMapper(u8),
}

/// The 16-byte iNES header, field by field.
#[derive(Debug)]
pub struct NesHeader {
    /// 'N' 'E' 'S' '\x1a'
    pub magic: [u8; 4],
    /// number of 16 KiB units of PRG-ROM
    pub prg_rom_size: u8,
    /// number of 8 KiB units of CHR-ROM
    pub chr_rom_size: u8,
    /// low nibble of the mapper id, mirroring, trainer and battery bits
    pub flags_6: u8,
    /// high nibble of the mapper id and console-variant bits
    pub flags_7: u8,
    /// number of 8 KiB units of PRG-RAM
    pub prg_ram_size: u8,
    /// TV-system bit
    pub flags_9: u8,
    pub flags_10: u8,
    /// reserved, always zero
    pub zero: [u8; 5],
}

/// A parsed cartridge image: the decoded header and the PRG and CHR payloads,
/// immutable for the run.
#[derive(Debug)]
pub struct Rom {
    pub header: NesHeader,
    /// PRG-ROM
    pub prg: Vec<u8>,
    /// CHR-ROM
    pub chr: Vec<u8>,
}

/// The four magic bytes stand at the front of the image.
pub open spec fn spec_magic_ok(b: Seq<u8>) -> bool {
    b.len() >= 16 && b[0] == 0x4e && b[1] == 0x45 && b[2] == 0x53 && b[3] == 0x1a
}

/// Bytes taken by the optional 512-byte trainer, from flags_6 bit 2.
pub open spec fn spec_trainer_len(b: Seq<u8>) -> int {
    if b[6] & 0x04 != 0 {
        512
    } else {
        0
    }
}

/// Bytes of PRG-ROM the header declares.
pub open spec fn spec_prg_len(b: Seq<u8>) -> int {
    b[4] * 16384
}

/// Bytes of CHR-ROM the header declares.
pub open spec fn spec_chr_len(b: Seq<u8>) -> int {
    b[5] * 8192
}

/// Total length the image must have to hold header, trainer and payloads.
pub open spec fn spec_needed_len(b: Seq<u8>) -> int {
    16 + spec_trainer_len(b) + spec_prg_len(b) + spec_chr_len(b)
}

/// What a successfully parsed image holds: every header field is the byte at
/// its offset, and the payloads are the declared slices, PRG first.
pub open spec fn spec_rom_matches(r: Rom, b: Seq<u8>) -> bool {
    &&& r.header.magic@ == b.subrange(0, 4)
    &&& r.header.prg_rom_size == b[4]
    &&& r.header.chr_rom_size == b[5]
    &&& r.header.flags_6 == b[6]
    &&& r.header.flags_7 == b[7]
    &&& r.header.prg_ram_size == b[8]
    &&& r.header.flags_9 == b[9]
    &&& r.header.flags_10 == b[10]
    &&& r.header.zero@ == seq![0u8, 0u8, 0u8, 0u8, 0u8]
    &&& r.prg@ == b.subrange(16 + spec_trainer_len(b), 16 + spec_trainer_len(b) + spec_prg_len(b))
    &&& r.chr@ == b.subrange(
        16 + spec_trainer_len(b) + spec_prg_len(b),
        spec_needed_len(b),
    )
}

/// Copies `src[start .. start + len]` into a fresh vector.
fn copy_range(src: &Vec<u8>, start: usize, len: usize) -> (r: Vec<u8>)
    requires
        start + len <= src@.len(),
    ensures
        r@ == src@.subrange(start as int, start + len),
{
    let mut out: Vec<u8> = Vec::new();
    let n: usize = src.len();
    let mut i: usize = 0;
    while i < len
        invariant
            i <= len,
            start + len <= n,
            n == src@.len(),
            out@ == src@.subrange(start as int, start + i),
        decreases len - i,
    {
        out.push(src[start + i]);
        assert(out@ =~= src@.subrange(start as int, start + i + 1));
        i = i + 1;
    }
    out
}

impl Rom {
    /// Parses an iNES image from its bytes. `TruncatedImage` when the image is
    /// shorter than the header or than what the header declares,
    /// `InvalidMagic` when the magic bytes differ; otherwise the decoded ROM.
    pub fn load(data: &Vec<u8>) -> (r: Result<Rom, RomError>)
        ensures
            data@.len() < 16 ==> r == Err::<Rom, RomError>(RomError::TruncatedImage),
            data@.len() >= 16 && !spec_magic_ok(data@) ==> r == Err::<Rom, RomError>(
                RomError::InvalidMagic,
            ),
            spec_magic_ok(data@) && data@.len() < spec_needed_len(data@) ==> r == Err::<
                Rom,
                RomError,
            >(RomError::TruncatedImage),
            spec_magic_ok(data@) && data@.len() >= spec_needed_len(data@) ==> r is Ok
                && spec_rom_matches(r->Ok_0, data@),
    {
        if data.len() < 16 {
            return Err(RomError::TruncatedImage);
        }
        if !(data[0] == 0x4e && data[1] == 0x45 && data[2] == 0x53 && data[3] == 0x1a) {
            return Err(RomError::InvalidMagic);
        }
        let trainer_len: usize = if data[6] & 0x04 != 0 {
            512
        } else {
            0
        };
        let prg_len: usize = data[4] as usize * 16384;
        let chr_len: usize = data[5] as usize * 8192;
        let needed: usize = 16 + trainer_len + prg_len + chr_len;
        if data.len() < needed {
            return Err(RomError::TruncatedImage);
        }
        let header = NesHeader {
            magic: [data[0], data[1], data[2], data[3]],
            prg_rom_size: data[4],
            chr_rom_size: data[5],
            flags_6: data[6],
            flags_7: data[7],
            prg_ram_size: data[8],
            flags_9: data[9],
            flags_10: data[10],
            zero: [0, 0, 0, 0, 0],
        };
        let prg = copy_range(data, 16 + trainer_len, prg_len);
        let chr = copy_range(data, 16 + trainer_len + prg_len, chr_len);
        let rom = Rom { header, prg, chr };
        proof {
            assert(rom.header.magic@ =~= data@.subrange(0, 4));
            assert(rom.header.zero@ =~= seq![0u8, 0u8, 0u8, 0u8, 0u8]);
        }
        Ok(rom)
    }
}

impl NesHeader {
    /// The combined mapper id: high nibble from flags_7, low nibble from
    /// flags_6's high nibble.
    pub fn mapper(&self) -> (r: u8)
        ensures
            r == ((self.flags_7 & 0xf0) | (self.flags_6 >> 4)),
    {
        (self.flags_7 & 0xf0) | (self.flags_6 >> 4)
    }

    /// The low nibble of the mapper id alone.
    pub fn nes_mapper(&self) -> (r: u8)
        ensures
            r == (self.flags_6 >> 4),
    {
        self.flags_6 >> 4
    }

    /// Whether the image carries a 512-byte trainer, from flags_6 bit 2.
    pub fn trainer(&self) -> (r: bool)
        ensures
            r == (self.flags_6 & 0x04 != 0),
    {
        (self.flags_6 & 0x04) != 0
    }
}

} // verus!
