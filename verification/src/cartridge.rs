//! Cartridge loader for the iNES container format.
//!
//! A raw byte buffer is parsed into a [`Rom`]: immutable PRG (program) and
//! CHR (graphics) bank bytes plus the mirroring and mapper metadata the
//! header declares.  Loading either succeeds completely or fails with a
//! descriptive [`LoadError`]; it never yields a partially usable cartridge.

use vstd::prelude::*;

verus! {

/// Nametable mirroring arrangement declared by the cartridge header.
#[derive(Clone, Copy, PartialEq, Eq, Structural, Debug)]
pub enum Mirroring {
    Horizontal,
    Vertical,
    FourScreen,
}

/// Why a ROM image was rejected at load time.
#[derive(Clone, Copy, PartialEq, Eq, Structural, Debug)]
pub enum LoadError {
    /// The buffer does not start with the container's magic, or declares a
    /// container revision this loader does not support.
    InvalidFormat,
    /// The header names a mapper other than the linear mapper 0.
    UnsupportedMapper,
    /// The buffer is shorter than the header promises.
    TruncatedImage,
}

/// Size in bytes of one PRG (program) bank.
pub const PRG_BANK_SIZE: usize = 0x4000;

/// Size in bytes of one CHR (graphics) bank.
pub const CHR_BANK_SIZE: usize = 0x2000;

/// Size in bytes of the fixed container header.
pub const HEADER_SIZE: usize = 16;

/// Size in bytes of the optional trainer block between header and banks.
pub const TRAINER_SIZE: usize = 512;

/// A loaded cartridge: bank bytes and header metadata, fixed at load time
/// and never mutated afterwards.
pub struct Rom {
    pub prg: Vec<u8>,
    pub chr: Vec<u8>,
    pub mapper: u8,
    pub mirroring: Mirroring,
}

/// The buffer starts with the 4-byte container magic `N`, `E`, `S`, 0x1A.
pub open spec fn magic_ok(b: Seq<u8>) -> bool {
    b.len() >= 4 && b[0] == 0x4e && b[1] == 0x45 && b[2] == 0x53 && b[3] == 0x1a
}

/// The buffer holds at least the fixed header.
pub open spec fn header_complete(b: Seq<u8>) -> bool {
    b.len() >= HEADER_SIZE
}

/// Container revision bits of the second control byte; only revision 0 is
/// supported.
pub open spec fn spec_version(b: Seq<u8>) -> u8
    recommends header_complete(b),
{
    (b[7] >> 2) & 0x03
}

/// Mapper identifier: upper nibble of the second control byte joined with
/// the upper nibble of the first.
pub open spec fn spec_mapper(b: Seq<u8>) -> u8
    recommends header_complete(b),
{
    (b[7] & 0xf0) | (b[6] >> 4)
}

/// Mirroring mode encoded in the first control byte.
pub open spec fn spec_mirroring(b: Seq<u8>) -> Mirroring
    recommends header_complete(b),
{
    if b[6] & 0x08 != 0 {
        Mirroring::FourScreen
    } else if b[6] & 0x01 != 0 {
        Mirroring::Vertical
    } else {
        Mirroring::Horizontal
    }
}

/// Whether a 512-byte trainer block precedes the banks.
pub open spec fn has_trainer(b: Seq<u8>) -> bool
    recommends header_complete(b),
{
    b[6] & 0x04 != 0
}

/// Declared PRG region size in bytes.
pub open spec fn spec_prg_size(b: Seq<u8>) -> int
    recommends header_complete(b),
{
    (b[4] as int) * (PRG_BANK_SIZE as int)
}

/// Declared CHR region size in bytes.
pub open spec fn spec_chr_size(b: Seq<u8>) -> int
    recommends header_complete(b),
{
    (b[5] as int) * (CHR_BANK_SIZE as int)
}

/// Offset of the first PRG byte: right after the header, skipping the
/// trainer when one is present.
pub open spec fn spec_prg_start(b: Seq<u8>) -> int
    recommends header_complete(b),
{
    HEADER_SIZE + if has_trainer(b) { TRAINER_SIZE as int } else { 0 }
}

/// Total byte count the header promises the buffer holds.
pub open spec fn spec_total_size(b: Seq<u8>) -> int
    recommends header_complete(b),
{
    spec_prg_start(b) + spec_prg_size(b) + spec_chr_size(b)
}

/// The buffer is a well-formed image this loader accepts.
pub open spec fn image_ok(b: Seq<u8>) -> bool {
    &&& magic_ok(b)
    &&& header_complete(b)
    &&& spec_version(b) == 0
    &&& spec_mapper(b) == 0
    &&& b.len() >= spec_total_size(b)
}

/// Copies `src[start .. start + len]` into a fresh vector.
fn copy_range(src: &Vec<u8>, start: usize, len: usize) -> (r: Vec<u8>)
    requires
        start + len <= src.len(),
    ensures
        r@ == src@.subrange(start as int, start as int + len as int),
{
    let mut r: Vec<u8> = Vec::new();
    let mut i: usize = 0;
    while i < len
        invariant
            start + len <= src.len(),
            i <= len,
            r@ == src@.subrange(start as int, start as int + i as int),
        decreases len - i,
    {
        r.push(src[start + i]);
        assert(src@.subrange(start as int, start as int + i as int + 1) =~= src@.subrange(
            start as int,
            start as int + i as int,
        ).push(src@[start as int + i as int]));
        i += 1;
    }
    r
}

impl Rom {
    /// Parses a raw buffer into a cartridge.  The checks run in a fixed
    /// order: container magic, header completeness, container revision,
    /// mapper, and finally whether the buffer really holds the promised
    /// bank bytes.  On success the PRG and CHR slices are exactly the
    /// regions the header declares; the input buffer is never mutated.
    pub fn new(raw: &Vec<u8>) -> (r: Result<Rom, LoadError>)
        ensures
            r is Ok <==> image_ok(raw@),
            !magic_ok(raw@) ==> r == Err::<Rom, LoadError>(LoadError::InvalidFormat),
            magic_ok(raw@) && !header_complete(raw@) ==> r == Err::<Rom, LoadError>(
                LoadError::TruncatedImage,
            ),
            magic_ok(raw@) && header_complete(raw@) && spec_version(raw@) != 0 ==> r == Err::<
                Rom,
                LoadError,
            >(LoadError::InvalidFormat),
            magic_ok(raw@) && header_complete(raw@) && spec_version(raw@) == 0 && spec_mapper(raw@)
                != 0 ==> r == Err::<Rom, LoadError>(LoadError::UnsupportedMapper),
            magic_ok(raw@) && header_complete(raw@) && spec_version(raw@) == 0 && spec_mapper(raw@)
                == 0 && raw@.len() < spec_total_size(raw@) ==> r == Err::<Rom, LoadError>(
                LoadError::TruncatedImage,
            ),
            image_ok(raw@) ==> (r matches Ok(rom) && rom.prg@ == raw@.subrange(
                spec_prg_start(raw@),
                spec_prg_start(raw@) + spec_prg_size(raw@),
            ) && rom.chr@ == raw@.subrange(
                spec_prg_start(raw@) + spec_prg_size(raw@),
                spec_total_size(raw@),
            ) && rom.mapper == 0 && rom.mirroring == spec_mirroring(raw@)),
    {
        if raw.len() < 4 {
            return Err(LoadError::InvalidFormat);
        }
        if !(raw[0] == 0x4e && raw[1] == 0x45 && raw[2] == 0x53 && raw[3] == 0x1a) {
            return Err(LoadError::InvalidFormat);
        }
        if raw.len() < HEADER_SIZE {
            return Err(LoadError::TruncatedImage);
        }
        let ctrl1 = raw[6];
        let ctrl2 = raw[7];
        if (ctrl2 >> 2) & 0x03 != 0 {
            return Err(LoadError::InvalidFormat);
        }
        let mapper = (ctrl2 & 0xf0) | (ctrl1 >> 4);
        if mapper != 0 {
            return Err(LoadError::UnsupportedMapper);
        }
        let prg_size = (raw[4] as usize) * PRG_BANK_SIZE;
        let chr_size = (raw[5] as usize) * CHR_BANK_SIZE;
        let prg_start = HEADER_SIZE + if ctrl1 & 0x04 != 0 {
            TRAINER_SIZE
        } else {
            0
        };
        if raw.len() < prg_start + prg_size + chr_size {
            return Err(LoadError::TruncatedImage);
        }
        let prg = copy_range(raw, prg_start, prg_size);
        let chr = copy_range(raw, prg_start + prg_size, chr_size);
        let mirroring = if ctrl1 & 0x08 != 0 {
            Mirroring::FourScreen
        } else if ctrl1 & 0x01 != 0 {
            Mirroring::Vertical
        } else {
            Mirroring::Horizontal
        };
        Ok(Rom { prg, chr, mapper, mirroring })
    }
}

} // verus!
