//! iNES 1.0 images: header parsing, nametable mirroring and the saved form
//! of a cartridge image.
use vstd::prelude::*;
use crate::buffer::{
    Buffer, bool_byte, le32, le64, lemma_consumed_chain, lemma_le32_injective, lemma_le64_injective,
};

verus! {

/// How the four logical nametables map onto the two physical ones.
#[derive(Clone, Copy, Debug, PartialEq, Eq, Structural)]
pub enum Mirroring {
    Horizontal,
    Vertical,
    OneScreenLower,
    OneScreenUpper,
    FourScreen,
}

/// Why an image could not be loaded.
#[derive(Clone, Copy, Debug, PartialEq, Eq, Structural)]
pub enum LoadError {
    InvalidMagic,
    UnsupportedVersion,
    UnsupportedMapper(u8),
    Truncated,
}

/// The physical 1 KB nametable that logical nametable `table` (0..=3) uses.
pub open spec fn physical_table(m: Mirroring, table: int) -> int {
    match m {
        Mirroring::Horizontal => table / 2,
        Mirroring::Vertical => table % 2,
        Mirroring::OneScreenLower => 0,
        Mirroring::OneScreenUpper => 1,
        // Only 2 KB of nametable memory exist: tables 2 and 3 share 0 and 1.
        Mirroring::FourScreen => table % 2,
    }
}

/// The tag a mirroring mode is saved as.
pub open spec fn mirroring_tag(m: Mirroring) -> u8 {
    match m {
        Mirroring::Horizontal => 0,
        Mirroring::Vertical => 1,
        Mirroring::OneScreenLower => 2,
        Mirroring::OneScreenUpper => 3,
        Mirroring::FourScreen => 4,
    }
}

impl Mirroring {
    /// Maps a PPU address in the nametable area (0x2000..=0x3EFF) to an
    /// offset in the 2 KB of nametable memory.
    pub fn get_address(&self, addr: u16) -> (r: u16)
        ensures
            r < 0x800,
            r as int == physical_table(*self, ((addr & 0x0fff) / 0x400) as int) * 0x400 + (addr
                & 0x03ff),
    {
        let a = addr & 0x0fff;
        let table = a / 0x400;
        let offset = addr & 0x03ff;
        assert(a <= 0x0fff) by (bit_vector)
            requires
                a == addr & 0x0fff,
        ;
        assert(offset <= 0x03ff) by (bit_vector)
            requires
                offset == addr & 0x03ff,
        ;
        let physical: u16 = match self {
            Mirroring::Horizontal => table / 2,
            Mirroring::Vertical => table % 2,
            Mirroring::OneScreenLower => 0,
            Mirroring::OneScreenUpper => 1,
            Mirroring::FourScreen => table % 2,
        };
        physical * 0x400 + offset
    }
}

/// A cartridge image and what its header says.
#[derive(Debug)]
pub struct ROM {
    /// The whole image file, header included.
    pub bytes: Vec<u8>,
    /// Number of 16 KB PRG-ROM banks.
    pub prg_rom_banks: u8,
    /// Number of 8 KB CHR-ROM banks; 0 means the board has CHR-RAM.
    pub chr_rom_banks: u8,
    pub prg_rom_start: usize,
    pub chr_rom_start: usize,
    pub mapper_id: u8,
    pub mirroring: Mirroring,
    pub trainer: bool,
}

/// The byte at `i` of `s`, or 0 past its end.
pub open spec fn byte_or_zero(s: Seq<u8>, i: int) -> u8 {
    if 0 <= i < s.len() {
        s[i]
    } else {
        0
    }
}

/// Reads byte `base + offset` of an image; positions past its end read
/// as 0.
pub fn byte_at(bytes: &Vec<u8>, base: usize, offset: usize) -> (r: u8)
    ensures
        r == byte_or_zero(bytes@, base + offset),
{
    if offset < bytes.len() && base < bytes.len() - offset {
        bytes[base + offset]
    } else {
        0
    }
}

/// The magic number of an iNES file: "NES" and 0x1A.
pub open spec fn has_magic(b: Seq<u8>) -> bool {
    b.len() >= 4 && b[0] == 0x4e && b[1] == 0x45 && b[2] == 0x53 && b[3] == 0x1a
}

pub open spec fn header_mapper(b: Seq<u8>) -> u8
    recommends
        b.len() >= 8,
{
    (b[7] & 0xf0) | (b[6] >> 4u8)
}

pub open spec fn header_trainer(b: Seq<u8>) -> bool
    recommends
        b.len() >= 8,
{
    b[6] & 0x04 != 0
}

pub open spec fn header_mirroring(b: Seq<u8>) -> Mirroring
    recommends
        b.len() >= 8,
{
    if b[6] & 0x08 != 0 {
        Mirroring::FourScreen
    } else if b[6] & 0x01 != 0 {
        Mirroring::Vertical
    } else {
        Mirroring::Horizontal
    }
}

/// Header, optional trainer, PRG-ROM and CHR-ROM sizes together.
pub open spec fn image_len(b: Seq<u8>) -> int
    recommends
        b.len() >= 8,
{
    16 + (if header_trainer(b) {
        512int
    } else {
        0int
    }) + 16384 * b[4] + 8192 * b[5]
}

/// The mapper numbers this core implements: NROM, UxROM and MMC3.
pub open spec fn supported_mapper(id: u8) -> bool {
    id == 0 || id == 2 || id == 4
}

/// The outcome of loading `b` as an iNES 1.0 image.
pub open spec fn load_outcome(b: Seq<u8>) -> Result<(), LoadError> {
    if b.len() < 16 {
        if has_magic(b) || b.len() < 4 {
            Err(LoadError::Truncated)
        } else {
            Err(LoadError::InvalidMagic)
        }
    } else if !has_magic(b) {
        Err(LoadError::InvalidMagic)
    } else if (b[7] >> 2u8) & 3 != 0 {
        Err(LoadError::UnsupportedVersion)
    } else if !supported_mapper(header_mapper(b)) {
        Err(LoadError::UnsupportedMapper(header_mapper(b)))
    } else if b.len() < image_len(b) {
        Err(LoadError::Truncated)
    } else {
        Ok(())
    }
}

impl ROM {
    /// The bytes a cartridge image is saved as.
    pub open spec fn bytes_spec(&self) -> Seq<u8> {
        le64(self.bytes@.len() as u64) + self.bytes@ + seq![self.prg_rom_banks] + seq![
            self.chr_rom_banks,
        ] + le32(self.prg_rom_start as u32) + le32(self.chr_rom_start as u32) + seq![self.mapper_id]
            + seq![mirroring_tag(self.mirroring)] + bool_byte(self.trainer)
    }

    /// The header fields agree with the image and the offsets fit the saved
    /// form.
    pub open spec fn wf(&self) -> bool {
        &&& self.prg_rom_start <= u32::MAX
        &&& self.chr_rom_start <= u32::MAX
    }

    /// Parses the header of an iNES 1.0 image.
    pub fn parse(bytes: Vec<u8>) -> (r: Result<ROM, LoadError>)
        ensures
            match r {
                Ok(_) => load_outcome(bytes@) == Ok::<(), LoadError>(()),
                Err(e) => load_outcome(bytes@) == Err::<(), LoadError>(e),
            },
            r is Ok ==> {
                let rom = r->Ok_0;
                &&& rom.wf()
                &&& rom.bytes@ == bytes@
                &&& rom.prg_rom_banks == bytes@[4]
                &&& rom.chr_rom_banks == bytes@[5]
                &&& rom.trainer == header_trainer(bytes@)
                &&& rom.prg_rom_start == 16 + (if rom.trainer { 512int } else { 0int })
                &&& rom.chr_rom_start == rom.prg_rom_start + 16384 * rom.prg_rom_banks
                &&& rom.mapper_id == header_mapper(bytes@)
                &&& rom.mirroring == header_mirroring(bytes@)
            },
    {
        if bytes.len() < 16 {
            if bytes.len() >= 4 && !(bytes[0] == 0x4e && bytes[1] == 0x45 && bytes[2] == 0x53
                && bytes[3] == 0x1a) {
                return Err(LoadError::InvalidMagic);
            }
            return Err(LoadError::Truncated);
        }
        if !(bytes[0] == 0x4e && bytes[1] == 0x45 && bytes[2] == 0x53 && bytes[3] == 0x1a) {
            return Err(LoadError::InvalidMagic);
        }
        if (bytes[7] >> 2u8) & 3 != 0 {
            return Err(LoadError::UnsupportedVersion);
        }
        let mapper_id = (bytes[7] & 0xf0) | (bytes[6] >> 4u8);
        if !(mapper_id == 0 || mapper_id == 2 || mapper_id == 4) {
            return Err(LoadError::UnsupportedMapper(mapper_id));
        }
        let prg_rom_banks = bytes[4];
        let chr_rom_banks = bytes[5];
        let trainer = bytes[6] & 0x04 != 0;
        let prg_rom_start: usize = if trainer { 16 + 512 } else { 16 };
        let chr_rom_start: usize = prg_rom_start + 16384 * (prg_rom_banks as usize);
        let end: usize = chr_rom_start + 8192 * (chr_rom_banks as usize);
        if bytes.len() < end {
            return Err(LoadError::Truncated);
        }
        let mirroring = if bytes[6] & 0x08 != 0 {
            Mirroring::FourScreen
        } else if bytes[6] & 0x01 != 0 {
            Mirroring::Vertical
        } else {
            Mirroring::Horizontal
        };
        Ok(
            ROM {
                bytes,
                prg_rom_banks,
                chr_rom_banks,
                prg_rom_start,
                chr_rom_start,
                mapper_id,
                mirroring,
                trainer,
            },
        )
    }
}

impl ROM {
    pub fn encode(&self, buffer: &mut Buffer)
        ensures
            self.wf() ==> final(buffer).data@ == old(buffer).data@ + self.bytes_spec(),
            old(buffer).data@.is_prefix_of(final(buffer).data@),
            final(buffer).index == old(buffer).index,
            final(buffer).overrun == old(buffer).overrun,
    {
        buffer.write_u64(self.bytes.len() as u64);
        buffer.write_u8_arr(self.bytes.as_slice());
        buffer.write_u8(self.prg_rom_banks);
        buffer.write_u8(self.chr_rom_banks);
        buffer.write_u32(self.prg_rom_start as u32);
        buffer.write_u32(self.chr_rom_start as u32);
        buffer.write_u8(self.mapper_id);
        buffer.write_u8(
            match self.mirroring {
                Mirroring::Horizontal => 0,
                Mirroring::Vertical => 1,
                Mirroring::OneScreenLower => 2,
                Mirroring::OneScreenUpper => 3,
                Mirroring::FourScreen => 4,
            },
        );
        buffer.write_bool(self.trainer);
        assert(old(buffer).data@.is_prefix_of(buffer.data@));
        if self.prg_rom_start <= u32::MAX as usize && self.chr_rom_start <= u32::MAX as usize {
            assert(buffer.data@ =~= old(buffer).data@ + self.bytes_spec());
        }
    }

    /// Reads a saved image back. A length longer than what is left, or a
    /// mirroring tag above 4, marks the buffer as failed.
    #[verifier::rlimit(100)]
    pub fn decode(buffer: &mut Buffer) -> (r: ROM)
        requires
            old(buffer).wf(),
        ensures
            r.wf(),
            Buffer::consumed(*old(buffer), *final(buffer), r.bytes_spec()),
    {
        let ghost b0 = *buffer;
        let len = buffer.read_u64();
        let ghost ba = *buffer;
        let remaining = buffer.data.len() - buffer.index;
        let n: usize = if len as u128 <= remaining as u128 { len as usize } else { 0 };
        if len as u128 > remaining as u128 {
            buffer.overrun = true;
        }
        let ghost b1 = *buffer;
        let mut bytes: Vec<u8> = vec![0u8; n];
        buffer.read_u8_arr(bytes.as_mut_slice());
        let ghost b2 = *buffer;
        let prg_rom_banks = buffer.read_u8();
        let ghost b3 = *buffer;
        let chr_rom_banks = buffer.read_u8();
        let ghost b4 = *buffer;
        let prg_rom_start = buffer.read_u32();
        let ghost b5 = *buffer;
        let chr_rom_start = buffer.read_u32();
        let ghost b6 = *buffer;
        let mapper_id = buffer.read_u8();
        let ghost b7 = *buffer;
        let tag = buffer.read_u8();
        let ghost b8 = *buffer;
        let trainer = buffer.read_bool();
        let mirroring = match tag {
            0 => Mirroring::Horizontal,
            1 => Mirroring::Vertical,
            2 => Mirroring::OneScreenLower,
            3 => Mirroring::OneScreenUpper,
            _ => Mirroring::FourScreen,
        };
        let r = ROM {
            bytes,
            prg_rom_banks,
            chr_rom_banks,
            prg_rom_start: prg_rom_start as usize,
            chr_rom_start: chr_rom_start as usize,
            mapper_id,
            mirroring,
            trainer,
        };
        proof {
            let lenb = le64(len);
            if len as u128 > remaining as u128 {
                assert(b0.index <= ba.index);
                assert(b1.overrun && b0.index <= b1.index);
            } else {
                assert(n as u64 == len);
            }
            lemma_consumed_chain(b0, b1, b2, lenb, bytes@);
            lemma_consumed_chain(b0, b2, b3, lenb + bytes@, seq![prg_rom_banks]);
            lemma_consumed_chain(b0, b3, b4, lenb + bytes@ + seq![prg_rom_banks], seq![chr_rom_banks]);
            let head4 = lenb + bytes@ + seq![prg_rom_banks] + seq![chr_rom_banks];
            lemma_consumed_chain(b0, b4, b5, head4, le32(prg_rom_start));
            lemma_consumed_chain(b0, b5, b6, head4 + le32(prg_rom_start), le32(chr_rom_start));
            let head6 = head4 + le32(prg_rom_start) + le32(chr_rom_start);
            lemma_consumed_chain(b0, b6, b7, head6, seq![mapper_id]);
            lemma_consumed_chain(b0, b7, b8, head6 + seq![mapper_id], seq![tag]);
            lemma_consumed_chain(b0, b8, *buffer, head6 + seq![mapper_id] + seq![tag], bool_byte(trainer));
            if tag <= 4 && len as u128 <= remaining as u128 {
                assert(bytes@.len() as u64 == len);
                assert(mirroring_tag(mirroring) == tag);
                assert(head6 + seq![mapper_id] + seq![tag] + bool_byte(trainer) == r.bytes_spec());
            }
        }
        if tag > 4 {
            buffer.overrun = true;
        }
        r
    }
}

/// Restoring a saved image gives it back: when the unread bytes begin with
/// the encoding of `r` and a decode consumed them into `d` without
/// failing, `d` holds the same image and header fields.
pub proof fn lemma_rom_round_trip(r: ROM, d: ROM, b0: Buffer, b1: Buffer)
    requires
        r.wf(),
        d.wf(),
        r.bytes@.len() <= u64::MAX,
        d.bytes@.len() <= u64::MAX,
        b0.wf(),
        b0.index + r.bytes_spec().len() <= b0.data@.len(),
        b0.data@.subrange(b0.index as int, b0.index + r.bytes_spec().len()) == r.bytes_spec(),
        Buffer::consumed(b0, b1, d.bytes_spec()),
        !b1.overrun,
    ensures
        d.bytes@ == r.bytes@,
        d.prg_rom_banks == r.prg_rom_banks,
        d.chr_rom_banks == r.chr_rom_banks,
        d.prg_rom_start == r.prg_rom_start,
        d.chr_rom_start == r.chr_rom_start,
        d.mapper_id == r.mapper_id,
        d.mirroring == r.mirroring,
        d.trainer == r.trainer,
{
    let i = b0.index as int;
    let rs = r.bytes_spec();
    let ds = d.bytes_spec();
    let n = r.bytes@.len() as int;
    let m = d.bytes@.len() as int;
    assert(ds.subrange(0, 8) =~= b0.data@.subrange(i, i + 8));
    assert(rs.subrange(0, 8) =~= b0.data@.subrange(i, i + 8));
    assert(ds.subrange(0, 8) =~= le64(m as u64));
    assert(rs.subrange(0, 8) =~= le64(n as u64));
    lemma_le64_injective(m as u64, n as u64);
    assert(m == n);
    assert(ds =~= rs);
    assert(d.bytes@ =~= ds.subrange(8, 8 + n));
    assert(r.bytes@ =~= rs.subrange(8, 8 + n));
    assert(ds[8 + n] == rs[8 + n]);
    assert(ds[9 + n] == rs[9 + n]);
    assert(le32(d.prg_rom_start as u32) =~= ds.subrange(10 + n, 14 + n));
    assert(le32(r.prg_rom_start as u32) =~= rs.subrange(10 + n, 14 + n));
    lemma_le32_injective(d.prg_rom_start as u32, r.prg_rom_start as u32);
    assert(le32(d.chr_rom_start as u32) =~= ds.subrange(14 + n, 18 + n));
    assert(le32(r.chr_rom_start as u32) =~= rs.subrange(14 + n, 18 + n));
    lemma_le32_injective(d.chr_rom_start as u32, r.chr_rom_start as u32);
    assert(ds[18 + n] == rs[18 + n]);
    assert(ds[19 + n] == rs[19 + n]);
    assert(ds[20 + n] == rs[20 + n]);
}

} // verus!
