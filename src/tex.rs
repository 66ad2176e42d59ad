//! The TEX container: header parsing and header writing.
use vstd::prelude::*;
use crate::bytes::{
    i32_at, i64_at, le16, le32, push_all, push_u16, push_u32, push_zeros, read_i32, read_i64, zeros,
};
use crate::error::Error;
use crate::format::{format_of_code, TexFormat};
use crate::mip::{half_toward_zero, MipLevel};

verus! {

/// The TEX signature, `"TEX\0"` read as a little-endian `i32`.
pub const TEX_MAGIC: i32 = 0x00584554;

/// Offset of the mip count, followed by the width and the height.
pub const TEX_MIP_COUNT_OFFSET: usize = 0x14;

/// Offset of the format code.
pub const TEX_FORMAT_OFFSET: usize = 0x24;

/// Offset of the first entry of the mip offset table, read as the payload offset.
pub const TEX_PAYLOAD_OFFSET_FIELD: usize = 0xB8;

/// The header fields of a TEX file that a conversion needs.
#[derive(Debug, Clone, Copy, PartialEq, Eq, Structural)]
pub struct TexInfo {
    pub magic: i32,
    pub mip_map_count: i32,
    pub width: i32,
    pub height: i32,
    pub format: TexFormat,
    /// Where the pixel payload starts.
    pub offset: i64,
}

/// What parsing the header of `s` gives.
pub open spec fn tex_info_of(s: Seq<u8>) -> Result<TexInfo, Error> {
    if s.len() < 4 {
        Err(Error::UnexpectedEof)
    } else if i32_at(s, 0) != TEX_MAGIC {
        Err(Error::BadMagic(TEX_MAGIC, i32_at(s, 0)))
    } else if s.len() < TEX_FORMAT_OFFSET + 4 {
        Err(Error::UnexpectedEof)
    } else if format_of_code(i32_at(s, TEX_FORMAT_OFFSET as int)) == TexFormat::DxgiFormatUnknown {
        Err(Error::UnknownTexFormat)
    } else if s.len() < TEX_PAYLOAD_OFFSET_FIELD + 8 {
        Err(Error::UnexpectedEof)
    } else {
        Ok(
            TexInfo {
                magic: TEX_MAGIC,
                mip_map_count: i32_at(s, TEX_MIP_COUNT_OFFSET as int),
                width: i32_at(s, TEX_MIP_COUNT_OFFSET + 4),
                height: i32_at(s, TEX_MIP_COUNT_OFFSET + 8),
                format: format_of_code(i32_at(s, TEX_FORMAT_OFFSET as int)),
                offset: i64_at(s, TEX_PAYLOAD_OFFSET_FIELD as int),
            },
        )
    }
}

impl TexInfo {
    /// Parses the header of a TEX file: the signature, the mip count, the dimensions, the
    /// format and the payload offset.
    pub fn from_reader(data: &[u8]) -> (r: Result<TexInfo, Error>)
        ensures
            r == tex_info_of(data@),
    {
        if data.len() < 4 {
            return Err(Error::UnexpectedEof);
        }
        let magic = read_i32(data, 0);
        if magic != TEX_MAGIC {
            return Err(Error::BadMagic(TEX_MAGIC, magic));
        }
        if data.len() < TEX_FORMAT_OFFSET + 4 {
            return Err(Error::UnexpectedEof);
        }
        let mip_map_count = read_i32(data, TEX_MIP_COUNT_OFFSET);
        let width = read_i32(data, TEX_MIP_COUNT_OFFSET + 4);
        let height = read_i32(data, TEX_MIP_COUNT_OFFSET + 8);
        let format = TexFormat::from_code(read_i32(data, TEX_FORMAT_OFFSET));
        if format == TexFormat::DxgiFormatUnknown {
            return Err(Error::UnknownTexFormat);
        }
        if data.len() < TEX_PAYLOAD_OFFSET_FIELD + 8 {
            return Err(Error::UnexpectedEof);
        }
        let offset = read_i64(data, TEX_PAYLOAD_OFFSET_FIELD);
        Ok(TexInfo { magic, mip_map_count, width, height, format, offset })
    }
}

/// The first 20 bytes of a TEX file: the signature and the version preamble.
pub open spec fn tex_preamble() -> Seq<u8> {
    seq![
        0x54u8, 0x45u8, 0x58u8, 0x00u8, 0x10u8, 0x00u8, 0x00u8, 0x00u8, 0x00u8, 0x00u8,
        0x00u8, 0x00u8, 0x00u8, 0x00u8, 0x00u8, 0x00u8, 0x02u8, 0x00u8, 0x00u8, 0x00u8,
    ]
}

/// The 28 bytes that follow the format code, of unknown meaning but fixed.
pub open spec fn tex_fixed_block() -> Seq<u8> {
    seq![
        0x01u8, 0x00u8, 0x00u8, 0x00u8, 0x00u8, 0x00u8, 0x00u8, 0x00u8, 0x00u8, 0x00u8,
        0x00u8, 0x00u8, 0x00u8, 0x00u8, 0x00u8, 0x00u8, 0xFFu8, 0xFFu8, 0xFFu8, 0xFFu8,
        0x00u8, 0x00u8, 0x00u8, 0x00u8, 0x00u8, 0x00u8, 0x00u8, 0x00u8,
    ]
}

/// `n` bytes of value `0xFF`: the eight reserved fields of value -1.
pub open spec fn ones(n: nat) -> Seq<u8> {
    Seq::new(n, |i: int| 0xFFu8)
}

/// One of the three repeated width groups: the first width as 16 bits, the width as 16
/// bits, 8 reserved bytes.
pub open spec fn width_group(width: i32, full_width: bool) -> Seq<u8> {
    let first: int = if full_width {
        width as int
    } else {
        half_toward_zero(width as int)
    };
    le16(first as u16) + le16(width as u16) + zeros(8)
}

/// The fixed-size part of a TEX header, up to the mip offset table.
#[verifier::opaque]
pub open spec fn tex_header(
    mip_count: i32,
    width: i32,
    height: i32,
    format: TexFormat,
    is_raw: bool,
) -> Seq<u8> {
    let full = is_raw || format == TexFormat::DxgiFormatR8G8Unorm;
    let group = width_group(width, full);
    tex_preamble() + le32(mip_count as u32) + le32(width as u32) + le32(height as u32) + le32(1)
        + le32(format.spec_code() as u32) + tex_fixed_block() + le32(
        if format.spec_is_new_dds() {
            1
        } else {
            0
        },
    ) + zeros(16) + ones(32) + le32(width as u32) + group + group + group + zeros(24)
}

/// The mip offset table: for each level its offset as 32 bits and a zero size field.
pub open spec fn mip_table(levels: Seq<MipLevel>) -> Seq<u8>
    decreases levels.len(),
{
    if levels.len() == 0 {
        Seq::empty()
    } else {
        mip_table(levels.drop_last()) + le32(levels.last().base as u32) + le32(0)
    }
}

/// Appends one width group.
fn write_width_group(out: &mut Vec<u8>, width: i32, full_width: bool)
    ensures
        final(out)@ == old(out)@ + width_group(width, full_width),
{
    let first: i32 = if full_width {
        width
    } else if width >= 0 {
        width / 2
    } else {
        -((-(width as i64)) / 2) as i32
    };
    push_u16(out, first as u16);
    push_u16(out, width as u16);
    push_zeros(out, 8);
    assert(final(out)@ =~= old(out)@ + width_group(width, full_width));
}

/// Appends the fixed-size part of a TEX header.
pub fn write_tex_header(
    out: &mut Vec<u8>,
    mip_count: i32,
    width: i32,
    height: i32,
    format: TexFormat,
    is_raw: bool,
)
    ensures
        final(out)@ == old(out)@ + tex_header(mip_count, width, height, format, is_raw),
{
    let ghost start = out@;
    push_all(
        out,
        &[
            0x54u8, 0x45u8, 0x58u8, 0x00u8, 0x10u8, 0x00u8, 0x00u8, 0x00u8, 0x00u8, 0x00u8,
            0x00u8, 0x00u8, 0x00u8, 0x00u8, 0x00u8, 0x00u8, 0x02u8, 0x00u8, 0x00u8, 0x00u8,
        ],
    );
    assert(out@ =~= start + tex_preamble());
    push_u32(out, mip_count as u32);
    push_u32(out, width as u32);
    push_u32(out, height as u32);
    push_u32(out, 1);
    push_u32(out, format.code() as u32);
    let ghost before_fixed = out@;
    push_all(
        out,
        &[
            0x01u8, 0x00u8, 0x00u8, 0x00u8, 0x00u8, 0x00u8, 0x00u8, 0x00u8, 0x00u8, 0x00u8,
            0x00u8, 0x00u8, 0x00u8, 0x00u8, 0x00u8, 0x00u8, 0xFFu8, 0xFFu8, 0xFFu8, 0xFFu8,
            0x00u8, 0x00u8, 0x00u8, 0x00u8, 0x00u8, 0x00u8, 0x00u8, 0x00u8,
        ],
    );
    assert(out@ =~= before_fixed + tex_fixed_block());
    if format.is_new_dds() {
        push_u32(out, 1);
    } else {
        push_u32(out, 0);
    }
    push_zeros(out, 16);
    let ghost before_ones = out@;
    let mut i: usize = 0;
    while i < 32
        invariant
            i <= 32,
            out@ == before_ones + ones(i as nat),
        decreases 32 - i,
    {
        out.push(0xFFu8);
        i = i + 1;
        assert(out@ =~= before_ones + ones(i as nat));
    }
    push_u32(out, width as u32);
    let full = is_raw || format == TexFormat::DxgiFormatR8G8Unorm;
    write_width_group(out, width, full);
    write_width_group(out, width, full);
    write_width_group(out, width, full);
    push_zeros(out, 24);
    reveal(tex_header);
    assert(out@ =~= start + tex_header(mip_count, width, height, format, is_raw));
}

} // verus!

verus! {

/// Appends the mip offset table of `levels`.
pub fn write_mip_table(out: &mut Vec<u8>, levels: &Vec<MipLevel>)
    ensures
        final(out)@ == old(out)@ + mip_table(levels@),
{
    let ghost start = out@;
    let mut i: usize = 0;
    while i < levels.len()
        invariant
            i <= levels@.len(),
            out@ == start + mip_table(levels@.subrange(0, i as int)),
        decreases levels@.len() - i,
    {
        let level = levels[i];
        push_u32(out, level.base as u32);
        push_u32(out, 0);
        proof {
            let next = levels@.subrange(0, i + 1);
            assert(next.drop_last() =~= levels@.subrange(0, i as int));
            assert(next.last() == level);
        }
        i = i + 1;
        assert(out@ =~= start + mip_table(levels@.subrange(0, i as int)));
    }
    assert(levels@.subrange(0, levels@.len() as int) =~= levels@);
}

} // verus!

verus! {

/// The mip offset table takes eight bytes per level.
pub proof fn lemma_mip_table_len(levels: Seq<MipLevel>)
    ensures
        mip_table(levels).len() == 8 * levels.len(),
    decreases levels.len(),
{
    if levels.len() > 0 {
        lemma_mip_table_len(levels.drop_last());
    }
}

/// The first entry of the mip offset table holds the offset of level 0.
pub proof fn lemma_mip_table_first(levels: Seq<MipLevel>)
    requires
        levels.len() >= 1,
    ensures
        mip_table(levels).len() >= 8,
        mip_table(levels).subrange(0, 8) == le32(levels[0].base as u32) + le32(0),
    decreases levels.len(),
{
    lemma_mip_table_len(levels);
    if levels.len() == 1 {
        assert(levels.drop_last() =~= Seq::<MipLevel>::empty());
        assert(mip_table(levels).subrange(0, 8) =~= le32(levels[0].base as u32) + le32(0));
    } else {
        let rest = levels.drop_last();
        lemma_mip_table_first(rest);
        assert(rest[0] == levels[0]);
        assert(mip_table(levels).subrange(0, 8) =~= mip_table(rest).subrange(0, 8));
    }
}

} // verus!

verus! {

/// Entry `k` of the mip offset table holds the offset of level `k`.
pub proof fn lemma_mip_table_entry(levels: Seq<MipLevel>, k: int)
    requires
        0 <= k < levels.len(),
    ensures
        mip_table(levels).len() == 8 * levels.len(),
        mip_table(levels).subrange(8 * k, 8 * k + 4) == le32(levels[k].base as u32),
    decreases levels.len(),
{
    lemma_mip_table_len(levels);
    let rest = levels.drop_last();
    lemma_mip_table_len(rest);
    let t = mip_table(levels);
    if k == levels.len() - 1 {
        assert(t.subrange(8 * k, 8 * k + 4) =~= le32(levels.last().base as u32));
    } else {
        lemma_mip_table_entry(rest, k);
        assert(rest[k] == levels[k]);
        assert(t.subrange(8 * k, 8 * k + 4) =~= mip_table(rest).subrange(8 * k, 8 * k + 4));
    }
}

} // verus!

verus! {

/// The fixed-size part of a TEX header takes `0xB8` bytes.
pub proof fn lemma_tex_header_len(
    mip_count: i32,
    width: i32,
    height: i32,
    format: TexFormat,
    is_raw: bool,
)
    ensures
        tex_header(mip_count, width, height, format, is_raw).len() == TEX_PAYLOAD_OFFSET_FIELD,
{
    reveal(tex_header);
}

} // verus!
