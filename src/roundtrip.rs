//! Converting a file that this library writes to the other container and back gives the
//! same bytes.
use vstd::prelude::*;
use crate::bytes::{
    i32_at, i64_at, le32, lemma_i32_bits, lemma_le32_read, tail_from, u32_at, u32_from_le,
};
use crate::dds::{dds_header, dds_info_of, payload_offset_of, tag_of, DdsInfo};
use crate::dds2tex::{chain_of, dds_to_tex};
use crate::error::Error;
use crate::format::{format_of_code, format_of_dxgi, format_of_tag, TexFormat};
use crate::mip::first_base;
use crate::tex::{lemma_mip_table_first, lemma_mip_table_len, mip_table, tex_header, tex_info_of};
use crate::tex2dds::tex_to_dds;

verus! {

/// A DDS file as this library writes it: the header for `format`, then the payload.
pub open spec fn dds_file(
    format: TexFormat,
    width: i32,
    height: i32,
    mip_count: i32,
    payload: Seq<u8>,
) -> Seq<u8> {
    dds_header(format, width, height, mip_count) + payload
}

/// A TEX file as this library writes it from compressed pixels: the header, the offset
/// table of the mip chain, then the payload.
pub open spec fn tex_file(
    format: TexFormat,
    width: i32,
    height: i32,
    mip_count: i32,
    payload: Seq<u8>,
) -> Seq<u8> {
    let info = DdsInfo {
        is_raw: false,
        height,
        width,
        mip_map_count: mip_count,
        format,
    };
    tex_header(mip_count, width, height, format, false) + mip_table(chain_of(info)) + payload
}

/// Each registered format is the one its TEX code names, and the one its DXGI format number
/// names.
pub proof fn lemma_code_names_format(f: TexFormat)
    requires
        f != TexFormat::DxgiFormatUnknown,
    ensures
        format_of_code(f.spec_code()) == f,
        format_of_dxgi(f.spec_dxgi_code()) == Some(f),
{
}

/// The tag of a registered format resolves to it, or to the provisional BC7 when generic.
pub proof fn lemma_tag_names_format(f: TexFormat)
    requires
        f != TexFormat::DxgiFormatUnknown,
    ensures
        format_of_tag(f.spec_magic()) == if f.spec_is_dx10() {
            TexFormat::DxgiFormatBc7Unorm
        } else {
            f
        },
{
}

/// Four bytes equal to the encoding of `v` read back as `v`.
pub proof fn lemma_field(s: Seq<u8>, off: int, v: u32)
    requires
        0 <= off,
        off + 4 <= s.len(),
        s.subrange(off, off + 4) == le32(v),
    ensures
        u32_at(s, off) == v,
{
    assert(s[off] == le32(v)[0]);
    assert(s[off + 1] == le32(v)[1]);
    assert(s[off + 2] == le32(v)[2]);
    assert(s[off + 3] == le32(v)[3]);
    lemma_le32_read(v);
}

/// Four bytes equal to the encoding of the signed `v` read back as `v`.
pub proof fn lemma_signed_field(s: Seq<u8>, off: int, v: i32)
    requires
        0 <= off,
        off + 4 <= s.len(),
        s.subrange(off, off + 4) == le32(v as u32),
    ensures
        i32_at(s, off) == v,
{
    lemma_field(s, off, v as u32);
    lemma_i32_bits(v);
}

/// Converting a DDS file that this library writes to TEX gives the TEX file of the same
/// format, dimensions, mip count and payload.
pub proof fn lemma_dds_file_to_tex(
    format: TexFormat,
    width: i32,
    height: i32,
    mip_count: i32,
    payload: Seq<u8>,
)
    requires
        format != TexFormat::DxgiFormatUnknown,
    ensures
        dds_to_tex(dds_file(format, width, height, mip_count, payload)) == Ok::<Seq<u8>, Error>(
            tex_file(format, width, height, mip_count, payload),
        ),
{
    let x = dds_file(format, width, height, mip_count, payload);
    let hd = dds_header(format, width, height, mip_count);
    assert(hd.len() == if format.spec_is_dx10() { 0x94int } else { 0x80int });
    assert(x.subrange(0, 4) =~= seq![0x44u8, 0x44u8, 0x53u8, 0x20u8]);
    assert(x[0] == 0x44u8 && x[1] == 0x44u8 && x[2] == 0x53u8 && x[3] == 0x20u8);
    assert(u32_from_le(0x44u8, 0x44u8, 0x53u8, 0x20u8) == 0x20534444u32) by (bit_vector);
    assert(i32_at(x, 0) == 0x20534444i32) by {
        assert((0x20534444u32 as i32) == 0x20534444i32) by (bit_vector);
    }
    assert(x[8] == 0x07u8 && x[9] == 0x10u8 && x[10] == 0x0Au8 && x[11] == 0x00u8);
    assert(u32_from_le(0x07u8, 0x10u8, 0x0Au8, 0x00u8) == 0x000A1007u32) by (bit_vector);
    assert(i32_at(x, 8) & 8 != 8) by {
        assert(((0x000A1007u32 as i32) & 8i32) != 8i32) by (bit_vector);
    }
    assert(x.subrange(0xC, 0x10) =~= le32(height as u32));
    lemma_signed_field(x, 0xC, height);
    assert(x.subrange(0x10, 0x14) =~= le32(width as u32));
    lemma_signed_field(x, 0x10, width);
    assert(x.subrange(0x1C, 0x20) =~= le32(mip_count as u32));
    lemma_signed_field(x, 0x1C, mip_count);
    assert(tag_of(x) =~= format.spec_magic());
    lemma_tag_names_format(format);
    lemma_code_names_format(format);
    if format.spec_is_dx10() {
        assert(x.subrange(0x80, 0x84) =~= le32(format.spec_dxgi_code() as u32));
        lemma_signed_field(x, 0x80, format.spec_dxgi_code());
    }
    let info = dds_info_of(x)->Ok_0;
    assert(payload_offset_of(info) == hd.len());
    assert(tail_from(x, hd.len() as int) =~= payload);
}

/// A field that lies in a common prefix of two sequences reads the same in both.
pub proof fn lemma_same_prefix_field(x: Seq<u8>, p: Seq<u8>, off: int)
    requires
        0 <= off,
        off + 4 <= p.len(),
        p.len() <= x.len(),
        x.subrange(0, p.len() as int) == p,
    ensures
        i32_at(x, off) == i32_at(p, off),
{
    assert(x[off] == x.subrange(0, p.len() as int)[off]);
    assert(x[off + 1] == x.subrange(0, p.len() as int)[off + 1]);
    assert(x[off + 2] == x.subrange(0, p.len() as int)[off + 2]);
    assert(x[off + 3] == x.subrange(0, p.len() as int)[off + 3]);
}

/// The fields of a written TEX header read back as written.
pub proof fn lemma_tex_header_fields(format: TexFormat, width: i32, height: i32, mip_count: i32)
    ensures
        ({
            let th = tex_header(mip_count, width, height, format, false);
            &&& th.len() == 0xB8
            &&& i32_at(th, 0) == 0x00584554
            &&& i32_at(th, 0x14) == mip_count
            &&& i32_at(th, 0x18) == width
            &&& i32_at(th, 0x1C) == height
            &&& i32_at(th, 0x24) == format.spec_code()
        }),
{
    reveal(tex_header);
    let x = tex_header(mip_count, width, height, format, false);
    assert(x.len() == 0xB8);
    assert(x.subrange(0, 4) =~= seq![0x54u8, 0x45u8, 0x58u8, 0x00u8]);
    assert(x[0] == 0x54u8 && x[1] == 0x45u8 && x[2] == 0x58u8 && x[3] == 0x00u8);
    assert(u32_from_le(0x54u8, 0x45u8, 0x58u8, 0x00u8) == 0x00584554u32) by (bit_vector);
    assert(i32_at(x, 0) == 0x00584554i32) by {
        assert((0x00584554u32 as i32) == 0x00584554i32) by (bit_vector);
    }
    assert(x.subrange(0x14, 0x18) =~= le32(mip_count as u32));
    lemma_signed_field(x, 0x14, mip_count);
    assert(x.subrange(0x18, 0x1C) =~= le32(width as u32));
    lemma_signed_field(x, 0x18, width);
    assert(x.subrange(0x1C, 0x20) =~= le32(height as u32));
    lemma_signed_field(x, 0x1C, height);
    assert(x.subrange(0x24, 0x28) =~= le32(format.spec_code() as u32));
    lemma_signed_field(x, 0x24, format.spec_code());
}

/// Converting a TEX file that this library writes to DDS gives the DDS file of the same
/// format, dimensions, mip count and payload, when the offset of level 0 fits the table.
pub proof fn lemma_tex_file_to_dds(
    format: TexFormat,
    width: i32,
    height: i32,
    mip_count: i32,
    payload: Seq<u8>,
)
    requires
        format != TexFormat::DxgiFormatUnknown,
        1 <= mip_count,
        first_base(mip_count as int) <= u32::MAX,
    ensures
        tex_to_dds(tex_file(format, width, height, mip_count, payload)) == Ok::<Seq<u8>, Error>(
            dds_file(format, width, height, mip_count, payload),
        ),
{
    let info = DdsInfo { is_raw: false, height, width, mip_map_count: mip_count, format };
    let x = tex_file(format, width, height, mip_count, payload);
    let th = tex_header(mip_count, width, height, format, false);
    let levels = chain_of(info);
    let table = mip_table(levels);
    lemma_mip_table_len(levels);
    lemma_mip_table_first(levels);
    let base0 = first_base(mip_count as int);
    assert(levels[0].base == base0 as i128);
    lemma_tex_header_fields(format, width, height, mip_count);
    assert(x.subrange(0, 0xB8) =~= th);
    lemma_same_prefix_field(x, th, 0);
    lemma_same_prefix_field(x, th, 0x14);
    lemma_same_prefix_field(x, th, 0x18);
    lemma_same_prefix_field(x, th, 0x1C);
    lemma_same_prefix_field(x, th, 0x24);
    lemma_code_names_format(format);
    let b = base0 as u32;
    assert(b == base0);
    assert(x.subrange(0xB8, 0xC0) =~= table.subrange(0, 8));
    let entry = le32(b) + le32(0);
    assert(x.subrange(0xB8, 0xC0) == entry);
    assert(x.subrange(0xB8, 0xBC) =~= entry.subrange(0, 4));
    assert(entry.subrange(0, 4) =~= le32(b));
    assert(x.subrange(0xBC, 0xC0) =~= entry.subrange(4, 8));
    assert(entry.subrange(4, 8) =~= le32(0));
    lemma_field(x, 0xB8, b);
    lemma_field(x, 0xBC, 0);
    assert(i64_at(x, 0xB8) == base0) by {
        assert(((b as u64) | ((0u32 as u64) << 32u64)) as i64 == b as i64) by (bit_vector);
    }
    assert(tex_info_of(x)->Ok_0.offset == base0);
    assert(tail_from(x, base0) =~= payload);
}

/// Converting a DDS file that this library writes to TEX and back gives the same bytes,
/// for every registered format, when the offset of level 0 fits the TEX table.
pub proof fn lemma_dds_round_trip(
    format: TexFormat,
    width: i32,
    height: i32,
    mip_count: i32,
    payload: Seq<u8>,
)
    requires
        format != TexFormat::DxgiFormatUnknown,
        1 <= mip_count,
        first_base(mip_count as int) <= u32::MAX,
    ensures
        ({
            let x = dds_file(format, width, height, mip_count, payload);
            &&& dds_to_tex(x) is Ok
            &&& tex_to_dds(dds_to_tex(x)->Ok_0) == Ok::<Seq<u8>, Error>(x)
        }),
{
    lemma_dds_file_to_tex(format, width, height, mip_count, payload);
    lemma_tex_file_to_dds(format, width, height, mip_count, payload);
}

/// Converting a TEX file that this library writes to DDS and back gives the same bytes,
/// for every registered format, when the offset of level 0 fits the TEX table.
pub proof fn lemma_tex_round_trip(
    format: TexFormat,
    width: i32,
    height: i32,
    mip_count: i32,
    payload: Seq<u8>,
)
    requires
        format != TexFormat::DxgiFormatUnknown,
        1 <= mip_count,
        first_base(mip_count as int) <= u32::MAX,
    ensures
        ({
            let y = tex_file(format, width, height, mip_count, payload);
            &&& tex_to_dds(y) is Ok
            &&& dds_to_tex(tex_to_dds(y)->Ok_0) == Ok::<Seq<u8>, Error>(y)
        }),
{
    lemma_tex_file_to_dds(format, width, height, mip_count, payload);
    lemma_dds_file_to_tex(format, width, height, mip_count, payload);
}

} // verus!
