//! What holds of the two conversions together, and of their error behaviour.
use vstd::prelude::*;
use crate::bytes::{i32_at, tail_from};
use crate::dds::{
    dds_header, dds_info_of, payload_offset_of, tag_of, DDS_DX10_PAYLOAD_OFFSET, DDS_DXGI_OFFSET,
    DDS_MAGIC, DDS_PAYLOAD_OFFSET,
};
use crate::dds2tex::{chain_of, dds_to_tex};
use crate::error::Error;
use crate::format::{dx10_tag, format_of_code, TexFormat};
use crate::mip::{base_at, first_base, lemma_bases_ordered, level_count};
use crate::roundtrip::lemma_signed_field;
use crate::tex::{
    lemma_mip_table_entry, lemma_mip_table_len, lemma_tex_header_len, mip_table, tex_header,
    tex_info_of, TEX_FORMAT_OFFSET, TEX_MAGIC,
};
use crate::tex2dds::tex_to_dds;

verus! {

/// A TEX input of at least four bytes whose signature is wrong fails with `BadMagic`,
/// carrying the TEX signature and the value found.
pub proof fn lemma_tex_bad_magic(s: Seq<u8>)
    requires
        s.len() >= 4,
        i32_at(s, 0) != TEX_MAGIC,
    ensures
        tex_to_dds(s) == Err::<Seq<u8>, Error>(Error::BadMagic(TEX_MAGIC, i32_at(s, 0))),
{
}

/// A DDS input of at least four bytes whose signature is wrong fails with `BadMagic`,
/// carrying the DDS signature and the value found.
pub proof fn lemma_dds_bad_magic(s: Seq<u8>)
    requires
        s.len() >= 4,
        i32_at(s, 0) != DDS_MAGIC,
    ensures
        dds_to_tex(s) == Err::<Seq<u8>, Error>(Error::BadMagic(DDS_MAGIC, i32_at(s, 0))),
{
}

/// A DDS input with the generic DX10 tag and the BC6H DXGI format number in its extension
/// header resolves to BC6H, not to the provisional BC7; compressed, its payload starts after
/// the extension header.
pub proof fn lemma_dx10_bc6h(s: Seq<u8>)
    requires
        s.len() >= DDS_DXGI_OFFSET + 4,
        i32_at(s, 0) == DDS_MAGIC,
        tag_of(s) == dx10_tag(),
        i32_at(s, DDS_DXGI_OFFSET as int) == TexFormat::DxgiFormatBc6hUf16.spec_dxgi_code(),
    ensures
        dds_info_of(s) is Ok,
        dds_info_of(s)->Ok_0.format == TexFormat::DxgiFormatBc6hUf16,
        !dds_info_of(s)->Ok_0.is_raw ==> payload_offset_of(dds_info_of(s)->Ok_0)
            == DDS_DX10_PAYLOAD_OFFSET,
{
}

/// A TEX input with the right signature whose format code is not registered fails with
/// `UnknownTexFormat`, and so yields no output.
pub proof fn lemma_tex_unknown_format(s: Seq<u8>)
    requires
        s.len() >= TEX_FORMAT_OFFSET + 4,
        i32_at(s, 0) == TEX_MAGIC,
        format_of_code(i32_at(s, TEX_FORMAT_OFFSET as int)) == TexFormat::DxgiFormatUnknown,
    ensures
        tex_to_dds(s) == Err::<Seq<u8>, Error>(Error::UnknownTexFormat),
{
}

/// A successful TEX to DDS conversion is the DDS header, 0x94 bytes long with the DX10
/// extension and 0x80 without, followed by the TEX payload byte for byte.
pub proof fn lemma_tex_to_dds_payload(s: Seq<u8>)
    requires
        tex_to_dds(s) is Ok,
    ensures
        ({
            let out = tex_to_dds(s)->Ok_0;
            let info = tex_info_of(s)->Ok_0;
            let payload = tail_from(s, info.offset as int);
            let start: int = if info.format.spec_is_dx10() {
                DDS_DX10_PAYLOAD_OFFSET as int
            } else {
                DDS_PAYLOAD_OFFSET as int
            };
            &&& out.len() == start + payload.len()
            &&& out.subrange(start, out.len() as int) == payload
        }),
{
    let info = tex_info_of(s)->Ok_0;
    let payload = tail_from(s, info.offset as int);
    let out = tex_to_dds(s)->Ok_0;
    let h = dds_header(info.format, info.width, info.height, info.mip_map_count);
    assert(out.subrange(h.len() as int, out.len() as int) =~= payload);
}

/// A successful DDS to TEX conversion is the 0xB8-byte TEX header and an eight-byte table
/// entry per level, followed by the DDS payload byte for byte.
pub proof fn lemma_dds_to_tex_payload(s: Seq<u8>)
    requires
        dds_to_tex(s) is Ok,
    ensures
        ({
            let out = dds_to_tex(s)->Ok_0;
            let info = dds_info_of(s)->Ok_0;
            let payload = tail_from(s, payload_offset_of(info));
            let start: int = 0xB8 + 8 * (level_count(info.mip_map_count) as int);
            &&& out.len() == start + payload.len()
            &&& out.subrange(start, out.len() as int) == payload
        }),
{
    let info = dds_info_of(s)->Ok_0;
    let out = dds_to_tex(s)->Ok_0;
    let payload = tail_from(s, payload_offset_of(info));
    lemma_tex_header_len(info.mip_map_count, info.width, info.height, info.format, info.is_raw);
    lemma_mip_table_len(chain_of(info));
    let start: int = 0xB8 + 8 * (level_count(info.mip_map_count) as int);
    assert(out.subrange(start, out.len() as int) =~= payload);
}

/// Where a successful DDS to TEX conversion puts the offset of level `k`: the entry at
/// `0xB8 + 8 * (k as int)` reads back as the offset when it fits in 31 bits.
pub proof fn lemma_dds_to_tex_offset_entry(s: Seq<u8>, k: nat)
    requires
        dds_to_tex(s) is Ok,
        k < level_count(dds_info_of(s)->Ok_0.mip_map_count),
        ({
            let info = dds_info_of(s)->Ok_0;
            let b = base_at(
                info.width as int,
                info.height as int,
                info.mip_map_count as int,
                info.format.spec_storage_class(),
                info.is_raw,
                k,
            );
            0 <= b <= i32::MAX
        }),
    ensures
        ({
            let info = dds_info_of(s)->Ok_0;
            i32_at(dds_to_tex(s)->Ok_0, 0xB8 + 8 * (k as int)) == base_at(
                info.width as int,
                info.height as int,
                info.mip_map_count as int,
                info.format.spec_storage_class(),
                info.is_raw,
                k,
            )
        }),
{
    let info = dds_info_of(s)->Ok_0;
    let out = dds_to_tex(s)->Ok_0;
    let th = tex_header(info.mip_map_count, info.width, info.height, info.format, info.is_raw);
    let levels = chain_of(info);
    let table = mip_table(levels);
    lemma_tex_header_len(info.mip_map_count, info.width, info.height, info.format, info.is_raw);
    lemma_mip_table_entry(levels, k as int);
    let b = levels[k as int].base;
    let v = b as i32;
    assert(v == b);
    assert(b as u32 == v as u32);
    assert(out.subrange(0xB8 + 8 * (k as int), 0xB8 + 8 * (k as int) + 4) =~= table.subrange(8 * (k as int), 8 * (k as int) + 4));
    lemma_signed_field(out, 0xB8 + 8 * (k as int), v);
}

/// In a successful DDS to TEX conversion of a first level of positive width and height and
/// at least two pixels, the offset table starts with the offset just past itself, and its
/// entries increase strictly, as far as they fit in 31 bits.
pub proof fn lemma_dds_to_tex_offsets_increase(s: Seq<u8>, i: nat, j: nat)
    requires
        dds_to_tex(s) is Ok,
        ({
            let info = dds_info_of(s)->Ok_0;
            &&& info.width >= 1
            &&& info.height >= 1
            &&& info.width * info.height >= 2
            &&& i < j < level_count(info.mip_map_count)
            &&& base_at(
                info.width as int,
                info.height as int,
                info.mip_map_count as int,
                info.format.spec_storage_class(),
                info.is_raw,
                j,
            ) <= i32::MAX
        }),
    ensures
        ({
            let out = dds_to_tex(s)->Ok_0;
            &&& i32_at(out, 0xB8) == first_base(dds_info_of(s)->Ok_0.mip_map_count as int)
            &&& i32_at(out, 0xB8 + 8 * (i as int)) < i32_at(out, 0xB8 + 8 * (j as int))
        }),
{
    let info = dds_info_of(s)->Ok_0;
    let class = info.format.spec_storage_class();
    lemma_bases_ordered(info.width, info.height, info.mip_map_count, class, info.is_raw, i, j);
    lemma_bases_ordered(info.width, info.height, info.mip_map_count, class, info.is_raw, 0, j);
    lemma_dds_to_tex_offset_entry(s, 0);
    lemma_dds_to_tex_offset_entry(s, i);
    lemma_dds_to_tex_offset_entry(s, j);
}

} // verus!
