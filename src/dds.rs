//! The DDS container: header parsing, with the DX10 extension, and header writing.
use vstd::prelude::*;
use crate::bytes::{i32_at, le32, push_all, push_u32, push_zeros, read_i32, zeros};
use crate::error::Error;
use crate::format::{format_of_dxgi, format_of_tag, TexFormat};
use crate::mip::{level_bytes, level_size};

verus! {

/// The DDS signature, `"DDS "` read as a little-endian `i32`.
pub const DDS_MAGIC: i32 = 0x20534444;

/// Offset of the header flags; bit `DDS_RAW_FLAG` marks uncompressed pixels.
pub const DDS_FLAGS_OFFSET: usize = 0x8;

/// The flag bit of uncompressed pixel data.
pub const DDS_RAW_FLAG: i32 = 0x8;

/// Offset of the height, followed by the width.
pub const DDS_HEIGHT_OFFSET: usize = 0xC;

/// Offset of the mip count.
pub const DDS_MIP_COUNT_OFFSET: usize = 0x1C;

/// Offset of the four-character pixel format tag.
pub const DDS_TAG_OFFSET: usize = 0x54;

/// Offset of the DXGI format code in the DX10 extension header.
pub const DDS_DXGI_OFFSET: usize = 0x80;

/// Where the payload starts without the DX10 extension header.
pub const DDS_PAYLOAD_OFFSET: usize = 0x80;

/// Where the payload starts after the 20-byte DX10 extension header.
pub const DDS_DX10_PAYLOAD_OFFSET: usize = 0x94;

/// The header fields of a DDS file that a conversion needs, with the format resolved.
#[derive(Debug, Clone, Copy, PartialEq, Eq, Structural)]
pub struct DdsInfo {
    /// Whether the pixels are stored uncompressed.
    pub is_raw: bool,
    pub height: i32,
    pub width: i32,
    pub mip_map_count: i32,
    pub format: TexFormat,
}

/// The pixel format tag of `s`.
pub open spec fn tag_of(s: Seq<u8>) -> Seq<u8> {
    s.subrange(DDS_TAG_OFFSET as int, DDS_TAG_OFFSET + 4)
}

/// What parsing the header of `s` gives. The generic DX10 tag is resolved through the
/// DXGI code of the extension header.
pub open spec fn dds_info_of(s: Seq<u8>) -> Result<DdsInfo, Error> {
    if s.len() < 4 {
        Err(Error::UnexpectedEof)
    } else if i32_at(s, 0) != DDS_MAGIC {
        Err(Error::BadMagic(DDS_MAGIC, i32_at(s, 0)))
    } else if s.len() < DDS_TAG_OFFSET + 4 {
        Err(Error::UnexpectedEof)
    } else {
        let provisional = format_of_tag(tag_of(s));
        let info = DdsInfo {
            is_raw: i32_at(s, DDS_FLAGS_OFFSET as int) & DDS_RAW_FLAG == DDS_RAW_FLAG,
            height: i32_at(s, DDS_HEIGHT_OFFSET as int),
            width: i32_at(s, DDS_HEIGHT_OFFSET + 4),
            mip_map_count: i32_at(s, DDS_MIP_COUNT_OFFSET as int),
            format: provisional,
        };
        if provisional == TexFormat::DxgiFormatUnknown {
            Err(Error::UnknownTexFormat)
        } else if provisional == TexFormat::DxgiFormatBc7Unorm {
            if s.len() < DDS_DXGI_OFFSET + 4 {
                Err(Error::UnexpectedEof)
            } else {
                match format_of_dxgi(i32_at(s, DDS_DXGI_OFFSET as int)) {
                    Some(f) => Ok(DdsInfo { format: f, ..info }),
                    None => Err(Error::UnknownTexFormat),
                }
            }
        } else {
            Ok(info)
        }
    }
}

/// Where the payload of a DDS file with header `info` starts.
pub open spec fn payload_offset_of(info: DdsInfo) -> int {
    if info.format.spec_is_dx10() && !info.is_raw {
        DDS_DX10_PAYLOAD_OFFSET as int
    } else {
        DDS_PAYLOAD_OFFSET as int
    }
}

impl DdsInfo {
    /// Parses the header of a DDS file and resolves its pixel format.
    pub fn from_reader(data: &[u8]) -> (r: Result<DdsInfo, Error>)
        ensures
            r == dds_info_of(data@),
    {
        if data.len() < 4 {
            return Err(Error::UnexpectedEof);
        }
        let magic = read_i32(data, 0);
        if magic != DDS_MAGIC {
            return Err(Error::BadMagic(DDS_MAGIC, magic));
        }
        if data.len() < DDS_TAG_OFFSET + 4 {
            return Err(Error::UnexpectedEof);
        }
        let flags = read_i32(data, DDS_FLAGS_OFFSET);
        let is_raw = flags & DDS_RAW_FLAG == DDS_RAW_FLAG;
        let height = read_i32(data, DDS_HEIGHT_OFFSET);
        let width = read_i32(data, DDS_HEIGHT_OFFSET + 4);
        let mip_map_count = read_i32(data, DDS_MIP_COUNT_OFFSET);
        let tag: [u8; 4] = [
            data[DDS_TAG_OFFSET],
            data[DDS_TAG_OFFSET + 1],
            data[DDS_TAG_OFFSET + 2],
            data[DDS_TAG_OFFSET + 3],
        ];
        assert(tag@ =~= tag_of(data@));
        let mut format = TexFormat::from_magic(&tag);
        if format == TexFormat::DxgiFormatUnknown {
            return Err(Error::UnknownTexFormat);
        }
        if format == TexFormat::DxgiFormatBc7Unorm {
            if data.len() < DDS_DXGI_OFFSET + 4 {
                return Err(Error::UnexpectedEof);
            }
            match TexFormat::try_from_dxgi(read_i32(data, DDS_DXGI_OFFSET)) {
                Some(f) => {
                    format = f;
                },
                None => {
                    return Err(Error::UnknownTexFormat);
                },
            }
        }
        Ok(DdsInfo { is_raw, height, width, mip_map_count, format })
    }

    /// Where the payload starts: after the DX10 extension header for a compressed format
    /// with the generic tag, else right after the standard header.
    pub fn payload_offset(&self) -> (r: usize)
        ensures
            r == payload_offset_of(*self),
    {
        if self.format.is_dx10() && !self.is_raw {
            DDS_DX10_PAYLOAD_OFFSET
        } else {
            DDS_PAYLOAD_OFFSET
        }
    }
}

/// Signature, header size and header flags: the first 12 bytes of a written DDS file.
pub open spec fn dds_prefix() -> Seq<u8> {
    seq![0x44u8, 0x44u8, 0x53u8, 0x20u8, 0x7Cu8, 0x00u8, 0x00u8, 0x00u8, 0x07u8, 0x10u8, 0x0Au8, 0x00u8]
}

/// The fixed capability flags of the pixel format block.
pub open spec fn dds_caps() -> Seq<u8> {
    seq![0x08u8, 0x10u8, 0x40u8, 0x00u8]
}

/// Resource dimension, misc flags, array size and misc flags 2 of the DX10 extension.
pub open spec fn dx10_fixed_fields() -> Seq<u8> {
    seq![
        0x03u8, 0x00u8, 0x00u8, 0x00u8, 0x00u8, 0x00u8, 0x00u8, 0x00u8,
        0x01u8, 0x00u8, 0x00u8, 0x00u8, 0x00u8, 0x00u8, 0x00u8, 0x00u8,
    ]
}

/// The linear size field: the bytes of the first level.
pub open spec fn pitch_of(format: TexFormat, width: i32, height: i32) -> int {
    level_size(format.spec_storage_class(), false, width as int, height as int)
}

/// A DDS header for `format`, with the DX10 extension when the format's tag is generic.
pub open spec fn dds_header(format: TexFormat, width: i32, height: i32, mip_count: i32) -> Seq<u8> {
    dds_prefix() + le32(height as u32) + le32(width as u32) + le32(
        pitch_of(format, width, height) as u32,
    ) + le32(1) + le32(mip_count as u32) + zeros(44) + le32(32) + le32(4) + format.spec_magic()
        + zeros(20) + dds_caps() + zeros(16) + if format.spec_is_dx10() {
        le32(format.spec_dxgi_code() as u32) + dx10_fixed_fields()
    } else {
        Seq::empty()
    }
}

/// Appends a DDS header for `format`.
pub fn write_dds_header(
    out: &mut Vec<u8>,
    format: TexFormat,
    width: i32,
    height: i32,
    mip_count: i32,
)
    ensures
        final(out)@ == old(out)@ + dds_header(format, width, height, mip_count),
{
    let ghost start = out@;
    push_all(
        out,
        &[0x44u8, 0x44u8, 0x53u8, 0x20u8, 0x7Cu8, 0x00u8, 0x00u8, 0x00u8, 0x07u8, 0x10u8, 0x0Au8, 0x00u8],
    );
    assert(out@ =~= start + dds_prefix());
    push_u32(out, height as u32);
    push_u32(out, width as u32);
    let pitch = level_bytes(format.storage_class(), false, width, height);
    push_u32(out, pitch as u32);
    push_u32(out, 1);
    push_u32(out, mip_count as u32);
    push_zeros(out, 44);
    push_u32(out, 32);
    push_u32(out, 4);
    let tag = format.magic();
    push_all(out, &tag);
    push_zeros(out, 20);
    let ghost before_caps = out@;
    push_all(out, &[0x08u8, 0x10u8, 0x40u8, 0x00u8]);
    assert(out@ =~= before_caps + dds_caps());
    push_zeros(out, 16);
    let ghost before_ext = out@;
    if let Some(code) = format.dx10_code() {
        push_u32(out, code as u32);
        let ghost before_fixed = out@;
        push_all(
            out,
            &[
                0x03u8, 0x00u8, 0x00u8, 0x00u8, 0x00u8, 0x00u8, 0x00u8, 0x00u8,
                0x01u8, 0x00u8, 0x00u8, 0x00u8, 0x00u8, 0x00u8, 0x00u8, 0x00u8,
            ],
        );
        assert(out@ =~= before_fixed + dx10_fixed_fields());
    } else {
        assert(out@ =~= before_ext + Seq::<u8>::empty());
    }
    assert(out@ =~= start + dds_header(format, width, height, mip_count));
}

} // verus!
