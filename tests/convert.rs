use tex_convert::dds::DdsInfo;
use tex_convert::dds2tex::convert_to_tex;
use tex_convert::error::Error;
use tex_convert::format::{StorageClass, TexFormat};
use tex_convert::mip::{compute_mip_chain, next_dimension};
use tex_convert::tex::TexInfo;
use tex_convert::tex2dds::convert_to_dds;

const ALL_FORMATS: [TexFormat; 10] = [
    TexFormat::DxgiFormatR8G8B8A8Unorm,
    TexFormat::DxgiFormatR8G8B8A8UnormSRGB,
    TexFormat::DxgiFormatR8G8Unorm,
    TexFormat::DxgiFormatBc1Unorm,
    TexFormat::DxgiFormatBc1UnormSRGB,
    TexFormat::DxgiFormatBc4Unorm,
    TexFormat::DxgiFormatBc5Unorm,
    TexFormat::DxgiFormatBc6hUf16,
    TexFormat::DxgiFormatBc7Unorm,
    TexFormat::DxgiFormatBc7UnormSRGB,
];

fn le32(out: &mut Vec<u8>, v: i32) {
    out.extend_from_slice(&v.to_le_bytes());
}

fn pitch(format: TexFormat, w: i32, h: i32) -> i32 {
    match format {
        TexFormat::DxgiFormatBc1Unorm
        | TexFormat::DxgiFormatBc1UnormSRGB
        | TexFormat::DxgiFormatBc4Unorm => w * h / 2,
        TexFormat::DxgiFormatR8G8Unorm => w * h * 2,
        _ => w * h,
    }
}

fn is_dx10(format: TexFormat) -> bool {
    !matches!(
        format,
        TexFormat::DxgiFormatBc1Unorm | TexFormat::DxgiFormatBc4Unorm | TexFormat::DxgiFormatBc5Unorm
    )
}

/// A DDS file laid out as the converter writes it.
fn dds_file(format: TexFormat, w: i32, h: i32, mips: i32, payload: &[u8]) -> Vec<u8> {
    let mut out = vec![0x44, 0x44, 0x53, 0x20, 0x7C, 0, 0, 0, 0x07, 0x10, 0x0A, 0];
    le32(&mut out, h);
    le32(&mut out, w);
    le32(&mut out, pitch(format, w, h));
    le32(&mut out, 1);
    le32(&mut out, mips);
    out.extend_from_slice(&[0u8; 44]);
    le32(&mut out, 32);
    le32(&mut out, 4);
    out.extend_from_slice(&format.magic());
    out.extend_from_slice(&[0u8; 20]);
    out.extend_from_slice(&[0x08, 0x10, 0x40, 0x00]);
    out.extend_from_slice(&[0u8; 16]);
    if is_dx10(format) {
        le32(&mut out, format.dxgi_code());
        out.extend_from_slice(&[3, 0, 0, 0, 0, 0, 0, 0, 1, 0, 0, 0, 0, 0, 0, 0]);
    }
    out.extend_from_slice(payload);
    out
}

fn read_i32(s: &[u8], off: usize) -> i32 {
    i32::from_le_bytes([s[off], s[off + 1], s[off + 2], s[off + 3]])
}

fn payload(n: usize) -> Vec<u8> {
    (0..n).map(|i| (i * 7 + 3) as u8).collect()
}

#[test]
fn dds_to_tex_to_dds_is_identity_for_every_format() {
    for format in ALL_FORMATS {
        let x = dds_file(format, 64, 32, 3, &payload(1500));
        let tex = convert_to_tex(&x).unwrap();
        let back = convert_to_dds(&tex).unwrap();
        assert_eq!(back, x, "{:?}", format);
    }
}

#[test]
fn tex_to_dds_to_tex_is_identity_for_every_format() {
    for format in ALL_FORMATS {
        let y = convert_to_tex(&dds_file(format, 128, 512, 1, &payload(300))).unwrap();
        let dds = convert_to_dds(&y).unwrap();
        let back = convert_to_tex(&dds).unwrap();
        assert_eq!(back, y, "{:?}", format);
    }
}

#[test]
fn tex_layout_of_a_bc7_file() {
    let x = dds_file(TexFormat::DxgiFormatBc7UnormSRGB, 128, 512, 1, &[9, 8, 7]);
    let tex = convert_to_tex(&x).unwrap();
    assert_eq!(tex.len(), 0xB8 + 8 + 3);
    assert_eq!(&tex[0..4], b"TEX\0");
    assert_eq!(read_i32(&tex, 0x14), 1);
    assert_eq!(read_i32(&tex, 0x18), 128);
    assert_eq!(read_i32(&tex, 0x1C), 512);
    assert_eq!(read_i32(&tex, 0x20), 1);
    assert_eq!(read_i32(&tex, 0x24), 31);
    assert_eq!(read_i32(&tex, 0x44), 1);
    assert_eq!(&tex[0x58..0x78], &[0xFFu8; 32]);
    assert_eq!(read_i32(&tex, 0x78), 128);
    assert_eq!(&tex[0x7C..0x80], &[64, 0, 128, 0]);
    assert_eq!(read_i32(&tex, 0xB8), 0xC0);
    assert_eq!(read_i32(&tex, 0xBC), 0);
    assert_eq!(&tex[0xC0..], &[9, 8, 7]);
    let info = TexInfo::from_reader(&tex).unwrap();
    assert_eq!(info.offset, 0xC0);
    assert_eq!(info.format, TexFormat::DxgiFormatBc7UnormSRGB);
}

#[test]
fn r8g8_uses_full_width_and_no_new_dds_flag() {
    let x = dds_file(TexFormat::DxgiFormatR8G8Unorm, 100, 20, 1, &[1]);
    let tex = convert_to_tex(&x).unwrap();
    assert_eq!(read_i32(&tex, 0x44), 0);
    assert_eq!(&tex[0x7C..0x80], &[100, 0, 100, 0]);
}

#[test]
fn tex_with_bad_magic_is_rejected() {
    let x = dds_file(TexFormat::DxgiFormatBc1Unorm, 8, 8, 1, &[0; 32]);
    assert_eq!(convert_to_dds(&x), Err(Error::BadMagic(0x00584554, 0x20534444)));
    assert_eq!(
        TexInfo::from_reader(&[1, 2, 3, 4, 5]),
        Err(Error::BadMagic(0x00584554, 0x04030201))
    );
}

#[test]
fn dds_with_bad_magic_is_rejected() {
    let mut x = dds_file(TexFormat::DxgiFormatBc1Unorm, 8, 8, 1, &[0; 32]);
    x[0] = b'X';
    assert_eq!(convert_to_tex(&x), Err(Error::BadMagic(0x20534444, 0x20534458)));
}

#[test]
fn truncated_inputs_fail_with_eof() {
    assert_eq!(convert_to_dds(&[0x54, 0x45]), Err(Error::UnexpectedEof));
    assert_eq!(convert_to_tex(&[]), Err(Error::UnexpectedEof));
    let x = dds_file(TexFormat::DxgiFormatBc7Unorm, 8, 8, 1, &[]);
    assert_eq!(convert_to_tex(&x[..0x50]), Err(Error::UnexpectedEof));
    assert_eq!(convert_to_tex(&x[..0x82]), Err(Error::UnexpectedEof));
    let tex = convert_to_tex(&x).unwrap();
    assert_eq!(convert_to_dds(&tex[..0x30]), Err(Error::UnexpectedEof));
}

#[test]
fn dx10_tag_with_bc6h_code_resolves_to_bc6h() {
    let body = payload(40);
    let x = dds_file(TexFormat::DxgiFormatBc6hUf16, 16, 16, 1, &body);
    assert_eq!(&x[0x54..0x58], b"DX10");
    assert_eq!(read_i32(&x, 0x80), 95);
    let info = DdsInfo::from_reader(&x).unwrap();
    assert_eq!(info.format, TexFormat::DxgiFormatBc6hUf16);
    assert!(!info.is_raw);
    assert_eq!(info.payload_offset(), 0x94);
    let tex = convert_to_tex(&x).unwrap();
    assert_eq!(read_i32(&tex, 0x24), 28);
    assert_eq!(read_i32(&tex, 0x44), 1);
    assert_eq!(tex.len(), 0xB8 + 8 + (x.len() - 0x94));
    assert_eq!(&tex[0xB8 + 8..], &x[0x94..]);
    assert_eq!(&tex[tex.len() - 40..], &body[..]);
}

#[test]
fn raw_dds_payload_starts_after_standard_header() {
    let mut x = dds_file(TexFormat::DxgiFormatR8G8B8A8Unorm, 4, 4, 2, &payload(80));
    x[8] |= 0x8;
    let info = DdsInfo::from_reader(&x).unwrap();
    assert!(info.is_raw);
    assert_eq!(info.payload_offset(), 0x80);
    let tex = convert_to_tex(&x).unwrap();
    // raw levels: 4x4x4 = 64 bytes, then the next level starts there
    assert_eq!(read_i32(&tex, 0xB8), 0xB8 + 16);
    assert_eq!(read_i32(&tex, 0xC0), 0xB8 + 16 + 64);
    assert_eq!(&tex[0xC8..], &x[0x80..]);
}

#[test]
fn unknown_dxgi_code_is_rejected() {
    let mut x = dds_file(TexFormat::DxgiFormatBc7Unorm, 8, 8, 1, &[0; 16]);
    // 30 is the TEX code of BC7, not a DXGI format number of a registered format
    x[0x80] = 30;
    assert_eq!(convert_to_tex(&x), Err(Error::UnknownTexFormat));
    x[0x80] = 2;
    assert_eq!(convert_to_tex(&x), Err(Error::UnknownTexFormat));
    x[0x80] = 0;
    assert_eq!(convert_to_tex(&x), Err(Error::UnknownTexFormat));
}

#[test]
fn unknown_dds_tag_is_rejected() {
    let mut x = dds_file(TexFormat::DxgiFormatBc1Unorm, 8, 8, 1, &[0; 32]);
    x[0x54..0x58].copy_from_slice(b"ABCD");
    assert_eq!(convert_to_tex(&x), Err(Error::UnknownTexFormat));
    x[0x54..0x58].copy_from_slice(b"UNKN");
    assert_eq!(convert_to_tex(&x), Err(Error::UnknownTexFormat));
}

#[test]
fn unknown_tex_format_code_is_rejected() {
    let x = dds_file(TexFormat::DxgiFormatBc1Unorm, 8, 8, 1, &[0; 32]);
    let mut tex = convert_to_tex(&x).unwrap();
    tex[0x24..0x28].copy_from_slice(&999i32.to_le_bytes());
    assert_eq!(convert_to_dds(&tex), Err(Error::UnknownTexFormat));
    assert_eq!(TexInfo::from_reader(&tex), Err(Error::UnknownTexFormat));
}

#[test]
fn payload_passes_through_both_directions() {
    let body = payload(2048);
    let x = dds_file(TexFormat::DxgiFormatBc5Unorm, 32, 32, 1, &body);
    let tex = convert_to_tex(&x).unwrap();
    assert_eq!(&tex[tex.len() - body.len()..], &body[..]);
    let dds = convert_to_dds(&tex).unwrap();
    assert_eq!(&dds[dds.len() - body.len()..], &body[..]);
    assert_eq!(dds.len(), 0x80 + body.len());
}

#[test]
fn tex_offset_past_the_end_gives_empty_payload() {
    let x = dds_file(TexFormat::DxgiFormatBc1Unorm, 8, 8, 1, &[]);
    let mut tex = convert_to_tex(&x).unwrap();
    tex.extend_from_slice(&[5, 6]);
    tex[0xB8..0xC0].copy_from_slice(&(-1i64).to_le_bytes());
    let dds = convert_to_dds(&tex).unwrap();
    assert_eq!(dds.len(), 0x80);
}

#[test]
fn dds_pitch_field_follows_storage_class() {
    let tex = convert_to_tex(&dds_file(TexFormat::DxgiFormatBc1Unorm, 64, 32, 1, &[])).unwrap();
    assert_eq!(read_i32(&convert_to_dds(&tex).unwrap(), 0x14), 64 * 32 / 2);
    let tex = convert_to_tex(&dds_file(TexFormat::DxgiFormatR8G8Unorm, 64, 32, 1, &[])).unwrap();
    assert_eq!(read_i32(&convert_to_dds(&tex).unwrap(), 0x14), 64 * 32 * 2);
    let tex = convert_to_tex(&dds_file(TexFormat::DxgiFormatBc7Unorm, 64, 32, 1, &[])).unwrap();
    let dds = convert_to_dds(&tex).unwrap();
    assert_eq!(read_i32(&dds, 0x14), 64 * 32);
    assert_eq!(read_i32(&dds, 0x80), 98);
    assert_eq!(dds.len(), 0x94);
}

#[test]
fn mip_chain_of_128_square_half_byte_format() {
    let chain = compute_mip_chain(128, 128, 4, StorageClass::HalfByte, false);
    let sizes: Vec<i128> = chain.iter().map(|l| l.size).collect();
    assert_eq!(sizes, vec![128 * 128 / 2, 64 * 64 / 2, 32 * 32 / 2, 16 * 16 / 2]);
    let bases: Vec<i128> = chain.iter().map(|l| l.base).collect();
    assert_eq!(bases, vec![0xB8 + 4 * 8, 216 + 8192, 216 + 8192 + 2048, 216 + 8192 + 2048 + 512]);
    assert!(bases.windows(2).all(|w| w[0] < w[1]));
}

#[test]
fn mip_dimensions_clamp_at_block_floor() {
    let chain = compute_mip_chain(8, 8, 4, StorageClass::OneByte, false);
    let widths: Vec<i32> = chain.iter().map(|l| l.width).collect();
    let heights: Vec<i32> = chain.iter().map(|l| l.height).collect();
    assert_eq!(widths, vec![8, 4, 4, 4]);
    assert_eq!(heights, vec![8, 4, 4, 4]);
    let raw = compute_mip_chain(8, 8, 4, StorageClass::OneByte, true);
    let widths: Vec<i32> = raw.iter().map(|l| l.width).collect();
    assert_eq!(widths, vec![8, 4, 2, 2]);
    assert_eq!(raw[0].size, 8 * 8 * 4);
    assert_eq!(next_dimension(-7, false), 4);
    assert_eq!(next_dimension(9, true), 4);
}

#[test]
fn mip_chain_is_empty_for_non_positive_count() {
    assert!(compute_mip_chain(8, 8, 0, StorageClass::OneByte, false).is_empty());
    assert!(compute_mip_chain(8, 8, -3, StorageClass::OneByte, false).is_empty());
}

#[test]
fn two_byte_level_size() {
    let chain = compute_mip_chain(10, 6, 2, StorageClass::TwoBytes, false);
    assert_eq!(chain[0].size, 120);
    assert_eq!(chain[1].width, 5);
    assert_eq!(chain[1].height, 4);
    assert_eq!(chain[1].size, 40);
    assert_eq!(chain[1].base, 0xB8 + 16 + 120);
}

#[test]
fn dx10_header_carries_dxgi_numbers() {
    let expected = [
        (TexFormat::DxgiFormatR8G8B8A8Unorm, 28),
        (TexFormat::DxgiFormatR8G8B8A8UnormSRGB, 29),
        (TexFormat::DxgiFormatR8G8Unorm, 49),
        (TexFormat::DxgiFormatBc1UnormSRGB, 72),
        (TexFormat::DxgiFormatBc6hUf16, 95),
        (TexFormat::DxgiFormatBc7Unorm, 98),
        (TexFormat::DxgiFormatBc7UnormSRGB, 99),
    ];
    for (format, dxgi) in expected {
        let tex = convert_to_tex(&dds_file(format, 16, 16, 1, &[1, 2, 3])).unwrap();
        assert_eq!(read_i32(&tex, 0x24), format.code());
        let dds = convert_to_dds(&tex).unwrap();
        assert_eq!(read_i32(&dds, 0x80), dxgi, "{:?}", format);
        assert_eq!(&dds[0x84..0x94], &[3, 0, 0, 0, 0, 0, 0, 0, 1, 0, 0, 0, 0, 0, 0, 0]);
    }
}

#[test]
fn dx10_tag_with_bc7_dxgi_number_resolves_to_bc7() {
    let mut x = dds_file(TexFormat::DxgiFormatBc7Unorm, 8, 8, 1, &[0; 16]);
    x[0x80] = 98;
    assert_eq!(DdsInfo::from_reader(&x).unwrap().format, TexFormat::DxgiFormatBc7Unorm);
    x[0x80] = 99;
    assert_eq!(DdsInfo::from_reader(&x).unwrap().format, TexFormat::DxgiFormatBc7UnormSRGB);
    let tex = convert_to_tex(&x).unwrap();
    assert_eq!(read_i32(&tex, 0x24), 31);
}
