use tex_convert::format::{StorageClass, TexFormat};

#[test]
fn tags_and_codes() {
    assert_eq!(TexFormat::DxgiFormatBc1Unorm.tag(), "DXT1L_");
    assert_eq!(TexFormat::DxgiFormatR8G8B8A8UnormSRGB.tag(), "SR8G8B8A8_");
    assert_eq!(TexFormat::DxgiFormatUnknown.tag(), "UNKN_");
    assert_eq!(TexFormat::DxgiFormatBc7UnormSRGB.tag(), "BC7S_");
    assert_eq!(TexFormat::DxgiFormatBc6hUf16.code(), 28);
    assert_eq!(TexFormat::DxgiFormatR8G8Unorm.code(), 19);
    assert_eq!(TexFormat::from_code(24), TexFormat::DxgiFormatBc4Unorm);
    assert_eq!(TexFormat::from_code(999), TexFormat::DxgiFormatUnknown);
    assert_eq!(TexFormat::from_code(0), TexFormat::DxgiFormatUnknown);
    assert_eq!(TexFormat::try_from_dxgi(99), Some(TexFormat::DxgiFormatBc7UnormSRGB));
    assert_eq!(TexFormat::try_from_dxgi(98), Some(TexFormat::DxgiFormatBc7Unorm));
    assert_eq!(TexFormat::try_from_dxgi(95), Some(TexFormat::DxgiFormatBc6hUf16));
    assert_eq!(TexFormat::try_from_dxgi(71), Some(TexFormat::DxgiFormatBc1Unorm));
    assert_eq!(TexFormat::try_from_dxgi(49), Some(TexFormat::DxgiFormatR8G8Unorm));
    assert_eq!(TexFormat::try_from_dxgi(31), None);
    assert_eq!(TexFormat::try_from_dxgi(30), None);
    assert_eq!(TexFormat::try_from_dxgi(0), None);
    assert_eq!(TexFormat::try_from_dxgi(2), None);
    assert_eq!(TexFormat::DxgiFormatBc7Unorm.dxgi_code(), 98);
    assert_eq!(TexFormat::DxgiFormatBc4Unorm.dxgi_code(), 80);
}

#[test]
fn magic_tags() {
    assert_eq!(&TexFormat::DxgiFormatBc1Unorm.magic(), b"DXT1");
    assert_eq!(&TexFormat::DxgiFormatBc4Unorm.magic(), b"BC4U");
    assert_eq!(&TexFormat::DxgiFormatBc5Unorm.magic(), b"BC5U");
    assert_eq!(&TexFormat::DxgiFormatBc1UnormSRGB.magic(), b"DX10");
    assert_eq!(&TexFormat::DxgiFormatUnknown.magic(), b"UNKN");
    assert!(TexFormat::DxgiFormatR8G8Unorm.is_dx10());
    assert!(!TexFormat::DxgiFormatBc5Unorm.is_dx10());
}

#[test]
fn from_magic_resolves_tags() {
    assert_eq!(TexFormat::from_magic(b"DXT1"), TexFormat::DxgiFormatBc1Unorm);
    assert_eq!(TexFormat::from_magic(b"BC1S"), TexFormat::DxgiFormatBc1UnormSRGB);
    assert_eq!(TexFormat::from_magic(b"SRGB"), TexFormat::DxgiFormatR8G8B8A8UnormSRGB);
    assert_eq!(TexFormat::from_magic(b"BC4U"), TexFormat::DxgiFormatBc4Unorm);
    assert_eq!(TexFormat::from_magic(b"BC5U"), TexFormat::DxgiFormatBc5Unorm);
    assert_eq!(TexFormat::from_magic(b"DX10"), TexFormat::DxgiFormatBc7Unorm);
    assert_eq!(TexFormat::from_magic(b"UNKN"), TexFormat::DxgiFormatUnknown);
    assert_eq!(TexFormat::from_magic(b"XYZW"), TexFormat::DxgiFormatUnknown);
}

#[test]
fn storage_classes_and_new_dds_flag() {
    assert_eq!(TexFormat::DxgiFormatBc4Unorm.storage_class(), StorageClass::HalfByte);
    assert_eq!(TexFormat::DxgiFormatR8G8Unorm.storage_class(), StorageClass::TwoBytes);
    assert_eq!(TexFormat::DxgiFormatBc7Unorm.storage_class(), StorageClass::OneByte);
    assert!(TexFormat::DxgiFormatBc6hUf16.is_new_dds());
    assert!(!TexFormat::DxgiFormatBc5Unorm.is_new_dds());
}

#[test]
fn dx10_codes() {
    assert_eq!(TexFormat::DxgiFormatBc6hUf16.dx10_code(), Some(95));
    assert_eq!(TexFormat::DxgiFormatR8G8B8A8UnormSRGB.dx10_code(), Some(29));
    assert_eq!(TexFormat::DxgiFormatBc1Unorm.dx10_code(), None);
    assert_eq!(TexFormat::DxgiFormatUnknown.dx10_code(), None);
}
