//! The registry of pixel formats: TEX codes, DDS tags, DXGI codes and storage classes.
use vstd::prelude::*;

verus! {

/// A pixel layout that a TEX container can hold.
///
/// Each format has a TEX code, stored in TEX headers, and a DXGI format number, stored in
/// the DX10 extension header of a DDS file; the two numberings differ.
#[derive(Debug, Clone, Copy, PartialEq, Eq, Hash, Structural)]
pub enum TexFormat {
    DxgiFormatUnknown,
    DxgiFormatR8G8B8A8Unorm,
    DxgiFormatR8G8B8A8UnormSRGB,
    DxgiFormatR8G8Unorm,
    DxgiFormatBc1Unorm,
    DxgiFormatBc1UnormSRGB,
    DxgiFormatBc4Unorm,
    DxgiFormatBc5Unorm,
    DxgiFormatBc6hUf16,
    DxgiFormatBc7Unorm,
    DxgiFormatBc7UnormSRGB,
}

/// How many bytes a pixel of a format takes in the size arithmetic of a mip chain.
#[derive(Debug, Clone, Copy, PartialEq, Eq, Structural)]
pub enum StorageClass {
    /// Block-compressed at four bits per pixel.
    HalfByte,
    /// One byte per pixel (block-compressed at eight bits per pixel, or 8-bit data).
    OneByte,
    /// Two bytes per pixel.
    TwoBytes,
}

/// The generic DDS tag that defers the format to the DX10 extension header.
pub open spec fn dx10_tag() -> Seq<u8> {
    seq![0x44u8, 0x58u8, 0x31u8, 0x30u8]
}

/// The DDS tag that names no format.
pub open spec fn unknown_tag() -> Seq<u8> {
    seq![0x55u8, 0x4Eu8, 0x4Bu8, 0x4Eu8]
}

/// The BC1 tag.
pub open spec fn dxt1_tag() -> Seq<u8> {
    seq![0x44u8, 0x58u8, 0x54u8, 0x31u8]
}

/// The BC4 tag.
pub open spec fn bc4u_tag() -> Seq<u8> {
    seq![0x42u8, 0x43u8, 0x34u8, 0x55u8]
}

/// The BC5 tag.
pub open spec fn bc5u_tag() -> Seq<u8> {
    seq![0x42u8, 0x43u8, 0x35u8, 0x55u8]
}

/// The sRGB RGBA tag.
pub open spec fn srgb_tag() -> Seq<u8> {
    seq![0x53u8, 0x52u8, 0x47u8, 0x42u8]
}

/// The BC1 sRGB tag.
pub open spec fn bc1s_tag() -> Seq<u8> {
    seq![0x42u8, 0x43u8, 0x31u8, 0x53u8]
}

/// The format whose TEX code (DXGI number) is `code`, or `DxgiFormatUnknown`.
pub open spec fn format_of_code(code: i32) -> TexFormat {
    if code == 7 {
        TexFormat::DxgiFormatR8G8B8A8Unorm
    } else if code == 9 {
        TexFormat::DxgiFormatR8G8B8A8UnormSRGB
    } else if code == 19 {
        TexFormat::DxgiFormatR8G8Unorm
    } else if code == 22 {
        TexFormat::DxgiFormatBc1Unorm
    } else if code == 23 {
        TexFormat::DxgiFormatBc1UnormSRGB
    } else if code == 24 {
        TexFormat::DxgiFormatBc4Unorm
    } else if code == 26 {
        TexFormat::DxgiFormatBc5Unorm
    } else if code == 28 {
        TexFormat::DxgiFormatBc6hUf16
    } else if code == 30 {
        TexFormat::DxgiFormatBc7Unorm
    } else if code == 31 {
        TexFormat::DxgiFormatBc7UnormSRGB
    } else {
        TexFormat::DxgiFormatUnknown
    }
}

/// The provisional format of a DDS tag; the generic DX10 tag gives BC7 until the
/// extension header is read.
pub open spec fn format_of_tag(tag: Seq<u8>) -> TexFormat {
    if tag == srgb_tag() {
        TexFormat::DxgiFormatR8G8B8A8UnormSRGB
    } else if tag == dxt1_tag() {
        TexFormat::DxgiFormatBc1Unorm
    } else if tag == bc1s_tag() {
        TexFormat::DxgiFormatBc1UnormSRGB
    } else if tag == bc4u_tag() {
        TexFormat::DxgiFormatBc4Unorm
    } else if tag == bc5u_tag() {
        TexFormat::DxgiFormatBc5Unorm
    } else if tag == dx10_tag() {
        TexFormat::DxgiFormatBc7Unorm
    } else {
        TexFormat::DxgiFormatUnknown
    }
}

/// The format named by a DXGI format number of the DX10 extension header, if registered.
pub open spec fn format_of_dxgi(code: i32) -> Option<TexFormat> {
    if code == 28 {
        Some(TexFormat::DxgiFormatR8G8B8A8Unorm)
    } else if code == 29 {
        Some(TexFormat::DxgiFormatR8G8B8A8UnormSRGB)
    } else if code == 49 {
        Some(TexFormat::DxgiFormatR8G8Unorm)
    } else if code == 71 {
        Some(TexFormat::DxgiFormatBc1Unorm)
    } else if code == 72 {
        Some(TexFormat::DxgiFormatBc1UnormSRGB)
    } else if code == 80 {
        Some(TexFormat::DxgiFormatBc4Unorm)
    } else if code == 83 {
        Some(TexFormat::DxgiFormatBc5Unorm)
    } else if code == 95 {
        Some(TexFormat::DxgiFormatBc6hUf16)
    } else if code == 98 {
        Some(TexFormat::DxgiFormatBc7Unorm)
    } else if code == 99 {
        Some(TexFormat::DxgiFormatBc7UnormSRGB)
    } else {
        None
    }
}

impl TexFormat {
    /// The DXGI format number.
    pub open spec fn spec_dxgi_code(self) -> i32 {
        match self {
            TexFormat::DxgiFormatUnknown => 0,
            TexFormat::DxgiFormatR8G8B8A8Unorm => 28,
            TexFormat::DxgiFormatR8G8B8A8UnormSRGB => 29,
            TexFormat::DxgiFormatR8G8Unorm => 49,
            TexFormat::DxgiFormatBc1Unorm => 71,
            TexFormat::DxgiFormatBc1UnormSRGB => 72,
            TexFormat::DxgiFormatBc4Unorm => 80,
            TexFormat::DxgiFormatBc5Unorm => 83,
            TexFormat::DxgiFormatBc6hUf16 => 95,
            TexFormat::DxgiFormatBc7Unorm => 98,
            TexFormat::DxgiFormatBc7UnormSRGB => 99,
        }
    }

    /// The TEX code.
    pub open spec fn spec_code(self) -> i32 {
        match self {
            TexFormat::DxgiFormatUnknown => 0,
            TexFormat::DxgiFormatR8G8B8A8Unorm => 7,
            TexFormat::DxgiFormatR8G8B8A8UnormSRGB => 9,
            TexFormat::DxgiFormatR8G8Unorm => 19,
            TexFormat::DxgiFormatBc1Unorm => 22,
            TexFormat::DxgiFormatBc1UnormSRGB => 23,
            TexFormat::DxgiFormatBc4Unorm => 24,
            TexFormat::DxgiFormatBc5Unorm => 26,
            TexFormat::DxgiFormatBc6hUf16 => 28,
            TexFormat::DxgiFormatBc7Unorm => 30,
            TexFormat::DxgiFormatBc7UnormSRGB => 31,
        }
    }

    /// The DDS four-character tag.
    pub open spec fn spec_magic(self) -> Seq<u8> {
        match self {
            TexFormat::DxgiFormatUnknown => unknown_tag(),
            TexFormat::DxgiFormatBc1Unorm => dxt1_tag(),
            TexFormat::DxgiFormatBc4Unorm => bc4u_tag(),
            TexFormat::DxgiFormatBc5Unorm => bc5u_tag(),
            _ => dx10_tag(),
        }
    }

    /// The short name used in file names.
    pub open spec fn spec_tag(self) -> Seq<char> {
        match self {
            TexFormat::DxgiFormatUnknown => "UNKN_"@,
            TexFormat::DxgiFormatR8G8B8A8Unorm => "R8G8B8A8_"@,
            TexFormat::DxgiFormatR8G8B8A8UnormSRGB => "SR8G8B8A8_"@,
            TexFormat::DxgiFormatR8G8Unorm => "R8G8_"@,
            TexFormat::DxgiFormatBc1Unorm => "DXT1L_"@,
            TexFormat::DxgiFormatBc1UnormSRGB => "BC1S_"@,
            TexFormat::DxgiFormatBc4Unorm => "BC4_"@,
            TexFormat::DxgiFormatBc5Unorm => "BC5_"@,
            TexFormat::DxgiFormatBc6hUf16 => "BC6_"@,
            TexFormat::DxgiFormatBc7Unorm => "BC7L_"@,
            TexFormat::DxgiFormatBc7UnormSRGB => "BC7S_"@,
        }
    }

    /// The storage class used for payload sizes.
    pub open spec fn spec_storage_class(self) -> StorageClass {
        match self {
            TexFormat::DxgiFormatBc1Unorm => StorageClass::HalfByte,
            TexFormat::DxgiFormatBc1UnormSRGB => StorageClass::HalfByte,
            TexFormat::DxgiFormatBc4Unorm => StorageClass::HalfByte,
            TexFormat::DxgiFormatR8G8Unorm => StorageClass::TwoBytes,
            _ => StorageClass::OneByte,
        }
    }

    /// Whether the DDS form carries the DX10 extension header.
    pub open spec fn spec_is_dx10(self) -> bool {
        self.spec_magic() == dx10_tag()
    }

    /// Whether the TEX header marks the format as one of the newer DDS formats.
    pub open spec fn spec_is_new_dds(self) -> bool {
        ||| self == TexFormat::DxgiFormatBc7Unorm
        ||| self == TexFormat::DxgiFormatBc7UnormSRGB
        ||| self == TexFormat::DxgiFormatBc6hUf16
    }

    /// The short name used in file names.
    pub fn tag(&self) -> (r: &'static str)
        ensures
            r@ == self.spec_tag(),
    {
        match self {
            TexFormat::DxgiFormatUnknown => "UNKN_",
            TexFormat::DxgiFormatR8G8B8A8Unorm => "R8G8B8A8_",
            TexFormat::DxgiFormatR8G8B8A8UnormSRGB => "SR8G8B8A8_",
            TexFormat::DxgiFormatR8G8Unorm => "R8G8_",
            TexFormat::DxgiFormatBc1Unorm => "DXT1L_",
            TexFormat::DxgiFormatBc1UnormSRGB => "BC1S_",
            TexFormat::DxgiFormatBc4Unorm => "BC4_",
            TexFormat::DxgiFormatBc5Unorm => "BC5_",
            TexFormat::DxgiFormatBc6hUf16 => "BC6_",
            TexFormat::DxgiFormatBc7Unorm => "BC7L_",
            TexFormat::DxgiFormatBc7UnormSRGB => "BC7S_",
        }
    }

    /// The DDS four-character tag.
    pub fn magic(&self) -> (r: [u8; 4])
        ensures
            r@ == self.spec_magic(),
    {
        let r: [u8; 4] = match self {
            TexFormat::DxgiFormatUnknown => [0x55u8, 0x4Eu8, 0x4Bu8, 0x4Eu8],
            TexFormat::DxgiFormatBc1Unorm => [0x44u8, 0x58u8, 0x54u8, 0x31u8],
            TexFormat::DxgiFormatBc4Unorm => [0x42u8, 0x43u8, 0x34u8, 0x55u8],
            TexFormat::DxgiFormatBc5Unorm => [0x42u8, 0x43u8, 0x35u8, 0x55u8],
            _ => [0x44u8, 0x58u8, 0x31u8, 0x30u8],
        };
        assert(r@ =~= self.spec_magic());
        r
    }

    /// The provisional format of a DDS tag (see `format_of_tag`).
    pub fn from_magic(magic: &[u8; 4]) -> (r: TexFormat)
        ensures
            r == format_of_tag(magic@),
    {
        let (a, b, c, d) = (magic[0], magic[1], magic[2], magic[3]);
        assert(magic@ =~= seq![a, b, c, d]);
        if a == 0x53 && b == 0x52 && c == 0x47 && d == 0x42 {
            TexFormat::DxgiFormatR8G8B8A8UnormSRGB
        } else if a == 0x44 && b == 0x58 && c == 0x54 && d == 0x31 {
            TexFormat::DxgiFormatBc1Unorm
        } else if a == 0x42 && b == 0x43 && c == 0x31 && d == 0x53 {
            TexFormat::DxgiFormatBc1UnormSRGB
        } else if a == 0x42 && b == 0x43 && c == 0x34 && d == 0x55 {
            TexFormat::DxgiFormatBc4Unorm
        } else if a == 0x42 && b == 0x43 && c == 0x35 && d == 0x55 {
            TexFormat::DxgiFormatBc5Unorm
        } else if a == 0x44 && b == 0x58 && c == 0x31 && d == 0x30 {
            TexFormat::DxgiFormatBc7Unorm
        } else {
            TexFormat::DxgiFormatUnknown
        }
    }

    /// The format whose TEX code is `code`, or `DxgiFormatUnknown`.
    pub fn from_code(code: i32) -> (r: TexFormat)
        ensures
            r == format_of_code(code),
    {
        match code {
            7 => TexFormat::DxgiFormatR8G8B8A8Unorm,
            9 => TexFormat::DxgiFormatR8G8B8A8UnormSRGB,
            19 => TexFormat::DxgiFormatR8G8Unorm,
            22 => TexFormat::DxgiFormatBc1Unorm,
            23 => TexFormat::DxgiFormatBc1UnormSRGB,
            24 => TexFormat::DxgiFormatBc4Unorm,
            26 => TexFormat::DxgiFormatBc5Unorm,
            28 => TexFormat::DxgiFormatBc6hUf16,
            30 => TexFormat::DxgiFormatBc7Unorm,
            31 => TexFormat::DxgiFormatBc7UnormSRGB,
            _ => TexFormat::DxgiFormatUnknown,
        }
    }

    /// The registered format named by a DXGI format number, or `None`.
    pub fn try_from_dxgi(code: i32) -> (r: Option<TexFormat>)
        ensures
            r == format_of_dxgi(code),
    {
        match code {
            28 => Some(TexFormat::DxgiFormatR8G8B8A8Unorm),
            29 => Some(TexFormat::DxgiFormatR8G8B8A8UnormSRGB),
            49 => Some(TexFormat::DxgiFormatR8G8Unorm),
            71 => Some(TexFormat::DxgiFormatBc1Unorm),
            72 => Some(TexFormat::DxgiFormatBc1UnormSRGB),
            80 => Some(TexFormat::DxgiFormatBc4Unorm),
            83 => Some(TexFormat::DxgiFormatBc5Unorm),
            95 => Some(TexFormat::DxgiFormatBc6hUf16),
            98 => Some(TexFormat::DxgiFormatBc7Unorm),
            99 => Some(TexFormat::DxgiFormatBc7UnormSRGB),
            _ => None,
        }
    }

    /// The DXGI format number.
    pub fn dxgi_code(&self) -> (r: i32)
        ensures
            r == self.spec_dxgi_code(),
    {
        match self {
            TexFormat::DxgiFormatUnknown => 0,
            TexFormat::DxgiFormatR8G8B8A8Unorm => 28,
            TexFormat::DxgiFormatR8G8B8A8UnormSRGB => 29,
            TexFormat::DxgiFormatR8G8Unorm => 49,
            TexFormat::DxgiFormatBc1Unorm => 71,
            TexFormat::DxgiFormatBc1UnormSRGB => 72,
            TexFormat::DxgiFormatBc4Unorm => 80,
            TexFormat::DxgiFormatBc5Unorm => 83,
            TexFormat::DxgiFormatBc6hUf16 => 95,
            TexFormat::DxgiFormatBc7Unorm => 98,
            TexFormat::DxgiFormatBc7UnormSRGB => 99,
        }
    }

    /// The TEX code.
    pub fn code(&self) -> (r: i32)
        ensures
            r == self.spec_code(),
    {
        match self {
            TexFormat::DxgiFormatUnknown => 0,
            TexFormat::DxgiFormatR8G8B8A8Unorm => 7,
            TexFormat::DxgiFormatR8G8B8A8UnormSRGB => 9,
            TexFormat::DxgiFormatR8G8Unorm => 19,
            TexFormat::DxgiFormatBc1Unorm => 22,
            TexFormat::DxgiFormatBc1UnormSRGB => 23,
            TexFormat::DxgiFormatBc4Unorm => 24,
            TexFormat::DxgiFormatBc5Unorm => 26,
            TexFormat::DxgiFormatBc6hUf16 => 28,
            TexFormat::DxgiFormatBc7Unorm => 30,
            TexFormat::DxgiFormatBc7UnormSRGB => 31,
        }
    }

    /// The DXGI format number that the DX10 extension header carries, for a format with the
    /// generic tag; `None` for a format that its own tag names.
    pub fn dx10_code(&self) -> (r: Option<i32>)
        ensures
            r == if self.spec_is_dx10() {
                Some(self.spec_dxgi_code())
            } else {
                None
            },
    {
        if self.is_dx10() {
            Some(self.dxgi_code())
        } else {
            None
        }
    }

    /// The storage class used for payload sizes.
    pub fn storage_class(&self) -> (r: StorageClass)
        ensures
            r == self.spec_storage_class(),
    {
        match self {
            TexFormat::DxgiFormatBc1Unorm => StorageClass::HalfByte,
            TexFormat::DxgiFormatBc1UnormSRGB => StorageClass::HalfByte,
            TexFormat::DxgiFormatBc4Unorm => StorageClass::HalfByte,
            TexFormat::DxgiFormatR8G8Unorm => StorageClass::TwoBytes,
            _ => StorageClass::OneByte,
        }
    }

    /// Whether the DDS form carries the DX10 extension header.
    pub fn is_dx10(&self) -> (r: bool)
        ensures
            r == self.spec_is_dx10(),
    {
        match self {
            TexFormat::DxgiFormatUnknown => false,
            TexFormat::DxgiFormatBc1Unorm => false,
            TexFormat::DxgiFormatBc4Unorm => false,
            TexFormat::DxgiFormatBc5Unorm => false,
            _ => true,
        }
    }

    /// Whether the TEX header marks the format as one of the newer DDS formats.
    pub fn is_new_dds(&self) -> (r: bool)
        ensures
            r == self.spec_is_new_dds(),
    {
        match self {
            TexFormat::DxgiFormatBc7Unorm => true,
            TexFormat::DxgiFormatBc7UnormSRGB => true,
            TexFormat::DxgiFormatBc6hUf16 => true,
            _ => false,
        }
    }
}

} // verus!
