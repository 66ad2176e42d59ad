//! Transcoding between the TEX texture container and the DDS container, and the records of
//! a sticker workspace built on it.
//!
//! `format` is the registry of pixel formats; `tex` and `dds` parse and write the two
//! headers; `mip` computes the offsets of a mip chain; `tex2dds` and `dds2tex` convert
//! whole files, copying the pixel payload unchanged. `theorems` and `roundtrip` state what
//! holds of the conversions together. `workspace` and `menu` hold the records and the menu
//! decisions of the sticker helper.

pub mod bytes;
pub mod error;
pub mod format;
pub mod mip;
pub mod tex;
pub mod dds;
pub mod tex2dds;
pub mod dds2tex;
pub mod theorems;
pub mod roundtrip;
pub mod workspace;
pub mod menu;
