//! DDS to TEX.
use vstd::prelude::*;
use crate::bytes::{push_tail, tail_from};
use crate::dds::{dds_info_of, payload_offset_of, DdsInfo};
use crate::error::{bytes_view, Error};
use crate::mip::{compute_mip_chain, level_at, level_count, MipLevel};
use crate::tex::{mip_table, tex_header, write_mip_table, write_tex_header};

verus! {

/// The mip chain that a TEX file written from the DDS header `info` records.
pub open spec fn chain_of(info: DdsInfo) -> Seq<MipLevel> {
    Seq::new(
        level_count(info.mip_map_count),
        |k: int|
            level_at(
                info.width,
                info.height,
                info.mip_map_count,
                info.format.spec_storage_class(),
                info.is_raw,
                k as nat,
            ),
    )
}

/// What converting the DDS file `s` gives: a TEX header, the regenerated mip offset
/// table, then the DDS payload unchanged.
pub open spec fn dds_to_tex(s: Seq<u8>) -> Result<Seq<u8>, Error> {
    match dds_info_of(s) {
        Err(e) => Err(e),
        Ok(info) => Ok(
            tex_header(info.mip_map_count, info.width, info.height, info.format, info.is_raw)
                + mip_table(chain_of(info)) + tail_from(s, payload_offset_of(info)),
        ),
    }
}

/// Converts a DDS file to a TEX file; the pixel payload is copied byte for byte.
pub fn convert_to_tex(data: &[u8]) -> (r: Result<Vec<u8>, Error>)
    ensures
        bytes_view(r) == dds_to_tex(data@),
{
    let info = match DdsInfo::from_reader(data) {
        Ok(info) => info,
        Err(e) => {
            return Err(e);
        },
    };
    let offset = info.payload_offset();
    let mut out: Vec<u8> = Vec::new();
    write_tex_header(&mut out, info.mip_map_count, info.width, info.height, info.format, info.is_raw);
    let levels = compute_mip_chain(
        info.width,
        info.height,
        info.mip_map_count,
        info.format.storage_class(),
        info.is_raw,
    );
    assert(levels@ =~= chain_of(info));
    write_mip_table(&mut out, &levels);
    push_tail(&mut out, data, offset);
    Ok(out)
}

} // verus!
