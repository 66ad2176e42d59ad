//! TEX to DDS.
use vstd::prelude::*;
use crate::bytes::{push_tail, tail_from};
use crate::dds::{dds_header, write_dds_header};
use crate::error::{bytes_view, Error};
use crate::tex::{tex_info_of, TexInfo};

verus! {

/// What converting the TEX file `s` gives: a DDS header for the TEX header's format,
/// dimensions and mip count, then the TEX payload unchanged.
pub open spec fn tex_to_dds(s: Seq<u8>) -> Result<Seq<u8>, Error> {
    match tex_info_of(s) {
        Err(e) => Err(e),
        Ok(info) => Ok(
            dds_header(info.format, info.width, info.height, info.mip_map_count) + tail_from(
                s,
                info.offset as int,
            ),
        ),
    }
}

/// Converts a TEX file to a DDS file; the pixel payload is copied byte for byte.
pub fn convert_to_dds(data: &[u8]) -> (r: Result<Vec<u8>, Error>)
    ensures
        bytes_view(r) == tex_to_dds(data@),
{
    let info = match TexInfo::from_reader(data) {
        Ok(info) => info,
        Err(e) => {
            return Err(e);
        },
    };
    let mut out: Vec<u8> = Vec::new();
    write_dds_header(&mut out, info.format, info.width, info.height, info.mip_map_count);
    if 0 <= info.offset && (info.offset as u64) < (data.len() as u64) {
        push_tail(&mut out, data, info.offset as usize);
    } else {
        assert(tail_from(data@, info.offset as int) =~= Seq::<u8>::empty());
        assert(out@ =~= out@ + Seq::<u8>::empty());
    }
    Ok(out)
}

} // verus!
