//! Errors of a conversion.
use vstd::prelude::*;

verus! {

/// Why a conversion produced no output.
#[derive(Debug, Clone, Copy, PartialEq, Eq, Structural)]
pub enum Error {
    /// The input ended before a field that the layout places there.
    UnexpectedEof,
    /// The container signature differs: the expected value, then the one found.
    BadMagic(i32, i32),
    /// The pixel format code or tag is not one of the registered formats.
    UnknownTexFormat,
}

/// The result of a conversion, with the bytes viewed as a sequence.
pub open spec fn bytes_view(r: Result<Vec<u8>, Error>) -> Result<Seq<u8>, Error> {
    match r {
        Ok(v) => Ok(v@),
        Err(e) => Err(e),
    }
}

} // verus!
