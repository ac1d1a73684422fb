//! The 28-byte header that starts every chunk.
use vstd::prelude::*;

use crate::bytes::{read_block, read_u32, spec_block, spec_u32, utf8_lossy, utf8_text};
use crate::error::{view_res, DecodeError};

verus! {

/// Bytes in a chunk header.
pub const CHUNK_HEADER_LEN: usize = 28;

/// Bytes in each of the header's two ASCII tags.
pub const TAG_LEN: usize = 4;

/// The common header of a chunk.
#[derive(Clone, Debug)]
pub struct ChunkHeader {
    /// "FOLD" or "DATA".
    pub chunk_kind: String,
    /// Names the layout of a data chunk's body.
    pub chunk_type: String,
    pub version: u32,
    /// Bytes in the chunk's own body.
    pub length: u32,
    pub name_length: u32,
    pub min_version: u32,
    pub flags: u32,
}

pub ghost struct ChunkHeaderModel {
    pub chunk_kind: Seq<char>,
    pub chunk_type: Seq<char>,
    pub version: u32,
    pub length: u32,
    pub name_length: u32,
    pub min_version: u32,
    pub flags: u32,
}

impl View for ChunkHeader {
    type V = ChunkHeaderModel;

    open spec fn view(&self) -> ChunkHeaderModel {
        ChunkHeaderModel {
            chunk_kind: self.chunk_kind@,
            chunk_type: self.chunk_type@,
            version: self.version,
            length: self.length,
            name_length: self.name_length,
            min_version: self.min_version,
            flags: self.flags,
        }
    }
}

/// Two 4-byte ASCII tags, then version, length, name length, minimum
/// version and flags, 32 bits each.
#[verifier::opaque]
pub open spec fn spec_chunk_header(s: Seq<u8>, p: usize) -> Result<(ChunkHeaderModel, usize), DecodeError> {
    match spec_block(s, p, TAG_LEN) { Err(x) => Err(x), Ok((kind, p)) =>
    match spec_block(s, p, TAG_LEN) { Err(x) => Err(x), Ok((ty, p)) =>
    match spec_u32(s, p) { Err(x) => Err(x), Ok((version, p)) =>
    match spec_u32(s, p) { Err(x) => Err(x), Ok((length, p)) =>
    match spec_u32(s, p) { Err(x) => Err(x), Ok((name_length, p)) =>
    match spec_u32(s, p) { Err(x) => Err(x), Ok((min_version, p)) =>
    match spec_u32(s, p) { Err(x) => Err(x), Ok((flags, p)) =>
        Ok((ChunkHeaderModel {
            chunk_kind: utf8_lossy(kind),
            chunk_type: utf8_lossy(ty),
            version,
            length,
            name_length,
            min_version,
            flags,
        }, p))
    }}}}}}}
}

/// Decodes a chunk header at `pos`.
pub fn decode_chunk_header(buf: &[u8], pos: usize) -> (r: Result<(ChunkHeader, usize), DecodeError>)
    ensures
        view_res(r) == spec_chunk_header(buf@, pos),
        match r {
            Ok((_, e)) => e == pos + CHUNK_HEADER_LEN && e <= buf.len(),
            Err(_) => true,
        },
{
    reveal(spec_chunk_header);
    assert(buf@.len() == buf.len());
    let (kind, p) = read_block(buf, pos, TAG_LEN)?;
    let (ty, p) = read_block(buf, p, TAG_LEN)?;
    let (version, p) = read_u32(buf, p)?;
    let (length, p) = read_u32(buf, p)?;
    let (name_length, p) = read_u32(buf, p)?;
    let (min_version, p) = read_u32(buf, p)?;
    let (flags, p) = read_u32(buf, p)?;
    Ok((ChunkHeader {
        chunk_kind: utf8_text(&kind),
        chunk_type: utf8_text(&ty),
        version,
        length,
        name_length,
        min_version,
        flags,
    }, p))
}

} // verus!
