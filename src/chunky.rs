//! The outer replay header and the "Relic Chunky" container that follows it.
use vstd::prelude::*;
use vstd::array::array_as_slice;
use vstd::slice::slice_to_vec;

use crate::bytes::{
    expect_tag, read_u16, read_u32, read_utf16_terminated, skip_zeroes, spec_tag, spec_u16, spec_u32,
    spec_utf16_terminated, spec_verify_u32, utf8_lossy, utf8_text, verify_u32, zeros_end,
};
use crate::chunk::{chunks_view, decode_children, spec_children, Chunk, ChunkModel};
use crate::error::{view_res, DecodeError};

verus! {

/// The container's signature: "\r\n\x1a\0" read as a little-endian 32-bit value.
pub const CHUNKY_SIGNATURE: u32 = 0x1A_0A0D;

/// The major version of the current format revision.
pub const CHUNKY_MAJOR_VERSION: u32 = 4;

/// The major version of the earlier format revision, also accepted.
pub const CHUNKY_MAJOR_VERSION_EARLIER: u32 = 3;

pub const CHUNKY_MINOR_VERSION: u32 = 1;

/// "Relic Chunky", the container's magic tag.
pub open spec fn chunky_magic() -> Seq<u8> {
    seq![0x52u8, 0x65, 0x6c, 0x69, 0x63, 0x20, 0x43, 0x68, 0x75, 0x6e, 0x6b, 0x79]
}

/// "COH2_REC", the game-type tag of the replay header.
pub open spec fn game_type_tag() -> Seq<u8> {
    seq![0x43u8, 0x4f, 0x48, 0x32, 0x5f, 0x52, 0x45, 0x43]
}

/// The major versions this decoder reads.
pub open spec fn accepted_major(v: u32) -> bool {
    v == CHUNKY_MAJOR_VERSION || v == CHUNKY_MAJOR_VERSION_EARLIER
}

/// The preamble of a "Relic Chunky" container.
#[derive(Clone, Debug)]
pub struct Chunky {
    pub name: String,
    pub signature: u32,
    /// The format revision that was read, one of the accepted major versions.
    pub major_version: u32,
    pub minor_version: u32,
}

pub ghost struct ChunkyModel {
    pub name: Seq<char>,
    pub signature: u32,
    pub major_version: u32,
    pub minor_version: u32,
}

impl View for Chunky {
    type V = ChunkyModel;

    open spec fn view(&self) -> ChunkyModel {
        ChunkyModel {
            name: self.name@,
            signature: self.signature,
            major_version: self.major_version,
            minor_version: self.minor_version,
        }
    }
}

/// The magic tag, the signature, an accepted major version and the minor
/// version, each checked against its constant.
pub open spec fn spec_chunky(s: Seq<u8>, p: usize) -> Result<(ChunkyModel, usize), DecodeError> {
    match spec_tag(s, p, chunky_magic()) { Err(x) => Err(x), Ok(p) =>
    match spec_verify_u32(s, p, CHUNKY_SIGNATURE) { Err(x) => Err(x), Ok((signature, q)) =>
    match spec_u32(s, q) { Err(x) => Err(x), Ok((major_version, p)) =>
        if !accepted_major(major_version) {
            Err(DecodeError::ConstraintViolation {
                offset: q,
                expected: CHUNKY_MAJOR_VERSION as u64,
                actual: major_version as u64,
            })
        } else {
            match spec_verify_u32(s, p, CHUNKY_MINOR_VERSION) { Err(x) => Err(x), Ok((minor_version, p)) =>
                Ok((ChunkyModel { name: utf8_lossy(chunky_magic()), signature, major_version, minor_version }, p))
            }
        }
    }}}
}

impl Chunky {
    /// Decodes the container preamble at `pos`.
    pub fn parse(buf: &[u8], pos: usize) -> (r: Result<(Chunky, usize), DecodeError>)
        ensures
            view_res(r) == spec_chunky(buf@, pos),
    {
        let magic: [u8; 12] = [0x52, 0x65, 0x6c, 0x69, 0x63, 0x20, 0x43, 0x68, 0x75, 0x6e, 0x6b, 0x79];
        let magic = slice_to_vec(array_as_slice(&magic));
        assert(magic@ =~= chunky_magic());
        let p = expect_tag(buf, pos, magic.as_slice())?;
        let (signature, q) = verify_u32(buf, p, CHUNKY_SIGNATURE)?;
        let (major_version, p) = read_u32(buf, q)?;
        if major_version != CHUNKY_MAJOR_VERSION && major_version != CHUNKY_MAJOR_VERSION_EARLIER {
            return Err(DecodeError::ConstraintViolation {
                offset: q,
                expected: CHUNKY_MAJOR_VERSION as u64,
                actual: major_version as u64,
            });
        }
        let (minor_version, p) = verify_u32(buf, p, CHUNKY_MINOR_VERSION)?;
        Ok((Chunky { name: utf8_text(&magic), signature, major_version, minor_version }, p))
    }
}

/// A whole container: preamble, three 32-bit fields and the top-level chunks.
#[derive(Debug)]
pub struct RelicChunky {
    pub preamble: Chunky,
    /// Bytes from the start of the container to its first chunk.
    pub chunk_offset: u32,
    pub unknown_offset: u32,
    pub unknown_id: u32,
    pub chunks: Vec<Chunk>,
}

pub ghost struct RelicChunkyModel {
    pub preamble: ChunkyModel,
    pub chunk_offset: u32,
    pub unknown_offset: u32,
    pub unknown_id: u32,
    pub chunks: Seq<ChunkModel>,
}

impl View for RelicChunky {
    type V = RelicChunkyModel;

    open spec fn view(&self) -> RelicChunkyModel {
        RelicChunkyModel {
            preamble: self.preamble@,
            chunk_offset: self.chunk_offset,
            unknown_offset: self.unknown_offset,
            unknown_id: self.unknown_id,
            chunks: chunks_view(self.chunks@),
        }
    }
}

/// The preamble, the chunk offset and two reserved fields, then chunks
/// laid end to end as long as one starts.
pub open spec fn spec_relic_chunky(s: Seq<u8>, p: usize) -> Result<(RelicChunkyModel, usize), DecodeError> {
    match spec_chunky(s, p) { Err(x) => Err(x), Ok((preamble, p)) =>
    match spec_u32(s, p) { Err(x) => Err(x), Ok((chunk_offset, p)) =>
    match spec_u32(s, p) { Err(x) => Err(x), Ok((unknown_offset, p)) =>
    match spec_u32(s, p) { Err(x) => Err(x), Ok((unknown_id, p)) =>
    match spec_children(s, p) { Err(x) => Err(x), Ok((chunks, p)) =>
        Ok((RelicChunkyModel { preamble, chunk_offset, unknown_offset, unknown_id, chunks }, p))
    }}}}}
}

/// Decodes a whole container at `pos`.
pub fn decode_relic_chunky(buf: &[u8], pos: usize) -> (r: Result<(RelicChunky, usize), DecodeError>)
    ensures
        view_res(r) == spec_relic_chunky(buf@, pos),
{
    let (preamble, p) = Chunky::parse(buf, pos)?;
    let (chunk_offset, p) = read_u32(buf, p)?;
    let (unknown_offset, p) = read_u32(buf, p)?;
    let (unknown_id, p) = read_u32(buf, p)?;
    let (chunks, p) = decode_children(buf, p)?;
    Ok((RelicChunky { preamble, chunk_offset, unknown_offset, unknown_id, chunks }, p))
}

/// The header in front of the container.
#[derive(Clone, Debug)]
pub struct ReplayHeader {
    pub version: u16,
    pub game_type: String,
    pub timestamp: String,
}

pub ghost struct ReplayHeaderModel {
    pub version: u16,
    pub game_type: Seq<char>,
    pub timestamp: Seq<char>,
}

impl View for ReplayHeader {
    type V = ReplayHeaderModel;

    open spec fn view(&self) -> ReplayHeaderModel {
        ReplayHeaderModel { version: self.version, game_type: self.game_type@, timestamp: self.timestamp@ }
    }
}

/// A zero 16-bit field, the 16-bit version, the 8-byte game-type tag, the
/// timestamp as zero-terminated UTF-16, then zero bytes, which are skipped.
pub open spec fn spec_replay_header(s: Seq<u8>, p: usize) -> Result<(ReplayHeaderModel, usize), DecodeError> {
    match spec_u16(s, p) { Err(x) => Err(x), Ok((zero, q)) =>
        if zero != 0 {
            Err(DecodeError::ConstraintViolation { offset: p, expected: 0, actual: zero as u64 })
        } else {
            match spec_u16(s, q) { Err(x) => Err(x), Ok((version, p)) =>
            match spec_tag(s, p, game_type_tag()) { Err(x) => Err(x), Ok(p) =>
            match spec_utf16_terminated(s, p) { Err(x) => Err(x), Ok((timestamp, p)) =>
                Ok((ReplayHeaderModel { version, game_type: utf8_lossy(game_type_tag()), timestamp },
                    zeros_end(s, p as int) as usize))
            }}}
        }
    }
}

/// Decodes the replay header at `pos`.
pub fn decode_replay_header(buf: &[u8], pos: usize) -> (r: Result<(ReplayHeader, usize), DecodeError>)
    ensures
        view_res(r) == spec_replay_header(buf@, pos),
{
    let (zero, q) = read_u16(buf, pos)?;
    if zero != 0 {
        return Err(DecodeError::ConstraintViolation { offset: pos, expected: 0, actual: zero as u64 });
    }
    let (version, p) = read_u16(buf, q)?;
    let tag: [u8; 8] = [0x43, 0x4f, 0x48, 0x32, 0x5f, 0x52, 0x45, 0x43];
    let tag = slice_to_vec(array_as_slice(&tag));
    assert(tag@ =~= game_type_tag());
    let p = expect_tag(buf, p, tag.as_slice())?;
    let (timestamp, p) = read_utf16_terminated(buf, p)?;
    let p = skip_zeroes(buf, p);
    Ok((ReplayHeader { version, game_type: utf8_text(&tag), timestamp }, p))
}

/// A decoded replay: its header and its container.
#[derive(Debug)]
pub struct Replay {
    pub header: ReplayHeader,
    pub chunky: RelicChunky,
}

pub ghost struct ReplayModel {
    pub header: ReplayHeaderModel,
    pub chunky: RelicChunkyModel,
}

impl View for Replay {
    type V = ReplayModel;

    open spec fn view(&self) -> ReplayModel {
        ReplayModel { header: self.header@, chunky: self.chunky@ }
    }
}

/// The header at the start of the buffer, then the container right after it.
pub open spec fn spec_replay(s: Seq<u8>) -> Result<ReplayModel, DecodeError> {
    match spec_replay_header(s, 0) { Err(x) => Err(x), Ok((header, p)) =>
    match spec_relic_chunky(s, p) { Err(x) => Err(x), Ok((chunky, _)) =>
        Ok(ReplayModel { header, chunky })
    }}
}

/// Decodes a whole replay file held in `buf`. Either the whole tree comes
/// back or the first error met; never a part of the tree.
pub fn parse_replay(buf: &[u8]) -> (r: Result<Replay, DecodeError>)
    ensures
        match r {
            Ok(v) => spec_replay(buf@) == Ok::<ReplayModel, DecodeError>(v@),
            Err(x) => spec_replay(buf@) == Err::<ReplayModel, DecodeError>(x),
        },
{
    let (header, p) = decode_replay_header(buf, 0)?;
    let (chunky, _) = decode_relic_chunky(buf, p)?;
    Ok(Replay { header, chunky })
}

} // verus!
