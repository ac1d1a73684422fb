//! Chunk nodes: a folder holds further chunks, a data chunk holds a body
//! whose layout its type tag names.
use vstd::prelude::*;

use crate::bytes::{avail, read_u32, u32_at};
use crate::data::{
    decode_map_descriptor, decode_match_data, spec_map_descriptor, spec_match_data, MapDescriptorChunk,
    MapDescriptorModel, MatchDataChunk, MatchDataModel,
};
use crate::error::{view_res, DecodeError};
use crate::header::{decode_chunk_header, spec_chunk_header, ChunkHeader, ChunkHeaderModel, CHUNK_HEADER_LEN};

verus! {

/// "FOLD" read as a little-endian 32-bit value: the kind tag of a folder.
pub const TAG_FOLD: u32 = 0x444C_4F46;

/// "DATA" read as a little-endian 32-bit value: the kind tag of a data
/// chunk, and the type tag of match data.
pub const TAG_DATA: u32 = 0x4154_4144;

/// "SDSC": the type tag of a map descriptor.
pub const TAG_SDSC: u32 = 0x4353_4453;

/// "PLAS": the type tag of placed assets, whose layout is not known.
pub const TAG_PLAS: u32 = 0x5341_4C50;

/// A folder chunk and the chunks it holds, in order.
#[derive(Debug)]
pub struct FolderChunk {
    pub header: ChunkHeader,
    pub chunks: Vec<Chunk>,
}

/// A node of the chunk tree.
#[derive(Debug)]
pub enum Chunk {
    Folder(FolderChunk),
    MapDescriptor(MapDescriptorChunk),
    MatchData(MatchDataChunk),
}

pub ghost enum ChunkModel {
    Folder { header: ChunkHeaderModel, chunks: Seq<ChunkModel> },
    MapDescriptor(MapDescriptorModel),
    MatchData(MatchDataModel),
}

/// What a chunk holds, its children included.
pub open spec fn chunk_view(c: &Chunk) -> ChunkModel
    decreases c,
{
    match c {
        Chunk::Folder(f) => ChunkModel::Folder {
            header: f.header@,
            chunks: Seq::new(
                f.chunks.len() as nat,
                |i: int|
                    if 0 <= i < f.chunks.len() {
                        chunk_view(&f.chunks[i])
                    } else {
                        ChunkModel::Folder { header: f.header@, chunks: Seq::empty() }
                    },
            ),
        },
        Chunk::MapDescriptor(m) => ChunkModel::MapDescriptor(m@),
        Chunk::MatchData(m) => ChunkModel::MatchData(m@),
    }
}

impl View for Chunk {
    type V = ChunkModel;

    open spec fn view(&self) -> ChunkModel {
        chunk_view(self)
    }
}

/// The views of a sequence of chunks.
pub open spec fn chunks_view(v: Seq<Chunk>) -> Seq<ChunkModel> {
    Seq::new(v.len(), |i: int| v[i]@)
}

/// Whether a chunk starts at `p`: its kind tag is "FOLD" or "DATA".
pub open spec fn starts_chunk(s: Seq<u8>, p: usize) -> bool {
    avail(s, p, 4) && (u32_at(s, p as int) == TAG_FOLD || u32_at(s, p as int) == TAG_DATA)
}

/// The body of a data chunk that starts at `p`, with header `h` ending at
/// `q`: its type tag picks map descriptor or match data; placed assets are
/// recognised but not decodable.
pub open spec fn spec_data_body(s: Seq<u8>, p: usize, q: usize, h: ChunkHeaderModel) -> Result<(ChunkModel, usize), DecodeError> {
    let ty = u32_at(s, p + 4);
    if ty == TAG_SDSC {
        match spec_map_descriptor(s, q, h) {
            Err(x) => Err(x),
            Ok((m, e)) => Ok((ChunkModel::MapDescriptor(m), e)),
        }
    } else if ty == TAG_DATA {
        match spec_match_data(s, q, h) {
            Err(x) => Err(x),
            Ok((m, e)) => Ok((ChunkModel::MatchData(m), e)),
        }
    } else if ty == TAG_PLAS {
        Err(DecodeError::Unsupported { offset: p })
    } else {
        Err(DecodeError::UnknownVariant { offset: (p + 4) as usize, discriminant: ty as u64 })
    }
}

/// One chunk: its header, then by the kind tag either the folder's children
/// or the data chunk's body.
pub open spec fn spec_chunk(s: Seq<u8>, p: usize) -> Result<(ChunkModel, usize), DecodeError>
    decreases s.len() - p, 0nat,
{
    match spec_chunk_header(s, p) {
        Err(x) => Err(x),
        Ok((h, q)) => {
            let kind = u32_at(s, p as int);
            if kind == TAG_FOLD {
                // The header always takes the first bytes, so `p < q`.
                if p < q <= s.len() {
                    match spec_children(s, q) {
                        Err(x) => Err(x),
                        Ok((cs, e)) => Ok((ChunkModel::Folder { header: h, chunks: cs }, e)),
                    }
                } else {
                    Ok((ChunkModel::Folder { header: h, chunks: Seq::empty() }, q))
                }
            } else if kind == TAG_DATA {
                spec_data_body(s, p, q, h)
            } else {
                Err(DecodeError::UnknownVariant { offset: p, discriminant: kind as u64 })
            }
        },
    }
}

/// The chunks laid end to end from `q`, up to the end of the buffer or the
/// first position where no chunk starts. A chunk that starts there and then
/// fails to decode fails the whole run. A chunk that consumed nothing would
/// end the run, as each consumes at least its header.
pub open spec fn spec_children(s: Seq<u8>, q: usize) -> Result<(Seq<ChunkModel>, usize), DecodeError>
    decreases s.len() - q, 1nat,
{
    if !starts_chunk(s, q) {
        Ok((Seq::empty(), q))
    } else {
        match spec_chunk(s, q) {
            Err(x) => Err(x),
            Ok((c, e)) => if e <= q || e > s.len() {
                Ok((seq![c], e))
            } else {
                match spec_children(s, e) {
                    Err(x) => Err(x),
                    Ok((cs, f)) => Ok((seq![c] + cs, f)),
                }
            },
        }
    }
}

/// `r` with `done` put in front of its chunks.
pub open spec fn after(done: Seq<ChunkModel>, r: Result<(Seq<ChunkModel>, usize), DecodeError>) -> Result<(Seq<ChunkModel>, usize), DecodeError> {
    match r {
        Ok((cs, f)) => Ok((done + cs, f)),
        Err(x) => Err(x),
    }
}

/// Decodes the chunk that starts at `pos`, its children included.
pub fn decode_chunk(buf: &[u8], pos: usize) -> (r: Result<(Chunk, usize), DecodeError>)
    ensures
        view_res(r) == spec_chunk(buf@, pos),
    decreases buf@.len() - pos, 0nat,
{
    let (header, q) = decode_chunk_header(buf, pos)?;
    let (kind, _) = read_u32(buf, pos)?;
    if kind == TAG_FOLD {
        let (chunks, e) = decode_children(buf, q)?;
        let c = Chunk::Folder(FolderChunk { header, chunks });
        assert(c@ == ChunkModel::Folder { header: header@, chunks: chunks_view(chunks@) }) by {
            assert(chunk_view(&c)->Folder_chunks =~= chunks_view(chunks@));
        }
        Ok((c, e))
    } else if kind == TAG_DATA {
        let (ty, _) = read_u32(buf, pos + 4)?;
        if ty == TAG_SDSC {
            let (m, e) = decode_map_descriptor(buf, q, header)?;
            Ok((Chunk::MapDescriptor(m), e))
        } else if ty == TAG_DATA {
            let (m, e) = decode_match_data(buf, q, header)?;
            Ok((Chunk::MatchData(m), e))
        } else if ty == TAG_PLAS {
            Err(DecodeError::Unsupported { offset: pos })
        } else {
            Err(DecodeError::UnknownVariant { offset: pos + 4, discriminant: ty as u64 })
        }
    } else {
        Err(DecodeError::UnknownVariant { offset: pos, discriminant: kind as u64 })
    }
}

/// Tells whether a chunk starts at `pos`.
pub fn at_chunk(buf: &[u8], pos: usize) -> (r: bool)
    ensures
        r == starts_chunk(buf@, pos),
{
    match read_u32(buf, pos) {
        Ok((tag, _)) => tag == TAG_FOLD || tag == TAG_DATA,
        Err(_) => false,
    }
}

/// Decodes the chunks laid end to end from `start`, as [`spec_children`] says.
pub fn decode_children(buf: &[u8], start: usize) -> (r: Result<(Vec<Chunk>, usize), DecodeError>)
    ensures
        match r {
            Ok((v, e)) => spec_children(buf@, start) == Ok::<(Seq<ChunkModel>, usize), DecodeError>((chunks_view(v@), e)),
            Err(x) => spec_children(buf@, start) == Err::<(Seq<ChunkModel>, usize), DecodeError>(x),
        },
    decreases buf@.len() - start, 1nat,
{
    let mut chunks: Vec<Chunk> = Vec::new();
    let mut q = start;
    assert(chunks_view(chunks@) =~= Seq::empty());
    assert(after(Seq::empty(), spec_children(buf@, start)) == spec_children(buf@, start)) by {
        match spec_children(buf@, start) {
            Ok((cs, f)) => assert(Seq::<ChunkModel>::empty() + cs =~= cs),
            Err(_) => {},
        }
    }
    while at_chunk(buf, q)
        invariant
            start <= q,
            spec_children(buf@, start) == after(chunks_view(chunks@), spec_children(buf@, q)),
        decreases buf@.len() - q,
    {
        let ghost done = chunks_view(chunks@);
        let (c, e) = decode_chunk(buf, q)?;
        chunks.push(c);
        assert(chunks_view(chunks@) =~= done + seq![chunks@.last()@]);
        if e <= q || e > buf.len() {
            return Ok((chunks, e));
        }
        assert(after(done, after(seq![chunks@.last()@], spec_children(buf@, e))) == after(
            chunks_view(chunks@),
            spec_children(buf@, e),
        )) by {
            match spec_children(buf@, e) {
                Ok((cs, f)) => assert(done + (seq![chunks@.last()@] + cs) =~= chunks_view(chunks@) + cs),
                Err(_) => {},
            }
        }
        q = e;
    }
    assert(chunks_view(chunks@) + Seq::<ChunkModel>::empty() =~= chunks_view(chunks@));
    Ok((chunks, q))
}

} // verus!
