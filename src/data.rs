//! Bodies of data chunks: the map descriptor and the match data.
use vstd::prelude::*;

use crate::bytes::{
    read_block, read_u16, read_u32, read_utf16_var, read_utf8_var, spec_block, spec_u16, spec_u32, spec_utf16_var,
    spec_utf8_var,
};
use crate::error::{view_res, DecodeError};
use crate::header::{ChunkHeader, ChunkHeaderModel};
use crate::player::{decode_player, spec_player, PlayerData, PlayerModel};

verus! {

/// Version of match data whose body is kept as opaque bytes.
pub const SIMPLE_MATCH_DATA_VERSION: u32 = 1;

/// Opaque blocks of the map descriptor, in bytes.
pub const MAP_BLOCK_1_LEN: usize = 16;

pub const MAP_BLOCK_2_LEN: usize = 40;

pub const MAP_BLOCK_3_LEN: usize = 18;

/// A map descriptor ("DATASDSC") chunk.
#[derive(Clone, Debug)]
pub struct MapDescriptorChunk {
    pub header: ChunkHeader,
    pub unknown_flag_1: u32,
    pub unknown_flag_2: u32,
    pub unknown_flag_3: u32,
    pub unknown_flag_4: u32,
    pub unknown_flag_5: u32,
    pub unknown_flag_6: u32,
    pub unknown_flag_7: u32,
    pub map_file_length: u32,
    pub map_file: String,
    pub unknown_data_1: Vec<u8>,
    pub map_name_length: u32,
    pub map_name: String,
    pub long_map_description_length: u32,
    pub long_map_description: String,
    pub short_map_description_length: u32,
    pub short_map_description: String,
    pub map_players: u32,
    pub map_width: u32,
    pub map_height: u32,
    pub unknown_data_2: Vec<u8>,
    pub unknown_flag_8: u32,
    pub unknown_data_3: Vec<u8>,
    pub unknown_flag_9: u32,
    pub unknown_data_4_length: u32,
    pub unknown_data_4: String,
}

pub ghost struct MapDescriptorModel {
    pub header: ChunkHeaderModel,
    pub unknown_flag_1: u32,
    pub unknown_flag_2: u32,
    pub unknown_flag_3: u32,
    pub unknown_flag_4: u32,
    pub unknown_flag_5: u32,
    pub unknown_flag_6: u32,
    pub unknown_flag_7: u32,
    pub map_file: (u32, Seq<char>),
    pub unknown_data_1: Seq<u8>,
    pub map_name: (u32, Seq<char>),
    pub long_map_description: (u32, Seq<char>),
    pub short_map_description: (u32, Seq<char>),
    pub map_players: u32,
    pub map_width: u32,
    pub map_height: u32,
    pub unknown_data_2: Seq<u8>,
    pub unknown_flag_8: u32,
    pub unknown_data_3: Seq<u8>,
    pub unknown_flag_9: u32,
    pub unknown_data_4: (u32, Seq<char>),
}

impl View for MapDescriptorChunk {
    type V = MapDescriptorModel;

    open spec fn view(&self) -> MapDescriptorModel {
        MapDescriptorModel {
            header: self.header@,
            unknown_flag_1: self.unknown_flag_1,
            unknown_flag_2: self.unknown_flag_2,
            unknown_flag_3: self.unknown_flag_3,
            unknown_flag_4: self.unknown_flag_4,
            unknown_flag_5: self.unknown_flag_5,
            unknown_flag_6: self.unknown_flag_6,
            unknown_flag_7: self.unknown_flag_7,
            map_file: (self.map_file_length, self.map_file@),
            unknown_data_1: self.unknown_data_1@,
            map_name: (self.map_name_length, self.map_name@),
            long_map_description: (self.long_map_description_length, self.long_map_description@),
            short_map_description: (self.short_map_description_length, self.short_map_description@),
            map_players: self.map_players,
            map_width: self.map_width,
            map_height: self.map_height,
            unknown_data_2: self.unknown_data_2@,
            unknown_flag_8: self.unknown_flag_8,
            unknown_data_3: self.unknown_data_3@,
            unknown_flag_9: self.unknown_flag_9,
            unknown_data_4: (self.unknown_data_4_length, self.unknown_data_4@),
        }
    }
}

/// The body of a map descriptor after its header `h`: seven flags, the
/// UTF-8 map file, 16 opaque bytes, the UTF-16 map name and long and short
/// descriptions, player count, width and height, 40 opaque bytes, a flag,
/// 18 opaque bytes, a flag and a final UTF-8 string.
#[verifier::opaque]
pub open spec fn spec_map_descriptor(s: Seq<u8>, p: usize, h: ChunkHeaderModel) -> Result<(MapDescriptorModel, usize), DecodeError> {
    match spec_u32(s, p) { Err(x) => Err(x), Ok((unknown_flag_1, p)) =>
    match spec_u32(s, p) { Err(x) => Err(x), Ok((unknown_flag_2, p)) =>
    match spec_u32(s, p) { Err(x) => Err(x), Ok((unknown_flag_3, p)) =>
    match spec_u32(s, p) { Err(x) => Err(x), Ok((unknown_flag_4, p)) =>
    match spec_u32(s, p) { Err(x) => Err(x), Ok((unknown_flag_5, p)) =>
    match spec_u32(s, p) { Err(x) => Err(x), Ok((unknown_flag_6, p)) =>
    match spec_u32(s, p) { Err(x) => Err(x), Ok((unknown_flag_7, p)) =>
    match spec_utf8_var(s, p) { Err(x) => Err(x), Ok((map_file, p)) =>
    match spec_block(s, p, MAP_BLOCK_1_LEN) { Err(x) => Err(x), Ok((unknown_data_1, p)) =>
    match spec_utf16_var(s, p) { Err(x) => Err(x), Ok((map_name, p)) =>
    match spec_utf16_var(s, p) { Err(x) => Err(x), Ok((long_map_description, p)) =>
    match spec_utf16_var(s, p) { Err(x) => Err(x), Ok((short_map_description, p)) =>
    match spec_u32(s, p) { Err(x) => Err(x), Ok((map_players, p)) =>
    match spec_u32(s, p) { Err(x) => Err(x), Ok((map_width, p)) =>
    match spec_u32(s, p) { Err(x) => Err(x), Ok((map_height, p)) =>
    match spec_block(s, p, MAP_BLOCK_2_LEN) { Err(x) => Err(x), Ok((unknown_data_2, p)) =>
    match spec_u32(s, p) { Err(x) => Err(x), Ok((unknown_flag_8, p)) =>
    match spec_block(s, p, MAP_BLOCK_3_LEN) { Err(x) => Err(x), Ok((unknown_data_3, p)) =>
    match spec_u32(s, p) { Err(x) => Err(x), Ok((unknown_flag_9, p)) =>
    match spec_utf8_var(s, p) { Err(x) => Err(x), Ok((unknown_data_4, p)) =>
        Ok((MapDescriptorModel {
            header: h,
            unknown_flag_1,
            unknown_flag_2,
            unknown_flag_3,
            unknown_flag_4,
            unknown_flag_5,
            unknown_flag_6,
            unknown_flag_7,
            map_file,
            unknown_data_1,
            map_name,
            long_map_description,
            short_map_description,
            map_players,
            map_width,
            map_height,
            unknown_data_2,
            unknown_flag_8,
            unknown_data_3,
            unknown_flag_9,
            unknown_data_4,
        }, p))
    }}}}}}}}}}}}}}}}}}}}
}

/// Decodes the body of a map descriptor whose header, already read, is `header`.
pub fn decode_map_descriptor(buf: &[u8], pos: usize, header: ChunkHeader) -> (r: Result<(MapDescriptorChunk, usize), DecodeError>)
    ensures
        view_res(r) == spec_map_descriptor(buf@, pos, header@),
{
    reveal(spec_map_descriptor);
    let (unknown_flag_1, p) = read_u32(buf, pos)?;
    let (unknown_flag_2, p) = read_u32(buf, p)?;
    let (unknown_flag_3, p) = read_u32(buf, p)?;
    let (unknown_flag_4, p) = read_u32(buf, p)?;
    let (unknown_flag_5, p) = read_u32(buf, p)?;
    let (unknown_flag_6, p) = read_u32(buf, p)?;
    let (unknown_flag_7, p) = read_u32(buf, p)?;
    let ((map_file_length, map_file), p) = read_utf8_var(buf, p)?;
    let (unknown_data_1, p) = read_block(buf, p, MAP_BLOCK_1_LEN)?;
    let ((map_name_length, map_name), p) = read_utf16_var(buf, p)?;
    let ((long_map_description_length, long_map_description), p) = read_utf16_var(buf, p)?;
    let ((short_map_description_length, short_map_description), p) = read_utf16_var(buf, p)?;
    let (map_players, p) = read_u32(buf, p)?;
    let (map_width, p) = read_u32(buf, p)?;
    let (map_height, p) = read_u32(buf, p)?;
    let (unknown_data_2, p) = read_block(buf, p, MAP_BLOCK_2_LEN)?;
    let (unknown_flag_8, p) = read_u32(buf, p)?;
    let (unknown_data_3, p) = read_block(buf, p, MAP_BLOCK_3_LEN)?;
    let (unknown_flag_9, p) = read_u32(buf, p)?;
    let ((unknown_data_4_length, unknown_data_4), p) = read_utf8_var(buf, p)?;
    Ok((MapDescriptorChunk {
        header,
        unknown_flag_1,
        unknown_flag_2,
        unknown_flag_3,
        unknown_flag_4,
        unknown_flag_5,
        unknown_flag_6,
        unknown_flag_7,
        map_file_length,
        map_file,
        unknown_data_1,
        map_name_length,
        map_name,
        long_map_description_length,
        long_map_description,
        short_map_description_length,
        short_map_description,
        map_players,
        map_width,
        map_height,
        unknown_data_2,
        unknown_flag_8,
        unknown_data_3,
        unknown_flag_9,
        unknown_data_4_length,
        unknown_data_4,
    }, p))
}

/// Match data ("DATADATA") whose body is kept as opaque bytes.
#[derive(Clone, Debug)]
pub struct SimpleMatchData {
    pub header: ChunkHeader,
    pub unknown: Vec<u8>,
}

/// Match data ("DATADATA") with its settings and player roster decoded.
#[derive(Clone, Debug)]
pub struct ComplexMatchData {
    pub header: ChunkHeader,
    pub opponent_type: u32,
    pub unknown_flag_1: u32,
    pub unknown_flag_2: u32,
    pub unknown_flag_3: u16,
    pub rng_seed: u32,
    pub player_count: u32,
    pub player_data: Vec<PlayerData>,
}

/// A match data chunk; its header's version picks the shape.
#[derive(Clone, Debug)]
pub enum MatchDataChunk {
    Simple(SimpleMatchData),
    Complex(ComplexMatchData),
}

pub ghost enum MatchDataModel {
    Simple { header: ChunkHeaderModel, unknown: Seq<u8> },
    Complex {
        header: ChunkHeaderModel,
        opponent_type: u32,
        unknown_flag_1: u32,
        unknown_flag_2: u32,
        unknown_flag_3: u16,
        rng_seed: u32,
        player_count: u32,
        player_data: Seq<PlayerModel>,
    },
}

/// The views of a sequence of players.
pub open spec fn players_view(v: Seq<PlayerData>) -> Seq<PlayerModel> {
    v.map_values(|x: PlayerData| x@)
}

impl View for MatchDataChunk {
    type V = MatchDataModel;

    open spec fn view(&self) -> MatchDataModel {
        match self {
            MatchDataChunk::Simple(m) => MatchDataModel::Simple { header: m.header@, unknown: m.unknown@ },
            MatchDataChunk::Complex(m) => MatchDataModel::Complex {
                header: m.header@,
                opponent_type: m.opponent_type,
                unknown_flag_1: m.unknown_flag_1,
                unknown_flag_2: m.unknown_flag_2,
                unknown_flag_3: m.unknown_flag_3,
                rng_seed: m.rng_seed,
                player_count: m.player_count,
                player_data: players_view(m.player_data@),
            },
        }
    }
}

/// The first `k` player records laid end to end from `p`.
pub open spec fn spec_player_run(s: Seq<u8>, p: usize, k: nat) -> Result<(Seq<PlayerModel>, usize), DecodeError>
    decreases k,
{
    if k == 0 {
        Ok((Seq::empty(), p))
    } else {
        match spec_player_run(s, p, (k - 1) as nat) {
            Err(x) => Err(x),
            Ok((players, q)) => match spec_player(s, q) {
                Err(x) => Err(x),
                Ok((pl, e)) => Ok((players.push(pl), e)),
            },
        }
    }
}

/// The body of match data after its header `h`. Version 1 keeps
/// `h.length` bytes as they are, whatever they hold; any other version has
/// four flags, the random seed, a 32-bit player count and that many players.
#[verifier::opaque]
pub open spec fn spec_match_data(s: Seq<u8>, p: usize, h: ChunkHeaderModel) -> Result<(MatchDataModel, usize), DecodeError> {
    if h.version == SIMPLE_MATCH_DATA_VERSION {
        match spec_block(s, p, h.length as usize) {
            Err(x) => Err(x),
            Ok((unknown, p)) => Ok((MatchDataModel::Simple { header: h, unknown }, p)),
        }
    } else {
        match spec_u32(s, p) { Err(x) => Err(x), Ok((opponent_type, p)) =>
        match spec_u32(s, p) { Err(x) => Err(x), Ok((unknown_flag_1, p)) =>
        match spec_u32(s, p) { Err(x) => Err(x), Ok((unknown_flag_2, p)) =>
        match spec_u16(s, p) { Err(x) => Err(x), Ok((unknown_flag_3, p)) =>
        match spec_u32(s, p) { Err(x) => Err(x), Ok((rng_seed, p)) =>
        match spec_u32(s, p) { Err(x) => Err(x), Ok((player_count, p)) =>
        match spec_player_run(s, p, player_count as nat) { Err(x) => Err(x), Ok((player_data, p)) =>
            Ok((MatchDataModel::Complex {
                header: h,
                opponent_type,
                unknown_flag_1,
                unknown_flag_2,
                unknown_flag_3,
                rng_seed,
                player_count,
                player_data,
            }, p))
        }}}}}}}
    }
}

/// Once a run of players fails, every longer run fails with the same error.
proof fn lemma_player_run_error_stays(s: Seq<u8>, p: usize, k: nat, j: nat)
    requires
        k <= j,
        spec_player_run(s, p, k) is Err,
    ensures
        spec_player_run(s, p, j) == spec_player_run(s, p, k),
    decreases j - k,
{
    if k < j {
        lemma_player_run_error_stays(s, p, k, (j - 1) as nat);
    }
}

/// Decodes `n` player records in a row.
fn decode_player_run(buf: &[u8], pos: usize, n: u32) -> (r: Result<(Vec<PlayerData>, usize), DecodeError>)
    ensures
        match r {
            Ok((v, e)) => spec_player_run(buf@, pos, n as nat) == Ok::<(Seq<PlayerModel>, usize), DecodeError>((players_view(v@), e)),
            Err(x) => spec_player_run(buf@, pos, n as nat) == Err::<(Seq<PlayerModel>, usize), DecodeError>(x),
        },
{
    let mut players: Vec<PlayerData> = Vec::new();
    let mut p = pos;
    let mut k: u32 = 0;
    assert(players_view(players@) =~= Seq::empty());
    while k < n
        invariant
            k <= n,
            spec_player_run(buf@, pos, k as nat) == Ok::<(Seq<PlayerModel>, usize), DecodeError>((players_view(players@), p)),
        decreases n - k,
    {
        let ghost before = players_view(players@);
        match decode_player(buf, p) {
            Ok((pl, e)) => {
                players.push(pl);
                p = e;
            },
            Err(x) => {
                proof {
                    lemma_player_run_error_stays(buf@, pos, (k + 1) as nat, n as nat);
                }
                return Err(x);
            },
        }
        k += 1;
        assert(players_view(players@) =~= before.push(players@.last()@));
    }
    Ok((players, p))
}

/// Decodes the body of match data whose header, already read, is `header`.
pub fn decode_match_data(buf: &[u8], pos: usize, header: ChunkHeader) -> (r: Result<(MatchDataChunk, usize), DecodeError>)
    ensures
        view_res(r) == spec_match_data(buf@, pos, header@),
{
    reveal(spec_match_data);
    if header.version == SIMPLE_MATCH_DATA_VERSION {
        let (unknown, p) = read_block(buf, pos, header.length as usize)?;
        return Ok((MatchDataChunk::Simple(SimpleMatchData { header, unknown }), p));
    }
    let (opponent_type, p) = read_u32(buf, pos)?;
    let (unknown_flag_1, p) = read_u32(buf, p)?;
    let (unknown_flag_2, p) = read_u32(buf, p)?;
    let (unknown_flag_3, p) = read_u16(buf, p)?;
    let (rng_seed, p) = read_u32(buf, p)?;
    let (player_count, p) = read_u32(buf, p)?;
    let (player_data, p) = decode_player_run(buf, p, player_count)?;
    Ok((MatchDataChunk::Complex(ComplexMatchData {
        header,
        opponent_type,
        unknown_flag_1,
        unknown_flag_2,
        unknown_flag_3,
        rng_seed,
        player_count,
        player_data,
    }), p))
}

} // verus!
