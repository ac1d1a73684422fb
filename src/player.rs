//! Player records: one entry of a match's roster, with the player's items.
use vstd::prelude::*;

use crate::bytes::{
    read_u16, read_u32, read_u64, read_u8, read_utf16_var, read_utf8_var, spec_u16, spec_u32, spec_u64, spec_u8,
    spec_utf16_var, spec_utf8_var,
};
use crate::error::{view_res, DecodeError};
use crate::item::{
    decode_item_counted, decode_item_fixed, items_view, spec_item_counted, spec_item_fixed, ItemData, ItemModel,
};

verus! {

/// Entries in each of the two fixed-length item lists of a player record.
pub const FIXED_ITEMS: usize = 3;

/// One player of a match.
#[derive(Clone, Debug)]
pub struct PlayerData {
    /// 1 for a human player, 0 for a computer player, as far as is known.
    pub unknown_flag_1: u8,
    pub name_length: u32,
    pub name: String,
    pub team: u32,
    pub faction_length: u32,
    pub faction: String,
    pub unknown_flag_2: u32,
    pub unknown_flag_3: u32,
    pub game_mode_length: u32,
    pub game_mode: String,
    pub unknown_flag_4: u32,
    pub unknown_flag_5: u32,
    pub unknown_flag_6: u32,
    pub unknown_flag_7: u32,
    pub unknown_flag_8: u16,
    pub unknown_flag_9: u16,
    pub unknown_flag_10: u64,
    pub steam_id: u64,
    pub item_block_1_size: u32,
    pub item_block_2_size: u32,
    pub unknown_flag_11: u32,
    pub unknown_flag_12: u32,
    pub unknown_flag_13: u32,
    /// The two fixed lists, then the two counted lists, in the order met.
    pub item_data: Vec<ItemData>,
}

/// What a [`PlayerData`] holds, with its text and items as sequences.
pub ghost struct PlayerModel {
    pub unknown_flag_1: u8,
    pub name_length: u32,
    pub name: Seq<char>,
    pub team: u32,
    pub faction_length: u32,
    pub faction: Seq<char>,
    pub unknown_flag_2: u32,
    pub unknown_flag_3: u32,
    pub game_mode_length: u32,
    pub game_mode: Seq<char>,
    pub unknown_flag_4: u32,
    pub unknown_flag_5: u32,
    pub unknown_flag_6: u32,
    pub unknown_flag_7: u32,
    pub unknown_flag_8: u16,
    pub unknown_flag_9: u16,
    pub unknown_flag_10: u64,
    pub steam_id: u64,
    pub item_block_1_size: u32,
    pub item_block_2_size: u32,
    pub unknown_flag_11: u32,
    pub unknown_flag_12: u32,
    pub unknown_flag_13: u32,
    pub item_data: Seq<ItemModel>,
}

impl View for PlayerData {
    type V = PlayerModel;

    open spec fn view(&self) -> PlayerModel {
        PlayerModel {
            unknown_flag_1: self.unknown_flag_1,
            name_length: self.name_length,
            name: self.name@,
            team: self.team,
            faction_length: self.faction_length,
            faction: self.faction@,
            unknown_flag_2: self.unknown_flag_2,
            unknown_flag_3: self.unknown_flag_3,
            game_mode_length: self.game_mode_length,
            game_mode: self.game_mode@,
            unknown_flag_4: self.unknown_flag_4,
            unknown_flag_5: self.unknown_flag_5,
            unknown_flag_6: self.unknown_flag_6,
            unknown_flag_7: self.unknown_flag_7,
            unknown_flag_8: self.unknown_flag_8,
            unknown_flag_9: self.unknown_flag_9,
            unknown_flag_10: self.unknown_flag_10,
            steam_id: self.steam_id,
            item_block_1_size: self.item_block_1_size,
            item_block_2_size: self.item_block_2_size,
            unknown_flag_11: self.unknown_flag_11,
            unknown_flag_12: self.unknown_flag_12,
            unknown_flag_13: self.unknown_flag_13,
            item_data: items_view(self.item_data@),
        }
    }
}

/// The fields of a player record that come before its first item list.
pub ghost struct PlayerHead {
    pub unknown_flag_1: u8,
    pub name: (u32, Seq<char>),
    pub team: u32,
    pub faction: (u32, Seq<char>),
    pub unknown_flag_2: u32,
    pub unknown_flag_3: u32,
    pub game_mode: (u32, Seq<char>),
    pub unknown_flag_4: u32,
    pub unknown_flag_5: u32,
    pub unknown_flag_6: u32,
    pub unknown_flag_7: u32,
    pub unknown_flag_8: u16,
}

/// The leading fields: a flag, the UTF-16 name, the team, the UTF-8
/// faction, two flags, the UTF-8 game mode and five more flags.
#[verifier::opaque]
pub open spec fn spec_player_head(s: Seq<u8>, p: usize) -> Result<(PlayerHead, usize), DecodeError> {
    match spec_u8(s, p) { Err(x) => Err(x), Ok((unknown_flag_1, p)) =>
    match spec_utf16_var(s, p) { Err(x) => Err(x), Ok((name, p)) =>
    match spec_u32(s, p) { Err(x) => Err(x), Ok((team, p)) =>
    match spec_utf8_var(s, p) { Err(x) => Err(x), Ok((faction, p)) =>
    match spec_u32(s, p) { Err(x) => Err(x), Ok((unknown_flag_2, p)) =>
    match spec_u32(s, p) { Err(x) => Err(x), Ok((unknown_flag_3, p)) =>
    match spec_utf8_var(s, p) { Err(x) => Err(x), Ok((game_mode, p)) =>
    match spec_u32(s, p) { Err(x) => Err(x), Ok((unknown_flag_4, p)) =>
    match spec_u32(s, p) { Err(x) => Err(x), Ok((unknown_flag_5, p)) =>
    match spec_u32(s, p) { Err(x) => Err(x), Ok((unknown_flag_6, p)) =>
    match spec_u32(s, p) { Err(x) => Err(x), Ok((unknown_flag_7, p)) =>
    match spec_u16(s, p) { Err(x) => Err(x), Ok((unknown_flag_8, p)) =>
        Ok((PlayerHead {
            unknown_flag_1,
            name,
            team,
            faction,
            unknown_flag_2,
            unknown_flag_3,
            game_mode,
            unknown_flag_4,
            unknown_flag_5,
            unknown_flag_6,
            unknown_flag_7,
            unknown_flag_8,
        }, p))
    }}}}}}}}}}}}
}

/// Where the first item list of the record at `p` starts.
pub open spec fn first_items_at(s: Seq<u8>, p: usize) -> usize {
    match spec_player_head(s, p) {
        Ok((_, q)) => q,
        Err(_) => p,
    }
}

/// The rest of a player record after its head `h`, which ended at `p`: the
/// first fixed item list, a flag, two 64-bit fields (the second the Steam
/// id), the second fixed list, two counted lists and three flags.
#[verifier::opaque]
pub open spec fn spec_player_tail(s: Seq<u8>, p: usize, h: PlayerHead) -> Result<(PlayerModel, usize), DecodeError> {
    match spec_item_fixed(s, p, FIXED_ITEMS) { Err(x) => Err(x), Ok((first, p)) =>
    match spec_u16(s, p) { Err(x) => Err(x), Ok((unknown_flag_9, p)) =>
    match spec_u64(s, p) { Err(x) => Err(x), Ok((unknown_flag_10, p)) =>
    match spec_u64(s, p) { Err(x) => Err(x), Ok((steam_id, p)) =>
    match spec_item_fixed(s, p, FIXED_ITEMS) { Err(x) => Err(x), Ok((second, p)) =>
    match spec_item_counted(s, p) { Err(x) => Err(x), Ok(((item_block_1_size, block_1), p)) =>
    match spec_item_counted(s, p) { Err(x) => Err(x), Ok(((item_block_2_size, block_2), p)) =>
    match spec_u32(s, p) { Err(x) => Err(x), Ok((unknown_flag_11, p)) =>
    match spec_u32(s, p) { Err(x) => Err(x), Ok((unknown_flag_12, p)) =>
    match spec_u32(s, p) { Err(x) => Err(x), Ok((unknown_flag_13, p)) =>
        Ok((PlayerModel {
            unknown_flag_1: h.unknown_flag_1,
            name_length: h.name.0,
            name: h.name.1,
            team: h.team,
            faction_length: h.faction.0,
            faction: h.faction.1,
            unknown_flag_2: h.unknown_flag_2,
            unknown_flag_3: h.unknown_flag_3,
            game_mode_length: h.game_mode.0,
            game_mode: h.game_mode.1,
            unknown_flag_4: h.unknown_flag_4,
            unknown_flag_5: h.unknown_flag_5,
            unknown_flag_6: h.unknown_flag_6,
            unknown_flag_7: h.unknown_flag_7,
            unknown_flag_8: h.unknown_flag_8,
            unknown_flag_9,
            unknown_flag_10,
            steam_id,
            item_block_1_size,
            item_block_2_size,
            unknown_flag_11,
            unknown_flag_12,
            unknown_flag_13,
            item_data: first + second + block_1 + block_2,
        }, p))
    }}}}}}}}}}
}

/// One player record.
pub open spec fn spec_player(s: Seq<u8>, p: usize) -> Result<(PlayerModel, usize), DecodeError> {
    match spec_player_head(s, p) {
        Err(x) => Err(x),
        Ok((h, q)) => spec_player_tail(s, q, h),
    }
}

/// Decodes one player record at `pos`.
pub fn decode_player(buf: &[u8], pos: usize) -> (r: Result<(PlayerData, usize), DecodeError>)
    ensures
        view_res(r) == spec_player(buf@, pos),
{
    reveal(spec_player_head);
    reveal(spec_player_tail);
    let (unknown_flag_1, p) = read_u8(buf, pos)?;
    let ((name_length, name), p) = read_utf16_var(buf, p)?;
    let (team, p) = read_u32(buf, p)?;
    let ((faction_length, faction), p) = read_utf8_var(buf, p)?;
    let (unknown_flag_2, p) = read_u32(buf, p)?;
    let (unknown_flag_3, p) = read_u32(buf, p)?;
    let ((game_mode_length, game_mode), p) = read_utf8_var(buf, p)?;
    let (unknown_flag_4, p) = read_u32(buf, p)?;
    let (unknown_flag_5, p) = read_u32(buf, p)?;
    let (unknown_flag_6, p) = read_u32(buf, p)?;
    let (unknown_flag_7, p) = read_u32(buf, p)?;
    let (unknown_flag_8, p) = read_u16(buf, p)?;
    let mut item_data: Vec<ItemData> = Vec::new();
    let ghost v0 = items_view(item_data@);
    let p = decode_item_fixed(buf, p, FIXED_ITEMS, &mut item_data)?;
    let ghost v1 = items_view(item_data@);
    let (unknown_flag_9, p) = read_u16(buf, p)?;
    let (unknown_flag_10, p) = read_u64(buf, p)?;
    let (steam_id, p) = read_u64(buf, p)?;
    let p = decode_item_fixed(buf, p, FIXED_ITEMS, &mut item_data)?;
    let (item_block_1_size, p) = decode_item_counted(buf, p, &mut item_data)?;
    let (item_block_2_size, p) = decode_item_counted(buf, p, &mut item_data)?;
    let (unknown_flag_11, p) = read_u32(buf, p)?;
    let (unknown_flag_12, p) = read_u32(buf, p)?;
    let (unknown_flag_13, p) = read_u32(buf, p)?;
    assert(v0 =~= Seq::<ItemModel>::empty());
    assert(v1 =~= Seq::<ItemModel>::empty() + v1);
    Ok((PlayerData {
        unknown_flag_1,
        name_length,
        name,
        team,
        faction_length,
        faction,
        unknown_flag_2,
        unknown_flag_3,
        game_mode_length,
        game_mode,
        unknown_flag_4,
        unknown_flag_5,
        unknown_flag_6,
        unknown_flag_7,
        unknown_flag_8,
        unknown_flag_9,
        unknown_flag_10,
        steam_id,
        item_block_1_size,
        item_block_2_size,
        unknown_flag_11,
        unknown_flag_12,
        unknown_flag_13,
        item_data,
    }, p))
}

} // verus!
