//! Item records: the entries of a player's inventory, each selected by a
//! leading 16-bit discriminant.
use vstd::prelude::*;

use crate::bytes::{read_block, read_u16, read_u32, read_u8, spec_block, spec_u16, spec_u32, spec_u8};
use crate::error::{view_res, DecodeError};

verus! {

/// Discriminant of a player-owned item.
pub const PLAYER_ITEM: u16 = 0x109;

/// Discriminant of a special (cosmetic) player item.
pub const SPECIAL_PLAYER_ITEM: u16 = 0x216;

/// Discriminant of an item held by a computer player.
pub const CPU_ITEM: u16 = 0x1;

/// Bytes of opaque data in a special player item.
pub const SPECIAL_DATA_LEN: usize = 16;

/// One inventory entry of a player.
#[derive(Clone, Debug, PartialEq, Eq)]
pub enum ItemData {
    PlayerItem {
        item_type: u16,
        selection_id: u32,
        unknown_flag_1: u32,
        server_id: u32,
        unknown_flag_2: u32,
        remaining_buffer_size: u16,
        remaining_buffer: Vec<u8>,
    },
    SpecialPlayerItem { item_type: u16, unknown_data: Vec<u8>, unknown_flag_1: u32, unknown_flag_2: u8 },
    CpuItem { item_type: u16, unknown_flag_1: u8, unknown_flag_2: u32 },
}

/// What an [`ItemData`] holds, with its byte buffers as sequences.
pub ghost enum ItemModel {
    PlayerItem {
        item_type: u16,
        selection_id: u32,
        unknown_flag_1: u32,
        server_id: u32,
        unknown_flag_2: u32,
        remaining_buffer_size: u16,
        remaining_buffer: Seq<u8>,
    },
    SpecialPlayerItem { item_type: u16, unknown_data: Seq<u8>, unknown_flag_1: u32, unknown_flag_2: u8 },
    CpuItem { item_type: u16, unknown_flag_1: u8, unknown_flag_2: u32 },
}

impl View for ItemData {
    type V = ItemModel;

    open spec fn view(&self) -> ItemModel {
        match self {
            ItemData::PlayerItem {
                item_type,
                selection_id,
                unknown_flag_1,
                server_id,
                unknown_flag_2,
                remaining_buffer_size,
                remaining_buffer,
            } => ItemModel::PlayerItem {
                item_type: *item_type,
                selection_id: *selection_id,
                unknown_flag_1: *unknown_flag_1,
                server_id: *server_id,
                unknown_flag_2: *unknown_flag_2,
                remaining_buffer_size: *remaining_buffer_size,
                remaining_buffer: remaining_buffer@,
            },
            ItemData::SpecialPlayerItem { item_type, unknown_data, unknown_flag_1, unknown_flag_2 } =>
                ItemModel::SpecialPlayerItem {
                item_type: *item_type,
                unknown_data: unknown_data@,
                unknown_flag_1: *unknown_flag_1,
                unknown_flag_2: *unknown_flag_2,
            },
            ItemData::CpuItem { item_type, unknown_flag_1, unknown_flag_2 } => ItemModel::CpuItem {
                item_type: *item_type,
                unknown_flag_1: *unknown_flag_1,
                unknown_flag_2: *unknown_flag_2,
            },
        }
    }
}

/// The views of a sequence of items.
pub open spec fn items_view(v: Seq<ItemData>) -> Seq<ItemModel> {
    v.map_values(|x: ItemData| x@)
}

/// A player item: discriminant, four 32-bit fields, then a buffer whose
/// length is given by a 16-bit prefix.
pub open spec fn spec_player_item(s: Seq<u8>, p: usize) -> Result<(ItemModel, usize), DecodeError> {
    match spec_u16(s, p) { Err(x) => Err(x), Ok((item_type, p)) =>
    match spec_u32(s, p) { Err(x) => Err(x), Ok((selection_id, p)) =>
    match spec_u32(s, p) { Err(x) => Err(x), Ok((unknown_flag_1, p)) =>
    match spec_u32(s, p) { Err(x) => Err(x), Ok((server_id, p)) =>
    match spec_u32(s, p) { Err(x) => Err(x), Ok((unknown_flag_2, p)) =>
    match spec_u16(s, p) { Err(x) => Err(x), Ok((remaining_buffer_size, p)) =>
    match spec_block(s, p, remaining_buffer_size as usize) { Err(x) => Err(x), Ok((remaining_buffer, p)) =>
        Ok((ItemModel::PlayerItem {
            item_type,
            selection_id,
            unknown_flag_1,
            server_id,
            unknown_flag_2,
            remaining_buffer_size,
            remaining_buffer,
        }, p))
    }}}}}}}
}

/// A special player item: discriminant, 16 opaque bytes, a 32-bit and an 8-bit field.
pub open spec fn spec_special_item(s: Seq<u8>, p: usize) -> Result<(ItemModel, usize), DecodeError> {
    match spec_u16(s, p) { Err(x) => Err(x), Ok((item_type, p)) =>
    match spec_block(s, p, SPECIAL_DATA_LEN) { Err(x) => Err(x), Ok((unknown_data, p)) =>
    match spec_u32(s, p) { Err(x) => Err(x), Ok((unknown_flag_1, p)) =>
    match spec_u8(s, p) { Err(x) => Err(x), Ok((unknown_flag_2, p)) =>
        Ok((ItemModel::SpecialPlayerItem { item_type, unknown_data, unknown_flag_1, unknown_flag_2 }, p))
    }}}}
}

/// A computer player's item: discriminant, an 8-bit and a 32-bit field.
pub open spec fn spec_cpu_item(s: Seq<u8>, p: usize) -> Result<(ItemModel, usize), DecodeError> {
    match spec_u16(s, p) { Err(x) => Err(x), Ok((item_type, p)) =>
    match spec_u8(s, p) { Err(x) => Err(x), Ok((unknown_flag_1, p)) =>
    match spec_u32(s, p) { Err(x) => Err(x), Ok((unknown_flag_2, p)) =>
        Ok((ItemModel::CpuItem { item_type, unknown_flag_1, unknown_flag_2 }, p))
    }}}
}

/// One item record: the leading discriminant picks the variant, and a
/// variant once picked is decoded to the end or fails.
pub open spec fn spec_item(s: Seq<u8>, p: usize) -> Result<(ItemModel, usize), DecodeError> {
    match spec_u16(s, p) {
        Err(x) => Err(x),
        Ok((d, _)) => if d == PLAYER_ITEM {
            spec_player_item(s, p)
        } else if d == SPECIAL_PLAYER_ITEM {
            spec_special_item(s, p)
        } else if d == CPU_ITEM {
            spec_cpu_item(s, p)
        } else {
            Err(DecodeError::UnknownVariant { offset: p, discriminant: d as u64 })
        },
    }
}

/// The error a list reports when its item at `at` (the `done`-th) fails
/// with `x`: in a list of fixed length an item that matches no variant ends
/// the list short.
pub open spec fn list_error(x: DecodeError, at: usize, done: nat, total: usize, fixed: bool) -> DecodeError {
    if fixed && matches!(x, DecodeError::UnknownVariant { .. }) {
        DecodeError::LengthMismatch { offset: at, expected_count: total, actual_count: done as usize }
    } else {
        x
    }
}

/// The first `k` of `total` items laid end to end from `p`.
pub open spec fn spec_item_run(s: Seq<u8>, p: usize, k: nat, total: usize, fixed: bool) -> Result<(Seq<ItemModel>, usize), DecodeError>
    decreases k,
{
    if k == 0 {
        Ok((Seq::empty(), p))
    } else {
        match spec_item_run(s, p, (k - 1) as nat, total, fixed) {
            Err(x) => Err(x),
            Ok((items, q)) => match spec_item(s, q) {
                Err(x) => Err(list_error(x, q, (k - 1) as nat, total, fixed)),
                Ok((it, e)) => Ok((items.push(it), e)),
            },
        }
    }
}

/// Exactly `n` items; one that matches no variant is a length mismatch.
pub open spec fn spec_item_fixed(s: Seq<u8>, p: usize, n: usize) -> Result<(Seq<ItemModel>, usize), DecodeError> {
    spec_item_run(s, p, n as nat, n, true)
}

/// A 32-bit count, then that many items.
pub open spec fn spec_item_counted(s: Seq<u8>, p: usize) -> Result<((u32, Seq<ItemModel>), usize), DecodeError> {
    match spec_u32(s, p) {
        Err(x) => Err(x),
        Ok((n, q)) => match spec_item_run(s, q, n as nat, n as usize, false) {
            Err(x) => Err(x),
            Ok((items, e)) => Ok(((n, items), e)),
        },
    }
}

fn decode_player_item(buf: &[u8], pos: usize) -> (r: Result<(ItemData, usize), DecodeError>)
    ensures
        view_res(r) == spec_player_item(buf@, pos),
{
    let (item_type, p) = read_u16(buf, pos)?;
    let (selection_id, p) = read_u32(buf, p)?;
    let (unknown_flag_1, p) = read_u32(buf, p)?;
    let (server_id, p) = read_u32(buf, p)?;
    let (unknown_flag_2, p) = read_u32(buf, p)?;
    let (remaining_buffer_size, p) = read_u16(buf, p)?;
    let (remaining_buffer, p) = read_block(buf, p, remaining_buffer_size as usize)?;
    Ok((ItemData::PlayerItem {
        item_type,
        selection_id,
        unknown_flag_1,
        server_id,
        unknown_flag_2,
        remaining_buffer_size,
        remaining_buffer,
    }, p))
}

fn decode_special_item(buf: &[u8], pos: usize) -> (r: Result<(ItemData, usize), DecodeError>)
    ensures
        view_res(r) == spec_special_item(buf@, pos),
{
    let (item_type, p) = read_u16(buf, pos)?;
    let (unknown_data, p) = read_block(buf, p, SPECIAL_DATA_LEN)?;
    let (unknown_flag_1, p) = read_u32(buf, p)?;
    let (unknown_flag_2, p) = read_u8(buf, p)?;
    Ok((ItemData::SpecialPlayerItem { item_type, unknown_data, unknown_flag_1, unknown_flag_2 }, p))
}

fn decode_cpu_item(buf: &[u8], pos: usize) -> (r: Result<(ItemData, usize), DecodeError>)
    ensures
        view_res(r) == spec_cpu_item(buf@, pos),
{
    let (item_type, p) = read_u16(buf, pos)?;
    let (unknown_flag_1, p) = read_u8(buf, p)?;
    let (unknown_flag_2, p) = read_u32(buf, p)?;
    Ok((ItemData::CpuItem { item_type, unknown_flag_1, unknown_flag_2 }, p))
}

/// Decodes one item record at `pos`.
pub fn decode_item(buf: &[u8], pos: usize) -> (r: Result<(ItemData, usize), DecodeError>)
    ensures
        view_res(r) == spec_item(buf@, pos),
{
    let (d, _) = read_u16(buf, pos)?;
    if d == PLAYER_ITEM {
        decode_player_item(buf, pos)
    } else if d == SPECIAL_PLAYER_ITEM {
        decode_special_item(buf, pos)
    } else if d == CPU_ITEM {
        decode_cpu_item(buf, pos)
    } else {
        Err(DecodeError::UnknownVariant { offset: pos, discriminant: d as u64 })
    }
}

/// Once a run of items fails, every longer run fails with the same error.
proof fn lemma_run_error_stays(s: Seq<u8>, p: usize, k: nat, j: nat, total: usize, fixed: bool)
    requires
        k <= j,
        spec_item_run(s, p, k, total, fixed) is Err,
    ensures
        spec_item_run(s, p, j, total, fixed) == spec_item_run(s, p, k, total, fixed),
    decreases j - k,
{
    if k < j {
        lemma_run_error_stays(s, p, k, (j - 1) as nat, total, fixed);
    }
}

/// Decodes `total` items in a row, appending them to `items`.
fn decode_item_run(buf: &[u8], pos: usize, total: usize, fixed: bool, items: &mut Vec<ItemData>) -> (r: Result<usize, DecodeError>)
    ensures
        match spec_item_run(buf@, pos, total as nat, total, fixed) {
            Ok((m, e)) => r == Ok::<usize, DecodeError>(e) && items_view(final(items)@) == items_view(old(items)@) + m,
            Err(x) => r == Err::<usize, DecodeError>(x),
        },
{
    let ghost start = items@;
    let mut p = pos;
    let mut k: usize = 0;
    assert(items_view(items@).subrange(start.len() as int, items@.len() as int) =~= Seq::empty());
    while k < total
        invariant
            k <= total,
            spec_item_run(buf@, pos, k as nat, total, fixed) == Ok::<(Seq<ItemModel>, usize), DecodeError>(
                (items_view(items@).subrange(start.len() as int, items@.len() as int), p),
            ),
            items@.len() >= start.len(),
            items@.subrange(0, start.len() as int) == start,
        decreases total - k,
    {
        let ghost before = items_view(items@).subrange(start.len() as int, items@.len() as int);
        match decode_item(buf, p) {
            Ok((it, e)) => {
                items.push(it);
                p = e;
            },
            Err(x) => {
                proof {
                    lemma_run_error_stays(buf@, pos, (k + 1) as nat, total as nat, total, fixed);
                }
                if fixed && matches!(x, DecodeError::UnknownVariant { .. }) {
                    return Err(DecodeError::LengthMismatch { offset: p, expected_count: total, actual_count: k });
                }
                return Err(x);
            },
        }
        k += 1;
        assert(items@.subrange(0, start.len() as int) =~= start);
        assert(items_view(items@).subrange(start.len() as int, items@.len() as int) =~= before.push(
            items@.last()@,
        ));
    }
    assert(items_view(items@) =~= items_view(start) + items_view(items@).subrange(start.len() as int, items@.len() as int));
    Ok(p)
}

/// Decodes exactly `n` items, appending them to `items`.
pub fn decode_item_fixed(buf: &[u8], pos: usize, n: usize, items: &mut Vec<ItemData>) -> (r: Result<usize, DecodeError>)
    ensures
        match spec_item_fixed(buf@, pos, n) {
            Ok((m, e)) => r == Ok::<usize, DecodeError>(e) && items_view(final(items)@) == items_view(old(items)@) + m,
            Err(x) => r == Err::<usize, DecodeError>(x),
        },
{
    decode_item_run(buf, pos, n, true, items)
}

/// Decodes a 32-bit count and that many items, appending them to `items`.
pub fn decode_item_counted(buf: &[u8], pos: usize, items: &mut Vec<ItemData>) -> (r: Result<(u32, usize), DecodeError>)
    ensures
        match spec_item_counted(buf@, pos) {
            Ok(((n, m), e)) => r == Ok::<(u32, usize), DecodeError>((n, e)) && items_view(final(items)@) == items_view(old(items)@) + m,
            Err(x) => r == Err::<(u32, usize), DecodeError>(x),
        },
{
    let (n, q) = read_u32(buf, pos)?;
    let e = decode_item_run(buf, q, n as usize, false, items)?;
    Ok((n, e))
}

} // verus!
