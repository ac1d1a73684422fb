//! General facts about the decoders, proved from their spec functions.
use vstd::prelude::*;

use crate::bytes::{avail, spec_block, u16_at, u32_at};
use crate::chunk::{spec_chunk, Chunk, TAG_FOLD};
use crate::chunky::{
    chunky_magic, spec_chunky, CHUNKY_MAJOR_VERSION, CHUNKY_MAJOR_VERSION_EARLIER, CHUNKY_MINOR_VERSION,
    CHUNKY_SIGNATURE,
};
use crate::data::{spec_match_data, MatchDataModel, SIMPLE_MATCH_DATA_VERSION};
use crate::error::DecodeError;
use crate::header::ChunkHeaderModel;
use crate::item::{
    spec_item, spec_item_fixed, spec_item_run, ItemModel, CPU_ITEM, PLAYER_ITEM, SPECIAL_PLAYER_ITEM,
};
use crate::player::{first_items_at, spec_player, spec_player_head, spec_player_tail, PlayerHead, FIXED_ITEMS};

verus! {

/// The 24 bytes of a well-formed container preamble with major version
/// `major`: the magic tag, the signature, the major and the minor version.
pub open spec fn preamble_bytes(major: u8) -> Seq<u8> {
    chunky_magic() + seq![0x0Du8, 0x0A, 0x1A, 0x00] + seq![major, 0, 0, 0] + seq![1u8, 0, 0, 0]
}

/// A preamble built from the format's constants, with either accepted major
/// version, decodes without error.
pub proof fn lemma_preamble_accepted(s: Seq<u8>, p: usize, major: u8)
    requires
        major == CHUNKY_MAJOR_VERSION || major == CHUNKY_MAJOR_VERSION_EARLIER,
        s.len() <= usize::MAX,
        p + 24 <= s.len(),
        s.subrange(p as int, p + 24) == preamble_bytes(major),
    ensures
        spec_chunky(s, p) is Ok,
{
    preamble_fields(s, p, major);
}

/// The fields that a well-formed preamble holds.
proof fn preamble_fields(s: Seq<u8>, p: usize, major: u8)
    requires
        p + 24 <= s.len(),
        s.subrange(p as int, p + 24) == preamble_bytes(major),
    ensures
        s.subrange(p as int, p + 12) == chunky_magic(),
        u32_at(s, p + 12) == CHUNKY_SIGNATURE,
        u32_at(s, p + 16) == major,
        u32_at(s, p + 20) == CHUNKY_MINOR_VERSION,
{
    let b = preamble_bytes(major);
    assert(b =~= seq![0x52u8, 0x65, 0x6c, 0x69, 0x63, 0x20, 0x43, 0x68, 0x75, 0x6e, 0x6b, 0x79,
        0x0D, 0x0A, 0x1A, 0x00, major, 0, 0, 0, 1, 0, 0, 0]);
    assert forall|k: int| 0 <= k < 24 implies s[p + k] == b[k] by {
        assert(s.subrange(p as int, p + 24)[k] == s[p + k]);
    }
    assert(s.subrange(p as int, p + 12) =~= chunky_magic());
}

/// Changing any one byte of the signature or of the minor version of such
/// a preamble, or changing a byte of the major version to a value outside
/// the accepted ones, makes decoding fail with a constraint violation.
pub proof fn lemma_preamble_byte_changed(s: Seq<u8>, p: usize, major: u8, i: int, b: u8)
    requires
        major == CHUNKY_MAJOR_VERSION || major == CHUNKY_MAJOR_VERSION_EARLIER,
        s.len() <= usize::MAX,
        p + 24 <= s.len(),
        s.subrange(p as int, p + 24) == preamble_bytes(major),
        12 <= i < 24,
        b != s[p + i],
        16 <= i < 20 ==> {
            let t = s.update(p + i, b);
            u32_at(t, p + 16) != CHUNKY_MAJOR_VERSION && u32_at(t, p + 16) != CHUNKY_MAJOR_VERSION_EARLIER
        },
    ensures
        spec_chunky(s.update(p + i, b), p) matches Err(DecodeError::ConstraintViolation { .. }),
{
    let t = s.update(p + i, b);
    preamble_fields(s, p, major);
    assert(t.subrange(p as int, p + 12) =~= s.subrange(p as int, p + 12));
    if i < 16 {
        assert(u32_at(t, p + 12) != CHUNKY_SIGNATURE);
    } else if i >= 20 {
        assert(u32_at(t, p + 16) == major);
        assert(u32_at(t, p + 20) != CHUNKY_MINOR_VERSION);
    }
}

/// Decoding the same bytes at the same position twice gives the same
/// folder tree and the same end.
pub proof fn lemma_folder_decode_repeatable(s: Seq<u8>, p: usize, a: Chunk, ea: usize, b: Chunk, eb: usize)
    requires
        avail(s, p, 4),
        u32_at(s, p as int) == TAG_FOLD,
        spec_chunk(s, p) == Ok::<(crate::chunk::ChunkModel, usize), DecodeError>((a@, ea)),
        spec_chunk(s, p) == Ok::<(crate::chunk::ChunkModel, usize), DecodeError>((b@, eb)),
    ensures
        a@ == b@,
        ea == eb,
{
}

/// A player's items start with the first fixed-length list, in the order
/// read: the flattened list begins with the three items decoded where that
/// list starts, the first of them at index 0.
pub proof fn lemma_player_items_in_order(s: Seq<u8>, p: usize)
    requires
        spec_player(s, p) is Ok,
    ensures
        ({
            let m = spec_player(s, p)->Ok_0.0;
            let q = first_items_at(s, p);
            &&& spec_item_fixed(s, q, FIXED_ITEMS) is Ok
            &&& m.item_data.len() >= FIXED_ITEMS
            &&& m.item_data.subrange(0, FIXED_ITEMS as int) == spec_item_fixed(s, q, FIXED_ITEMS)->Ok_0.0
            &&& spec_item(s, q) is Ok
            &&& m.item_data[0] == spec_item(s, q)->Ok_0.0
        }),
{
    let (h, q) = spec_player_head(s, p)->Ok_0;
    assert(spec_player(s, p) == spec_player_tail(s, q, h));
    lemma_tail_starts_with_first_list(s, q, h);
    lemma_run_starts_with_first(s, q, 3, FIXED_ITEMS, true);
}

/// The items of a player record's tail start with its first fixed list.
#[verifier::rlimit(40)]
proof fn lemma_tail_starts_with_first_list(s: Seq<u8>, q: usize, h: PlayerHead)
    requires
        spec_player_tail(s, q, h) is Ok,
    ensures
        spec_item_fixed(s, q, FIXED_ITEMS) is Ok,
        spec_player_tail(s, q, h)->Ok_0.0.item_data.len() >= FIXED_ITEMS,
        spec_player_tail(s, q, h)->Ok_0.0.item_data.subrange(0, FIXED_ITEMS as int) == spec_item_fixed(
            s,
            q,
            FIXED_ITEMS,
        )->Ok_0.0,
{
    reveal(spec_player_tail);
    let first = spec_item_fixed(s, q, FIXED_ITEMS)->Ok_0.0;
    lemma_run_starts_with_first(s, q, 3, FIXED_ITEMS, true);
    let items = spec_player_tail(s, q, h)->Ok_0.0.item_data;
    assert(items.subrange(0, FIXED_ITEMS as int) =~= first);
}

/// A run of items that decodes begins with the item decoded where it starts.
proof fn lemma_run_starts_with_first(s: Seq<u8>, q: usize, k: nat, total: usize, fixed: bool)
    requires
        k >= 1,
        spec_item_run(s, q, k, total, fixed) is Ok,
    ensures
        spec_item(s, q) is Ok,
        spec_item_run(s, q, k, total, fixed)->Ok_0.0.len() == k,
        spec_item_run(s, q, k, total, fixed)->Ok_0.0[0] == spec_item(s, q)->Ok_0.0,
    decreases k,
{
    if k == 1 {
        assert(spec_item_run(s, q, 0, total, fixed) == Ok::<(Seq<ItemModel>, usize), DecodeError>((Seq::empty(), q)));
    } else {
        lemma_run_starts_with_first(s, q, (k - 1) as nat, total, fixed);
    }
}

/// An item decodes to the variant its leading discriminant names, and to
/// no other: 0x109 only as a player item, 0x216 only as a special player
/// item, 0x1 only as a computer player's item.
pub proof fn lemma_item_variant_follows_discriminant(s: Seq<u8>, p: usize)
    requires
        spec_item(s, p) is Ok,
    ensures
        ({
            let m = spec_item(s, p)->Ok_0.0;
            let d = u16_at(s, p as int);
            &&& avail(s, p, 2)
            &&& (m is PlayerItem <==> d == PLAYER_ITEM)
            &&& (m is SpecialPlayerItem <==> d == SPECIAL_PLAYER_ITEM)
            &&& (m is CpuItem <==> d == CPU_ITEM)
        }),
{
}

/// Match data of version 1 is kept whole as `length` opaque bytes, whatever
/// they hold, whenever that many bytes are there.
pub proof fn lemma_simple_match_data(s: Seq<u8>, q: usize, h: ChunkHeaderModel)
    requires
        h.version == SIMPLE_MATCH_DATA_VERSION,
        avail(s, q, h.length as int),
    ensures
        spec_match_data(s, q, h) == Ok::<(MatchDataModel, usize), DecodeError>(
            (MatchDataModel::Simple { header: h, unknown: s.subrange(q as int, q + h.length) }, (q + h.length) as usize),
        ),
{
    reveal(spec_match_data);
}

/// Match data of any other version is only ever read as the complex shape.
pub proof fn lemma_other_match_data_complex(s: Seq<u8>, q: usize, h: ChunkHeaderModel)
    requires
        h.version != SIMPLE_MATCH_DATA_VERSION,
        spec_match_data(s, q, h) is Ok,
    ensures
        spec_match_data(s, q, h)->Ok_0.0 is Complex,
{
    reveal(spec_match_data);
}

} // verus!
