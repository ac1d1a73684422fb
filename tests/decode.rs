use vault::bytes::{read_u32, read_u64, read_utf16_terminated, read_utf16_var, read_utf8_var, skip_zeroes};
use vault::chunk::{decode_chunk, Chunk};
use vault::chunky::{decode_relic_chunky, decode_replay_header, parse_replay, Chunky};
use vault::command::{from_data, UseBattlegroupAbilityData};
use vault::data::{decode_match_data, MatchDataChunk};
use vault::header::{decode_chunk_header, ChunkHeader};
use vault::item::{decode_item, decode_item_counted, decode_item_fixed, ItemData};
use vault::player::decode_player;
use vault::DecodeError;

fn u16le(v: u16) -> Vec<u8> {
    v.to_le_bytes().to_vec()
}

fn u32le(v: u32) -> Vec<u8> {
    v.to_le_bytes().to_vec()
}

fn utf8_var(s: &str) -> Vec<u8> {
    let mut b = u32le(s.len() as u32);
    b.extend_from_slice(s.as_bytes());
    b
}

fn utf16_var(s: &str) -> Vec<u8> {
    let units: Vec<u16> = s.encode_utf16().collect();
    let mut b = u32le(units.len() as u32);
    for u in units {
        b.extend(u16le(u));
    }
    b
}

fn chunk_header(kind: &[u8], ty: &[u8], version: u32, length: u32) -> Vec<u8> {
    let mut b = Vec::new();
    b.extend_from_slice(kind);
    b.extend_from_slice(ty);
    b.extend(u32le(version));
    b.extend(u32le(length));
    b.extend(u32le(0));
    b.extend(u32le(0));
    b.extend(u32le(0));
    b
}

fn preamble(major: u32) -> Vec<u8> {
    let mut b = b"Relic Chunky".to_vec();
    b.extend(u32le(0x1A0A0D));
    b.extend(u32le(major));
    b.extend(u32le(1));
    b
}

fn replay_header() -> Vec<u8> {
    let mut b = u16le(0);
    b.extend(u16le(20297));
    b.extend_from_slice(b"COH2_REC");
    for u in "11/7/2015 1:16 AM".encode_utf16() {
        b.extend(u16le(u));
    }
    b.extend(u16le(0));
    b.extend(vec![0u8; 28]);
    b
}

fn cpu_item(flag_1: u8, flag_2: u32) -> Vec<u8> {
    let mut b = u16le(0x1);
    b.push(flag_1);
    b.extend(u32le(flag_2));
    b
}

fn player_item(selection_id: u32, server_id: u32, rest: &[u8]) -> Vec<u8> {
    let mut b = u16le(0x109);
    b.extend(u32le(selection_id));
    b.extend(u32le(0));
    b.extend(u32le(server_id));
    b.extend(u32le(0));
    b.extend(u16le(rest.len() as u16));
    b.extend_from_slice(rest);
    b
}

fn special_item(flag_1: u32, flag_2: u8) -> Vec<u8> {
    let mut b = u16le(0x216);
    b.extend((0u8..16).collect::<Vec<u8>>());
    b.extend(u32le(flag_1));
    b.push(flag_2);
    b
}

fn player_record() -> Vec<u8> {
    let mut b = vec![1u8];
    b.extend(utf16_var("Ryan"));
    b.extend(u32le(1));
    b.extend(utf8_var("americans"));
    b.extend(u32le(5));
    b.extend(u32le(0));
    b.extend(utf8_var("default"));
    b.extend(u32le(2));
    b.extend(u32le(3));
    b.extend(u32le(0));
    b.extend(u32le(5));
    b.extend(u16le(1));
    b.extend(player_item(11, 12, &[9, 9]));
    b.extend(special_item(13, 0x40));
    b.extend(cpu_item(1, 14));
    b.extend(u16le(1));
    b.extend(u64::MAX.to_le_bytes());
    b.extend(76561198000000000u64.to_le_bytes());
    b.extend(cpu_item(1, 21));
    b.extend(cpu_item(1, 22));
    b.extend(cpu_item(1, 23));
    b.extend(u32le(1));
    b.extend(cpu_item(1, 31));
    b.extend(u32le(2));
    b.extend(cpu_item(1, 41));
    b.extend(player_item(42, 43, &[]));
    b.extend(u32le(0));
    b.extend(u32le(7));
    b.extend(u32le(8));
    b
}

fn item_flag(i: &ItemData) -> u32 {
    match i {
        ItemData::PlayerItem { selection_id, .. } => *selection_id,
        ItemData::SpecialPlayerItem { unknown_flag_1, .. } => *unknown_flag_1,
        ItemData::CpuItem { unknown_flag_2, .. } => *unknown_flag_2,
    }
}

#[test]
fn cpu_item_decodes_exactly_seven_bytes() {
    let mut buf = vec![0x01, 0x00, 0x01, 0x00, 0x00, 0x00, 0x00];
    buf.extend_from_slice(&[0xAA, 0xBB]);
    let (item, end) = decode_item(&buf, 0).unwrap();
    assert_eq!(item, ItemData::CpuItem { item_type: 1, unknown_flag_1: 1, unknown_flag_2: 0 });
    assert_eq!(end, 7);
}

#[test]
fn player_item_keeps_its_trailing_buffer() {
    let buf = player_item(100, 200, &[1, 2, 3]);
    let (item, end) = decode_item(&buf, 0).unwrap();
    assert_eq!(
        item,
        ItemData::PlayerItem {
            item_type: 0x109,
            selection_id: 100,
            unknown_flag_1: 0,
            server_id: 200,
            unknown_flag_2: 0,
            remaining_buffer_size: 3,
            remaining_buffer: vec![1, 2, 3],
        }
    );
    assert_eq!(end, buf.len());
}

#[test]
fn discriminant_0x109_is_never_another_variant() {
    // Bytes after the discriminant that would also read as a special item.
    let mut buf = u16le(0x109);
    buf.extend(vec![0u8; 16]);
    buf.extend(u16le(0));
    let (item, _) = decode_item(&buf, 0).unwrap();
    assert!(matches!(item, ItemData::PlayerItem { .. }));
    let (special, end) = decode_item(&special_item(5, 0x40), 0).unwrap();
    assert!(matches!(special, ItemData::SpecialPlayerItem { unknown_flag_1: 5, unknown_flag_2: 0x40, .. }));
    assert_eq!(end, 23);
}

#[test]
fn truncated_player_item_fails_instead_of_trying_other_variants() {
    let buf = player_item(1, 2, &[7, 7, 7]);
    let cut = &buf[..buf.len() - 1];
    assert_eq!(decode_item(cut, 0), Err(DecodeError::UnexpectedEof { offset: 20, needed: 3 }));
}

#[test]
fn unknown_discriminant_is_reported() {
    let buf = [0x05, 0x00, 0x00];
    assert_eq!(decode_item(&buf, 0), Err(DecodeError::UnknownVariant { offset: 0, discriminant: 5 }));
}

#[test]
fn fixed_list_cut_short_is_a_length_mismatch() {
    let mut buf = cpu_item(1, 1);
    buf.extend(cpu_item(1, 2));
    buf.extend(u16le(0x77));
    let mut items = Vec::new();
    assert_eq!(
        decode_item_fixed(&buf, 0, 3, &mut items),
        Err(DecodeError::LengthMismatch { offset: 14, expected_count: 3, actual_count: 2 })
    );
}

#[test]
fn counted_list_reads_its_count() {
    let mut buf = u32le(2);
    buf.extend(cpu_item(1, 1));
    buf.extend(cpu_item(0, 2));
    let mut items = vec![ItemData::CpuItem { item_type: 1, unknown_flag_1: 9, unknown_flag_2: 9 }];
    let (n, end) = decode_item_counted(&buf, 0, &mut items).unwrap();
    assert_eq!(n, 2);
    assert_eq!(end, buf.len());
    assert_eq!(items.len(), 3);
    assert_eq!(item_flag(&items[1]), 1);
    assert_eq!(item_flag(&items[2]), 2);
}

#[test]
fn player_items_keep_encounter_order() {
    let buf = player_record();
    let (player, end) = decode_player(&buf, 0).unwrap();
    assert_eq!(end, buf.len());
    assert_eq!(player.name, "Ryan");
    assert_eq!(player.name_length, 4);
    assert_eq!(player.faction, "americans");
    assert_eq!(player.game_mode, "default");
    assert_eq!(player.team, 1);
    assert_eq!(player.unknown_flag_10, u64::MAX);
    assert_eq!(player.steam_id, 76561198000000000);
    assert_eq!(player.item_block_1_size, 1);
    assert_eq!(player.item_block_2_size, 2);
    assert_eq!(player.unknown_flag_12, 7);
    assert_eq!(player.unknown_flag_13, 8);
    let flags: Vec<u32> = player.item_data.iter().map(item_flag).collect();
    assert_eq!(flags, vec![11, 13, 14, 21, 22, 23, 31, 41, 42]);
    assert!(matches!(player.item_data[0], ItemData::PlayerItem { selection_id: 11, .. }));
}

#[test]
fn utf8_text_is_decoded() {
    let buf = utf8_var("abc");
    let ((n, text), end) = read_utf8_var(&buf, 0).unwrap();
    assert_eq!((n, text.as_str(), end), (3, "abc", 7));
}

#[test]
fn malformed_utf8_is_replaced() {
    let mut buf = u32le(2);
    buf.extend_from_slice(&[0x61, 0xFF]);
    let ((_, text), _) = read_utf8_var(&buf, 0).unwrap();
    assert_eq!(text, "a\u{FFFD}");
}

#[test]
fn utf16_text_is_decoded() {
    let buf = utf16_var("héllo");
    let ((n, text), end) = read_utf16_var(&buf, 0).unwrap();
    assert_eq!((n, text.as_str(), end), (5, "héllo", 14));
}

#[test]
fn truncated_utf16_string_is_unexpected_eof() {
    let mut buf = u32le(3);
    buf.extend(u16le(0x61));
    buf.push(0x62);
    assert_eq!(read_utf16_var(&buf, 0), Err(DecodeError::UnexpectedEof { offset: 4, needed: 6 }));
}

#[test]
fn terminated_utf16_and_zero_padding() {
    let mut buf = Vec::new();
    for u in "1:16 AM".encode_utf16() {
        buf.extend(u16le(u));
    }
    buf.extend(u16le(0));
    buf.extend([0, 0, 0, 7]);
    let (text, end) = read_utf16_terminated(&buf, 0).unwrap();
    assert_eq!(text, "1:16 AM");
    assert_eq!(end, 16);
    assert_eq!(skip_zeroes(&buf, end), 19);
    assert_eq!(read_utf16_terminated(&buf[..5], 0), Err(DecodeError::UnexpectedEof { offset: 4, needed: 2 }));
}

#[test]
fn integers_are_little_endian() {
    let buf = [0x0D, 0x0A, 0x1A, 0x00, 1, 2, 3, 4, 5, 6, 7, 8];
    assert_eq!(read_u32(&buf, 0), Ok((0x1A0A0D, 4)));
    assert_eq!(read_u64(&buf, 4), Ok((0x0807060504030201, 12)));
    assert_eq!(read_u32(&buf, 10), Err(DecodeError::UnexpectedEof { offset: 10, needed: 4 }));
}

#[test]
fn chunk_header_fields() {
    let buf = chunk_header(b"DATA", b"SDSC", 3, 99);
    let (h, end) = decode_chunk_header(&buf, 0).unwrap();
    assert_eq!(h.chunk_kind, "DATA");
    assert_eq!(h.chunk_type, "SDSC");
    assert_eq!((h.version, h.length, end), (3, 99, 28));
}

#[test]
fn preamble_constants_are_accepted() {
    for major in [3, 4] {
        let buf = preamble(major);
        let (c, end) = Chunky::parse(&buf, 0).unwrap();
        assert_eq!(c.name, "Relic Chunky");
        assert_eq!((c.signature, c.major_version, c.minor_version, end), (0x1A0A0D, major, 1, 24));
    }
}

#[test]
fn changed_preamble_byte_is_a_constraint_violation() {
    for i in 12..24 {
        if (16..20).contains(&i) {
            continue;
        }
        let mut buf = preamble(4);
        buf[i] ^= 0x40;
        let r = Chunky::parse(&buf, 0);
        assert!(matches!(r, Err(DecodeError::ConstraintViolation { .. })), "byte {}", i);
    }
    let mut buf = preamble(4);
    buf[16] = 5;
    assert_eq!(
        Chunky::parse(&buf, 0).map(|_| ()),
        Err(DecodeError::ConstraintViolation { offset: 16, expected: 4, actual: 5 })
    );
    let mut buf = preamble(4);
    buf[0] = b'r';
    assert_eq!(Chunky::parse(&buf, 0).map(|_| ()), Err(DecodeError::TagMismatch { offset: 0, len: 12 }));
}

#[test]
fn minimal_replay_has_one_empty_folder() {
    let mut buf = replay_header();
    let start = buf.len();
    buf.extend(preamble(3));
    buf.extend(u32le(0x24));
    buf.extend(u32le(0x1C));
    buf.extend(u32le(1));
    buf.extend(chunk_header(b"FOLD", b"DATA", 1, 0));
    let replay = parse_replay(&buf).unwrap();
    assert_eq!(replay.header.version, 20297);
    assert_eq!(replay.header.game_type, "COH2_REC");
    assert_eq!(replay.header.timestamp, "11/7/2015 1:16 AM");
    assert_eq!(replay.chunky.preamble.major_version, 3);
    assert_eq!(replay.chunky.chunks.len(), 1);
    match &replay.chunky.chunks[0] {
        Chunk::Folder(f) => assert!(f.chunks.is_empty()),
        other => panic!("expected a folder, got {:?}", other),
    }
    let (_, header_end) = decode_replay_header(&buf, 0).unwrap();
    assert_eq!(header_end, start);
    let (_, end) = decode_relic_chunky(&buf, start).unwrap();
    assert_eq!(end, buf.len());
}

#[test]
fn replay_header_checks_game_type() {
    let mut buf = replay_header();
    buf[4] = b'X';
    assert_eq!(decode_replay_header(&buf, 0).map(|_| ()), Err(DecodeError::TagMismatch { offset: 4, len: 8 }));
    let mut buf = replay_header();
    buf[0] = 1;
    assert_eq!(
        decode_replay_header(&buf, 0).map(|_| ()),
        Err(DecodeError::ConstraintViolation { offset: 0, expected: 0, actual: 1 })
    );
}

fn nested_folder() -> Vec<u8> {
    let mut buf = chunk_header(b"FOLD", b"INFO", 1, 0);
    buf.extend(chunk_header(b"FOLD", b"GAME", 1, 0));
    let mut data = chunk_header(b"DATA", b"DATA", 1, 3);
    data.extend([7, 8, 9]);
    buf.extend(data);
    buf
}

#[test]
fn folder_decodes_the_same_twice() {
    let mut buf = nested_folder();
    buf.extend_from_slice(b"JUNK");
    let (a, ea) = decode_chunk(&buf, 0).unwrap();
    let (b, eb) = decode_chunk(&buf, 0).unwrap();
    assert_eq!(format!("{:?}", a), format!("{:?}", b));
    assert_eq!(ea, eb);
    assert_eq!(ea, buf.len() - 4);
    match a {
        Chunk::Folder(f) => {
            assert_eq!(f.header.chunk_type, "INFO");
            assert_eq!(f.chunks.len(), 1);
            match &f.chunks[0] {
                Chunk::Folder(g) => {
                    assert_eq!(g.chunks.len(), 1);
                    assert!(matches!(&g.chunks[0], Chunk::MatchData(MatchDataChunk::Simple(s)) if s.unknown == vec![7, 8, 9]));
                }
                other => panic!("expected a folder, got {:?}", other),
            }
        }
        other => panic!("expected a folder, got {:?}", other),
    }
}

#[test]
fn malformed_child_fails_the_folder() {
    let mut buf = chunk_header(b"FOLD", b"INFO", 1, 0);
    let mut data = chunk_header(b"DATA", b"DATA", 1, 10);
    data.extend([1, 2]);
    buf.extend(data);
    assert_eq!(
        decode_chunk(&buf, 0).map(|_| ()),
        Err(DecodeError::UnexpectedEof { offset: 56, needed: 10 })
    );
}

#[test]
fn placed_assets_are_not_decodable() {
    let buf = chunk_header(b"DATA", b"PLAS", 1, 0);
    assert_eq!(decode_chunk(&buf, 0).map(|_| ()), Err(DecodeError::Unsupported { offset: 0 }));
}

#[test]
fn unknown_chunk_kinds_are_reported() {
    let buf = chunk_header(b"DATA", b"ZZZZ", 1, 0);
    assert_eq!(
        decode_chunk(&buf, 0).map(|_| ()),
        Err(DecodeError::UnknownVariant { offset: 4, discriminant: 0x5A5A5A5A })
    );
    let buf = chunk_header(b"XOLD", b"INFO", 1, 0);
    assert!(matches!(decode_chunk(&buf, 0), Err(DecodeError::UnknownVariant { offset: 0, .. })));
}

fn header_value(version: u32, length: u32) -> ChunkHeader {
    ChunkHeader {
        chunk_kind: String::from("DATA"),
        chunk_type: String::from("DATA"),
        version,
        length,
        name_length: 0,
        min_version: 0,
        flags: 0,
    }
}

#[test]
fn version_one_match_data_is_simple() {
    // Bytes that would also read as the start of a complex body.
    let buf = [0x01, 0x00, 0x00, 0x00, 0x05, 0x06];
    let (m, end) = decode_match_data(&buf, 0, header_value(1, 4)).unwrap();
    match m {
        MatchDataChunk::Simple(s) => assert_eq!(s.unknown, vec![1, 0, 0, 0]),
        other => panic!("expected simple match data, got {:?}", other),
    }
    assert_eq!(end, 4);
}

#[test]
fn version_two_match_data_is_complex() {
    let mut buf = u32le(2);
    buf.extend(u32le(1));
    buf.extend(u32le(0));
    buf.extend(u16le(0));
    buf.extend(u32le(0xDEADBEEF));
    buf.extend(u32le(1));
    buf.extend(player_record());
    let (m, end) = decode_match_data(&buf, 0, header_value(2, 0)).unwrap();
    assert_eq!(end, buf.len());
    match m {
        MatchDataChunk::Complex(c) => {
            assert_eq!((c.opponent_type, c.rng_seed, c.player_count), (2, 0xDEADBEEF, 1));
            assert_eq!(c.player_data.len(), 1);
            assert_eq!(c.player_data[0].name, "Ryan");
        }
        other => panic!("expected complex match data, got {:?}", other),
    }
    let short = &buf[..buf.len() - 1];
    assert!(decode_match_data(short, 0, header_value(2, 0)).is_err());
}

#[test]
fn map_descriptor_fields() {
    let mut buf = chunk_header(b"DATA", b"SDSC", 1, 0);
    for v in 1..=7 {
        buf.extend(u32le(v));
    }
    buf.extend(utf8_var("data:scenarios\\mp\\map"));
    buf.extend(vec![0xAB; 16]);
    buf.extend(utf16_var("Langres"));
    buf.extend(utf16_var("long"));
    buf.extend(utf16_var("short"));
    buf.extend(u32le(4));
    buf.extend(u32le(512));
    buf.extend(u32le(768));
    buf.extend(vec![0xCD; 40]);
    buf.extend(u32le(2));
    buf.extend(vec![0xEF; 18]);
    buf.extend(u32le(4));
    buf.extend(utf8_var("tail"));
    let (c, end) = decode_chunk(&buf, 0).unwrap();
    assert_eq!(end, buf.len());
    match c {
        Chunk::MapDescriptor(m) => {
            assert_eq!(m.unknown_flag_7, 7);
            assert_eq!(m.map_file, "data:scenarios\\mp\\map");
            assert_eq!(m.unknown_data_1, vec![0xAB; 16]);
            assert_eq!(m.map_name, "Langres");
            assert_eq!(m.long_map_description, "long");
            assert_eq!(m.short_map_description, "short");
            assert_eq!((m.map_players, m.map_width, m.map_height), (4, 512, 768));
            assert_eq!(m.unknown_data_2.len(), 40);
            assert_eq!(m.unknown_data_3, vec![0xEF; 18]);
            assert_eq!((m.unknown_flag_8, m.unknown_flag_9), (2, 4));
            assert_eq!(m.unknown_data_4, "tail");
        }
        other => panic!("expected a map descriptor, got {:?}", other),
    }
}

#[test]
fn battlegroup_ability_from_data() {
    let data = UseBattlegroupAbilityData { pgbid: 2_075_312 };
    let cmd = from_data(&data, 80);
    assert_eq!(cmd.tick(), 80);
    assert_eq!(cmd.pbgid(), 2_075_312);
    assert_eq!(from_data(&data, -1).tick(), u32::MAX);
}
