use cec_mbox::parse::{
    parse_box_info, parse_mbox_data, parse_mbox_info, parse_mbox_list, parse_message_file,
};
use cec_mbox::records::ParseError;

fn box_list_bytes(magic: u16, version: u32, names: &[&[u8]]) -> Vec<u8> {
    let mut v = Vec::new();
    v.extend_from_slice(&magic.to_le_bytes());
    v.extend_from_slice(&[0u8, 0u8]);
    v.extend_from_slice(&version.to_le_bytes());
    v.extend_from_slice(&(names.len() as u32).to_le_bytes());
    for name in names {
        assert!(name.len() <= 16);
        let mut slot = [0u8; 16];
        slot[..name.len()].copy_from_slice(name);
        v.extend_from_slice(&slot);
    }
    v
}

fn counting_bytes(n: usize) -> Vec<u8> {
    (0..n).map(|i| i as u8).collect()
}

#[test]
fn box_list_two_names() {
    let data = box_list_bytes(0x4242, 7, &[b"A", b"B"]);
    let r = parse_mbox_list(&data).unwrap();
    assert_eq!(r.magic, 0x4242);
    assert_eq!(r.padding, 0);
    assert_eq!(r.version, 7);
    assert_eq!(r.number_of_boxes, 2);
    assert_eq!(r.box_names, vec!["A".to_string(), "B".to_string()]);
}

#[test]
fn box_list_trims_trailing_nuls_only() {
    let data = box_list_bytes(1, 1, &[b"ABCDEF", b"A\0B"]);
    let r = parse_mbox_list(&data).unwrap();
    assert_eq!(r.box_names[0], "ABCDEF");
    // An embedded NUL is kept; only the trailing run is stripped.
    assert_eq!(r.box_names[1], "A\u{0}B");
}

#[test]
fn box_list_exact_size_zero_boxes() {
    let data = box_list_bytes(0, 0, &[]);
    assert_eq!(data.len(), 12);
    let r = parse_mbox_list(&data).unwrap();
    assert_eq!(r.number_of_boxes, 0);
    assert!(r.box_names.is_empty());

    let short = &data[..11];
    assert_eq!(parse_mbox_list(short), Err(ParseError::BufferTooShort));
}

#[test]
fn box_list_exact_size_one_box() {
    let data = box_list_bytes(0, 0, &[b"0123456789ABCDEF"]);
    assert_eq!(data.len(), 28);
    let r = parse_mbox_list(&data).unwrap();
    assert_eq!(r.box_names, vec!["0123456789ABCDEF".to_string()]);

    let short = &data[..27];
    assert_eq!(parse_mbox_list(short), Err(ParseError::BufferTooShort));
}

#[test]
fn box_list_count_larger_than_buffer() {
    let mut data = box_list_bytes(0, 0, &[b"A"]);
    // Overwrite the count with a number the buffer cannot hold.
    data[8..12].copy_from_slice(&99u32.to_le_bytes());
    assert_eq!(parse_mbox_list(&data), Err(ParseError::BufferTooShort));
}

#[test]
fn box_list_name_not_utf8_is_lossy() {
    let data = box_list_bytes(0, 0, &[b"\xFFA"]);
    let r = parse_mbox_list(&data).unwrap();
    assert_eq!(r.box_names[0], "\u{FFFD}A");
}

#[test]
fn box_list_truncated_sequence_before_padding() {
    // An incomplete multi-byte sequence right before the NUL padding
    // becomes a single replacement character.
    let data = box_list_bytes(0, 0, &[b"A\xC2"]);
    let r = parse_mbox_list(&data).unwrap();
    assert_eq!(r.box_names[0], "A\u{FFFD}");
}

#[test]
fn box_info_exact_and_short() {
    let data = vec![0u8; 32];
    assert!(parse_box_info(&data).is_ok());
    assert_eq!(parse_box_info(&data[..31]), Err(ParseError::BufferTooShort));
}

#[test]
fn box_info_fields() {
    let data = counting_bytes(32);
    let r = parse_box_info(&data).unwrap();
    assert_eq!(r.magic, 0x0100);
    assert_eq!(r.padding, 0x0302);
    assert_eq!(r.file_size, 0x07060504);
    assert_eq!(r.max_box_size, 0x0B0A0908);
    assert_eq!(r.current_box_size, 0x0F0E0D0C);
    assert_eq!(r.max_message_count, 0x13121110);
    assert_eq!(r.current_message_count, 0x17161514);
    assert_eq!(r.max_batch_size, 0x1B1A1918);
    assert_eq!(r.max_message_size, 0x1F1E1D1C);
}

#[test]
fn mbox_info_exact_and_short() {
    let data = vec![0u8; 96];
    assert!(parse_mbox_info(&data).is_ok());
    assert_eq!(
        parse_mbox_info(&data[..95]),
        Err(ParseError::BufferTooShort)
    );
}

#[test]
fn mbox_info_fields() {
    let data = counting_bytes(96);
    let r = parse_mbox_info(&data).unwrap();
    assert_eq!(r.magic, 0x0100);
    assert_eq!(r.padding, 0x0302);
    assert_eq!(r.title_id, 0x07060504);
    assert_eq!(r.private_id, 0x0B0A0908);
    assert_eq!(r.flag, 12);
    assert_eq!(r.is_active, 13);
    assert_eq!(r.padding2, 0x0F0E);
    assert_eq!(r.hmac_key, counting_bytes(48)[16..48].to_vec());
    assert_eq!(r.zero, 0x33323130);
    assert_eq!(
        r.timestamp_last_accessed,
        counting_bytes(64)[52..64].to_vec()
    );
    assert_eq!(r.flag1, 64);
    assert_eq!(r.flag2, 65);
    assert_eq!(r.flag3, 66);
    assert_eq!(r.flag4, 67);
    assert_eq!(
        r.timestamp_last_received,
        counting_bytes(80)[68..80].to_vec()
    );
    assert_eq!(r.reserved, counting_bytes(96)[80..96].to_vec());
}

#[test]
fn message_file_exact_and_short() {
    let data = vec![0u8; 112];
    assert!(parse_message_file(&data).is_ok());
    assert_eq!(
        parse_message_file(&data[..111]),
        Err(ParseError::BufferTooShort)
    );
}

#[test]
fn message_file_all_zero_bytes() {
    let data = vec![0u8; 112];
    let r = parse_message_file(&data).unwrap();
    assert_eq!(r.magic, 0);
    assert_eq!(r.padding, 0);
    assert_eq!(r.message_size, 0);
    assert_eq!(r.header_extra_headers_size, 0);
    assert_eq!(r.body_size, 0);
    assert_eq!(r.title_id, 0);
    assert_eq!(r.title_id_reserve, 0);
    assert_eq!(r.group_id, 0);
    assert_eq!(r.unknown_id, 0);
    assert_eq!(r.message_id, 0);
    assert_eq!(r.message_version, 0);
    assert_eq!(r.message_id2, 0);
    assert_eq!(r.flags, 0);
    assert_eq!(r.send_method, 0);
    assert_eq!(r.is_unopen, 0);
    assert_eq!(r.is_new, 0);
    assert_eq!(r.sender_id, 0);
    assert_eq!(r.sender_id2, 0);
    assert_eq!(r.timestamp_sent, vec![0u8; 12]);
    assert_eq!(r.timestamp_received, vec![0u8; 12]);
    assert_eq!(r.timestamp_created, vec![0u8; 12]);
    assert_eq!(r.send_count, 0);
    assert_eq!(r.propagation_count, 0);
    assert_eq!(r.tag, 0);
}

#[test]
fn message_file_fields() {
    let data = counting_bytes(112);
    let r = parse_message_file(&data).unwrap();
    assert_eq!(r.magic, 0x0100);
    assert_eq!(r.padding, 0x0302);
    assert_eq!(r.message_size, 0x07060504);
    assert_eq!(r.header_extra_headers_size, 0x0B0A0908);
    assert_eq!(r.body_size, 0x0F0E0D0C);
    assert_eq!(r.title_id, 0x13121110);
    assert_eq!(r.title_id_reserve, 0x17161514);
    assert_eq!(r.group_id, 0x1B1A1918);
    assert_eq!(r.unknown_id, 0x1F1E1D1C);
    assert_eq!(r.message_id, 0x2726252423222120);
    assert_eq!(r.message_version, 0x2B2A2928);
    assert_eq!(r.message_id2, 0x333231302F2E2D2C);
    assert_eq!(r.flags, 52);
    assert_eq!(r.send_method, 53);
    assert_eq!(r.is_unopen, 54);
    assert_eq!(r.is_new, 55);
    assert_eq!(r.sender_id, 0x3F3E3D3C3B3A3938);
    assert_eq!(r.sender_id2, 0x4746454443424140);
    assert_eq!(r.timestamp_sent, counting_bytes(84)[72..84].to_vec());
    assert_eq!(r.timestamp_received, counting_bytes(96)[84..96].to_vec());
    assert_eq!(r.timestamp_created, counting_bytes(108)[96..108].to_vec());
    assert_eq!(r.send_count, 108);
    assert_eq!(r.propagation_count, 109);
    assert_eq!(r.tag, 0x6F6E);
}

#[test]
fn message_file_ignores_body_bytes() {
    let mut data = counting_bytes(112);
    let header_only = parse_message_file(&data).unwrap();
    data.extend_from_slice(&[0xAA; 40]);
    let with_body = parse_message_file(&data).unwrap();
    assert_eq!(header_only, with_body);
}

#[test]
fn mbox_data_ascii_title() {
    let r = parse_mbox_data(&[1, 2, 3], &[0x41, 0x00], &[9, 0, 0, 0, 0, 0, 0, 0]).unwrap();
    assert_eq!(r.icon, vec![1, 2, 3]);
    assert_eq!(r.game_title, "A");
    assert_eq!(r.title_id, 9);
}

#[test]
fn mbox_data_title_id_little_endian() {
    let r = parse_mbox_data(&[], &[], &[0x88, 0x77, 0x66, 0x55, 0x44, 0x33, 0x22, 0x11]).unwrap();
    assert_eq!(r.title_id, 0x1122334455667788);
    assert_eq!(r.game_title, "");
    assert!(r.icon.is_empty());
}

#[test]
fn mbox_data_odd_title_length_fails() {
    let r = parse_mbox_data(&[], &[0x41], &[0; 8]);
    assert_eq!(r, Err(ParseError::OddTitleLength));
}

#[test]
fn mbox_data_short_id_fails() {
    let r = parse_mbox_data(&[], &[0x41, 0x00], &[0; 7]);
    assert_eq!(r, Err(ParseError::BufferTooShort));
}

#[test]
fn mbox_data_invalid_utf16_is_lossy() {
    // A lone high surrogate is not valid UTF-16; it decodes to the
    // replacement character instead of failing.
    let r = parse_mbox_data(&[], &[0x00, 0xD8], &[0; 8]).unwrap();
    assert_eq!(r.game_title, "\u{FFFD}");
}

#[test]
fn mbox_data_surrogate_pair_title() {
    // U+1F600 as a UTF-16LE surrogate pair.
    let r = parse_mbox_data(&[], &[0x3D, 0xD8, 0x00, 0xDE], &[0; 8]).unwrap();
    assert_eq!(r.game_title, "\u{1F600}");
}

#[test]
fn parsers_are_deterministic() {
    let list = box_list_bytes(3, 4, &[b"Box"]);
    assert_eq!(parse_mbox_list(&list), parse_mbox_list(&list));
    let info = counting_bytes(96);
    assert_eq!(parse_mbox_info(&info), parse_mbox_info(&info));
    let binfo = counting_bytes(32);
    assert_eq!(parse_box_info(&binfo), parse_box_info(&binfo));
    let msg = counting_bytes(112);
    assert_eq!(parse_message_file(&msg), parse_message_file(&msg));
    let data = parse_mbox_data(&[7, 8], &[0x42, 0x00], &[1, 2, 3, 4, 5, 6, 7, 8]);
    assert_eq!(
        data,
        parse_mbox_data(&[7, 8], &[0x42, 0x00], &[1, 2, 3, 4, 5, 6, 7, 8])
    );
}
