//! The record parsers: pure functions from byte buffers to records. Each
//! one validates the buffer's length once, then reads every field at its
//! fixed offset; the contract states exactly when parsing succeeds and
//! that the result equals the record's spec-level decode.

use vstd::prelude::*;
use crate::primitive::{
    copy_range, read_u16_le, read_u32_le, read_u64_le, trim_nul_range, u32_le_at,
};
use crate::records::{
    BoxInfo, MBoxData, MBoxInfo, MBoxList, MessageFile, ParseError, box_name_at,
    mbox_list_size_ok, spec_parse_box_info, spec_parse_mbox_data, spec_parse_mbox_info,
    spec_parse_mbox_list, spec_parse_message_file, BOX_INFO_SIZE, BOX_NAME_SIZE,
    MBOX_INFO_SIZE, MBOX_LIST_HEADER_SIZE, MESSAGE_FILE_SIZE, TITLE_ID_SIZE,
};
use crate::text::{read_utf16le_units, utf8_lossy, utf16_lossy};

verus! {

/// Decodes the box index: the header, then one name per slot, in slot
/// order, each trimmed of trailing NUL bytes. Fails exactly when the
/// buffer cannot hold the header or the slots its own count announces.
pub fn parse_mbox_list(data: &[u8]) -> (r: Result<MBoxList, ParseError>)
    ensures
        r is Ok <==> mbox_list_size_ok(data@),
        r is Ok ==> r->Ok_0@ == spec_parse_mbox_list(data@),
        r is Err ==> r->Err_0 == ParseError::BufferTooShort,
{
    if data.len() < MBOX_LIST_HEADER_SIZE {
        return Err(ParseError::BufferTooShort);
    }
    let number_of_boxes = read_u32_le(data, 8);
    if (data.len() as u64) < MBOX_LIST_HEADER_SIZE as u64 + BOX_NAME_SIZE as u64
        * number_of_boxes as u64 {
        return Err(ParseError::BufferTooShort);
    }
    let count = number_of_boxes as usize;
    let mut box_names: Vec<String> = Vec::new();
    let mut i: usize = 0;
    while i < count
        invariant
            count == u32_le_at(data@, 8),
            data@.len() >= 12 + 16 * count,
            data@.len() <= usize::MAX,
            i <= count,
            box_names@.len() == i,
            forall|j: int| 0 <= j < i ==> #[trigger] box_names@[j]@ == box_name_at(data@, j),
        decreases count - i,
    {
        let start = MBOX_LIST_HEADER_SIZE + i * BOX_NAME_SIZE;
        let name_bytes = trim_nul_range(data, start, start + BOX_NAME_SIZE);
        let name = utf8_lossy(name_bytes.as_slice());
        box_names.push(name);
        i = i + 1;
    }
    let r = MBoxList {
        magic: read_u16_le(data, 0),
        padding: read_u16_le(data, 2),
        version: read_u32_le(data, 4),
        number_of_boxes,
        box_names,
    };
    proof {
        assert(r@.box_names =~= spec_parse_mbox_list(data@).box_names);
    }
    Ok(r)
}

/// Decodes per-title mailbox metadata. Fails exactly on a buffer shorter
/// than the record's fixed size.
pub fn parse_mbox_info(data: &[u8]) -> (r: Result<MBoxInfo, ParseError>)
    ensures
        r is Ok <==> data@.len() >= MBOX_INFO_SIZE,
        r is Ok ==> r->Ok_0@ == spec_parse_mbox_info(data@),
        r is Err ==> r->Err_0 == ParseError::BufferTooShort,
{
    if data.len() < MBOX_INFO_SIZE {
        return Err(ParseError::BufferTooShort);
    }
    Ok(MBoxInfo {
        magic: read_u16_le(data, 0),
        padding: read_u16_le(data, 2),
        title_id: read_u32_le(data, 4),
        private_id: read_u32_le(data, 8),
        flag: data[12],
        is_active: data[13],
        padding2: read_u16_le(data, 14),
        hmac_key: copy_range(data, 16, 48),
        zero: read_u32_le(data, 48),
        timestamp_last_accessed: copy_range(data, 52, 64),
        flag1: data[64],
        flag2: data[65],
        flag3: data[66],
        flag4: data[67],
        timestamp_last_received: copy_range(data, 68, 80),
        reserved: copy_range(data, 80, 96),
    })
}

/// Decodes the three per-title display buffers: the icon is copied
/// verbatim, the title is read as little-endian UTF-16 text, and the ID
/// as a little-endian integer. Fails exactly when the ID buffer is short
/// or the title buffer's length is odd.
pub fn parse_mbox_data(icon_data: &[u8], game_title_data: &[u8], title_id_data: &[u8]) -> (r:
    Result<MBoxData, ParseError>)
    ensures
        r is Ok <==> (title_id_data@.len() >= TITLE_ID_SIZE && game_title_data@.len() % 2 == 0),
        r is Ok ==> r->Ok_0@ == spec_parse_mbox_data(
            icon_data@,
            game_title_data@,
            title_id_data@,
        ),
        title_id_data@.len() < TITLE_ID_SIZE ==> r == Err::<MBoxData, ParseError>(
            ParseError::BufferTooShort,
        ),
        title_id_data@.len() >= TITLE_ID_SIZE && game_title_data@.len() % 2 != 0 ==> r == Err::<
            MBoxData,
            ParseError,
        >(ParseError::OddTitleLength),
{
    if title_id_data.len() < TITLE_ID_SIZE {
        return Err(ParseError::BufferTooShort);
    }
    if game_title_data.len() % 2 != 0 {
        return Err(ParseError::OddTitleLength);
    }
    let icon = copy_range(icon_data, 0, icon_data.len());
    let units = read_utf16le_units(game_title_data);
    let game_title = utf16_lossy(units.as_slice());
    let title_id = read_u64_le(title_id_data, 0);
    proof {
        assert(icon_data@.subrange(0, icon_data@.len() as int) =~= icon_data@);
    }
    Ok(MBoxData { icon, game_title, title_id })
}

/// Decodes folder metadata. Fails exactly on a buffer shorter than the
/// record's fixed size.
pub fn parse_box_info(data: &[u8]) -> (r: Result<BoxInfo, ParseError>)
    ensures
        r is Ok <==> data@.len() >= BOX_INFO_SIZE,
        r is Ok ==> r->Ok_0 == spec_parse_box_info(data@),
        r is Err ==> r->Err_0 == ParseError::BufferTooShort,
{
    if data.len() < BOX_INFO_SIZE {
        return Err(ParseError::BufferTooShort);
    }
    Ok(BoxInfo {
        magic: read_u16_le(data, 0),
        padding: read_u16_le(data, 2),
        file_size: read_u32_le(data, 4),
        max_box_size: read_u32_le(data, 8),
        current_box_size: read_u32_le(data, 12),
        max_message_count: read_u32_le(data, 16),
        current_message_count: read_u32_le(data, 20),
        max_batch_size: read_u32_le(data, 24),
        max_message_size: read_u32_le(data, 28),
    })
}

/// Decodes a message header. Fails exactly on a buffer shorter than the
/// header's fixed size; bytes past the header are ignored.
pub fn parse_message_file(data: &[u8]) -> (r: Result<MessageFile, ParseError>)
    ensures
        r is Ok <==> data@.len() >= MESSAGE_FILE_SIZE,
        r is Ok ==> r->Ok_0@ == spec_parse_message_file(data@),
        r is Err ==> r->Err_0 == ParseError::BufferTooShort,
{
    if data.len() < MESSAGE_FILE_SIZE {
        return Err(ParseError::BufferTooShort);
    }
    Ok(MessageFile {
        magic: read_u16_le(data, 0),
        padding: read_u16_le(data, 2),
        message_size: read_u32_le(data, 4),
        header_extra_headers_size: read_u32_le(data, 8),
        body_size: read_u32_le(data, 12),
        title_id: read_u32_le(data, 16),
        title_id_reserve: read_u32_le(data, 20),
        group_id: read_u32_le(data, 24),
        unknown_id: read_u32_le(data, 28),
        message_id: read_u64_le(data, 32),
        message_version: read_u32_le(data, 40),
        message_id2: read_u64_le(data, 44),
        flags: data[52],
        send_method: data[53],
        is_unopen: data[54],
        is_new: data[55],
        sender_id: read_u64_le(data, 56),
        sender_id2: read_u64_le(data, 64),
        timestamp_sent: copy_range(data, 72, 84),
        timestamp_received: copy_range(data, 84, 96),
        timestamp_created: copy_range(data, 96, 108),
        send_count: data[108],
        propagation_count: data[109],
        tag: read_u16_le(data, 110),
    })
}

} // verus!
