//! The record types of the container and their spec-level models. Each
//! record is an immutable value decoded from a byte buffer at fixed,
//! format-defined offsets; the `spec_parse_*` functions state, field by
//! field, exactly what those bytes mean. Magic, padding and reserved
//! fields are carried verbatim and never validated: their semantics are
//! undocumented, and rejecting unexpected values could reject real files.

use vstd::prelude::*;
use crate::primitive::{trim_nul, u16_le_at, u32_le_at, u64_le_at};
use crate::text::{utf8_lossy_of, utf16_lossy_of, utf16le_units};

verus! {

/// Why a decode was refused.
#[derive(Debug, Clone, Copy, PartialEq, Eq, Structural)]
pub enum ParseError {
    /// A buffer is shorter than the record read from it needs.
    BufferTooShort,
    /// A UTF-16 title buffer has odd length, so its code units are not whole.
    OddTitleLength,
    /// The number of per-title inputs does not match the box list's count.
    BoxCountMismatch,
}

/// Bytes a box-list buffer holds before the name slots begin.
pub const MBOX_LIST_HEADER_SIZE: usize = 12;

/// Bytes of one fixed-size box-name slot.
pub const BOX_NAME_SIZE: usize = 16;

/// Fixed size of an MBoxInfo record.
pub const MBOX_INFO_SIZE: usize = 96;

/// Fixed size of a BoxInfo record.
pub const BOX_INFO_SIZE: usize = 32;

/// Fixed size of a MessageFile header; body bytes beyond it are out of scope.
pub const MESSAGE_FILE_SIZE: usize = 112;

/// Bytes a title-ID buffer must hold.
pub const TITLE_ID_SIZE: usize = 8;

/// The box index: a header and an ordered run of fixed-size name slots.
#[derive(Debug, Clone, PartialEq, Eq)]
pub struct MBoxList {
    pub magic: u16,
    pub padding: u16,
    pub version: u32,
    pub number_of_boxes: u32,
    pub box_names: Vec<String>,
}

/// Model of `MBoxList`.
pub struct MBoxListV {
    pub magic: u16,
    pub padding: u16,
    pub version: u32,
    pub number_of_boxes: u32,
    pub box_names: Seq<Seq<char>>,
}

impl View for MBoxList {
    type V = MBoxListV;

    open spec fn view(&self) -> MBoxListV {
        MBoxListV {
            magic: self.magic,
            padding: self.padding,
            version: self.version,
            number_of_boxes: self.number_of_boxes,
            box_names: self.box_names.deep_view(),
        }
    }
}

impl DeepView for MBoxList {
    type V = MBoxListV;

    open spec fn deep_view(&self) -> MBoxListV {
        self.view()
    }
}

/// The name in slot `i` of box-list bytes `s`: the slot's sixteen bytes,
/// trimmed of trailing NUL and decoded permissively.
pub open spec fn box_name_at(s: Seq<u8>, i: int) -> Seq<char> {
    utf8_lossy_of(trim_nul(s.subrange(12 + 16 * i, 28 + 16 * i)))
}

/// Whether box-list bytes `s` are long enough for their own count.
pub open spec fn mbox_list_size_ok(s: Seq<u8>) -> bool {
    s.len() >= 12 && s.len() >= 12 + 16 * (u32_le_at(s, 8) as int)
}

/// What box-list bytes `s` decode to.
pub open spec fn spec_parse_mbox_list(s: Seq<u8>) -> MBoxListV {
    MBoxListV {
        magic: u16_le_at(s, 0),
        padding: u16_le_at(s, 2),
        version: u32_le_at(s, 4),
        number_of_boxes: u32_le_at(s, 8),
        box_names: Seq::new(u32_le_at(s, 8) as nat, |i: int| box_name_at(s, i)),
    }
}

/// Per-title mailbox metadata.
#[derive(Debug, Clone, PartialEq, Eq)]
pub struct MBoxInfo {
    pub magic: u16,
    pub padding: u16,
    pub title_id: u32,
    pub private_id: u32,
    pub flag: u8,
    pub is_active: u8,
    pub padding2: u16,
    pub hmac_key: Vec<u8>,
    pub zero: u32,
    pub timestamp_last_accessed: Vec<u8>,
    pub flag1: u8,
    pub flag2: u8,
    pub flag3: u8,
    pub flag4: u8,
    pub timestamp_last_received: Vec<u8>,
    pub reserved: Vec<u8>,
}

/// Model of `MBoxInfo`.
pub struct MBoxInfoV {
    pub magic: u16,
    pub padding: u16,
    pub title_id: u32,
    pub private_id: u32,
    pub flag: u8,
    pub is_active: u8,
    pub padding2: u16,
    pub hmac_key: Seq<u8>,
    pub zero: u32,
    pub timestamp_last_accessed: Seq<u8>,
    pub flag1: u8,
    pub flag2: u8,
    pub flag3: u8,
    pub flag4: u8,
    pub timestamp_last_received: Seq<u8>,
    pub reserved: Seq<u8>,
}

impl View for MBoxInfo {
    type V = MBoxInfoV;

    open spec fn view(&self) -> MBoxInfoV {
        MBoxInfoV {
            magic: self.magic,
            padding: self.padding,
            title_id: self.title_id,
            private_id: self.private_id,
            flag: self.flag,
            is_active: self.is_active,
            padding2: self.padding2,
            hmac_key: self.hmac_key@,
            zero: self.zero,
            timestamp_last_accessed: self.timestamp_last_accessed@,
            flag1: self.flag1,
            flag2: self.flag2,
            flag3: self.flag3,
            flag4: self.flag4,
            timestamp_last_received: self.timestamp_last_received@,
            reserved: self.reserved@,
        }
    }
}

impl DeepView for MBoxInfo {
    type V = MBoxInfoV;

    open spec fn deep_view(&self) -> MBoxInfoV {
        self.view()
    }
}

/// What MBoxInfo bytes `s` decode to.
pub open spec fn spec_parse_mbox_info(s: Seq<u8>) -> MBoxInfoV {
    MBoxInfoV {
        magic: u16_le_at(s, 0),
        padding: u16_le_at(s, 2),
        title_id: u32_le_at(s, 4),
        private_id: u32_le_at(s, 8),
        flag: s[12],
        is_active: s[13],
        padding2: u16_le_at(s, 14),
        hmac_key: s.subrange(16, 48),
        zero: u32_le_at(s, 48),
        timestamp_last_accessed: s.subrange(52, 64),
        flag1: s[64],
        flag2: s[65],
        flag3: s[66],
        flag4: s[67],
        timestamp_last_received: s.subrange(68, 80),
        reserved: s.subrange(80, 96),
    }
}

/// Per-title display data, sourced from three separate buffers.
#[derive(Debug, Clone, PartialEq, Eq)]
pub struct MBoxData {
    pub icon: Vec<u8>,
    pub game_title: String,
    pub title_id: u64,
}

/// Model of `MBoxData`.
pub struct MBoxDataV {
    pub icon: Seq<u8>,
    pub game_title: Seq<char>,
    pub title_id: u64,
}

impl View for MBoxData {
    type V = MBoxDataV;

    open spec fn view(&self) -> MBoxDataV {
        MBoxDataV {
            icon: self.icon@,
            game_title: self.game_title@,
            title_id: self.title_id,
        }
    }
}

impl DeepView for MBoxData {
    type V = MBoxDataV;

    open spec fn deep_view(&self) -> MBoxDataV {
        self.view()
    }
}

/// What the three MBoxData buffers decode to: the icon copied verbatim,
/// the title read as little-endian UTF-16 text, and the ID read as a
/// little-endian integer.
pub open spec fn spec_parse_mbox_data(icon: Seq<u8>, title: Seq<u8>, id: Seq<u8>) -> MBoxDataV {
    MBoxDataV {
        icon: icon,
        game_title: utf16_lossy_of(utf16le_units(title)),
        title_id: u64_le_at(id, 0),
    }
}

/// Folder (inbox or outbox) metadata.
#[derive(Debug, Clone, Copy, PartialEq, Eq, Structural)]
pub struct BoxInfo {
    pub magic: u16,
    pub padding: u16,
    pub file_size: u32,
    pub max_box_size: u32,
    pub current_box_size: u32,
    pub max_message_count: u32,
    pub current_message_count: u32,
    pub max_batch_size: u32,
    pub max_message_size: u32,
}

/// What BoxInfo bytes `s` decode to. All fields are scalar, so the record
/// is its own model.
pub open spec fn spec_parse_box_info(s: Seq<u8>) -> BoxInfo {
    BoxInfo {
        magic: u16_le_at(s, 0),
        padding: u16_le_at(s, 2),
        file_size: u32_le_at(s, 4),
        max_box_size: u32_le_at(s, 8),
        current_box_size: u32_le_at(s, 12),
        max_message_count: u32_le_at(s, 16),
        current_message_count: u32_le_at(s, 20),
        max_batch_size: u32_le_at(s, 24),
        max_message_size: u32_le_at(s, 28),
    }
}

/// A single message header; body bytes beyond the fixed header are out of
/// scope for this record type.
#[derive(Debug, Clone, PartialEq, Eq)]
pub struct MessageFile {
    pub magic: u16,
    pub padding: u16,
    pub message_size: u32,
    pub header_extra_headers_size: u32,
    pub body_size: u32,
    pub title_id: u32,
    pub title_id_reserve: u32,
    pub group_id: u32,
    pub unknown_id: u32,
    pub message_id: u64,
    pub message_version: u32,
    pub message_id2: u64,
    pub flags: u8,
    pub send_method: u8,
    pub is_unopen: u8,
    pub is_new: u8,
    pub sender_id: u64,
    pub sender_id2: u64,
    pub timestamp_sent: Vec<u8>,
    pub timestamp_received: Vec<u8>,
    pub timestamp_created: Vec<u8>,
    pub send_count: u8,
    pub propagation_count: u8,
    pub tag: u16,
}

/// Model of `MessageFile`.
pub struct MessageFileV {
    pub magic: u16,
    pub padding: u16,
    pub message_size: u32,
    pub header_extra_headers_size: u32,
    pub body_size: u32,
    pub title_id: u32,
    pub title_id_reserve: u32,
    pub group_id: u32,
    pub unknown_id: u32,
    pub message_id: u64,
    pub message_version: u32,
    pub message_id2: u64,
    pub flags: u8,
    pub send_method: u8,
    pub is_unopen: u8,
    pub is_new: u8,
    pub sender_id: u64,
    pub sender_id2: u64,
    pub timestamp_sent: Seq<u8>,
    pub timestamp_received: Seq<u8>,
    pub timestamp_created: Seq<u8>,
    pub send_count: u8,
    pub propagation_count: u8,
    pub tag: u16,
}

impl View for MessageFile {
    type V = MessageFileV;

    open spec fn view(&self) -> MessageFileV {
        MessageFileV {
            magic: self.magic,
            padding: self.padding,
            message_size: self.message_size,
            header_extra_headers_size: self.header_extra_headers_size,
            body_size: self.body_size,
            title_id: self.title_id,
            title_id_reserve: self.title_id_reserve,
            group_id: self.group_id,
            unknown_id: self.unknown_id,
            message_id: self.message_id,
            message_version: self.message_version,
            message_id2: self.message_id2,
            flags: self.flags,
            send_method: self.send_method,
            is_unopen: self.is_unopen,
            is_new: self.is_new,
            sender_id: self.sender_id,
            sender_id2: self.sender_id2,
            timestamp_sent: self.timestamp_sent@,
            timestamp_received: self.timestamp_received@,
            timestamp_created: self.timestamp_created@,
            send_count: self.send_count,
            propagation_count: self.propagation_count,
            tag: self.tag,
        }
    }
}

impl DeepView for MessageFile {
    type V = MessageFileV;

    open spec fn deep_view(&self) -> MessageFileV {
        self.view()
    }
}

/// What message-header bytes `s` decode to.
pub open spec fn spec_parse_message_file(s: Seq<u8>) -> MessageFileV {
    MessageFileV {
        magic: u16_le_at(s, 0),
        padding: u16_le_at(s, 2),
        message_size: u32_le_at(s, 4),
        header_extra_headers_size: u32_le_at(s, 8),
        body_size: u32_le_at(s, 12),
        title_id: u32_le_at(s, 16),
        title_id_reserve: u32_le_at(s, 20),
        group_id: u32_le_at(s, 24),
        unknown_id: u32_le_at(s, 28),
        message_id: u64_le_at(s, 32),
        message_version: u32_le_at(s, 40),
        message_id2: u64_le_at(s, 44),
        flags: s[52],
        send_method: s[53],
        is_unopen: s[54],
        is_new: s[55],
        sender_id: u64_le_at(s, 56),
        sender_id2: u64_le_at(s, 64),
        timestamp_sent: s.subrange(72, 84),
        timestamp_received: s.subrange(84, 96),
        timestamp_created: s.subrange(96, 108),
        send_count: s[108],
        propagation_count: s[109],
        tag: u16_le_at(s, 110),
    }
}

} // verus!
