//! Decoder for a console's message-box save-data container: a box-list
//! index, per-title mailbox metadata, and per-folder message headers, all
//! read from fixed-offset little-endian records.

pub mod parse;
pub mod primitive;
pub mod records;
pub mod text;
pub mod tree;
