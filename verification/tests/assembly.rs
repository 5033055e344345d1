use cec_mbox::records::ParseError;
use cec_mbox::tree::{
    assemble_box, assemble_save_file, assemble_title, assemble_titles_isolated, create_save_file,
    is_message_file_name, FolderInput, TitleInput,
};

fn box_list_bytes(names: &[&[u8]]) -> Vec<u8> {
    let mut v = Vec::new();
    v.extend_from_slice(&[0u8; 8]);
    v.extend_from_slice(&(names.len() as u32).to_le_bytes());
    for name in names {
        let mut slot = [0u8; 16];
        slot[..name.len()].copy_from_slice(name);
        v.extend_from_slice(&slot);
    }
    v
}

fn message_bytes(message_id: u64) -> Vec<u8> {
    let mut v = vec![0u8; 112];
    v[32..40].copy_from_slice(&message_id.to_le_bytes());
    v
}

fn folder_input(message_ids: &[u64]) -> FolderInput {
    FolderInput {
        box_info_data: vec![0u8; 32],
        message_datas: message_ids.iter().map(|id| message_bytes(*id)).collect(),
    }
}

fn title_input(title_id: u64, inbox: Option<FolderInput>, outbox: Option<FolderInput>) -> TitleInput {
    TitleInput {
        m_box_info_data: vec![0u8; 96],
        icon_data: vec![1, 2, 3],
        title_data: vec![0x41, 0x00],
        title_id_data: title_id.to_le_bytes().to_vec(),
        inbox,
        outbox,
    }
}

#[test]
fn two_titles_in_box_list_order() {
    let list = box_list_bytes(&[b"A", b"B"]);
    let inputs = vec![
        title_input(1, Some(folder_input(&[10, 11])), Some(folder_input(&[]))),
        title_input(2, Some(folder_input(&[20])), None),
    ];
    let save = assemble_save_file(&list, &inputs).unwrap();
    assert_eq!(save.cec.m_box_list.box_names, vec!["A", "B"]);
    assert_eq!(save.cec.titles.len(), 2);
    assert_eq!(save.cec.titles[0].m_box_data.title_id, 1);
    assert_eq!(save.cec.titles[1].m_box_data.title_id, 2);
    assert_eq!(save.cec.titles[0].inbox.messages.len(), 2);
    assert_eq!(save.cec.titles[0].outbox.messages.len(), 0);
    assert_eq!(save.cec.titles[1].inbox.messages.len(), 1);
}

#[test]
fn absent_folders_still_assemble_a_title() {
    let title = assemble_title(&title_input(5, None, None)).unwrap();
    assert!(title.inbox.info.is_none());
    assert!(title.outbox.info.is_none());
    assert!(title.inbox.messages.is_empty());
    assert!(title.outbox.messages.is_empty());
}

#[test]
fn absent_folder_yields_empty_box() {
    let b = assemble_box(&None).unwrap();
    assert!(b.info.is_none());
    assert!(b.messages.is_empty());
}

#[test]
fn present_folder_keeps_message_order() {
    let b = assemble_box(&Some(folder_input(&[7, 3, 9]))).unwrap();
    assert!(b.info.is_some());
    let ids: Vec<u64> = b.messages.iter().map(|m| m.message_id).collect();
    assert_eq!(ids, vec![7, 3, 9]);
}

#[test]
fn short_message_file_fails_folder() {
    let mut folder = folder_input(&[1]);
    folder.message_datas.push(vec![0u8; 111]);
    assert_eq!(
        assemble_box(&Some(folder)),
        Err(ParseError::BufferTooShort)
    );
}

#[test]
fn short_box_info_fails_folder() {
    let mut folder = folder_input(&[]);
    folder.box_info_data = vec![0u8; 31];
    assert_eq!(
        assemble_box(&Some(folder)),
        Err(ParseError::BufferTooShort)
    );
}

#[test]
fn short_mbox_info_fails_title() {
    let mut input = title_input(1, None, None);
    input.m_box_info_data = vec![0u8; 95];
    assert_eq!(assemble_title(&input), Err(ParseError::BufferTooShort));
}

#[test]
fn odd_title_string_fails_title() {
    let mut input = title_input(1, None, None);
    input.title_data = vec![0x41, 0x00, 0x42];
    assert_eq!(assemble_title(&input), Err(ParseError::OddTitleLength));
}

#[test]
fn box_count_mismatch_is_reported() {
    let list = box_list_bytes(&[b"A", b"B"]);
    let inputs = vec![title_input(1, None, None)];
    assert_eq!(
        assemble_save_file(&list, &inputs),
        Err(ParseError::BoxCountMismatch)
    );
}

#[test]
fn short_box_list_fails_save_file() {
    let list = box_list_bytes(&[]);
    assert_eq!(
        assemble_save_file(&list[..11], &Vec::new()),
        Err(ParseError::BufferTooShort)
    );
}

#[test]
fn message_file_names_start_with_underscore() {
    assert!(is_message_file_name("_04000000123456"));
    assert!(is_message_file_name("_"));
    assert!(!is_message_file_name("BoxInfo_____"));
    assert!(!is_message_file_name(""));
    assert!(!is_message_file_name("MBoxInfo____"));
}

#[test]
fn create_save_file_keeps_its_parts() {
    let list = box_list_bytes(&[b"A"]);
    let m_box_list = cec_mbox::parse::parse_mbox_list(&list).unwrap();
    let title = assemble_title(&title_input(1, None, None)).unwrap();
    let save = create_save_file(m_box_list.clone(), vec![title.clone()]);
    assert_eq!(save.cec.m_box_list, m_box_list);
    assert_eq!(save.cec.titles, vec![title]);
}

#[test]
fn isolated_assembly_reports_each_title() {
    let mut broken = title_input(2, None, None);
    broken.title_id_data = vec![0u8; 7];
    let inputs = vec![title_input(1, None, None), broken, title_input(3, None, None)];
    let results = assemble_titles_isolated(&inputs);
    assert_eq!(results.len(), 3);
    assert_eq!(results[0].as_ref().unwrap().m_box_data.title_id, 1);
    assert_eq!(results[1], Err(ParseError::BufferTooShort));
    assert_eq!(results[2].as_ref().unwrap().m_box_data.title_id, 3);
}

#[test]
fn assembly_is_deterministic() {
    let list = box_list_bytes(&[b"A"]);
    let inputs = vec![title_input(1, Some(folder_input(&[4])), None)];
    assert_eq!(
        assemble_save_file(&list, &inputs),
        assemble_save_file(&list, &inputs)
    );
}
