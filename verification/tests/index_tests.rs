use messiah_assets::index::{
    read_entry_v1, read_entry_v2, MPKError, MPKFileEntry, MPKFileHeader, MPKFileReader,
};

fn header(version: u32, count: u32) -> Vec<u8> {
    let mut out = version.to_le_bytes().to_vec();
    out.extend_from_slice(&count.to_le_bytes());
    out
}

fn entry_v1(name: &[u8], offset: u32, size: u32, flags: u32) -> Vec<u8> {
    let mut out = (name.len() as u16).to_le_bytes().to_vec();
    out.extend_from_slice(name);
    out.extend_from_slice(&offset.to_le_bytes());
    out.extend_from_slice(&size.to_le_bytes());
    out.extend_from_slice(&flags.to_le_bytes());
    out
}

fn entry_v2(tag: &[u8; 3], offset: u32, size: u32, flags: u32, hash: u32) -> Vec<u8> {
    let mut out = size.to_le_bytes().to_vec();
    out.extend_from_slice(&flags.to_le_bytes());
    out.push(0xee);
    out.extend_from_slice(tag);
    out.extend_from_slice(&hash.to_le_bytes());
    out.extend_from_slice(&offset.to_le_bytes());
    out
}

#[test]
fn header_is_two_words() {
    let h = MPKFileHeader::read_header(&header(2, 7)).unwrap();
    assert_eq!(h.version(), 2);
    assert_eq!(h.file_count(), 7);
    assert!(matches!(MPKFileHeader::read_header(&[1, 0, 0, 0, 0, 0, 0]), Err(MPKError::ReadError)));
    assert!(matches!(MPKFileHeader::read_header(&[]), Err(MPKError::ReadError)));
}

#[test]
fn first_layout_is_read_in_order() {
    let mut index = header(1, 3);
    index.extend(entry_v1(b"Script", 0, 0, 1));
    index.extend(entry_v1(b"Script/a.bin", 16, 32, 0));
    index.extend(entry_v1("Data/\u{e9}.txt".as_bytes(), 100, 5, 7 << 1));
    let reader = MPKFileReader::new(&index).unwrap();
    assert_eq!(reader.header().version(), 1);
    assert_eq!(reader.header().file_count(), 3);
    let files = reader.files();
    assert_eq!(files.len(), 3);
    assert!(files[0].is_folder());
    assert_eq!(files[0].size(), 0);
    assert_eq!(files[0].name(), "Script");
    assert_eq!(files[0].file_number(), 0);
    assert!(!files[1].is_folder());
    assert_eq!(files[1].name(), "Script/a.bin");
    assert_eq!(files[1].offset(), 16);
    assert_eq!(files[1].size(), 32);
    assert_eq!(files[1].file_number(), 0);
    assert_eq!(files[2].name(), "Data/\u{e9}.txt");
    assert_eq!(files[2].file_number(), 7);
    assert_eq!(files[2].offset(), 100);
    assert_eq!(files[2].size(), 5);
    assert!(matches!(files[2], MPKFileEntry::V1(_)));
}

#[test]
fn second_layout_makes_names_up() {
    let mut index = header(2, 3);
    index.extend(entry_v2(b"png", 64, 10, 3 << 1, 123_456));
    index.extend(entry_v2(b"a/b", 0, 0, 1, 9));
    index.extend(entry_v2(b"dds", 1, 2, 0, 4_294_967_295));
    let reader = MPKFileReader::new(&index).unwrap();
    let files = reader.files();
    assert_eq!(files.len(), 3);
    assert_eq!(files[0].name(), "file_3_123456.png");
    assert_eq!(files[0].file_number(), 3);
    assert_eq!(files[0].offset(), 64);
    assert_eq!(files[0].size(), 10);
    assert!(!files[0].is_folder());
    assert!(files[1].is_folder());
    assert_eq!(files[1].name(), "a_b");
    assert_eq!(files[2].name(), "file_0_4294967295.dds");
    assert!(matches!(files[2], MPKFileEntry::V2(_)));
}

#[test]
fn unknown_layout_is_refused() {
    assert!(matches!(MPKFileReader::new(&header(0, 0)), Err(MPKError::InvalidInfoHeader)));
    assert!(matches!(MPKFileReader::new(&header(3, 0)), Err(MPKError::InvalidInfoHeader)));
    let mut index = header(3, 1);
    index.extend(entry_v1(b"x", 0, 0, 0));
    assert!(matches!(MPKFileReader::new(&index), Err(MPKError::InvalidInfoHeader)));
    assert!(MPKFileReader::new(&header(1, 0)).unwrap().files().is_empty());
    assert!(MPKFileReader::new(&header(2, 0)).unwrap().files().is_empty());
}

#[test]
fn short_index_is_a_read_error() {
    assert!(matches!(MPKFileReader::new(&[1, 0, 0]), Err(MPKError::ReadError)));
    let mut index = header(1, 2);
    index.extend(entry_v1(b"one", 0, 1, 0));
    assert!(matches!(MPKFileReader::new(&index), Err(MPKError::ReadError)));
    index.extend(entry_v1(b"two", 1, 1, 0));
    for cut in 8..index.len() {
        assert!(matches!(MPKFileReader::new(&index[..cut]), Err(MPKError::ReadError)));
    }
    assert_eq!(MPKFileReader::new(&index).unwrap().files().len(), 2);
    let mut second = header(2, 1);
    second.extend(entry_v2(b"png", 0, 0, 0, 0));
    second.pop();
    assert!(matches!(MPKFileReader::new(&second), Err(MPKError::ReadError)));
}

#[test]
fn folder_with_a_size_is_refused() {
    let mut index = header(1, 1);
    index.extend(entry_v1(b"dir", 0, 1, 1));
    assert!(matches!(MPKFileReader::new(&index), Err(MPKError::FolderWithData)));
    let mut second = header(2, 1);
    second.extend(entry_v2(b"dir", 0, 4, 5, 0));
    assert!(matches!(MPKFileReader::new(&second), Err(MPKError::FolderWithData)));
}

#[test]
fn names_must_be_utf8() {
    let mut index = header(1, 1);
    index.extend(entry_v1(&[0xff, 0xfe], 0, 1, 0));
    assert!(matches!(MPKFileReader::new(&index), Err(MPKError::InvalidName)));
    let mut second = header(2, 1);
    second.extend(entry_v2(&[0xc3, 0x28, 0x41], 0, 4, 0, 0));
    assert!(matches!(MPKFileReader::new(&second), Err(MPKError::InvalidName)));
}

#[test]
fn single_entries_report_where_they_end() {
    let mut data = vec![9, 9];
    data.extend(entry_v1(b"abc", 1, 2, 6));
    let (entry, next) = read_entry_v1(&data, 2).unwrap();
    assert_eq!(next, data.len());
    assert_eq!(entry.name(), "abc");
    assert_eq!(entry.file_number(), 3);
    assert!(matches!(read_entry_v1(&data, data.len()), Err(MPKError::ReadError)));
    assert!(matches!(read_entry_v1(&data, usize::MAX), Err(MPKError::ReadError)));
    let two = entry_v2(b"ogg", 5, 6, 4, 8);
    let (entry, next) = read_entry_v2(&two, 0).unwrap();
    assert_eq!(next, 20);
    assert_eq!(entry.name(), "file_2_8.ogg");
    assert!(matches!(read_entry_v2(&two, 1), Err(MPKError::ReadError)));
    assert!(matches!(read_entry_v2(&two, usize::MAX), Err(MPKError::ReadError)));
}
