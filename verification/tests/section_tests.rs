use libxivdat::dat_error::{DATError, ErrorKind};
use libxivdat::dat_file::{read_content, DATFile};
use libxivdat::raw_file::SeekFrom;
use libxivdat::section::{
    as_section, as_section_vec, get_section_header_contents, holds_sections, read_section,
    read_section_content, read_section_content_unsafe, read_section_unsafe, Section, SectionData,
    SECTION_BASED_TYPES, SECTION_HEADER_SIZE,
};
use libxivdat::dat_type::DATType;

const TEST_FILE_SEC1_CONTENTS: (&str, u16, &str) = ("T", 24, "This is a test section.");
const TEST_FILE_SEC2_CONTENTS: (&str, u16, &str) = ("A", 22, "Another test section.");
const TEST_SEC: [u8; 7] = [0x41, 0x04, 0x00, 0x41, 0x42, 0x43, 0x00];
const TEST_SEC_CONTENTS: (&str, u16, &str) = ("A", 4, "ABC");
const TEST_SEC_NOT_UTF8: [u8; 7] = [0xc2, 0x04, 0x00, 0x01, 0x01, 0x01, 0x00];
const TEST_SEC_TOO_SHORT: [u8; 6] = [0x41, 0x04, 0x00, 0x41, 0x42, 0x00];
const TEST_SEC_TOO_LONG: [u8; 8] = [0x41, 0x04, 0x00, 0x41, 0x42, 0x43, 0x44, 0x00];

/// The image of a file: a header, the content with its mask on, and zeros up
/// to `max_size + 32` bytes.
fn image(type_code: u32, max_size: u32, end_byte: u8, mask: u8, content: &[u8]) -> Vec<u8> {
    let mut bytes = Vec::new();
    bytes.extend_from_slice(&type_code.to_le_bytes());
    bytes.extend_from_slice(&max_size.to_le_bytes());
    bytes.extend_from_slice(&(content.len() as u32 + 1).to_le_bytes());
    bytes.extend_from_slice(&[0, 0, 0, 0]);
    bytes.push(end_byte);
    for byte in content {
        bytes.push(byte ^ mask);
    }
    bytes.resize(max_size as usize + 32, 0);
    bytes
}

/// The bytes of a section, put together by hand.
fn section_bytes(tag: &str, content: &str) -> Vec<u8> {
    let mut bytes = Vec::new();
    bytes.extend_from_slice(tag.as_bytes());
    bytes.extend_from_slice(&(content.len() as u16 + 1).to_le_bytes());
    bytes.extend_from_slice(content.as_bytes());
    bytes.push(0);
    bytes
}

/// The content of the test file: two sections.
fn test_file_content() -> Vec<u8> {
    let mut content = section_bytes(TEST_FILE_SEC1_CONTENTS.0, TEST_FILE_SEC1_CONTENTS.2);
    content.extend_from_slice(&section_bytes(
        TEST_FILE_SEC2_CONTENTS.0,
        TEST_FILE_SEC2_CONTENTS.2,
    ));
    content
}

/// A key bind file that holds two sections.
fn test_file_image() -> Vec<u8> {
    image(0x0065_0003, 64, 0xFF, 0x73, &test_file_content())
}

/// A gear set file, which holds blocks and no sections.
fn test_non_section_image() -> Vec<u8> {
    image(0x006b_0005, 64, 0xFF, 0x73, &test_file_content())
}

// --- Module Functions

#[test]
fn test_as_section() -> Result<(), String> {
    match as_section(&TEST_SEC[..]) {
        Ok(section) => {
            assert_eq!(section.tag, TEST_SEC_CONTENTS.0);
            assert_eq!(section.content_size, TEST_SEC_CONTENTS.1);
            assert_eq!(section.content, TEST_SEC_CONTENTS.2);
            Ok(())
        }
        Err(err) => Err(format!("Error: {}", err.to_string())),
    }
}

#[test]
fn test_as_section_vec() -> Result<(), String> {
    let sec_bytes = match read_content(&test_file_image()) {
        Ok(sec_bytes) => sec_bytes,
        Err(err) => return Err(format!("Error reading file: {}", err.to_string())),
    };
    match as_section_vec(&sec_bytes) {
        Ok(section) => {
            assert_eq!(section[0].tag, TEST_FILE_SEC1_CONTENTS.0);
            assert_eq!(section[0].content_size, TEST_FILE_SEC1_CONTENTS.1);
            assert_eq!(section[0].content, TEST_FILE_SEC1_CONTENTS.2);
            assert_eq!(section[1].tag, TEST_FILE_SEC2_CONTENTS.0);
            assert_eq!(section[1].content_size, TEST_FILE_SEC2_CONTENTS.1);
            assert_eq!(section[1].content, TEST_FILE_SEC2_CONTENTS.2);
            Ok(())
        }
        Err(err) => Err(format!("Error: {}", err.to_string())),
    }
}

#[test]
fn test_as_section_vec_error_overflow() -> Result<(), String> {
    let mut sec_bytes = match read_content(&test_file_image()) {
        Ok(sec_bytes) => sec_bytes,
        Err(err) => return Err(format!("Error reading file: {}", err.to_string())),
    };
    // Remove the terminating null from the first section and add in arbitrary data.
    sec_bytes[SECTION_HEADER_SIZE + usize::from(TEST_FILE_SEC1_CONTENTS.1) - 1] = 0x41;
    match as_section_vec(&sec_bytes) {
        Ok(_) => Err("No error returned.".to_owned()),
        Err(err) => match err {
            DATError::Overflow(_) => Ok(()),
            _ => Err(format!("Incorrect error: {}", err.to_string())),
        },
    }
}

#[test]
fn test_as_section_vec_error_underflow() -> Result<(), String> {
    let mut sec_bytes = match read_content(&test_file_image()) {
        Ok(sec_bytes) => sec_bytes,
        Err(err) => return Err(format!("Error reading file: {}", err.to_string())),
    };
    // Add an early terminating null to the first section.
    sec_bytes[SECTION_HEADER_SIZE + usize::from(TEST_FILE_SEC1_CONTENTS.1) - 2] = 0x00;
    match as_section_vec(&sec_bytes) {
        Ok(_) => Err("No error returned.".to_owned()),
        Err(err) => match err {
            DATError::Underflow(_) => Ok(()),
            _ => Err(format!("Incorrect error: {}", err.to_string())),
        },
    }
}

#[test]
fn test_as_section_vec_error_encoding() -> Result<(), String> {
    let mut sec_bytes = match read_content(&test_file_image()) {
        Ok(sec_bytes) => sec_bytes,
        Err(err) => return Err(format!("Error reading file: {}", err.to_string())),
    };
    // Add a random utf8 control char.
    sec_bytes[SECTION_HEADER_SIZE + usize::from(TEST_FILE_SEC1_CONTENTS.1) - 2] = 0xc2;
    match as_section_vec(&sec_bytes) {
        Ok(_) => Err("No error returned.".to_owned()),
        Err(err) => match err {
            DATError::BadEncoding(_) => Ok(()),
            _ => Err(format!("Incorrect error: {}", err.to_string())),
        },
    }
}

#[test]
fn test_read_section() -> Result<(), String> {
    let mut dat_file = match DATFile::open(test_file_image()) {
        Ok(dat_file) => dat_file,
        Err(err) => return Err(format!("Error opening file: {}", err.to_string())),
    };
    match read_section(&mut dat_file) {
        Ok(section) => {
            assert_eq!(section.tag, TEST_FILE_SEC1_CONTENTS.0);
            assert_eq!(section.content_size, TEST_FILE_SEC1_CONTENTS.1);
            assert_eq!(section.content, TEST_FILE_SEC1_CONTENTS.2);
            Ok(())
        }
        Err(err) => Err(format!("Error: {}", err.to_string())),
    }
}

#[test]
fn test_read_section_error_type() -> Result<(), String> {
    let mut dat_file = match DATFile::open(test_non_section_image()) {
        Ok(dat_file) => dat_file,
        Err(err) => return Err(format!("Error opening file: {}", err.to_string())),
    };
    match read_section(&mut dat_file) {
        Ok(_) => Err("No error returned.".to_owned()),
        Err(err) => match err {
            DATError::IncorrectType(_) => Ok(()),
            _ => Err(format!("Incorrect error: {}", err.to_string())),
        },
    }
}

#[test]
fn test_read_section_error_eof() -> Result<(), String> {
    let mut dat_file = match DATFile::open(test_file_image()) {
        Ok(dat_file) => dat_file,
        Err(err) => return Err(format!("Error opening file: {}", err.to_string())),
    };
    dat_file.seek(SeekFrom::End(-1)).unwrap();
    match read_section(&mut dat_file) {
        Ok(_) => Err("No error returned.".to_owned()),
        Err(err) => match err {
            DATError::EndOfFile(_) => Ok(()),
            _ => Err(format!("Incorrect error: {}", err.to_string())),
        },
    }
}

#[test]
fn test_read_section_content() -> Result<(), String> {
    match read_section_content(&test_file_image()) {
        Ok(section) => {
            assert_eq!(section[0].tag, TEST_FILE_SEC1_CONTENTS.0);
            assert_eq!(section[0].content_size, TEST_FILE_SEC1_CONTENTS.1);
            assert_eq!(section[0].content, TEST_FILE_SEC1_CONTENTS.2);
            assert_eq!(section[1].tag, TEST_FILE_SEC2_CONTENTS.0);
            assert_eq!(section[1].content_size, TEST_FILE_SEC2_CONTENTS.1);
            assert_eq!(section[1].content, TEST_FILE_SEC2_CONTENTS.2);
            Ok(())
        }
        Err(err) => Err(format!("Error: {}", err.to_string())),
    }
}

#[test]
fn test_read_section_content_error_type() -> Result<(), String> {
    match read_section_content(&test_non_section_image()) {
        Ok(_) => Err("No error returned.".to_owned()),
        Err(err) => match err {
            DATError::IncorrectType(_) => Ok(()),
            _ => Err(format!("Incorrect error: {}", err.to_string())),
        },
    }
}

// --- Section

#[test]
fn test_section_new() -> Result<(), String> {
    match Section::new("T".to_string(), "Test".to_string()) {
        Ok(section) => {
            assert_eq!(section.tag, "T");
            assert_eq!(section.content_size, 5);
            assert_eq!(section.content, "Test");
            Ok(())
        }
        Err(err) => Err(format!("Error: {}", err.to_string())),
    }
}

#[test]
fn test_section_new_error_title_size() -> Result<(), String> {
    match Section::new("Too long".to_string(), "Test".to_string()) {
        Ok(_) => Err("No error returned".to_owned()),
        Err(err) => match err {
            DATError::InvalidInput(_) => Ok(()),
            _ => Err(format!("Incorrect error: {}", err.to_string())),
        },
    }
}

#[test]
fn test_section_new_error_content_size() -> Result<(), String> {
    match Section::new("T".to_string(), (0..u16::MAX).map(|_| "X").collect()) {
        Ok(_) => Err("No error returned".to_owned()),
        Err(err) => match err {
            DATError::Overflow(_) => Ok(()),
            _ => Err(format!("Incorrect error: {}", err.to_string())),
        },
    }
}

#[test]
fn test_section_from_bytes() -> Result<(), String> {
    match Section::try_from(&TEST_SEC[..]) {
        Ok(section) => {
            assert_eq!(section.tag, TEST_SEC_CONTENTS.0);
            assert_eq!(section.content_size, TEST_SEC_CONTENTS.1);
            assert_eq!(section.content, TEST_SEC_CONTENTS.2);
            Ok(())
        }
        Err(err) => Err(format!("Error: {}", err.to_string())),
    }
}

#[test]
fn test_section_from_bytes_error_overflow() -> Result<(), String> {
    match Section::try_from(&TEST_SEC_TOO_LONG[..]) {
        Ok(_) => Err("No error returned.".to_owned()),
        Err(err) => match err {
            DATError::Overflow(_) => Ok(()),
            _ => Err(format!("Incorrect error: {}", err.to_string())),
        },
    }
}

#[test]
fn test_section_from_bytes_error_underflow() -> Result<(), String> {
    match Section::try_from(&TEST_SEC_TOO_SHORT[..]) {
        Ok(_) => Err("No error returned.".to_owned()),
        Err(err) => match err {
            DATError::Underflow(_) => Ok(()),
            _ => Err(format!("Incorrect error: {}", err.to_string())),
        },
    }
}

#[test]
fn test_section_from_bytes_error_encoding() -> Result<(), String> {
    match Section::try_from(&TEST_SEC_NOT_UTF8[..]) {
        Ok(_) => Err("No error returned.".to_owned()),
        Err(err) => match err {
            DATError::BadEncoding(_) => Ok(()),
            _ => Err(format!("Incorrect error: {}", err.to_string())),
        },
    }
}

#[test]
fn test_section_to_bytes() -> Result<(), String> {
    let sec_bytes = Vec::<u8>::from(Section {
        tag: TEST_SEC_CONTENTS.0.to_owned(),
        content_size: TEST_SEC_CONTENTS.1,
        content: TEST_SEC_CONTENTS.2.to_owned(),
    });
    Ok(assert_eq!(sec_bytes, TEST_SEC))
}

#[test]
fn test_section_to_sectiondata() -> Result<(), String> {
    let test_sec = Section {
        tag: TEST_SEC_CONTENTS.0.to_owned(),
        content_size: TEST_SEC_CONTENTS.1,
        content: TEST_SEC_CONTENTS.2.to_owned(),
    };
    let sec_data = SectionData::from(&test_sec);
    assert_eq!(sec_data.tag, TEST_SEC_CONTENTS.0);
    assert_eq!(sec_data.content_size, TEST_SEC_CONTENTS.1);
    assert_eq!(sec_data.content, TEST_SEC_CONTENTS.2);
    Ok(())
}

// --- SectionData

#[test]
fn test_sectiondata_new() -> Result<(), String> {
    match SectionData::new("T", "Test") {
        Ok(section) => {
            assert_eq!(section.tag, "T");
            assert_eq!(section.content_size, 5);
            assert_eq!(section.content, "Test");
            Ok(())
        }
        Err(err) => Err(format!("Error: {}", err.to_string())),
    }
}

#[test]
fn test_sectiondata_new_error_title_size() -> Result<(), String> {
    match SectionData::new("Too long", "Test") {
        Ok(_) => Err("No error returned".to_owned()),
        Err(err) => match err {
            DATError::InvalidInput(_) => Ok(()),
            _ => Err(format!("Incorrect error: {}", err.to_string())),
        },
    }
}

#[test]
fn test_sectiondata_new_error_content_size() -> Result<(), String> {
    match SectionData::new("T", &(0..u16::MAX).map(|_| "X").collect::<String>()) {
        Ok(_) => Err("No error returned".to_owned()),
        Err(err) => match err {
            DATError::Overflow(_) => Ok(()),
            _ => Err(format!("Incorrect error: {}", err.to_string())),
        },
    }
}

#[test]
fn test_sectiondata_from_bytes() -> Result<(), String> {
    match SectionData::try_from(&TEST_SEC[..]) {
        Ok(section) => {
            assert_eq!(section.tag, TEST_SEC_CONTENTS.0);
            assert_eq!(section.content_size, TEST_SEC_CONTENTS.1);
            assert_eq!(section.content, TEST_SEC_CONTENTS.2);
            Ok(())
        }
        Err(err) => Err(format!("Error: {}", err.to_string())),
    }
}

#[test]
fn test_sectiondata_from_bytes_error_overflow() -> Result<(), String> {
    match SectionData::try_from(&TEST_SEC_TOO_LONG[..]) {
        Ok(_) => Err("No error returned.".to_owned()),
        Err(err) => match err {
            DATError::Overflow(_) => Ok(()),
            _ => Err(format!("Incorrect error: {}", err.to_string())),
        },
    }
}

#[test]
fn test_sectiondata_from_bytes_error_underflow() -> Result<(), String> {
    match SectionData::try_from(&TEST_SEC_TOO_SHORT[..]) {
        Ok(_) => Err("No error returned.".to_owned()),
        Err(err) => match err {
            DATError::Underflow(_) => Ok(()),
            _ => Err(format!("Incorrect error: {}", err.to_string())),
        },
    }
}

#[test]
fn test_sectiondata_from_bytes_error_encoding() -> Result<(), String> {
    match SectionData::try_from(&TEST_SEC_NOT_UTF8[..]) {
        Ok(_) => Err("No error returned.".to_owned()),
        Err(err) => match err {
            DATError::BadEncoding(_) => Ok(()),
            _ => Err(format!("Incorrect error: {}", err.to_string())),
        },
    }
}

#[test]
fn test_sectiondata_to_bytes() -> Result<(), String> {
    let sec_bytes = Vec::<u8>::from(SectionData {
        tag: TEST_SEC_CONTENTS.0,
        content_size: TEST_SEC_CONTENTS.1,
        content: TEST_SEC_CONTENTS.2,
    });
    Ok(assert_eq!(sec_bytes, TEST_SEC))
}

#[test]
fn test_sectiondata_to_section() -> Result<(), String> {
    let test_sec = SectionData {
        tag: TEST_SEC_CONTENTS.0,
        content_size: TEST_SEC_CONTENTS.1,
        content: TEST_SEC_CONTENTS.2,
    };
    let section = Section::from(&test_sec);
    assert_eq!(section.tag, TEST_SEC_CONTENTS.0);
    assert_eq!(section.content_size, TEST_SEC_CONTENTS.1);
    assert_eq!(section.content, TEST_SEC_CONTENTS.2);
    Ok(())
}

// --- What the fixtures above do not reach

#[test]
fn test_section_of_title_is_nine_bytes() {
    let section = Section::new("T".to_string(), "Title".to_string()).unwrap();
    assert_eq!(section.content_size, 6);
    let bytes = Vec::<u8>::from(section);
    assert_eq!(bytes, [b'T', 6, 0, b'T', b'i', b't', b'l', b'e', 0]);
    assert_eq!(bytes.len(), 9);
}

#[test]
fn test_section_round_trip() {
    for (tag, content) in [("L", ""), ("T", "Title"), ("K", "03F"), ("L", "/echo h\u{e9}llo \u{2764}")] {
        let section = Section::new(tag.to_string(), content.to_string()).unwrap();
        let bytes = Vec::<u8>::from(section.clone());
        assert_eq!(Section::try_from(&bytes[..]).unwrap(), section);
        let data = SectionData::try_from(&bytes[..]).unwrap();
        assert_eq!(data, SectionData::from(&section));
        assert_eq!(as_section_vec(&bytes).unwrap(), vec![data]);
    }
}

#[test]
fn test_section_counts_bytes_not_characters() {
    let section = SectionData::new("L", "\u{2764}").unwrap();
    assert_eq!(section.content_size, 4);
    assert_eq!(
        SectionData::new("\u{e9}", "x").unwrap_err().kind(),
        ErrorKind::InvalidInput
    );
    assert_eq!(SectionData::new("", "x").unwrap_err().kind(), ErrorKind::InvalidInput);
}

#[test]
fn test_section_of_longest_content() {
    let content: String = (0..u16::MAX - 1).map(|_| "X").collect();
    let section = Section::new("T".to_string(), content).unwrap();
    assert_eq!(section.content_size, u16::MAX);
    let bytes = Vec::<u8>::from(section.clone());
    assert_eq!(bytes.len(), 3 + 65535);
    assert_eq!(Section::try_from(&bytes[..]).unwrap(), section);
}

#[test]
fn test_decode_section_edges() {
    assert_eq!(as_section(&[]).unwrap_err().kind(), ErrorKind::Underflow);
    assert_eq!(as_section(&[0x41, 1]).unwrap_err().kind(), ErrorKind::Underflow);
    assert_eq!(as_section(&[0x41, 0, 0]).unwrap_err().kind(), ErrorKind::Underflow);
    assert_eq!(as_section(&[0x41, 1, 0]).unwrap_err().kind(), ErrorKind::Underflow);
    let empty = as_section(&[0x41, 1, 0, 0]).unwrap();
    assert_eq!(empty.content, "");
    assert_eq!(empty.content_size, 1);
    // The last byte must be the closing zero byte.
    assert_eq!(
        as_section(&[0x41, 2, 0, 0x42, 0x43]).unwrap_err().kind(),
        ErrorKind::Overflow
    );
    // The content size is a little-endian number.
    let mut long = vec![0x41, 0x01, 0x01];
    long.extend_from_slice(&[b'x'; 256]);
    long.push(0);
    assert_eq!(as_section(&long).unwrap().content_size, 257);
    // A content that is not UTF-8.
    assert_eq!(
        as_section(&[0x41, 2, 0, 0xff, 0]).unwrap_err().kind(),
        ErrorKind::BadEncoding
    );
}

#[test]
fn test_decoded_text_is_the_text_of_the_bytes() {
    let bytes = [b'L', 4, 0, 0xe2, 0x9d, 0xa4, 0];
    let section = as_section(&bytes).unwrap();
    assert_eq!(section.content, "\u{2764}");
    assert_eq!(section.content.chars().count(), 1);
    assert_eq!(section.tag, "L");
}

#[test]
fn test_as_section_vec_edges() {
    assert_eq!(as_section_vec(&[]).unwrap(), vec![]);
    // Two bytes are no header.
    assert_eq!(as_section_vec(&[0x41, 1]).unwrap_err().kind(), ErrorKind::Underflow);
    // The second section is cut off.
    let mut bytes = TEST_SEC.to_vec();
    bytes.extend_from_slice(&TEST_SEC[..5]);
    assert_eq!(as_section_vec(&bytes).unwrap_err().kind(), ErrorKind::Underflow);
    // A content size of zero.
    assert_eq!(as_section_vec(&[0x41, 0, 0, 0]).unwrap_err().kind(), ErrorKind::Underflow);
    // A tag that is not UTF-8.
    assert_eq!(
        as_section_vec(&TEST_SEC_NOT_UTF8).unwrap_err().kind(),
        ErrorKind::BadEncoding
    );
    // Two sections, one behind the other.
    let mut bytes = TEST_SEC.to_vec();
    bytes.extend_from_slice(&[0x42, 1, 0, 0]);
    let sections = as_section_vec(&bytes).unwrap();
    assert_eq!(sections.len(), 2);
    assert_eq!(sections[1].tag, "B");
    assert_eq!(sections[1].content, "");
}

#[test]
fn test_get_section_header_contents() {
    let (tag, content_size) = get_section_header_contents(&[97, 1, 0]).unwrap();
    assert_eq!(tag, "a");
    assert_eq!(content_size, 1);
    let (_, content_size) = get_section_header_contents(&[97, 0x34, 0x12]).unwrap();
    assert_eq!(content_size, 0x1234);
    assert_eq!(
        get_section_header_contents(&[0x80, 1, 0]).unwrap_err().kind(),
        ErrorKind::BadEncoding
    );
}

#[test]
fn test_types_that_hold_sections() {
    assert_eq!(
        SECTION_BASED_TYPES,
        [
            DATType::RecentTells,
            DATType::Keybind,
            DATType::Macro,
            DATType::Macro,
            DATType::Unknown
        ]
    );
    assert!(holds_sections(DATType::Macro));
    assert!(holds_sections(DATType::Keybind));
    assert!(holds_sections(DATType::RecentTells));
    assert!(holds_sections(DATType::Unknown));
    assert!(!holds_sections(DATType::Gearset));
    assert!(!holds_sections(DATType::Hotbar));
    assert!(!holds_sections(DATType::LogFilter));
}

#[test]
fn test_read_sections_one_by_one() {
    let mut dat_file = DATFile::open(test_file_image()).unwrap();
    let first = read_section(&mut dat_file).unwrap();
    assert_eq!(first.content, TEST_FILE_SEC1_CONTENTS.2);
    assert_eq!(dat_file.raw_position(), 17 + 27);
    let second = read_section(&mut dat_file).unwrap();
    assert_eq!(second.tag, TEST_FILE_SEC2_CONTENTS.0);
    assert_eq!(second.content_size, TEST_FILE_SEC2_CONTENTS.1);
    assert_eq!(second.content, TEST_FILE_SEC2_CONTENTS.2);
    assert_eq!(dat_file.raw_position(), 17 + 52);
    assert_eq!(read_section(&mut dat_file).unwrap_err().kind(), ErrorKind::EndOfFile);
}

#[test]
fn test_read_section_unsafe_ignores_type() {
    let mut dat_file = DATFile::open(test_non_section_image()).unwrap();
    let first = read_section_unsafe(&mut dat_file).unwrap();
    assert_eq!(first.content, TEST_FILE_SEC1_CONTENTS.2);
    let sections = read_section_content_unsafe(&test_non_section_image()).unwrap();
    assert_eq!(sections.len(), 2);
    assert_eq!(sections[1].content, TEST_FILE_SEC2_CONTENTS.2);
}

#[test]
fn test_read_section_errors() {
    // The content ends inside the content of the section.
    let mut bytes = section_bytes("T", "Title");
    bytes.truncate(6);
    let mut dat_file = DATFile::open(image(0, 32, 0xFF, 0, &bytes)).unwrap();
    assert_eq!(read_section(&mut dat_file).unwrap_err().kind(), ErrorKind::EndOfFile);
    // A tag that is not UTF-8.
    let mut dat_file = DATFile::open(image(0, 32, 0xFF, 0, &TEST_SEC_NOT_UTF8)).unwrap();
    assert_eq!(read_section(&mut dat_file).unwrap_err().kind(), ErrorKind::BadEncoding);
    assert_eq!(dat_file.raw_position(), 20);
    // A content size of zero.
    let mut dat_file = DATFile::open(image(0, 32, 0xFF, 0, &[0x41, 0, 0, 0])).unwrap();
    assert_eq!(read_section(&mut dat_file).unwrap_err().kind(), ErrorKind::Underflow);
    // A content that is not UTF-8.
    let mut dat_file = DATFile::open(image(0, 32, 0xFF, 0, &[0x41, 2, 0, 0xff, 0])).unwrap();
    assert_eq!(read_section(&mut dat_file).unwrap_err().kind(), ErrorKind::BadEncoding);
    assert_eq!(dat_file.raw_position(), 22);
}

#[test]
fn test_read_section_content_errors() {
    // An image too short for a header.
    assert_eq!(
        read_section_content(&[0u8; 3]).unwrap_err().kind(),
        ErrorKind::EndOfFile
    );
    // A container without content has no first section.
    assert_eq!(
        read_section_content(&image(0, 64, 0xFF, 0, b"")).unwrap_err().kind(),
        ErrorKind::EndOfFile
    );
    // A text that is not UTF-8, in the first section and in the second.
    let mut content = test_file_content();
    content[5] = 0xff;
    assert_eq!(
        read_section_content(&image(0, 64, 0xFF, 0, &content)).unwrap_err().kind(),
        ErrorKind::BadEncoding
    );
    let mut content = test_file_content();
    content[27] = 0xff;
    assert_eq!(
        read_section_content(&image(0, 64, 0xFF, 0, &content)).unwrap_err().kind(),
        ErrorKind::BadEncoding
    );
}

#[test]
fn test_read_section_content_stops_at_end_of_content() {
    // The second section is cut off: the first is all that is read.
    let mut content = test_file_content();
    content.truncate(40);
    let sections = read_section_content(&image(0, 64, 0xFF, 0, &content)).unwrap();
    assert_eq!(sections.len(), 1);
    assert_eq!(sections[0].content, TEST_FILE_SEC1_CONTENTS.2);
    // Sections are read by the sizes they declare: what stands in the place
    // of the closing zero byte is passed over.
    let mut content = test_file_content();
    content[26] = 0x41;
    let sections = read_section_content(&image(0, 64, 0xFF, 0, &content)).unwrap();
    assert_eq!(sections.len(), 2);
    assert_eq!(sections[1].content, TEST_FILE_SEC2_CONTENTS.2);
    // Decoding the same content at once finds the fault.
    assert_eq!(as_section_vec(&content).unwrap_err().kind(), ErrorKind::Overflow);
}
