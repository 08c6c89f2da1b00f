use libxivdat::dat_error::{DATError, ErrorKind};
use libxivdat::dat_type::{
    get_default_end_byte_for_type, get_default_max_size_for_type, get_mask_for_type, DATType,
};

const ALL_TYPES: [DATType; 11] = [
    DATType::Gearset,
    DATType::GoldSaucer,
    DATType::Hotbar,
    DATType::ItemFinder,
    DATType::ItemOrder,
    DATType::Keybind,
    DATType::LogFilter,
    DATType::Macro,
    DATType::RecentTells,
    DATType::UISave,
    DATType::Unknown,
];

#[test]
fn test_type_is_found_from_its_code() {
    for dat_type in ALL_TYPES {
        assert_eq!(DATType::from(dat_type.code()), dat_type);
    }
}

#[test]
fn test_codes_of_types() {
    assert_eq!(DATType::Gearset.code(), 0x006b0005);
    assert_eq!(DATType::GoldSaucer.code(), 0x0067000A);
    assert_eq!(DATType::Hotbar.code(), 0x00040002);
    assert_eq!(DATType::ItemFinder.code(), 0x00CA0008);
    assert_eq!(DATType::ItemOrder.code(), 0x00670007);
    assert_eq!(DATType::Keybind.code(), 0x00650003);
    assert_eq!(DATType::LogFilter.code(), 0x00030004);
    assert_eq!(DATType::Macro.code(), 0x00020001);
    assert_eq!(DATType::RecentTells.code(), 0x00640006);
    assert_eq!(DATType::UISave.code(), 0x00010009);
    assert_eq!(DATType::Unknown.code(), 0);
}

#[test]
fn test_unregistered_code_is_unknown() {
    assert_eq!(DATType::from(1), DATType::Unknown);
    assert_eq!(DATType::from(0x00020002), DATType::Unknown);
    assert_eq!(DATType::from(u32::MAX), DATType::Unknown);
}

#[test]
fn test_file_name_aliases() {
    assert_eq!(DATType::ACQ, DATType::RecentTells);
    assert_eq!(DATType::GEARSET, DATType::Gearset);
    assert_eq!(DATType::GS, DATType::GoldSaucer);
    assert_eq!(DATType::ITEMFDR, DATType::ItemFinder);
    assert_eq!(DATType::ITEMODR, DATType::ItemOrder);
    assert_eq!(DATType::KEYBIND, DATType::Keybind);
    assert_eq!(DATType::LOGFLTR, DATType::LogFilter);
    assert_eq!(DATType::MACRO, DATType::Macro);
    assert_eq!(DATType::MACROSYS, DATType::Macro);
    assert_eq!(DATType::UISAVE, DATType::UISave);
}

#[test]
fn test_masks() {
    assert_eq!(get_mask_for_type(&DATType::Macro), Some(0x73));
    assert_eq!(get_mask_for_type(&DATType::Gearset), Some(0x73));
    assert_eq!(get_mask_for_type(&DATType::Hotbar), Some(0x31));
    assert_eq!(get_mask_for_type(&DATType::UISave), Some(0x31));
    assert_eq!(get_mask_for_type(&DATType::LogFilter), None);
    assert_eq!(get_mask_for_type(&DATType::Unknown), None);
}

#[test]
fn test_default_end_bytes() {
    assert_eq!(get_default_end_byte_for_type(&DATType::Macro), Some(0xFF));
    assert_eq!(get_default_end_byte_for_type(&DATType::Hotbar), Some(0x31));
    assert_eq!(get_default_end_byte_for_type(&DATType::UISave), Some(0x21));
    assert_eq!(get_default_end_byte_for_type(&DATType::LogFilter), None);
    assert_eq!(get_default_end_byte_for_type(&DATType::Unknown), None);
}

#[test]
fn test_default_max_sizes() {
    assert_eq!(get_default_max_size_for_type(&DATType::Gearset), Some(44849));
    assert_eq!(get_default_max_size_for_type(&DATType::GoldSaucer), Some(649));
    assert_eq!(get_default_max_size_for_type(&DATType::Hotbar), Some(204800));
    assert_eq!(get_default_max_size_for_type(&DATType::ItemFinder), Some(14030));
    assert_eq!(get_default_max_size_for_type(&DATType::ItemOrder), Some(15193));
    assert_eq!(get_default_max_size_for_type(&DATType::Keybind), Some(20480));
    assert_eq!(get_default_max_size_for_type(&DATType::Macro), Some(286720));
    assert_eq!(get_default_max_size_for_type(&DATType::RecentTells), Some(2048));
    assert_eq!(get_default_max_size_for_type(&DATType::UISave), Some(64512));
    assert_eq!(get_default_max_size_for_type(&DATType::LogFilter), None);
    assert_eq!(get_default_max_size_for_type(&DATType::Unknown), None);
}

#[test]
fn test_error_messages() {
    assert_eq!(
        DATError::BadEncoding("a").to_string(),
        "Invalid text encoding: a"
    );
    assert_eq!(DATError::BadHeader("b").to_string(), "Invalid header data: b");
    assert_eq!(DATError::Overflow("c").to_string(), "Content overflow: c");
    assert_eq!(DATError::Underflow("d").to_string(), "Content underflow: d");
    assert_eq!(DATError::EndOfFile("e").to_string(), "Unexpected EOF: e");
    assert_eq!(DATError::FileIO("f").to_string(), "File IO error: f");
    assert_eq!(
        DATError::IncorrectType("g").to_string(),
        "Incorrect DAT file type: g"
    );
    assert_eq!(DATError::InvalidInput("h").to_string(), "Invalid input: h");
}

#[test]
fn test_error_kinds() {
    assert_eq!(DATError::BadEncoding("").kind(), ErrorKind::BadEncoding);
    assert_eq!(DATError::BadHeader("").kind(), ErrorKind::BadHeader);
    assert_eq!(DATError::Overflow("").kind(), ErrorKind::Overflow);
    assert_eq!(DATError::Underflow("").kind(), ErrorKind::Underflow);
    assert_eq!(DATError::EndOfFile("").kind(), ErrorKind::EndOfFile);
    assert_eq!(DATError::FileIO("").kind(), ErrorKind::FileIO);
    assert_eq!(DATError::IncorrectType("").kind(), ErrorKind::IncorrectType);
    assert_eq!(DATError::InvalidInput("").kind(), ErrorKind::InvalidInput);
}
