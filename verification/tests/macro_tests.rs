use libxivdat::dat_error::{DATError, ErrorKind};
use libxivdat::dat_file::{read_content, write_content, DATFile};
use libxivdat::dat_type::DATType;
use libxivdat::high_level::{AsBytes, Validate};
use libxivdat::section::{Section, SectionData};
use libxivdat::xiv_macro::icon::{macro_icon_from_key_and_id, macro_icon_to_key_and_id, MacroIcon};
use libxivdat::xiv_macro::{
    as_macro, as_macro_vec, as_writeable_bytes, as_writeable_bytes_unsafe, read_macro,
    read_macro_content, read_macro_content_unsafe, read_macro_unsafe, to_writeable_bytes,
    to_writeable_bytes_unsafe, write_macro_content, Macro, MacroData, EXPECTED_ITEM_COUNT,
    SECTION_TAG_ICON, SECTION_TAG_KEY, SECTION_TAG_LINE, SECTION_TAG_TITLE,
};

const SOME_ICONS: [MacroIcon; 8] = [
    MacroIcon::DefaultIcon,
    MacroIcon::DPS1,
    MacroIcon::DPS2,
    MacroIcon::DPS3,
    MacroIcon::Tank1,
    MacroIcon::ItemHammer,
    MacroIcon::SymbolCheck,
    MacroIcon::CrystalWater,
];

/// The image of a file: a header, the content with its mask on, and zeros up
/// to `max_size + 32` bytes.
fn image(type_code: u32, max_size: u32, end_byte: u8, mask: u8, content: &[u8]) -> Vec<u8> {
    let mut bytes = Vec::new();
    bytes.extend_from_slice(&type_code.to_le_bytes());
    bytes.extend_from_slice(&max_size.to_le_bytes());
    bytes.extend_from_slice(&(content.len() as u32 + 1).to_le_bytes());
    bytes.extend_from_slice(&[0, 0, 0, 0]);
    bytes.push(end_byte);
    for byte in content {
        bytes.push(byte ^ mask);
    }
    bytes.resize(max_size as usize + 32, 0);
    bytes
}

/// The bytes of a section, put together by hand.
fn section_bytes(tag: &str, content: &str) -> Vec<u8> {
    let mut bytes = Vec::new();
    bytes.extend_from_slice(tag.as_bytes());
    bytes.extend_from_slice(&(content.len() as u16 + 1).to_le_bytes());
    bytes.extend_from_slice(content.as_bytes());
    bytes.push(0);
    bytes
}

/// The bytes of a macro of 15 lines, put together by hand.
fn macro_bytes(title: &str, id: &str, key: &str, first_line: &str) -> Vec<u8> {
    let mut bytes = section_bytes("T", title);
    bytes.extend_from_slice(&section_bytes("I", id));
    bytes.extend_from_slice(&section_bytes("K", key));
    bytes.extend_from_slice(&section_bytes("L", first_line));
    for _ in 1..15 {
        bytes.extend_from_slice(&section_bytes("L", ""));
    }
    bytes
}

/// The content of the test file: 100 macros. Each has its number for a
/// title and the name of its icon for a first line.
fn test_file_content() -> Vec<u8> {
    let mut content = Vec::new();
    for number in 0..100 {
        let icon = SOME_ICONS[number % SOME_ICONS.len()];
        let (key, id) = macro_icon_to_key_and_id(&icon);
        content.extend_from_slice(&macro_bytes(
            &format!("{}", number),
            id,
            key,
            &format!("{:?}", icon),
        ));
    }
    content
}

/// A macro file that holds 100 macros.
fn test_file_image() -> Vec<u8> {
    image(0x0002_0001, 286720, 0xFF, 0x73, &test_file_content())
}

// --- Module Functions

#[test]
fn test_as_macro() -> Result<(), String> {
    let mut dat_file = match DATFile::open(test_file_image()) {
        Ok(dat_file) => dat_file,
        Err(err) => return Err(format!("Error opening file: {}", err.to_string())),
    };
    let a_macro = match read_macro(&mut dat_file) {
        Ok(a_macro) => a_macro,
        Err(err) => return Err(format!("Error reading test macro: {}", err.to_string())),
    };
    let macro_bytes = match a_macro.as_bytes() {
        Ok(macro_bytes) => macro_bytes,
        Err(err) => return Err(format!("Error converting test macro to bytes: {}", err.to_string())),
    };
    match as_macro(&macro_bytes) {
        Ok(macro_data) => {
            assert_eq!(macro_data.title, "0");
            assert_eq!(macro_data.lines[0], "DefaultIcon");
            assert_eq!(macro_data.get_icon().unwrap(), MacroIcon::DefaultIcon);
            Ok(())
        }
        Err(err) => Err(format!("Error: {}", err.to_string())),
    }
}

#[test]
fn test_as_macro_vec() -> Result<(), String> {
    let macro_bytes = match read_content(&test_file_image()) {
        Ok(macro_bytes) => macro_bytes,
        Err(err) => return Err(format!("Error opening file: {}", err.to_string())),
    };
    match as_macro_vec(&macro_bytes) {
        Ok(macro_data) => {
            assert_eq!(macro_data[0].title, "0");
            assert_eq!(macro_data[0].lines[0], "DefaultIcon");
            assert_eq!(macro_data[0].get_icon().unwrap(), MacroIcon::DefaultIcon);
            assert_eq!(macro_data.len(), EXPECTED_ITEM_COUNT);
            Ok(())
        }
        Err(err) => Err(format!("Error: {}", err.to_string())),
    }
}

#[test]
fn test_as_writeable_bytes() -> Result<(), String> {
    let macro_bytes = match read_content(&test_file_image()) {
        Ok(macro_bytes) => macro_bytes,
        Err(err) => return Err(format!("Error opening file: {}", err.to_string())),
    };
    let macro_vec = match as_macro_vec(&macro_bytes) {
        Ok(macro_vec) => macro_vec,
        Err(err) => return Err(format!("Error vectorizing macros: {}", err.to_string())),
    };
    match as_writeable_bytes(&macro_vec) {
        Ok(bytes) => Ok(assert_eq!(bytes, macro_bytes)),
        Err(err) => Err(format!("Error: {}", err.to_string())),
    }
}

#[test]
fn test_as_writeable_bytes_padding() -> Result<(), String> {
    let macro_bytes = match read_content(&test_file_image()) {
        Ok(macro_bytes) => macro_bytes,
        Err(err) => return Err(format!("Error opening file: {}", err.to_string())),
    };
    let macro_vec = match as_macro_vec(&macro_bytes) {
        Ok(macro_vec) => macro_vec,
        Err(err) => return Err(format!("Error vectorizing macros: {}", err.to_string())),
    };
    let bytes = match as_writeable_bytes(&macro_vec[..50]) {
        Ok(bytes) => bytes,
        Err(err) => return Err(format!("Error converting to bytes: {}", err.to_string())),
    };
    match as_macro_vec(&bytes) {
        Ok(output_vec) => Ok(assert_eq!(output_vec.len(), EXPECTED_ITEM_COUNT)),
        Err(err) => Err(format!("Error: {}", err.to_string())),
    }
}

#[test]
fn test_as_writeable_bytes_error_count() -> Result<(), String> {
    let macro_bytes = match read_content(&test_file_image()) {
        Ok(macro_bytes) => macro_bytes,
        Err(err) => return Err(format!("Error opening file: {}", err.to_string())),
    };
    let mut macro_vec = match as_macro_vec(&macro_bytes) {
        Ok(macro_vec) => macro_vec,
        Err(err) => return Err(format!("Error vectorizing macros: {}", err.to_string())),
    };
    macro_vec.push(MacroData::new("", vec![""; 15], &MacroIcon::NoIcon).unwrap());
    match as_writeable_bytes(&macro_vec) {
        Ok(_) => Err("No error returned.".to_owned()),
        Err(err) => match err {
            DATError::Overflow(_) => Ok(()),
            _ => Err(format!("Incorrect error: {}", err.to_string())),
        },
    }
}

#[test]
fn test_read_macro() -> Result<(), String> {
    let mut dat_file = match DATFile::open(test_file_image()) {
        Ok(dat_file) => dat_file,
        Err(err) => return Err(format!("Error opening file: {}", err.to_string())),
    };
    match read_macro(&mut dat_file) {
        Ok(a_macro) => {
            assert_eq!(a_macro.title, "0");
            assert_eq!(a_macro.lines[0], "DefaultIcon");
            assert_eq!(a_macro.get_icon().unwrap(), MacroIcon::DefaultIcon);
            Ok(())
        }
        Err(err) => Err(format!("Error: {}", err.to_string())),
    }
}

#[test]
fn test_read_macro_content() -> Result<(), String> {
    match read_macro_content(&test_file_image()) {
        Ok(macro_vec) => {
            assert_eq!(macro_vec[0].title, "0");
            assert_eq!(macro_vec[0].lines[0], "DefaultIcon");
            assert_eq!(macro_vec[0].get_icon().unwrap(), MacroIcon::DefaultIcon);
            assert_eq!(macro_vec.len(), EXPECTED_ITEM_COUNT);
            Ok(())
        }
        Err(err) => Err(format!("Error: {}", err.to_string())),
    }
}

#[test]
fn test_to_writeable_bytes() -> Result<(), String> {
    let raw_bytes = match read_content(&test_file_image()) {
        Ok(macro_bytes) => macro_bytes,
        Err(err) => return Err(format!("Error reading file: {}", err.to_string())),
    };
    let macro_vec = match read_macro_content(&test_file_image()) {
        Ok(macro_vec) => macro_vec,
        Err(err) => return Err(format!("Error reading macros: {}", err.to_string())),
    };
    match to_writeable_bytes(&macro_vec) {
        Ok(bytes) => Ok(assert_eq!(bytes, raw_bytes)),
        Err(err) => Err(format!("Error: {}", err.to_string())),
    }
}

#[test]
fn test_to_writeable_bytes_padding() -> Result<(), String> {
    let macro_vec = match read_macro_content(&test_file_image()) {
        Ok(macro_vec) => macro_vec,
        Err(err) => return Err(format!("Error reading macros: {}", err.to_string())),
    };
    let bytes = match to_writeable_bytes(&macro_vec[..50]) {
        Ok(bytes) => bytes,
        Err(err) => return Err(format!("Error converting to bytes: {}", err.to_string())),
    };
    match as_macro_vec(&bytes) {
        Ok(output_vec) => Ok(assert_eq!(output_vec.len(), EXPECTED_ITEM_COUNT)),
        Err(err) => Err(format!("Error: {}", err.to_string())),
    }
}

#[test]
fn test_to_writeable_bytes_error_count() -> Result<(), String> {
    let mut macro_vec = match read_macro_content(&test_file_image()) {
        Ok(macro_vec) => macro_vec,
        Err(err) => return Err(format!("Error vectorizing macros: {}", err.to_string())),
    };
    macro_vec.push(Macro::new(String::new(), vec![String::new(); 15], MacroIcon::NoIcon).unwrap());
    match to_writeable_bytes(&macro_vec) {
        Ok(_) => Err("No error returned.".to_owned()),
        Err(err) => match err {
            DATError::Overflow(_) => Ok(()),
            _ => Err(format!("Incorrect error: {}", err.to_string())),
        },
    }
}

// --- MacroData

#[test]
fn test_macrodata_change_icon() -> Result<(), String> {
    let mut a_macro = MacroData::new("Title", vec!["Line"; 15], &MacroIcon::DefaultIcon).unwrap();
    assert_eq!(a_macro.get_icon().unwrap(), MacroIcon::DefaultIcon);
    a_macro.change_icon(&MacroIcon::SymbolCheck);
    assert_eq!(a_macro.get_icon().unwrap(), MacroIcon::SymbolCheck);
    Ok(())
}

#[test]
fn test_macrodata_from_sectiondata() -> Result<(), String> {
    let mut sec_vec = vec![
        SectionData::new("T", "Title").unwrap(),
        SectionData::new("I", "0000000").unwrap(),
        SectionData::new("K", "000").unwrap(),
    ];
    let mut line_vec = vec![SectionData::new("L", "Line").unwrap(); 15];
    sec_vec.append(&mut line_vec);
    match MacroData::from_section_data(sec_vec) {
        Ok(a_macro) => {
            assert_eq!(a_macro.title, "Title");
            assert_eq!(a_macro.lines[0], "Line");
            assert_eq!(a_macro.get_icon().unwrap(), MacroIcon::NoIcon);
            Ok(())
        }
        Err(err) => Err(format!("Error: {}", err.to_string())),
    }
}

#[test]
fn test_macrodata_from_sectiondata_error_title() -> Result<(), String> {
    let mut sec_vec = vec![
        SectionData::new("I", "0000000").unwrap(),
        SectionData::new("K", "000").unwrap(),
    ];
    let mut line_vec = vec![SectionData::new("L", "Line").unwrap(); 15];
    sec_vec.append(&mut line_vec);
    match MacroData::from_section_data(sec_vec) {
        Ok(_) => Err("No error returned.".to_owned()),
        Err(err) => match err {
            DATError::InvalidInput(_) => Ok(()),
            _ => Err(format!("Incorrect error: {}", err.to_string())),
        },
    }
}

#[test]
fn test_macrodata_from_sectiondata_error_icon_id() -> Result<(), String> {
    let mut sec_vec = vec![
        SectionData::new("T", "Title").unwrap(),
        SectionData::new("K", "000").unwrap(),
    ];
    let mut line_vec = vec![SectionData::new("L", "Line").unwrap(); 15];
    sec_vec.append(&mut line_vec);
    match MacroData::from_section_data(sec_vec) {
        Ok(_) => Err("No error returned.".to_owned()),
        Err(err) => match err {
            DATError::InvalidInput(_) => Ok(()),
            _ => Err(format!("Incorrect error: {}", err.to_string())),
        },
    }
}

#[test]
fn test_macrodata_from_sectiondata_error_icon_key() -> Result<(), String> {
    let mut sec_vec = vec![
        SectionData::new("T", "Title").unwrap(),
        SectionData::new("I", "0000000").unwrap(),
    ];
    let mut line_vec = vec![SectionData::new("L", "Line").unwrap(); 15];
    sec_vec.append(&mut line_vec);
    match MacroData::from_section_data(sec_vec) {
        Ok(_) => Err("No error returned.".to_owned()),
        Err(err) => match err {
            DATError::InvalidInput(_) => Ok(()),
            _ => Err(format!("Incorrect error: {}", err.to_string())),
        },
    }
}

#[test]
fn test_macrodata_from_sectiondata_error_no_lines() -> Result<(), String> {
    let sec_vec = vec![
        SectionData::new("T", "Title").unwrap(),
        SectionData::new("I", "0000000").unwrap(),
        SectionData::new("K", "000").unwrap(),
    ];
    match MacroData::from_section_data(sec_vec) {
        Ok(_) => Err("No error returned.".to_owned()),
        Err(err) => match err {
            DATError::InvalidInput(_) => Ok(()),
            _ => Err(format!("Incorrect error: {}", err.to_string())),
        },
    }
}

#[test]
fn test_macrodata_from_sectiondata_error_lines_interrupted() -> Result<(), String> {
    let mut sec_vec = vec![
        SectionData::new("T", "Title").unwrap(),
        SectionData::new("I", "0000000").unwrap(),
        SectionData::new("K", "000").unwrap(),
    ];
    let mut line_vec = vec![SectionData::new("L", "Line").unwrap(); 15];
    line_vec[1].tag = "I";
    sec_vec.append(&mut line_vec);
    match MacroData::from_section_data(sec_vec) {
        Ok(_) => Err("No error returned.".to_owned()),
        Err(err) => match err {
            DATError::InvalidInput(_) => Ok(()),
            _ => Err(format!("Incorrect error: {}", err.to_string())),
        },
    }
}

#[test]
fn test_macrodata_get_icon() -> Result<(), String> {
    let a_macro = MacroData::new("Title", vec!["Line"; 15], &MacroIcon::DefaultIcon).unwrap();
    assert_eq!(a_macro.get_icon().unwrap(), MacroIcon::DefaultIcon);
    Ok(())
}

#[test]
fn test_macrodata_get_icon_none() -> Result<(), String> {
    let a_macro = MacroData {
        icon_id: "1231234",
        icon_key: "XYZ",
        lines: vec![""; 15],
        title: "Title",
    };
    Ok(assert!(a_macro.get_icon().is_none()))
}

#[test]
fn test_macrodata_new() -> Result<(), String> {
    match MacroData::new("Title", vec!["Line"; 15], &MacroIcon::SymbolCheck) {
        Ok(a_macro) => {
            assert_eq!(a_macro.title, "Title");
            assert_eq!(a_macro.lines[0], "Line");
            let (icon_key, icon_id) = macro_icon_to_key_and_id(&MacroIcon::SymbolCheck);
            assert_eq!(a_macro.icon_id, icon_id);
            assert_eq!(a_macro.icon_key, icon_key);
            Ok(())
        }
        Err(err) => Err(format!("Error building macro: {}", err.to_string())),
    }
}

#[test]
fn test_macrodata_validate() -> Result<(), String> {
    let a_macro = MacroData::new("Title", vec!["Line"; 15], &MacroIcon::DefaultIcon).unwrap();
    Ok(assert!(a_macro.validate().is_none()))
}

#[test]
fn test_macrodata_validate_error_title() -> Result<(), String> {
    let a_macro = MacroData {
        icon_id: "0000000",
        icon_key: "000",
        lines: vec![""; 15],
        title: &std::iter::repeat("X").take(21).collect::<String>(),
    };
    match a_macro.validate() {
        Some(err) => match err {
            DATError::Overflow(_) => Ok(()),
            _ => Err(format!("Incorrect error: {}", err.to_string())),
        },
        None => Err("No error returned.".to_owned()),
    }
}

#[test]
fn test_macrodata_validate_error_icon() -> Result<(), String> {
    let a_macro = MacroData {
        icon_id: "0000000",
        icon_key: "XYZ",
        lines: vec![""; 15],
        title: "",
    };
    match a_macro.validate() {
        Some(err) => match err {
            DATError::InvalidInput(_) => Ok(()),
            _ => Err(format!("Incorrect error: {}", err.to_string())),
        },
        None => Err("No error returned.".to_owned()),
    }
}

#[test]
fn test_macro_validate_error_line_len() -> Result<(), String> {
    let long_line = std::iter::repeat("X").take(181).collect::<String>();
    let a_macro = MacroData {
        icon_id: "0000000",
        icon_key: "000",
        lines: vec![&long_line; 15],
        title: "",
    };
    match a_macro.validate() {
        Some(err) => match err {
            DATError::Overflow(_) => Ok(()),
            _ => Err(format!("Incorrect error: {}", err.to_string())),
        },
        None => Err("No error returned.".to_owned()),
    }
}

#[test]
fn test_macrodata_validate_error_line_count_high() -> Result<(), String> {
    let a_macro = MacroData {
        icon_id: "0000000",
        icon_key: "000",
        lines: vec![""; 16],
        title: "",
    };
    match a_macro.validate() {
        Some(err) => match err {
            DATError::Overflow(_) => Ok(()),
            _ => Err(format!("Incorrect error: {}", err.to_string())),
        },
        None => Err("No error returned.".to_owned()),
    }
}

#[test]
fn test_macrodata_validate_error_line_count_low() -> Result<(), String> {
    let a_macro = MacroData {
        icon_id: "0000000",
        icon_key: "000",
        lines: vec![""; 14],
        title: "",
    };
    match a_macro.validate() {
        Some(err) => match err {
            DATError::Underflow(_) => Ok(()),
            _ => Err(format!("Incorrect error: {}", err.to_string())),
        },
        None => Err("No error returned.".to_owned()),
    }
}

// --- What the fixtures above do not reach

const ALL_ICONS: [MacroIcon; 85] = [
    MacroIcon::NoIcon,
    MacroIcon::DefaultIcon,
    MacroIcon::DPS1,
    MacroIcon::DPS2,
    MacroIcon::DPS3,
    MacroIcon::Tank1,
    MacroIcon::Tank2,
    MacroIcon::Tank3,
    MacroIcon::Healer1,
    MacroIcon::Healer2,
    MacroIcon::Healer3,
    MacroIcon::CrafterPurple1,
    MacroIcon::CrafterPurple2,
    MacroIcon::CrafterPurple3,
    MacroIcon::CrafterYellow1,
    MacroIcon::CrafterYellow2,
    MacroIcon::CrafterYellow3,
    MacroIcon::CrafterGreen1,
    MacroIcon::CrafterGreen2,
    MacroIcon::CrafterGreen3,
    MacroIcon::ItemHammer,
    MacroIcon::ItemSword,
    MacroIcon::ItemShield,
    MacroIcon::ItemRing,
    MacroIcon::ItemShoes,
    MacroIcon::ItemHat,
    MacroIcon::ItemBottle,
    MacroIcon::ItemBread,
    MacroIcon::Gatherer1,
    MacroIcon::Gatherer2,
    MacroIcon::Gatherer3,
    MacroIcon::Number0,
    MacroIcon::Number1,
    MacroIcon::Number2,
    MacroIcon::Number3,
    MacroIcon::Number4,
    MacroIcon::Number5,
    MacroIcon::Number6,
    MacroIcon::Number7,
    MacroIcon::Number8,
    MacroIcon::Number9,
    MacroIcon::Number10,
    MacroIcon::InverseNumber0,
    MacroIcon::InverseNumber1,
    MacroIcon::InverseNumber2,
    MacroIcon::InverseNumber3,
    MacroIcon::InverseNumber4,
    MacroIcon::InverseNumber5,
    MacroIcon::InverseNumber6,
    MacroIcon::InverseNumber7,
    MacroIcon::InverseNumber8,
    MacroIcon::InverseNumber9,
    MacroIcon::InverseNumber10,
    MacroIcon::SymbolArrowLeft,
    MacroIcon::SymbolArrowRight,
    MacroIcon::SymbolArrowUp,
    MacroIcon::SymbolArrowDown,
    MacroIcon::SymbolCircle,
    MacroIcon::SymbolTriangle,
    MacroIcon::SymbolSquare,
    MacroIcon::SymbolX,
    MacroIcon::SymbolNo,
    MacroIcon::SymbolWarning,
    MacroIcon::SymbolCheck,
    MacroIcon::SymbolStar,
    MacroIcon::SymbolQuestion,
    MacroIcon::SymbolExclamation,
    MacroIcon::SymbolPlus,
    MacroIcon::SymbolMinus,
    MacroIcon::SymbolClock,
    MacroIcon::SymbolBulb,
    MacroIcon::SymbolCog,
    MacroIcon::SymbolSearch,
    MacroIcon::SymbolSpeech,
    MacroIcon::SymbolHeart,
    MacroIcon::SymbolSpade,
    MacroIcon::SymbolClub,
    MacroIcon::SymbolDiamond,
    MacroIcon::SymbolDice,
    MacroIcon::CrystalFire,
    MacroIcon::CrystalIce,
    MacroIcon::CrystalWind,
    MacroIcon::CrystalEarth,
    MacroIcon::CrystalLightning,
    MacroIcon::CrystalWater,
];

#[test]
fn test_every_icon_is_found_from_its_pair() {
    for (place, icon) in ALL_ICONS.iter().enumerate() {
        let (key, id) = macro_icon_to_key_and_id(icon);
        assert_eq!(key, format!("{:03X}", place));
        assert_eq!(id.len(), 7);
        assert_eq!(macro_icon_from_key_and_id(key, id), Some(*icon));
    }
}

#[test]
fn test_icon_pairs() {
    assert_eq!(macro_icon_to_key_and_id(&MacroIcon::ItemHammer), ("014", "00005E9"));
    assert_eq!(macro_icon_to_key_and_id(&MacroIcon::SymbolArrowUp), ("037", "00102FF"));
    assert_eq!(macro_icon_to_key_and_id(&MacroIcon::NoIcon), ("000", "0000000"));
    assert_eq!(macro_icon_from_key_and_id("014", "00005E9"), Some(MacroIcon::ItemHammer));
    assert_eq!(macro_icon_from_key_and_id("003", "0010236"), Some(MacroIcon::DPS2));
    assert_eq!(macro_icon_from_key_and_id("004", "0010237"), Some(MacroIcon::DPS3));
    assert_eq!(macro_icon_from_key_and_id("054", "0004E28"), Some(MacroIcon::CrystalWater));
    // A key with the id of another icon is no pair.
    assert_eq!(macro_icon_from_key_and_id("014", "000061B"), None);
    assert_eq!(macro_icon_from_key_and_id("14", "00005E9"), None);
    assert_eq!(macro_icon_from_key_and_id("", ""), None);
    assert_eq!(macro_icon_from_key_and_id("03f", "0010307"), None);
}

#[test]
fn test_tags() {
    assert_eq!(SECTION_TAG_TITLE, "T");
    assert_eq!(SECTION_TAG_ICON, "I");
    assert_eq!(SECTION_TAG_KEY, "K");
    assert_eq!(SECTION_TAG_LINE, "L");
}

#[test]
fn test_macro_new_pads_lines() {
    let a_macro = Macro::new(
        "Title".to_string(),
        vec!["Circle".to_string()],
        MacroIcon::SymbolCircle,
    )
    .unwrap();
    assert_eq!(a_macro.lines.len(), 15);
    assert_eq!(a_macro.lines[0], "Circle");
    assert!(a_macro.lines[1..].iter().all(|line| line.is_empty()));
    assert_eq!(a_macro.get_icon(), Some(MacroIcon::SymbolCircle));
    assert_eq!(a_macro.title, "Title");
    assert_eq!(a_macro.icon_key, "039");
    assert_eq!(a_macro.icon_id, "0010301");
    assert!(a_macro.validate().is_none());
}

#[test]
fn test_macro_new_errors() {
    let long_title: String = std::iter::repeat("X").take(21).collect();
    assert_eq!(
        Macro::new(long_title, vec![], MacroIcon::NoIcon).unwrap_err().kind(),
        ErrorKind::Overflow
    );
    assert_eq!(
        Macro::new(String::new(), vec![String::new(); 16], MacroIcon::NoIcon).unwrap_err().kind(),
        ErrorKind::Overflow
    );
    let long_line: String = std::iter::repeat("X").take(181).collect();
    assert_eq!(
        MacroData::new("", vec![&long_line], &MacroIcon::NoIcon).unwrap_err().kind(),
        ErrorKind::Overflow
    );
    let longest_title: String = std::iter::repeat("X").take(20).collect();
    let longest_line: String = std::iter::repeat("X").take(180).collect();
    assert!(MacroData::new(&longest_title, vec![&longest_line; 15], &MacroIcon::NoIcon).is_ok());
}

#[test]
fn test_lengths_are_counted_in_characters() {
    // Twenty characters of three bytes each.
    let title: String = std::iter::repeat("\u{2764}").take(20).collect();
    let a_macro = Macro::new(title, vec![], MacroIcon::DefaultIcon).unwrap();
    assert!(a_macro.validate().is_none());
    let title: String = std::iter::repeat("\u{2764}").take(21).collect();
    assert_eq!(
        Macro::new(title, vec![], MacroIcon::DefaultIcon).unwrap_err().kind(),
        ErrorKind::Overflow
    );
}

#[test]
fn test_validation_reports_the_first_violation() {
    let long_title: String = std::iter::repeat("X").take(21).collect();
    // A title that is too long comes before an icon that is none.
    let a_macro = Macro {
        icon_id: "123456".to_string(),
        icon_key: "XYZ".to_string(),
        lines: vec![String::new(); 1],
        title: long_title,
    };
    assert_eq!(a_macro.validate().unwrap().kind(), ErrorKind::Overflow);
    // An icon that is none comes before too few lines.
    let a_macro = Macro {
        icon_id: "123456".to_string(),
        icon_key: "XYZ".to_string(),
        lines: vec![String::new(); 1],
        title: String::new(),
    };
    assert_eq!(a_macro.validate().unwrap().kind(), ErrorKind::InvalidInput);
    // Too few lines come before a line that is too long.
    let long_line: String = std::iter::repeat("X").take(181).collect();
    let a_macro = Macro {
        icon_id: "0000000".to_string(),
        icon_key: "000".to_string(),
        lines: vec![long_line; 14],
        title: String::new(),
    };
    assert_eq!(a_macro.validate().unwrap().kind(), ErrorKind::Underflow);
}

#[test]
fn test_macro_change_icon() {
    let mut a_macro = Macro::new("Title".to_string(), Vec::new(), MacroIcon::NoIcon).unwrap();
    assert_eq!(a_macro.icon_id, "0000000");
    assert_eq!(a_macro.icon_key, "000");
    a_macro.change_icon(MacroIcon::SymbolArrowUp);
    assert_eq!(a_macro.icon_id, "00102FF");
    assert_eq!(a_macro.icon_key, "037");
    assert_eq!(a_macro.title, "Title");
    assert_eq!(a_macro.lines.len(), 15);
}

#[test]
fn test_macro_sections() {
    let a_macro = Macro::new(
        "Title".to_string(),
        vec!["one".to_string(), "two".to_string()],
        MacroIcon::ItemHammer,
    )
    .unwrap();
    let sections = a_macro.as_sections().unwrap();
    assert_eq!(sections.len(), 18);
    assert_eq!(sections[0], Section::new("T".to_string(), "Title".to_string()).unwrap());
    assert_eq!(sections[1], Section::new("I".to_string(), "00005E9".to_string()).unwrap());
    assert_eq!(sections[2], Section::new("K".to_string(), "014".to_string()).unwrap());
    assert_eq!(sections[3], Section::new("L".to_string(), "one".to_string()).unwrap());
    assert_eq!(sections[4], Section::new("L".to_string(), "two".to_string()).unwrap());
    assert_eq!(sections[17], Section::new("L".to_string(), String::new()).unwrap());
    let data = MacroData::from(&a_macro);
    let section_data = data.as_section_data().unwrap();
    assert_eq!(section_data.len(), 18);
    for (owned, borrowed) in sections.iter().zip(section_data.iter()) {
        assert_eq!(SectionData::from(owned), *borrowed);
    }
}

#[test]
fn test_macro_round_trip_through_sections() {
    let a_macro = Macro::new(
        "h\u{e9}llo".to_string(),
        vec!["/echo one".to_string(), "/wait 3".to_string()],
        MacroIcon::SymbolClock,
    )
    .unwrap();
    assert_eq!(Macro::from_sections(a_macro.as_sections().unwrap()).unwrap(), a_macro);
    assert_eq!(Macro::from_sections_unsafe(a_macro.as_sections().unwrap()).unwrap(), a_macro);
    let data = MacroData::from(&a_macro);
    assert_eq!(MacroData::from_section_data(data.as_section_data().unwrap()).unwrap(), data);
    assert_eq!(Macro::from(&data), a_macro);
    let bytes = a_macro.as_bytes().unwrap();
    assert_eq!(bytes, data.as_bytes().unwrap());
    assert_eq!(as_macro(&bytes).unwrap(), data);
}

#[test]
fn test_macro_bytes() {
    let a_macro = Macro::new("Title".to_string(), vec!["Circle".to_string()], MacroIcon::SymbolCircle)
        .unwrap();
    assert_eq!(
        a_macro.as_bytes().unwrap(),
        macro_bytes("Title", "0010301", "039", "Circle")
    );
}

#[test]
fn test_macro_with_oversized_line_has_no_bytes() {
    let a_macro = Macro {
        icon_id: "0000000".to_string(),
        icon_key: "000".to_string(),
        lines: vec![(0..u16::MAX).map(|_| "X").collect()],
        title: String::new(),
    };
    assert_eq!(a_macro.as_sections().unwrap_err().kind(), ErrorKind::Overflow);
    assert_eq!(a_macro.as_bytes().unwrap_err().kind(), ErrorKind::Overflow);
    assert_eq!(to_writeable_bytes_unsafe(&[a_macro]).unwrap_err().kind(), ErrorKind::Overflow);
}

#[test]
fn test_from_sections_unsafe_takes_any_number_of_lines() {
    let sections = vec![
        Section::new("T".to_string(), "Title".to_string()).unwrap(),
        Section::new("I".to_string(), "0000000".to_string()).unwrap(),
        Section::new("K".to_string(), "000".to_string()).unwrap(),
        Section::new("L".to_string(), "A one line macro!?".to_string()).unwrap(),
    ];
    let a_macro = Macro::from_sections_unsafe(sections.clone()).unwrap();
    assert_eq!(a_macro.title, "Title");
    assert_eq!(a_macro.icon_id, "0000000");
    assert_eq!(a_macro.icon_key, "000");
    assert_eq!(a_macro.lines, vec!["A one line macro!?".to_string()]);
    // The same sections are refused where the macro is checked.
    assert_eq!(Macro::from_sections(sections).unwrap_err().kind(), ErrorKind::Underflow);
}

#[test]
fn test_from_sections_errors() {
    let title = Section::new("T".to_string(), "Title".to_string()).unwrap();
    let id = Section::new("I".to_string(), "0000000".to_string()).unwrap();
    let key = Section::new("K".to_string(), "000".to_string()).unwrap();
    let line = Section::new("L".to_string(), String::new()).unwrap();
    let shaped = |sections: Vec<Section>| Macro::from_sections_unsafe(sections).map(|_| ());
    assert_eq!(shaped(vec![]).unwrap_err().kind(), ErrorKind::InvalidInput);
    assert_eq!(
        shaped(vec![title.clone(), id.clone(), key.clone()]).unwrap_err().kind(),
        ErrorKind::InvalidInput
    );
    assert_eq!(
        shaped(vec![title.clone(), key.clone(), id.clone(), line.clone()]).unwrap_err().kind(),
        ErrorKind::InvalidInput
    );
    assert_eq!(
        shaped(vec![line.clone(), id.clone(), key.clone(), line.clone()]).unwrap_err().kind(),
        ErrorKind::InvalidInput
    );
    assert_eq!(
        shaped(vec![title.clone(), id.clone(), key.clone(), line.clone(), title.clone()])
            .unwrap_err()
            .kind(),
        ErrorKind::InvalidInput
    );
    assert!(shaped(vec![title.clone(), id.clone(), key.clone(), line.clone()]).is_ok());
    // A pair that stands for no icon is refused where the macro is checked.
    let mut sections = vec![title, Section::new("I".to_string(), "0000001".to_string()).unwrap(), key];
    sections.extend(std::iter::repeat(line).take(15));
    assert!(Macro::from_sections_unsafe(sections.clone()).is_ok());
    assert_eq!(Macro::from_sections(sections).unwrap_err().kind(), ErrorKind::InvalidInput);
}

#[test]
fn test_as_macro_errors() {
    assert_eq!(as_macro(&[]).unwrap_err().kind(), ErrorKind::InvalidInput);
    assert_eq!(as_macro(&[b'T', 2, 0, b'x']).unwrap_err().kind(), ErrorKind::Underflow);
    let mut bytes = macro_bytes("Title", "0000000", "000", "line");
    bytes[0] = b'L';
    assert_eq!(as_macro(&bytes).unwrap_err().kind(), ErrorKind::InvalidInput);
}

#[test]
fn test_as_macro_vec_groups_at_titles() {
    let mut bytes = section_bytes("T", "one");
    bytes.extend_from_slice(&section_bytes("I", "0000000"));
    bytes.extend_from_slice(&section_bytes("K", "000"));
    bytes.extend_from_slice(&section_bytes("L", "a"));
    bytes.extend_from_slice(&section_bytes("T", "two"));
    bytes.extend_from_slice(&section_bytes("I", "00101D1"));
    bytes.extend_from_slice(&section_bytes("K", "001"));
    bytes.extend_from_slice(&section_bytes("L", "b"));
    bytes.extend_from_slice(&section_bytes("L", "c"));
    let macros = as_macro_vec(&bytes).unwrap();
    assert_eq!(macros.len(), 2);
    assert_eq!(macros[0].title, "one");
    assert_eq!(macros[0].lines, vec!["a"]);
    assert_eq!(macros[1].title, "two");
    assert_eq!(macros[1].lines, vec!["b", "c"]);
    assert_eq!(macros[1].get_icon(), Some(MacroIcon::DefaultIcon));
    assert_eq!(as_macro_vec(&[]).unwrap().len(), 0);
    // A title with nothing behind it is no macro.
    bytes.extend_from_slice(&section_bytes("T", "three"));
    assert_eq!(as_macro_vec(&bytes).unwrap_err().kind(), ErrorKind::InvalidInput);
    // Neither are sections before the first title.
    let mut bytes = section_bytes("L", "stray");
    bytes.extend_from_slice(&macro_bytes("Title", "0000000", "000", "line"));
    assert_eq!(as_macro_vec(&bytes).unwrap_err().kind(), ErrorKind::InvalidInput);
}

#[test]
fn test_fifty_macros_are_written_as_a_hundred() {
    let macros: Vec<Macro> = (0..50)
        .map(|number| {
            Macro::new(
                format!("Macro {}", number),
                vec![format!("/echo {}", number)],
                ALL_ICONS[number],
            )
            .unwrap()
        })
        .collect();
    let bytes = to_writeable_bytes(&macros).unwrap();
    let dat_file = DATFile::create_with_content(DATType::Macro, &bytes).unwrap();
    let read = read_macro_content(dat_file.as_bytes()).unwrap();
    assert_eq!(read.len(), 100);
    assert_eq!(&read[..50], &macros[..]);
    let blank = Macro::new(String::new(), Vec::new(), MacroIcon::NoIcon).unwrap();
    assert_eq!(blank.title, "");
    assert_eq!(blank.lines, vec![String::new(); 15]);
    assert_eq!(blank.get_icon(), Some(MacroIcon::NoIcon));
    for padding in &read[50..] {
        assert_eq!(*padding, blank);
    }
    // The same through an image that is written to and read from.
    let (written, count) = write_content(DATFile::create(DATType::Macro).unwrap().into_bytes(), &bytes)
        .unwrap();
    assert_eq!(count, bytes.len());
    assert_eq!(read_macro_content(&written).unwrap(), read);
    // And the same in one step, over a file that held other macros.
    let (written, count) = write_macro_content(test_file_image(), &macros).unwrap();
    assert_eq!(count, bytes.len());
    assert_eq!(read_content(&written).unwrap(), bytes);
    assert_eq!(read_macro_content(&written).unwrap(), read);
}

#[test]
fn test_write_macro_content_errors() {
    let good = Macro::new("Title".to_string(), Vec::new(), MacroIcon::DefaultIcon).unwrap();
    // More than a hundred macros.
    let many = vec![good.clone(); 101];
    assert_eq!(
        write_macro_content(test_file_image(), &many).unwrap_err().kind(),
        ErrorKind::Overflow
    );
    // A macro that the game does not accept.
    let few_lines = Macro {
        icon_id: "0000000".to_string(),
        icon_key: "000".to_string(),
        lines: vec![String::new(); 14],
        title: String::new(),
    };
    assert_eq!(
        write_macro_content(test_file_image(), &[good.clone(), few_lines]).unwrap_err().kind(),
        ErrorKind::Underflow
    );
    // An image that is no container.
    assert_eq!(
        write_macro_content(vec![0u8; 5], &[good.clone()]).unwrap_err().kind(),
        ErrorKind::EndOfFile
    );
    // A container that is too small for 100 macros.
    let small = image(0x0002_0001, 512, 0xFF, 0x73, b"");
    assert_eq!(write_macro_content(small, &[good]).unwrap_err().kind(), ErrorKind::Overflow);
}

#[test]
fn test_writeable_bytes_of_no_macros() {
    let bytes = as_writeable_bytes(&[]).unwrap();
    let mut expected = Vec::new();
    for _ in 0..100 {
        expected.extend_from_slice(&macro_bytes("", "0000000", "000", ""));
    }
    assert_eq!(bytes, expected);
    assert_eq!(as_writeable_bytes_unsafe(&[]).unwrap(), Vec::<u8>::new());
    assert_eq!(to_writeable_bytes_unsafe(&[]).unwrap(), Vec::<u8>::new());
}

#[test]
fn test_writeable_bytes_checks_every_macro() {
    let good = MacroData::new("Title", vec![], &MacroIcon::DefaultIcon).unwrap();
    let few_lines = MacroData {
        icon_id: "0000000",
        icon_key: "000",
        lines: vec![""; 14],
        title: "",
    };
    let no_icon = MacroData {
        icon_id: "0000000",
        icon_key: "XYZ",
        lines: vec![""; 15],
        title: "",
    };
    assert_eq!(
        as_writeable_bytes(&[good.clone(), few_lines.clone(), no_icon.clone()]).unwrap_err().kind(),
        ErrorKind::Underflow
    );
    assert_eq!(
        as_writeable_bytes(&[good.clone(), no_icon, few_lines.clone()]).unwrap_err().kind(),
        ErrorKind::InvalidInput
    );
    // Where nothing is checked, the macros are encoded as they are.
    let bytes = as_writeable_bytes_unsafe(&[good.clone(), few_lines.clone()]).unwrap();
    let mut expected = good.as_bytes().unwrap();
    expected.extend_from_slice(&few_lines.as_bytes().unwrap());
    assert_eq!(bytes, expected);
    assert_eq!(as_macro_vec(&bytes).unwrap(), vec![good, few_lines]);
}

#[test]
fn test_read_macro_content_errors() {
    let content = test_file_content();
    // A key bind file is no macro file, though it holds sections.
    let keybind = image(0x0065_0003, 286720, 0xFF, 0x73, &content);
    assert_eq!(read_macro_content(&keybind).unwrap_err().kind(), ErrorKind::IncorrectType);
    assert_eq!(read_macro_content_unsafe(&keybind).unwrap().len(), 100);
    // A gear set file holds no sections at all.
    let gearset = image(0x006b_0005, 286720, 0xFF, 0x73, &content);
    assert_eq!(read_macro_content(&gearset).unwrap_err().kind(), ErrorKind::IncorrectType);
    assert_eq!(read_macro_content_unsafe(&gearset).unwrap_err().kind(), ErrorKind::IncorrectType);
    assert_eq!(read_macro_content(&[1, 2, 3]).unwrap_err().kind(), ErrorKind::EndOfFile);
    // The type is told from the header, whatever the length of the image is.
    let mut long = gearset.clone();
    long.push(0);
    assert_eq!(read_macro_content(&long).unwrap_err().kind(), ErrorKind::IncorrectType);
    let mut short = keybind.clone();
    short.truncate(17);
    assert_eq!(read_macro_content(&short).unwrap_err().kind(), ErrorKind::IncorrectType);
    // A macro file without its footer is read all the same.
    let mut short = test_file_image();
    short.truncate(17 + content.len());
    assert_eq!(read_macro_content(&short).unwrap().len(), 100);
    let mut broken = content.clone();
    broken[3] = 0xff;
    let broken = image(0x0002_0001, 286720, 0xFF, 0x73, &broken);
    assert_eq!(read_macro_content(&broken).unwrap_err().kind(), ErrorKind::BadEncoding);
    // A macro file without content has no first section.
    let empty = image(0x0002_0001, 286720, 0xFF, 0x73, b"");
    assert_eq!(read_macro_content(&empty).unwrap_err().kind(), ErrorKind::EndOfFile);
}

#[test]
fn test_read_macro_reads_up_to_the_next_title() {
    let mut dat_file = DATFile::open(test_file_image()).unwrap();
    let first = read_macro(&mut dat_file).unwrap();
    assert_eq!(first.title, "0");
    assert_eq!(first.lines.len(), 15);
    // The title of the second macro was read and given up.
    let first_len = macro_bytes("0", "00101D1", "001", "DefaultIcon").len();
    let second_title_len = section_bytes("T", "1").len();
    assert_eq!(dat_file.raw_position() as usize, 17 + first_len + second_title_len);
    // What follows begins with an icon section, which is no macro.
    assert_eq!(read_macro(&mut dat_file).unwrap_err().kind(), ErrorKind::InvalidInput);
}

#[test]
fn test_read_last_macro_ends_at_end_of_content() {
    let content = macro_bytes("Last", "0000000", "000", "line");
    let mut dat_file = DATFile::open(image(0x0002_0001, 512, 0xFF, 0x73, &content)).unwrap();
    let last = read_macro(&mut dat_file).unwrap();
    assert_eq!(last.title, "Last");
    assert_eq!(last.lines.len(), 15);
    assert_eq!(last.lines[0], "line");
    assert_eq!(dat_file.raw_position() as usize, 17 + content.len());
    assert_eq!(read_macro(&mut dat_file).unwrap_err().kind(), ErrorKind::EndOfFile);
}

#[test]
fn test_read_macro_checks_type() {
    let content = macro_bytes("Title", "0000000", "000", "line");
    let mut dat_file = DATFile::open(image(0x0065_0003, 512, 0xFF, 0x73, &content)).unwrap();
    assert_eq!(read_macro(&mut dat_file).unwrap_err().kind(), ErrorKind::IncorrectType);
    assert_eq!(dat_file.raw_position(), 17);
    assert_eq!(read_macro_unsafe(&mut dat_file).unwrap().title, "Title");
    let mut dat_file = DATFile::open(image(0x006b_0005, 512, 0xFF, 0x73, &content)).unwrap();
    assert_eq!(read_macro_unsafe(&mut dat_file).unwrap_err().kind(), ErrorKind::IncorrectType);
}
