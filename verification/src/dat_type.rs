//! The registry of container types: the code each has in the header and the
//! constants that go with it.
use vstd::prelude::*;

verus! {

/// The kinds of DAT container that are known, named by what they store.
#[derive(Clone, Copy, Debug, PartialEq, Eq, Structural)]
pub enum DATType {
    /// GEARSET.DAT
    Gearset,
    /// GS.DAT
    GoldSaucer,
    /// HOTBAR.DAT
    Hotbar,
    /// ITEMFDR.DAT
    ItemFinder,
    /// ITEMODR.DAT
    ItemOrder,
    /// KEYBIND.DAT
    Keybind,
    /// LOGFLTR.DAT
    LogFilter,
    /// MACRO.DAT (per character) and MACROSYS.DAT (global)
    Macro,
    /// ACQ.DAT
    RecentTells,
    /// UISAVE.DAT
    UISave,
    /// Any container whose type code is not one of the above.
    Unknown,
}

/// The type that a header's type code stands for; `Unknown` for every code
/// that is not registered.
pub open spec fn type_of_code(code: u32) -> DATType {
    if code == 0x006b0005 {
        DATType::Gearset
    } else if code == 0x0067000A {
        DATType::GoldSaucer
    } else if code == 0x00040002 {
        DATType::Hotbar
    } else if code == 0x00CA0008 {
        DATType::ItemFinder
    } else if code == 0x00670007 {
        DATType::ItemOrder
    } else if code == 0x00650003 {
        DATType::Keybind
    } else if code == 0x00030004 {
        DATType::LogFilter
    } else if code == 0x00020001 {
        DATType::Macro
    } else if code == 0x00640006 {
        DATType::RecentTells
    } else if code == 0x00010009 {
        DATType::UISave
    } else {
        DATType::Unknown
    }
}

/// The XOR mask of each type's content bytes, where the type has one.
pub open spec fn mask_of(file_type: DATType) -> Option<u8> {
    match file_type {
        DATType::Gearset
        | DATType::GoldSaucer
        | DATType::ItemFinder
        | DATType::ItemOrder
        | DATType::Keybind
        | DATType::Macro
        | DATType::RecentTells => Some(0x73u8),
        DATType::Hotbar | DATType::UISave => Some(0x31u8),
        DATType::LogFilter | DATType::Unknown => None,
    }
}

/// The byte that ends the header of each type, where one is known.
pub open spec fn end_byte_of(file_type: DATType) -> Option<u8> {
    match file_type {
        DATType::Gearset
        | DATType::GoldSaucer
        | DATType::ItemFinder
        | DATType::ItemOrder
        | DATType::Keybind
        | DATType::Macro
        | DATType::RecentTells => Some(0xFFu8),
        DATType::Hotbar => Some(0x31u8),
        DATType::UISave => Some(0x21u8),
        DATType::LogFilter | DATType::Unknown => None,
    }
}

/// The maximum content size that the game gives each type, where one is known.
pub open spec fn max_size_of(file_type: DATType) -> Option<u32> {
    match file_type {
        DATType::Gearset => Some(44849u32),
        DATType::GoldSaucer => Some(649u32),
        DATType::Hotbar => Some(204800u32),
        DATType::ItemFinder => Some(14030u32),
        DATType::ItemOrder => Some(15193u32),
        DATType::Keybind => Some(20480u32),
        DATType::Macro => Some(286720u32),
        DATType::RecentTells => Some(2048u32),
        DATType::UISave => Some(64512u32),
        DATType::LogFilter | DATType::Unknown => None,
    }
}

impl DATType {
    /// ACQ.DAT, by its file name.
    pub const ACQ: DATType = DATType::RecentTells;

    /// GEARSET.DAT, by its file name.
    pub const GEARSET: DATType = DATType::Gearset;

    /// GS.DAT, by its file name.
    pub const GS: DATType = DATType::GoldSaucer;

    /// ITEMFDR.DAT, by its file name.
    pub const ITEMFDR: DATType = DATType::ItemFinder;

    /// ITEMODR.DAT, by its file name.
    pub const ITEMODR: DATType = DATType::ItemOrder;

    /// KEYBIND.DAT, by its file name.
    pub const KEYBIND: DATType = DATType::Keybind;

    /// LOGFLTR.DAT, by its file name.
    pub const LOGFLTR: DATType = DATType::LogFilter;

    /// MACRO.DAT, by its file name.
    pub const MACRO: DATType = DATType::Macro;

    /// MACROSYS.DAT, by its file name.
    pub const MACROSYS: DATType = DATType::Macro;

    /// UISAVE.DAT, by its file name.
    pub const UISAVE: DATType = DATType::UISave;

    /// The code that stands for this type in the first four header bytes, read
    /// as a little-endian number; zero for `Unknown`.
    pub open spec fn spec_code(self) -> u32 {
        match self {
            DATType::Gearset => 0x006b0005,
            DATType::GoldSaucer => 0x0067000A,
            DATType::Hotbar => 0x00040002,
            DATType::ItemFinder => 0x00CA0008,
            DATType::ItemOrder => 0x00670007,
            DATType::Keybind => 0x00650003,
            DATType::LogFilter => 0x00030004,
            DATType::Macro => 0x00020001,
            DATType::RecentTells => 0x00640006,
            DATType::UISave => 0x00010009,
            DATType::Unknown => 0,
        }
    }

    /// The code that stands for this type in a header.
    #[verifier::when_used_as_spec(spec_code)]
    pub fn code(self) -> (code: u32)
        ensures
            code == self.spec_code(),
    {
        match self {
            DATType::Gearset => 0x006b0005,
            DATType::GoldSaucer => 0x0067000A,
            DATType::Hotbar => 0x00040002,
            DATType::ItemFinder => 0x00CA0008,
            DATType::ItemOrder => 0x00670007,
            DATType::Keybind => 0x00650003,
            DATType::LogFilter => 0x00030004,
            DATType::Macro => 0x00020001,
            DATType::RecentTells => 0x00640006,
            DATType::UISave => 0x00010009,
            DATType::Unknown => 0,
        }
    }
}

impl From<u32> for DATType {
    /// Identifies the type that a header's type code stands for. Never fails:
    /// a code that is not registered gives `Unknown`.
    fn from(x: u32) -> (file_type: DATType) {
        if x == 0x006b0005 {
            DATType::Gearset
        } else if x == 0x0067000A {
            DATType::GoldSaucer
        } else if x == 0x00040002 {
            DATType::Hotbar
        } else if x == 0x00CA0008 {
            DATType::ItemFinder
        } else if x == 0x00670007 {
            DATType::ItemOrder
        } else if x == 0x00650003 {
            DATType::Keybind
        } else if x == 0x00030004 {
            DATType::LogFilter
        } else if x == 0x00020001 {
            DATType::Macro
        } else if x == 0x00640006 {
            DATType::RecentTells
        } else if x == 0x00010009 {
            DATType::UISave
        } else {
            DATType::Unknown
        }
    }
}

impl vstd::std_specs::convert::FromSpecImpl<u32> for DATType {
    open spec fn obeys_from_spec() -> bool {
        true
    }

    open spec fn from_spec(x: u32) -> DATType {
        type_of_code(x)
    }
}

/// Gets the XOR mask that the content bytes of a container of this type carry
/// on disk. `None` where the type has no mask, `Unknown` included.
pub fn get_mask_for_type(file_type: &DATType) -> (mask: Option<u8>)
    ensures
        mask == mask_of(*file_type),
{
    match file_type {
        DATType::Gearset
        | DATType::GoldSaucer
        | DATType::ItemFinder
        | DATType::ItemOrder
        | DATType::Keybind
        | DATType::Macro
        | DATType::RecentTells => Some(0x73),
        DATType::Hotbar | DATType::UISave => Some(0x31),
        _ => None,
    }
}

/// Gets the byte that ends the header of a container of this type. `None`
/// where no such byte is known, `Unknown` included.
pub fn get_default_end_byte_for_type(file_type: &DATType) -> (end_byte: Option<u8>)
    ensures
        end_byte == end_byte_of(*file_type),
{
    match file_type {
        DATType::Gearset
        | DATType::GoldSaucer
        | DATType::ItemFinder
        | DATType::ItemOrder
        | DATType::Keybind
        | DATType::Macro
        | DATType::RecentTells => Some(0xFF),
        DATType::Hotbar => Some(0x31),
        DATType::UISave => Some(0x21),
        _ => None,
    }
}

/// Gets the maximum content size that the game gives a container of this
/// type. `None` where the type has no standard size, `Unknown` included.
pub fn get_default_max_size_for_type(file_type: &DATType) -> (max_size: Option<u32>)
    ensures
        max_size == max_size_of(*file_type),
{
    match file_type {
        DATType::Gearset => Some(44849),
        DATType::GoldSaucer => Some(649),
        DATType::Hotbar => Some(204800),
        DATType::ItemFinder => Some(14030),
        DATType::ItemOrder => Some(15193),
        DATType::Keybind => Some(20480),
        DATType::Macro => Some(286720),
        DATType::RecentTells => Some(2048),
        DATType::UISave => Some(64512),
        _ => None,
    }
}

/// Every type but `Unknown` is found again from its own code, and `Unknown`
/// has the code zero, which no other type has.
pub proof fn lemma_code_identifies_type(file_type: DATType)
    ensures
        type_of_code(file_type.spec_code()) == file_type,
{
}

/// A code either is the code of the type it identifies, or it identifies
/// `Unknown`.
pub proof fn lemma_type_of_code_is_unknown_or_exact(code: u32)
    ensures
        type_of_code(code) == DATType::Unknown || type_of_code(code).spec_code() == code,
{
}

/// The two bytes of a registered code that must be zero in a header are
/// zero: a code is made of a byte, a zero, a byte and a zero.
pub proof fn lemma_registered_codes_have_zero_bytes(file_type: DATType)
    ensures
        (file_type.spec_code() / 0x100) % 0x100 == 0,
        file_type.spec_code() / 0x1000000 == 0,
{
}

} // verus!
