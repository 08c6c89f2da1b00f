//! Macros: the resource that MACRO.DAT and MACROSYS.DAT hold.
//!
//! A macro stands in a file as a run of sections: its title (tag `T`), the id
//! of its icon (`I`), the key of its icon (`K`), and its lines (`L`), in this
//! order. The game writes 15 lines for every macro and 100 macros to a file.
//!
//! [`Macro`] owns its texts; [`MacroData`] borrows them.
use crate::dat_error::{fails_with, DATError, ErrorKind};
use crate::dat_file::{
    check_type, content_replaced, image_refusal, lemma_accepted_image_is_well_formed, opened,
    write_content, DATFile, DATFileView,
};
use crate::dat_type::DATType;
use crate::high_level::{AsBytes, Validate};
use crate::section::{
    as_section_vec, decode_sections, encode_sections, is_section_based, left_to_read,
    lemma_encode_sections_push, lemma_section_read_advances, push_encoding, read_section,
    read_section_content, section_of, section_read, section_views, typed_image_sections, Section,
    SectionData, SectionView,
};
use crate::text::{lemma_utf8_len_bound, str_eq};
use icon::{
    icon_id, icon_key, icon_of, macro_icon_from_key_and_id, macro_icon_to_key_and_id, MacroIcon,
};
use vstd::prelude::*;
use vstd::string::*;
use vstd::utf8::*;

pub mod icon;
pub mod laws;

verus! {

/// The number of macros that a macro file holds.
pub const EXPECTED_ITEM_COUNT: usize = 100;

/// The tag of the section that holds the title of a macro.
pub const SECTION_TAG_TITLE: &'static str = "T";

/// The tag of the section that holds the id of the icon of a macro.
pub const SECTION_TAG_ICON: &'static str = "I";

/// The tag of the section that holds the key of the icon of a macro.
pub const SECTION_TAG_KEY: &'static str = "K";

/// The tag of a section that holds a line of a macro.
pub const SECTION_TAG_LINE: &'static str = "L";

/// The most characters that the title of a macro can have in the game.
pub const MAX_TITLE_LENGTH: usize = 20;

/// The most characters that a line of a macro can have in the game.
pub const MAX_LINE_LENGTH: usize = 180;

/// The number of lines that every macro has in the game.
pub const LINE_COUNT: usize = 15;

/// What a macro is: its title, the two texts that stand for its icon, and
/// its lines.
pub struct MacroView {
    /// The key of the icon: its place in the menu.
    pub icon_key: Seq<char>,
    /// The id of the icon: its number in the game data.
    pub icon_id: Seq<char>,
    /// The lines.
    pub lines: Seq<Seq<char>>,
    /// The title.
    pub title: Seq<char>,
}

/// Whether one of some lines has more characters than the game takes.
pub open spec fn has_long_line(lines: Seq<Seq<char>>) -> bool {
    exists|i: int| 0 <= i < lines.len() && (#[trigger] lines[i]).len() > MAX_LINE_LENGTH
}

impl MacroView {
    /// What is wrong with a macro in the eyes of the game, if anything is:
    /// the first of a title of more than 20 characters (`Overflow`), a key
    /// and an id that stand for no icon (`InvalidInput`), fewer than 15 lines
    /// (`Underflow`), more than 15 lines (`Overflow`), and a line of more
    /// than 180 characters (`Overflow`).
    pub open spec fn refusal(self) -> Option<ErrorKind> {
        if self.title.len() > MAX_TITLE_LENGTH {
            Some(ErrorKind::Overflow)
        } else if icon_of(self.icon_key, self.icon_id) is None {
            Some(ErrorKind::InvalidInput)
        } else if self.lines.len() < LINE_COUNT {
            Some(ErrorKind::Underflow)
        } else if self.lines.len() > LINE_COUNT {
            Some(ErrorKind::Overflow)
        } else if has_long_line(self.lines) {
            Some(ErrorKind::Overflow)
        } else {
            None
        }
    }

    /// Whether the macro is as the game expects it.
    pub open spec fn is_valid(self) -> bool {
        self.refusal() is None
    }

    /// The macro with another icon.
    pub open spec fn with_icon(self, icon: MacroIcon) -> MacroView {
        MacroView { icon_key: icon_key(icon), icon_id: icon_id(icon), ..self }
    }

    /// The macro that a title, some lines and an icon make: where there are
    /// fewer than 15 lines, empty lines follow them up to that number.
    pub open spec fn built(title: Seq<char>, lines: Seq<Seq<char>>, icon: MacroIcon) -> MacroView {
        MacroView {
            icon_key: icon_key(icon),
            icon_id: icon_id(icon),
            lines: if lines.len() < LINE_COUNT {
                lines + Seq::new((LINE_COUNT - lines.len()) as nat, |i: int| Seq::<char>::empty())
            } else {
                lines
            },
            title,
        }
    }

    /// The macro that the game writes where none is defined: no title, no
    /// icon, and 15 empty lines.
    pub open spec fn blank() -> MacroView {
        MacroView::built(Seq::empty(), Seq::empty(), MacroIcon::NoIcon)
    }
}

/// What each of some texts is.
pub open spec fn text_views<T: View<V = Seq<char>>>(texts: Seq<T>) -> Seq<Seq<char>> {
    texts.map_values(|text: T| text@)
}

/// A macro that owns its texts.
///
/// The fields are open: a macro that is made by hand need not be one that
/// the game accepts. [`Macro::new`] and [`Macro::from_sections`] make none
/// but such, and [`Validate::validate`] tells.
#[derive(Clone, Debug, PartialEq, Eq)]
pub struct Macro {
    /// The key of the icon: its place in the menu, as three hexadecimal
    /// digits. It goes with the id; [`Macro::change_icon`] sets both.
    pub icon_key: String,
    /// The id of the icon: its number in the game data, as seven hexadecimal
    /// digits. It goes with the key; [`Macro::change_icon`] sets both.
    pub icon_id: String,
    /// The lines. The game writes 15 for every macro, however many are
    /// empty, and takes up to 180 characters in each.
    pub lines: Vec<String>,
    /// The title. The game takes up to 20 characters.
    pub title: String,
}

/// A macro that borrows its texts.
///
/// The fields are open: a macro that is made by hand need not be one that
/// the game accepts. [`MacroData::new`] and [`MacroData::from_section_data`]
/// make none but such, and [`Validate::validate`] tells.
#[derive(Clone, Debug, PartialEq, Eq)]
pub struct MacroData<'a> {
    /// The key of the icon: its place in the menu, as three hexadecimal
    /// digits. It goes with the id; [`MacroData::change_icon`] sets both.
    pub icon_key: &'a str,
    /// The id of the icon: its number in the game data, as seven hexadecimal
    /// digits. It goes with the key; [`MacroData::change_icon`] sets both.
    pub icon_id: &'a str,
    /// The lines. The game writes 15 for every macro, however many are
    /// empty, and takes up to 180 characters in each.
    pub lines: Vec<&'a str>,
    /// The title. The game takes up to 20 characters.
    pub title: &'a str,
}

impl View for Macro {
    type V = MacroView;

    open spec fn view(&self) -> MacroView {
        MacroView {
            icon_key: self.icon_key@,
            icon_id: self.icon_id@,
            lines: text_views(self.lines@),
            title: self.title@,
        }
    }
}

impl<'a> View for MacroData<'a> {
    type V = MacroView;

    open spec fn view(&self) -> MacroView {
        MacroView {
            icon_key: self.icon_key@,
            icon_id: self.icon_id@,
            lines: text_views(self.lines@),
            title: self.title@,
        }
    }
}

/// Returns the first thing that is wrong with a macro, given its title, the
/// texts of its icon, the number of its lines and whether one of them is too
/// long.
fn check_macro(title: &str, icon_key: &str, icon_id: &str, line_count: usize, long_line: bool) -> (err:
    Option<DATError>)
    ensures
        ({
            let refusal = if title@.len() > MAX_TITLE_LENGTH {
                Some(ErrorKind::Overflow)
            } else if icon_of(icon_key@, icon_id@) is None {
                Some(ErrorKind::InvalidInput)
            } else if line_count < LINE_COUNT {
                Some(ErrorKind::Underflow)
            } else if line_count > LINE_COUNT {
                Some(ErrorKind::Overflow)
            } else if long_line {
                Some(ErrorKind::Overflow)
            } else {
                None
            };
            match refusal {
                Some(kind) => err matches Some(e) && e.spec_kind() == kind,
                None => err is None,
            }
        }),
{
    if title.unicode_len() > MAX_TITLE_LENGTH {
        return Some(DATError::Overflow("Title is longer than 20 characters."));
    }
    if macro_icon_from_key_and_id(icon_key, icon_id).is_none() {
        return Some(DATError::InvalidInput("Macro icon is invalid."));
    }
    if line_count < LINE_COUNT {
        return Some(DATError::Underflow("Macro has fewer than 15 lines."));
    }
    if line_count > LINE_COUNT {
        return Some(DATError::Overflow("Macro has more than 15 lines."));
    }
    if long_line {
        return Some(DATError::Overflow("Line is longer than 180 characters."));
    }
    None
}

impl Validate for Macro {
    open spec fn refusal(&self) -> Option<ErrorKind> {
        self@.refusal()
    }

    /// Checks the macro against what the game expects of a macro. Returns
    /// the first thing that is wrong: a title of more than 20 characters
    /// (`Overflow`), a key and an id that stand for no icon (`InvalidInput`),
    /// fewer than 15 lines (`Underflow`), more than 15 lines (`Overflow`), a
    /// line of more than 180 characters (`Overflow`).
    fn validate(&self) -> (err: Option<DATError>) {
        let mut long_line = false;
        let mut i: usize = 0;
        while i < self.lines.len()
            invariant
                i <= self.lines@.len(),
                long_line ==> has_long_line(self@.lines),
                !long_line ==> forall|j: int|
                    0 <= j < i ==> (#[trigger] self@.lines[j]).len() <= MAX_LINE_LENGTH,
            decreases self.lines@.len() - i,
        {
            if self.lines[i].as_str().unicode_len() > MAX_LINE_LENGTH {
                assert(self@.lines[i as int].len() > MAX_LINE_LENGTH);
                long_line = true;
            }
            i += 1;
        }
        check_macro(
            self.title.as_str(),
            self.icon_key.as_str(),
            self.icon_id.as_str(),
            self.lines.len(),
            long_line,
        )
    }
}

impl Validate for MacroData<'_> {
    open spec fn refusal(&self) -> Option<ErrorKind> {
        self@.refusal()
    }

    /// Checks the macro against what the game expects of a macro. Returns
    /// the first thing that is wrong: a title of more than 20 characters
    /// (`Overflow`), a key and an id that stand for no icon (`InvalidInput`),
    /// fewer than 15 lines (`Underflow`), more than 15 lines (`Overflow`), a
    /// line of more than 180 characters (`Overflow`).
    fn validate(&self) -> (err: Option<DATError>) {
        let mut long_line = false;
        let mut i: usize = 0;
        while i < self.lines.len()
            invariant
                i <= self.lines@.len(),
                long_line ==> has_long_line(self@.lines),
                !long_line ==> forall|j: int|
                    0 <= j < i ==> (#[trigger] self@.lines[j]).len() <= MAX_LINE_LENGTH,
            decreases self.lines@.len() - i,
        {
            if self.lines[i].unicode_len() > MAX_LINE_LENGTH {
                assert(self@.lines[i as int].len() > MAX_LINE_LENGTH);
                long_line = true;
            }
            i += 1;
        }
        check_macro(self.title, self.icon_key, self.icon_id, self.lines.len(), long_line)
    }
}

/// The sections that stand for a macro in a file: the title, the id of the
/// icon, the key of the icon, and the lines.
pub open spec fn macro_sections(m: MacroView) -> Seq<SectionView> {
    seq![
        section_of(SECTION_TAG_TITLE@, m.title),
        section_of(SECTION_TAG_ICON@, m.icon_id),
        section_of(SECTION_TAG_KEY@, m.icon_key),
    ] + m.lines.map_values(|line: Seq<char>| section_of(SECTION_TAG_LINE@, line))
}

/// Whether a text is too long for a section: whether it and its closing zero
/// byte are more bytes than a `u16` counts.
pub open spec fn is_oversized(text: Seq<char>) -> bool {
    encode_utf8(text).len() + 1 > u16::MAX
}

/// Whether a part of a macro is too long for the section that holds it.
pub open spec fn has_oversized_part(m: MacroView) -> bool {
    ||| is_oversized(m.title)
    ||| is_oversized(m.icon_id)
    ||| is_oversized(m.icon_key)
    ||| exists|i: int| 0 <= i < m.lines.len() && is_oversized(#[trigger] m.lines[i])
}

/// The bytes that stand for a macro in a file, or `Overflow` where a part of
/// it is too long for the section that holds it.
pub open spec fn macro_encoding(m: MacroView) -> Result<Seq<u8>, ErrorKind> {
    if has_oversized_part(m) {
        Err(ErrorKind::Overflow)
    } else {
        Ok(encode_sections(macro_sections(m)))
    }
}

/// Whether the sections from the fourth on are lines.
pub open spec fn lines_are_tagged(sections: Seq<SectionView>) -> bool {
    forall|i: int| 3 <= i < sections.len() ==> (#[trigger] sections[i]).tag == SECTION_TAG_LINE@
}

/// Whether some sections have the shape of a macro: a title, the id of an
/// icon, the key of an icon, and one line or more, in this order.
pub open spec fn are_macro_shaped(sections: Seq<SectionView>) -> bool {
    &&& sections.len() >= 4
    &&& sections[0].tag == SECTION_TAG_TITLE@
    &&& sections[1].tag == SECTION_TAG_ICON@
    &&& sections[2].tag == SECTION_TAG_KEY@
    &&& lines_are_tagged(sections)
}

/// The macro that some sections of the shape of a macro stand for. Neither
/// the number of the lines nor what the sections hold is looked at.
pub open spec fn shaped_macro(sections: Seq<SectionView>) -> MacroView {
    MacroView {
        icon_key: sections[2].content,
        icon_id: sections[1].content,
        lines: sections.subrange(3, sections.len() as int).map_values(|s: SectionView| s.content),
        title: sections[0].content,
    }
}

/// The macro that some sections stand for, or `InvalidInput` where they have
/// not the shape of a macro.
pub open spec fn macro_of_sections(sections: Seq<SectionView>) -> Result<MacroView, ErrorKind> {
    if are_macro_shaped(sections) {
        Ok(shaped_macro(sections))
    } else {
        Err(ErrorKind::InvalidInput)
    }
}

/// The macro that some sections stand for, if it is one that the game
/// accepts: `InvalidInput` where the sections have not the shape of a macro,
/// and else what is wrong with the macro where anything is.
pub open spec fn valid_macro_of_sections(sections: Seq<SectionView>) -> Result<MacroView, ErrorKind> {
    match macro_of_sections(sections) {
        Err(kind) => Err(kind),
        Ok(m) => match m.refusal() {
            Some(kind) => Err(kind),
            None => Ok(m),
        },
    }
}

/// The macro that a title, some lines and an icon make, if it is one that
/// the game accepts, and else what is wrong with it.
pub open spec fn valid_built(title: Seq<char>, lines: Seq<Seq<char>>, icon: MacroIcon) -> Result<
    MacroView,
    ErrorKind,
> {
    match MacroView::built(title, lines, icon).refusal() {
        Some(kind) => Err(kind),
        None => Ok(MacroView::built(title, lines, icon)),
    }
}

/// Whether a result is the macro that was foreseen, or an error of the kind
/// that was foreseen.
pub open spec fn macro_agrees<M: View<V = MacroView>>(
    result: Result<M, DATError>,
    model: Result<MacroView, ErrorKind>,
) -> bool {
    match model {
        Ok(m) => result matches Ok(r) && r@ == m,
        Err(kind) => fails_with(result, kind),
    }
}

/// Whether a result holds the bytes that were foreseen, or is an error of
/// the kind that was foreseen.
pub open spec fn bytes_agree(
    result: Result<Vec<u8>, DATError>,
    model: Result<Seq<u8>, ErrorKind>,
) -> bool {
    match model {
        Ok(bytes) => result matches Ok(r) && r@ == bytes,
        Err(kind) => fails_with(result, kind),
    }
}

/// The four tags are one byte each.
pub proof fn lemma_tags_are_one_byte()
    ensures
        encode_utf8(SECTION_TAG_TITLE@).len() == 1,
        encode_utf8(SECTION_TAG_ICON@).len() == 1,
        encode_utf8(SECTION_TAG_KEY@).len() == 1,
        encode_utf8(SECTION_TAG_LINE@).len() == 1,
        SECTION_TAG_TITLE@ != SECTION_TAG_LINE@,
{
    reveal_strlit("T");
    reveal_strlit("I");
    reveal_strlit("K");
    reveal_strlit("L");
    is_ascii_chars_encode_utf8(SECTION_TAG_TITLE@);
    is_ascii_chars_encode_utf8(SECTION_TAG_ICON@);
    is_ascii_chars_encode_utf8(SECTION_TAG_KEY@);
    is_ascii_chars_encode_utf8(SECTION_TAG_LINE@);
    assert(SECTION_TAG_TITLE@[0] != SECTION_TAG_LINE@[0]);
}

/// Checks that some tags have the shape of a macro.
fn check_shape(tags: &Vec<&str>) -> (err: Option<DATError>)
    ensures
        ({
            let shaped = {
                &&& tags@.len() >= 4
                &&& tags@[0]@ == SECTION_TAG_TITLE@
                &&& tags@[1]@ == SECTION_TAG_ICON@
                &&& tags@[2]@ == SECTION_TAG_KEY@
                &&& forall|i: int| 3 <= i < tags@.len() ==> (#[trigger] tags@[i])@ == SECTION_TAG_LINE@
            };
            if shaped {
                err is None
            } else {
                err matches Some(e) && e.spec_kind() == ErrorKind::InvalidInput
            }
        }),
{
    if tags.len() < 4 {
        return Some(DATError::InvalidInput("Macros require a minimum of 4 sections."));
    }
    if !str_eq(tags[0], SECTION_TAG_TITLE) {
        return Some(DATError::InvalidInput("First section was not a Title (T) section."));
    }
    if !str_eq(tags[1], SECTION_TAG_ICON) {
        return Some(DATError::InvalidInput("Second section was not a Icon (I) section."));
    }
    if !str_eq(tags[2], SECTION_TAG_KEY) {
        return Some(DATError::InvalidInput("Third section was not a Key (K) section."));
    }
    let mut i: usize = 3;
    while i < tags.len()
        invariant
            3 <= i <= tags@.len(),
            forall|j: int| 3 <= j < i ==> (#[trigger] tags@[j])@ == SECTION_TAG_LINE@,
        decreases tags@.len() - i,
    {
        if !str_eq(tags[i], SECTION_TAG_LINE) {
            return Some(DATError::InvalidInput("Non-line (L) section in lines block."));
        }
        i += 1;
    }
    None
}

impl Macro {
    /// Returns the sections that stand for the macro in a file: the title,
    /// the id of the icon, the key of the icon, and the lines.
    ///
    /// Fails with `Overflow` where a part of the macro is longer than
    /// `u16::MAX - 1` bytes.
    pub fn as_sections(&self) -> (sections: Result<Vec<Section>, DATError>)
        ensures
            has_oversized_part(self@) ==> fails_with(sections, ErrorKind::Overflow),
            !has_oversized_part(self@) ==> (sections matches Ok(v) && section_views(v@)
                == macro_sections(self@)),
    {
        proof {
            lemma_tags_are_one_byte();
        }
        let mut sec_vec: Vec<Section> = Vec::new();
        sec_vec.push(Section::new(SECTION_TAG_TITLE.to_owned(), self.title.clone())?);
        sec_vec.push(Section::new(SECTION_TAG_ICON.to_owned(), self.icon_id.clone())?);
        sec_vec.push(Section::new(SECTION_TAG_KEY.to_owned(), self.icon_key.clone())?);
        let mut i: usize = 0;
        while i < self.lines.len()
            invariant
                i <= self.lines@.len(),
                sec_vec@.len() == 3 + i,
                encode_utf8(SECTION_TAG_LINE@).len() == 1,
                !is_oversized(self@.title),
                !is_oversized(self@.icon_id),
                !is_oversized(self@.icon_key),
                sec_vec@[0]@ == section_of(SECTION_TAG_TITLE@, self@.title),
                sec_vec@[1]@ == section_of(SECTION_TAG_ICON@, self@.icon_id),
                sec_vec@[2]@ == section_of(SECTION_TAG_KEY@, self@.icon_key),
                forall|j: int|
                    0 <= j < i ==> (#[trigger] sec_vec@[3 + j])@ == section_of(
                        SECTION_TAG_LINE@,
                        self@.lines[j],
                    ),
                forall|j: int| 0 <= j < i ==> !is_oversized(#[trigger] self@.lines[j]),
            decreases self.lines@.len() - i,
        {
            let line = Section::new(SECTION_TAG_LINE.to_owned(), self.lines[i].clone());
            match line {
                Ok(section) => {
                    sec_vec.push(section);
                },
                Err(err) => {
                    assert(is_oversized(self@.lines[i as int]));
                    return Err(err);
                },
            }
            i += 1;
        }
        proof {
            let views = section_views(sec_vec@);
            let model = macro_sections(self@);
            assert(views.len() == model.len());
            assert forall|j: int| 0 <= j < views.len() implies views[j] == model[j] by {
                if j >= 3 {
                    assert(sec_vec@[3 + (j - 3)]@ == section_of(
                        SECTION_TAG_LINE@,
                        self@.lines[j - 3],
                    ));
                }
            }
            assert(views =~= model);
        }
        Ok(sec_vec)
    }

    /// Sets the key and the id of the icon to the pair that stands for
    /// `icon`.
    pub fn change_icon(&mut self, icon: MacroIcon)
        ensures
            final(self)@ == old(self)@.with_icon(icon),
    {
        let (key, id) = macro_icon_to_key_and_id(&icon);
        self.icon_key = key.to_owned();
        self.icon_id = id.to_owned();
    }

    /// Builds a macro from the sections that stand for it, and checks it
    /// against what the game expects of a macro.
    ///
    /// Fails with `InvalidInput` where the sections are not a title, the id
    /// of an icon, the key of an icon and one line or more, in this order, or
    /// where the key and the id stand for no icon; with `Overflow` where the
    /// title or a line is too long, or there are more than 15 lines; and
    /// with `Underflow` where there are fewer than 15 lines.
    pub fn from_sections(sections: Vec<Section>) -> (res_macro: Result<Macro, DATError>)
        ensures
            macro_agrees(res_macro, valid_macro_of_sections(section_views(sections@))),
    {
        let res_macro = Self::from_sections_unsafe(sections)?;
        match res_macro.validate() {
            Some(validation_err) => Err(validation_err),
            None => Ok(res_macro),
        }
    }

    /// Builds a macro from the sections that stand for it. Neither the
    /// number of the lines nor what the sections hold is checked.
    ///
    /// Fails with `InvalidInput` where the sections are not a title, the id
    /// of an icon, the key of an icon and one line or more, in this order.
    pub fn from_sections_unsafe(sections: Vec<Section>) -> (res_macro: Result<Macro, DATError>)
        ensures
            macro_agrees(res_macro, macro_of_sections(section_views(sections@))),
    {
        let mut tags: Vec<&str> = Vec::new();
        let mut i: usize = 0;
        while i < sections.len()
            invariant
                i <= sections@.len(),
                tags@.len() == i,
                forall|j: int| 0 <= j < i ==> (#[trigger] tags@[j])@ == sections@[j].tag@,
            decreases sections@.len() - i,
        {
            tags.push(sections[i].tag.as_str());
            i += 1;
        }
        let ghost views = section_views(sections@);
        proof {
            assert forall|j: int| 0 <= j < views.len() implies (#[trigger] views[j]).tag
                == tags@[j]@ by {}
            if are_macro_shaped(views) {
                assert forall|j: int| 3 <= j < tags@.len() implies (#[trigger] tags@[j])@
                    == SECTION_TAG_LINE@ by {
                    assert(views[j].tag == SECTION_TAG_LINE@);
                }
            }
        }
        match check_shape(&tags) {
            Some(err) => {
                return Err(err);
            },
            None => (),
        }
        proof {
            assert forall|j: int| 3 <= j < views.len() implies (#[trigger] views[j]).tag
                == SECTION_TAG_LINE@ by {
                assert(tags@[j]@ == SECTION_TAG_LINE@);
            }
        }
        let title = sections[0].content.clone();
        let icon_id = sections[1].content.clone();
        let icon_key = sections[2].content.clone();
        let mut lines: Vec<String> = Vec::new();
        let mut i: usize = 3;
        while i < sections.len()
            invariant
                3 <= i <= sections@.len(),
                lines@.len() == i - 3,
                forall|j: int| 0 <= j < i - 3 ==> (#[trigger] lines@[j])@ == sections@[j + 3].content@,
            decreases sections@.len() - i,
        {
            lines.push(sections[i].content.clone());
            i += 1;
        }
        let res_macro = Macro { icon_key, icon_id, lines, title };
        assert(res_macro@.lines =~= shaped_macro(views).lines);
        Ok(res_macro)
    }

    /// Returns the icon that the key and the id of the macro stand for, or
    /// `None` where they stand for none.
    pub fn get_icon(&self) -> (icon: Option<MacroIcon>)
        ensures
            icon == icon_of(self@.icon_key, self@.icon_id),
    {
        macro_icon_from_key_and_id(self.icon_key.as_str(), self.icon_id.as_str())
    }

    /// Builds a macro from a title, lines and an icon, and checks it against
    /// what the game expects of a macro. Where there are fewer than 15
    /// lines, empty lines are put behind them up to that number.
    ///
    /// Fails with `Overflow` where the title or a line is too long, or there
    /// are more than 15 lines.
    pub fn new(title: String, lines: Vec<String>, icon: MacroIcon) -> (res_macro: Result<
        Macro,
        DATError,
    >)
        ensures
            macro_agrees(
                res_macro,
                valid_built(title@, text_views(lines@), icon),
            ),
    {
        let (icon_key, icon_id) = macro_icon_to_key_and_id(&icon);
        let ghost given = text_views(lines@);
        let mut padded_lines = lines;
        while padded_lines.len() < LINE_COUNT
            invariant
                given.len() <= padded_lines@.len(),
                given.len() < LINE_COUNT ==> padded_lines@.len() <= LINE_COUNT,
                given.len() >= LINE_COUNT ==> padded_lines@.len() == given.len(),
                forall|j: int| 0 <= j < given.len() ==> (#[trigger] padded_lines@[j])@ == given[j],
                forall|j: int|
                    given.len() <= j < padded_lines@.len() ==> (#[trigger] padded_lines@[j])@
                        == Seq::<char>::empty(),
            decreases LINE_COUNT - padded_lines@.len(),
        {
            padded_lines.push(String::new());
        }
        let res_macro = Macro {
            icon_id: icon_id.to_owned(),
            icon_key: icon_key.to_owned(),
            lines: padded_lines,
            title,
        };
        proof {
            let model = MacroView::built(title@, given, icon).lines;
            assert(res_macro@.lines.len() == model.len());
            assert forall|j: int| 0 <= j < model.len() implies res_macro@.lines[j] == model[j] by {
                assert(res_macro@.lines[j] == padded_lines@[j]@);
            }
            assert(res_macro@.lines =~= model);
        }
        match res_macro.validate() {
            Some(err) => Err(err),
            None => Ok(res_macro),
        }
    }
}

impl<'a> MacroData<'a> {
    /// Returns the sections that stand for the macro in a file: the title,
    /// the id of the icon, the key of the icon, and the lines.
    ///
    /// Fails with `Overflow` where a part of the macro is longer than
    /// `u16::MAX - 1` bytes.
    pub fn as_section_data(&self) -> (sections: Result<Vec<SectionData<'a>>, DATError>)
        ensures
            has_oversized_part(self@) ==> fails_with(sections, ErrorKind::Overflow),
            !has_oversized_part(self@) ==> (sections matches Ok(v) && section_views(v@)
                == macro_sections(self@)),
    {
        proof {
            lemma_tags_are_one_byte();
        }
        let mut sec_vec: Vec<SectionData<'a>> = Vec::new();
        sec_vec.push(SectionData::new(SECTION_TAG_TITLE, self.title)?);
        sec_vec.push(SectionData::new(SECTION_TAG_ICON, self.icon_id)?);
        sec_vec.push(SectionData::new(SECTION_TAG_KEY, self.icon_key)?);
        let mut i: usize = 0;
        while i < self.lines.len()
            invariant
                i <= self.lines@.len(),
                sec_vec@.len() == 3 + i,
                encode_utf8(SECTION_TAG_LINE@).len() == 1,
                !is_oversized(self@.title),
                !is_oversized(self@.icon_id),
                !is_oversized(self@.icon_key),
                sec_vec@[0]@ == section_of(SECTION_TAG_TITLE@, self@.title),
                sec_vec@[1]@ == section_of(SECTION_TAG_ICON@, self@.icon_id),
                sec_vec@[2]@ == section_of(SECTION_TAG_KEY@, self@.icon_key),
                forall|j: int|
                    0 <= j < i ==> (#[trigger] sec_vec@[3 + j])@ == section_of(
                        SECTION_TAG_LINE@,
                        self@.lines[j],
                    ),
                forall|j: int| 0 <= j < i ==> !is_oversized(#[trigger] self@.lines[j]),
            decreases self.lines@.len() - i,
        {
            let line = SectionData::new(SECTION_TAG_LINE, self.lines[i]);
            match line {
                Ok(section) => {
                    sec_vec.push(section);
                },
                Err(err) => {
                    assert(is_oversized(self@.lines[i as int]));
                    return Err(err);
                },
            }
            i += 1;
        }
        proof {
            let views = section_views(sec_vec@);
            let model = macro_sections(self@);
            assert(views.len() == model.len());
            assert forall|j: int| 0 <= j < views.len() implies views[j] == model[j] by {
                if j >= 3 {
                    assert(sec_vec@[3 + (j - 3)]@ == section_of(
                        SECTION_TAG_LINE@,
                        self@.lines[j - 3],
                    ));
                }
            }
            assert(views =~= model);
        }
        Ok(sec_vec)
    }

    /// Sets the key and the id of the icon to the pair that stands for
    /// `icon`.
    pub fn change_icon(&mut self, icon: &'a MacroIcon)
        ensures
            final(self)@ == old(self)@.with_icon(*icon),
    {
        let (key, id) = macro_icon_to_key_and_id(icon);
        self.icon_key = key;
        self.icon_id = id;
    }

    /// Builds a macro from the sections that stand for it, and checks it
    /// against what the game expects of a macro.
    ///
    /// Fails with `InvalidInput` where the sections are not a title, the id
    /// of an icon, the key of an icon and one line or more, in this order, or
    /// where the key and the id stand for no icon; with `Overflow` where the
    /// title or a line is too long, or there are more than 15 lines; and
    /// with `Underflow` where there are fewer than 15 lines.
    pub fn from_section_data(sections: Vec<SectionData<'a>>) -> (res_macro: Result<
        MacroData<'a>,
        DATError,
    >)
        ensures
            macro_agrees(res_macro, valid_macro_of_sections(section_views(sections@))),
    {
        let res_macro = Self::from_section_data_unsafe(sections)?;
        match res_macro.validate() {
            Some(validation_err) => Err(validation_err),
            None => Ok(res_macro),
        }
    }

    /// Builds a macro from the sections that stand for it. Neither the
    /// number of the lines nor what the sections hold is checked.
    ///
    /// Fails with `InvalidInput` where the sections are not a title, the id
    /// of an icon, the key of an icon and one line or more, in this order.
    pub fn from_section_data_unsafe(sections: Vec<SectionData<'a>>) -> (res_macro: Result<
        MacroData<'a>,
        DATError,
    >)
        ensures
            macro_agrees(res_macro, macro_of_sections(section_views(sections@))),
    {
        let mut tags: Vec<&str> = Vec::new();
        let mut i: usize = 0;
        while i < sections.len()
            invariant
                i <= sections@.len(),
                tags@.len() == i,
                forall|j: int| 0 <= j < i ==> (#[trigger] tags@[j])@ == sections@[j].tag@,
            decreases sections@.len() - i,
        {
            tags.push(sections[i].tag);
            i += 1;
        }
        let ghost views = section_views(sections@);
        proof {
            assert forall|j: int| 0 <= j < views.len() implies (#[trigger] views[j]).tag
                == tags@[j]@ by {}
            if are_macro_shaped(views) {
                assert forall|j: int| 3 <= j < tags@.len() implies (#[trigger] tags@[j])@
                    == SECTION_TAG_LINE@ by {
                    assert(views[j].tag == SECTION_TAG_LINE@);
                }
            }
        }
        match check_shape(&tags) {
            Some(err) => {
                return Err(err);
            },
            None => (),
        }
        proof {
            assert forall|j: int| 3 <= j < views.len() implies (#[trigger] views[j]).tag
                == SECTION_TAG_LINE@ by {
                assert(tags@[j]@ == SECTION_TAG_LINE@);
            }
        }
        let title = sections[0].content;
        let icon_id = sections[1].content;
        let icon_key = sections[2].content;
        let mut lines: Vec<&'a str> = Vec::new();
        let mut i: usize = 3;
        while i < sections.len()
            invariant
                3 <= i <= sections@.len(),
                lines@.len() == i - 3,
                forall|j: int| 0 <= j < i - 3 ==> (#[trigger] lines@[j])@ == sections@[j + 3].content@,
            decreases sections@.len() - i,
        {
            lines.push(sections[i].content);
            i += 1;
        }
        let res_macro = MacroData { icon_key, icon_id, lines, title };
        assert(res_macro@.lines =~= shaped_macro(views).lines);
        Ok(res_macro)
    }

    /// Returns the icon that the key and the id of the macro stand for, or
    /// `None` where they stand for none.
    pub fn get_icon(&self) -> (icon: Option<MacroIcon>)
        ensures
            icon == icon_of(self@.icon_key, self@.icon_id),
    {
        macro_icon_from_key_and_id(self.icon_key, self.icon_id)
    }

    /// Builds a macro from a title, lines and an icon, and checks it against
    /// what the game expects of a macro. Where there are fewer than 15
    /// lines, empty lines are put behind them up to that number.
    ///
    /// Fails with `Overflow` where the title or a line is too long, or there
    /// are more than 15 lines.
    pub fn new(title: &'a str, lines: Vec<&'a str>, icon: &'a MacroIcon) -> (res_macro: Result<
        MacroData<'a>,
        DATError,
    >)
        ensures
            macro_agrees(
                res_macro,
                valid_built(title@, text_views(lines@), *icon),
            ),
    {
        let (icon_key, icon_id) = macro_icon_to_key_and_id(icon);
        let ghost given = text_views(lines@);
        let mut padded_lines = lines;
        proof {
            reveal_strlit("");
        }
        while padded_lines.len() < LINE_COUNT
            invariant
                given.len() <= padded_lines@.len(),
                given.len() < LINE_COUNT ==> padded_lines@.len() <= LINE_COUNT,
                given.len() >= LINE_COUNT ==> padded_lines@.len() == given.len(),
                ""@ == Seq::<char>::empty(),
                forall|j: int| 0 <= j < given.len() ==> (#[trigger] padded_lines@[j])@ == given[j],
                forall|j: int|
                    given.len() <= j < padded_lines@.len() ==> (#[trigger] padded_lines@[j])@
                        == Seq::<char>::empty(),
            decreases LINE_COUNT - padded_lines@.len(),
        {
            padded_lines.push("");
        }
        let res_macro = MacroData { icon_id, icon_key, lines: padded_lines, title };
        proof {
            let model = MacroView::built(title@, given, *icon).lines;
            assert(res_macro@.lines.len() == model.len());
            assert forall|j: int| 0 <= j < model.len() implies res_macro@.lines[j] == model[j] by {
                assert(res_macro@.lines[j] == padded_lines@[j]@);
            }
            assert(res_macro@.lines =~= model);
        }
        match res_macro.validate() {
            Some(err) => Err(err),
            None => Ok(res_macro),
        }
    }
}

impl From<&MacroData<'_>> for Macro {
    /// Copies the texts that a macro borrows.
    fn from(x: &MacroData) -> (res_macro: Macro)
        ensures
            res_macro@ == x@,
    {
        let mut lines: Vec<String> = Vec::new();
        let mut i: usize = 0;
        while i < x.lines.len()
            invariant
                i <= x.lines@.len(),
                lines@.len() == i,
                forall|j: int| 0 <= j < i ==> (#[trigger] lines@[j])@ == x.lines@[j]@,
            decreases x.lines@.len() - i,
        {
            lines.push(x.lines[i].to_owned());
            i += 1;
        }
        let res_macro = Macro {
            icon_key: x.icon_key.to_owned(),
            icon_id: x.icon_id.to_owned(),
            lines,
            title: x.title.to_owned(),
        };
        assert(res_macro@.lines =~= x@.lines);
        res_macro
    }
}

impl vstd::std_specs::convert::FromSpecImpl<&MacroData<'_>> for Macro {
    open spec fn obeys_from_spec() -> bool {
        false
    }

    open spec fn from_spec(x: &MacroData) -> Macro {
        arbitrary()
    }
}

impl<'a> From<&'a Macro> for MacroData<'a> {
    /// Borrows the texts that a macro owns.
    fn from(x: &'a Macro) -> (res_macro: MacroData<'a>)
        ensures
            res_macro@ == x@,
    {
        let mut lines: Vec<&'a str> = Vec::new();
        let mut i: usize = 0;
        while i < x.lines.len()
            invariant
                i <= x.lines@.len(),
                lines@.len() == i,
                forall|j: int| 0 <= j < i ==> (#[trigger] lines@[j])@ == x.lines@[j]@,
            decreases x.lines@.len() - i,
        {
            lines.push(x.lines[i].as_str());
            i += 1;
        }
        let res_macro = MacroData {
            icon_key: x.icon_key.as_str(),
            icon_id: x.icon_id.as_str(),
            lines,
            title: x.title.as_str(),
        };
        assert(res_macro@.lines =~= x@.lines);
        res_macro
    }
}

impl<'a> vstd::std_specs::convert::FromSpecImpl<&'a Macro> for MacroData<'a> {
    open spec fn obeys_from_spec() -> bool {
        false
    }

    open spec fn from_spec(x: &'a Macro) -> MacroData<'a> {
        arbitrary()
    }
}

impl AsBytes for MacroData<'_> {
    open spec fn encoding(&self) -> Result<Seq<u8>, ErrorKind> {
        macro_encoding(self@)
    }

    /// Encodes the macro as the bytes that stand for it in a file: its
    /// sections, one behind the other.
    ///
    /// Fails with `Overflow` where a part of the macro is longer than
    /// `u16::MAX - 1` bytes.
    fn as_bytes(&self) -> (bytes: Result<Vec<u8>, DATError>) {
        let sections = self.as_section_data()?;
        let mut byte_vec: Vec<u8> = Vec::new();
        let mut i: usize = 0;
        assert(section_views(sections@).subrange(0, 0) =~= Seq::<SectionView>::empty());
        while i < sections.len()
            invariant
                i <= sections@.len(),
                byte_vec@ == encode_sections(section_views(sections@).subrange(0, i as int)),
            decreases sections@.len() - i,
        {
            let section = sections[i];
            proof {
                let views = section_views(sections@);
                lemma_encode_sections_push(views.subrange(0, i as int), section@);
                assert(views.subrange(0, i as int).push(section@) =~= views.subrange(0, i + 1));
            }
            push_encoding(&mut byte_vec, section.tag, section.content_size, section.content);
            i += 1;
        }
        assert(section_views(sections@).subrange(0, i as int) =~= section_views(sections@));
        Ok(byte_vec)
    }
}

impl AsBytes for Macro {
    open spec fn encoding(&self) -> Result<Seq<u8>, ErrorKind> {
        macro_encoding(self@)
    }

    /// Encodes the macro as the bytes that stand for it in a file: its
    /// sections, one behind the other.
    ///
    /// Fails with `Overflow` where a part of the macro is longer than
    /// `u16::MAX - 1` bytes.
    fn as_bytes(&self) -> (bytes: Result<Vec<u8>, DATError>) {
        MacroData::from(self).as_bytes()
    }
}

/// What each of some macros is.
pub open spec fn macro_views<M: View<V = MacroView>>(macros: Seq<M>) -> Seq<MacroView> {
    macros.map_values(|m: M| m@)
}

/// Whether a result holds the macros that were foreseen, or is an error of
/// the kind that was foreseen.
pub open spec fn macros_agree<M: View<V = MacroView>>(
    result: Result<Vec<M>, DATError>,
    model: Result<Seq<MacroView>, ErrorKind>,
) -> bool {
    match model {
        Ok(macros) => result matches Ok(v) && macro_views(v@) == macros,
        Err(kind) => fails_with(result, kind),
    }
}

/// The macro that the sections in some bytes stand for, or why they stand for
/// none: why the bytes are not made of sections, or `InvalidInput` where the
/// sections have not the shape of a macro.
pub open spec fn decode_macro(bytes: Seq<u8>) -> Result<MacroView, ErrorKind> {
    match decode_sections(bytes) {
        Err(kind) => Err(kind),
        Ok(sections) => macro_of_sections(sections),
    }
}

/// The number of sections from the one at `from` up to the next title, or to
/// the last section where no title follows.
pub open spec fn run_len(sections: Seq<SectionView>, from: nat) -> nat
    decreases sections.len() - from,
{
    if from >= sections.len() {
        0
    } else if sections[from as int].tag == SECTION_TAG_TITLE@ {
        0
    } else {
        1 + run_len(sections, from + 1)
    }
}

/// A run of sections ends with the sections.
pub proof fn lemma_run_is_inside(sections: Seq<SectionView>, from: nat)
    requires
        from <= sections.len(),
    ensures
        from + run_len(sections, from) <= sections.len(),
    decreases sections.len() - from,
{
    if from < sections.len() && sections[from as int].tag != SECTION_TAG_TITLE@ {
        lemma_run_is_inside(sections, from + 1);
    }
}

/// The macros that the sections from the one at `from` on stand for, where
/// each title begins a macro that reaches up to the next title. The first
/// group that has not the shape of a macro makes it `InvalidInput`.
pub open spec fn grouped_macros(sections: Seq<SectionView>, from: nat) -> Result<
    Seq<MacroView>,
    ErrorKind,
>
    decreases sections.len() - from,
{
    if from >= sections.len() {
        Ok(Seq::empty())
    } else {
        let end = from + 1 + run_len(sections, from + 1);
        proof {
            lemma_run_is_inside(sections, from + 1);
        }
        match macro_of_sections(sections.subrange(from as int, end as int)) {
            Err(kind) => Err(kind),
            Ok(first) => match grouped_macros(sections, end) {
                Err(kind) => Err(kind),
                Ok(rest) => Ok(seq![first] + rest),
            },
        }
    }
}

/// The macros that the sections in some bytes stand for, or why they stand
/// for none.
pub open spec fn decode_macros(bytes: Seq<u8>) -> Result<Seq<MacroView>, ErrorKind> {
    match decode_sections(bytes) {
        Err(kind) => Err(kind),
        Ok(sections) => grouped_macros(sections, 0),
    }
}

/// Decodes the macro that the sections in `bytes` stand for. The texts of
/// the macro are borrowed from the bytes. Neither the number of the lines
/// nor what the sections hold is checked.
///
/// Fails as [`as_section_vec`] does, and with `InvalidInput` where the
/// sections are not a title, the id of an icon, the key of an icon and one
/// line or more, in this order.
pub fn as_macro(bytes: &[u8]) -> (res_macro: Result<MacroData, DATError>)
    ensures
        macro_agrees(res_macro, decode_macro(bytes@)),
{
    let sec_vec = as_section_vec(bytes)?;
    MacroData::from_section_data_unsafe(sec_vec)
}

/// Groups sections into macros: each title begins a macro that reaches up to
/// the next title.
fn group_sections<'a>(sections: &Vec<SectionData<'a>>) -> (macros: Result<
    Vec<MacroData<'a>>,
    DATError,
>)
    ensures
        macros_agree(macros, grouped_macros(section_views(sections@), 0)),
{
    let ghost views = section_views(sections@);
    let mut macro_vec: Vec<MacroData<'a>> = Vec::new();
    let mut start: usize = 0;
    assert(macro_views(macro_vec@) =~= Seq::<MacroView>::empty());
    while start < sections.len()
        invariant
            start <= sections@.len(),
            views == section_views(sections@),
            match grouped_macros(views, start as nat) {
                Ok(rest) => grouped_macros(views, 0) == Ok::<Seq<MacroView>, ErrorKind>(
                    macro_views(macro_vec@) + rest,
                ),
                Err(kind) => grouped_macros(views, 0) == Err::<Seq<MacroView>, ErrorKind>(kind),
            },
        decreases sections@.len() - start,
    {
        let mut sec_vec: Vec<SectionData<'a>> = Vec::new();
        sec_vec.push(sections[start]);
        let mut end: usize = start + 1;
        while end < sections.len() && !str_eq(sections[end].tag, SECTION_TAG_TITLE)
            invariant
                start < end <= sections@.len(),
                views == section_views(sections@),
                sec_vec@ == sections@.subrange(start as int, end as int),
                run_len(views, (start + 1) as nat) == end - (start + 1) + run_len(
                    views,
                    end as nat,
                ),
            decreases sections@.len() - end,
        {
            assert(views[end as int].tag == sections@[end as int].tag@);
            sec_vec.push(sections[end]);
            end += 1;
            assert(sec_vec@ =~= sections@.subrange(start as int, end as int));
        }
        proof {
            if end < sections@.len() {
                assert(views[end as int].tag == sections@[end as int].tag@);
            }
            assert(run_len(views, end as nat) == 0);
            assert(section_views(sec_vec@) =~= views.subrange(start as int, end as int));
        }
        let next_macro = MacroData::from_section_data_unsafe(sec_vec)?;
        proof {
            assert(macro_views(macro_vec@.push(next_macro)) =~= macro_views(macro_vec@) + seq![
                next_macro@,
            ]);
            match grouped_macros(views, end as nat) {
                Ok(later) => {
                    assert(macro_views(macro_vec@) + (seq![next_macro@] + later) =~= macro_views(
                        macro_vec@.push(next_macro),
                    ) + later);
                },
                Err(_) => {},
            }
        }
        macro_vec.push(next_macro);
        start = end;
    }
    assert(macro_views(macro_vec@) + Seq::<MacroView>::empty() =~= macro_views(macro_vec@));
    Ok(macro_vec)
}

/// Decodes the macros that the sections in `bytes` stand for: each title
/// begins a macro that reaches up to the next title. The texts of the macros
/// are borrowed from the bytes. Neither the number of the macros, nor that of
/// their lines, nor what the sections hold is checked.
///
/// Fails as [`as_section_vec`] does, and with `InvalidInput` where the
/// sections of a macro are not a title, the id of an icon, the key of an icon
/// and one line or more, in this order.
pub fn as_macro_vec(bytes: &[u8]) -> (macros: Result<Vec<MacroData>, DATError>)
    ensures
        macros_agree(macros, decode_macros(bytes@)),
{
    let sections = as_section_vec(bytes)?;
    group_sections(&sections)
}

/// The bytes that stand for some macros in a file: their encodings, one
/// behind the other, or `Overflow` where a part of one of them is too long
/// for the section that holds it.
pub open spec fn macros_encoding(macros: Seq<MacroView>) -> Result<Seq<u8>, ErrorKind>
    decreases macros.len(),
{
    if macros.len() == 0 {
        Ok(Seq::empty())
    } else {
        match macro_encoding(macros[0]) {
            Err(kind) => Err(kind),
            Ok(first) => match macros_encoding(macros.drop_first()) {
                Err(kind) => Err(kind),
                Ok(rest) => Ok(first + rest),
            },
        }
    }
}

/// What is wrong with the first of some macros that the game does not
/// accept, if there is one.
pub open spec fn first_refusal(macros: Seq<MacroView>) -> Option<ErrorKind>
    decreases macros.len(),
{
    if macros.len() == 0 {
        None
    } else {
        match macros[0].refusal() {
            Some(kind) => Some(kind),
            None => first_refusal(macros.drop_first()),
        }
    }
}

/// Some macros, followed by blank macros up to the number that a file
/// holds.
pub open spec fn padded_macros(macros: Seq<MacroView>) -> Seq<MacroView> {
    macros + Seq::new((EXPECTED_ITEM_COUNT - macros.len()) as nat, |i: int| MacroView::blank())
}

/// The content of the macro file that holds some macros: `Overflow` where
/// they are more than 100; else what is wrong with the first of them that
/// the game does not accept; else the encodings of the macros and of the
/// blank macros that fill the file up to 100.
pub open spec fn file_encoding(macros: Seq<MacroView>) -> Result<Seq<u8>, ErrorKind> {
    if macros.len() > EXPECTED_ITEM_COUNT {
        Err(ErrorKind::Overflow)
    } else {
        match first_refusal(padded_macros(macros)) {
            Some(kind) => Err(kind),
            None => macros_encoding(padded_macros(macros)),
        }
    }
}

/// The blank macro is one that the game accepts.
pub proof fn lemma_blank_is_valid()
    ensures
        MacroView::blank().is_valid(),
{
    icon::lemma_icon_round_trip(MacroIcon::NoIcon);
    let blank = MacroView::blank();
    assert(blank.lines.len() == LINE_COUNT);
    assert forall|i: int| 0 <= i < blank.lines.len() implies (#[trigger] blank.lines[i]).len()
        <= MAX_LINE_LENGTH by {}
}

/// Encodes macros as the content of a macro file: checks each against what
/// the game expects of a macro, and fills the file up to 100 macros with
/// blank ones.
///
/// Fails with `Overflow` where there are more than 100 macros, and else with
/// what is wrong with the first macro that the game does not accept.
pub fn as_writeable_bytes(macros: &[MacroData]) -> (bytes: Result<Vec<u8>, DATError>)
    ensures
        bytes_agree(bytes, file_encoding(macro_views(macros@))),
{
    let macros_len: usize = macros.len();
    if macros_len > EXPECTED_ITEM_COUNT {
        return Err(DATError::Overflow("A valid macro file cannot contain more than 100 macros."));
    }
    let ghost views = macro_views(macros@);
    let ghost padded = padded_macros(views);
    proof {
        lemma_blank_is_valid();
        reveal_strlit("");
    }
    let no_lines: Vec<&str> = Vec::new();
    let ghost given = text_views(no_lines@);
    proof {
        assert(""@ =~= Seq::<char>::empty());
        assert(given =~= Seq::<Seq<char>>::empty());
    }
    let blank = MacroData::new("", no_lines, &MacroIcon::NoIcon)?;
    let mut i: usize = 0;
    assert(padded.subrange(0, EXPECTED_ITEM_COUNT as int) =~= padded);
    while i < EXPECTED_ITEM_COUNT
        invariant
            i <= EXPECTED_ITEM_COUNT,
            macros_len == macros@.len(),
            macros_len <= EXPECTED_ITEM_COUNT,
            views == macro_views(macros@),
            padded == padded_macros(views),
            blank@ == MacroView::blank(),
            first_refusal(padded) == first_refusal(
                padded.subrange(i as int, EXPECTED_ITEM_COUNT as int),
            ),
        decreases EXPECTED_ITEM_COUNT - i,
    {
        let macro_item: &MacroData = if i < macros_len {
            &macros[i]
        } else {
            &blank
        };
        proof {
            let rest = padded.subrange(i as int, EXPECTED_ITEM_COUNT as int);
            assert(rest[0] == macro_item@);
            assert(rest.drop_first() =~= padded.subrange(i + 1, EXPECTED_ITEM_COUNT as int));
        }
        match macro_item.validate() {
            Some(err) => {
                return Err(err);
            },
            None => (),
        }
        i += 1;
    }
    let mut res_vec: Vec<u8> = Vec::new();
    let mut i: usize = 0;
    while i < EXPECTED_ITEM_COUNT
        invariant
            i <= EXPECTED_ITEM_COUNT,
            macros_len == macros@.len(),
            macros_len <= EXPECTED_ITEM_COUNT,
            views == macro_views(macros@),
            padded == padded_macros(views),
            blank@ == MacroView::blank(),
            first_refusal(padded) is None,
            match macros_encoding(padded.subrange(i as int, EXPECTED_ITEM_COUNT as int)) {
                Ok(rest) => macros_encoding(padded) == Ok::<Seq<u8>, ErrorKind>(res_vec@ + rest),
                Err(kind) => macros_encoding(padded) == Err::<Seq<u8>, ErrorKind>(kind),
            },
        decreases EXPECTED_ITEM_COUNT - i,
    {
        let macro_item: &MacroData = if i < macros_len {
            &macros[i]
        } else {
            &blank
        };
        proof {
            let rest = padded.subrange(i as int, EXPECTED_ITEM_COUNT as int);
            assert(rest[0] == macro_item@);
            assert(rest.drop_first() =~= padded.subrange(i + 1, EXPECTED_ITEM_COUNT as int));
        }
        let mut macro_bytes = macro_item.as_bytes()?;
        proof {
            match macros_encoding(padded.subrange(i + 1, EXPECTED_ITEM_COUNT as int)) {
                Ok(later) => {
                    assert(res_vec@ + (macro_bytes@ + later) =~= (res_vec@ + macro_bytes@) + later);
                },
                Err(_) => {},
            }
        }
        res_vec.append(&mut macro_bytes);
        i += 1;
    }
    assert(res_vec@ + Seq::<u8>::empty() =~= res_vec@);
    Ok(res_vec)
}

/// Encodes macros as the bytes that stand for them in a file, one behind the
/// other. Neither their number nor what they hold is checked.
///
/// Fails with `Overflow` where a part of a macro is longer than
/// `u16::MAX - 1` bytes.
pub fn as_writeable_bytes_unsafe(macros: &[MacroData]) -> (bytes: Result<Vec<u8>, DATError>)
    ensures
        bytes_agree(bytes, macros_encoding(macro_views(macros@))),
{
    let ghost views = macro_views(macros@);
    let mut res_vec: Vec<u8> = Vec::new();
    let mut i: usize = 0;
    assert(views.subrange(0, macros@.len() as int) =~= views);
    while i < macros.len()
        invariant
            i <= macros@.len(),
            views == macro_views(macros@),
            match macros_encoding(views.subrange(i as int, macros@.len() as int)) {
                Ok(rest) => macros_encoding(views) == Ok::<Seq<u8>, ErrorKind>(res_vec@ + rest),
                Err(kind) => macros_encoding(views) == Err::<Seq<u8>, ErrorKind>(kind),
            },
        decreases macros@.len() - i,
    {
        proof {
            let rest = views.subrange(i as int, macros@.len() as int);
            assert(rest[0] == macros@[i as int]@);
            assert(rest.drop_first() =~= views.subrange(i + 1, macros@.len() as int));
        }
        let mut macro_bytes = macros[i].as_bytes()?;
        proof {
            match macros_encoding(views.subrange(i + 1, macros@.len() as int)) {
                Ok(later) => {
                    assert(res_vec@ + (macro_bytes@ + later) =~= (res_vec@ + macro_bytes@) + later);
                },
                Err(_) => {},
            }
        }
        res_vec.append(&mut macro_bytes);
        i += 1;
    }
    assert(res_vec@ + Seq::<u8>::empty() =~= res_vec@);
    Ok(res_vec)
}

/// Borrows the texts of some macros.
fn borrow_macros<'a>(macros: &'a [Macro]) -> (borrowed: Vec<MacroData<'a>>)
    ensures
        macro_views(borrowed@) == macro_views(macros@),
{
    let mut borrowed: Vec<MacroData<'a>> = Vec::new();
    let mut i: usize = 0;
    while i < macros.len()
        invariant
            i <= macros@.len(),
            borrowed@.len() == i,
            forall|j: int| 0 <= j < i ==> (#[trigger] borrowed@[j])@ == macros@[j]@,
        decreases macros@.len() - i,
    {
        borrowed.push(MacroData::from(&macros[i]));
        i += 1;
    }
    assert(macro_views(borrowed@) =~= macro_views(macros@));
    borrowed
}

/// Encodes macros as the content of a macro file: checks each against what
/// the game expects of a macro, and fills the file up to 100 macros with
/// blank ones.
///
/// Fails with `Overflow` where there are more than 100 macros, and else with
/// what is wrong with the first macro that the game does not accept.
pub fn to_writeable_bytes(macros: &[Macro]) -> (bytes: Result<Vec<u8>, DATError>)
    ensures
        bytes_agree(bytes, file_encoding(macro_views(macros@))),
{
    let borrowed = borrow_macros(macros);
    as_writeable_bytes(borrowed.as_slice())
}

/// Encodes macros as the bytes that stand for them in a file, one behind the
/// other. Neither their number nor what they hold is checked.
///
/// Fails with `Overflow` where a part of a macro is longer than
/// `u16::MAX - 1` bytes.
pub fn to_writeable_bytes_unsafe(macros: &[Macro]) -> (bytes: Result<Vec<u8>, DATError>)
    ensures
        bytes_agree(bytes, macros_encoding(macro_views(macros@))),
{
    let borrowed = borrow_macros(macros);
    as_writeable_bytes_unsafe(borrowed.as_slice())
}

/// The macros that are read from a file image whose container is of a type
/// that holds sections: the sections that are read from it, grouped at their
/// titles.
pub open spec fn image_macros(image: Seq<u8>) -> Result<Seq<MacroView>, ErrorKind> {
    match typed_image_sections(image) {
        Err(kind) => Err(kind),
        Ok(sections) => grouped_macros(sections, 0),
    }
}

/// Reads all the macros of the macro file that a file image holds. A macro
/// file of the game holds 100 macros; a file that holds more or fewer is read
/// all the same, and what the macros hold is not checked.
///
/// The sections are read as [`read_section_content`] reads them, and each
/// title begins a macro that reaches up to the next title.
///
/// Fails where [`crate::dat_file::DATFile::open`] does, with `IncorrectType`
/// where the container is not of the type `Macro`, and otherwise as
/// [`read_macro_content_unsafe`] does.
pub fn read_macro_content(image: &[u8]) -> (macros: Result<Vec<Macro>, DATError>)
    ensures
        macros_agree(
            macros,
            if image_refusal(image@) is None && opened(image@).file_type != DATType::Macro {
                Err(ErrorKind::IncorrectType)
            } else {
                image_macros(image@)
            },
        ),
{
    if check_type(image)? != DATType::Macro {
        Err(DATError::IncorrectType("Attempted to read a macro from a non-macro file."))
    } else {
        read_macro_content_unsafe(image)
    }
}

/// Reads all the macros of the container that a file image holds, whether
/// the container is of the type `Macro` or of another type that holds
/// sections. Neither the number of the macros nor what they hold is checked.
///
/// The sections are read as [`read_section_content`] reads them, and each
/// title begins a macro that reaches up to the next title.
///
/// Fails as [`read_section_content`] does, and with `InvalidInput` where the
/// sections of a macro are not a title, the id of an icon, the key of an icon
/// and one line or more, in this order.
pub fn read_macro_content_unsafe(image: &[u8]) -> (macros: Result<Vec<Macro>, DATError>)
    ensures
        macros_agree(macros, image_macros(image@)),
{
    let sections = read_section_content(image)?;
    let mut borrowed: Vec<SectionData> = Vec::new();
    let mut i: usize = 0;
    while i < sections.len()
        invariant
            i <= sections@.len(),
            borrowed@.len() == i,
            forall|j: int| 0 <= j < i ==> (#[trigger] borrowed@[j])@ == sections@[j]@,
        decreases sections@.len() - i,
    {
        borrowed.push(SectionData::from(&sections[i]));
        i += 1;
    }
    assert(section_views(borrowed@) =~= section_views(sections@));
    let macro_data = group_sections(&borrowed)?;
    let mut macro_vec: Vec<Macro> = Vec::new();
    let mut i: usize = 0;
    while i < macro_data.len()
        invariant
            i <= macro_data@.len(),
            macro_vec@.len() == i,
            forall|j: int| 0 <= j < i ==> (#[trigger] macro_vec@[j])@ == macro_data@[j]@,
        decreases macro_data@.len() - i,
    {
        macro_vec.push(Macro::from(&macro_data[i]));
        i += 1;
    }
    assert(macro_views(macro_vec@) =~= macro_views(macro_data@));
    Ok(macro_vec)
}

/// No part of a macro that the game accepts is too long for the section that
/// holds it.
pub proof fn lemma_valid_macro_has_sections(m: MacroView)
    requires
        m.is_valid(),
    ensures
        !has_oversized_part(m),
{
    lemma_utf8_len_bound(m.title);
    let icon = icon_of(m.icon_key, m.icon_id).unwrap();
    icon::lemma_icon_of_is_exact(m.icon_key, m.icon_id);
    icon::lemma_icon_texts_are_hex(icon);
    lemma_utf8_len_bound(m.icon_key);
    lemma_utf8_len_bound(m.icon_id);
    assert forall|i: int| 0 <= i < m.lines.len() implies !is_oversized(#[trigger] m.lines[i]) by {
        lemma_utf8_len_bound(m.lines[i]);
    }
}

/// A macro with at least one line is found again from the sections that
/// stand for it.
pub proof fn lemma_macro_of_its_sections(m: MacroView)
    requires
        m.lines.len() >= 1,
    ensures
        macro_of_sections(macro_sections(m)) == Ok::<MacroView, ErrorKind>(m),
{
    let sections = macro_sections(m);
    assert(sections.len() == 3 + m.lines.len());
    assert forall|i: int| 3 <= i < sections.len() implies (#[trigger] sections[i]).tag
        == SECTION_TAG_LINE@ by {
        assert(sections[i] == section_of(SECTION_TAG_LINE@, m.lines[i - 3]));
    }
    assert(shaped_macro(sections).lines =~= m.lines) by {
        assert forall|i: int| 0 <= i < m.lines.len() implies shaped_macro(sections).lines[i]
            == m.lines[i] by {
            assert(sections.subrange(3, sections.len() as int)[i] == sections[i + 3]);
        }
    }
}

/// A macro that the game accepts is built again, and accepted again, from
/// the sections that stand for it.
pub proof fn lemma_macro_round_trip(m: MacroView)
    requires
        m.is_valid(),
    ensures
        !has_oversized_part(m),
        macro_of_sections(macro_sections(m)) == Ok::<MacroView, ErrorKind>(m),
        valid_macro_of_sections(macro_sections(m)) == Ok::<MacroView, ErrorKind>(m),
{
    lemma_valid_macro_has_sections(m);
    lemma_macro_of_its_sections(m);
}

/// The sections that are read from the cursor of a container up to the next
/// title, and the container as it is then. The title that ends the run is
/// read as well, so the cursor stands behind it. The run also ends where the
/// content of the container does.
pub open spec fn following_sections(file: DATFileView) -> (
    Result<Seq<SectionView>, ErrorKind>,
    DATFileView,
)
    decreases left_to_read(file),
    when file.wf()
{
    let (read, next) = section_read(file);
    match read {
        Err(kind) => if kind == ErrorKind::EndOfFile {
            (Ok(Seq::empty()), next)
        } else {
            (Err(kind), next)
        },
        Ok(section) => if section.tag == SECTION_TAG_TITLE@ {
            (Ok(Seq::empty()), next)
        } else {
            proof {
                lemma_section_read_advances(file);
            }
            match following_sections(next) {
                (Ok(rest), last) => (Ok(seq![section] + rest), last),
                (Err(kind), last) => (Err(kind), last),
            }
        },
    }
}

/// The macro that is read at the cursor of a container that holds sections,
/// and the container as it is then: the section at the cursor and those that
/// follow it up to the next title, taken as a macro.
pub open spec fn macro_read(file: DATFileView) -> (Result<MacroView, ErrorKind>, DATFileView) {
    if !is_section_based(file.file_type) {
        (Err(ErrorKind::IncorrectType), file)
    } else {
        let (first, next) = section_read(file);
        match first {
            Err(kind) => (Err(kind), next),
            Ok(title) => match following_sections(next) {
                (Err(kind), last) => (Err(kind), last),
                (Ok(rest), last) => (macro_of_sections(seq![title] + rest), last),
            },
        }
    }
}

/// Reads the macro at the cursor of a macro file: the section at the cursor
/// and those that follow it up to the next title. Neither the number of the
/// lines nor what the sections hold is checked.
///
/// The title that follows the macro is read as well and given up, so the
/// cursor then stands behind the title of the next macro.
///
/// Fails with `IncorrectType` where the container is not of the type
/// `Macro`; the cursor then stays. Fails otherwise as [`read_macro_unsafe`]
/// does.
pub fn read_macro(dat_file: &mut DATFile) -> (res_macro: Result<Macro, DATError>)
    requires
        old(dat_file)@.wf(),
    ensures
        final(dat_file)@.wf(),
        old(dat_file)@.file_type == DATType::Macro ==> macro_agrees(
            res_macro,
            macro_read(old(dat_file)@).0,
        ) && final(dat_file)@ == macro_read(old(dat_file)@).1,
        old(dat_file)@.file_type != DATType::Macro ==> fails_with(
            res_macro,
            ErrorKind::IncorrectType,
        ) && final(dat_file)@ == old(dat_file)@,
{
    if dat_file.file_type() != DATType::Macro {
        Err(DATError::IncorrectType("Attempted to read a macro from a non-macro file."))
    } else {
        read_macro_unsafe(dat_file)
    }
}

/// Reads the macro at the cursor of a container that holds sections: the
/// section at the cursor and those that follow it up to the next title.
/// Neither the number of the lines nor what the sections hold is checked.
///
/// The title that follows the macro is read as well and given up, so the
/// cursor then stands behind the title of the next macro.
///
/// Fails as [`read_section`] does where a section cannot be read, but for
/// the end of the content, which ends the macro; and with `InvalidInput`
/// where the sections are not a title, the id of an icon, the key of an icon
/// and one line or more, in this order.
pub fn read_macro_unsafe(dat_file: &mut DATFile) -> (res_macro: Result<Macro, DATError>)
    requires
        old(dat_file)@.wf(),
    ensures
        final(dat_file)@.wf(),
        macro_agrees(res_macro, macro_read(old(dat_file)@).0),
        final(dat_file)@ == macro_read(old(dat_file)@).1,
{
    proof {
        lemma_section_read_advances(dat_file@);
    }
    let ghost origin = dat_file@;
    let title_sec = read_section(dat_file)?;
    let ghost title = title_sec@;
    let ghost start = dat_file@;
    let mut sec_vec: Vec<Section> = Vec::new();
    sec_vec.push(title_sec);
    assert(section_views(sec_vec@) =~= seq![title]);
    loop
        invariant_except_break
            dat_file@.wf(),
            start.wf(),
            origin == old(dat_file)@,
            is_section_based(origin.file_type),
            section_read(origin) == (Ok::<SectionView, ErrorKind>(title), start),
            is_section_based(dat_file@.file_type),
            sec_vec@.len() >= 1,
            section_views(sec_vec@)[0] == title,
            match following_sections(dat_file@) {
                (Ok(rest), last) => following_sections(start) == (
                    Ok::<Seq<SectionView>, ErrorKind>(
                        section_views(sec_vec@).drop_first() + rest,
                    ),
                    last,
                ),
                (Err(kind), last) => following_sections(start) == (
                    Err::<Seq<SectionView>, ErrorKind>(kind),
                    last,
                ),
            },
        ensures
            dat_file@.wf(),
            sec_vec@.len() >= 1,
            section_views(sec_vec@)[0] == title,
            following_sections(start) == (
                Ok::<Seq<SectionView>, ErrorKind>(section_views(sec_vec@).drop_first()),
                dat_file@,
            ),
        decreases left_to_read(dat_file@),
    {
        let ghost before = dat_file@;
        proof {
            lemma_section_read_advances(before);
        }
        match read_section(dat_file) {
            Ok(next_section) => {
                if str_eq(next_section.tag.as_str(), SECTION_TAG_TITLE) {
                    assert(section_views(sec_vec@).drop_first() + Seq::<SectionView>::empty()
                        =~= section_views(sec_vec@).drop_first());
                    break ;
                }
                proof {
                    let views = section_views(sec_vec@);
                    let grown = section_views(sec_vec@.push(next_section));
                    assert(grown =~= views.push(next_section@));
                    assert(grown.drop_first() =~= views.drop_first().push(next_section@));
                    match following_sections(dat_file@) {
                        (Ok(later), _) => {
                            assert(views.drop_first() + (seq![next_section@] + later)
                                =~= grown.drop_first() + later);
                        },
                        (Err(_), _) => {},
                    }
                }
                sec_vec.push(next_section);
            },
            Err(err) => {
                match err {
                    DATError::EndOfFile(_) => {
                        assert(section_views(sec_vec@).drop_first() + Seq::<SectionView>::empty()
                            =~= section_views(sec_vec@).drop_first());
                        break ;
                    },
                    _ => {
                        return Err(err);
                    },
                }
            },
        }
    }
    assert(section_views(sec_vec@) =~= seq![title] + section_views(sec_vec@).drop_first());
    Macro::from_sections_unsafe(sec_vec)
}

/// Writes macros to the container that a file image holds, as its whole
/// content: checks each against what the game expects of a macro, and fills
/// the file up to 100 macros with blank ones. Returns the image of the
/// container as it is then, and the number of bytes written.
///
/// Where the container is a macro file, what [`read_macro_content`] reads
/// from the image that is returned is the macros that were written, followed
/// by the blank ones.
///
/// Fails as [`to_writeable_bytes`] does, and then as
/// [`crate::dat_file::write_content`] does.
pub fn write_macro_content(image: Vec<u8>, macros: &[Macro]) -> (written: Result<
    (Vec<u8>, usize),
    DATError,
>)
    ensures
        match file_encoding(macro_views(macros@)) {
            Err(kind) => fails_with(written, kind),
            Ok(bytes) => match content_replaced(image@, bytes) {
                Err(kind) => fails_with(written, kind),
                Ok(after) => written matches Ok(w) && {
                    &&& w.0@ == after.raw
                    &&& w.1 == bytes.len()
                    &&& image_refusal(w.0@) is None
                    &&& opened(w.0@).content() == bytes
                    &&& opened(image@).has_full_length() ==> opened(w.0@).has_full_length()
                    &&& opened(image@).file_type == DATType::Macro ==> image_macros(w.0@) == Ok::<
                        Seq<MacroView>,
                        ErrorKind,
                    >(padded_macros(macro_views(macros@)))
                },
            },
        },
{
    let bytes = to_writeable_bytes(macros)?;
    let image_len: usize = image.len();
    proof {
        let views = macro_views(macros@);
        if content_replaced(image@, bytes@) is Ok && opened(image@).file_type == DATType::Macro {
            lemma_accepted_image_is_well_formed(image@);
            laws::lemma_unrefused_macros_are_valid(padded_macros(views));
            assert forall|i: int| 0 <= i < views.len() implies (#[trigger] views[i]).is_valid() by {
                assert(views[i] == padded_macros(views)[i]);
            }
            laws::lemma_written_macros_are_read(opened(image@), views);
        }
    }
    write_content(image, bytes.as_slice())
}

} // verus!
