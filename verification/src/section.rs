//! Sections: the tag-length-value records that the content of some
//! containers is made of.
//!
//! A record on disk is a tag of one byte, the size of its content as a
//! little-endian `u16`, the content as UTF-8, and a closing zero byte, which
//! the size counts.
//!
//! ```text
//! 0     1           3
//! | tag | content   | content ...        | 0 |
//! |     | size      |                    |   |
//! ```
//!
//! [`Section`] owns its texts; [`SectionData`] borrows them.
use crate::dat_error::{ends_as, fails_with, DATError, ErrorKind};
use crate::dat_file::{check_type, image_refusal, opened, DATFile, DATFileView};
use crate::dat_type::DATType;
use crate::endian::{le_u16, u16_from_le, u16_le, u16_to_le};
use crate::raw_file::SeekFrom;
use crate::text::{str_from_utf8, utf8_len};
use vstd::prelude::*;
use vstd::slice::*;
use vstd::string::*;
use vstd::utf8::*;

verus! {

/// The size in bytes of the header of a record: the tag and the content
/// size.
pub const SECTION_HEADER_SIZE: usize = 3;

/// The types of container that are made of sections. `Unknown` is among
/// them, since nothing is known of its content.
pub const SECTION_BASED_TYPES: [DATType; 5] = [
    DATType::ACQ,
    DATType::KEYBIND,
    DATType::MACRO,
    DATType::MACROSYS,
    DATType::Unknown,
];

/// Whether containers of a type are made of sections.
pub open spec fn is_section_based(file_type: DATType) -> bool {
    ||| file_type == DATType::RecentTells
    ||| file_type == DATType::Keybind
    ||| file_type == DATType::Macro
    ||| file_type == DATType::Unknown
}

/// What a section is: its tag, its content and the content size it
/// declares.
pub struct SectionView {
    /// The tag: a text of one byte that tells what the content is.
    pub tag: Seq<char>,
    /// The content.
    pub content: Seq<char>,
    /// The size of the content in bytes, the closing zero byte included.
    pub content_size: u16,
}

impl SectionView {
    /// Whether the section can stand in a file: its tag is one byte, and its
    /// content size is that of its content and the closing zero byte.
    pub open spec fn is_valid(self) -> bool {
        &&& encode_utf8(self.tag).len() == 1
        &&& self.content_size == encode_utf8(self.content).len() + 1
    }

    /// The bytes that stand for the section in a file: the tag, the content
    /// size, the content and a zero byte.
    pub open spec fn encoding(self) -> Seq<u8> {
        encode_utf8(self.tag) + u16_le(self.content_size) + encode_utf8(self.content) + seq![0u8]
    }
}

/// A section that owns its texts.
#[derive(Clone, Debug, PartialEq, Eq)]
pub struct Section {
    /// The content of the section.
    pub content: String,
    /// The size of the content in bytes, the closing zero byte included.
    pub content_size: u16,
    /// The tag: a text of one byte. What a tag means depends on the type of
    /// the file.
    pub tag: String,
}

/// A section that borrows its texts.
#[derive(Clone, Copy, Debug, PartialEq, Eq)]
pub struct SectionData<'a> {
    /// The content of the section.
    pub content: &'a str,
    /// The size of the content in bytes, the closing zero byte included.
    pub content_size: u16,
    /// The tag: a text of one byte. What a tag means depends on the type of
    /// the file.
    pub tag: &'a str,
}

impl View for Section {
    type V = SectionView;

    open spec fn view(&self) -> SectionView {
        SectionView { tag: self.tag@, content: self.content@, content_size: self.content_size }
    }
}

impl<'a> View for SectionData<'a> {
    type V = SectionView;

    open spec fn view(&self) -> SectionView {
        SectionView { tag: self.tag@, content: self.content@, content_size: self.content_size }
    }
}

/// Why a tag and a content make no section, if they make none:
/// `InvalidInput` where the tag is not one byte, `Overflow` where the content
/// and its closing zero byte are more than a `u16` counts.
pub open spec fn section_refusal(tag: Seq<char>, content: Seq<char>) -> Option<ErrorKind> {
    if encode_utf8(tag).len() != 1 {
        Some(ErrorKind::InvalidInput)
    } else if encode_utf8(content).len() + 1 > u16::MAX {
        Some(ErrorKind::Overflow)
    } else {
        None
    }
}

/// The section that a tag and a content make.
pub open spec fn section_of(tag: Seq<char>, content: Seq<char>) -> SectionView {
    SectionView { tag, content, content_size: (encode_utf8(content).len() + 1) as u16 }
}

impl Section {
    /// Builds a section from a tag and a content, and counts the content
    /// size.
    ///
    /// Fails with `InvalidInput` where the tag is not one byte, and with
    /// `Overflow` where the content is longer than `u16::MAX - 1` bytes.
    pub fn new(tag: String, content: String) -> (section: Result<Section, DATError>)
        ensures
            ends_as(section, section_refusal(tag@, content@)),
            section matches Ok(s) ==> s@ == section_of(tag@, content@) && s@.is_valid(),
    {
        if utf8_len(tag.as_str()) != 1 {
            return Err(DATError::InvalidInput("Tags may only be a single character in length."));
        }
        let content_len: usize = utf8_len(content.as_str());
        if content_len >= u16::MAX as usize {
            return Err(
                DATError::Overflow("Section content exceeds maximum possible size (u16::MAX - 1)."),
            );
        }
        Ok(Section { content, content_size: (content_len + 1) as u16, tag })
    }
}

impl<'a> SectionData<'a> {
    /// Builds a section from a tag and a content, and counts the content
    /// size.
    ///
    /// Fails with `InvalidInput` where the tag is not one byte, and with
    /// `Overflow` where the content is longer than `u16::MAX - 1` bytes.
    pub fn new(tag: &'a str, content: &'a str) -> (section: Result<SectionData<'a>, DATError>)
        ensures
            ends_as(section, section_refusal(tag@, content@)),
            section matches Ok(s) ==> s@ == section_of(tag@, content@) && s@.is_valid(),
    {
        if utf8_len(tag) != 1 {
            return Err(DATError::InvalidInput("Tags may only be a single character in length."));
        }
        let content_len: usize = utf8_len(content);
        if content_len >= u16::MAX as usize {
            return Err(
                DATError::Overflow("Section content exceeds maximum possible size (u16::MAX - 1)."),
            );
        }
        Ok(SectionData { content, content_size: (content_len + 1) as u16, tag })
    }
}

impl From<&SectionData<'_>> for Section {
    /// Copies the texts that a section borrows.
    fn from(x: &SectionData) -> (section: Section)
        ensures
            section@ == x@,
    {
        Section { content: x.content.to_owned(), content_size: x.content_size, tag: x.tag.to_owned() }
    }
}

impl vstd::std_specs::convert::FromSpecImpl<&SectionData<'_>> for Section {
    open spec fn obeys_from_spec() -> bool {
        false
    }

    open spec fn from_spec(x: &SectionData) -> Section {
        arbitrary()
    }
}

impl<'a> vstd::std_specs::convert::FromSpecImpl<&'a Section> for SectionData<'a> {
    open spec fn obeys_from_spec() -> bool {
        false
    }

    open spec fn from_spec(x: &'a Section) -> SectionData<'a> {
        arbitrary()
    }
}

impl vstd::std_specs::convert::FromSpecImpl<Section> for Vec<u8> {
    open spec fn obeys_from_spec() -> bool {
        false
    }

    open spec fn from_spec(x: Section) -> Vec<u8> {
        arbitrary()
    }
}

impl vstd::std_specs::convert::FromSpecImpl<SectionData<'_>> for Vec<u8> {
    open spec fn obeys_from_spec() -> bool {
        false
    }

    open spec fn from_spec(x: SectionData) -> Vec<u8> {
        arbitrary()
    }
}

impl<'a> From<&'a Section> for SectionData<'a> {
    /// Borrows the texts that a section owns.
    fn from(x: &'a Section) -> (section: SectionData<'a>)
        ensures
            section@ == x@,
    {
        SectionData { content: x.content.as_str(), content_size: x.content_size, tag: x.tag.as_str() }
    }
}

/// Puts the bytes that stand for a section in a file behind `bytes`.
pub(crate) fn push_encoding(bytes: &mut Vec<u8>, tag: &str, content_size: u16, content: &str)
    ensures
        final(bytes)@ == old(bytes)@ + (SectionView {
            tag: tag@,
            content: content@,
            content_size,
        }).encoding(),
{
    let size_bytes = u16_to_le(content_size);
    bytes.extend_from_slice(tag.as_bytes());
    bytes.extend_from_slice(size_bytes.as_slice());
    bytes.extend_from_slice(content.as_bytes());
    bytes.push(0u8);
    assert(bytes@ =~= old(bytes)@ + (SectionView {
        tag: tag@,
        content: content@,
        content_size,
    }).encoding());
}

impl From<Section> for Vec<u8> {
    /// Encodes a section as the bytes that stand for it in a file. Nothing
    /// is checked: a section that was built by hand is encoded as it is.
    fn from(x: Section) -> (bytes: Vec<u8>)
        ensures
            bytes@ == x@.encoding(),
    {
        let mut bytes: Vec<u8> = Vec::new();
        push_encoding(&mut bytes, x.tag.as_str(), x.content_size, x.content.as_str());
        bytes
    }
}

impl From<SectionData<'_>> for Vec<u8> {
    /// Encodes a section as the bytes that stand for it in a file. Nothing
    /// is checked: a section that was built by hand is encoded as it is.
    fn from(x: SectionData) -> (bytes: Vec<u8>)
        ensures
            bytes@ == x@.encoding(),
    {
        let mut bytes: Vec<u8> = Vec::new();
        push_encoding(&mut bytes, x.tag, x.content_size, x.content);
        bytes
    }
}

/// The section that stands in `bytes`, which must hold it from the tag to the
/// closing zero byte and nothing else, or why they hold none.
///
/// Bytes that cannot hold a header are an `Underflow`. A tag that is not
/// UTF-8 is a `BadEncoding`. Bytes that go on behind the content size that
/// the header declares are an `Overflow`, and bytes that end before it are an
/// `Underflow`, as is a content size of zero, which leaves no room for the
/// closing zero byte. A last byte that is not zero is an `Overflow`, and a
/// content that is not UTF-8 a `BadEncoding`.
pub open spec fn decode_section(bytes: Seq<u8>) -> Result<SectionView, ErrorKind> {
    let payload = bytes.subrange(SECTION_HEADER_SIZE as int, bytes.len() - 1);
    if bytes.len() < SECTION_HEADER_SIZE {
        Err(ErrorKind::Underflow)
    } else if !valid_utf8(bytes.subrange(0, 1)) {
        Err(ErrorKind::BadEncoding)
    } else if bytes.len() - SECTION_HEADER_SIZE > le_u16(bytes, 1) {
        Err(ErrorKind::Overflow)
    } else if bytes.len() - SECTION_HEADER_SIZE < le_u16(bytes, 1) {
        Err(ErrorKind::Underflow)
    } else if le_u16(bytes, 1) == 0 {
        Err(ErrorKind::Underflow)
    } else if bytes[bytes.len() - 1] != 0 {
        Err(ErrorKind::Overflow)
    } else if !valid_utf8(payload) {
        Err(ErrorKind::BadEncoding)
    } else {
        Ok(
            SectionView {
                tag: decode_utf8(bytes.subrange(0, 1)),
                content: decode_utf8(payload),
                content_size: le_u16(bytes, 1),
            },
        )
    }
}

/// The sections that stand in `bytes` one behind the other, or why the bytes
/// are not made of sections.
///
/// Each section reaches as far as the content size in its header says. Bytes
/// that end inside a section, its header included, are an `Underflow`, and so
/// is a zero byte inside a content. Each section is then decoded as
/// [`decode_section`] does, and the first that fails decides the error.
pub open spec fn decode_sections(bytes: Seq<u8>) -> Result<Seq<SectionView>, ErrorKind>
    decreases bytes.len(),
{
    if bytes.len() == 0 {
        Ok(Seq::empty())
    } else if bytes.len() < SECTION_HEADER_SIZE {
        Err(ErrorKind::Underflow)
    } else if !valid_utf8(bytes.subrange(0, 1)) {
        Err(ErrorKind::BadEncoding)
    } else if le_u16(bytes, 1) == 0 {
        Err(ErrorKind::Underflow)
    } else if bytes.len() < SECTION_HEADER_SIZE + le_u16(bytes, 1) {
        Err(ErrorKind::Underflow)
    } else {
        let end = SECTION_HEADER_SIZE + le_u16(bytes, 1);
        if bytes.subrange(SECTION_HEADER_SIZE as int, end - 1).contains(0u8) {
            Err(ErrorKind::Underflow)
        } else {
            match decode_section(bytes.subrange(0, end)) {
                Err(kind) => Err(kind),
                Ok(first) => match decode_sections(bytes.subrange(end, bytes.len() as int)) {
                    Err(kind) => Err(kind),
                    Ok(rest) => Ok(seq![first] + rest),
                },
            }
        }
    }
}

/// Whether a result is the section that was foreseen, or an error of the
/// kind that was foreseen.
pub open spec fn section_agrees<S: View<V = SectionView>>(
    result: Result<S, DATError>,
    model: Result<SectionView, ErrorKind>,
) -> bool {
    match model {
        Ok(section) => result matches Ok(s) && s@ == section,
        Err(kind) => fails_with(result, kind),
    }
}

/// What each of some sections is.
pub open spec fn section_views<S: View<V = SectionView>>(sections: Seq<S>) -> Seq<SectionView> {
    sections.map_values(|s: S| s@)
}

/// Whether a result holds the sections that were foreseen, or is an error of
/// the kind that was foreseen.
pub open spec fn sections_agree<S: View<V = SectionView>>(
    result: Result<Vec<S>, DATError>,
    model: Result<Seq<SectionView>, ErrorKind>,
) -> bool {
    match model {
        Ok(sections) => result matches Ok(v) && section_views(v@) == sections,
        Err(kind) => fails_with(result, kind),
    }
}

/// Reads the header of a section. Returns the tag and the content size, in
/// this order.
///
/// Fails with `BadEncoding` where the tag is not UTF-8.
pub fn get_section_header_contents(bytes: &[u8; 3]) -> (fields: Result<(&str, u16), DATError>)
    ensures
        valid_utf8(bytes@.subrange(0, 1)) ==> (fields matches Ok(f) && f.0@ == decode_utf8(
            bytes@.subrange(0, 1),
        ) && f.1 == le_u16(bytes@, 1)),
        !valid_utf8(bytes@.subrange(0, 1)) ==> fails_with(fields, ErrorKind::BadEncoding),
{
    parse_section_header(bytes.as_slice())
}

/// Reads the header of a section from the first three of some bytes.
fn parse_section_header<'a>(bytes: &'a [u8]) -> (fields: Result<(&'a str, u16), DATError>)
    requires
        bytes@.len() >= SECTION_HEADER_SIZE,
    ensures
        valid_utf8(bytes@.subrange(0, 1)) ==> (fields matches Ok(f) && f.0@ == decode_utf8(
            bytes@.subrange(0, 1),
        ) && f.1 == le_u16(bytes@, 1)),
        !valid_utf8(bytes@.subrange(0, 1)) ==> fails_with(fields, ErrorKind::BadEncoding),
{
    match str_from_utf8(slice_subrange(bytes, 0, 1)) {
        Some(tag) => Ok((tag, u16_from_le(bytes, 1))),
        None => Err(DATError::BadEncoding("Text data block did not contain valid utf-8.")),
    }
}

impl<'a> TryFrom<&'a [u8]> for SectionData<'a> {
    type Error = DATError;

    /// Decodes a section from bytes that hold it from the tag to the closing
    /// zero byte and nothing else. The texts of the section are borrowed from
    /// the bytes.
    ///
    /// Fails with `Overflow` where the bytes go on behind the content size
    /// that the header declares or do not end in a zero byte, with
    /// `Underflow` where they end before it, and with `BadEncoding` where the
    /// tag or the content is not UTF-8.
    fn try_from(x: &'a [u8]) -> (section: Result<SectionData<'a>, DATError>)
        ensures
            section_agrees(section, decode_section(x@)),
    {
        if x.len() < SECTION_HEADER_SIZE {
            return Err(DATError::Underflow("Data buffer is too small for a section header."));
        }
        let (tag, content_size) = parse_section_header(x)?;
        let remaining_buf_size: usize = x.len() - SECTION_HEADER_SIZE;
        if remaining_buf_size > content_size as usize {
            return Err(
                DATError::Overflow("Data buffer is too large for content_size specified in header."),
            );
        }
        if remaining_buf_size < content_size as usize {
            return Err(
                DATError::Underflow(
                    "Data buffer is too small for content_size specified in header.",
                ),
            );
        }
        if content_size == 0 {
            return Err(DATError::Underflow("Section has no room for its terminating null."));
        }
        if x[x.len() - 1] != 0u8 {
            return Err(DATError::Overflow("Section data did not end at the expected index."));
        }
        match str_from_utf8(slice_subrange(x, SECTION_HEADER_SIZE, x.len() - 1)) {
            Some(content) => Ok(SectionData { content, content_size, tag }),
            None => Err(DATError::BadEncoding("Text data block did not contain valid utf-8.")),
        }
    }
}

impl<'a> vstd::std_specs::convert::TryFromSpecImpl<&'a [u8]> for SectionData<'a> {
    open spec fn obeys_try_from_spec() -> bool {
        false
    }

    open spec fn try_from_spec(x: &'a [u8]) -> Result<SectionData<'a>, DATError> {
        arbitrary()
    }
}

impl TryFrom<&[u8]> for Section {
    type Error = DATError;

    /// Decodes a section from bytes that hold it from the tag to the closing
    /// zero byte and nothing else.
    ///
    /// Fails with `Overflow` where the bytes go on behind the content size
    /// that the header declares or do not end in a zero byte, with
    /// `Underflow` where they end before it, and with `BadEncoding` where the
    /// tag or the content is not UTF-8.
    fn try_from(x: &[u8]) -> (section: Result<Section, DATError>)
        ensures
            section_agrees(section, decode_section(x@)),
    {
        let section_data = SectionData::try_from(x)?;
        Ok(Section::from(&section_data))
    }
}

impl vstd::std_specs::convert::TryFromSpecImpl<&[u8]> for Section {
    open spec fn obeys_try_from_spec() -> bool {
        false
    }

    open spec fn try_from_spec(x: &[u8]) -> Result<Section, DATError> {
        arbitrary()
    }
}

/// Decodes a section from bytes that hold it from the tag to the closing zero
/// byte and nothing else. The texts of the section are borrowed from the
/// bytes.
///
/// Fails with `Overflow` where the bytes go on behind the content size that
/// the header declares or do not end in a zero byte, with `Underflow` where
/// they end before it, and with `BadEncoding` where the tag or the content is
/// not UTF-8.
pub fn as_section(bytes: &[u8]) -> (section: Result<SectionData, DATError>)
    ensures
        section_agrees(section, decode_section(bytes@)),
{
    SectionData::try_from(bytes)
}

/// Tells whether a zero byte stands among some bytes.
fn contains_zero(bytes: &[u8]) -> (found: bool)
    ensures
        found == bytes@.contains(0u8),
{
    let n: usize = bytes.len();
    let mut i: usize = 0;
    while i < n
        invariant
            n == bytes@.len(),
            i <= n,
            forall|j: int| 0 <= j < i ==> bytes@[j] != 0u8,
        decreases n - i,
    {
        if bytes[i] == 0u8 {
            return true;
        }
        i += 1;
    }
    false
}

/// Decodes the sections that stand in `bytes` one behind the other. The
/// texts of the sections are borrowed from the bytes.
///
/// Fails with `Underflow` where the bytes end inside a section or a content
/// holds a zero byte, with `Overflow` where a section does not end in a zero
/// byte, and with `BadEncoding` where a tag or a content is not UTF-8.
pub fn as_section_vec<'a>(bytes: &'a [u8]) -> (sections: Result<Vec<SectionData<'a>>, DATError>)
    ensures
        sections_agree(sections, decode_sections(bytes@)),
{
    let mut cursor: usize = 0;
    let mut res_vec: Vec<SectionData<'a>> = Vec::new();
    let buf_len: usize = bytes.len();
    assert(bytes@.subrange(0, buf_len as int) =~= bytes@);
    assert(section_views(res_vec@) =~= Seq::<SectionView>::empty());
    while cursor < buf_len
        invariant
            buf_len == bytes@.len(),
            cursor <= buf_len,
            match decode_sections(bytes@.subrange(cursor as int, buf_len as int)) {
                Ok(rest) => decode_sections(bytes@) == Ok::<Seq<SectionView>, ErrorKind>(
                    section_views(res_vec@) + rest,
                ),
                Err(kind) => decode_sections(bytes@) == Err::<Seq<SectionView>, ErrorKind>(kind),
            },
        decreases buf_len - cursor,
    {
        let rest = slice_subrange(bytes, cursor, buf_len);
        if rest.len() < SECTION_HEADER_SIZE {
            return Err(DATError::Underflow("Section header ended early."));
        }
        let (_, content_size) = parse_section_header(rest)?;
        if content_size == 0 {
            return Err(DATError::Underflow("Section has no room for its terminating null."));
        }
        let end: usize = SECTION_HEADER_SIZE + content_size as usize;
        if rest.len() < end {
            return Err(DATError::Underflow("Section content ended early."));
        }
        if contains_zero(slice_subrange(rest, SECTION_HEADER_SIZE, end - 1)) {
            return Err(DATError::Underflow("Section content ended early."));
        }
        let section = SectionData::try_from(slice_subrange(rest, 0, end))?;
        proof {
            assert(rest@.subrange(end as int, rest@.len() as int) =~= bytes@.subrange(
                cursor + end,
                buf_len as int,
            ));
            assert(section_views(res_vec@.push(section)) =~= section_views(res_vec@) + seq![
                section@,
            ]);
            match decode_sections(bytes@.subrange(cursor + end, buf_len as int)) {
                Ok(later) => {
                    assert(section_views(res_vec@) + (seq![section@] + later) =~= section_views(
                        res_vec@.push(section),
                    ) + later);
                },
                Err(_) => {},
            }
        }
        res_vec.push(section);
        cursor += end;
    }
    assert(section_views(res_vec@) + Seq::<SectionView>::empty() =~= section_views(res_vec@));
    Ok(res_vec)
}

/// The bytes that stand for some sections in a file: their encodings, one
/// behind the other.
pub open spec fn encode_sections(sections: Seq<SectionView>) -> Seq<u8>
    decreases sections.len(),
{
    if sections.len() == 0 {
        Seq::empty()
    } else {
        sections[0].encoding() + encode_sections(sections.drop_first())
    }
}

/// The encoding of some sections and one more is the encoding of the
/// sections with the encoding of the one behind it.
pub proof fn lemma_encode_sections_push(sections: Seq<SectionView>, section: SectionView)
    ensures
        encode_sections(sections.push(section)) == encode_sections(sections) + section.encoding(),
    decreases sections.len(),
{
    if sections.len() == 0 {
        assert(sections.push(section).drop_first() =~= Seq::<SectionView>::empty());
        assert(encode_sections(Seq::<SectionView>::empty()) =~= Seq::<u8>::empty());
        assert(encode_sections(sections) =~= Seq::<u8>::empty());
        assert(sections.push(section)[0] == section);
        assert(encode_sections(sections.push(section)) =~= section.encoding());
    } else {
        lemma_encode_sections_push(sections.drop_first(), section);
        assert(sections.push(section).drop_first() =~= sections.drop_first().push(section));
        assert(encode_sections(sections.push(section)) =~= encode_sections(sections)
            + section.encoding());
    }
}

/// The encoding of some sections followed by others is the encoding of the
/// first followed by the encoding of the others.
pub proof fn lemma_encode_sections_concat(first: Seq<SectionView>, second: Seq<SectionView>)
    ensures
        encode_sections(first + second) == encode_sections(first) + encode_sections(second),
    decreases second.len(),
{
    if second.len() == 0 {
        assert(first + second =~= first);
        assert(encode_sections(second) =~= Seq::<u8>::empty());
        assert(encode_sections(first) + encode_sections(second) =~= encode_sections(first));
    } else {
        let last = second.last();
        let front = second.drop_last();
        lemma_encode_sections_concat(first, front);
        lemma_encode_sections_push(first + front, last);
        lemma_encode_sections_push(front, last);
        assert((first + front).push(last) =~= first + second);
        assert(front.push(last) =~= second);
        assert((encode_sections(first) + encode_sections(front)) + last.encoding()
            =~= encode_sections(first) + (encode_sections(front) + last.encoding()));
    }
}

/// The parts of the encoding of a valid section stand where the header says.
proof fn lemma_encoding_layout(section: SectionView)
    requires
        section.is_valid(),
    ensures
        section.encoding().len() == SECTION_HEADER_SIZE + section.content_size,
        section.encoding().subrange(0, 1) == encode_utf8(section.tag),
        le_u16(section.encoding(), 1) == section.content_size,
        section.encoding().subrange(
            SECTION_HEADER_SIZE as int,
            SECTION_HEADER_SIZE + section.content_size - 1,
        ) == encode_utf8(section.content),
        section.encoding()[SECTION_HEADER_SIZE + section.content_size - 1] == 0,
{
    let bytes = section.encoding();
    assert(bytes.subrange(0, 1) =~= encode_utf8(section.tag));
    assert(bytes.subrange(1, 3) =~= u16_le(section.content_size));
    crate::endian::lemma_u16_le_round_trip(section.content_size, bytes, 1);
    assert(bytes.subrange(
        SECTION_HEADER_SIZE as int,
        SECTION_HEADER_SIZE + section.content_size - 1,
    ) =~= encode_utf8(section.content));
}

/// A valid section is decoded again from its encoding.
pub proof fn lemma_section_round_trip(section: SectionView)
    requires
        section.is_valid(),
    ensures
        decode_section(section.encoding()) == Ok::<SectionView, ErrorKind>(section),
{
    lemma_encoding_layout(section);
    encode_utf8_valid_utf8(section.tag);
    encode_utf8_valid_utf8(section.content);
    encode_utf8_decode_utf8(section.tag);
    encode_utf8_decode_utf8(section.content);
}

/// Valid sections without a zero byte in their contents are decoded again
/// from their encodings, put one behind the other.
pub proof fn lemma_sections_round_trip(sections: Seq<SectionView>)
    requires
        forall|i: int| 0 <= i < sections.len() ==> (#[trigger] sections[i]).is_valid(),
        forall|i: int|
            0 <= i < sections.len() ==> !encode_utf8((#[trigger] sections[i]).content).contains(
                0u8,
            ),
    ensures
        decode_sections(encode_sections(sections)) == Ok::<Seq<SectionView>, ErrorKind>(sections),
    decreases sections.len(),
{
    if sections.len() == 0 {
        assert(sections =~= Seq::empty());
    } else {
        let first = sections[0];
        let rest = sections.drop_first();
        let bytes = encode_sections(sections);
        let end = SECTION_HEADER_SIZE + first.content_size;
        lemma_encoding_layout(first);
        lemma_section_round_trip(first);
        assert forall|i: int| 0 <= i < rest.len() implies (#[trigger] rest[i]).is_valid()
            && !encode_utf8(rest[i].content).contains(0u8) by {
            assert(rest[i] == sections[i + 1]);
        }
        lemma_sections_round_trip(rest);
        assert(bytes.subrange(0, end) =~= first.encoding());
        assert(bytes.subrange(end, bytes.len() as int) =~= encode_sections(rest));
        assert(bytes.subrange(0, 1) =~= first.encoding().subrange(0, 1));
        encode_utf8_valid_utf8(first.tag);
        assert(le_u16(bytes, 1) == le_u16(first.encoding(), 1));
        assert(bytes.subrange(SECTION_HEADER_SIZE as int, end - 1) =~= encode_utf8(first.content));
        assert(seq![first] + rest =~= sections);
    }
}

/// Tells whether containers of a type are made of sections: whether the type
/// is among [`SECTION_BASED_TYPES`].
pub fn holds_sections(file_type: DATType) -> (based: bool)
    ensures
        based == is_section_based(file_type),
{
    let mut i: usize = 0;
    while i < SECTION_BASED_TYPES.len()
        invariant
            i <= SECTION_BASED_TYPES@.len(),
            forall|j: int| 0 <= j < i ==> SECTION_BASED_TYPES@[j] != file_type,
        decreases SECTION_BASED_TYPES@.len() - i,
    {
        if SECTION_BASED_TYPES[i] == file_type {
            return true;
        }
        i += 1;
    }
    assert(SECTION_BASED_TYPES@[0] != file_type);
    assert(SECTION_BASED_TYPES@[1] != file_type);
    assert(SECTION_BASED_TYPES@[2] != file_type);
    assert(SECTION_BASED_TYPES@[4] != file_type);
    false
}

/// What reading a section at the cursor of a container gives, and the
/// container as it is then.
///
/// The header of the section is read, then its content, and the cursor is
/// moved over the closing zero byte. A content, or a file, that ends before
/// the header is read, or before the content is, is an `EndOfFile`, and the
/// cursor stands where the reading ended. A tag that is not UTF-8 is a
/// `BadEncoding`, and a content size of zero an `Underflow`; the cursor then
/// stands behind the header. A content that is not UTF-8 is a `BadEncoding`,
/// with the cursor behind the section.
pub open spec fn section_read(file: DATFileView) -> (Result<SectionView, ErrorKind>, DATFileView) {
    let header = file.read_data(SECTION_HEADER_SIZE as nat);
    let at_content = file.after_read(SECTION_HEADER_SIZE as nat);
    let room = (le_u16(header, 1) - 1) as nat;
    let content = at_content.read_data(room);
    let at_end = at_content.after_read(room);
    if file.read_count(SECTION_HEADER_SIZE as nat) < SECTION_HEADER_SIZE {
        (Err(ErrorKind::EndOfFile), at_content)
    } else if !valid_utf8(header.subrange(0, 1)) {
        (Err(ErrorKind::BadEncoding), at_content)
    } else if le_u16(header, 1) == 0 {
        (Err(ErrorKind::Underflow), at_content)
    } else if at_content.read_count(room) < room {
        (Err(ErrorKind::EndOfFile), at_end)
    } else if !valid_utf8(content) {
        (Err(ErrorKind::BadEncoding), at_end.after_seek(SeekFrom::Current(1)))
    } else {
        (
            Ok(
                SectionView {
                    tag: decode_utf8(header.subrange(0, 1)),
                    content: decode_utf8(content),
                    content_size: le_u16(header, 1),
                },
            ),
            at_end.after_seek(SeekFrom::Current(1)),
        )
    }
}

/// Reads the section at the cursor of a container and moves the cursor
/// behind it.
///
/// Fails with `IncorrectType` where containers of the type do not hold
/// sections; the cursor then stays. Fails otherwise as
/// [`read_section_unsafe`] does.
pub fn read_section(dat_file: &mut DATFile) -> (section: Result<Section, DATError>)
    requires
        old(dat_file)@.wf(),
    ensures
        final(dat_file)@.wf(),
        is_section_based(old(dat_file)@.file_type) ==> section_agrees(
            section,
            section_read(old(dat_file)@).0,
        ) && final(dat_file)@ == section_read(old(dat_file)@).1,
        !is_section_based(old(dat_file)@.file_type) ==> fails_with(
            section,
            ErrorKind::IncorrectType,
        ) && final(dat_file)@ == old(dat_file)@,
{
    if holds_sections(dat_file.file_type()) {
        read_section_unsafe(dat_file)
    } else {
        Err(DATError::IncorrectType("Target file is of a type that should not contain sections."))
    }
}

/// Reads the section at the cursor of a container and moves the cursor
/// behind it, whatever the type of the container is.
///
/// Fails with `EndOfFile` where the content of the container ends before the
/// section does, with `BadEncoding` where the tag or the content is not
/// UTF-8, and with `Underflow` where the section declares a content size of
/// zero. The cursor stands behind what was read.
pub fn read_section_unsafe(dat_file: &mut DATFile) -> (section: Result<Section, DATError>)
    requires
        old(dat_file)@.wf(),
    ensures
        final(dat_file)@.wf(),
        section_agrees(section, section_read(old(dat_file)@).0),
        final(dat_file)@ == section_read(old(dat_file)@).1,
{
    let mut sec_header_bytes = vec![0u8; SECTION_HEADER_SIZE];
    match dat_file.read_exact(sec_header_bytes.as_mut_slice()) {
        Ok(_) => (),
        Err(_) => {
            return Err(DATError::EndOfFile("Found EOF looking for next section."));
        },
    }
    assert(sec_header_bytes@ =~= old(dat_file)@.read_data(SECTION_HEADER_SIZE as nat));
    let (tag, content_size) = parse_section_header(sec_header_bytes.as_slice())?;
    if content_size == 0 {
        return Err(DATError::Underflow("Section has no room for its terminating null."));
    }
    let mut sec_content_bytes = vec![0u8; (content_size - 1) as usize];
    let ghost at_content = dat_file@;
    match dat_file.read_exact(sec_content_bytes.as_mut_slice()) {
        Ok(_) => (),
        Err(_) => {
            return Err(DATError::EndOfFile("Found EOF reading next section."));
        },
    }
    assert(sec_content_bytes@ =~= at_content.read_data((content_size - 1) as nat));
    dat_file.seek(SeekFrom::Current(1))?;
    match str_from_utf8(sec_content_bytes.as_slice()) {
        Some(content) => Ok(
            Section { content: content.to_owned(), content_size, tag: tag.to_owned() },
        ),
        None => Err(DATError::BadEncoding("Text data block did not contain valid utf-8.")),
    }
}

/// The sections that are read from the cursor of a container on, one after
/// the other, until the content of the container ends. The end of the
/// content ends the reading wherever it comes, inside a section as well as
/// behind one; any other failure to read a section is the failure of the
/// whole.
pub open spec fn sections_read(file: DATFileView) -> Result<Seq<SectionView>, ErrorKind>
    decreases left_to_read(file),
    when file.wf()
{
    let (read, next) = section_read(file);
    match read {
        Err(kind) => if kind == ErrorKind::EndOfFile {
            Ok(Seq::empty())
        } else {
            Err(kind)
        },
        Ok(section) => {
            proof {
                lemma_section_read_advances(file);
            }
            match sections_read(next) {
                Ok(rest) => Ok(seq![section] + rest),
                Err(kind) => Err(kind),
            }
        },
    }
}

/// The sections that are read from a file image: why the image is refused
/// when it is opened, if it is; else why its first section cannot be read, if
/// it cannot, the end of the content included; else that section and those
/// that are read behind it until the content ends.
pub open spec fn image_sections(image: Seq<u8>) -> Result<Seq<SectionView>, ErrorKind> {
    match image_refusal(image) {
        Some(kind) => Err(kind),
        None => {
            let (first, next) = section_read(opened(image));
            match first {
                Err(kind) => Err(kind),
                Ok(section) => match sections_read(next) {
                    Ok(rest) => Ok(seq![section] + rest),
                    Err(kind) => Err(kind),
                },
            }
        },
    }
}

/// The sections that are read from a file image, where the type of the
/// container is one that holds sections; `IncorrectType` where the image is
/// accepted and the type is none such.
pub open spec fn typed_image_sections(image: Seq<u8>) -> Result<Seq<SectionView>, ErrorKind> {
    if image_refusal(image) is None && !is_section_based(opened(image).file_type) {
        Err(ErrorKind::IncorrectType)
    } else {
        image_sections(image)
    }
}

/// Reads all the sections of the container that a file image holds: one
/// section, and then section after section until the content ends.
///
/// Fails where [`crate::dat_file::DATFile::open`] does, with `IncorrectType`
/// where containers of the type do not hold sections, and otherwise as
/// [`read_section_content_unsafe`] does.
pub fn read_section_content(image: &[u8]) -> (sections: Result<Vec<Section>, DATError>)
    ensures
        sections_agree(sections, typed_image_sections(image@)),
{
    if holds_sections(check_type(image)?) {
        read_section_content_unsafe(image)
    } else {
        Err(DATError::IncorrectType("Target file is of a type that should not contain sections."))
    }
}

/// Reads all the sections of the container that a file image holds, whatever
/// the type of the container is: one section, and then section after section
/// until the content ends.
///
/// Fails where [`crate::dat_file::DATFile::open`] does, and as
/// [`read_section_unsafe`] does where a section cannot be read. The end of
/// the content is a failure for the first section only; behind it, it ends
/// the reading.
pub fn read_section_content_unsafe(image: &[u8]) -> (sections: Result<Vec<Section>, DATError>)
    ensures
        sections_agree(sections, image_sections(image@)),
{
    let mut dat_file = DATFile::open(slice_to_vec(image))?;
    proof {
        lemma_section_read_advances(dat_file@);
    }
    let first_section = read_section_unsafe(&mut dat_file)?;
    let ghost first = first_section@;
    let ghost start = dat_file@;
    let mut sections: Vec<Section> = Vec::new();
    sections.push(first_section);
    assert(section_views(sections@) =~= seq![first]);
    loop
        invariant_except_break
            dat_file@.wf(),
            start.wf(),
            image_refusal(image@) is None,
            section_read(opened(image@)) == (Ok::<SectionView, ErrorKind>(first), start),
            sections@.len() >= 1,
            section_views(sections@)[0] == first,
            match sections_read(dat_file@) {
                Ok(rest) => sections_read(start) == Ok::<Seq<SectionView>, ErrorKind>(
                    section_views(sections@).drop_first() + rest,
                ),
                Err(kind) => sections_read(start) == Err::<Seq<SectionView>, ErrorKind>(kind),
            },
        ensures
            sections@.len() >= 1,
            section_views(sections@)[0] == first,
            sections_read(start) == Ok::<Seq<SectionView>, ErrorKind>(
                section_views(sections@).drop_first(),
            ),
        decreases left_to_read(dat_file@),
    {
        proof {
            lemma_section_read_advances(dat_file@);
        }
        match read_section_unsafe(&mut dat_file) {
            Ok(next_section) => {
                proof {
                    let views = section_views(sections@);
                    let grown = section_views(sections@.push(next_section));
                    assert(grown =~= views.push(next_section@));
                    assert(grown.drop_first() =~= views.drop_first().push(next_section@));
                    match sections_read(dat_file@) {
                        Ok(later) => {
                            assert(views.drop_first() + (seq![next_section@] + later)
                                =~= grown.drop_first() + later);
                        },
                        Err(_) => {},
                    }
                }
                sections.push(next_section);
            },
            Err(err) => {
                match err {
                    DATError::EndOfFile(_) => {
                        assert(section_views(sections@).drop_first() + Seq::<SectionView>::empty()
                            =~= section_views(sections@).drop_first());
                        break ;
                    },
                    _ => {
                        return Err(err);
                    },
                }
            },
        }
    }
    assert(section_views(sections@) =~= seq![first] + section_views(sections@).drop_first());
    Ok(sections)
}

/// The number of content bytes that lie behind the cursor of a container,
/// and one more.
pub open spec fn left_to_read(file: DATFileView) -> nat {
    if file.position() <= file.content_end() + 1 {
        (file.content_end() + 1 - file.position()) as nat
    } else {
        0
    }
}

/// A section that is read from a well-formed container leaves the container
/// well-formed and the cursor further on, and no further than one byte behind
/// the content.
pub proof fn lemma_section_read_advances(file: DATFileView)
    requires
        file.wf(),
    ensures
        section_read(file).1.wf(),
        section_read(file).1.file_type == file.file_type,
        section_read(file).0 is Ok ==> left_to_read(section_read(file).1) < left_to_read(file),
{
    let header = file.read_data(SECTION_HEADER_SIZE as nat);
    let at_content = file.after_read(SECTION_HEADER_SIZE as nat);
    let room = (le_u16(header, 1) - 1) as nat;
    let content = at_content.read_data(room);
    assert(header.len() == file.read_len(SECTION_HEADER_SIZE as nat));
    assert(content.len() == at_content.read_len(room));
    assert(file.read_count(SECTION_HEADER_SIZE as nat) <= file.read_len(
        SECTION_HEADER_SIZE as nat,
    ));
    assert(at_content.read_count(room) <= at_content.read_len(room));
}

/// Valid sections whose encodings stand in the content of a container from
/// the cursor to the end of the content are read from the cursor on as
/// these sections. `before` is the content in front of the cursor.
pub proof fn lemma_sections_are_read(
    file: DATFileView,
    before: Seq<u8>,
    sections: Seq<SectionView>,
)
    requires
        file.wf(),
        file.holds_content(),
        file.position() == before.len(),
        file.content() == before + encode_sections(sections),
        forall|i: int| 0 <= i < sections.len() ==> (#[trigger] sections[i]).is_valid(),
    ensures
        sections_read(file) == Ok::<Seq<SectionView>, ErrorKind>(sections),
    decreases sections.len(),
{
    let content = file.content();
    if sections.len() == 0 {
        assert(encode_sections(sections) =~= Seq::<u8>::empty());
        assert(content.len() == before.len());
        assert(sections =~= Seq::<SectionView>::empty());
    } else {
        let first = sections[0];
        let rest = sections.drop_first();
        let encoding = first.encoding();
        lemma_encoding_layout(first);
        assert(content.len() == before.len() + encoding.len() + encode_sections(rest).len());
        let header = file.read_data(SECTION_HEADER_SIZE as nat);
        let at_content = file.after_read(SECTION_HEADER_SIZE as nat);
        assert(file.read_len(SECTION_HEADER_SIZE as nat) == SECTION_HEADER_SIZE);
        assert(file.read_count(SECTION_HEADER_SIZE as nat) == SECTION_HEADER_SIZE);
        assert(at_content.content() == content);
        assert(header =~= encoding.subrange(0, SECTION_HEADER_SIZE as int));
        assert(header.subrange(0, 1) =~= encoding.subrange(0, 1));
        assert(le_u16(header, 1) == le_u16(encoding, 1));
        let room = (first.content_size - 1) as nat;
        let text = at_content.read_data(room);
        assert(at_content.read_len(room) == room);
        assert(at_content.read_count(room) == room);
        assert(text =~= encoding.subrange(
            SECTION_HEADER_SIZE as int,
            SECTION_HEADER_SIZE + first.content_size - 1,
        ));
        encode_utf8_valid_utf8(first.tag);
        encode_utf8_valid_utf8(first.content);
        encode_utf8_decode_utf8(first.tag);
        encode_utf8_decode_utf8(first.content);
        let next = section_read(file).1;
        assert(section_read(file).0 == Ok::<SectionView, ErrorKind>(first));
        lemma_section_read_advances(file);
        assert forall|i: int| 0 <= i < rest.len() implies (#[trigger] rest[i]).is_valid() by {
            assert(rest[i] == sections[i + 1]);
        }
        assert(next.content() == content);
        assert(content =~= (before + encoding) + encode_sections(rest));
        lemma_sections_are_read(next, before + encoding, rest);
        assert(seq![first] + rest =~= sections);
    }
}

/// Valid sections, one at least, whose encodings are the whole content of a
/// container are read from the image of the container as these sections.
pub proof fn lemma_image_sections_are_read(file: DATFileView, sections: Seq<SectionView>)
    requires
        file.wf(),
        file.holds_content(),
        file.content() == encode_sections(sections),
        sections.len() >= 1,
        forall|i: int| 0 <= i < sections.len() ==> (#[trigger] sections[i]).is_valid(),
    ensures
        image_sections(file.raw) == Ok::<Seq<SectionView>, ErrorKind>(sections),
{
    crate::dat_file::lemma_image_reopens(file);
    let start = opened(file.raw);
    assert(start.content() == Seq::<u8>::empty() + encode_sections(sections));
    lemma_sections_are_read(start, Seq::empty(), sections);
    lemma_section_read_advances(start);
}

} // verus!
