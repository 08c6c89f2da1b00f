//! The container itself: a header, a content region and a footer, with a
//! cursor that reads, seeks and writes inside the content region alone.
//!
//! A container on disk has `max_size + 32` bytes. The first 17 are the header.
//! The content follows it: `content_size - 1` bytes, each XORed with the mask
//! of the file's type where the type has one, and a closing zero byte. The
//! rest is zero. A file of another length is opened all the same; what it
//! lacks reads as zero.
//!
//! ```text
//! 0           4           8           12          16
//! | file type | max size  | content   | reserved  | end byte
//! |           |           | size      |           |
//! ```
use crate::dat_error::{ends_as, fails_with, DATError, ErrorKind};
use crate::dat_type::{
    end_byte_of, get_default_end_byte_for_type, get_default_max_size_for_type, get_mask_for_type,
    mask_of, max_size_of, type_of_code, DATType,
};
use crate::endian::{le_u32, lemma_u32_le_round_trip, u32_from_le, u32_le, u32_to_le};
use crate::raw_file::{resized, written, RawFile, SeekFrom};
use vstd::prelude::*;
use vstd::slice::*;

verus! {

/// The size of the header in bytes.
pub const HEADER_SIZE: u32 = 0x11;

/// What a container's size on disk exceeds its maximum content size by: the
/// 17 bytes of the header and 15 bytes of a footer that is always zero.
pub const MAX_SIZE_OFFSET: u32 = 32;

/// Where the file type stands in the header.
pub const INDEX_FILE_TYPE: usize = 0x00;

/// Where the maximum content size stands in the header.
pub const INDEX_MAX_SIZE: usize = 0x04;

/// Where the content size stands in the header.
pub const INDEX_CONTENT_SIZE: usize = 0x08;

/// Where the byte that ends the header stands in it.
pub const INDEX_END_BYTE: usize = 0x10;

/// The type code that a header holds.
pub open spec fn header_type_code(header: Seq<u8>) -> u32 {
    le_u32(header, INDEX_FILE_TYPE as int)
}

/// The maximum content size that a header holds.
pub open spec fn header_max_size(header: Seq<u8>) -> u32 {
    le_u32(header, INDEX_MAX_SIZE as int)
}

/// The content size that a header holds.
pub open spec fn header_content_size(header: Seq<u8>) -> u32 {
    le_u32(header, INDEX_CONTENT_SIZE as int)
}

/// Whether bytes are a header: 17 bytes, with the second and the fourth zero,
/// as they are in every type code, and with a content size that is not above
/// the maximum.
pub open spec fn header_is_valid(header: Seq<u8>) -> bool {
    &&& header.len() == HEADER_SIZE
    &&& header[1] == 0
    &&& header[3] == 0
    &&& header_content_size(header) <= header_max_size(header)
}

/// A byte of content as it is read: the byte on disk, XORed with the mask
/// where there is one. The same takes a byte to write to the byte on disk.
pub open spec fn apply_mask(byte: u8, mask: Option<u8>) -> u8 {
    match mask {
        Some(m) => byte ^ m,
        None => byte,
    }
}

/// Bytes of content as they are read from the bytes on disk, or the bytes on
/// disk for bytes to write.
pub open spec fn masked(bytes: Seq<u8>, mask: Option<u8>) -> Seq<u8> {
    Seq::new(bytes.len(), |i: int| apply_mask(bytes[i], mask))
}

/// Bytes with those from `at` on replaced by `data`; the length stays.
pub open spec fn overlaid(bytes: Seq<u8>, at: int, data: Seq<u8>) -> Seq<u8> {
    Seq::new(
        bytes.len(),
        |i: int|
            if at <= i < at + data.len() {
                data[i - at]
            } else {
                bytes[i]
            },
    )
}

/// What a [`DATFile`] is: the header fields it has cached, the bytes of the
/// whole file, and where the cursor stands in them.
pub struct DATFileView {
    /// The type that the header's type code stands for.
    pub file_type: DATType,
    /// The maximum content size.
    pub max_size: u32,
    /// The content size, the closing zero byte included.
    pub content_size: u32,
    /// The byte that ends the header.
    pub header_end_byte: u8,
    /// The bytes of the file as they are on disk, header and footer included.
    pub raw: Seq<u8>,
    /// The cursor, counted from the first byte of the file.
    pub cursor: nat,
}

impl DATFileView {
    /// The cached fields are those that the header in `raw` holds.
    pub open spec fn mirrors_header(self) -> bool {
        &&& self.raw.len() >= HEADER_SIZE
        &&& header_is_valid(self.raw.subrange(0, HEADER_SIZE as int))
        &&& self.file_type == type_of_code(header_type_code(self.raw))
        &&& self.max_size == header_max_size(self.raw)
        &&& self.content_size == header_content_size(self.raw)
        &&& self.header_end_byte == self.raw[INDEX_END_BYTE as int]
    }

    /// The invariant of an open container: the content size is above zero
    /// and not above the maximum, the cached fields are those of the header
    /// on disk, the cursor does not stand inside the header, and the file is
    /// one that memory can hold.
    pub open spec fn wf(self) -> bool {
        &&& 0 < self.content_size <= self.max_size
        &&& self.mirrors_header()
        &&& self.cursor >= HEADER_SIZE
        &&& self.raw.len() <= usize::MAX
    }

    /// Whether the file has the length that goes with its maximum size:
    /// `max_size + 32` bytes. A container that was created has it, and so has
    /// one whose maximum size was set; writing and setting the content size
    /// keep it.
    pub open spec fn has_full_length(self) -> bool {
        self.raw.len() == self.max_size + MAX_SIZE_OFFSET
    }

    /// Whether the file holds every byte of its content.
    pub open spec fn holds_content(self) -> bool {
        self.raw.len() >= HEADER_SIZE + self.content_end()
    }

    /// The mask of the content bytes, if the type has one.
    pub open spec fn mask(self) -> Option<u8> {
        mask_of(self.file_type)
    }

    /// The cursor as callers see it: counted from the first content byte.
    pub open spec fn position(self) -> int {
        self.cursor - HEADER_SIZE
    }

    /// The position of the closing zero byte, counted from the first content
    /// byte: where the readable content ends.
    pub open spec fn content_end(self) -> int {
        self.content_size - 1
    }

    /// The byte at a place in the file; zero where the file ends before it.
    pub open spec fn disk_byte(self, at: int) -> u8 {
        if 0 <= at < self.raw.len() {
            self.raw[at]
        } else {
            0
        }
    }

    /// The content as it is read: the bytes from the header up to the closing
    /// zero byte, without their mask. A byte that the file does not hold
    /// counts as a zero on disk.
    pub open spec fn content(self) -> Seq<u8> {
        Seq::new(
            self.content_end() as nat,
            |i: int| apply_mask(self.disk_byte(HEADER_SIZE + i), self.mask()),
        )
    }

    /// The number of bytes that a read into a buffer of `room` bytes fills:
    /// what lies between the cursor and the end of the content, and no more
    /// than the buffer holds.
    pub open spec fn read_len(self, room: nat) -> nat {
        if self.position() >= self.content_end() {
            0
        } else if room < self.content_end() - self.position() {
            room
        } else {
            (self.content_end() - self.position()) as nat
        }
    }

    /// The number of bytes that a read into a buffer of `room` bytes gets
    /// from the file: as many as it fills, or as many as the file holds
    /// behind the cursor where those are fewer.
    pub open spec fn read_count(self, room: nat) -> nat {
        if self.cursor >= self.raw.len() {
            0
        } else if self.read_len(room) <= self.raw.len() - self.cursor {
            self.read_len(room)
        } else {
            (self.raw.len() - self.cursor) as nat
        }
    }

    /// The bytes that a read into a buffer of `room` bytes fills the buffer
    /// with.
    pub open spec fn read_data(self, room: nat) -> Seq<u8> {
        if self.read_len(room) == 0 {
            Seq::empty()
        } else {
            self.content().subrange(self.position(), self.position() + self.read_len(room))
        }
    }

    /// The container after a read into a buffer of `room` bytes: the cursor
    /// stands behind what was read from the file.
    pub open spec fn after_read(self, room: nat) -> DATFileView {
        DATFileView { cursor: self.cursor + self.read_count(room), ..self }
    }

    /// The place in the file that a seek asks for, counted from the first
    /// byte of the file. From the start, the offset counts from the first
    /// content byte. From the end, it counts from the end of the file less
    /// the unused part of the maximum size, less the footer, less one byte;
    /// in a file of full length that is the closing zero byte of the content.
    pub open spec fn seek_target(self, pos: SeekFrom) -> int {
        match pos {
            SeekFrom::Start(offset) => HEADER_SIZE + offset,
            SeekFrom::Current(offset) => self.cursor + offset,
            SeekFrom::End(offset) => self.raw.len() + offset - (self.max_size - self.content_size)
                - (MAX_SIZE_OFFSET - HEADER_SIZE) - 1,
        }
    }

    /// Whether a seek is accepted: it must not lead into the header, nor to a
    /// place that a `u64` cannot hold.
    pub open spec fn seek_ok(self, pos: SeekFrom) -> bool {
        HEADER_SIZE <= self.seek_target(pos) <= u64::MAX
    }

    /// The container after an accepted seek.
    pub open spec fn after_seek(self, pos: SeekFrom) -> DATFileView {
        DATFileView { cursor: self.seek_target(pos) as nat, ..self }
    }

    /// The content size that a write of `len` bytes at the cursor needs: the
    /// bytes up to the end of the write, and the closing zero byte.
    pub open spec fn write_end(self, len: nat) -> int {
        self.position() + len + 1
    }

    /// Whether a write of `len` bytes is inside the maximum size: the content
    /// size that it needs must not be above it.
    pub open spec fn write_ok(self, len: nat) -> bool {
        self.write_end(len) <= self.max_size
    }

    /// Why a write of `len` bytes is refused, if it is: `InvalidInput` where
    /// it needs a content size above the maximum size, `FileIO` where it is a
    /// byte or more and ends behind what memory can address.
    pub open spec fn write_refusal(self, len: nat) -> Option<ErrorKind> {
        if !self.write_ok(len) {
            Some(ErrorKind::InvalidInput)
        } else if len > 0 && self.cursor + len > usize::MAX {
            Some(ErrorKind::FileIO)
        } else {
            None
        }
    }

    /// The content size after an accepted write of `len` bytes: the size
    /// that the write needs, where that is above the size before.
    pub open spec fn content_size_after_write(self, len: nat) -> u32 {
        if self.write_end(len) > self.content_size {
            self.write_end(len) as u32
        } else {
            self.content_size
        }
    }

    /// The container after an accepted write of `data`: the header holds the
    /// new content size, the bytes at the cursor are `data` with the mask on,
    /// and the cursor stands behind them. A write past the end of the file
    /// extends the file.
    pub open spec fn after_write(self, data: Seq<u8>) -> DATFileView {
        DATFileView {
            content_size: self.content_size_after_write(data.len()),
            raw: written(
                overlaid(
                    self.raw,
                    INDEX_CONTENT_SIZE as int,
                    u32_le(self.content_size_after_write(data.len())),
                ),
                self.cursor,
                masked(data, self.mask()),
            ),
            cursor: self.cursor + data.len(),
            ..self
        }
    }

    /// The byte on disk that reads as zero: the mask itself, or zero where
    /// the type has no mask.
    pub open spec fn pad_byte(self) -> u8 {
        match self.mask() {
            Some(m) => m,
            None => 0,
        }
    }

    /// The place in the file where the padding starts when the content size
    /// is set. Where the content grows, it is the place that a seek to the
    /// end leads to, which in a file of full length is the old closing zero
    /// byte. Where the content shrinks, it is the byte behind the new closing
    /// zero byte: `new_size` bytes behind the header.
    pub open spec fn pad_start(self, new_size: u32) -> int {
        if new_size > self.content_size {
            self.seek_target(SeekFrom::End(0))
        } else {
            HEADER_SIZE + new_size
        }
    }

    /// The padding that is written when the content size is set: as many
    /// bytes as the size changes by. Where the content grows, they are the
    /// byte that reads as zero; where it shrinks, they are zero itself.
    pub open spec fn padding(self, new_size: u32) -> Seq<u8> {
        if new_size > self.content_size {
            Seq::new((new_size - self.content_size) as nat, |i: int| self.pad_byte())
        } else {
            Seq::new((self.content_size - new_size) as nat, |i: int| 0u8)
        }
    }

    /// Why a new content size is refused, if it is. The size as it is is
    /// accepted. Otherwise a size of zero is `InvalidInput` and one above the
    /// maximum size `Overflow`. In a file that has not its full length, the
    /// padding may start inside the header, which is `InvalidInput`, or end
    /// behind what memory can address, which is `FileIO`.
    pub open spec fn content_size_refusal(self, new_size: u32) -> Option<ErrorKind> {
        if new_size == self.content_size {
            None
        } else if new_size == 0 {
            Some(ErrorKind::InvalidInput)
        } else if new_size > self.max_size {
            Some(ErrorKind::Overflow)
        } else if self.pad_start(new_size) < HEADER_SIZE {
            Some(ErrorKind::InvalidInput)
        } else if self.pad_start(new_size) + self.padding(new_size).len() > usize::MAX {
            Some(ErrorKind::FileIO)
        } else {
            None
        }
    }

    /// The container after its content size was set: the padding is written
    /// where it starts, the header holds the new size, and the cursor stands
    /// where it stood.
    pub open spec fn after_set_content_size(self, new_size: u32) -> DATFileView {
        if new_size == self.content_size {
            self
        } else {
            DATFileView {
                content_size: new_size,
                raw: overlaid(
                    written(self.raw, self.pad_start(new_size) as nat, self.padding(new_size)),
                    INDEX_CONTENT_SIZE as int,
                    u32_le(new_size),
                ),
                ..self
            }
        }
    }

    /// Why a new maximum size is refused, if it is. The size as it is is
    /// accepted. Otherwise a size of zero is `InvalidInput`, one below the
    /// content size `Overflow`, and one whose file memory cannot hold
    /// `FileIO`.
    pub open spec fn max_size_refusal(self, new_size: u32) -> Option<ErrorKind> {
        if new_size == self.max_size {
            None
        } else if new_size == 0 {
            Some(ErrorKind::InvalidInput)
        } else if new_size < self.content_size {
            Some(ErrorKind::Overflow)
        } else if new_size + MAX_SIZE_OFFSET > usize::MAX {
            Some(ErrorKind::FileIO)
        } else {
            None
        }
    }

    /// The container after its maximum size was set: the file has
    /// `new_size + 32` bytes, cut off or extended with zeros, and the header
    /// holds the new size.
    pub open spec fn after_set_max_size(self, new_size: u32) -> DATFileView {
        if new_size == self.max_size {
            self
        } else {
            DATFileView {
                max_size: new_size,
                raw: overlaid(
                    resized(self.raw, (new_size + MAX_SIZE_OFFSET) as nat),
                    INDEX_MAX_SIZE as int,
                    u32_le(new_size),
                ),
                ..self
            }
        }
    }
}

/// A write that stays inside a file replaces the bytes it covers and changes
/// nothing else.
pub proof fn lemma_written_inside(bytes: Seq<u8>, at: nat, data: Seq<u8>)
    requires
        at + data.len() <= bytes.len(),
    ensures
        written(bytes, at, data) == overlaid(bytes, at as int, data),
{
    assert(written(bytes, at, data) =~= overlaid(bytes, at as int, data));
}

/// A file in which one of the two sizes of the header was replaced, and
/// nothing else of the header, holds the header of the container with that
/// size replaced.
pub proof fn lemma_header_size_replaced(file: DATFileView, raw: Seq<u8>, at: int, value: u32)
    requires
        file.mirrors_header(),
        raw.len() >= HEADER_SIZE,
        at == INDEX_MAX_SIZE || at == INDEX_CONTENT_SIZE,
        forall|i: int|
            0 <= i < HEADER_SIZE ==> #[trigger] raw[i] == if at <= i < at + 4 {
                u32_le(value)[i - at]
            } else {
                file.raw[i]
            },
        at == INDEX_MAX_SIZE ==> file.content_size <= value,
        at == INDEX_CONTENT_SIZE ==> value <= file.max_size,
    ensures
        at == INDEX_CONTENT_SIZE ==> (DATFileView {
            content_size: value,
            raw,
            ..file
        }).mirrors_header(),
        at == INDEX_MAX_SIZE ==> (DATFileView { max_size: value, raw, ..file }).mirrors_header(),
{
    assert(raw.subrange(at, at + 4) =~= u32_le(value));
    lemma_u32_le_round_trip(value, raw, at);
    let header = raw.subrange(0, HEADER_SIZE as int);
    let header_before = file.raw.subrange(0, HEADER_SIZE as int);
    assert(header[1] == header_before[1]);
    assert(header[3] == header_before[3]);
    assert(raw[0] == file.raw[0] && raw[1] == file.raw[1] && raw[2] == file.raw[2] && raw[3]
        == file.raw[3]);
    assert(raw[INDEX_END_BYTE as int] == file.raw[INDEX_END_BYTE as int]);
    if at == INDEX_CONTENT_SIZE {
        assert(raw[4] == file.raw[4] && raw[5] == file.raw[5] && raw[6] == file.raw[6] && raw[7]
            == file.raw[7]);
    } else {
        assert(raw[8] == file.raw[8] && raw[9] == file.raw[9] && raw[10] == file.raw[10]
            && raw[11] == file.raw[11]);
    }
    assert(header_content_size(header) == header_content_size(raw));
    assert(header_max_size(header) == header_max_size(raw));
    assert(header_content_size(header_before) == header_content_size(file.raw));
    assert(header_max_size(header_before) == header_max_size(file.raw));
}

/// An accepted write leaves the container well-formed, and leaves a file of
/// full length at its length.
pub proof fn lemma_write_keeps_well_formed(file: DATFileView, data: Seq<u8>)
    requires
        file.wf(),
        file.write_refusal(data.len()) is None,
    ensures
        file.after_write(data).wf(),
        file.has_full_length() ==> file.after_write(data).has_full_length()
            && file.after_write(data).raw == overlaid(
            overlaid(
                file.raw,
                INDEX_CONTENT_SIZE as int,
                u32_le(file.content_size_after_write(data.len())),
            ),
            file.cursor as int,
            masked(data, file.mask()),
        ),
{
    let size = file.content_size_after_write(data.len());
    let after = file.after_write(data);
    lemma_header_size_replaced(file, after.raw, INDEX_CONTENT_SIZE as int, size);
    if file.has_full_length() {
        lemma_written_inside(
            overlaid(file.raw, INDEX_CONTENT_SIZE as int, u32_le(size)),
            file.cursor,
            masked(data, file.mask()),
        );
    }
}

/// An accepted content size leaves the container well-formed, and leaves a
/// file of full length at its length.
pub proof fn lemma_content_size_keeps_well_formed(file: DATFileView, new_size: u32)
    requires
        file.wf(),
        file.content_size_refusal(new_size) is None,
    ensures
        file.after_set_content_size(new_size).wf(),
        file.has_full_length() ==> file.after_set_content_size(new_size).has_full_length(),
{
    if new_size != file.content_size {
        let after = file.after_set_content_size(new_size);
        lemma_header_size_replaced(file, after.raw, INDEX_CONTENT_SIZE as int, new_size);
        if file.has_full_length() {
            lemma_written_inside(
                file.raw,
                file.pad_start(new_size) as nat,
                file.padding(new_size),
            );
        }
    }
}

/// In a file of full length every content size above zero and not above the
/// maximum size is accepted, and the padding lies inside the file. Where the
/// content grows, it starts at the old closing zero byte.
pub proof fn lemma_content_size_of_full_length(file: DATFileView, new_size: u32)
    requires
        file.wf(),
        file.has_full_length(),
        0 < new_size <= file.max_size,
    ensures
        file.content_size_refusal(new_size) is None,
        new_size > file.content_size ==> file.pad_start(new_size) == HEADER_SIZE
            + file.content_end(),
        new_size != file.content_size ==> file.after_set_content_size(new_size).raw == overlaid(
            overlaid(file.raw, file.pad_start(new_size), file.padding(new_size)),
            INDEX_CONTENT_SIZE as int,
            u32_le(new_size),
        ),
{
    if new_size != file.content_size {
        lemma_written_inside(file.raw, file.pad_start(new_size) as nat, file.padding(new_size));
    }
}

/// An accepted maximum size leaves the container well-formed, and a size
/// that is not the size as it was gives the file its full length.
pub proof fn lemma_max_size_keeps_well_formed(file: DATFileView, new_size: u32)
    requires
        file.wf(),
        file.max_size_refusal(new_size) is None,
    ensures
        file.after_set_max_size(new_size).wf(),
        new_size != file.max_size ==> file.after_set_max_size(new_size).has_full_length(),
        file.has_full_length() ==> file.after_set_max_size(new_size).has_full_length(),
{
    if new_size != file.max_size {
        let after = file.after_set_max_size(new_size);
        lemma_header_size_replaced(file, after.raw, INDEX_MAX_SIZE as int, new_size);
    }
}

/// Reads a header. Returns the file type, the maximum content size, the
/// content size and the byte that ends the header, in this order.
///
/// The type is a best guess from the type code: a code that is not registered
/// gives `Unknown`. Fails with `BadHeader` where the second or the fourth byte
/// is not zero, or where the content size is above the maximum size.
pub fn get_header_contents(header: &[u8; 17]) -> (fields: Result<(DATType, u32, u32, u8), DATError>)
    ensures
        header_is_valid(header@) ==> fields == Ok::<(DATType, u32, u32, u8), DATError>(
            (
                type_of_code(header_type_code(header@)),
                header_max_size(header@),
                header_content_size(header@),
                header@[INDEX_END_BYTE as int],
            ),
        ),
        !header_is_valid(header@) ==> fails_with(fields, ErrorKind::BadHeader),
{
    parse_header(header.as_slice())
}

/// Reads the header that 17 bytes hold.
fn parse_header(header: &[u8]) -> (fields: Result<(DATType, u32, u32, u8), DATError>)
    requires
        header@.len() == HEADER_SIZE,
    ensures
        header_is_valid(header@) ==> fields == Ok::<(DATType, u32, u32, u8), DATError>(
            (
                type_of_code(header_type_code(header@)),
                header_max_size(header@),
                header_content_size(header@),
                header@[INDEX_END_BYTE as int],
            ),
        ),
        !header_is_valid(header@) ==> fails_with(fields, ErrorKind::BadHeader),
{
    let file_type_id = u32_from_le(header, INDEX_FILE_TYPE);
    let max_size = u32_from_le(header, INDEX_MAX_SIZE);
    let content_size = u32_from_le(header, INDEX_CONTENT_SIZE);
    let end_byte = header[INDEX_END_BYTE];
    if header[1] != 0 || header[3] != 0 {
        return Err(DATError::BadHeader("File type ID bytes are absent."));
    }
    if content_size > max_size {
        return Err(DATError::BadHeader("Content size exceeds max size in header."));
    }
    Ok((DATType::from(file_type_id), max_size, content_size, end_byte))
}

/// Why a file image is refused when it is opened, if it is: `EndOfFile`
/// where it has fewer than 17 bytes, and `BadHeader` where its first 17 bytes
/// are no header, or where the header declares a content size of zero, which
/// leaves no room for the closing zero byte.
pub open spec fn image_refusal(image: Seq<u8>) -> Option<ErrorKind> {
    if image.len() < HEADER_SIZE {
        Some(ErrorKind::EndOfFile)
    } else if !header_is_valid(image.subrange(0, HEADER_SIZE as int)) {
        Some(ErrorKind::BadHeader)
    } else if header_content_size(image) == 0 {
        Some(ErrorKind::BadHeader)
    } else {
        None
    }
}

/// The container that an accepted image opens as: the fields of its header,
/// and the cursor on the first content byte.
pub open spec fn opened(image: Seq<u8>) -> DATFileView {
    DATFileView {
        file_type: type_of_code(header_type_code(image)),
        max_size: header_max_size(image),
        content_size: header_content_size(image),
        header_end_byte: image[INDEX_END_BYTE as int],
        raw: image,
        cursor: HEADER_SIZE as nat,
    }
}

/// An open DAT container, held in memory as the image of the file.
///
/// It reads and writes the content region only, and takes the mask off, or
/// puts it on, as it goes. The image with every change made to it is had back
/// with [`DATFile::into_bytes`].
#[derive(Debug)]
pub struct DATFile {
    content_size: u32,
    file_type: DATType,
    header_end_byte: u8,
    max_size: u32,
    raw_file: RawFile,
}

impl View for DATFile {
    type V = DATFileView;

    closed spec fn view(&self) -> DATFileView {
        DATFileView {
            file_type: self.file_type,
            max_size: self.max_size,
            content_size: self.content_size,
            header_end_byte: self.header_end_byte,
            raw: self.raw_file@.bytes,
            cursor: self.raw_file@.cursor,
        }
    }
}

impl DATFile {
    /// Returns the size of the content, which counts the closing zero byte:
    /// one more than the number of bytes that can be read.
    pub fn content_size(&self) -> (size: u32)
        ensures
            size == self@.content_size,
    {
        self.content_size
    }

    /// Returns the type of the container.
    pub fn file_type(&self) -> (file_type: DATType)
        ensures
            file_type == self@.file_type,
    {
        self.file_type
    }

    /// Returns the byte that ends the header.
    pub fn header_end_byte(&self) -> (end_byte: u8)
        ensures
            end_byte == self@.header_end_byte,
    {
        self.header_end_byte
    }

    /// Returns the maximum size of the content, which counts the closing zero
    /// byte: one more than the number of bytes that can be written.
    pub fn max_size(&self) -> (size: u32)
        ensures
            size == self@.max_size,
    {
        self.max_size
    }

    /// The bytes of the whole file as they are on disk.
    pub fn as_bytes(&self) -> (image: &[u8])
        ensures
            image@ == self@.raw,
    {
        self.raw_file.as_bytes()
    }

    /// Gives up the container for the bytes of the whole file.
    pub fn into_bytes(self) -> (image: Vec<u8>)
        ensures
            image@ == self@.raw,
    {
        self.raw_file.into_bytes()
    }

    /// Where the cursor stands, counted from the first byte of the file.
    pub fn raw_position(&self) -> (cursor: u64)
        ensures
            cursor == self@.cursor,
    {
        self.raw_file.stream_position()
    }

    /// Opens the image of a DAT file, with the cursor on the first content
    /// byte. The length of the image is not held against the maximum size of
    /// the header.
    ///
    /// Fails with `EndOfFile` where the image has fewer than 17 bytes, and
    /// with `BadHeader` where its first 17 bytes are no header, or where the
    /// header declares a content size of zero.
    pub fn open(image: Vec<u8>) -> (file: Result<DATFile, DATError>)
        ensures
            ends_as(file, image_refusal(image@)),
            file matches Ok(f) ==> f@ == opened(image@) && f@.wf(),
    {
        let fields = judge_image(image.as_slice());
        match fields {
            Ok((file_type, max_size, content_size, header_end_byte)) => {
                let mut raw_file = RawFile::new(image);
                match raw_file.seek(SeekFrom::Start(HEADER_SIZE as u64)) {
                    Ok(_) => Ok(
                        DATFile { content_size, file_type, header_end_byte, max_size, raw_file },
                    ),
                    Err(err) => Err(err),
                }
            },
            Err(err) => Err(err),
        }
    }
}

/// Judges a file image and reads the fields of its header.
fn judge_image(image: &[u8]) -> (fields: Result<(DATType, u32, u32, u8), DATError>)
    ensures
        ends_as(fields, image_refusal(image@)),
        fields matches Ok(f) ==> f == (
            opened(image@).file_type,
            opened(image@).max_size,
            opened(image@).content_size,
            opened(image@).header_end_byte,
        ) && opened(image@).wf(),
{
    if image.len() < HEADER_SIZE as usize {
        return Err(DATError::EndOfFile("Found EOF reading the header."));
    }
    let header = slice_subrange(image, 0, HEADER_SIZE as usize);
    let (file_type, max_size, content_size, end_byte) = parse_header(header)?;
    if content_size == 0 {
        return Err(DATError::BadHeader("Content size in header is zero."));
    }
    Ok((file_type, max_size, content_size, end_byte))
}

impl DATFile {
    /// Moves the cursor and returns where it then stands, counted from the
    /// first content byte.
    ///
    /// An offset from the start counts from the first content byte. An offset
    /// from the end counts from the end of the file, less the unused part of
    /// the maximum size, less the footer, less one byte; in a file of full
    /// length that is the end of the readable content, where the closing zero
    /// byte stands. A seek that would lead into the header, or to a place
    /// that a `u64` cannot hold, fails with `InvalidInput` and leaves the
    /// cursor where it was.
    pub fn seek(&mut self, pos: SeekFrom) -> (moved: Result<u64, DATError>)
        requires
            old(self)@.wf(),
        ensures
            final(self)@.wf(),
            old(self)@.seek_ok(pos) ==> moved == Ok::<u64, DATError>(
                (old(self)@.seek_target(pos) - HEADER_SIZE) as u64,
            ) && final(self)@ == old(self)@.after_seek(pos),
            !old(self)@.seek_ok(pos) ==> fails_with(moved, ErrorKind::InvalidInput)
                && final(self)@ == old(self)@,
    {
        let unused: i128 = self.max_size as i128 - self.content_size as i128;
        let footer: i128 = MAX_SIZE_OFFSET as i128 - HEADER_SIZE as i128;
        let target: i128 = match pos {
            SeekFrom::Start(offset) => HEADER_SIZE as i128 + offset as i128,
            SeekFrom::Current(offset) => self.raw_file.stream_position() as i128 + offset as i128,
            SeekFrom::End(offset) => self.raw_file.len() as i128 + offset as i128 - unused - footer
                - 1,
        };
        if target < HEADER_SIZE as i128 || target > u64::MAX as i128 {
            return Err(DATError::InvalidInput("Invalid argument"));
        }
        match self.raw_file.seek(SeekFrom::Start(target as u64)) {
            Ok(cursor) => Ok(cursor - HEADER_SIZE as u64),
            Err(err) => Err(err),
        }
    }

    /// Reads content from the cursor into the front of `buf`, without its
    /// mask, and moves the cursor behind what was read. Returns the number of
    /// bytes read.
    ///
    /// A read ends where the content ends: the closing zero byte is never
    /// read, and a read at or behind the end of the content reads nothing and
    /// returns zero. The part of `buf` behind the end of the content is left
    /// as it was. A read never fails.
    ///
    /// Where the file ends before the content does, the bytes that the file
    /// lacks are put into `buf` as zeros on disk would be, but they are not
    /// counted, and the cursor does not pass the end of the file.
    pub fn read(&mut self, buf: &mut [u8]) -> (count: Result<usize, DATError>)
        requires
            old(self)@.wf(),
        ensures
            final(self)@.wf(),
            final(self)@ == old(self)@.after_read(old(buf)@.len()),
            count == Ok::<usize, DATError>(old(self)@.read_count(old(buf)@.len()) as usize),
            final(buf)@ == old(self)@.read_data(old(buf)@.len()) + old(buf)@.subrange(
                old(self)@.read_len(old(buf)@.len()) as int,
                old(buf)@.len() as int,
            ),
    {
        let cur_pos: u64 = self.raw_file.stream_position() - HEADER_SIZE as u64;
        let max_end: u64 = (self.content_size - 1) as u64;
        if cur_pos >= max_end {
            assert(buf@ =~= Seq::<u8>::empty() + buf@.subrange(0, buf@.len() as int));
            return Ok(0);
        }
        let left: u64 = max_end - cur_pos;
        let read_len: usize = if (buf.len() as u64) < left {
            buf.len()
        } else {
            left as usize
        };
        if read_len < 1 {
            assert(buf@ =~= Seq::<u8>::empty() + buf@.subrange(0, buf@.len() as int));
            return Ok(0);
        }
        let mut internal_buf = vec![0u8; read_len];
        let count = self.raw_file.read(internal_buf.as_mut_slice());
        let mask = get_mask_for_type(&self.file_type);
        let mut i: usize = 0;
        while i < read_len
            invariant
                i <= read_len,
                read_len <= buf@.len(),
                read_len == internal_buf@.len(),
                buf@.len() == old(buf)@.len(),
                mask == old(self)@.mask(),
                forall|j: int| 0 <= j < i ==> buf@[j] == apply_mask(internal_buf@[j], mask),
                forall|j: int| i <= j < buf@.len() ==> buf@[j] == old(buf)@[j],
            decreases read_len - i,
        {
            buf[i] = match mask {
                Some(mask_val) => internal_buf[i] ^ mask_val,
                None => internal_buf[i],
            };
            i += 1;
        }
        proof {
            let before = old(self)@;
            let data = before.read_data(old(buf)@.len());
            assert(count == before.read_count(old(buf)@.len()));
            assert(data.len() == read_len);
            assert forall|j: int| 0 <= j < read_len implies buf@[j] == data[j] by {
                assert(internal_buf@[j] == before.disk_byte(before.cursor + j));
            }
            assert(buf@ =~= data + old(buf)@.subrange(read_len as int, old(buf)@.len() as int));
        }
        Ok(count)
    }

    /// Fills `buf` with content from the cursor and moves the cursor behind
    /// it. Where the content, or the file, ends before `buf` is full, what is
    /// left is read as by [`DATFile::read`] and the call fails with
    /// `EndOfFile`.
    pub fn read_exact(&mut self, buf: &mut [u8]) -> (done: Result<(), DATError>)
        requires
            old(self)@.wf(),
        ensures
            final(self)@.wf(),
            final(self)@ == old(self)@.after_read(old(buf)@.len()),
            final(buf)@ == old(self)@.read_data(old(buf)@.len()) + old(buf)@.subrange(
                old(self)@.read_len(old(buf)@.len()) as int,
                old(buf)@.len() as int,
            ),
            old(self)@.read_count(old(buf)@.len()) == old(buf)@.len() ==> done is Ok,
            old(self)@.read_count(old(buf)@.len()) != old(buf)@.len() ==> fails_with(
                done,
                ErrorKind::EndOfFile,
            ),
    {
        let wanted: usize = buf.len();
        match self.read(buf) {
            Ok(count) => {
                if count == wanted {
                    Ok(())
                } else {
                    Err(DATError::EndOfFile("Failed to fill whole buffer."))
                }
            },
            Err(err) => Err(err),
        }
    }
}

/// The most bytes of padding that are written to the file at once.
pub const PADDING_CHUNK: u32 = 0x1_0000;

impl DATFile {
    /// Writes a new content size to the header and keeps it as the content
    /// size of the container. The content itself and the cursor stay.
    fn write_content_size_header(&mut self, size: u32) -> (done: Result<(), DATError>)
        requires
            old(self)@.raw.len() >= HEADER_SIZE,
        ensures
            done is Ok,
            final(self)@ == (DATFileView {
                content_size: size,
                raw: overlaid(old(self)@.raw, INDEX_CONTENT_SIZE as int, u32_le(size)),
                ..old(self)@
            }),
    {
        let pre_cursor = self.raw_file.stream_position();
        self.raw_file.seek(SeekFrom::Start(INDEX_CONTENT_SIZE as u64))?;
        let bytes = u32_to_le(size);
        proof {
            lemma_written_inside(old(self)@.raw, INDEX_CONTENT_SIZE as nat, bytes@);
        }
        self.raw_file.write(bytes.as_slice())?;
        self.raw_file.seek(SeekFrom::Start(pre_cursor))?;
        self.content_size = size;
        Ok(())
    }

    /// Writes a new maximum size to the header and keeps it as the maximum
    /// size of the container. The length of the file and the cursor stay.
    fn write_max_size_header(&mut self, size: u32) -> (done: Result<(), DATError>)
        requires
            old(self)@.raw.len() >= HEADER_SIZE,
        ensures
            done is Ok,
            final(self)@ == (DATFileView {
                max_size: size,
                raw: overlaid(old(self)@.raw, INDEX_MAX_SIZE as int, u32_le(size)),
                ..old(self)@
            }),
    {
        let pre_cursor = self.raw_file.stream_position();
        self.raw_file.seek(SeekFrom::Start(INDEX_MAX_SIZE as u64))?;
        let bytes = u32_to_le(size);
        proof {
            lemma_written_inside(old(self)@.raw, INDEX_MAX_SIZE as nat, bytes@);
        }
        self.raw_file.write(bytes.as_slice())?;
        self.raw_file.seek(SeekFrom::Start(pre_cursor))?;
        self.max_size = size;
        Ok(())
    }

    /// Writes `buf` to the content at the cursor, with the mask on, and
    /// moves the cursor behind it. Returns the number of bytes written, which
    /// is all of them.
    ///
    /// Where the write ends behind the content, the content size grows to
    /// hold it, and the header is told. A write that needs a content size
    /// above the maximum size fails with `InvalidInput`, and one that ends
    /// behind what memory can address with `FileIO`; neither changes
    /// anything. A file of full length keeps its length.
    pub fn write(&mut self, buf: &[u8]) -> (count: Result<usize, DATError>)
        requires
            old(self)@.wf(),
        ensures
            final(self)@.wf(),
            ends_as(count, old(self)@.write_refusal(buf@.len())),
            old(self)@.write_refusal(buf@.len()) is None ==> count == Ok::<usize, DATError>(
                buf@.len() as usize,
            ) && final(self)@ == old(self)@.after_write(buf@),
            old(self)@.write_refusal(buf@.len()) is Some ==> final(self)@ == old(self)@,
            old(self)@.has_full_length() ==> final(self)@.has_full_length(),
    {
        let raw_cursor: u64 = self.raw_file.stream_position();
        let content_cursor: u64 = raw_cursor - HEADER_SIZE as u64;
        if buf.len() > u32::MAX as usize {
            return Err(DATError::InvalidInput("Content too long to write."));
        }
        if content_cursor > u32::MAX as u64 {
            return Err(
                DATError::InvalidInput(
                    "Content size would exceed maximum possible size (u32::MAX) after write.",
                ),
            );
        }
        let new_content_size: u64 = content_cursor + buf.len() as u64 + 1;
        if new_content_size > self.max_size as u64 {
            return Err(
                DATError::InvalidInput("Content size would exceed maximum size after write."),
            );
        }
        if buf.len() > 0 && raw_cursor + buf.len() as u64 > usize::MAX as u64 {
            return Err(DATError::FileIO("The file would grow beyond what memory can hold."));
        }
        proof {
            lemma_write_keeps_well_formed(old(self)@, buf@);
        }
        if new_content_size > self.content_size as u64 {
            self.write_content_size_header(new_content_size as u32)?;
        } else {
            proof {
                crate::endian::lemma_u32_le_bytes(self@.raw, INDEX_CONTENT_SIZE as int);
                assert(self@.raw =~= overlaid(
                    self@.raw,
                    INDEX_CONTENT_SIZE as int,
                    u32_le(self@.content_size),
                ));
            }
        }
        let mask = get_mask_for_type(&self.file_type);
        let count = match mask {
            Some(mask_val) => {
                let mut masked_bytes = vec![0u8; buf.len()];
                let mut i: usize = 0;
                while i < buf.len()
                    invariant
                        i <= buf@.len(),
                        masked_bytes@.len() == buf@.len(),
                        forall|j: int| 0 <= j < i ==> masked_bytes@[j] == buf@[j] ^ mask_val,
                    decreases buf@.len() - i,
                {
                    masked_bytes[i] = buf[i] ^ mask_val;
                    i += 1;
                }
                assert(masked_bytes@ =~= masked(buf@, mask));
                self.raw_file.write(masked_bytes.as_slice())?
            },
            None => {
                assert(buf@ =~= masked(buf@, mask));
                self.raw_file.write(buf)?
            },
        };
        Ok(count)
    }
}

impl DATFile {
    /// Writes `write_size` bytes of padding at the cursor of the file, a
    /// chunk at a time, and leaves the cursor behind them.
    fn write_padding(&mut self, padding_byte: u8, write_size: u32) -> (done: Result<(), DATError>)
        requires
            old(self)@.cursor + write_size <= usize::MAX,
        ensures
            done is Ok,
            final(self)@ == (DATFileView {
                raw: written(
                    old(self)@.raw,
                    old(self)@.cursor,
                    Seq::new(write_size as nat, |i: int| padding_byte),
                ),
                cursor: (old(self)@.cursor + write_size) as nat,
                ..old(self)@
            }),
    {
        let ghost before = self@;
        let mut remaining_bytes: u32 = write_size;
        assert(before.raw =~= written(
            before.raw,
            before.cursor,
            Seq::new(0, |i: int| padding_byte),
        ));
        while remaining_bytes > 0
            invariant
                remaining_bytes <= write_size,
                before.cursor + write_size <= usize::MAX,
                self@ == (DATFileView {
                    raw: written(
                        before.raw,
                        before.cursor,
                        Seq::new((write_size - remaining_bytes) as nat, |i: int| padding_byte),
                    ),
                    cursor: (before.cursor + write_size - remaining_bytes) as nat,
                    ..before
                }),
            decreases remaining_bytes,
        {
            let chunk: u32 = if remaining_bytes > PADDING_CHUNK {
                PADDING_CHUNK
            } else {
                remaining_bytes
            };
            let padding = vec![padding_byte; chunk as usize];
            self.raw_file.write(padding.as_slice())?;
            remaining_bytes -= chunk;
            assert(self@.raw =~= written(
                before.raw,
                before.cursor,
                Seq::new((write_size - remaining_bytes) as nat, |i: int| padding_byte),
            ));
        }
        Ok(())
    }

    /// Cuts the content off behind `new_size - 1` bytes, or extends it up to
    /// that many, and tells the header. The size counts the closing zero
    /// byte, so one byte less than `new_size` can be read afterwards. The
    /// cursor stays where it is.
    ///
    /// In a file of full length, bytes that the content gains read as zero.
    /// Where the content shrinks, the bytes from `new_size` bytes behind the
    /// header up to the old closing zero byte, that byte included, are set to
    /// zero on disk; the byte that becomes the closing byte is left as it
    /// was. A size that is the content size already is accepted and changes
    /// nothing. Otherwise a size
    /// of zero fails with `InvalidInput` and one above the maximum size with
    /// `Overflow`; the maximum size is changed with
    /// [`DATFile::set_max_size`].
    ///
    /// Where the content grows, the padding is written from the place that a
    /// seek to the end leads to. In a file that has not its full length that
    /// place may lie inside the header, which fails with `InvalidInput`, and
    /// the padding may end behind what memory can address, which fails with
    /// `FileIO`. A call that fails changes nothing.
    pub fn set_content_size(&mut self, new_size: u32) -> (done: Result<(), DATError>)
        requires
            old(self)@.wf(),
        ensures
            final(self)@.wf(),
            ends_as(done, old(self)@.content_size_refusal(new_size)),
            old(self)@.content_size_refusal(new_size) is None
                ==> final(self)@ == old(self)@.after_set_content_size(new_size),
            old(self)@.content_size_refusal(new_size) is Some ==> final(self)@ == old(self)@,
            old(self)@.has_full_length() ==> final(self)@.has_full_length(),
    {
        if new_size == self.content_size {
            return Ok(());
        }
        if new_size == 0 {
            return Err(DATError::InvalidInput("Content size must be > 0."));
        }
        if new_size > self.max_size {
            return Err(DATError::Overflow("Content size would exceed maximum size."));
        }
        let pre_cursor = self.raw_file.stream_position();
        let (padding_byte, write_size): (u8, u32) = if new_size > self.content_size {
            self.seek(SeekFrom::End(0))?;
            (
                match get_mask_for_type(&self.file_type) {
                    Some(mask_val) => mask_val,
                    None => 0,
                },
                new_size - self.content_size,
            )
        } else {
            self.seek(SeekFrom::Start(new_size as u64))?;
            (0, self.content_size - new_size)
        };
        if self.raw_file.stream_position() > (usize::MAX - write_size as usize) as u64 {
            self.raw_file.seek(SeekFrom::Start(pre_cursor))?;
            return Err(DATError::FileIO("The file would grow beyond what memory can hold."));
        }
        self.write_padding(padding_byte, write_size)?;
        self.write_content_size_header(new_size)?;
        self.raw_file.seek(SeekFrom::Start(pre_cursor))?;
        proof {
            let before = old(self)@;
            assert(Seq::new(write_size as nat, |i: int| padding_byte) =~= before.padding(new_size));
            lemma_content_size_keeps_well_formed(before, new_size);
        }
        Ok(())
    }

    /// Cuts the file off behind `new_size + 32` bytes, or extends it with
    /// zeros up to that many, and tells the header. The size counts the
    /// closing zero byte of the content, so one byte less than `new_size` can
    /// be written afterwards. The cursor stays where it is.
    ///
    /// A size that is the maximum size already is accepted and changes
    /// nothing. Otherwise a size of zero fails with `InvalidInput` and one
    /// below the content size with `Overflow`; the content size is changed
    /// with [`DATFile::set_content_size`]. A file that memory cannot hold
    /// fails with `FileIO`. A call that fails changes nothing; one that
    /// changes the size leaves the file at its full length.
    pub fn set_max_size(&mut self, new_size: u32) -> (done: Result<(), DATError>)
        requires
            old(self)@.wf(),
        ensures
            final(self)@.wf(),
            ends_as(done, old(self)@.max_size_refusal(new_size)),
            old(self)@.max_size_refusal(new_size) is None
                ==> final(self)@ == old(self)@.after_set_max_size(new_size),
            old(self)@.max_size_refusal(new_size) is Some ==> final(self)@ == old(self)@,
            done is Ok && new_size != old(self)@.max_size ==> final(self)@.has_full_length(),
            old(self)@.has_full_length() ==> final(self)@.has_full_length(),
    {
        if new_size == self.max_size {
            return Ok(());
        }
        if new_size == 0 {
            return Err(DATError::InvalidInput("Content size must be > 0."));
        }
        if new_size < self.content_size {
            return Err(DATError::Overflow("Content size would exceed maximum size."));
        }
        self.raw_file.set_len(new_size as u64 + MAX_SIZE_OFFSET as u64)?;
        self.write_max_size_header(new_size)?;
        proof {
            lemma_max_size_keeps_well_formed(old(self)@, new_size);
        }
        Ok(())
    }
}

/// The image of a container that was just created: the header with a
/// content size of one, and zeros from there to the end of the file.
pub open spec fn blank_image(dat_type: DATType, max_size: u32, end_byte: u8) -> Seq<u8> {
    overlaid(
        overlaid(
            overlaid(
                overlaid(
                    Seq::new((max_size + MAX_SIZE_OFFSET) as nat, |i: int| 0u8),
                    INDEX_FILE_TYPE as int,
                    u32_le(dat_type.spec_code()),
                ),
                INDEX_MAX_SIZE as int,
                u32_le(max_size),
            ),
            INDEX_CONTENT_SIZE as int,
            u32_le(1),
        ),
        INDEX_END_BYTE as int,
        seq![end_byte],
    )
}

/// Why the creation of a container is refused, if it is: `FileIO` where
/// memory cannot hold a file of `max_size + 32` bytes, `BadHeader` where the
/// maximum size is zero, which leaves no room for the closing zero byte of
/// the content, `InvalidInput` where the content size is zero, and `Overflow`
/// where the content size is above the maximum size.
pub open spec fn creation_refusal(content_size: u32, max_size: u32) -> Option<ErrorKind> {
    if max_size + MAX_SIZE_OFFSET > usize::MAX {
        Some(ErrorKind::FileIO)
    } else if max_size == 0 {
        Some(ErrorKind::BadHeader)
    } else if content_size == 0 {
        Some(ErrorKind::InvalidInput)
    } else if content_size > max_size {
        Some(ErrorKind::Overflow)
    } else {
        None
    }
}

/// The container that [`DATFile::create_unsafe`] creates: the blank image,
/// opened, with its content size set.
pub open spec fn created(
    dat_type: DATType,
    content_size: u32,
    max_size: u32,
    end_byte: u8,
) -> DATFileView {
    opened(blank_image(dat_type, max_size, end_byte)).after_set_content_size(content_size)
}

/// A blank image opens as a container of the type, the maximum size and the
/// end byte that it was made for, with a content size of one and of full
/// length.
pub proof fn lemma_blank_image_opens(dat_type: DATType, max_size: u32, end_byte: u8)
    requires
        0 < max_size,
        max_size + MAX_SIZE_OFFSET <= usize::MAX,
    ensures
        image_refusal(blank_image(dat_type, max_size, end_byte)) is None,
        opened(blank_image(dat_type, max_size, end_byte)) == (DATFileView {
            file_type: dat_type,
            max_size: max_size,
            content_size: 1,
            header_end_byte: end_byte,
            raw: blank_image(dat_type, max_size, end_byte),
            cursor: HEADER_SIZE as nat,
        }),
        opened(blank_image(dat_type, max_size, end_byte)).wf(),
        opened(blank_image(dat_type, max_size, end_byte)).has_full_length(),
{
    let image = blank_image(dat_type, max_size, end_byte);
    assert(image.subrange(0, 4) =~= u32_le(dat_type.spec_code()));
    assert(image.subrange(4, 8) =~= u32_le(max_size));
    assert(image.subrange(8, 12) =~= u32_le(1));
    lemma_u32_le_round_trip(dat_type.spec_code(), image, 0);
    lemma_u32_le_round_trip(max_size, image, 4);
    lemma_u32_le_round_trip(1, image, 8);
    crate::dat_type::lemma_code_identifies_type(dat_type);
    crate::dat_type::lemma_registered_codes_have_zero_bytes(dat_type);
    let header = image.subrange(0, HEADER_SIZE as int);
    assert(header[1] == image[1]);
    assert(header[3] == image[3]);
    assert(header_content_size(header) == header_content_size(image));
    assert(header_max_size(header) == header_max_size(image));
}

impl DATFile {
    /// Creates a container of the given type with an empty content, of the
    /// maximum size and with the end byte that the type has by default.
    ///
    /// A type without a default maximum size is given a maximum size of zero,
    /// which no container can have: the call fails with `BadHeader`.
    pub fn create(dat_type: DATType) -> (file: Result<DATFile, DATError>)
        ensures
            ends_as(
                file,
                creation_refusal(
                    1,
                    match max_size_of(dat_type) {
                        Some(max_size) => max_size,
                        None => 0,
                    },
                ),
            ),
            file matches Ok(f) ==> f@.wf() && f@.has_full_length() && f@ == created(
                dat_type,
                1,
                max_size_of(dat_type).unwrap(),
                end_byte_of(dat_type).unwrap(),
            ),
    {
        let max_size = match get_default_max_size_for_type(&dat_type) {
            Some(max_size) => max_size,
            None => 0,
        };
        let end_byte = match get_default_end_byte_for_type(&dat_type) {
            Some(end_byte) => end_byte,
            None => 0,
        };
        Self::create_unsafe(dat_type, 1, max_size, end_byte)
    }

    /// Creates a container of the given type, content size, maximum size and
    /// end byte. Its content reads as zeros, and its cursor stands on the
    /// first content byte.
    ///
    /// Nothing holds the sizes and the end byte to what the game expects of
    /// the type. Fails with `FileIO` where memory cannot hold the file, with
    /// `BadHeader` where the maximum size is zero, with `InvalidInput` where
    /// the content size is zero, and with `Overflow` where the content size
    /// is above the maximum size.
    pub fn create_unsafe(dat_type: DATType, content_size: u32, max_size: u32, end_byte: u8) -> (file:
        Result<DATFile, DATError>)
        ensures
            ends_as(file, creation_refusal(content_size, max_size)),
            file matches Ok(f) ==> {
                &&& f@.wf()
                &&& f@.has_full_length()
                &&& f@ == created(dat_type, content_size, max_size, end_byte)
                &&& f@.file_type == dat_type
                &&& f@.content_size == content_size
                &&& f@.max_size == max_size
                &&& f@.header_end_byte == end_byte
                &&& f@.cursor == HEADER_SIZE
            },
    {
        let mut raw_file = RawFile::new(Vec::new());
        raw_file.set_len(max_size as u64 + MAX_SIZE_OFFSET as u64)?;
        let ghost zeros = raw_file@.bytes;
        assert(zeros =~= Seq::new((max_size + MAX_SIZE_OFFSET) as nat, |i: int| 0u8));
        raw_file.seek(SeekFrom::Start(INDEX_FILE_TYPE as u64))?;
        let type_bytes = u32_to_le(dat_type.code());
        proof {
            lemma_written_inside(raw_file@.bytes, INDEX_FILE_TYPE as nat, type_bytes@);
        }
        raw_file.write(type_bytes.as_slice())?;
        raw_file.seek(SeekFrom::Start(INDEX_MAX_SIZE as u64))?;
        let max_size_bytes = u32_to_le(max_size);
        proof {
            lemma_written_inside(raw_file@.bytes, INDEX_MAX_SIZE as nat, max_size_bytes@);
        }
        raw_file.write(max_size_bytes.as_slice())?;
        raw_file.seek(SeekFrom::Start(INDEX_CONTENT_SIZE as u64))?;
        let content_size_bytes = u32_to_le(1);
        proof {
            lemma_written_inside(raw_file@.bytes, INDEX_CONTENT_SIZE as nat, content_size_bytes@);
        }
        raw_file.write(content_size_bytes.as_slice())?;
        raw_file.seek(SeekFrom::Start(HEADER_SIZE as u64 - 1))?;
        let end_bytes: [u8; 1] = [end_byte];
        proof {
            lemma_written_inside(raw_file@.bytes, INDEX_END_BYTE as nat, end_bytes@);
            assert(end_bytes@ =~= seq![end_byte]);
        }
        raw_file.write(end_bytes.as_slice())?;
        assert(raw_file@.bytes == blank_image(dat_type, max_size, end_byte));
        proof {
            if max_size > 0 {
                lemma_blank_image_opens(dat_type, max_size, end_byte);
            } else {
                let image = blank_image(dat_type, max_size, end_byte);
                assert(image.subrange(4, 8) =~= u32_le(max_size));
                assert(image.subrange(8, 12) =~= u32_le(1));
                lemma_u32_le_round_trip(max_size, image, 4);
                lemma_u32_le_round_trip(1, image, 8);
                let header = image.subrange(0, HEADER_SIZE as int);
                assert(header_content_size(header) == header_content_size(image));
                assert(header_max_size(header) == header_max_size(image));
            }
        }
        let mut dat_file = DATFile::open(raw_file.into_bytes())?;
        proof {
            if 0 < content_size <= max_size {
                lemma_content_size_of_full_length(dat_file@, content_size);
            }
        }
        dat_file.set_content_size(content_size)?;
        Ok(dat_file)
    }

    /// Creates a container of the given type that holds `content`, of the
    /// maximum size and with the end byte that the type has by default. The
    /// cursor stands on the first content byte.
    ///
    /// Fails as [`DATFile::create`] does, and with `InvalidInput` where the
    /// content and its closing zero byte are more than the maximum size.
    pub fn create_with_content(dat_type: DATType, content: &[u8]) -> (file: Result<DATFile, DATError>)
        ensures
            max_size_of(dat_type) is None ==> fails_with(file, ErrorKind::BadHeader),
            max_size_of(dat_type) matches Some(max_size) ==> {
                &&& max_size + MAX_SIZE_OFFSET > usize::MAX ==> fails_with(file, ErrorKind::FileIO)
                &&& max_size + MAX_SIZE_OFFSET <= usize::MAX && content@.len() + 1 > max_size
                    ==> fails_with(file, ErrorKind::InvalidInput)
                &&& max_size + MAX_SIZE_OFFSET <= usize::MAX && content@.len() + 1 <= max_size
                    ==> file is Ok
            },
            file matches Ok(f) ==> f@.wf() && f@.has_full_length() && f@ == created(
                dat_type,
                1,
                max_size_of(dat_type).unwrap(),
                end_byte_of(dat_type).unwrap(),
            ).after_write(content@).after_seek(SeekFrom::Start(0)),
    {
        let mut dat_file = Self::create(dat_type)?;
        dat_file.write(content)?;
        dat_file.seek(SeekFrom::Start(0))?;
        Ok(dat_file)
    }
}

/// Tells the type of the container that a file image holds. The type is a
/// best guess from the type code of the header.
///
/// Fails where [`DATFile::open`] does.
pub fn check_type(image: &[u8]) -> (file_type: Result<DATType, DATError>)
    ensures
        ends_as(file_type, image_refusal(image@)),
        file_type matches Ok(t) ==> t == opened(image@).file_type,
{
    let (file_type, _, _, _) = judge_image(image)?;
    Ok(file_type)
}

/// Reads the whole content of the container that a file image holds, without
/// its mask and without the closing zero byte.
///
/// Fails where [`DATFile::open`] does, and with `EndOfFile` where the image
/// ends before the content does.
pub fn read_content(image: &[u8]) -> (content: Result<Vec<u8>, DATError>)
    ensures
        image_refusal(image@) is Some ==> ends_as(content, image_refusal(image@)),
        image_refusal(image@) is None && !opened(image@).holds_content() ==> fails_with(
            content,
            ErrorKind::EndOfFile,
        ),
        image_refusal(image@) is None && opened(image@).holds_content() ==> (
        content matches Ok(bytes) && bytes@ == opened(image@).content()),
{
    let mut dat_file = DATFile::open(slice_to_vec(image))?;
    let mut buf = vec![0u8; (dat_file.content_size() - 1) as usize];
    dat_file.read_exact(buf.as_mut_slice())?;
    assert(buf@ =~= opened(image@).content());
    Ok(buf)
}

/// The container that holds `data` as its whole content in the place of what
/// the container of a file image held, or why it cannot: why the image is
/// refused when it is opened; `Overflow` where the data and the closing zero
/// byte are more than the maximum size; else why the content size cannot be
/// set to hold them, or why they cannot be written, which in an image of
/// full length does not arise.
pub open spec fn content_replaced(image: Seq<u8>, data: Seq<u8>) -> Result<DATFileView, ErrorKind> {
    let file = opened(image);
    let sized = file.after_set_content_size((data.len() + 1) as u32);
    if image_refusal(image) is Some {
        Err(image_refusal(image).unwrap())
    } else if data.len() + 1 > file.max_size {
        Err(ErrorKind::Overflow)
    } else if file.content_size_refusal((data.len() + 1) as u32) is Some {
        Err(file.content_size_refusal((data.len() + 1) as u32).unwrap())
    } else if sized.write_refusal(data.len()) is Some {
        Err(sized.write_refusal(data.len()).unwrap())
    } else {
        Ok(sized.after_write(data))
    }
}

/// Replaces the whole content of the container that a file image holds by
/// `buf`. Returns the image of the container as it is then, and the number of
/// bytes written, which is all of `buf`.
///
/// The content size becomes the length of `buf` and one more, and what is
/// read from the image that is returned is `buf`. Fails where
/// [`DATFile::open`] does, with `Overflow` where `buf` and the closing zero
/// byte are more than the maximum size of the container, and else as
/// [`DATFile::set_content_size`] and [`DATFile::write`] do, which in an image
/// of full length they do not.
pub fn write_content(image: Vec<u8>, buf: &[u8]) -> (written: Result<(Vec<u8>, usize), DATError>)
    ensures
        match content_replaced(image@, buf@) {
            Err(kind) => fails_with(written, kind),
            Ok(after) => written matches Ok(w) && {
                &&& w.0@ == after.raw
                &&& w.1 == buf@.len()
                &&& image_refusal(w.0@) is None
                &&& opened(w.0@).holds_content()
                &&& opened(w.0@).content() == buf@
                &&& opened(w.0@).max_size == opened(image@).max_size
                &&& opened(w.0@).file_type == opened(image@).file_type
                &&& opened(image@).has_full_length() ==> opened(w.0@).has_full_length()
            },
        },
        image_refusal(image@) is None && opened(image@).has_full_length() && buf@.len() + 1
            <= opened(image@).max_size ==> written is Ok,
{
    let image_len: usize = image.len();
    proof {
        if image_refusal(image@) is None {
            lemma_accepted_image_is_well_formed(image@);
            if content_replaced(image@, buf@) is Ok {
                lemma_replaced_content_reads_back(opened(image@), buf@);
            }
            if opened(image@).has_full_length() && buf@.len() + 1 <= opened(image@).max_size {
                lemma_content_replaced_in_full_length(opened(image@), buf@);
            }
        }
    }
    let mut dat_file = DATFile::open(image)?;
    if buf.len() >= u32::MAX as usize {
        return Err(
            DATError::Overflow("Content size would exceed maximum possible size (u32::MAX)."),
        );
    }
    let safe_content_size: u32 = (buf.len() + 1) as u32;
    if safe_content_size > dat_file.max_size() {
        return Err(DATError::Overflow("Content size would exceed maximum size."));
    }
    if safe_content_size != dat_file.content_size() {
        dat_file.set_content_size(safe_content_size)?;
    }
    let count = dat_file.write(buf)?;
    Ok((dat_file.into_bytes(), count))
}

/// Taking the mask off a byte and putting it on again gives the byte back.
pub proof fn lemma_mask_is_involution(byte: u8, mask: Option<u8>)
    ensures
        apply_mask(apply_mask(byte, mask), mask) == byte,
{
    match mask {
        Some(m) => {
            assert((byte ^ m) ^ m == byte) by (bit_vector);
        },
        None => {},
    }
}

/// The byte that pads a grown content reads as zero.
pub proof fn lemma_pad_byte_reads_as_zero(file: DATFileView)
    ensures
        apply_mask(file.pad_byte(), file.mask()) == 0,
{
    match file.mask() {
        Some(m) => {
            assert(m ^ m == 0) by (bit_vector);
        },
        None => {},
    }
}

/// An image that is accepted opens as a well-formed container.
pub proof fn lemma_accepted_image_is_well_formed(image: Seq<u8>)
    requires
        image_refusal(image) is None,
        image.len() <= usize::MAX,
    ensures
        opened(image).wf(),
{
    let header = image.subrange(0, HEADER_SIZE as int);
    assert(header_content_size(header) == header_content_size(image));
    assert(header_max_size(header) == header_max_size(image));
}

/// The image of a well-formed container is accepted when it is opened again,
/// and opens as the same container with the cursor on the first content
/// byte: the header on disk and the cached fields agree, and the content
/// size is above zero and not above the maximum size.
pub proof fn lemma_image_reopens(file: DATFileView)
    requires
        file.wf(),
    ensures
        0 < file.content_size <= file.max_size,
        image_refusal(file.raw) is None,
        opened(file.raw) == (DATFileView { cursor: HEADER_SIZE as nat, ..file }),
{
    let header = file.raw.subrange(0, HEADER_SIZE as int);
    assert(header_content_size(header) == header_content_size(file.raw));
    assert(header_max_size(header) == header_max_size(file.raw));
}

/// A container of full length holds every byte of its content, and in it a
/// read gets from the file every byte that it fills the buffer with.
pub proof fn lemma_full_length_holds_content(file: DATFileView, room: nat)
    requires
        file.wf(),
        file.has_full_length(),
    ensures
        file.holds_content(),
        file.read_count(room) == file.read_len(room),
{
}

/// A container that is well-formed and of full length stays so whatever is
/// done to it: the content size stays above zero and not above the maximum
/// size, and the file keeps `max_size + 32` bytes.
pub proof fn lemma_sizes_hold(file: DATFileView, data: Seq<u8>, new_size: u32, pos: SeekFrom)
    requires
        file.wf(),
        file.has_full_length(),
    ensures
        file.after_read(data.len()).wf() && file.after_read(data.len()).has_full_length(),
        file.seek_ok(pos) ==> file.after_seek(pos).wf() && file.after_seek(pos).has_full_length(),
        file.write_ok(data.len()) ==> file.write_refusal(data.len()) is None && file.after_write(
            data,
        ).wf() && file.after_write(data).has_full_length(),
        0 < new_size <= file.max_size ==> file.content_size_refusal(new_size) is None
            && file.after_set_content_size(new_size).wf() && file.after_set_content_size(
            new_size,
        ).has_full_length(),
        file.max_size_refusal(new_size) is None ==> file.after_set_max_size(new_size).wf()
            && file.after_set_max_size(new_size).has_full_length(),
{
    if file.write_ok(data.len()) {
        lemma_write_keeps_well_formed(file, data);
    }
    if 0 < new_size <= file.max_size {
        lemma_content_size_of_full_length(file, new_size);
        lemma_content_size_keeps_well_formed(file, new_size);
    }
    if file.max_size_refusal(new_size) is None {
        lemma_max_size_keeps_well_formed(file, new_size);
    }
}

/// Setting the content size twice to the same size leaves the container as
/// setting it once does.
pub proof fn lemma_set_content_size_is_idempotent(file: DATFileView, new_size: u32)
    requires
        file.wf(),
        file.content_size_refusal(new_size) is None,
    ensures
        file.after_set_content_size(new_size).content_size_refusal(new_size) is None,
        file.after_set_content_size(new_size).after_set_content_size(new_size)
            == file.after_set_content_size(new_size),
{
}

/// Setting the maximum size twice to the same size leaves the container as
/// setting it once does.
pub proof fn lemma_set_max_size_is_idempotent(file: DATFileView, new_size: u32)
    requires
        file.wf(),
        file.max_size_refusal(new_size) is None,
    ensures
        file.after_set_max_size(new_size).max_size_refusal(new_size) is None,
        file.after_set_max_size(new_size).after_set_max_size(new_size) == file.after_set_max_size(
            new_size,
        ),
{
}

/// The bytes that a read returns: those that it got from the file, which
/// are the first of those that it fills the buffer with.
pub open spec fn bytes_returned(file: DATFileView, room: nat) -> Seq<u8> {
    file.read_data(room).subrange(0, file.read_count(room) as int)
}

/// Writing back what a read returned, at the place it was read from, leaves
/// every byte of the file as it was: the mask that the read took off is the
/// mask that the write puts on. This is so wherever the cursor stands in the
/// content or at its end; behind the end even an empty write makes the
/// content grow.
pub proof fn lemma_rewrite_restores_file(file: DATFileView, room: nat)
    requires
        file.wf(),
        file.position() <= file.content_end(),
    ensures
        bytes_returned(file, room).len() == file.read_count(room),
        file.write_refusal(file.read_count(room)) is None,
        file.after_write(bytes_returned(file, room)) == file.after_read(room),
        file.holds_content() ==> bytes_returned(file, room) == file.read_data(room),
{
    let data = bytes_returned(file, room);
    let after = file.after_write(data);
    if file.holds_content() {
        assert(data =~= file.read_data(room));
    }
    crate::endian::lemma_u32_le_bytes(file.raw, INDEX_CONTENT_SIZE as int);
    assert forall|i: int| 0 <= i < file.raw.len() implies after.raw[i] == file.raw[i] by {
        if file.cursor <= i < file.cursor + data.len() {
            lemma_mask_is_involution(file.raw[i], file.mask());
        }
    }
    assert(after.raw =~= file.raw);
}

/// What was written is read again from the place it was written to.
pub proof fn lemma_write_then_read(file: DATFileView, data: Seq<u8>)
    requires
        file.wf(),
        file.write_ok(data.len()),
    ensures
        file.after_write(data).content().subrange(
            file.position(),
            file.position() + data.len(),
        ) == data,
{
    let after = file.after_write(data);
    assert forall|i: int| 0 <= i < data.len() implies after.content()[file.position() + i]
        == data[i] by {
        lemma_mask_is_involution(data[i], file.mask());
    }
    assert(after.content().subrange(file.position(), file.position() + data.len()) =~= data);
}

/// A content that has grown, in a file of full length, reads as before up
/// to its old end, and as zero from there on, whether the type has a mask or
/// not.
pub proof fn lemma_grown_content_reads_as_zero(file: DATFileView, new_size: u32)
    requires
        file.wf(),
        file.has_full_length(),
        file.content_size < new_size <= file.max_size,
    ensures
        file.content_size_refusal(new_size) is None,
        file.after_set_content_size(new_size).wf(),
        file.after_set_content_size(new_size).has_full_length(),
        file.after_set_content_size(new_size).content() == file.content() + Seq::new(
            (new_size - file.content_size) as nat,
            |i: int| 0u8,
        ),
{
    let after = file.after_set_content_size(new_size);
    lemma_pad_byte_reads_as_zero(file);
    lemma_content_size_of_full_length(file, new_size);
    lemma_content_size_keeps_well_formed(file, new_size);
    assert(after.content() =~= file.content() + Seq::new(
        (new_size - file.content_size) as nat,
        |i: int| 0u8,
    ));
}

/// A content that has shrunk, in a file of full length, reads as before up
/// to its new end. On disk the bytes from `new_size` bytes behind the header
/// up to the old closing zero byte, that byte included, are zero, whether
/// the type has a mask or not, and but for them and for the content size in
/// the header every byte of the file is as it was.
pub proof fn lemma_shrunk_content_is_zeroed(file: DATFileView, new_size: u32)
    requires
        file.wf(),
        file.has_full_length(),
        0 < new_size < file.content_size,
    ensures
        file.content_size_refusal(new_size) is None,
        file.after_set_content_size(new_size).wf(),
        file.after_set_content_size(new_size).has_full_length(),
        file.after_set_content_size(new_size).content() == file.content().subrange(
            0,
            new_size - 1,
        ),
        forall|at: int|
            HEADER_SIZE + new_size <= at < HEADER_SIZE + file.content_size
                ==> file.after_set_content_size(new_size).raw[at] == 0,
        forall|at: int|
            0 <= at < file.raw.len() && !(INDEX_CONTENT_SIZE <= at < INDEX_CONTENT_SIZE + 4) && !(
            HEADER_SIZE + new_size <= at < HEADER_SIZE + file.content_size)
                ==> file.after_set_content_size(new_size).raw[at] == file.raw[at],
{
    let after = file.after_set_content_size(new_size);
    lemma_content_size_of_full_length(file, new_size);
    lemma_content_size_keeps_well_formed(file, new_size);
    assert(after.content() =~= file.content().subrange(0, new_size - 1));
}

/// In an image of full length, a content that fits the maximum size can
/// always be put in the place of the content.
pub proof fn lemma_content_replaced_in_full_length(file: DATFileView, data: Seq<u8>)
    requires
        file.wf(),
        file.has_full_length(),
        file.cursor == HEADER_SIZE,
        data.len() + 1 <= file.max_size,
    ensures
        file.content_size_refusal((data.len() + 1) as u32) is None,
        file.after_set_content_size((data.len() + 1) as u32).write_refusal(data.len()) is None,
{
    let new_size = (data.len() + 1) as u32;
    lemma_content_size_of_full_length(file, new_size);
    lemma_content_size_keeps_well_formed(file, new_size);
}

/// A content that was put in the place of the content of a container, as
/// [`write_content`] does, is read back as what it is: the container is
/// well-formed, its file holds the content, and the image of the file opens
/// as a container with that content.
pub proof fn lemma_replaced_content_reads_back(file: DATFileView, data: Seq<u8>)
    requires
        file.wf(),
        file.cursor == HEADER_SIZE,
        data.len() + 1 <= file.max_size,
        file.content_size_refusal((data.len() + 1) as u32) is None,
        file.after_set_content_size((data.len() + 1) as u32).write_refusal(data.len()) is None,
    ensures
        ({
            let after = file.after_set_content_size((data.len() + 1) as u32).after_write(data);
            &&& after.wf()
            &&& after.content_size == data.len() + 1
            &&& after.max_size == file.max_size
            &&& after.file_type == file.file_type
            &&& after.holds_content()
            &&& after.content() == data
            &&& file.has_full_length() ==> after.has_full_length()
            &&& image_refusal(after.raw) is None
            &&& opened(after.raw) == (DATFileView { cursor: HEADER_SIZE as nat, ..after })
            &&& opened(after.raw).content() == data
        }),
{
    let new_size = (data.len() + 1) as u32;
    let sized = file.after_set_content_size(new_size);
    lemma_content_size_keeps_well_formed(file, new_size);
    let after = sized.after_write(data);
    lemma_write_keeps_well_formed(sized, data);
    lemma_write_then_read(sized, data);
    assert(after.content().subrange(0, data.len() as int) =~= after.content());
    lemma_image_reopens(after);
}

} // verus!
