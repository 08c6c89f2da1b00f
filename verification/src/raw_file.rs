//! A file held in memory: its bytes and a cursor, with the positioned read,
//! write, seek and resize of an ordinary file handle.
//!
//! [`crate::dat_file::DATFile`] keeps the image of a container in a
//! [`RawFile`]. Loading the image from a path and storing it again is left to
//! the caller.
use crate::dat_error::{fails_with, DATError, ErrorKind};
use vstd::prelude::*;

verus! {

/// Where a seek starts from, and how far it goes.
#[derive(Clone, Copy, Debug, PartialEq, Eq, Structural)]
pub enum SeekFrom {
    /// So many bytes after the start.
    Start(u64),
    /// So many bytes after the end; a negative number goes back.
    End(i64),
    /// So many bytes after the cursor; a negative number goes back.
    Current(i64),
}

/// The position that a seek asks for in a file of `len` bytes whose cursor
/// is at `cursor`. It may lie before the start.
pub open spec fn seek_target(len: nat, cursor: nat, pos: SeekFrom) -> int {
    match pos {
        SeekFrom::Start(offset) => offset as int,
        SeekFrom::End(offset) => len + offset,
        SeekFrom::Current(offset) => cursor + offset,
    }
}

/// The bytes of a file after `data` was written at position `at`: a write
/// past the end extends the file, and a gap that it leaves reads as zero. An
/// empty write changes nothing.
pub open spec fn written(bytes: Seq<u8>, at: nat, data: Seq<u8>) -> Seq<u8> {
    if data.len() == 0 {
        bytes
    } else {
        Seq::new(
            if bytes.len() >= at + data.len() {
                bytes.len()
            } else {
                at + data.len()
            },
            |i: int|
                if at <= i < at + data.len() {
                    data[i - at]
                } else if i < bytes.len() {
                    bytes[i]
                } else {
                    0u8
                },
        )
    }
}

/// The bytes of a file after its length was set to `len`: cut off behind
/// `len`, or extended with zeros up to it.
pub open spec fn resized(bytes: Seq<u8>, len: nat) -> Seq<u8> {
    Seq::new(
        len,
        |i: int|
            if i < bytes.len() {
                bytes[i]
            } else {
                0u8
            },
    )
}

/// What a [`RawFile`] is: the bytes it holds and where its cursor stands.
pub struct RawFileView {
    /// The bytes of the file, from its first.
    pub bytes: Seq<u8>,
    /// The cursor: the position of the next read or write. It may stand
    /// behind the end.
    pub cursor: nat,
}

/// A file in memory.
#[derive(Debug)]
pub struct RawFile {
    data: Vec<u8>,
    pos: u64,
}

impl View for RawFile {
    type V = RawFileView;

    closed spec fn view(&self) -> RawFileView {
        RawFileView { bytes: self.data@, cursor: self.pos as nat }
    }
}

impl RawFile {
    /// A file that holds `data`, with the cursor at its start.
    pub fn new(data: Vec<u8>) -> (file: RawFile)
        ensures
            file@.bytes == data@,
            file@.cursor == 0,
    {
        RawFile { data, pos: 0 }
    }

    /// Gives up the file for the bytes it holds.
    pub fn into_bytes(self) -> (data: Vec<u8>)
        ensures
            data@ == self@.bytes,
    {
        self.data
    }

    /// The bytes of the file.
    pub fn as_bytes(&self) -> (data: &[u8])
        ensures
            data@ == self@.bytes,
    {
        self.data.as_slice()
    }

    /// The length of the file in bytes.
    pub fn len(&self) -> (len: usize)
        ensures
            len == self@.bytes.len(),
    {
        self.data.len()
    }

    /// Where the cursor stands.
    pub fn stream_position(&self) -> (cursor: u64)
        ensures
            cursor == self@.cursor,
    {
        self.pos
    }

    /// Moves the cursor to the position that `pos` asks for and returns it.
    /// A position before the start, or one that a `u64` cannot hold, is
    /// refused with `FileIO`, and the cursor stays.
    pub fn seek(&mut self, pos: SeekFrom) -> (moved: Result<u64, DATError>)
        ensures
            final(self)@.bytes == old(self)@.bytes,
            ({
                let target = seek_target(old(self)@.bytes.len(), old(self)@.cursor, pos);
                if 0 <= target <= u64::MAX {
                    moved == Ok::<u64, DATError>(target as u64) && final(self)@.cursor == target
                } else {
                    fails_with(moved, ErrorKind::FileIO) && final(self)@.cursor == old(self)@.cursor
                }
            }),
    {
        let target: i128 = match pos {
            SeekFrom::Start(offset) => offset as i128,
            SeekFrom::End(offset) => self.data.len() as i128 + offset as i128,
            SeekFrom::Current(offset) => self.pos as i128 + offset as i128,
        };
        if target < 0 || target > u64::MAX as i128 {
            return Err(DATError::FileIO("Invalid seek to a negative or overflowing position."));
        }
        self.pos = target as u64;
        Ok(self.pos)
    }

    /// Reads from the cursor into the front of `buf`: as many bytes as `buf`
    /// has room for and the file still holds. Returns their number and moves
    /// the cursor behind them. The rest of `buf` is left as it was.
    pub fn read(&mut self, buf: &mut [u8]) -> (count: usize)
        ensures
            final(self)@.bytes == old(self)@.bytes,
            count == readable(old(self)@, old(buf)@.len()),
            final(self)@.cursor == old(self)@.cursor + count,
            final(buf)@ == read_data(old(self)@, old(buf)@.len()) + old(buf)@.subrange(
                count as int,
                old(buf)@.len() as int,
            ),
    {
        let len: usize = self.data.len();
        if self.pos >= len as u64 {
            assert(buf@ =~= Seq::<u8>::empty() + buf@.subrange(0, buf@.len() as int));
            return 0;
        }
        let start: usize = self.pos as usize;
        let left: usize = len - start;
        let count: usize = if buf.len() < left {
            buf.len()
        } else {
            left
        };
        let mut i: usize = 0;
        while i < count
            invariant
                i <= count,
                count <= buf@.len(),
                buf@.len() == old(buf)@.len(),
                start + count <= self.data@.len(),
                start + count <= usize::MAX,
                self.data@ == old(self).data@,
                forall|j: int| 0 <= j < i ==> buf@[j] == self.data@[start + j],
                forall|j: int| i <= j < buf@.len() ==> buf@[j] == old(buf)@[j],
            decreases count - i,
        {
            buf[i] = self.data[start + i];
            i += 1;
        }
        self.pos = (start + count) as u64;
        assert(buf@ =~= read_data(old(self)@, old(buf)@.len()) + old(buf)@.subrange(
            count as int,
            old(buf)@.len() as int,
        ));
        count
    }

    /// Writes `buf` at the cursor, over what is there and past the end where
    /// it reaches further, and moves the cursor behind it. Returns the number
    /// of bytes written, which is all of them. An empty write changes
    /// nothing, wherever the cursor stands. A write of a byte or more that
    /// would end behind what memory can address is refused with `FileIO`, and
    /// nothing changes.
    pub fn write(&mut self, buf: &[u8]) -> (count: Result<usize, DATError>)
        ensures
            buf@.len() == 0 || old(self)@.cursor + buf@.len() <= usize::MAX ==> {
                &&& count == Ok::<usize, DATError>(buf@.len() as usize)
                &&& final(self)@.bytes == written(old(self)@.bytes, old(self)@.cursor, buf@)
                &&& final(self)@.cursor == old(self)@.cursor + buf@.len()
            },
            buf@.len() > 0 && old(self)@.cursor + buf@.len() > usize::MAX ==> {
                &&& fails_with(count, ErrorKind::FileIO)
                &&& final(self)@ == old(self)@
            },
    {
        let n: usize = buf.len();
        if n == 0 {
            return Ok(0);
        }
        if self.pos > (usize::MAX - n) as u64 {
            return Err(DATError::FileIO("The file would grow beyond what memory can hold."));
        }
        let start: usize = self.pos as usize;
        let end: usize = start + n;
        if self.data.len() < end {
            self.data.resize(end, 0u8);
        }
        let ghost grown = self.data@;
        assert(grown =~= resized(old(self).data@, grown.len()));
        let mut i: usize = 0;
        while i < n
            invariant
                i <= n,
                0 < n,
                start == old(self).pos,
                grown == resized(old(self).data@, grown.len()),
                grown.len() == old(self).data@.len() || grown.len() == end,
                grown.len() >= old(self).data@.len(),
                n == buf@.len(),
                end == start + n,
                end <= self.data@.len(),
                self.data@.len() == grown.len(),
                self.pos == old(self).pos,
                forall|j: int| start <= j < start + i ==> self.data@[j] == buf@[j - start],
                forall|j: int|
                    0 <= j < grown.len() && !(start <= j < start + i) ==> self.data@[j] == grown[j],
            decreases n - i,
        {
            self.data[start + i] = buf[i];
            i += 1;
        }
        self.pos = end as u64;
        proof {
            let after = written(old(self)@.bytes, old(self)@.cursor, buf@);
            assert forall|j: int| 0 <= j < after.len() implies self.data@[j] == after[j] by {
                if !(start <= j < start + n) {
                    assert(self.data@[j] == grown[j]);
                }
            }
            assert(self.data@ =~= after);
        }
        Ok(n)
    }

    /// Cuts the file off behind `size` bytes, or extends it with zeros up to
    /// that length. The cursor stays where it is. A length that memory cannot
    /// address is refused with `FileIO`, and nothing changes.
    pub fn set_len(&mut self, size: u64) -> (done: Result<(), DATError>)
        ensures
            final(self)@.cursor == old(self)@.cursor,
            size <= usize::MAX ==> done is Ok && final(self)@.bytes == resized(
                old(self)@.bytes,
                size as nat,
            ),
            size > usize::MAX ==> fails_with(done, ErrorKind::FileIO) && final(self)@ == old(self)@,
    {
        if size > usize::MAX as u64 {
            return Err(DATError::FileIO("The file would grow beyond what memory can hold."));
        }
        self.data.resize(size as usize, 0u8);
        assert(self.data@ =~= resized(old(self)@.bytes, size as nat));
        Ok(())
    }
}

/// The bytes that a read of up to `room` bytes gets from a file: those that
/// stand at the cursor.
pub open spec fn read_data(file: RawFileView, room: nat) -> Seq<u8> {
    if readable(file, room) == 0 {
        Seq::empty()
    } else {
        file.bytes.subrange(file.cursor as int, (file.cursor + readable(file, room)) as int)
    }
}

/// The number of bytes that a read of up to `room` bytes gets from a file:
/// what is left behind the cursor, and no more than asked for.
pub open spec fn readable(file: RawFileView, room: nat) -> nat {
    if file.cursor >= file.bytes.len() {
        0
    } else if room < file.bytes.len() - file.cursor {
        room
    } else {
        (file.bytes.len() - file.cursor) as nat
    }
}

} // verus!
