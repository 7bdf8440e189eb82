use crate::errors::SourceError;
use crate::wire::{i32_le_at, i64_le_at, u16_le_at, u32_le_at, u64_le_at};
use crate::wire::{in_file, le_i32, le_i64, le_u16, le_u32, le_u64, span};
use vstd::prelude::*;

verus! {

/// The mathematical content of a [`ByteSource`]: the bytes of the file and
/// the offset of the read cursor.
pub struct SourceView {
    pub bytes: Seq<u8>,
    pub position: nat,
}

impl SourceView {
    /// Whether `n` bytes are left at the cursor.
    pub open spec fn can_read(self, n: nat) -> bool {
        in_file(self.bytes, self.position as int, n as int)
    }

    /// The `n` bytes at the cursor.
    pub open spec fn ahead(self, n: nat) -> Seq<u8> {
        span(self.bytes, self.position as int, n as int)
    }

    /// The same file with the cursor at `position`.
    pub open spec fn at(self, position: nat) -> SourceView {
        SourceView { bytes: self.bytes, position }
    }

    /// The same file with the cursor moved forward over `n` bytes.
    pub open spec fn past(self, n: nat) -> SourceView {
        SourceView { bytes: self.bytes, position: self.position + n }
    }
}

/// A seekable source of bytes with one read cursor: the contents of a file,
/// held in memory.
///
/// The cursor may stand anywhere, also beyond the last byte. A read either
/// delivers all the bytes it was asked for and moves the cursor past them, or
/// fails and leaves the cursor where it was.
pub struct ByteSource {
    data: Vec<u8>,
    position: u64,
}

impl View for ByteSource {
    type V = SourceView;

    closed spec fn view(&self) -> SourceView {
        SourceView { bytes: self.data@, position: self.position as nat }
    }
}

impl ByteSource {
    /// A source over `data` with the cursor at the first byte.
    pub fn new(data: Vec<u8>) -> (source: ByteSource)
        ensures
            source@ == (SourceView { bytes: data@, position: 0 }),
    {
        ByteSource { data, position: 0 }
    }

    /// Gives the bytes back.
    pub fn into_inner(self) -> (data: Vec<u8>)
        ensures
            data@ == self@.bytes,
    {
        self.data
    }

    /// The number of bytes in the file.
    pub fn len(&self) -> (len: usize)
        ensures
            len == self@.bytes.len(),
    {
        self.data.len()
    }

    /// The offset of the cursor from the start of the file.
    pub fn stream_position(&self) -> (position: u64)
        ensures
            position == self@.position,
    {
        self.position
    }

    /// Moves the cursor to `position`, counted from the start of the file.
    pub fn seek(&mut self, position: u64)
        ensures
            final(self)@ == old(self)@.at(position as nat),
    {
        self.position = position;
    }

    /// The index of the byte at the cursor, where `n` bytes are left there.
    fn start_of(&self, n: usize) -> (start: Option<usize>)
        ensures
            match start {
                Some(at) => self@.can_read(n as nat) && at == self@.position && at + n
                    <= usize::MAX,
                None => !self@.can_read(n as nat),
            },
    {
        let len = self.data.len();
        if self.position <= len as u64 && n <= len - self.position as usize {
            Some(self.position as usize)
        } else {
            None
        }
    }

    /// Reads exactly `n` bytes.
    pub fn read_exact(&mut self, n: usize) -> (read: Result<Vec<u8>, SourceError>)
        ensures
            match read {
                Ok(bytes) => old(self)@.can_read(n as nat) && bytes@ == old(self)@.ahead(n as nat)
                    && final(self)@ == old(self)@.past(n as nat),
                Err(cause) => !old(self)@.can_read(n as nat) && cause == SourceError::UnexpectedEof
                    && final(self)@ == old(self)@,
            },
    {
        let start = match self.start_of(n) {
            Some(start) => start,
            None => return Err(SourceError::UnexpectedEof),
        };
        let mut bytes: Vec<u8> = Vec::new();
        let mut i: usize = 0;
        while i < n
            invariant
                i <= n,
                start + n <= self.data.len(),
                bytes@ == self.data@.subrange(start as int, start + i),
            decreases n - i,
        {
            bytes.push(self.data[start + i]);
            i = i + 1;
            assert(bytes@ == self.data@.subrange(start as int, start + i));
        }
        self.position = self.position + n as u64;
        Ok(bytes)
    }

    /// Reads two bytes as an unsigned number, least significant byte first.
    pub fn read_u16_le(&mut self) -> (read: Result<u16, SourceError>)
        ensures
            match read {
                Ok(value) => old(self)@.can_read(2) && value == le_u16(old(self)@.ahead(2))
                    && final(self)@ == old(self)@.past(2),
                Err(cause) => !old(self)@.can_read(2) && cause == SourceError::UnexpectedEof
                    && final(self)@ == old(self)@,
            },
    {
        match self.start_of(2) {
            Some(start) => {
                let value = u16_le_at(&self.data, start);
                self.position = self.position + 2;
                Ok(value)
            },
            None => Err(SourceError::UnexpectedEof),
        }
    }

    /// Reads four bytes as an unsigned number, least significant byte first.
    pub fn read_u32_le(&mut self) -> (read: Result<u32, SourceError>)
        ensures
            match read {
                Ok(value) => old(self)@.can_read(4) && value == le_u32(old(self)@.ahead(4))
                    && final(self)@ == old(self)@.past(4),
                Err(cause) => !old(self)@.can_read(4) && cause == SourceError::UnexpectedEof
                    && final(self)@ == old(self)@,
            },
    {
        match self.start_of(4) {
            Some(start) => {
                let value = u32_le_at(&self.data, start);
                self.position = self.position + 4;
                Ok(value)
            },
            None => Err(SourceError::UnexpectedEof),
        }
    }

    /// Reads eight bytes as an unsigned number, least significant byte first.
    pub fn read_u64_le(&mut self) -> (read: Result<u64, SourceError>)
        ensures
            match read {
                Ok(value) => old(self)@.can_read(8) && value == le_u64(old(self)@.ahead(8))
                    && final(self)@ == old(self)@.past(8),
                Err(cause) => !old(self)@.can_read(8) && cause == SourceError::UnexpectedEof
                    && final(self)@ == old(self)@,
            },
    {
        match self.start_of(8) {
            Some(start) => {
                let value = u64_le_at(&self.data, start);
                self.position = self.position + 8;
                Ok(value)
            },
            None => Err(SourceError::UnexpectedEof),
        }
    }

    /// Reads four bytes as a number in two's complement, least significant
    /// byte first.
    pub fn read_i32_le(&mut self) -> (read: Result<i32, SourceError>)
        ensures
            match read {
                Ok(value) => old(self)@.can_read(4) && value == le_i32(old(self)@.ahead(4))
                    && final(self)@ == old(self)@.past(4),
                Err(cause) => !old(self)@.can_read(4) && cause == SourceError::UnexpectedEof
                    && final(self)@ == old(self)@,
            },
    {
        match self.start_of(4) {
            Some(start) => {
                let value = i32_le_at(&self.data, start);
                self.position = self.position + 4;
                Ok(value)
            },
            None => Err(SourceError::UnexpectedEof),
        }
    }

    /// Reads eight bytes as a number in two's complement, least significant
    /// byte first.
    pub fn read_i64_le(&mut self) -> (read: Result<i64, SourceError>)
        ensures
            match read {
                Ok(value) => old(self)@.can_read(8) && value == le_i64(old(self)@.ahead(8))
                    && final(self)@ == old(self)@.past(8),
                Err(cause) => !old(self)@.can_read(8) && cause == SourceError::UnexpectedEof
                    && final(self)@ == old(self)@,
            },
    {
        match self.start_of(8) {
            Some(start) => {
                let value = i64_le_at(&self.data, start);
                self.position = self.position + 8;
                Ok(value)
            },
            None => Err(SourceError::UnexpectedEof),
        }
    }
}

} // verus!
