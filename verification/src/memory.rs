//! The caller's memory, reached only through bounds-checked reads and
//! writes.
use vstd::prelude::*;
use crate::bytes::{encode_word, read_word, word_at, word_bytes};

verus! {

/// A read or a write would pass the end of the buffer.
#[derive(Clone, Copy, Debug, PartialEq, Eq, Structural)]
pub struct OutOfRange;

/// The `length` bytes from `offset` on lie inside a buffer of `size` bytes.
pub open spec fn in_range(size: nat, offset: int, length: int) -> bool {
    0 <= offset && 0 <= length && offset + length <= size
}

/// `memory` with the bytes from `offset` on replaced by `data`.
pub open spec fn overwrite(memory: Seq<u8>, offset: int, data: Seq<u8>) -> Seq<u8> {
    Seq::new(
        memory.len(),
        |i: int|
            if offset <= i < offset + data.len() {
                data[i - offset]
            } else {
                memory[i]
            },
    )
}

/// A linear memory owned by the caller of the session manager.
pub struct ForeignBuffer {
    bytes: Vec<u8>,
}

impl View for ForeignBuffer {
    type V = Seq<u8>;

    closed spec fn view(&self) -> Seq<u8> {
        self.bytes@
    }
}

impl ForeignBuffer {
    /// Wraps `bytes` as a caller memory.
    pub fn new(bytes: Vec<u8>) -> (buffer: ForeignBuffer)
        ensures
            buffer@ == bytes@,
    {
        ForeignBuffer { bytes }
    }

    /// Gives the bytes back.
    pub fn into_bytes(self) -> (bytes: Vec<u8>)
        ensures
            bytes@ == self@,
    {
        self.bytes
    }

    /// The bytes, for reading.
    pub fn as_bytes(&self) -> (bytes: &Vec<u8>)
        ensures
            bytes@ == self@,
    {
        &self.bytes
    }

    /// Size of the memory in bytes.
    pub fn len(&self) -> (size: usize)
        ensures
            size == self@.len(),
    {
        self.bytes.len()
    }

    /// Tells whether `length` bytes from `offset` on lie inside the memory.
    pub fn contains_range(&self, offset: usize, length: usize) -> (inside: bool)
        ensures
            inside == in_range(self@.len(), offset as int, length as int),
    {
        offset <= self.bytes.len() && length <= self.bytes.len() - offset
    }

    /// Copies `length` bytes out, starting at `offset`.
    pub fn read_bytes(&self, offset: usize, length: usize) -> (read: Result<Vec<u8>, OutOfRange>)
        ensures
            read is Ok <==> in_range(self@.len(), offset as int, length as int),
            read matches Ok(bytes) ==> bytes@ == self@.subrange(offset as int, offset + length),
    {
        if !self.contains_range(offset, length) {
            return Err(OutOfRange);
        }
        let mut bytes: Vec<u8> = Vec::new();
        let mut i: usize = 0;
        while i < length
            invariant
                offset + length <= self.bytes.len() <= usize::MAX,
                i <= length,
                bytes@.len() == i,
                forall|j: int| 0 <= j < i ==> bytes@[j] == self.bytes@[offset + j],
            decreases length - i,
        {
            bytes.push(self.bytes[offset + i]);
            i += 1;
        }
        assert(bytes@ =~= self@.subrange(offset as int, offset + length));
        Ok(bytes)
    }

    /// Copies `data` in, starting at `offset`. A write that does not fit
    /// changes nothing.
    pub fn write_bytes(&mut self, offset: usize, data: &[u8]) -> (written: Result<(), OutOfRange>)
        ensures
            written is Ok <==> in_range(old(self)@.len(), offset as int, data@.len() as int),
            written is Ok ==> final(self)@ == overwrite(old(self)@, offset as int, data@),
            written is Err ==> final(self)@ == old(self)@,
    {
        if !self.contains_range(offset, data.len()) {
            return Err(OutOfRange);
        }
        let mut i: usize = 0;
        while i < data.len()
            invariant
                offset + data@.len() <= old(self).bytes.len() <= usize::MAX,
                i <= data@.len(),
                self.bytes@.len() == old(self).bytes@.len(),
                forall|j: int|
                    0 <= j < self.bytes@.len() ==> self.bytes@[j] == if offset <= j < offset + i {
                        data@[j - offset]
                    } else {
                        old(self).bytes@[j]
                    },
            decreases data.len() - i,
        {
            self.bytes.set(offset + i, data[i]);
            i += 1;
        }
        assert(self@ =~= overwrite(old(self)@, offset as int, data@));
        Ok(())
    }

    /// Reads the little-endian word at `offset`.
    pub fn read_u32(&self, offset: usize) -> (read: Result<u32, OutOfRange>)
        ensures
            read is Ok <==> in_range(self@.len(), offset as int, 4),
            read matches Ok(word) ==> word == word_at(self@, offset as int),
    {
        if !self.contains_range(offset, 4) {
            return Err(OutOfRange);
        }
        Ok(read_word(&self.bytes, offset))
    }

    /// Writes `word` at `offset`, little-endian. A write that does not fit
    /// changes nothing.
    pub fn write_u32(&mut self, offset: usize, word: u32) -> (written: Result<(), OutOfRange>)
        ensures
            written is Ok <==> in_range(old(self)@.len(), offset as int, 4),
            written is Ok ==> final(self)@ == overwrite(old(self)@, offset as int, word_bytes(word)),
            written is Err ==> final(self)@ == old(self)@,
    {
        let bytes = encode_word(word);
        self.write_bytes(offset, bytes.as_slice())
    }
}

/// A write keeps the size of the memory, leaves every byte outside the
/// written range as it was, and is read back unchanged.
pub proof fn lemma_overwrite_reads_back(memory: Seq<u8>, offset: int, data: Seq<u8>)
    requires
        in_range(memory.len(), offset, data.len() as int),
    ensures
        overwrite(memory, offset, data).len() == memory.len(),
        overwrite(memory, offset, data).subrange(offset, offset + data.len()) == data,
        forall|i: int|
            0 <= i < memory.len() && !(offset <= i < offset + data.len()) ==> overwrite(
                memory,
                offset,
                data,
            )[i] == memory[i],
{
    assert(overwrite(memory, offset, data).subrange(offset, offset + data.len()) =~= data);
}

/// A word written to memory is the word read at the same place.
pub proof fn lemma_word_written_is_read(memory: Seq<u8>, offset: int, word: u32)
    requires
        in_range(memory.len(), offset, 4),
    ensures
        word_at(overwrite(memory, offset, word_bytes(word)), offset) == word,
{
    crate::bytes::lemma_word_roundtrip(word);
}

} // verus!
