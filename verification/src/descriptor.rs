//! The record by which a caller describes a tensor in its memory, and the
//! decoder that follows it.
use vstd::prelude::*;
use crate::bytes::{decode_words, push_word, read_word, word_at, word_bytes, words_of};
use crate::memory::{in_range, ForeignBuffer};
use crate::tensor::TensorView;

verus! {

/// Size of a tensor descriptor in the caller's memory, in bytes.
pub const DESCRIPTOR_SIZE: usize = 20;

/// Wire form of a tensor: five little-endian words, in this order.
#[derive(Clone, Copy, Debug, PartialEq, Eq, Structural)]
pub struct TensorDescriptor {
    /// Where the dimensions start.
    pub dimens_ptr: u32,
    /// How many dimensions the caller declares.
    pub dimens_length: u32,
    /// Tag of the element type. Carried, not interpreted: elements are read
    /// as 32-bit values whatever the tag says.
    pub tensor_type: u32,
    /// Where the elements start.
    pub tensor_ptr: u32,
    /// Size of the elements in bytes.
    pub tensor_length: u32,
}

impl TensorDescriptor {
    /// The descriptor that the first twenty bytes of `bytes` stand for.
    pub open spec fn spec_decode(bytes: Seq<u8>) -> TensorDescriptor {
        TensorDescriptor {
            dimens_ptr: word_at(bytes, 0),
            dimens_length: word_at(bytes, 4),
            tensor_type: word_at(bytes, 8),
            tensor_ptr: word_at(bytes, 12),
            tensor_length: word_at(bytes, 16),
        }
    }

    /// The twenty bytes of a descriptor.
    pub open spec fn spec_encode(self) -> Seq<u8> {
        word_bytes(self.dimens_ptr) + word_bytes(self.dimens_length) + word_bytes(self.tensor_type)
            + word_bytes(self.tensor_ptr) + word_bytes(self.tensor_length)
    }

    /// Reads a descriptor from exactly twenty bytes.
    pub fn decode(bytes: &Vec<u8>) -> (descriptor: Option<TensorDescriptor>)
        ensures
            descriptor is Some <==> bytes@.len() == DESCRIPTOR_SIZE,
            descriptor matches Some(d) ==> d == Self::spec_decode(bytes@),
    {
        if bytes.len() != DESCRIPTOR_SIZE {
            return None;
        }
        Some(
            TensorDescriptor {
                dimens_ptr: read_word(bytes, 0),
                dimens_length: read_word(bytes, 4),
                tensor_type: read_word(bytes, 8),
                tensor_ptr: read_word(bytes, 12),
                tensor_length: read_word(bytes, 16),
            },
        )
    }

    /// Writes the descriptor out as twenty bytes.
    pub fn encode(&self) -> (bytes: Vec<u8>)
        ensures
            bytes@ == self.spec_encode(),
            bytes@.len() == DESCRIPTOR_SIZE,
    {
        let mut bytes: Vec<u8> = Vec::new();
        push_word(&mut bytes, self.dimens_ptr);
        push_word(&mut bytes, self.dimens_length);
        push_word(&mut bytes, self.tensor_type);
        push_word(&mut bytes, self.tensor_ptr);
        push_word(&mut bytes, self.tensor_length);
        assert(bytes@ =~= self.spec_encode());
        bytes
    }
}

/// A descriptor that is written out and read back is unchanged.
pub proof fn lemma_descriptor_roundtrip(descriptor: TensorDescriptor)
    ensures
        descriptor.spec_encode().len() == DESCRIPTOR_SIZE,
        TensorDescriptor::spec_decode(descriptor.spec_encode()) == descriptor,
{
    crate::bytes::lemma_word_roundtrip(descriptor.dimens_ptr);
    crate::bytes::lemma_word_roundtrip(descriptor.dimens_length);
    crate::bytes::lemma_word_roundtrip(descriptor.tensor_type);
    crate::bytes::lemma_word_roundtrip(descriptor.tensor_ptr);
    crate::bytes::lemma_word_roundtrip(descriptor.tensor_length);
}

/// Why a tensor could not be decoded.
#[derive(Clone, Copy, Debug, PartialEq, Eq, Structural)]
pub enum DecodeError {
    /// The descriptor itself does not lie inside the memory.
    MissingMemory,
    /// The dimensions or the elements that the descriptor points at pass the
    /// end of the memory.
    OutOfBounds,
    /// The size of the elements is not a whole number of 32-bit values.
    PartialElement,
}

/// A tensor as read from the caller's memory: the declared dimensions and
/// the elements, not yet held against each other.
pub struct DecodedTensor {
    pub shape: Vec<usize>,
    pub data: Vec<u32>,
}

impl View for DecodedTensor {
    type V = TensorView;

    open spec fn view(&self) -> TensorView {
        TensorView { shape: self.shape@, data: self.data@ }
    }
}

/// The descriptor stored in `memory` at `at`.
pub open spec fn descriptor_at(memory: Seq<u8>, at: int) -> TensorDescriptor {
    TensorDescriptor::spec_decode(memory.subrange(at, at + DESCRIPTOR_SIZE))
}

/// The `rank` dimensions stored in `memory` from `at` on, one word each.
pub open spec fn dimensions_at(memory: Seq<u8>, at: int, rank: int) -> Seq<usize> {
    Seq::new(rank as nat, |i: int| word_at(memory, at + 4 * i) as usize)
}

/// What decoding the tensor described at `at` gives: the descriptor must lie
/// inside the memory, then its `rank` dimensions and its elements must, and
/// the elements must be whole.
pub open spec fn spec_decode_tensor(memory: Seq<u8>, at: int, rank: int) -> Result<
    TensorView,
    DecodeError,
> {
    if !in_range(memory.len(), at, DESCRIPTOR_SIZE as int) {
        Err(DecodeError::MissingMemory)
    } else {
        let d = descriptor_at(memory, at);
        if !in_range(memory.len(), d.dimens_ptr as int, 4 * rank) || !in_range(
            memory.len(),
            d.tensor_ptr as int,
            d.tensor_length as int,
        ) {
            Err(DecodeError::OutOfBounds)
        } else if d.tensor_length % 4 != 0 {
            Err(DecodeError::PartialElement)
        } else {
            Ok(
                TensorView {
                    shape: dimensions_at(memory, d.dimens_ptr as int, rank),
                    data: words_of(
                        memory.subrange(d.tensor_ptr as int, d.tensor_ptr + d.tensor_length),
                    ),
                },
            )
        }
    }
}

/// Decodes the tensor whose descriptor is stored at `descriptor_ptr`,
/// reading exactly `rank` dimensions whatever number the descriptor
/// declares.
pub fn decode_tensor(memory: &ForeignBuffer, descriptor_ptr: u32, rank: usize) -> (decoded: Result<
    DecodedTensor,
    DecodeError,
>)
    ensures
        match (decoded, spec_decode_tensor(memory@, descriptor_ptr as int, rank as int)) {
            (Ok(tensor), Ok(expected)) => tensor@ == expected && tensor.shape@.len() == rank,
            (Err(error), Err(expected)) => error == expected,
            _ => false,
        },
{
    let record = match memory.read_bytes(descriptor_ptr as usize, DESCRIPTOR_SIZE) {
        Ok(bytes) => bytes,
        Err(_) => {
            return Err(DecodeError::MissingMemory);
        },
    };
    let descriptor = match TensorDescriptor::decode(&record) {
        Some(d) => d,
        None => {
            return Err(DecodeError::MissingMemory);
        },
    };
    let size: usize = memory.len();
    let dimens_size: usize = match rank.checked_mul(4) {
        Some(n) => n,
        None => {
            return Err(DecodeError::OutOfBounds);
        },
    };
    let raw_dimensions = match memory.read_bytes(descriptor.dimens_ptr as usize, dimens_size) {
        Ok(bytes) => bytes,
        Err(_) => {
            return Err(DecodeError::OutOfBounds);
        },
    };
    let raw_data = match memory.read_bytes(
        descriptor.tensor_ptr as usize,
        descriptor.tensor_length as usize,
    ) {
        Ok(bytes) => bytes,
        Err(_) => {
            return Err(DecodeError::OutOfBounds);
        },
    };
    if descriptor.tensor_length % 4 != 0 {
        return Err(DecodeError::PartialElement);
    }
    let mut shape: Vec<usize> = Vec::new();
    let mut i: usize = 0;
    while i < rank
        invariant
            i <= rank,
            4 * rank <= usize::MAX,
            raw_dimensions@.len() == 4 * rank,
            raw_dimensions@ == memory@.subrange(
                descriptor.dimens_ptr as int,
                descriptor.dimens_ptr + 4 * rank,
            ),
            in_range(memory@.len(), descriptor.dimens_ptr as int, 4 * rank),
            shape@.len() == i,
            forall|j: int|
                0 <= j < i ==> shape@[j] == word_at(memory@, descriptor.dimens_ptr + 4 * j) as usize,
        decreases rank - i,
    {
        let word: u32 = read_word(&raw_dimensions, 4 * i);
        shape.push(word as usize);
        i += 1;
    }
    let data = decode_words(&raw_data);
    assert(shape@ =~= dimensions_at(memory@, descriptor.dimens_ptr as int, rank as int));
    Ok(DecodedTensor { shape, data })
}

} // verus!
