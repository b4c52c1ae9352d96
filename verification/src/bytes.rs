//! Little-endian 32-bit words, as the caller's memory stores them.
//!
//! Tensor dimensions, handles and byte counts cross the memory boundary as
//! 32-bit little-endian words. Tensor elements are 32-bit floating-point
//! numbers; this library never computes with them and carries each one as
//! the word that holds its bit pattern.
use vstd::prelude::*;

verus! {

/// The word that four little-endian bytes stand for.
pub open spec fn word_of(b0: u8, b1: u8, b2: u8, b3: u8) -> u32 {
    (b0 as int + 256 * (b1 as int) + 65536 * (b2 as int) + 16777216 * (b3 as int)) as u32
}

/// The word stored in `bytes` at `offset`.
pub open spec fn word_at(bytes: Seq<u8>, offset: int) -> u32
    recommends
        0 <= offset,
        offset + 4 <= bytes.len(),
{
    word_of(bytes[offset], bytes[offset + 1], bytes[offset + 2], bytes[offset + 3])
}

/// Byte `k` (0 is the lowest) of the little-endian form of `word`.
pub open spec fn byte_of(word: u32, k: int) -> u8
    recommends
        0 <= k < 4,
{
    if k == 0 {
        (word as int % 256) as u8
    } else if k == 1 {
        (word as int / 256 % 256) as u8
    } else if k == 2 {
        (word as int / 65536 % 256) as u8
    } else {
        (word as int / 16777216 % 256) as u8
    }
}

/// The four little-endian bytes of `word`.
pub open spec fn word_bytes(word: u32) -> Seq<u8> {
    seq![byte_of(word, 0), byte_of(word, 1), byte_of(word, 2), byte_of(word, 3)]
}

/// The words that `bytes` holds, four bytes each; bytes after the last whole
/// word are left out.
pub open spec fn words_of(bytes: Seq<u8>) -> Seq<u32> {
    Seq::new((bytes.len() / 4) as nat, |i: int| word_at(bytes, 4 * i))
}

/// The bytes that `words` serialise to, in order.
pub open spec fn bytes_of(words: Seq<u32>) -> Seq<u8> {
    Seq::new(4 * words.len(), |i: int| byte_of(words[i / 4], i % 4))
}

/// Decoding the four bytes of a word gives the word back.
pub proof fn lemma_word_roundtrip(word: u32)
    ensures
        word_of(byte_of(word, 0), byte_of(word, 1), byte_of(word, 2), byte_of(word, 3)) == word,
        word_at(word_bytes(word), 0) == word,
{
}

/// Encoding the word of four bytes gives the four bytes back.
pub proof fn lemma_bytes_roundtrip(b0: u8, b1: u8, b2: u8, b3: u8)
    ensures
        byte_of(word_of(b0, b1, b2, b3), 0) == b0,
        byte_of(word_of(b0, b1, b2, b3), 1) == b1,
        byte_of(word_of(b0, b1, b2, b3), 2) == b2,
        byte_of(word_of(b0, b1, b2, b3), 3) == b3,
{
    let q2: int = b2 as int + 256 * (b3 as int);
    let q1: int = b1 as int + 256 * q2;
    let n: int = b0 as int + 256 * q1;
    assert(n == b0 as int + 256 * (b1 as int) + 65536 * (b2 as int) + 16777216 * (b3 as int));
    assert(0 <= n < 0x1_0000_0000);
    assert(word_of(b0, b1, b2, b3) as int == n);
    assert(n % 256 == b0 as int && n / 256 == q1);
    assert(q1 % 256 == b1 as int && q1 / 256 == q2);
    assert(q2 % 256 == b2 as int && q2 / 256 == b3 as int);
    assert(n / 65536 == q2);
    assert(n / 16777216 == b3 as int);
}

/// Serialising words and reading them back changes nothing.
pub proof fn lemma_words_of_bytes_of(words: Seq<u32>)
    ensures
        bytes_of(words).len() == 4 * words.len(),
        words_of(bytes_of(words)) == words,
{
    let bytes = bytes_of(words);
    assert forall|i: int| 0 <= i < words.len() implies #[trigger] words_of(bytes)[i] == words[i] by {
        lemma_word_roundtrip(words[i]);
        assert(bytes[4 * i] == byte_of(words[i], 0));
        assert(bytes[4 * i + 1] == byte_of(words[i], 1));
        assert(bytes[4 * i + 2] == byte_of(words[i], 2));
        assert(bytes[4 * i + 3] == byte_of(words[i], 3));
    }
    assert(words_of(bytes) =~= words);
}

/// Reading whole words and serialising them again changes nothing.
pub proof fn lemma_bytes_of_words_of(bytes: Seq<u8>)
    requires
        bytes.len() % 4 == 0,
    ensures
        words_of(bytes).len() * 4 == bytes.len(),
        bytes_of(words_of(bytes)) == bytes,
{
    let words = words_of(bytes);
    assert forall|i: int| 0 <= i < bytes.len() implies #[trigger] bytes_of(words)[i] == bytes[i] by {
        let w: int = i / 4;
        lemma_bytes_roundtrip(bytes[4 * w], bytes[4 * w + 1], bytes[4 * w + 2], bytes[4 * w + 3]);
        assert(words[w] == word_at(bytes, 4 * w));
    }
    assert(bytes_of(words) =~= bytes);
}

/// Reads the word that starts at `offset`.
pub fn read_word(bytes: &Vec<u8>, offset: usize) -> (word: u32)
    requires
        offset + 4 <= bytes.len(),
    ensures
        word == word_at(bytes@, offset as int),
{
    let b0: u32 = bytes[offset] as u32;
    let b1: u32 = bytes[offset + 1] as u32;
    let b2: u32 = bytes[offset + 2] as u32;
    let b3: u32 = bytes[offset + 3] as u32;
    b0 + 256 * b1 + 65536 * b2 + 16777216 * b3
}

/// Appends the four little-endian bytes of `word` to `out`.
pub fn push_word(out: &mut Vec<u8>, word: u32)
    ensures
        final(out)@ == old(out)@ + word_bytes(word),
{
    out.push((word % 256) as u8);
    out.push((word / 256 % 256) as u8);
    out.push((word / 65536 % 256) as u8);
    out.push((word / 16777216 % 256) as u8);
    assert(out@ =~= old(out)@ + word_bytes(word));
}

/// Returns the four little-endian bytes of `word`.
pub fn encode_word(word: u32) -> (bytes: Vec<u8>)
    ensures
        bytes@ == word_bytes(word),
{
    let mut bytes: Vec<u8> = Vec::new();
    push_word(&mut bytes, word);
    assert(bytes@ =~= word_bytes(word));
    bytes
}

/// Reads every whole word of `bytes`.
pub fn decode_words(bytes: &Vec<u8>) -> (words: Vec<u32>)
    ensures
        words@ == words_of(bytes@),
{
    let count: usize = bytes.len() / 4;
    let mut words: Vec<u32> = Vec::new();
    let mut i: usize = 0;
    while i < count
        invariant
            count == bytes.len() / 4,
            i <= count,
            words@.len() == i,
            forall|j: int| 0 <= j < i ==> words@[j] == word_at(bytes@, 4 * j),
        decreases count - i,
    {
        let word: u32 = read_word(bytes, 4 * i);
        words.push(word);
        i += 1;
    }
    assert(words@ =~= words_of(bytes@));
    words
}

/// Serialises `words`, four bytes each.
pub fn encode_words(words: &Vec<u32>) -> (bytes: Vec<u8>)
    ensures
        bytes@ == bytes_of(words@),
        bytes@.len() == 4 * words@.len(),
{
    let mut bytes: Vec<u8> = Vec::new();
    let mut i: usize = 0;
    while i < words.len()
        invariant
            i <= words.len(),
            bytes@.len() == 4 * i,
            forall|j: int| 0 <= j < 4 * i ==> bytes@[j] == byte_of(words@[j / 4], j % 4),
        decreases words.len() - i,
    {
        let ghost before = bytes@;
        push_word(&mut bytes, words[i]);
        assert forall|j: int| 0 <= j < 4 * (i + 1) implies bytes@[j] == byte_of(
            words@[j / 4],
            j % 4,
        ) by {
            if j < 4 * i {
                assert(bytes@[j] == before[j]);
            } else {
                assert(bytes@[j] == word_bytes(words@[i as int])[j - 4 * i]);
            }
        }
        i += 1;
    }
    assert(bytes@ =~= bytes_of(words@));
    bytes
}

} // verus!
