//! The words of a module: how the bytes of a module are read as 32-bit
//! words, in either byte order, and written back.

use crate::parse::ParseError;
use vstd::prelude::*;

verus! {

/// The number that every module starts with.
pub const MAGIC: u32 = 0x0723_0203;

/// The number of words of the header: the magic number, the version, the
/// generator, the bound of the identifiers and the schema.
pub const HEADER_WORDS: usize = 5;

/// The order in which the bytes of a word stand in a module.
#[derive(Debug, Clone, Copy, PartialEq, Eq, Structural)]
pub enum ByteOrder {
    /// The byte of the lowest value first.
    Little,
    /// The byte of the highest value first.
    Big,
}

/// The word that four bytes make, the first of them of the lowest value.
pub open spec fn spec_word(b0: u8, b1: u8, b2: u8, b3: u8) -> u32 {
    (b0 + 0x100 * b1 + 0x1_0000 * b2 + 0x100_0000 * b3) as u32
}

/// Byte `k` of a word, byte 0 being the one of the lowest value and byte 3
/// the one of the highest. From 3 on, `k` stands for byte 3.
pub open spec fn spec_byte(w: u32, k: nat) -> u8 {
    if k == 0 {
        (w % 0x100) as u8
    } else if k == 1 {
        ((w / 0x100) % 0x100) as u8
    } else if k == 2 {
        ((w / 0x1_0000) % 0x100) as u8
    } else {
        ((w / 0x100_0000) % 0x100) as u8
    }
}

/// The byte order that the first four bytes name by spelling the magic
/// number in it, if they spell it at all.
pub open spec fn spec_byte_order(data: Seq<u8>) -> Option<ByteOrder> {
    if data.len() < 4 {
        None
    } else if data[0] == 0x03 && data[1] == 0x02 && data[2] == 0x23 && data[3] == 0x07 {
        Some(ByteOrder::Little)
    } else if data[0] == 0x07 && data[1] == 0x23 && data[2] == 0x02 && data[3] == 0x03 {
        Some(ByteOrder::Big)
    } else {
        None
    }
}

/// Word `i` of the bytes, read in the given order.
pub open spec fn spec_word_at(data: Seq<u8>, order: ByteOrder, i: int) -> u32 {
    match order {
        ByteOrder::Little => spec_word(
            data[4 * i],
            data[4 * i + 1],
            data[4 * i + 2],
            data[4 * i + 3],
        ),
        ByteOrder::Big => spec_word(data[4 * i + 3], data[4 * i + 2], data[4 * i + 1], data[4 * i]),
    }
}

/// The words of a module. The bytes must hold the header, start with the
/// magic number in one of the two byte orders, and be whole words; the
/// words are then read in that order.
pub open spec fn spec_words(data: Seq<u8>) -> Result<Seq<u32>, ParseError> {
    if data.len() < 4 * HEADER_WORDS {
        Err(ParseError::MissingHeader)
    } else {
        match spec_byte_order(data) {
            None => Err(ParseError::WrongHeader),
            Some(order) => if data.len() % 4 != 0 {
                Err(ParseError::IncompleteInstruction)
            } else {
                Ok(Seq::new((data.len() / 4) as nat, |i: int| spec_word_at(data, order, i)))
            },
        }
    }
}

/// Returns the word that four bytes make, the first of them of the lowest
/// value.
pub fn word(b0: u8, b1: u8, b2: u8, b3: u8) -> (w: u32)
    ensures
        w == spec_word(b0, b1, b2, b3),
{
    assert(((b3 as u32) << 24) | ((b2 as u32) << 16) | ((b1 as u32) << 8) | (b0 as u32) == b0
        + 0x100 * b1 + 0x1_0000 * b2 + 0x100_0000 * b3) by (bit_vector);
    ((b3 as u32) << 24) | ((b2 as u32) << 16) | ((b1 as u32) << 8) | (b0 as u32)
}

/// Returns byte `k` of a word, byte 0 being the one of the lowest value and
/// byte 3 the one of the highest. From 3 on, `k` stands for byte 3.
pub fn byte(w: u32, k: usize) -> (b: u8)
    ensures
        b == spec_byte(w, k as nat),
{
    assert((w & 0xff) == w % 0x100) by (bit_vector);
    assert(((w >> 8) & 0xff) == (w / 0x100) % 0x100) by (bit_vector);
    assert(((w >> 16) & 0xff) == (w / 0x1_0000) % 0x100) by (bit_vector);
    assert(((w >> 24) & 0xff) == (w / 0x100_0000) % 0x100) by (bit_vector);
    if k == 0 {
        (w & 0xff) as u8
    } else if k == 1 {
        ((w >> 8) & 0xff) as u8
    } else if k == 2 {
        ((w >> 16) & 0xff) as u8
    } else {
        ((w >> 24) & 0xff) as u8
    }
}

/// A word is made of its four bytes, and the bytes of the word that four
/// bytes make are those bytes.
pub proof fn lemma_word_bytes(w: u32, b0: u8, b1: u8, b2: u8, b3: u8)
    ensures
        spec_word(spec_byte(w, 0), spec_byte(w, 1), spec_byte(w, 2), spec_byte(w, 3)) == w,
        spec_byte(spec_word(b0, b1, b2, b3), 0) == b0,
        spec_byte(spec_word(b0, b1, b2, b3), 1) == b1,
        spec_byte(spec_word(b0, b1, b2, b3), 2) == b2,
        spec_byte(spec_word(b0, b1, b2, b3), 3) == b3,
{
    assert((w % 0x100) + 0x100 * ((w / 0x100) % 0x100) + 0x1_0000 * ((w / 0x1_0000) % 0x100)
        + 0x100_0000 * ((w / 0x100_0000) % 0x100) == w) by (bit_vector);
    let v: u32 = spec_word(b0, b1, b2, b3);
    assert(v == b0 + 0x100 * b1 + 0x1_0000 * b2 + 0x100_0000 * b3) by (bit_vector)
        requires
            v == (b0 + 0x100 * b1 + 0x1_0000 * b2 + 0x100_0000 * b3) as u32,
    ;
    assert(v % 0x100 == b0 && (v / 0x100) % 0x100 == b1 && (v / 0x1_0000) % 0x100 == b2 && (v
        / 0x100_0000) % 0x100 == b3) by (bit_vector)
        requires
            v == b0 + 0x100 * b1 + 0x1_0000 * b2 + 0x100_0000 * b3,
    ;
}

/// Returns the byte order that the first four bytes name.
pub fn byte_order(data: &[u8]) -> (order: Option<ByteOrder>)
    ensures
        order == spec_byte_order(data@),
{
    if data.len() < 4 {
        None
    } else if data[0] == 0x03 && data[1] == 0x02 && data[2] == 0x23 && data[3] == 0x07 {
        Some(ByteOrder::Little)
    } else if data[0] == 0x07 && data[1] == 0x23 && data[2] == 0x02 && data[3] == 0x03 {
        Some(ByteOrder::Big)
    } else {
        None
    }
}

/// Reads the bytes of a module as words. It fails with `MissingHeader` on
/// fewer bytes than the header has, with `WrongHeader` where the bytes start
/// with the magic number in neither byte order, and with
/// `IncompleteInstruction` where the bytes end inside a word.
pub fn words_of(data: &[u8]) -> (r: Result<Vec<u32>, ParseError>)
    ensures
        match r {
            Ok(words) => spec_words(data@) == Ok::<Seq<u32>, ParseError>(words@),
            Err(e) => spec_words(data@) == Err::<Seq<u32>, ParseError>(e),
        },
{
    if data.len() < 4 * HEADER_WORDS {
        return Err(ParseError::MissingHeader);
    }
    let order = match byte_order(data) {
        Some(order) => order,
        None => {
            return Err(ParseError::WrongHeader);
        },
    };
    if data.len() % 4 != 0 {
        return Err(ParseError::IncompleteInstruction);
    }
    let n = data.len() / 4;
    let mut words: Vec<u32> = Vec::new();
    let mut i: usize = 0;
    while i < n
        invariant
            i <= n,
            4 * n == data@.len(),
            4 * n <= usize::MAX,
            words@.len() == i,
            forall|j: int| 0 <= j < i ==> words@[j] == spec_word_at(data@, order, j),
        decreases n - i,
    {
        let w = match order {
            ByteOrder::Little => word(data[4 * i], data[4 * i + 1], data[4 * i + 2], data[4 * i + 3]),
            ByteOrder::Big => word(data[4 * i + 3], data[4 * i + 2], data[4 * i + 1], data[4 * i]),
        };
        words.push(w);
        i += 1;
    }
    assert(words@ =~= Seq::new((data@.len() / 4) as nat, |i: int| spec_word_at(data@, order, i)));
    Ok(words)
}

} // verus!
