//! Literal strings: text that a module holds in its words, four bytes to a
//! word, ended by a zero byte.

use crate::parse::ParseError;
use crate::words::{byte, lemma_word_bytes, spec_byte, spec_word, word};
use vstd::prelude::*;
use vstd::utf8::{decode_utf8, encode_utf8, encode_utf8_decode_utf8, valid_utf8};

verus! {

/// The bytes of the literal string that starts with word `from`: the bytes
/// of the words, those of the lowest value first, up to the first zero
/// byte. There is none where the words end before a zero byte.
pub open spec fn spec_string_bytes(words: Seq<u32>, from: nat) -> Option<Seq<u8>>
    decreases words.len() - from,
{
    if from >= words.len() {
        None
    } else {
        let w = words[from as int];
        let b0 = spec_byte(w, 0);
        let b1 = spec_byte(w, 1);
        let b2 = spec_byte(w, 2);
        let b3 = spec_byte(w, 3);
        if b0 == 0 {
            Some(Seq::empty())
        } else if b1 == 0 {
            Some(seq![b0])
        } else if b2 == 0 {
            Some(seq![b0, b1])
        } else if b3 == 0 {
            Some(seq![b0, b1, b2])
        } else {
            match spec_string_bytes(words, from + 1) {
                Some(rest) => Some(seq![b0, b1, b2, b3] + rest),
                None => None,
            }
        }
    }
}

/// A literal string read from the words from `from` on: its text, and the
/// index of the first word behind it. The string fills the words up to and
/// with the one that holds its zero byte. It is no string where the zero
/// byte is missing or where the bytes before it are not UTF-8.
pub open spec fn spec_parse_string(words: Seq<u32>, from: nat) -> Result<
    (Seq<char>, nat),
    ParseError,
> {
    match spec_string_bytes(words, from) {
        None => Err(ParseError::InvalidString),
        Some(bytes) => if valid_utf8(bytes) {
            Ok((decode_utf8(bytes), from + bytes.len() / 4 + 1))
        } else {
            Err(ParseError::InvalidString)
        },
    }
}

/// The bytes of a literal string do not hold a zero, and the string ends
/// within the words.
pub proof fn lemma_string_bytes(words: Seq<u32>, from: nat)
    ensures
        spec_string_bytes(words, from) matches Some(bytes) ==> {
            &&& forall|i: int| 0 <= i < bytes.len() ==> bytes[i] != 0
            &&& from + bytes.len() / 4 + 1 <= words.len()
        },
    decreases words.len() - from,
{
    if from < words.len() {
        lemma_string_bytes(words, from + 1);
    }
}

/// `String::from_utf8` of the standard library, with its error dropped. It
/// gives a string exactly for bytes that are UTF-8, and the string it gives
/// is the one whose UTF-8 encoding is those bytes.
#[verifier::external_body]
fn string_from_utf8(bytes: Vec<u8>) -> (r: Option<String>)
    ensures
        r is Some <==> valid_utf8(bytes@),
        r matches Some(s) ==> encode_utf8(s@) == bytes@,
{
    String::from_utf8(bytes).ok()
}

/// Returns the bytes of the literal string that starts with word `from`, and
/// `None` where the words end before the zero byte of the string.
pub fn string_bytes(words: &[u32], from: usize) -> (r: Option<Vec<u8>>)
    ensures
        match r {
            Some(bytes) => spec_string_bytes(words@, from as nat) == Some(bytes@),
            None => spec_string_bytes(words@, from as nat) is None,
        },
{
    let mut out: Vec<u8> = Vec::new();
    let ghost target = spec_string_bytes(words@, from as nat);
    let mut i: usize = from;
    while i < words.len()
        invariant
            from <= i,
            target == spec_string_bytes(words@, from as nat),
            (match spec_string_bytes(words@, i as nat) {
                Some(rest) => Some(out@ + rest),
                None => None,
            }) == target,
        decreases words.len() - i,
    {
        let w = words[i];
        let b0 = byte(w, 0);
        let b1 = byte(w, 1);
        let b2 = byte(w, 2);
        let b3 = byte(w, 3);
        let ghost before = out@;
        if b0 == 0 {
            assert(before + Seq::<u8>::empty() =~= before);
            return Some(out);
        }
        out.push(b0);
        if b1 == 0 {
            assert(before + seq![b0] =~= out@);
            return Some(out);
        }
        out.push(b1);
        if b2 == 0 {
            assert(before + seq![b0, b1] =~= out@);
            return Some(out);
        }
        out.push(b2);
        if b3 == 0 {
            assert(before + seq![b0, b1, b2] =~= out@);
            return Some(out);
        }
        out.push(b3);
        proof {
            assert(out@ =~= before + seq![b0, b1, b2, b3]);
            if let Some(rest) = spec_string_bytes(words@, (i + 1) as nat) {
                assert((before + seq![b0, b1, b2, b3]) + rest =~= before + (seq![b0, b1, b2, b3]
                    + rest));
            }
        }
        i += 1;
    }
    None
}

/// Reads a literal string from the words from index `from` on. Returns its
/// text and the index of the first word behind it, and `InvalidString`
/// where the words hold no zero byte from `from` on or where the bytes
/// before it are not UTF-8.
pub fn parse_string(words: &[u32], from: usize) -> (r: Result<(String, usize), ParseError>)
    ensures
        match r {
            Ok((text, next)) => spec_parse_string(words@, from as nat) == Ok::<
                (Seq<char>, nat),
                ParseError,
            >((text@, next as nat)) && from < next <= words@.len(),
            Err(e) => spec_parse_string(words@, from as nat) == Err::<(Seq<char>, nat), ParseError>(
                e,
            ),
        },
{
    let bytes = match string_bytes(words, from) {
        Some(bytes) => bytes,
        None => {
            return Err(ParseError::InvalidString);
        },
    };
    let total = words.len();
    proof {
        lemma_string_bytes(words@, from as nat);
        assert(from + bytes@.len() / 4 + 1 <= total);
    }
    let next = from + bytes.len() / 4 + 1;
    match string_from_utf8(bytes) {
        Some(text) => {
            proof {
                encode_utf8_decode_utf8(text@);
            }
            Ok((text, next))
        },
        None => Err(ParseError::InvalidString),
    }
}

/// Byte `i` of the bytes, and zero behind their end.
pub open spec fn spec_byte_or_zero(bytes: Seq<u8>, i: nat) -> u8 {
    if i < bytes.len() {
        bytes[i as int]
    } else {
        0
    }
}

/// The words that hold the bytes from index `from` on as a literal string:
/// four bytes to a word, the first of them of the lowest value, then a zero
/// byte, and zero bytes to the end of the last word.
pub open spec fn spec_literal_words(bytes: Seq<u8>, from: nat) -> Seq<u32>
    decreases bytes.len() - from,
{
    let w = spec_word(
        spec_byte_or_zero(bytes, from),
        spec_byte_or_zero(bytes, from + 1),
        spec_byte_or_zero(bytes, from + 2),
        spec_byte_or_zero(bytes, from + 3),
    );
    if from + 4 > bytes.len() {
        seq![w]
    } else {
        seq![w] + spec_literal_words(bytes, from + 4)
    }
}

/// Whether none of the bytes is zero.
pub open spec fn spec_no_zero(bytes: Seq<u8>) -> bool {
    forall|i: int| 0 <= i < bytes.len() ==> bytes[i] != 0
}

/// A literal string takes one word for every four bytes, and one more.
pub proof fn lemma_literal_len(bytes: Seq<u8>, from: nat)
    requires
        from <= bytes.len(),
    ensures
        spec_literal_words(bytes, from).len() == (bytes.len() - from) / 4 + 1,
    decreases bytes.len() - from,
{
    if from + 4 <= bytes.len() {
        lemma_literal_len(bytes, from + 4);
    }
}

/// Bytes without a zero, written as a literal string between any words, are
/// read back as they are.
pub proof fn lemma_literal_roundtrip(prefix: Seq<u32>, bytes: Seq<u8>, from: nat, tail: Seq<u32>)
    requires
        spec_no_zero(bytes),
        from <= bytes.len(),
    ensures
        spec_string_bytes(prefix + spec_literal_words(bytes, from) + tail, prefix.len())
            == Some(bytes.skip(from as int)),
    decreases bytes.len() - from,
{
    let words = prefix + spec_literal_words(bytes, from) + tail;
    let b0 = spec_byte_or_zero(bytes, from);
    let b1 = spec_byte_or_zero(bytes, from + 1);
    let b2 = spec_byte_or_zero(bytes, from + 2);
    let b3 = spec_byte_or_zero(bytes, from + 3);
    let w = spec_word(b0, b1, b2, b3);
    lemma_word_bytes(w, b0, b1, b2, b3);
    assert(words[prefix.len() as int] == w);
    let rest = bytes.skip(from as int);
    if from + 4 > bytes.len() {
        if from == bytes.len() {
            assert(rest =~= Seq::<u8>::empty());
        } else if from + 1 == bytes.len() {
            assert(rest =~= seq![b0]);
        } else if from + 2 == bytes.len() {
            assert(rest =~= seq![b0, b1]);
        } else {
            assert(rest =~= seq![b0, b1, b2]);
        }
    } else {
        lemma_literal_roundtrip(prefix.push(w), bytes, from + 4, tail);
        assert(prefix.push(w) + spec_literal_words(bytes, from + 4) + tail =~= words);
        assert(seq![b0, b1, b2, b3] + bytes.skip((from + 4) as int) =~= rest);
    }
}

/// Returns the words that hold the bytes as a literal string.
pub fn literal_words(bytes: &[u8]) -> (words: Vec<u32>)
    ensures
        words@ == spec_literal_words(bytes@, 0),
{
    let mut out: Vec<u32> = Vec::new();
    let ghost target = spec_literal_words(bytes@, 0);
    assert(out@ + target =~= target);
    let n = bytes.len();
    let mut i: usize = 0;
    while n - i >= 4
        invariant
            i <= n,
            n == bytes@.len(),
            out@ + spec_literal_words(bytes@, i as nat) == target,
        decreases n - i,
    {
        let ghost before = out@;
        let w = word(bytes[i], bytes[i + 1], bytes[i + 2], bytes[i + 3]);
        out.push(w);
        proof {
            let rest = spec_literal_words(bytes@, (i + 4) as nat);
            assert((before + seq![w]) + rest =~= before + (seq![w] + rest));
            assert(out@ =~= before + seq![w]);
        }
        i += 4;
    }
    let b0 = if i < n {
        bytes[i]
    } else {
        0
    };
    let b1 = if n - i > 1 {
        bytes[i + 1]
    } else {
        0
    };
    let b2 = if n - i > 2 {
        bytes[i + 2]
    } else {
        0
    };
    let ghost before = out@;
    let w = word(b0, b1, b2, 0);
    out.push(w);
    assert(out@ =~= before + seq![w]);
    out
}

/// Returns whether none of the bytes is zero.
pub fn no_zero(bytes: &[u8]) -> (b: bool)
    ensures
        b == spec_no_zero(bytes@),
{
    let mut i: usize = 0;
    while i < bytes.len()
        invariant
            i <= bytes.len(),
            forall|j: int| 0 <= j < i ==> bytes@[j] != 0,
        decreases bytes.len() - i,
    {
        if bytes[i] == 0 {
            return false;
        }
        i += 1;
    }
    true
}

} // verus!
