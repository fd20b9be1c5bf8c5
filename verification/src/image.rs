//! The object-file format: big-endian sixteen-bit words with no header. The
//! first word is the origin, the address at which the rest is placed.

use vstd::prelude::*;
use byteorder::{BigEndian, ByteOrder};
use crate::MEMORY_MAX;

verus! {

/// Why an image cannot be loaded.
#[derive(Clone, Copy, Debug, PartialEq, Eq, Structural)]
pub enum LoadError {
    /// The image is too short to hold the origin word.
    MissingOrigin,
    /// The image ends in the middle of a word.
    TruncatedWord,
    /// The image holds more words than the address space has cells.
    TooLarge,
}

/// The word that two bytes stand for, most significant byte first.
pub open spec fn be_word(high: u8, low: u8) -> u16 {
    (high as int * 256 + low as int) as u16
}

/// The origin of an image: its first word.
pub open spec fn image_origin(image: Seq<u8>) -> u16 {
    be_word(image[0], image[1])
}

/// The words of an image that follow the origin, in file order.
pub open spec fn image_words(image: Seq<u8>) -> Seq<u16> {
    Seq::new(
        (image.len() / 2 - 1) as nat,
        |k: int| be_word(image[2 * k + 2], image[2 * k + 3]),
    )
}

/// The error that loading `image` meets, if any.
pub open spec fn load_error(image: Seq<u8>) -> Option<LoadError> {
    if image.len() < 2 {
        Some(LoadError::MissingOrigin)
    } else if image.len() % 2 == 1 {
        Some(LoadError::TruncatedWord)
    } else if image.len() / 2 - 1 > MEMORY_MAX {
        Some(LoadError::TooLarge)
    } else {
        None
    }
}

/// The memory after `words` were placed in consecutive cells from `origin`
/// on, wrapping from the last address to the first.
pub open spec fn placed(memory: Seq<u16>, origin: u16, words: Seq<u16>) -> Seq<u16> {
    Seq::new(
        MEMORY_MAX as nat,
        |address: int|
            {
                let k = (address - origin + MEMORY_MAX) % (MEMORY_MAX as int);
                if k < words.len() {
                    words[k]
                } else {
                    memory[address]
                }
            },
    )
}

/// Calls `byteorder::BigEndian::read_u16` on the bytes of `bytes` from
/// index `at` on. The contract claims that the result is the first of
/// these bytes times 256 plus the second. The call panics on fewer than two
/// bytes, which `requires` excludes.
#[verifier::external_body]
pub(crate) fn read_be_u16(bytes: &[u8], at: usize) -> (word: u16)
    requires
        at + 2 <= bytes@.len(),
    ensures
        word == be_word(bytes@[at as int], bytes@[at + 1]),
{
    BigEndian::read_u16(&bytes[at..])
}

/// Checks the framing of an image and returns the number of words that
/// follow its origin.
pub fn word_count(image: &[u8]) -> (r: Result<usize, LoadError>)
    ensures
        match load_error(image@) {
            Some(e) => r == Err::<usize, LoadError>(e),
            None => r == Ok::<usize, LoadError>(image_words(image@).len() as usize),
        },
{
    let len: usize = image.len();
    if len < 2 {
        Err(LoadError::MissingOrigin)
    } else if len % 2 == 1 {
        Err(LoadError::TruncatedWord)
    } else if len / 2 - 1 > MEMORY_MAX {
        Err(LoadError::TooLarge)
    } else {
        Ok(len / 2 - 1)
    }
}

} // verus!
