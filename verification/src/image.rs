//! The program loader.
//!
//! An image is a sequence of bytes that holds big-endian 16-bit words. The
//! first word is the origin, the address at which the program is to lie; the
//! words that follow are the program. The host reads the bytes; this module
//! checks them and copies the program into memory.

use vstd::prelude::*;
use crate::memory::MEMORY_SIZE;

verus! {

/// Why an image cannot be loaded.
#[derive(Clone, Copy, Debug, PartialEq, Eq, Structural)]
pub enum LoadError {
    /// The image is too short to hold an origin.
    MissingOrigin,
    /// The bytes after the origin do not make up whole words.
    OddLength,
    /// The program does not fit between its origin and the end of memory.
    TooLong,
}

/// The 16-bit word with the given high and low byte.
pub open spec fn big_endian(high: u8, low: u8) -> u16 {
    (high * 256 + low) as u16
}

/// The origin of an image: its first word.
pub open spec fn image_origin(image: Seq<u8>) -> u16 {
    big_endian(image[0], image[1])
}

/// The number of program words in an image.
pub open spec fn image_words(image: Seq<u8>) -> int {
    (image.len() - 2) / 2
}

/// The `i`-th program word of an image.
pub open spec fn image_word(image: Seq<u8>, i: int) -> u16 {
    big_endian(image[2 + 2 * i], image[3 + 2 * i])
}

/// What is wrong with an image, if anything is.
pub open spec fn image_fault(image: Seq<u8>) -> Option<LoadError> {
    if image.len() < 2 {
        Some(LoadError::MissingOrigin)
    } else if (image.len() - 2) % 2 != 0 {
        Some(LoadError::OddLength)
    } else if image_origin(image) + image_words(image) > MEMORY_SIZE {
        Some(LoadError::TooLong)
    } else {
        None
    }
}

/// Memory after the program of a sound image has been copied to its origin:
/// the program's words from the origin on, and everywhere else what was there.
pub open spec fn image_loaded(memory: Seq<u16>, image: Seq<u8>) -> Seq<u16> {
    Seq::new(
        MEMORY_SIZE as nat,
        |address: int|
            if image_origin(image) <= address < image_origin(image) + image_words(image) {
                image_word(image, address - image_origin(image))
            } else {
                memory[address]
            },
    )
}

/// Reads the big-endian word whose high byte is at `ind`.
pub fn get16(mem: &[u8], ind: usize) -> (word: u16)
    requires
        ind + 1 < mem@.len(),
    ensures
        word == big_endian(mem@[ind as int], mem@[ind + 1]),
{
    let high = mem[ind] as u16;
    let low = mem[ind + 1] as u16;
    assert(high << 8 == high * 256) by (bit_vector)
        requires
            high < 256,
    ;
    (high << 8) + low
}

/// Copies the program of `image` into `mem` at the image's origin and returns
/// the length of the image in bytes. An image that is too short, holds half a
/// word, or reaches beyond the last address is refused, and `mem` is then
/// left untouched.
pub fn read_image(mem: &mut [u16; 65536], image: &[u8]) -> (loaded: Result<u32, LoadError>)
    ensures
        match image_fault(image@) {
            Some(error) => loaded == Err::<u32, LoadError>(error) && final(mem)@ == old(mem)@,
            None => loaded == Ok::<u32, LoadError>(image@.len() as u32) && final(mem)@
                == image_loaded(old(mem)@, image@),
        },
{
    let length = image.len();
    if length < 2 {
        return Err(LoadError::MissingOrigin);
    }
    if (length - 2) % 2 != 0 {
        return Err(LoadError::OddLength);
    }
    let count = (length - 2) / 2;
    let base = get16(image, 0) as usize;
    if count > MEMORY_SIZE - base {
        return Err(LoadError::TooLong);
    }
    let mut i: usize = 0;
    while i < count
        invariant
            i <= count,
            count == image_words(image@),
            base == image_origin(image@),
            base + count <= MEMORY_SIZE,
            2 + 2 * count == image@.len(),
            forall|address: int|
                0 <= address < MEMORY_SIZE ==> mem@[address] == if base <= address < base + i {
                    image_word(image@, address - base)
                } else {
                    old(mem)@[address]
                },
        decreases count - i,
    {
        mem[base + i] = get16(image, 2 + 2 * i);
        i = i + 1;
    }
    assert(mem@ =~= image_loaded(old(mem)@, image@));
    Ok(length as u32)
}

} // verus!
