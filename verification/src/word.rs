//! Little-endian 32-bit words.

use vstd::prelude::*;
use crate::layout::in_range;

verus! {

/// The value of four bytes read as a little-endian word.
pub open spec fn le_word(b0: u8, b1: u8, b2: u8, b3: u8) -> u32 {
    (b0 as int + b1 as int * 0x100 + b2 as int * 0x1_0000 + b3 as int * 0x100_0000) as u32
}

/// The little-endian word that starts at position `at` of `bytes`.
pub open spec fn word_at(bytes: Seq<u8>, at: int) -> u32 {
    le_word(bytes[at], bytes[at + 1], bytes[at + 2], bytes[at + 3])
}

/// The four bytes that hold `x` in little-endian order.
pub open spec fn le_bytes(x: u32) -> Seq<u8> {
    seq![
        (x as int % 0x100) as u8,
        (x as int / 0x100 % 0x100) as u8,
        (x as int / 0x1_0000 % 0x100) as u8,
        (x as int / 0x100_0000 % 0x100) as u8,
    ]
}

/// Decoding the bytes of a word gives the word back.
pub proof fn word_round_trip(x: u32)
    ensures
        le_bytes(x).len() == 4,
        word_at(le_bytes(x), 0) == x,
{
}

/// Two words with the same four bytes are the same word.
pub proof fn le_bytes_injective(x: u32, y: u32)
    requires
        le_bytes(x) == le_bytes(y),
    ensures
        x == y,
{
    word_round_trip(x);
    word_round_trip(y);
}

/// Assembles a word from its four bytes, lowest first.
pub fn word_of(b0: u8, b1: u8, b2: u8, b3: u8) -> (r: u32)
    ensures
        r == le_word(b0, b1, b2, b3),
{
    b0 as u32 + b1 as u32 * 0x100 + b2 as u32 * 0x1_0000 + b3 as u32 * 0x100_0000
}

/// Reads the little-endian word at `offset` of a flash image, or `None`
/// where the four bytes do not lie inside it.
pub fn read_word(flash: &[u8], offset: usize) -> (r: Option<u32>)
    ensures
        in_range(flash@.len() as int, offset as int, 4) ==> r == Some(
            word_at(flash@, offset as int),
        ),
        !in_range(flash@.len() as int, offset as int, 4) ==> r is None,
{
    if flash.len() >= 4 && offset <= flash.len() - 4 {
        Some(word_of(flash[offset], flash[offset + 1], flash[offset + 2], flash[offset + 3]))
    } else {
        None
    }
}

/// Appends the four little-endian bytes of `x` to `out`.
pub fn push_word(out: &mut Vec<u8>, x: u32)
    ensures
        final(out)@ == old(out)@ + le_bytes(x),
{
    out.push((x % 0x100) as u8);
    out.push((x / 0x100 % 0x100) as u8);
    out.push((x / 0x1_0000 % 0x100) as u8);
    out.push((x / 0x100_0000 % 0x100) as u8);
    proof {
        assert(final(out)@ =~= old(out)@ + le_bytes(x));
    }
}

} // verus!
