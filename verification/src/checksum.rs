//! The image checksum: CRC-32/ISO-HDLC, defined bit by bit and computed by
//! the `crc` crate.

use vstd::prelude::*;
use crate::layout::in_range;

verus! {

/// One shift of the checksum register: the register moves one bit to the
/// right, and the reflected polynomial is folded in where the bit that left was set.
pub open spec fn crc_bit(v: u32) -> u32 {
    if v & 1 == 1 {
        (v >> 1) ^ 0xEDB8_8320
    } else {
        v >> 1
    }
}

/// The checksum register after one more byte: the byte is folded into the
/// low end of the register, which is then shifted eight times.
pub open spec fn crc_byte(v: u32, b: u8) -> u32 {
    crc_bit(crc_bit(crc_bit(crc_bit(crc_bit(crc_bit(crc_bit(crc_bit(v ^ (b as u32)))))))))
}

/// The checksum register after all of `bytes`, starting from all ones.
pub open spec fn crc_register(bytes: Seq<u8>) -> u32
    decreases bytes.len(),
{
    if bytes.len() == 0 {
        0xFFFF_FFFF
    } else {
        crc_byte(crc_register(bytes.drop_last()), bytes.last())
    }
}

/// The CRC-32/ISO-HDLC checksum of a byte sequence: the register after all
/// of its bytes, complemented.
pub open spec fn crc32_iso_hdlc(bytes: Seq<u8>) -> u32 {
    crc_register(bytes) ^ 0xFFFF_FFFF
}

/// Calls `crc::Crc::<u32>::checksum` on a `Crc` built by `Crc::<u32>::new` from
/// `crc::CRC_32_ISO_HDLC`. The contract claims that the table-driven
/// computation of that crate gives the checksum as `crc32_iso_hdlc` defines
/// it bit by bit: the crate starts from all ones, looks up for each byte a
/// table entry that is eight shifts with the reflected polynomial, and
/// complements the result.
#[verifier::external_body]
fn crc32_digest(data: &[u8]) -> (r: u32)
    ensures
        r == crc32_iso_hdlc(data@),
{
    crc::Crc::<u32>::new(&crc::CRC_32_ISO_HDLC).checksum(data)
}

/// Appending a byte advances the register by that byte.
pub proof fn register_after_push(bytes: Seq<u8>, b: u8)
    ensures
        crc_register(bytes.push(b)) == crc_byte(crc_register(bytes), b),
{
    assert(bytes.push(b).drop_last() =~= bytes);
}

/// The checksum of the empty input is zero.
pub proof fn checksum_of_nothing()
    ensures
        crc32_iso_hdlc(Seq::<u8>::empty()) == 0,
{
    assert(0xFFFF_FFFFu32 ^ 0xFFFF_FFFF == 0) by (bit_vector);
}

/// The checksum of a single zero byte is `0xD202_EF8D`.
pub proof fn checksum_of_zero_byte()
    ensures
        crc32_iso_hdlc(seq![0u8]) == 0xD202_EF8D,
{
    register_after_push(Seq::<u8>::empty(), 0);
    assert(Seq::<u8>::empty().push(0) =~= seq![0u8]);
    assert(crc_byte(0xFFFF_FFFF, 0) == 0x2DFD_1072) by (bit_vector);
    assert(0x2DFD_1072u32 ^ 0xFFFF_FFFF == 0xD202_EF8D) by (bit_vector);
}

/// The checksum of the nine digits `123456789` is the check value of the
/// algorithm, `0xCBF4_3926`.
pub proof fn checksum_of_check_digits()
    ensures
        crc32_iso_hdlc(seq![0x31u8, 0x32u8, 0x33u8, 0x34u8, 0x35u8, 0x36u8, 0x37u8, 0x38u8, 0x39u8])
            == 0xCBF4_3926,
{
    let s0 = Seq::<u8>::empty();
    let s1 = s0.push(0x31);
    let s2 = s1.push(0x32);
    let s3 = s2.push(0x33);
    let s4 = s3.push(0x34);
    let s5 = s4.push(0x35);
    let s6 = s5.push(0x36);
    let s7 = s6.push(0x37);
    let s8 = s7.push(0x38);
    let s9 = s8.push(0x39);
    register_after_push(s0, 0x31);
    register_after_push(s1, 0x32);
    register_after_push(s2, 0x33);
    register_after_push(s3, 0x34);
    register_after_push(s4, 0x35);
    register_after_push(s5, 0x36);
    register_after_push(s6, 0x37);
    register_after_push(s7, 0x38);
    register_after_push(s8, 0x39);
    assert(crc_byte(0xFFFF_FFFF, 0x31) == 0x7C23_1048) by (bit_vector);
    assert(crc_byte(0x7C23_1048, 0x32) == 0xB0AC_BB32) by (bit_vector);
    assert(crc_byte(0xB0AC_BB32, 0x33) == 0x77B7_9C2D) by (bit_vector);
    assert(crc_byte(0x77B7_9C2D, 0x34) == 0x641C_1F5C) by (bit_vector);
    assert(crc_byte(0x641C_1F5C, 0x35) == 0x340A_C5E3) by (bit_vector);
    assert(crc_byte(0x340A_C5E3, 0x36) == 0xF68D_2C9E) by (bit_vector);
    assert(crc_byte(0xF68D_2C9E, 0x37) == 0xAFFC_9660) by (bit_vector);
    assert(crc_byte(0xAFFC_9660, 0x38) == 0x651F_2550) by (bit_vector);
    assert(crc_byte(0x651F_2550, 0x39) == 0x340B_C6D9) by (bit_vector);
    assert(0x340B_C6D9u32 ^ 0xFFFF_FFFF == 0xCBF4_3926) by (bit_vector);
    assert(s9 =~= seq![0x31u8, 0x32u8, 0x33u8, 0x34u8, 0x35u8, 0x36u8, 0x37u8, 0x38u8, 0x39u8]);
}

/// Two registers that one shift maps to the same value are the same.
pub proof fn crc_bit_is_injective(x: u32, y: u32)
    requires
        crc_bit(x) == crc_bit(y),
    ensures
        x == y,
{
    assert(crc_bit(x) == crc_bit(y) ==> x == y) by (bit_vector);
}

/// The register after a byte tells what went in: where two registers and two
/// bytes give the same next register, equal registers had equal bytes and
/// equal bytes had equal registers.
pub proof fn crc_byte_is_injective(v: u32, b: u8, w: u32, c: u8)
    requires
        crc_byte(v, b) == crc_byte(w, c),
    ensures
        v == w ==> b == c,
        b == c ==> v == w,
{
    let x0 = v ^ (b as u32);
    let y0 = w ^ (c as u32);
    let x1 = crc_bit(x0);
    let y1 = crc_bit(y0);
    let x2 = crc_bit(x1);
    let y2 = crc_bit(y1);
    let x3 = crc_bit(x2);
    let y3 = crc_bit(y2);
    let x4 = crc_bit(x3);
    let y4 = crc_bit(y3);
    let x5 = crc_bit(x4);
    let y5 = crc_bit(y4);
    let x6 = crc_bit(x5);
    let y6 = crc_bit(y5);
    let x7 = crc_bit(x6);
    let y7 = crc_bit(y6);
    crc_bit_is_injective(x7, y7);
    crc_bit_is_injective(x6, y6);
    crc_bit_is_injective(x5, y5);
    crc_bit_is_injective(x4, y4);
    crc_bit_is_injective(x3, y3);
    crc_bit_is_injective(x2, y2);
    crc_bit_is_injective(x1, y1);
    crc_bit_is_injective(x0, y0);
    assert(v ^ (b as u32) == v ^ (c as u32) ==> b == c) by (bit_vector);
    assert(v ^ (b as u32) == w ^ (b as u32) ==> v == w) by (bit_vector);
}

/// Changing one byte of the input, and nothing else, changes the checksum.
/// A flipped bit changes one byte.
pub proof fn one_changed_byte_changes_checksum(first: Seq<u8>, second: Seq<u8>, k: int)
    requires
        first.len() == second.len(),
        0 <= k < first.len(),
        first[k] != second[k],
        forall|i: int| 0 <= i < first.len() && i != k ==> first[i] == second[i],
    ensures
        crc_register(first) != crc_register(second),
        crc32_iso_hdlc(first) != crc32_iso_hdlc(second),
    decreases first.len(),
{
    let head_first = first.drop_last();
    let head_second = second.drop_last();
    if k == first.len() - 1 {
        assert(head_first =~= head_second);
    } else {
        one_changed_byte_changes_checksum(head_first, head_second, k);
    }
    if crc_register(first) == crc_register(second) {
        crc_byte_is_injective(
            crc_register(head_first),
            first.last(),
            crc_register(head_second),
            second.last(),
        );
    }
    let x = crc_register(first);
    let y = crc_register(second);
    assert(x ^ 0xFFFF_FFFF == y ^ 0xFFFF_FFFF ==> x == y) by (bit_vector);
}

/// The checksum depends on the bytes alone: equal sequences have equal checksums.
pub proof fn checksum_is_deterministic(first: Seq<u8>, second: Seq<u8>)
    requires
        first =~= second,
    ensures
        crc32_iso_hdlc(first) == crc32_iso_hdlc(second),
{
}

/// The checksum of `data`.
pub fn checksum(data: &[u8]) -> (r: u32)
    ensures
        r == crc32_iso_hdlc(data@),
{
    crc32_digest(data)
}

/// Whether a computed checksum is the expected one.
pub fn checksum_agrees(calculated: u32, expected: u32) -> (r: bool)
    ensures
        r == (calculated == expected),
{
    calculated == expected
}

/// Whether the `len` bytes at `start` lie inside `flash` and checksum to `expected`.
pub open spec fn range_checksums_to(flash: Seq<u8>, start: int, len: int, expected: u32) -> bool {
    in_range(flash.len() as int, start, len) && crc32_iso_hdlc(flash.subrange(start, start + len))
        == expected
}

/// Where a range checksums to `expected`, the same range of an image that
/// differs in exactly one byte of that range does not.
pub proof fn one_changed_byte_breaks_range_checksum(
    flash: Seq<u8>,
    changed: Seq<u8>,
    start: int,
    len: int,
    expected: u32,
    k: int,
)
    requires
        range_checksums_to(flash, start, len, expected),
        changed.len() == flash.len(),
        start <= k < start + len,
        changed[k] != flash[k],
        forall|i: int| 0 <= i < flash.len() && i != k ==> changed[i] == flash[i],
    ensures
        !range_checksums_to(changed, start, len, expected),
{
    one_changed_byte_changes_checksum(
        flash.subrange(start, start + len),
        changed.subrange(start, start + len),
        k - start,
    );
}

/// Checks the checksum of exactly the bytes `[start, start + len)` of a flash
/// image against `expected`. A range that leaves the image does not match.
pub fn verify_flash_crc(flash: &[u8], start: usize, len: usize, expected: u32) -> (r: bool)
    ensures
        r == range_checksums_to(flash@, start as int, len as int, expected),
{
    match crate::layout::read(flash, start, len) {
        Some(data) => checksum_agrees(checksum(data), expected),
        None => false,
    }
}

} // verus!
