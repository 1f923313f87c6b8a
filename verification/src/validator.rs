//! The image validator: decides from the flash contents alone whether the
//! installed application may be trusted.

use vstd::prelude::*;
use crate::checksum::{
    crc32_iso_hdlc, one_changed_byte_breaks_range_checksum, range_checksums_to, verify_flash_crc,
};
use crate::layout::{in_range, sp_in_ram, stack_pointer_in_ram};
use crate::metadata::{has_magic, magic_tag, parse_record, record_of, record_round_trip, Metadata};
use crate::word::{read_word, word_at};

verus! {

/// The metadata page of the candidate at `base`, where the flash image holds one whole.
pub open spec fn page_at(flash: Seq<u8>, base: int) -> Seq<u8> {
    flash.subrange(base, base + 256)
}

/// The bytes of the application region that a record of `length` bytes covers.
pub open spec fn payload_at(flash: Seq<u8>, base: int, length: int) -> Seq<u8> {
    flash.subrange(base + 256, base + 256 + length)
}

/// What a candidate at `base` needs to be healthy: the metadata page and the
/// stack-pointer word behind it lie inside the image, the page holds a
/// record, the stack pointer lies in RAM, and exactly the recorded number of
/// bytes behind the page lie inside the image and checksum to the recorded value.
pub open spec fn healthy(flash: Seq<u8>, base: int) -> bool {
    &&& in_range(flash.len() as int, base, 260)
    &&& match parse_record(page_at(flash, base)) {
        Some(m) => {
            &&& sp_in_ram(word_at(flash, base + 256))
            &&& range_checksums_to(flash, base + 256, m.length as int, m.checksum)
        },
        None => false,
    }
}

/// Decides whether the candidate whose metadata page starts at flash offset
/// `base` is healthy. The flash image is only read.
pub fn is_app_healthy(flash: &[u8], base: u32) -> (r: bool)
    ensures
        r == healthy(flash@, base as int),
{
    if flash.len() < 260 || base as usize > flash.len() - 260 {
        return false;
    }
    let at: usize = base as usize;
    let page: &[u8] = vstd::slice::slice_subrange(flash, at, at + 256);
    let record: Metadata = match Metadata::parse(page) {
        Some(m) => m,
        None => {
            return false;
        },
    };
    let sp: u32 = match read_word(flash, at + 256) {
        Some(w) => w,
        None => {
            return false;
        },
    };
    if !stack_pointer_in_ram(sp) {
        return false;
    }
    verify_flash_crc(flash, at + 256, record.length as usize, record.checksum)
}

/// A candidate whose tag differs from the magic tag in any byte is unhealthy,
/// whatever its other fields and its payload hold.
pub proof fn wrong_magic_is_unhealthy(flash: Seq<u8>, base: int)
    requires
        in_range(flash.len() as int, base, 256) ==> flash.subrange(base, base + 4) != magic_tag(),
    ensures
        !healthy(flash, base),
{
    if in_range(flash.len() as int, base, 260) {
        let page = page_at(flash, base);
        if has_magic(page) {
            assert(flash.subrange(base, base + 4) =~= magic_tag());
        }
    }
}

/// A candidate is unhealthy whenever the checksum of exactly the recorded
/// number of bytes from the start of the application region differs from the
/// recorded checksum.
pub proof fn checksum_mismatch_is_unhealthy(flash: Seq<u8>, base: int)
    requires
        in_range(flash.len() as int, base, 260),
        crc32_iso_hdlc(payload_at(flash, base, word_at(flash, base + 4) as int)) != word_at(
            flash,
            base + 8,
        ),
    ensures
        !healthy(flash, base),
{
    let page = page_at(flash, base);
    assert(word_at(page, 4) == word_at(flash, base + 4));
    assert(word_at(page, 8) == word_at(flash, base + 8));
}

/// A flash image whose metadata page records length `m.length` and checksum
/// `m.checksum`, whose payload of that length lies inside the image and
/// checksums to that value, and whose stack-pointer word lies in RAM, is healthy.
pub proof fn committed_record_is_healthy(flash: Seq<u8>, base: int, m: Metadata)
    requires
        in_range(flash.len() as int, base, 260),
        page_at(flash, base) == record_of(m),
        in_range(flash.len() as int, base + 256, m.length as int),
        crc32_iso_hdlc(payload_at(flash, base, m.length as int)) == m.checksum,
        sp_in_ram(word_at(flash, base + 256)),
    ensures
        healthy(flash, base),
{
    record_round_trip(m);
}

/// Under a committed record, a payload that no longer checksums to the
/// recorded value makes the candidate unhealthy.
pub proof fn altered_payload_is_unhealthy(flash: Seq<u8>, base: int, m: Metadata)
    requires
        in_range(flash.len() as int, base, 260),
        page_at(flash, base) == record_of(m),
        crc32_iso_hdlc(payload_at(flash, base, m.length as int)) != m.checksum,
    ensures
        !healthy(flash, base),
{
    record_round_trip(m);
}

/// Changing one byte of a healthy candidate's payload, and nothing else,
/// makes it unhealthy. A flipped bit changes one byte.
pub proof fn one_changed_payload_byte_is_unhealthy(
    flash: Seq<u8>,
    changed: Seq<u8>,
    base: int,
    k: int,
)
    requires
        healthy(flash, base),
        changed.len() == flash.len(),
        base + 256 <= k < base + 256 + word_at(flash, base + 4),
        changed[k] != flash[k],
        forall|i: int| 0 <= i < flash.len() && i != k ==> changed[i] == flash[i],
    ensures
        !healthy(changed, base),
{
    assert(page_at(changed, base) =~= page_at(flash, base));
    let m = parse_record(page_at(flash, base))->Some_0;
    assert(m.length == word_at(flash, base + 4));
    one_changed_byte_breaks_range_checksum(
        flash,
        changed,
        base + 256,
        m.length as int,
        m.checksum,
        k,
    );
}

/// The verdict depends on the flash contents and the base alone: two images
/// with the same bytes get the same verdict.
pub proof fn verdict_is_stable(first: Seq<u8>, second: Seq<u8>, base: int)
    requires
        first =~= second,
    ensures
        healthy(first, base) == healthy(second, base),
{
}

} // verus!
