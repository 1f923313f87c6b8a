//! A flash device held in memory: what erase and program do to its contents.

use vstd::prelude::*;
use crate::checksum::crc32_iso_hdlc;
use crate::fault::Fault;
use crate::layout::{
    erase_extent, erase_fits, in_range, round_up_to_block, round_up_to_erase_block, sp_in_ram,
    APP_OFFSET, ERASE_BLOCK,
};
use crate::metadata::{record_of, Metadata};
use crate::validator::{committed_record_is_healthy, healthy, page_at, payload_at};
use crate::word::word_at;

verus! {

/// The contents after the bytes `[start, end)` are erased: every byte of the
/// range reads `0xFF`, every other byte is as before.
pub open spec fn erased(flash: Seq<u8>, start: int, end: int) -> Seq<u8> {
    Seq::new(
        flash.len(),
        |i: int|
            if start <= i < end {
                0xFFu8
            } else {
                flash[i]
            },
    )
}

/// The contents after `data` is programmed at `offset`.
pub open spec fn programmed(flash: Seq<u8>, offset: int, data: Seq<u8>) -> Seq<u8> {
    Seq::new(
        flash.len(),
        |i: int|
            if offset <= i < offset + data.len() {
                data[i - offset]
            } else {
                flash[i]
            },
    )
}

/// Whether the device accepts an erase of `[start, end)`: the start is block
/// aligned and the range, with its end rounded up to a whole block, is in
/// order and inside the device.
pub open spec fn erasable(size: int, start: int, end: int) -> bool {
    start % 4096 == 0 && start <= end && round_up_to_block(end) <= size
}

/// Erases `[start, end)` with the end rounded up to the next erase-block
/// boundary. A range that the device does not accept is a flash fault and
/// changes nothing.
pub fn erase(flash: &mut Vec<u8>, start: u32, end: u32) -> (r: Result<(), Fault>)
    ensures
        erasable(old(flash)@.len() as int, start as int, end as int) ==> r is Ok && final(flash)@
            == erased(old(flash)@, start as int, round_up_to_block(end as int)),
        !erasable(old(flash)@.len() as int, start as int, end as int) ==> r == Err::<(), Fault>(
            Fault::FlashFault,
        ) && final(flash)@ == old(flash)@,
{
    let stop: u64 = round_up_to_erase_block(end);
    if start % ERASE_BLOCK != 0 || start > end || stop > flash.len() as u64 {
        return Err(Fault::FlashFault);
    }
    let stop: usize = stop as usize;
    let mut i: usize = start as usize;
    assert(flash@ =~= erased(old(flash)@, start as int, start as int));
    while i < stop
        invariant
            start <= i <= stop <= flash@.len(),
            flash@.len() == old(flash)@.len(),
            flash@ == erased(old(flash)@, start as int, i as int),
        decreases stop - i,
    {
        flash.set(i, 0xFF);
        i = i + 1;
        assert(flash@ =~= erased(old(flash)@, start as int, i as int));
    }
    Ok(())
}

/// Programs `data` at `offset`. Data that does not lie inside the device is
/// a flash fault and changes nothing.
pub fn program(flash: &mut Vec<u8>, offset: u32, data: &[u8]) -> (r: Result<(), Fault>)
    ensures
        in_range(old(flash)@.len() as int, offset as int, data@.len() as int) ==> r is Ok
            && final(flash)@ == programmed(old(flash)@, offset as int, data@),
        !in_range(old(flash)@.len() as int, offset as int, data@.len() as int) ==> r == Err::<
            (),
            Fault,
        >(Fault::FlashFault) && final(flash)@ == old(flash)@,
{
    let at: usize = offset as usize;
    if at > flash.len() || data.len() > flash.len() - at {
        return Err(Fault::FlashFault);
    }
    let mut i: usize = 0;
    assert(flash@ =~= programmed(old(flash)@, at as int, data@.subrange(0, 0)));
    while i < data.len()
        invariant
            i <= data@.len(),
            flash@.len() <= usize::MAX,
            at + data@.len() <= flash@.len(),
            flash@.len() == old(flash)@.len(),
            flash@ == programmed(old(flash)@, at as int, data@.subrange(0, i as int)),
        decreases data@.len() - i,
    {
        flash.set(at + i, data[i]);
        i = i + 1;
        assert(flash@ =~= programmed(old(flash)@, at as int, data@.subrange(0, i as int)));
    }
    assert(data@.subrange(0, i as int) =~= data@);
    Ok(())
}

/// The erase that opens an update takes the installed record with it: once
/// the range for any announced length is erased, the candidate is unhealthy,
/// whatever was installed before.
pub proof fn erase_leaves_no_record(flash: Seq<u8>, length: u32)
    requires
        erase_fits(length),
    ensures
        !healthy(
            erased(flash, APP_OFFSET as int, APP_OFFSET + erase_extent(length)),
            APP_OFFSET as int,
        ),
{
    let after = erased(flash, APP_OFFSET as int, APP_OFFSET + erase_extent(length));
    if in_range(after.len() as int, APP_OFFSET as int, 260) {
        assert(page_at(after, APP_OFFSET as int)[0] == after[APP_OFFSET as int]);
        assert(after[APP_OFFSET as int] == 0xFF);
    }
}

/// Programming the record of `length` and `checksum` behind a payload of
/// that length and checksum, whose first word is a stack pointer in RAM,
/// makes the candidate healthy.
pub proof fn commit_makes_healthy(flash: Seq<u8>, base: int, m: Metadata)
    requires
        in_range(flash.len() as int, base, 260),
        in_range(flash.len() as int, base + 256, m.length as int),
        crc32_iso_hdlc(payload_at(flash, base, m.length as int)) == m.checksum,
        sp_in_ram(word_at(flash, base + 256)),
    ensures
        healthy(programmed(flash, base, record_of(m)), base),
{
    let after = programmed(flash, base, record_of(m));
    assert(record_of(m).len() == 256);
    assert(page_at(after, base) =~= record_of(m));
    assert(payload_at(after, base, m.length as int) =~= payload_at(flash, base, m.length as int));
    assert(word_at(after, base + 256) == word_at(flash, base + 256));
    committed_record_is_healthy(after, base, m);
}

} // verus!
