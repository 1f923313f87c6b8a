//! The metadata record that marks an installed application as complete.

use vstd::prelude::*;
use crate::word::{le_bytes, push_word, read_word, word_at, word_round_trip};

verus! {

/// Length and checksum of the installed application, as the metadata page records them.
#[derive(Clone, Copy, Debug, PartialEq, Eq, Structural)]
pub struct Metadata {
    pub length: u32,
    pub checksum: u32,
}

/// The four bytes `APPS` that open a valid record.
pub open spec fn magic_tag() -> Seq<u8> {
    seq![0x41u8, 0x50u8, 0x50u8, 0x53u8]
}

/// Whether `page` opens with the magic tag.
pub open spec fn has_magic(page: Seq<u8>) -> bool {
    page.len() >= 4 && page[0] == 0x41 && page[1] == 0x50 && page[2] == 0x50 && page[3] == 0x53
}

/// The 256 bytes of the page that records `m`: the tag, the length, the
/// checksum, then zeros.
pub open spec fn record_of(m: Metadata) -> Seq<u8> {
    magic_tag() + le_bytes(m.length) + le_bytes(m.checksum) + Seq::new(244, |i: int| 0u8)
}

/// The record that `page` holds, if it opens with the tag and has room for both words.
pub open spec fn parse_record(page: Seq<u8>) -> Option<Metadata> {
    if page.len() >= 12 && has_magic(page) {
        Some(Metadata { length: word_at(page, 4), checksum: word_at(page, 8) })
    } else {
        None
    }
}

/// A page written from a record parses back to that record.
pub proof fn record_round_trip(m: Metadata)
    ensures
        record_of(m).len() == 256,
        has_magic(record_of(m)),
        parse_record(record_of(m)) == Some(m),
{
    word_round_trip(m.length);
    word_round_trip(m.checksum);
    let page = record_of(m);
    assert(page.len() == 256);
    assert(page[0] == 0x41 && page[1] == 0x50 && page[2] == 0x50 && page[3] == 0x53);
    assert(page[4] == le_bytes(m.length)[0] && page[5] == le_bytes(m.length)[1]);
    assert(page[6] == le_bytes(m.length)[2] && page[7] == le_bytes(m.length)[3]);
    assert(page[8] == le_bytes(m.checksum)[0] && page[9] == le_bytes(m.checksum)[1]);
    assert(page[10] == le_bytes(m.checksum)[2] && page[11] == le_bytes(m.checksum)[3]);
}

/// A page whose tag differs in any byte holds no record, whatever follows the tag.
pub proof fn wrong_magic_holds_no_record(page: Seq<u8>)
    requires
        page.len() < 4 || page.subrange(0, 4) != magic_tag(),
    ensures
        parse_record(page) is None,
{
    if page.len() >= 4 && has_magic(page) {
        assert(page.subrange(0, 4) =~= magic_tag());
    }
}

/// Whether a page opens with the magic tag.
pub fn starts_with_magic(page: &[u8]) -> (r: bool)
    ensures
        r == has_magic(page@),
{
    page.len() >= 4 && page[0] == 0x41 && page[1] == 0x50 && page[2] == 0x50 && page[3] == 0x53
}

impl Metadata {
    /// Reads a record from the start of `page`.
    pub fn parse(page: &[u8]) -> (r: Option<Metadata>)
        ensures
            r == parse_record(page@),
    {
        if page.len() < 12 || !starts_with_magic(page) {
            return None;
        }
        let length: Option<u32> = read_word(page, 4);
        let checksum: Option<u32> = read_word(page, 8);
        match (length, checksum) {
            (Some(length), Some(checksum)) => Some(Metadata { length, checksum }),
            _ => None,
        }
    }

    /// The page that records `self`.
    pub fn encode(&self) -> (r: Vec<u8>)
        ensures
            r@ == record_of(*self),
            r@.len() == 256,
    {
        let mut page: Vec<u8> = Vec::new();
        page.push(0x41);
        page.push(0x50);
        page.push(0x50);
        page.push(0x53);
        assert(page@ =~= magic_tag());
        push_word(&mut page, self.length);
        push_word(&mut page, self.checksum);
        let ghost head = page@;
        assert(page@ =~= head + Seq::new(0, |i: int| 0u8));
        let mut n: usize = 0;
        while n < 244
            invariant
                n <= 244,
                head == magic_tag() + le_bytes(self.length) + le_bytes(self.checksum),
                page@ == head + Seq::new(n as nat, |i: int| 0u8),
            decreases 244 - n,
        {
            page.push(0);
            n = n + 1;
            assert(page@ =~= head + Seq::new(n as nat, |i: int| 0u8));
        }
        page
    }
}

} // verus!
