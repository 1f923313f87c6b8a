//! The update transfer as a state machine: the session takes what happened
//! on the serial link or the flash device and answers with what to do next.

use vstd::prelude::*;
use crate::checksum::{checksum, crc32_iso_hdlc};
use crate::fault::Fault;
use crate::layout::{
    erase_extent, erase_extent_of, erase_fits, erase_range_for, in_range, EraseRange, APP_OFFSET,
    APP_START_OFFSET, CHUNK_SIZE, SYNC_BYTE,
};
use crate::metadata::Metadata;
use crate::word::{word_at, word_of};

verus! {

/// Where a transfer stands.
#[derive(Clone, Copy, Debug, PartialEq, Eq, Structural)]
pub enum Phase {
    /// Discarding bytes until the sync byte arrives.
    AwaitSync,
    /// Waiting for the eight header bytes.
    AwaitHeader,
    /// The metadata page and the application region are being erased.
    Erasing,
    /// Payload chunks are being received and programmed.
    Receiving,
    /// The written payload is being checksummed.
    Verifying,
    /// The metadata record is being programmed.
    Committing,
    /// The record is written; the device resets.
    Done,
    /// The transfer was given up for the fault named.
    Aborted(Fault),
}

/// What the board reports to the session.
#[derive(Clone, Copy, Debug, PartialEq, Eq)]
pub enum Event {
    /// One byte was read from the serial link.
    Byte(u8),
    /// The eight header bytes were read from the serial link.
    Header([u8; 8]),
    /// The chunk asked for was read into the buffer.
    ChunkRead,
    /// A read from the serial link failed.
    TransportFailed,
    /// The flash operation asked for succeeded.
    FlashDone,
    /// The flash operation asked for failed.
    FlashFailed,
    /// The checksum of the flash range asked for.
    Checksum(u32),
}

/// What the session asks the board to do.
#[derive(Clone, Copy, Debug, PartialEq, Eq)]
pub enum Action {
    /// Read one byte from the serial link.
    ReadByte,
    /// Read exactly eight bytes from the serial link.
    ReadHeader,
    /// Erase the flash range.
    Erase(EraseRange),
    /// Read exactly `len` bytes from the serial link into the buffer.
    ReadChunk { len: u32 },
    /// Program the first `len` bytes of the buffer at flash offset `offset`.
    ProgramChunk { offset: u32, len: u32 },
    /// Compute the checksum of the `len` bytes at flash offset `offset`.
    ChecksumRange { offset: u32, len: u32 },
    /// Program the encoded page of `record` at flash offset `offset`, in one operation.
    ProgramMetadata { offset: u32, record: Metadata },
    /// Reset the device.
    Reset,
    /// Report the fault and go on to launch whatever is installed.
    Abandon(Fault),
}

/// The answer to an event: whether to send one acknowledgement byte first,
/// and what to do then.
#[derive(Clone, Copy, Debug, PartialEq, Eq)]
pub struct Step {
    pub ack: bool,
    pub action: Action,
}

/// One update transfer.
#[derive(Clone, Copy, Debug, PartialEq, Eq)]
pub struct Session {
    pub phase: Phase,
    /// Payload length that the header announced.
    pub expected_length: u32,
    /// Payload checksum that the header announced.
    pub expected_checksum: u32,
    /// Payload bytes programmed so far.
    pub bytes_received: u32,
    /// Whether a chunk sits in the buffer, read but not yet programmed.
    pub chunk_pending: bool,
}

/// The length field of a header.
pub open spec fn header_length(header: [u8; 8]) -> u32 {
    word_at(header@, 0)
}

/// The checksum field of a header.
pub open spec fn header_checksum(header: [u8; 8]) -> u32 {
    word_at(header@, 4)
}

/// The number of chunks that `remaining` payload bytes take.
pub open spec fn chunks_for(remaining: int) -> int {
    (remaining + 4095) / 4096
}

impl Session {
    /// The state in which every transfer starts.
    pub open spec fn initial() -> Session {
        Session {
            phase: Phase::AwaitSync,
            expected_length: 0,
            expected_checksum: 0,
            bytes_received: 0,
            chunk_pending: false,
        }
    }

    /// The states that a transfer can reach.
    pub open spec fn wf(self) -> bool {
        match self.phase {
            Phase::AwaitSync | Phase::AwaitHeader => {
                self.bytes_received == 0 && !self.chunk_pending
            },
            Phase::Erasing => {
                erase_fits(self.expected_length) && self.bytes_received == 0
                    && !self.chunk_pending
            },
            Phase::Receiving => {
                erase_fits(self.expected_length) && self.bytes_received < self.expected_length
                    && self.bytes_received % 4096 == 0
            },
            Phase::Verifying | Phase::Committing | Phase::Done => {
                erase_fits(self.expected_length) && self.bytes_received == self.expected_length
                    && !self.chunk_pending
            },
            Phase::Aborted(_) => self.bytes_received <= self.expected_length,
        }
    }

    /// Payload bytes still to be programmed.
    pub open spec fn remaining(self) -> int {
        self.expected_length - self.bytes_received
    }

    /// Size of the chunk that is received next: what remains, at most one chunk size.
    pub open spec fn chunk_len(self) -> int {
        if self.remaining() < 4096 {
            self.remaining()
        } else {
            4096
        }
    }

    /// The session with its phase replaced.
    pub open spec fn at(self, phase: Phase) -> Session {
        Session { phase, ..self }
    }

    /// The phase that follows an acknowledged erase or chunk: more chunks
    /// while payload remains, the verification once all of it is written.
    pub open spec fn resume(self, received: u32) -> Session {
        Session {
            phase: if received == self.expected_length {
                Phase::Verifying
            } else {
                Phase::Receiving
            },
            bytes_received: received,
            chunk_pending: false,
            ..self
        }
    }

    /// The session after `event`. An event that the phase does not wait for
    /// changes nothing.
    pub open spec fn next(self, event: Event) -> Session {
        match (self.phase, event) {
            (Phase::AwaitSync, Event::Byte(b)) => if b == SYNC_BYTE {
                self.at(Phase::AwaitHeader)
            } else {
                self
            },
            (Phase::AwaitHeader, Event::Header(h)) => Session {
                phase: if erase_fits(header_length(h)) {
                    Phase::Erasing
                } else {
                    Phase::Aborted(Fault::FlashFault)
                },
                expected_length: header_length(h),
                expected_checksum: header_checksum(h),
                bytes_received: 0,
                chunk_pending: false,
            },
            (Phase::AwaitHeader, Event::TransportFailed) => self.at(
                Phase::Aborted(Fault::TransportFault),
            ),
            (Phase::Erasing, Event::FlashDone) => self.resume(0),
            (Phase::Erasing, Event::FlashFailed) => self.at(Phase::Aborted(Fault::FlashFault)),
            (Phase::Receiving, Event::ChunkRead) => if self.chunk_pending {
                self
            } else {
                Session { chunk_pending: true, ..self }
            },
            (Phase::Receiving, Event::TransportFailed) => if self.chunk_pending {
                self
            } else {
                self.at(Phase::Aborted(Fault::TransportFault))
            },
            (Phase::Receiving, Event::FlashDone) => if self.chunk_pending {
                self.resume((self.bytes_received + self.chunk_len()) as u32)
            } else {
                self
            },
            (Phase::Receiving, Event::FlashFailed) => if self.chunk_pending {
                self.at(Phase::Aborted(Fault::FlashFault))
            } else {
                self
            },
            (Phase::Verifying, Event::Checksum(c)) => if c == self.expected_checksum {
                self.at(Phase::Committing)
            } else {
                self.at(Phase::Aborted(Fault::ImageInvalid))
            },
            (Phase::Verifying, Event::FlashFailed) => self.at(Phase::Aborted(Fault::FlashFault)),
            (Phase::Committing, Event::FlashDone) => self.at(Phase::Done),
            (Phase::Committing, Event::FlashFailed) => self.at(Phase::Aborted(Fault::FlashFault)),
            _ => self,
        }
    }

    /// Whether `event` is acknowledged: a completed erase, and each chunk
    /// once it is programmed. Nothing else is.
    pub open spec fn acknowledges(self, event: Event) -> bool {
        event is FlashDone && (self.phase is Erasing || (self.phase is Receiving
            && self.chunk_pending))
    }

    /// What the session waits for in its present state.
    pub open spec fn awaited(self) -> Action {
        match self.phase {
            Phase::AwaitSync => Action::ReadByte,
            Phase::AwaitHeader => Action::ReadHeader,
            Phase::Erasing => Action::Erase(
                EraseRange {
                    start: APP_OFFSET,
                    end: (APP_OFFSET + erase_extent(self.expected_length)) as u32,
                },
            ),
            Phase::Receiving => if self.chunk_pending {
                Action::ProgramChunk {
                    offset: (APP_START_OFFSET + self.bytes_received) as u32,
                    len: self.chunk_len() as u32,
                }
            } else {
                Action::ReadChunk { len: self.chunk_len() as u32 }
            },
            Phase::Verifying => Action::ChecksumRange {
                offset: APP_START_OFFSET,
                len: self.expected_length,
            },
            Phase::Committing => Action::ProgramMetadata {
                offset: APP_OFFSET,
                record: Metadata {
                    length: self.expected_length,
                    checksum: self.expected_checksum,
                },
            },
            Phase::Done => Action::Reset,
            Phase::Aborted(fault) => Action::Abandon(fault),
        }
    }

    /// The event that reading back `flash` gives in the verification: the
    /// checksum of exactly the announced number of bytes from the start of
    /// the application region, or a flash failure where they leave the image.
    pub open spec fn readback(self, flash: Seq<u8>) -> Event {
        if in_range(flash.len() as int, APP_START_OFFSET as int, self.expected_length as int) {
            Event::Checksum(
                crc32_iso_hdlc(
                    flash.subrange(
                        APP_START_OFFSET as int,
                        APP_START_OFFSET + self.expected_length,
                    ),
                ),
            )
        } else {
            Event::FlashFailed
        }
    }

    /// A fresh session, waiting for the sync byte.
    pub fn new() -> (r: Session)
        ensures
            r == Session::initial(),
            r.wf(),
    {
        Session {
            phase: Phase::AwaitSync,
            expected_length: 0,
            expected_checksum: 0,
            bytes_received: 0,
            chunk_pending: false,
        }
    }

    /// Whether the session is in a state that a transfer can reach.
    pub fn is_well_formed(&self) -> (r: bool)
        ensures
            r == self.wf(),
    {
        let fits: bool = erase_range_for(self.expected_length).is_some();
        match self.phase {
            Phase::AwaitSync | Phase::AwaitHeader => {
                self.bytes_received == 0 && !self.chunk_pending
            },
            Phase::Erasing => fits && self.bytes_received == 0 && !self.chunk_pending,
            Phase::Receiving => {
                fits && self.bytes_received < self.expected_length && self.bytes_received
                    % 4096 == 0
            },
            Phase::Verifying | Phase::Committing | Phase::Done => {
                fits && self.bytes_received == self.expected_length && !self.chunk_pending
            },
            Phase::Aborted(_) => self.bytes_received <= self.expected_length,
        }
    }

    /// The action that the present state waits for.
    pub fn pending(&self) -> (r: Action)
        requires
            self.wf(),
        ensures
            r == self.awaited(),
    {
        match self.phase {
            Phase::AwaitSync => Action::ReadByte,
            Phase::AwaitHeader => Action::ReadHeader,
            Phase::Erasing => Action::Erase(
                EraseRange {
                    start: APP_OFFSET,
                    end: APP_OFFSET + erase_extent_of(self.expected_length) as u32,
                },
            ),
            Phase::Receiving => {
                let left: u32 = self.expected_length - self.bytes_received;
                let len: u32 = if left < CHUNK_SIZE {
                    left
                } else {
                    CHUNK_SIZE
                };
                if self.chunk_pending {
                    Action::ProgramChunk { offset: APP_START_OFFSET + self.bytes_received, len }
                } else {
                    Action::ReadChunk { len }
                }
            },
            Phase::Verifying => Action::ChecksumRange {
                offset: APP_START_OFFSET,
                len: self.expected_length,
            },
            Phase::Committing => Action::ProgramMetadata {
                offset: APP_OFFSET,
                record: Metadata {
                    length: self.expected_length,
                    checksum: self.expected_checksum,
                },
            },
            Phase::Done => Action::Reset,
            Phase::Aborted(fault) => Action::Abandon(fault),
        }
    }

    /// Takes one event and answers with the next step.
    pub fn step(&mut self, event: Event) -> (r: Step)
        requires
            old(self).wf(),
        ensures
            *final(self) == old(self).next(event),
            final(self).wf(),
            r.ack == old(self).acknowledges(event),
            r.action == final(self).awaited(),
    {
        let mut ack: bool = false;
        match (self.phase, event) {
            (Phase::AwaitSync, Event::Byte(b)) => {
                if b == SYNC_BYTE {
                    self.phase = Phase::AwaitHeader;
                }
            },
            (Phase::AwaitHeader, Event::Header(h)) => {
                let length: u32 = word_of(h[0], h[1], h[2], h[3]);
                self.expected_length = length;
                self.expected_checksum = word_of(h[4], h[5], h[6], h[7]);
                self.bytes_received = 0;
                self.chunk_pending = false;
                self.phase = match erase_range_for(length) {
                    Some(_) => Phase::Erasing,
                    None => Phase::Aborted(Fault::FlashFault),
                };
            },
            (Phase::AwaitHeader, Event::TransportFailed) => {
                self.phase = Phase::Aborted(Fault::TransportFault);
            },
            (Phase::Erasing, Event::FlashDone) => {
                ack = true;
                self.chunk_pending = false;
                self.phase = if self.expected_length == 0 {
                    Phase::Verifying
                } else {
                    Phase::Receiving
                };
            },
            (Phase::Erasing, Event::FlashFailed) => {
                self.phase = Phase::Aborted(Fault::FlashFault);
            },
            (Phase::Receiving, Event::ChunkRead) => {
                self.chunk_pending = true;
            },
            (Phase::Receiving, Event::TransportFailed) => {
                if !self.chunk_pending {
                    self.phase = Phase::Aborted(Fault::TransportFault);
                }
            },
            (Phase::Receiving, Event::FlashDone) => {
                if self.chunk_pending {
                    let left: u32 = self.expected_length - self.bytes_received;
                    let len: u32 = if left < CHUNK_SIZE {
                        left
                    } else {
                        CHUNK_SIZE
                    };
                    ack = true;
                    self.bytes_received = self.bytes_received + len;
                    self.chunk_pending = false;
                    if self.bytes_received == self.expected_length {
                        self.phase = Phase::Verifying;
                    }
                }
            },
            (Phase::Receiving, Event::FlashFailed) => {
                if self.chunk_pending {
                    self.phase = Phase::Aborted(Fault::FlashFault);
                }
            },
            (Phase::Verifying, Event::Checksum(c)) => {
                self.phase = if c == self.expected_checksum {
                    Phase::Committing
                } else {
                    Phase::Aborted(Fault::ImageInvalid)
                };
            },
            (Phase::Verifying, Event::FlashFailed) => {
                self.phase = Phase::Aborted(Fault::FlashFault);
            },
            (Phase::Committing, Event::FlashDone) => {
                self.phase = Phase::Done;
            },
            (Phase::Committing, Event::FlashFailed) => {
                self.phase = Phase::Aborted(Fault::FlashFault);
            },
            _ => {},
        }
        Step { ack, action: self.pending() }
    }

    /// Reads the written payload back from `flash`, checksums it and takes
    /// the result as the event of the verification.
    pub fn verify_written(&mut self, flash: &[u8]) -> (r: Step)
        requires
            old(self).wf(),
        ensures
            *final(self) == old(self).next(old(self).readback(flash@)),
            final(self).wf(),
            !r.ack,
            r.action == final(self).awaited(),
    {
        let event: Event = match crate::layout::read(
            flash,
            APP_START_OFFSET as usize,
            self.expected_length as usize,
        ) {
            Some(payload) => Event::Checksum(checksum(payload)),
            None => Event::FlashFailed,
        };
        self.step(event)
    }
}

/// The acknowledgements that a session still owes before its payload is
/// verified: one for the erase, one for each chunk not yet programmed.
pub open spec fn acks_owed(s: Session) -> int {
    match s.phase {
        Phase::AwaitSync | Phase::AwaitHeader | Phase::Aborted(_) => 0,
        Phase::Erasing => 1 + chunks_for(s.expected_length as int),
        Phase::Receiving => chunks_for(s.remaining()),
        Phase::Verifying | Phase::Committing | Phase::Done => 0,
    }
}

/// The session after a sequence of events, taken in order.
pub open spec fn run(s: Session, events: Seq<Event>) -> Session
    decreases events.len(),
{
    if events.len() == 0 {
        s
    } else {
        run(s.next(events[0]), events.drop_first())
    }
}

/// The number of acknowledgements sent while a sequence of events is taken.
pub open spec fn acks_sent(s: Session, events: Seq<Event>) -> int
    decreases events.len(),
{
    if events.len() == 0 {
        0
    } else {
        (if s.acknowledges(events[0]) {
            1int
        } else {
            0int
        }) + acks_sent(s.next(events[0]), events.drop_first())
    }
}

/// Whether the payload has been written in full and the transfer has not
/// been given up.
pub open spec fn payload_complete(s: Session) -> bool {
    s.phase is Verifying || s.phase is Committing || s.phase is Done
}

/// Every event keeps the session within the reachable states; an aborted
/// session stays aborted; and each acknowledgement sent is one fewer owed.
pub proof fn step_keeps_account(s: Session, event: Event)
    requires
        s.wf(),
    ensures
        s.next(event).wf(),
        s.phase is Aborted ==> s.next(event) == s,
        (s.phase is Erasing || s.phase is Receiving) && !(s.next(event).phase is Aborted)
            ==> acks_owed(s.next(event)) + (if s.acknowledges(event) {
            1int
        } else {
            0int
        }) == acks_owed(s),
        payload_complete(s) ==> !s.acknowledges(event) && (payload_complete(s.next(event))
            || s.next(event).phase is Aborted),
        s.phase is Receiving ==> s.next(event).phase is Receiving || s.next(event).phase
            is Verifying || s.next(event).phase is Aborted,
        s.phase is Erasing ==> s.next(event).phase is Erasing || s.next(event).phase
            is Receiving || s.next(event).phase is Verifying || s.next(event).phase is Aborted,
{
}

/// A transfer that is erasing or receiving and goes on to have its payload
/// written in full sends, on the way, exactly the acknowledgements it owed:
/// from the erase on, one for the erase and one for each chunk of at most
/// 4096 bytes.
pub proof fn complete_transfer_acknowledges_each_chunk_once(s: Session, events: Seq<Event>)
    requires
        s.wf(),
        s.phase is Erasing || s.phase is Receiving || payload_complete(s),
        payload_complete(run(s, events)),
    ensures
        acks_sent(s, events) == acks_owed(s),
        s.phase is Erasing ==> acks_sent(s, events) == 1 + (s.expected_length + 4095) / 4096,
    decreases events.len(),
{
    if events.len() > 0 {
        let t = s.next(events[0]);
        step_keeps_account(s, events[0]);
        if t.phase is Aborted {
            aborted_stays_aborted(t, events.drop_first());
        } else {
            complete_transfer_acknowledges_each_chunk_once(t, events.drop_first());
        }
    }
}

/// Once a transfer is given up, no event revives it and nothing more is acknowledged.
pub proof fn aborted_stays_aborted(s: Session, events: Seq<Event>)
    requires
        s.phase is Aborted,
    ensures
        run(s, events) == s,
        acks_sent(s, events) == 0,
    decreases events.len(),
{
    if events.len() > 0 {
        aborted_stays_aborted(s, events.drop_first());
    }
}

/// A chunk is programmed right behind the payload written so far, inside
/// the range that was erased and never over the metadata page.
pub proof fn chunk_stays_in_application_region(s: Session)
    requires
        s.wf(),
        s.phase is Receiving,
        s.chunk_pending,
    ensures
        s.awaited() == (Action::ProgramChunk {
            offset: (APP_START_OFFSET + s.bytes_received) as u32,
            len: s.chunk_len() as u32,
        }),
        0 < s.chunk_len() <= 4096,
        APP_START_OFFSET + s.bytes_received + s.chunk_len() <= APP_OFFSET + erase_extent(
            s.expected_length,
        ),
        APP_START_OFFSET + s.bytes_received + s.chunk_len() <= APP_START_OFFSET
            + s.expected_length,
{
}

/// No event but a completed flash operation is ever acknowledged, and a
/// failed read of a chunk ends the transfer without a record.
pub proof fn failed_chunk_is_not_acknowledged(s: Session)
    requires
        s.wf(),
        s.phase is Receiving,
        !s.chunk_pending,
    ensures
        !s.acknowledges(Event::TransportFailed),
        s.next(Event::TransportFailed).phase == Phase::Aborted(Fault::TransportFault),
        s.next(Event::TransportFailed).awaited() == Action::Abandon(Fault::TransportFault),
{
}

/// The record is programmed only from the verification, and only where the
/// checksum of the written payload is the announced one.
pub proof fn commit_needs_matching_checksum(s: Session, event: Event)
    requires
        s.wf(),
        !(s.phase is Committing),
    ensures
        s.next(event).phase is Committing <==> s.phase is Verifying && event == Event::Checksum(
            s.expected_checksum,
        ),
{
}

} // verus!
