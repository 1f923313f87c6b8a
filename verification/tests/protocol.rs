use pico2w_bootloader::boot::{
    boot_entry, continue_wait, is_update_request, on_wait_event, status_level, BootStep,
    WaitEvent, WAIT_WINDOW_US,
};
use pico2w_bootloader::checksum::checksum;
use pico2w_bootloader::fault::Fault;
use pico2w_bootloader::flash::{erase, program};
use pico2w_bootloader::layout::{EraseRange, ACK_BYTE, APP_OFFSET, APP_START_OFFSET, SYNC_BYTE};
use pico2w_bootloader::metadata::Metadata;
use pico2w_bootloader::session::{Action, Event, Phase, Session, Step};
use pico2w_bootloader::validator::is_app_healthy;

fn header(length: u32, crc: u32) -> [u8; 8] {
    let mut h = [0u8; 8];
    h[0..4].copy_from_slice(&length.to_le_bytes());
    h[4..8].copy_from_slice(&crc.to_le_bytes());
    h
}

fn payload(len: usize) -> Vec<u8> {
    let mut bytes: Vec<u8> = Vec::new();
    bytes.extend_from_slice(&0x2000_4000u32.to_le_bytes());
    bytes.extend_from_slice(&0x1001_0101u32.to_le_bytes());
    let mut i: usize = 0;
    while bytes.len() < len {
        bytes.push((i * 13 + 5) as u8);
        i += 1;
    }
    bytes.truncate(len);
    bytes
}

struct Board {
    flash: Vec<u8>,
    acks: usize,
    reset: bool,
}

/// Plays a whole transfer of `data` against a flash image, failing the link
/// after `fail_after` chunks where that is given.
fn transfer(data: &[u8], announced: u32, crc: u32, fail_after: Option<usize>) -> (Session, Board) {
    let mut board = Board { flash: vec![0x5A; 0x20_0000], acks: 0, reset: false };
    let mut session = Session::new();
    let mut step = session.step(Event::Byte(SYNC_BYTE));
    let mut sent: usize = 0;
    let mut chunks: usize = 0;
    let mut buffer: Vec<u8> = Vec::new();
    loop {
        if step.ack {
            board.acks += 1;
        }
        let event = match step.action {
            Action::ReadByte => Event::Byte(SYNC_BYTE),
            Action::ReadHeader => Event::Header(header(announced, crc)),
            Action::Erase(range) => match erase(&mut board.flash, range.start, range.end) {
                Ok(()) => Event::FlashDone,
                Err(_) => Event::FlashFailed,
            },
            Action::ReadChunk { len } => {
                if fail_after == Some(chunks) {
                    Event::TransportFailed
                } else {
                    buffer = data[sent..sent + len as usize].to_vec();
                    sent += len as usize;
                    chunks += 1;
                    Event::ChunkRead
                }
            }
            Action::ProgramChunk { offset, len } => {
                match program(&mut board.flash, offset, &buffer[..len as usize]) {
                    Ok(()) => Event::FlashDone,
                    Err(_) => Event::FlashFailed,
                }
            }
            Action::ChecksumRange { offset, len } => {
                let at = offset as usize;
                Event::Checksum(checksum(&board.flash[at..at + len as usize]))
            }
            Action::ProgramMetadata { offset, record } => {
                match program(&mut board.flash, offset, &record.encode()) {
                    Ok(()) => Event::FlashDone,
                    Err(_) => Event::FlashFailed,
                }
            }
            Action::Reset => {
                board.reset = true;
                return (session, board);
            }
            Action::Abandon(_) => return (session, board),
        };
        step = session.step(event);
    }
}

#[test]
fn erase_rounds_its_end_up_to_a_block() {
    let mut flash: Vec<u8> = vec![0x11; 0x4000];
    assert_eq!(erase(&mut flash, 0x1000, 0x1001), Ok(()));
    assert!(flash[..0x1000].iter().all(|b| *b == 0x11));
    assert!(flash[0x1000..0x2000].iter().all(|b| *b == 0xFF));
    assert!(flash[0x2000..].iter().all(|b| *b == 0x11));
    assert_eq!(erase(&mut flash, 0x2000, 0x4000), Ok(()));
    assert!(flash[0x1000..].iter().all(|b| *b == 0xFF));
    assert_eq!(erase(&mut flash, 0x1000, 0x1000), Ok(()));
    assert!(flash[..0x1000].iter().all(|b| *b == 0x11));
}

#[test]
fn erase_refused_by_the_device_changes_nothing() {
    let mut flash: Vec<u8> = vec![0x11; 0x4000];
    let before = flash.clone();
    assert_eq!(erase(&mut flash, 0x1001, 0x2000), Err(Fault::FlashFault));
    assert_eq!(erase(&mut flash, 0x2000, 0x1000), Err(Fault::FlashFault));
    assert_eq!(erase(&mut flash, 0x3000, 0x4001), Err(Fault::FlashFault));
    assert_eq!(erase(&mut flash, 0, u32::MAX), Err(Fault::FlashFault));
    assert_eq!(flash, before);
}

#[test]
fn program_writes_only_its_range() {
    let mut flash: Vec<u8> = vec![0xFF; 16];
    assert_eq!(program(&mut flash, 3, &[1, 2, 3]), Ok(()));
    assert_eq!(flash[..8], [0xFF, 0xFF, 0xFF, 1, 2, 3, 0xFF, 0xFF]);
    assert_eq!(program(&mut flash, 16, &[]), Ok(()));
    assert_eq!(program(&mut flash, 14, &[7, 8]), Ok(()));
    assert_eq!(flash[12..], [0xFF, 0xFF, 7, 8]);
    let before = flash.clone();
    assert_eq!(program(&mut flash, 15, &[1, 2]), Err(Fault::FlashFault));
    assert_eq!(program(&mut flash, 17, &[]), Err(Fault::FlashFault));
    assert_eq!(flash, before);
}

#[test]
fn erase_for_an_update_removes_the_installed_record() {
    let data = payload(700);
    let (_, mut board) = transfer(&data, 700, checksum(&data), None);
    assert!(is_app_healthy(&board.flash, APP_OFFSET));
    assert_eq!(erase(&mut board.flash, APP_OFFSET, APP_OFFSET + 4096), Ok(()));
    assert!(!is_app_healthy(&board.flash, APP_OFFSET));
    let record = Metadata { length: 700, checksum: checksum(&data) };
    assert_eq!(program(&mut board.flash, APP_START_OFFSET, &data), Ok(()));
    assert!(!is_app_healthy(&board.flash, APP_OFFSET));
    assert_eq!(program(&mut board.flash, APP_OFFSET, &record.encode()), Ok(()));
    assert!(is_app_healthy(&board.flash, APP_OFFSET));
}

#[test]
fn wire_bytes() {
    assert_eq!(SYNC_BYTE, 0xAA);
    assert_eq!(ACK_BYTE, 0x06);
}

#[test]
fn new_session_waits_for_sync() {
    let session = Session::new();
    assert_eq!(session.phase, Phase::AwaitSync);
    assert_eq!(session.bytes_received, 0);
    assert_eq!(session.pending(), Action::ReadByte);
}

#[test]
fn bytes_before_sync_are_discarded() {
    let mut session = Session::new();
    for b in [0x00u8, 0x06, 0x75, 0xAB, 0xA9, 0xFF] {
        let step = session.step(Event::Byte(b));
        assert_eq!(step, Step { ack: false, action: Action::ReadByte });
        assert_eq!(session, Session::new());
    }
    let step = session.step(Event::TransportFailed);
    assert_eq!(step, Step { ack: false, action: Action::ReadByte });
    let step = session.step(Event::Byte(0xAA));
    assert_eq!(step, Step { ack: false, action: Action::ReadHeader });
    assert_eq!(session.phase, Phase::AwaitHeader);
}

#[test]
fn header_read_failure_aborts_before_flash_is_touched() {
    let mut session = Session::new();
    session.step(Event::Byte(0xAA));
    let step = session.step(Event::TransportFailed);
    assert_eq!(step, Step { ack: false, action: Action::Abandon(Fault::TransportFault) });
    assert_eq!(session.phase, Phase::Aborted(Fault::TransportFault));
}

#[test]
fn header_fields_are_little_endian() {
    let mut session = Session::new();
    session.step(Event::Byte(0xAA));
    let step = session.step(Event::Header([0x00, 0x20, 0x00, 0x00, 0x78, 0x56, 0x34, 0x12]));
    assert_eq!(session.expected_length, 8192);
    assert_eq!(session.expected_checksum, 0x1234_5678);
    assert_eq!(session.phase, Phase::Erasing);
    assert_eq!(
        step,
        Step { ack: false, action: Action::Erase(EraseRange { start: 0x1_0000, end: 0x1_3000 }) }
    );
}

#[test]
fn header_that_outgrows_the_flash_aborts() {
    let mut session = Session::new();
    session.step(Event::Byte(0xAA));
    let step = session.step(Event::Header(header(0x20_0000, 0)));
    assert_eq!(step, Step { ack: false, action: Action::Abandon(Fault::FlashFault) });
    let mut session = Session::new();
    session.step(Event::Byte(0xAA));
    let step = session.step(Event::Header(header(u32::MAX, 0)));
    assert_eq!(step, Step { ack: false, action: Action::Abandon(Fault::FlashFault) });
}

#[test]
fn erase_failure_aborts_without_ack() {
    let mut session = Session::new();
    session.step(Event::Byte(0xAA));
    session.step(Event::Header(header(100, 7)));
    let step = session.step(Event::FlashFailed);
    assert_eq!(step, Step { ack: false, action: Action::Abandon(Fault::FlashFault) });
}

#[test]
fn empty_transfer_commits_and_resets() {
    let mut session = Session::new();
    session.step(Event::Byte(0xAA));
    let step = session.step(Event::Header(header(0, checksum(&[]))));
    assert_eq!(
        step,
        Step { ack: false, action: Action::Erase(EraseRange { start: 0x1_0000, end: 0x1_1000 }) }
    );
    let step = session.step(Event::FlashDone);
    assert_eq!(
        step,
        Step { ack: true, action: Action::ChecksumRange { offset: APP_START_OFFSET, len: 0 } }
    );
    assert_eq!(session.phase, Phase::Verifying);
    let flash: Vec<u8> = vec![0xFF; 0x2_0000];
    let step = session.verify_written(&flash);
    assert_eq!(
        step,
        Step {
            ack: false,
            action: Action::ProgramMetadata {
                offset: APP_OFFSET,
                record: Metadata { length: 0, checksum: 0 },
            },
        }
    );
    let step = session.step(Event::FlashDone);
    assert_eq!(step, Step { ack: false, action: Action::Reset });
    assert_eq!(session.phase, Phase::Done);
}

#[test]
fn read_failure_after_first_chunk_aborts() {
    let data = payload(8192);
    let (session, board) = transfer(&data, 8192, checksum(&data), Some(1));
    assert_eq!(session.phase, Phase::Aborted(Fault::TransportFault));
    assert_eq!(session.bytes_received, 4096);
    assert_eq!(board.acks, 2);
    assert!(!board.reset);
    let base = APP_OFFSET as usize;
    assert!(board.flash[base..base + 256].iter().all(|b| *b == 0xFF));
    assert!(!is_app_healthy(&board.flash, APP_OFFSET));
}

#[test]
fn read_failure_sends_no_ack_for_the_missing_chunk() {
    let mut session = Session::new();
    session.step(Event::Byte(0xAA));
    session.step(Event::Header(header(8192, 1)));
    let step = session.step(Event::FlashDone);
    assert_eq!(step, Step { ack: true, action: Action::ReadChunk { len: 4096 } });
    let step = session.step(Event::ChunkRead);
    assert_eq!(
        step,
        Step { ack: false, action: Action::ProgramChunk { offset: 0x1_0100, len: 4096 } }
    );
    let step = session.step(Event::FlashDone);
    assert_eq!(step, Step { ack: true, action: Action::ReadChunk { len: 4096 } });
    let step = session.step(Event::TransportFailed);
    assert_eq!(step, Step { ack: false, action: Action::Abandon(Fault::TransportFault) });
}

#[test]
fn program_failure_aborts_without_ack() {
    let mut session = Session::new();
    session.step(Event::Byte(0xAA));
    session.step(Event::Header(header(5000, 1)));
    session.step(Event::FlashDone);
    session.step(Event::ChunkRead);
    let step = session.step(Event::FlashFailed);
    assert_eq!(step, Step { ack: false, action: Action::Abandon(Fault::FlashFault) });
    assert_eq!(session.bytes_received, 0);
}

#[test]
fn full_transfer_acks_each_chunk_and_commits() {
    for len in [1usize, 4095, 4096, 4097, 8192, 10_000] {
        let data = payload(len);
        let crc = checksum(&data);
        let (session, board) = transfer(&data, len as u32, crc, None);
        assert_eq!(session.phase, Phase::Done);
        assert!(board.reset);
        assert_eq!(board.acks, 1 + (len + 4095) / 4096);
        let base = APP_OFFSET as usize;
        assert_eq!(
            Metadata::parse(&board.flash[base..base + 256]),
            Some(Metadata { length: len as u32, checksum: crc })
        );
        let start = APP_START_OFFSET as usize;
        assert_eq!(&board.flash[start..start + len], &data[..]);
        assert_eq!(is_app_healthy(&board.flash, APP_OFFSET), len >= 4);
    }
}

#[test]
fn last_chunk_is_what_remains() {
    let mut session = Session::new();
    session.step(Event::Byte(0xAA));
    session.step(Event::Header(header(4097, 1)));
    session.step(Event::FlashDone);
    session.step(Event::ChunkRead);
    let step = session.step(Event::FlashDone);
    assert_eq!(step, Step { ack: true, action: Action::ReadChunk { len: 1 } });
    let step = session.step(Event::ChunkRead);
    assert_eq!(
        step,
        Step { ack: false, action: Action::ProgramChunk { offset: 0x1_0100 + 4096, len: 1 } }
    );
    let step = session.step(Event::FlashDone);
    assert_eq!(
        step,
        Step { ack: true, action: Action::ChecksumRange { offset: 0x1_0100, len: 4097 } }
    );
}

#[test]
fn checksum_mismatch_leaves_metadata_absent() {
    let data = payload(5000);
    let (session, board) = transfer(&data, 5000, checksum(&data) ^ 0x8000_0000, None);
    assert_eq!(session.phase, Phase::Aborted(Fault::ImageInvalid));
    assert!(!board.reset);
    assert_eq!(board.acks, 3);
    let base = APP_OFFSET as usize;
    assert!(board.flash[base..base + 256].iter().all(|b| *b == 0xFF));
    assert!(!is_app_healthy(&board.flash, APP_OFFSET));
}

#[test]
fn verification_reads_exactly_the_written_range() {
    let data = payload(300);
    let mut flash: Vec<u8> = vec![0xFF; 0x2_0000];
    let start = APP_START_OFFSET as usize;
    flash[start..start + 300].copy_from_slice(&data);
    let mut session = Session {
        phase: Phase::Verifying,
        expected_length: 300,
        expected_checksum: checksum(&data),
        bytes_received: 300,
        chunk_pending: false,
    };
    let mut other = session;
    let step = session.verify_written(&flash);
    assert_eq!(session.phase, Phase::Committing);
    assert!(!step.ack);
    flash[start + 299] ^= 0x10;
    let step = other.verify_written(&flash);
    assert_eq!(step, Step { ack: false, action: Action::Abandon(Fault::ImageInvalid) });
    let mut short = Session { phase: Phase::Verifying, ..other };
    let step = short.verify_written(&flash[..start + 299]);
    assert_eq!(step, Step { ack: false, action: Action::Abandon(Fault::FlashFault) });
}

#[test]
fn commit_failure_aborts() {
    let mut session = Session::new();
    session.step(Event::Byte(0xAA));
    session.step(Event::Header(header(0, 0)));
    session.step(Event::FlashDone);
    session.step(Event::Checksum(0));
    assert_eq!(session.phase, Phase::Committing);
    let step = session.step(Event::FlashFailed);
    assert_eq!(step, Step { ack: false, action: Action::Abandon(Fault::FlashFault) });
}

#[test]
fn events_out_of_turn_change_nothing() {
    let mut session = Session::new();
    session.step(Event::Byte(0xAA));
    session.step(Event::Header(header(5000, 1)));
    let before = session;
    for event in [Event::Byte(0xAA), Event::ChunkRead, Event::Checksum(1), Event::TransportFailed] {
        let step = session.step(event);
        assert_eq!(session, before);
        assert_eq!(step, Step { ack: false, action: before.pending() });
    }
    let mut done = Session { phase: Phase::Done, expected_length: 0, ..Session::new() };
    assert_eq!(done.step(Event::FlashDone), Step { ack: false, action: Action::Reset });
}

#[test]
fn well_formedness_is_decidable() {
    let mut session = Session::new();
    assert!(session.is_well_formed());
    session.step(Event::Byte(0xAA));
    session.step(Event::Header(header(5000, 1)));
    assert!(session.is_well_formed());
    session.step(Event::FlashDone);
    assert!(session.is_well_formed());
    let odd = Session { bytes_received: 17, ..session };
    assert!(!odd.is_well_formed());
    let too_far = Session { bytes_received: 8192, ..session };
    assert!(!too_far.is_well_formed());
    let too_large = Session { expected_length: u32::MAX, ..session };
    assert!(!too_large.is_well_formed());
}

#[test]
fn only_fatal_corruption_halts() {
    assert!(Fault::FatalCorruption.is_fatal());
    assert!(!Fault::TransportFault.is_fatal());
    assert!(!Fault::FlashFault.is_fatal());
    assert!(!Fault::ImageInvalid.is_fatal());
}

#[test]
fn unhealthy_image_forces_update_at_once() {
    assert_eq!(boot_entry(false), BootStep::Update);
    assert_eq!(boot_entry(true), BootStep::Wait { remaining_us: 3_000_000 });
    assert_eq!(WAIT_WINDOW_US, 3_000_000);
}

#[test]
fn stray_byte_does_not_reopen_the_window() {
    assert_eq!(
        on_wait_event(WaitEvent::Byte(b'x'), 1_000_000),
        BootStep::Wait { remaining_us: 2_000_000 }
    );
    assert_eq!(
        on_wait_event(WaitEvent::Byte(b'x'), 2_999_999),
        BootStep::Wait { remaining_us: 1 }
    );
    assert_eq!(on_wait_event(WaitEvent::Byte(b'x'), 3_000_000), BootStep::Boot);
    assert_eq!(on_wait_event(WaitEvent::Byte(b'\n'), u64::MAX), BootStep::Boot);
    assert_eq!(on_wait_event(WaitEvent::TimerFired, 2_000_000), BootStep::Boot);
}

#[test]
fn update_keys_leave_the_wait() {
    assert_eq!(on_wait_event(WaitEvent::Byte(b'u'), 10), BootStep::Update);
    assert_eq!(on_wait_event(WaitEvent::Byte(b'p'), 2_999_999), BootStep::Update);
    assert!(is_update_request(b'u'));
    assert!(is_update_request(b'p'));
    assert!(!is_update_request(b'U'));
    assert!(!is_update_request(b'x'));
    assert!(!is_update_request(0xAA));
}

#[test]
fn failed_read_during_wait_goes_on_waiting() {
    assert_eq!(
        on_wait_event(WaitEvent::ReadFailed, 500_000),
        BootStep::Wait { remaining_us: 2_500_000 }
    );
    assert_eq!(continue_wait(0), BootStep::Wait { remaining_us: 3_000_000 });
    assert_eq!(continue_wait(3_000_001), BootStep::Boot);
}

#[test]
fn status_is_high_only_while_waiting() {
    assert!(status_level(BootStep::Wait { remaining_us: 5 }));
    assert!(!status_level(BootStep::Update));
    assert!(!status_level(BootStep::Boot));
}
