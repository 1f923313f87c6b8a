//! The fixed flash map and the arithmetic on it.

use vstd::prelude::*;

verus! {

/// Address at which the flash device is mapped into the processor's address space.
pub const FLASH_BASE_ADDR: u32 = 0x1000_0000;

/// Capacity of the flash device in bytes.
pub const FLASH_SIZE: u32 = 0x0020_0000;

/// Flash offset at which the bootloader region ends and the metadata page begins.
pub const APP_OFFSET: u32 = 0x0001_0000;

/// Size of the metadata page in bytes.
pub const METADATA_SIZE: u32 = 256;

/// Flash offset of the first byte of the application region.
pub const APP_START_OFFSET: u32 = 0x0001_0100;

/// Mapped address of the metadata page.
pub const APP_BASE: u32 = 0x1001_0000;

/// Mapped address of the first byte of the application region.
pub const REAL_APP_BASE: u32 = 0x1001_0100;

/// Erase granularity of the flash device in bytes.
pub const ERASE_BLOCK: u32 = 4096;

/// Largest number of payload bytes that are received and programmed in one piece.
pub const CHUNK_SIZE: u32 = 4096;

/// Lowest stack-pointer value that an application may record.
pub const RAM_START: u32 = 0x2000_0000;

/// Highest stack-pointer value that an application may record.
pub const RAM_END: u32 = 0x2008_2000;

/// Byte that opens an update transfer.
pub const SYNC_BYTE: u8 = 0xAA;

/// Byte that acknowledges a completed erase or a persisted chunk.
pub const ACK_BYTE: u8 = 0x06;

/// The smallest multiple of the erase block that is not below `n`.
pub open spec fn round_up_to_block(n: int) -> int {
    ((n + 4095) / 4096) * 4096
}

/// Number of bytes that an update of `length` payload bytes erases: the
/// metadata page and the payload, rounded up to whole erase blocks.
pub open spec fn erase_extent(length: u32) -> int {
    round_up_to_block(length as int + 256)
}

/// Whether the erase for `length` payload bytes stays inside the flash device.
pub open spec fn erase_fits(length: u32) -> bool {
    APP_OFFSET as int + erase_extent(length) <= FLASH_SIZE as int
}

/// Whether `len` bytes starting at `offset` lie inside a flash image of `size` bytes.
pub open spec fn in_range(size: int, offset: int, len: int) -> bool {
    0 <= offset && 0 <= len && offset + len <= size
}

/// Whether `sp` is a stack pointer inside the RAM window (both ends included).
pub open spec fn sp_in_ram(sp: u32) -> bool {
    RAM_START <= sp && sp <= RAM_END
}

/// Whether `entry` is an address inside the mapped flash: at or above its
/// first byte and below the byte behind its last.
pub open spec fn entry_in_flash(entry: u32) -> bool {
    FLASH_BASE_ADDR <= entry && entry < FLASH_BASE_ADDR + FLASH_SIZE
}

/// A half-open range of flash offsets, both ends multiples of the erase block.
#[derive(Clone, Copy, Debug, PartialEq, Eq, Structural)]
pub struct EraseRange {
    pub start: u32,
    pub end: u32,
}

/// The facts that tie the constants of the flash map together.
pub proof fn layout_is_consistent()
    ensures
        APP_OFFSET as int % ERASE_BLOCK as int == 0,
        APP_BASE as int == FLASH_BASE_ADDR + APP_OFFSET,
        APP_START_OFFSET as int == APP_OFFSET + METADATA_SIZE,
        REAL_APP_BASE as int == APP_BASE + METADATA_SIZE,
        (APP_START_OFFSET as int) < FLASH_SIZE as int,
        CHUNK_SIZE as int % METADATA_SIZE as int == 0,
{
}

/// Rounding up yields a multiple of the erase block at or above `n`, less
/// than one block away, and no multiple `m` at or above `n` is smaller.
pub proof fn round_up_is_least_block_multiple(n: int, m: int)
    requires
        n >= 0,
        m % 4096 == 0,
        m >= n,
    ensures
        round_up_to_block(n) % 4096 == 0,
        n <= round_up_to_block(n) < n + 4096,
        m >= round_up_to_block(n),
{
    if m < round_up_to_block(n) {
        assert(m / 4096 < (n + 4095) / 4096);
        assert(m == (m / 4096) * 4096);
    }
}

/// Rounds a byte count up to whole erase blocks.
pub fn round_up_to_erase_block(n: u32) -> (r: u64)
    ensures
        r as int == round_up_to_block(n as int),
        r % 4096 == 0,
        n <= r < n + 4096,
{
    let padded: u64 = n as u64 + 4095;
    (padded / 4096) * 4096
}

/// The number of bytes to erase before `length` payload bytes are written.
pub fn erase_extent_of(length: u32) -> (r: u64)
    ensures
        r as int == erase_extent(length),
        r % 4096 == 0,
        length + 256 <= r < length + 256 + 4096,
{
    let padded: u64 = length as u64 + 256 + 4095;
    (padded / 4096) * 4096
}

/// The flash range to erase before `length` payload bytes are written, or
/// `None` where that range would run past the end of the device.
pub fn erase_range_for(length: u32) -> (r: Option<EraseRange>)
    ensures
        erase_fits(length) ==> r == Some(
            (EraseRange { start: APP_OFFSET, end: (APP_OFFSET + erase_extent(length)) as u32 }),
        ),
        !erase_fits(length) ==> r is None,
{
    let extent: u64 = erase_extent_of(length);
    if extent <= (FLASH_SIZE - APP_OFFSET) as u64 {
        Some(EraseRange { start: APP_OFFSET, end: APP_OFFSET + extent as u32 })
    } else {
        None
    }
}

/// Whether a stack pointer lies inside the RAM window.
pub fn stack_pointer_in_ram(sp: u32) -> (r: bool)
    ensures
        r == sp_in_ram(sp),
{
    RAM_START <= sp && sp <= RAM_END
}

/// Whether an entry address lies inside the mapped flash.
pub fn entry_address_in_flash(entry: u32) -> (r: bool)
    ensures
        r == entry_in_flash(entry),
{
    entry >= FLASH_BASE_ADDR && entry - FLASH_BASE_ADDR < FLASH_SIZE
}

/// A bounds-checked view of `len` bytes of a flash image starting at `offset`.
pub fn read(flash: &[u8], offset: usize, len: usize) -> (r: Option<&[u8]>)
    ensures
        in_range(flash@.len() as int, offset as int, len as int) ==> r is Some && r.unwrap()@
            == flash@.subrange(offset as int, offset + len),
        !in_range(flash@.len() as int, offset as int, len as int) ==> r is None,
{
    if offset <= flash.len() && len <= flash.len() - offset {
        Some(vstd::slice::slice_subrange(flash, offset, offset + len))
    } else {
        None
    }
}

} // verus!
