//! The last check before control passes to the application.

use vstd::prelude::*;
use crate::layout::{
    entry_address_in_flash, entry_in_flash, in_range, sp_in_ram, stack_pointer_in_ram,
    FLASH_BASE_ADDR,
};
use crate::word::{read_word, word_at};

verus! {

/// The three values that the control transfer needs.
#[derive(Clone, Copy, Debug, PartialEq, Eq, Structural)]
pub struct Handoff {
    /// Value for the vector-base register: the mapped address of the application.
    pub vector_base: u32,
    /// Initial stack pointer of the application.
    pub stack_pointer: u32,
    /// Address of the application's reset entry.
    pub entry: u32,
}

/// What the launch sequencer does with an application.
#[derive(Clone, Copy, Debug, PartialEq, Eq, Structural)]
pub enum Launch {
    /// Both words passed the check: transfer control.
    Transfer(Handoff),
    /// The image is corrupt beyond recovery: halt.
    Halt,
}

/// Whether the application at flash offset `base` may be launched: its first
/// two words lie inside the image, its mapped address fits an address, the
/// first word is a stack pointer in RAM and the second an address inside the
/// mapped flash.
pub open spec fn launchable(flash: Seq<u8>, base: int) -> bool {
    &&& in_range(flash.len() as int, base, 8)
    &&& FLASH_BASE_ADDR + base <= u32::MAX
    &&& sp_in_ram(word_at(flash, base))
    &&& entry_in_flash(word_at(flash, base + 4))
}

/// The decision for the application at flash offset `base`.
pub open spec fn launch_of(flash: Seq<u8>, base: int) -> Launch {
    if launchable(flash, base) {
        Launch::Transfer(
            Handoff {
                vector_base: (FLASH_BASE_ADDR + base) as u32,
                stack_pointer: word_at(flash, base),
                entry: word_at(flash, base + 4),
            },
        )
    } else {
        Launch::Halt
    }
}

/// Checks a stack pointer and an entry address read from an application and
/// decides between the transfer and the halt.
pub fn check_vectors(vector_base: u32, stack_pointer: u32, entry: u32) -> (r: Launch)
    ensures
        r == if sp_in_ram(stack_pointer) && entry_in_flash(entry) {
            Launch::Transfer((Handoff { vector_base, stack_pointer, entry }))
        } else {
            Launch::Halt
        },
{
    if !stack_pointer_in_ram(stack_pointer) || !entry_address_in_flash(entry) {
        Launch::Halt
    } else {
        Launch::Transfer(Handoff { vector_base, stack_pointer, entry })
    }
}

/// Reads the stack pointer and the entry address of the application at flash
/// offset `base` and decides whether control may pass to it.
pub fn plan_launch(flash: &[u8], base: u32) -> (r: Launch)
    ensures
        r == launch_of(flash@, base as int),
{
    if base > u32::MAX - FLASH_BASE_ADDR {
        return Launch::Halt;
    }
    if flash.len() < 8 || base as usize > flash.len() - 8 {
        return Launch::Halt;
    }
    let at: usize = base as usize;
    match (read_word(flash, at), read_word(flash, at + 4)) {
        (Some(sp), Some(entry)) => check_vectors(FLASH_BASE_ADDR + base, sp, entry),
        _ => Launch::Halt,
    }
}

/// An application whose recorded stack pointer lies outside RAM never reaches
/// the control transfer.
pub proof fn stack_pointer_outside_ram_halts(flash: Seq<u8>, base: int)
    requires
        in_range(flash.len() as int, base, 8) ==> !sp_in_ram(word_at(flash, base)),
    ensures
        launch_of(flash, base) == Launch::Halt,
{
}

/// An application whose recorded entry address lies outside the mapped
/// flash, below it or above it, never reaches the control transfer.
pub proof fn entry_outside_flash_halts(flash: Seq<u8>, base: int)
    requires
        in_range(flash.len() as int, base, 8) ==> !entry_in_flash(word_at(flash, base + 4)),
    ensures
        launch_of(flash, base) == Launch::Halt,
{
}

/// Whatever is handed over has passed both range checks.
pub proof fn transfer_is_checked(flash: Seq<u8>, base: int)
    requires
        launch_of(flash, base) is Transfer,
    ensures
        sp_in_ram(launch_of(flash, base)->Transfer_0.stack_pointer),
        entry_in_flash(launch_of(flash, base)->Transfer_0.entry),
        launch_of(flash, base)->Transfer_0.vector_base == FLASH_BASE_ADDR + base,
{
}

} // verus!
