//! The kinds of failure that the bootloader tells apart.

use vstd::prelude::*;

verus! {

/// Why a step of the bootloader did not succeed.
#[derive(Clone, Copy, Debug, PartialEq, Eq, Structural)]
pub enum Fault {
    /// A read or write on the serial link failed.
    TransportFault,
    /// The flash device reported an error on erase, program or read.
    FlashFault,
    /// The image is not bootable: wrong tag, wrong checksum or a bad address.
    ImageInvalid,
    /// The image failed the last check before the control transfer.
    FatalCorruption,
}

impl Fault {
    /// Whether the fault ends in a halt. Every other fault only ends the
    /// step that met it.
    pub open spec fn halts(self) -> bool {
        self == Fault::FatalCorruption
    }

    /// Whether the device halts on this fault.
    pub fn is_fatal(&self) -> (r: bool)
        ensures
            r == self.halts(),
    {
        match self {
            Fault::FatalCorruption => true,
            _ => false,
        }
    }
}

} // verus!
