//! Decision logic of a second-stage bootloader: the flash layout, the image
//! validator, the update transfer session, the boot-menu wait and the launch
//! check. Every function here works on plain values; the board code performs
//! the actions these functions ask for and reports back what happened.

pub mod boot;
pub mod checksum;
pub mod fault;
pub mod flash;
pub mod launch;
pub mod layout;
pub mod metadata;
pub mod session;
pub mod validator;
pub mod word;
