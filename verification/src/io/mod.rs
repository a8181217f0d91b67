//! Block devices: tapes, disks, the card reader, the card punch and the line
//! printer, each behind a mailbox of pending messages.
//!
//! A message that is sent waits in the mailbox of its device. The device
//! works through its mailbox, oldest message first, when it is waited for:
//! by the next input or output operation on the same device, and by the
//! machine after each instruction. The media are held in memory; to read
//! them from files and to write them back is left to the caller.

pub mod card_punch;
pub mod card_reader;
pub mod disk;
pub mod io_device;
pub mod laws;
pub mod line_printer;
pub mod media;
pub mod tape;
pub mod transfer;

pub use card_punch::CardPunch;
pub use card_reader::CardReader;
pub use disk::DiskUnit;
pub use io_device::{DeviceError, DeviceKind, IoDevice, IoDeviceView, IoMessage};
pub use line_printer::LinePrinter;
pub use tape::TapeUnit;
