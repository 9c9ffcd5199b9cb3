//! Early-boot text console for the Woodix kernel.
//!
//! The crate holds the logic of the earliest layer of the system: the
//! 80x25 text screen and the writer that drives it, the byte stream of the
//! diagnostic port, and the header by which a loader recognises the image.
//! Everything here is a function on plain values; touching the hardware is
//! left to the binary that links this library.

pub mod boot;
pub mod debug_port;
pub mod fatal;
pub mod kernel;
pub mod multiboot;
pub mod vga_utils;
