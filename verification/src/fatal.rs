//! What the kernel shows and sends when it cannot go on.

use vstd::prelude::*;
use vstd::string::StringSliceAdditionalSpecFns;
use crate::debug_port::debug_write_str;
use crate::vga_utils::vga_color_code::ColorCode;
use crate::vga_utils::vga_colors::Color;
use crate::vga_utils::vga_writter::{ConsoleState, Writer};

verus! {

/// The bytes that go to the diagnostic channel when the kernel halts.
pub open spec fn fatal_message() -> Seq<u8> {
    "KERNEL PANIC! System halted.\n".spec_bytes()
}

/// The screen of a halted kernel: a banner between two rules, an empty
/// line and one line of explanation, red on black, on an otherwise empty
/// screen.
pub open spec fn fatal_screen() -> ConsoleState {
    ConsoleState::cleared(ColorCode::spec_new(Color::Red, Color::Black)).clear_screen()
        .write_string("================================\n".spec_bytes()).write_string(
        "        KERNEL PANIC!          \n".spec_bytes(),
    ).write_string("================================\n\n".spec_bytes()).write_string(
        "The system has encountered a fatal error and cannot continue.\n".spec_bytes(),
    )
}

/// Sends the halt message to the diagnostic channel.
pub fn fatal_report(port: &mut Vec<u8>)
    ensures
        final(port)@ == old(port)@ + fatal_message(),
{
    debug_write_str(port, "KERNEL PANIC! System halted.\n");
}

/// A fresh console that shows the halt screen. Nothing of an earlier
/// console is used or kept.
pub fn fatal_console() -> (writer: Writer)
    ensures
        writer@ == fatal_screen(),
        writer@.wf(),
{
    let mut error_writer = Writer::new(ColorCode::new(Color::Red, Color::Black));
    error_writer.clear_screen();
    error_writer.write_string("================================\n");
    error_writer.write_string("        KERNEL PANIC!          \n");
    error_writer.write_string("================================\n\n");
    error_writer.write_string("The system has encountered a fatal error and cannot continue.\n");
    error_writer
}

} // verus!
