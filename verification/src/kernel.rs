//! What the main path of the kernel shows once it has a stack: a banner
//! over the boot picture, then ten numbered lines on a fresh console.

use vstd::prelude::*;
use vstd::string::StringSliceAdditionalSpecFns;
use crate::vga_utils::text_code::{
    centered_start, row_with_run, text_cells, Buffer, ScreenChar,
};
use crate::vga_utils::vga_color_code::ColorCode;
use crate::vga_utils::vga_colors::Color;
use crate::vga_utils::vga_writter::{ConsoleState, Writer};

verus! {

/// The row in which the banner stands.
pub const BANNER_ROW: usize = 5;

/// The number of lines that the main path writes.
pub const TEST_LINES: u8 = 10;

/// The bytes of the banner.
pub open spec fn banner() -> Seq<u8> {
    "KERNEL MAIN".spec_bytes()
}

/// The grid `grid` with the banner, white on magenta, centred in its row.
pub open spec fn with_banner(grid: Seq<Seq<ScreenChar>>) -> Seq<Seq<ScreenChar>> {
    grid.update(
        BANNER_ROW as int,
        row_with_run(
            grid[BANNER_ROW as int],
            centered_start(banner().len() as int),
            text_cells(banner(), ColorCode::spec_new(Color::White, Color::Magenta)),
        ),
    )
}

/// The console after the first `count` test lines. Line `n`, counted from
/// zero, is `n` spaces, `Row `, the character `n` places behind `0`, and
/// `: WOODIX OS TEST LINE`; the console is yellow on blue.
pub open spec fn test_lines(count: nat) -> ConsoleState
    decreases count,
{
    if count == 0 {
        ConsoleState::cleared(ColorCode::spec_new(Color::Yellow, Color::Blue)).clear_screen()
    } else {
        let line = (count - 1) as nat;
        test_lines(line).put_spaces(line).write_string("Row ".spec_bytes()).write_byte(
            (0x30 + line) as u8,
        ).write_string(": WOODIX OS TEST LINE\n".spec_bytes())
    }
}

/// The banner has eleven bytes, one for each of its characters.
pub proof fn lemma_banner()
    ensures
        banner().len() == 11,
        centered_start(banner().len() as int) == 35,
{
    reveal_strlit("KERNEL MAIN");
    vstd::utf8::is_ascii_chars_encode_utf8("KERNEL MAIN"@);
}

/// Puts the banner on the screen, over what is there.
pub fn main_banner(screen: &mut Buffer)
    ensures
        final(screen)@ == with_banner(old(screen)@),
{
    proof {
        lemma_banner();
    }
    screen.write_centered(BANNER_ROW, "KERNEL MAIN", ColorCode::new(Color::White, Color::Magenta));
}

/// A fresh console with the ten test lines on it.
pub fn main_console() -> (writer: Writer)
    ensures
        writer@ == test_lines(TEST_LINES as nat),
{
    let mut writer = Writer::new(ColorCode::new(Color::Yellow, Color::Blue));
    writer.clear_screen();
    for row in 0..TEST_LINES
        invariant
            writer@ == test_lines(row as nat),
    {
        let ghost start = writer@;
        for indent in 0..row
            invariant
                row < TEST_LINES,
                writer@ == start.put_spaces(indent as nat),
        {
            writer.write_byte(0x20);
        }
        writer.write_string("Row ");
        writer.write_byte(0x30 + row);
        writer.write_string(": WOODIX OS TEST LINE\n");
    }
    writer
}

} // verus!
