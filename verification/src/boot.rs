//! What the entry sequence computes before it hands over to the kernel:
//! the first picture on the screen and the top of the boot stack.

use vstd::prelude::*;
use vstd::string::StringSliceAdditionalSpecFns;
use crate::vga_utils::text_code::{
    centered_start, Buffer, ScreenChar, VGA_BUFFER_HEIGHT, VGA_BUFFER_WIDTH,
};
use crate::vga_utils::vga_color_code::ColorCode;
use crate::vga_utils::vga_colors::Color;

verus! {

/// Size of the boot stack in bytes.
pub const STACK_SIZE: usize = 16 * 1024;

/// Alignment of the boot stack in bytes.
pub const STACK_ALIGNMENT: usize = 16;

/// The row in which the boot message stands.
pub const SPLASH_MESSAGE_ROW: usize = 12;

/// The initial stack pointer for a boot stack that starts at `base`: the
/// address just above the stack's last byte. The stack grows down from
/// there and has the whole region to itself. A stack that starts on an
/// aligned address ends on one.
pub fn stack_top(base: usize) -> (top: usize)
    requires
        base + STACK_SIZE <= usize::MAX,
    ensures
        top == base + STACK_SIZE,
        base % STACK_ALIGNMENT == 0 ==> top % STACK_ALIGNMENT == 0,
{
    base + STACK_SIZE
}

/// The bytes of the boot message.
pub open spec fn splash_message() -> Seq<u8> {
    "[WOODIX OS BOOTING]".spec_bytes()
}

/// The cell at (`row`, `col`) of the boot picture: the boot message, white
/// on green, centred in its row; around the screen a border of asterisks,
/// white on red; light gray blanks on black elsewhere.
pub open spec fn splash_cell(row: int, col: int) -> ScreenChar {
    let start = centered_start(splash_message().len() as int);
    if row == SPLASH_MESSAGE_ROW && start <= col < start + splash_message().len() {
        ScreenChar {
            ascii_character: splash_message()[col - start],
            color_code: ColorCode::spec_new(Color::White, Color::Green),
        }
    } else if row == 0 || row == VGA_BUFFER_HEIGHT - 1 || col == 0 || col == VGA_BUFFER_WIDTH - 1 {
        ScreenChar {
            ascii_character: 0x2A,
            color_code: ColorCode::spec_new(Color::White, Color::Red),
        }
    } else {
        ScreenChar::spec_blank(ColorCode::spec_new(Color::LightGray, Color::Black))
    }
}

/// The boot picture.
pub open spec fn splash_grid() -> Seq<Seq<ScreenChar>> {
    Seq::new(
        VGA_BUFFER_HEIGHT as nat,
        |r: int| Seq::new(VGA_BUFFER_WIDTH as nat, |c: int| splash_cell(r, c)),
    )
}

/// The boot message has nineteen bytes, one for each of its characters.
pub proof fn lemma_splash_message()
    ensures
        splash_message().len() == 19,
        centered_start(splash_message().len() as int) == 31,
{
    reveal_strlit("[WOODIX OS BOOTING]");
    vstd::utf8::is_ascii_chars_encode_utf8("[WOODIX OS BOOTING]"@);
}

/// Draws the boot picture, the first sign of life of the kernel.
pub fn splash_screen() -> (screen: Buffer)
    ensures
        screen@ == splash_grid(),
{
    let blank = ScreenChar::blank(ColorCode::new(Color::LightGray, Color::Black));
    let star = ScreenChar {
        ascii_character: 0x2A,
        color_code: ColorCode::new(Color::White, Color::Red),
    };
    let mut screen = Buffer::filled(blank);
    let bottom: usize = VGA_BUFFER_HEIGHT - 1;
    let right: usize = VGA_BUFFER_WIDTH - 1;
    for col in 0..VGA_BUFFER_WIDTH
        invariant
            bottom == VGA_BUFFER_HEIGHT - 1,
            screen@.len() == VGA_BUFFER_HEIGHT,
            forall|r: int, c: int|
                0 <= r < VGA_BUFFER_HEIGHT && 0 <= c < VGA_BUFFER_WIDTH ==> (#[trigger] screen@[r]).len()
                    == VGA_BUFFER_WIDTH && #[trigger] screen@[r][c] == (if (r == 0 || r == bottom)
                    && c < col {
                    star
                } else {
                    blank
                }),
    {
        screen.write(0, col, star);
        screen.write(bottom, col, star);
    }
    for row in 0..VGA_BUFFER_HEIGHT
        invariant
            bottom == VGA_BUFFER_HEIGHT - 1,
            right == VGA_BUFFER_WIDTH - 1,
            screen@.len() == VGA_BUFFER_HEIGHT,
            forall|r: int, c: int|
                0 <= r < VGA_BUFFER_HEIGHT && 0 <= c < VGA_BUFFER_WIDTH ==> (#[trigger] screen@[r]).len()
                    == VGA_BUFFER_WIDTH && #[trigger] screen@[r][c] == (if r == 0 || r == bottom || ((c
                    == 0 || c == right) && r < row) {
                    star
                } else {
                    blank
                }),
    {
        screen.write(row, 0, star);
        screen.write(row, right, star);
    }
    proof {
        lemma_splash_message();
    }
    screen.write_centered(
        SPLASH_MESSAGE_ROW,
        "[WOODIX OS BOOTING]",
        ColorCode::new(Color::White, Color::Green),
    );
    assert(screen@ =~~= splash_grid());
    screen
}

} // verus!
