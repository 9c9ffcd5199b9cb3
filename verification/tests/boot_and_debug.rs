use woodix::boot::{splash_screen, stack_top, STACK_ALIGNMENT, STACK_SIZE};
use woodix::debug_port::{debug_write_byte, debug_write_hex, debug_write_str, mark_kernel_stage};
use woodix::fatal::{fatal_console, fatal_report};
use woodix::kernel::{main_banner, main_console};
use woodix::multiboot::{
    checksum_for, MultibootHeader, MULTIBOOT2_ARCHITECTURE, MULTIBOOT2_CHECKSUM,
    MULTIBOOT2_HEADER, MULTIBOOT2_HEADER_LENGTH, MULTIBOOT2_HEADER_WORDS, MULTIBOOT2_MAGIC,
};
use woodix::vga_utils::text_code::{Buffer, VGA_BUFFER_HEIGHT, VGA_BUFFER_WIDTH};
use woodix::vga_utils::vga_color_code::ColorCode;
use woodix::vga_utils::vga_writter::Writer;

fn line(writer: &Writer, row: usize, len: usize) -> String {
    (0..len).map(|c| writer.buffer().read(row, c).ascii_character as char).collect()
}

fn word(buffer: &Buffer, row: usize, col: usize) -> u16 {
    buffer.read(row, col).to_word()
}

#[test]
fn debug_write_byte_appends_one_byte() {
    let mut port = vec![1u8, 2];
    debug_write_byte(&mut port, 0xE9);
    assert_eq!(port, vec![1, 2, 0xE9]);
}

#[test]
fn debug_write_str_sends_bytes_untranslated() {
    let mut port = Vec::new();
    debug_write_str(&mut port, "a\n\r\té");
    assert_eq!(port, vec![b'a', b'\n', b'\r', b'\t', 0xC3, 0xA9]);
    debug_write_str(&mut port, "");
    assert_eq!(port.len(), 6);
}

#[test]
fn debug_write_hex_sends_sixteen_upper_case_digits() {
    let mut port = Vec::new();
    debug_write_hex(&mut port, 0x0123_4567_89AB_CDEF);
    assert_eq!(port, b"0x0123456789ABCDEF".to_vec());
    let mut port = Vec::new();
    debug_write_hex(&mut port, 0);
    assert_eq!(port, b"0x0000000000000000".to_vec());
    let mut port = Vec::new();
    debug_write_hex(&mut port, u64::MAX);
    assert_eq!(port, b"0xFFFFFFFFFFFFFFFF".to_vec());
    let mut port = vec![b'>'];
    debug_write_hex(&mut port, 0xB8000);
    assert_eq!(port, b">0x00000000000B8000".to_vec());
}

#[test]
fn mark_kernel_stage_frames_the_message() {
    let mut port = Vec::new();
    mark_kernel_stage(&mut port, 3, "paging on");
    assert_eq!(port, b"\n[KERNEL-STAGE-3] paging on\n".to_vec());
    let mut port = Vec::new();
    mark_kernel_stage(&mut port, 0, "");
    assert_eq!(port, b"\n[KERNEL-STAGE-0] \n".to_vec());
    let mut port = Vec::new();
    mark_kernel_stage(&mut port, 10, "x");
    assert_eq!(port, b"\n[KERNEL-STAGE-:] x\n".to_vec());
}

#[test]
fn header_checksum_brings_the_sum_to_zero() {
    assert_eq!(MULTIBOOT2_MAGIC, 0xE85250D6);
    assert_eq!(MULTIBOOT2_ARCHITECTURE, 0);
    assert_eq!(MULTIBOOT2_HEADER_LENGTH, 92);
    assert_eq!(MULTIBOOT2_CHECKSUM, 0x17ADAECE);
    let sum = MULTIBOOT2_MAGIC
        .wrapping_add(MULTIBOOT2_ARCHITECTURE)
        .wrapping_add(MULTIBOOT2_HEADER_LENGTH)
        .wrapping_add(MULTIBOOT2_CHECKSUM);
    assert_eq!(sum, 0);
    assert_eq!(checksum_for(0xE85250D6, 0, 92), 0x17ADAECE);
    assert_eq!(checksum_for(0, 0, 0), 0);
    assert_eq!(checksum_for(1, 0, 0), 0xFFFF_FFFF);
    assert_eq!(checksum_for(0xFFFF_FFFF, 0xFFFF_FFFF, 2), 0);
    assert!(MultibootHeader::image().is_valid());
    assert!(MultibootHeader::new(0xE85250D6, 0, 92).is_valid());
    assert_eq!(MultibootHeader::new(0xE85250D6, 0, 92), MultibootHeader::image());
}

#[test]
fn header_with_one_changed_word_is_invalid() {
    let good = MultibootHeader::image();
    for delta in [1u32, 2, 0x80, 0x8000_0000, 0xFFFF_FFFF] {
        assert!(!MultibootHeader { magic: good.magic.wrapping_add(delta), ..good }.is_valid());
        assert!(!MultibootHeader { architecture: good.architecture.wrapping_add(delta), ..good }
            .is_valid());
        assert!(!MultibootHeader { header_length: good.header_length.wrapping_add(delta), ..good }
            .is_valid());
        assert!(!MultibootHeader { checksum: good.checksum.wrapping_add(delta), ..good }.is_valid());
    }
}

#[test]
fn header_image_has_its_words_in_place() {
    assert_eq!(MULTIBOOT2_HEADER.len(), MULTIBOOT2_HEADER_WORDS);
    assert_eq!(MULTIBOOT2_HEADER_LENGTH as usize, 4 * MULTIBOOT2_HEADER.len());
    assert_eq!(
        MULTIBOOT2_HEADER,
        [
            0xE85250D6, 0, 92, 0x17ADAECE, 5, 0, 20, 80, 25, 0, 6, 0, 8, 1, 0, 16, 1, 3, 6, 10, 0,
            0, 8
        ]
    );
}

#[test]
fn stack_top_is_base_plus_sixteen_kib() {
    assert_eq!(STACK_SIZE, 16384);
    assert_eq!(STACK_ALIGNMENT, 16);
    assert_eq!(stack_top(0x10_0000), 0x10_4000);
    assert_eq!(stack_top(0), 16384);
    assert_eq!(stack_top(usize::MAX - STACK_SIZE), usize::MAX);
    assert_eq!(stack_top(0x7FF0) % 16, 0);
}

#[test]
fn splash_screen_has_border_message_and_blanks() {
    let screen = splash_screen();
    for c in 0..VGA_BUFFER_WIDTH {
        assert_eq!(word(&screen, 0, c), 0x4F2A);
        assert_eq!(word(&screen, 24, c), 0x4F2A);
    }
    for r in 0..VGA_BUFFER_HEIGHT {
        assert_eq!(word(&screen, r, 0), 0x4F2A);
        assert_eq!(word(&screen, r, 79), 0x4F2A);
    }
    let message = b"[WOODIX OS BOOTING]";
    for (i, &byte) in message.iter().enumerate() {
        assert_eq!(word(&screen, 12, 31 + i), 0x2F00 | byte as u16);
    }
    assert_eq!(word(&screen, 12, 30), 0x0720);
    assert_eq!(word(&screen, 12, 50), 0x0720);
    assert_eq!(word(&screen, 1, 1), 0x0720);
    assert_eq!(word(&screen, 23, 78), 0x0720);
    assert_eq!(word(&screen, 11, 40), 0x0720);
}

#[test]
fn main_banner_goes_over_the_splash_screen() {
    let mut screen = splash_screen();
    main_banner(&mut screen);
    let banner = b"KERNEL MAIN";
    for (i, &byte) in banner.iter().enumerate() {
        assert_eq!(word(&screen, 5, 35 + i), 0x5F00 | byte as u16);
    }
    assert_eq!(word(&screen, 5, 34), 0x0720);
    assert_eq!(word(&screen, 5, 46), 0x0720);
    assert_eq!(word(&screen, 5, 0), 0x4F2A);
    assert_eq!(word(&screen, 12, 31), 0x2F00 | b'[' as u16);
}

#[test]
fn main_console_shows_ten_indented_rows() {
    let w = main_console();
    assert_eq!(w.color_code(), ColorCode(0x1E));
    assert_eq!(line(&w, 0, 27), "Row 0: WOODIX OS TEST LINE ");
    assert_eq!(line(&w, 1, 28), " Row 1: WOODIX OS TEST LINE ");
    assert_eq!(line(&w, 9, 36), "         Row 9: WOODIX OS TEST LINE ");
    assert_eq!(line(&w, 10, 10), "          ");
    assert_eq!((w.row_position(), w.column_position()), (10, 0));
    assert_eq!(w.buffer().read(0, 0).to_word(), 0x1E00 | b'R' as u16);
}

#[test]
fn fatal_console_shows_the_banner_in_red_on_black() {
    let w = fatal_console();
    assert_eq!(w.color_code(), ColorCode(0x04));
    assert_eq!(line(&w, 0, 33), "================================ ");
    assert_eq!(line(&w, 1, 32), "        KERNEL PANIC!           ");
    assert_eq!(line(&w, 2, 33), "================================ ");
    assert_eq!(line(&w, 3, 20), " ".repeat(20));
    assert_eq!(
        line(&w, 4, 62),
        "The system has encountered a fatal error and cannot continue. "
    );
    assert_eq!((w.row_position(), w.column_position()), (5, 0));
    for r in 5..VGA_BUFFER_HEIGHT {
        for c in 0..VGA_BUFFER_WIDTH {
            assert_eq!(w.buffer().read(r, c).to_word(), 0x0420);
        }
    }
}

#[test]
fn fatal_report_sends_the_halt_message() {
    let mut port = Vec::new();
    fatal_report(&mut port);
    assert_eq!(port, b"KERNEL PANIC! System halted.\n".to_vec());
}
