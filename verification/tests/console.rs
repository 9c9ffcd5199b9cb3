use woodix::vga_utils::text_code::{Buffer, ScreenChar, VGA_BUFFER_HEIGHT, VGA_BUFFER_WIDTH};
use woodix::vga_utils::vga_color_code::ColorCode;
use woodix::vga_utils::vga_colors::Color;
use woodix::vga_utils::vga_writter::Writer;

fn cell(writer: &Writer, row: usize, col: usize) -> ScreenChar {
    writer.buffer().read(row, col)
}

fn text(writer: &Writer, row: usize, from: usize, len: usize) -> Vec<u8> {
    (from..from + len).map(|c| cell(writer, row, c).ascii_character).collect()
}

fn yellow_on_blue() -> ColorCode {
    ColorCode::new(Color::Yellow, Color::Blue)
}

#[test]
fn color_code_packs_background_high_foreground_low() {
    let code = ColorCode::new(Color::Yellow, Color::Blue);
    assert_eq!(code.0, 0x1E);
    assert_eq!(code.foreground(), Color::Yellow);
    assert_eq!(code.background(), Color::Blue);
}

#[test]
fn color_code_round_trips_over_the_whole_palette() {
    for f in 0u8..16 {
        for b in 0u8..16 {
            let fg = Color::from_u8(f).unwrap();
            let bg = Color::from_u8(b).unwrap();
            assert_eq!(fg.to_u8(), f);
            let code = ColorCode::new(fg, bg);
            assert_eq!(code.0, b * 16 + f);
            assert_eq!(code.foreground(), fg);
            assert_eq!(code.background(), bg);
        }
    }
}

#[test]
fn color_from_u8_rejects_what_is_not_a_palette_index() {
    assert_eq!(Color::from_u8(0), Some(Color::Black));
    assert_eq!(Color::from_u8(15), Some(Color::White));
    assert_eq!(Color::from_u8(16), None);
    assert_eq!(Color::from_u8(255), None);
}

#[test]
fn screen_char_word_has_attribute_high_character_low() {
    let c = ScreenChar { ascii_character: b'A', color_code: ColorCode(0x1E) };
    assert_eq!(c.to_word(), 0x1E41);
    assert_eq!(ScreenChar::from_word(0x1E41), c);
    assert_eq!(ScreenChar::blank(ColorCode(0x07)).to_word(), 0x0720);
    assert_eq!(ScreenChar::from_word(0x4F2A).ascii_character, 0x2A);
    assert_eq!(ScreenChar::from_word(0x4F2A).color_code, ColorCode(0x4F));
}

#[test]
fn buffer_write_changes_one_cell() {
    let blank = ScreenChar::blank(ColorCode(0x07));
    let mut buffer = Buffer::filled(blank);
    let x = ScreenChar { ascii_character: b'x', color_code: ColorCode(0x42) };
    buffer.write(3, 7, x);
    for r in 0..VGA_BUFFER_HEIGHT {
        for c in 0..VGA_BUFFER_WIDTH {
            let expected = if (r, c) == (3, 7) { x } else { blank };
            assert_eq!(buffer.read(r, c), expected);
        }
    }
}

#[test]
fn buffer_write_centered_places_text_around_the_middle() {
    let blank = ScreenChar::blank(ColorCode(0x07));
    let mut buffer = Buffer::filled(blank);
    buffer.write_centered(5, "KERNEL MAIN", ColorCode(0x5F));
    assert_eq!(buffer.read(5, 34), blank);
    let shown: Vec<u8> = (35..46).map(|c| buffer.read(5, c).ascii_character).collect();
    assert_eq!(shown, b"KERNEL MAIN".to_vec());
    assert_eq!(buffer.read(5, 35).color_code, ColorCode(0x5F));
    assert_eq!(buffer.read(5, 46), blank);
    assert_eq!(buffer.read(4, 35), blank);
}

#[test]
fn new_writer_is_blank_with_cursor_at_origin() {
    let w = Writer::new(yellow_on_blue());
    assert_eq!((w.row_position(), w.column_position()), (0, 0));
    assert_eq!(w.color_code(), ColorCode(0x1E));
    for r in 0..VGA_BUFFER_HEIGHT {
        for c in 0..VGA_BUFFER_WIDTH {
            assert_eq!(cell(&w, r, c), ScreenChar { ascii_character: b' ', color_code: ColorCode(0x1E) });
        }
    }
}

#[test]
fn abc_newline_scenario() {
    let mut w = Writer::new(ColorCode::new(Color::Yellow, Color::Blue));
    w.write_string("ABC\n");
    let attribute = ColorCode((1 << 4) | 14);
    assert_eq!(cell(&w, 0, 0), ScreenChar { ascii_character: b'A', color_code: attribute });
    assert_eq!(cell(&w, 0, 1), ScreenChar { ascii_character: b'B', color_code: attribute });
    assert_eq!(cell(&w, 0, 2), ScreenChar { ascii_character: b'C', color_code: attribute });
    assert_eq!(cell(&w, 0, 3), ScreenChar::blank(attribute));
    assert_eq!((w.row_position(), w.column_position()), (1, 0));
}

#[test]
fn clear_screen_blanks_all_two_thousand_cells() {
    let mut w = Writer::new(yellow_on_blue());
    w.write_string("some text\nmore text");
    w.clear_screen();
    let mut count = 0;
    for r in 0..VGA_BUFFER_HEIGHT {
        for c in 0..VGA_BUFFER_WIDTH {
            assert_eq!(cell(&w, r, c), ScreenChar { ascii_character: 0x20, color_code: ColorCode(0x1E) });
            count += 1;
        }
    }
    assert_eq!(count, 2000);
    assert_eq!((w.row_position(), w.column_position()), (0, 0));
}

#[test]
fn carriage_return_goes_to_column_zero_of_the_same_row() {
    let mut w = Writer::new(yellow_on_blue());
    w.write_string("one\ntwo");
    w.write_byte(b'\r');
    assert_eq!((w.row_position(), w.column_position()), (1, 0));
    assert_eq!(text(&w, 1, 0, 3), b"two".to_vec());
    w.write_byte(b'T');
    assert_eq!(text(&w, 1, 0, 3), b"Two".to_vec());
}

#[test]
fn tab_writes_four_spaces() {
    let mut w = Writer::new(yellow_on_blue());
    w.write_string("ab");
    w.write_byte(b'\t');
    assert_eq!((w.row_position(), w.column_position()), (0, 6));
    w.write_byte(b'c');
    assert_eq!(text(&w, 0, 0, 7), b"ab    c".to_vec());
}

#[test]
fn tab_wraps_space_by_space() {
    let mut w = Writer::new(yellow_on_blue());
    for _ in 0..78 {
        w.write_byte(b'x');
    }
    w.write_byte(b'\t');
    assert_eq!((w.row_position(), w.column_position()), (1, 2));
    assert_eq!(text(&w, 0, 76, 4), b"xx  ".to_vec());
}

#[test]
fn tab_that_ends_in_the_last_column_leaves_the_wrap_pending() {
    let mut w = Writer::new(yellow_on_blue());
    for _ in 0..76 {
        w.write_byte(b'x');
    }
    w.write_byte(b'\t');
    assert_eq!((w.row_position(), w.column_position()), (0, 80));
}

#[test]
fn backspace_erases_and_retreats() {
    let mut w = Writer::new(yellow_on_blue());
    w.write_string("abc");
    w.write_byte(0x08);
    assert_eq!((w.row_position(), w.column_position()), (0, 2));
    assert_eq!(text(&w, 0, 0, 3), b"ab ".to_vec());
    assert_eq!(cell(&w, 0, 2).color_code, ColorCode(0x1E));
}

#[test]
fn backspace_at_column_zero_does_nothing() {
    let mut w = Writer::new(yellow_on_blue());
    w.write_string("abc\n");
    w.write_byte(0x08);
    assert_eq!((w.row_position(), w.column_position()), (1, 0));
    assert_eq!(text(&w, 0, 0, 3), b"abc".to_vec());
    assert_eq!(cell(&w, 1, 0), ScreenChar::blank(ColorCode(0x1E)));
}

#[test]
fn backspace_behind_a_full_row_erases_the_last_column() {
    let mut w = Writer::new(yellow_on_blue());
    for _ in 0..80 {
        w.write_byte(b'x');
    }
    w.write_byte(0x08);
    assert_eq!((w.row_position(), w.column_position()), (0, 79));
    assert_eq!(cell(&w, 0, 79).ascii_character, b' ');
    assert_eq!(cell(&w, 0, 78).ascii_character, b'x');
}
