//! What holds of the console's rules, whatever is on the screen.

use vstd::prelude::*;
use super::text_code::{
    row_with_run, text_cells, ScreenChar, VGA_BUFFER_HEIGHT, VGA_BUFFER_WIDTH,
};
use super::vga_writter::{
    displayed, is_control, is_printable, ConsoleState, BACKSPACE, CARRIAGE_RETURN, NEWLINE,
    PLACEHOLDER, TAB,
};

verus! {

impl ConsoleState {
    /// The cells that show `bytes` in the console's attribute.
    pub open spec fn cells(self, bytes: Seq<u8>) -> Seq<ScreenChar> {
        text_cells(bytes, self.color)
    }

    /// The console after `bytes` were shown in the cursor's row from the
    /// cursor on, the cursor behind the last of them.
    pub open spec fn with_run(self, bytes: Seq<u8>) -> ConsoleState {
        ConsoleState {
            grid: self.grid.update(
                self.row,
                row_with_run(self.grid[self.row], self.column, self.cells(bytes)),
            ),
            column: self.column + bytes.len(),
            ..self
        }
    }

    /// A pending wrap, once carried out, leaves the cursor on the screen.
    pub proof fn lemma_wrapped_on_screen(self)
        requires
            self.wf(),
        ensures
            self.wrapped().wf(),
            self.wrapped().column < VGA_BUFFER_WIDTH,
            self.wrapped().color == self.color,
    {
    }

    /// Showing a byte keeps a console well formed.
    pub proof fn lemma_put_wf(self, byte: u8)
        requires
            self.wf(),
        ensures
            self.put(byte).wf(),
            self.put(byte).column >= 1,
            self.put(byte).color == self.color,
    {
        self.lemma_wrapped_on_screen();
    }

    /// Showing spaces keeps a console well formed.
    pub proof fn lemma_put_spaces_wf(self, count: nat)
        requires
            self.wf(),
        ensures
            self.put_spaces(count).wf(),
            self.put_spaces(count).color == self.color,
        decreases count,
    {
        if count > 0 {
            self.lemma_put_spaces_wf((count - 1) as nat);
            self.put_spaces((count - 1) as nat).lemma_put_wf(0x20);
        }
    }

    /// Whatever byte is written, the grid keeps its dimensions, the row
    /// stays on the screen, the column stays on the screen or just behind
    /// the end of the row, and the attribute stays.
    pub proof fn lemma_write_byte_wf(self, byte: u8)
        requires
            self.wf(),
        ensures
            self.write_byte(byte).wf(),
            self.write_byte(byte).color == self.color,
    {
        if byte == NEWLINE {
        } else if byte == CARRIAGE_RETURN {
        } else if byte == TAB {
            self.lemma_put_spaces_wf(4);
        } else if byte == BACKSPACE {
        } else {
            self.lemma_put_wf(byte);
        }
    }

    /// Writing `bytes` and then `byte` is writing `bytes` with `byte` at
    /// their end.
    pub proof fn lemma_write_bytes_push(self, bytes: Seq<u8>, byte: u8)
        ensures
            self.write_bytes(bytes.push(byte)) == self.write_bytes(bytes).write_byte(byte),
    {
        assert(bytes.push(byte).drop_last() == bytes);
    }

    /// Writing nothing changes nothing, and writing one byte is
    /// `write_byte`.
    pub proof fn lemma_write_bytes_short(self, byte: u8)
        ensures
            self.write_bytes(Seq::empty()) == self,
            self.write_bytes(seq![byte]) == self.write_byte(byte),
    {
        assert(seq![byte].drop_last() == Seq::<u8>::empty());
        assert(self.write_bytes(seq![byte].drop_last()) == self);
    }

    /// Writing `first` and then `second` is writing the two in one go.
    pub proof fn lemma_write_bytes_concat(self, first: Seq<u8>, second: Seq<u8>)
        ensures
            self.write_bytes(first + second) == self.write_bytes(first).write_bytes(second),
        decreases second.len(),
    {
        if second.len() == 0 {
            assert(first + second == first);
        } else {
            self.lemma_write_bytes_concat(first, second.drop_last());
            assert((first + second).drop_last() == first + second.drop_last());
        }
    }

    /// Any sequence of bytes keeps a console well formed and in its
    /// attribute.
    pub proof fn lemma_write_bytes_wf(self, bytes: Seq<u8>)
        requires
            self.wf(),
        ensures
            self.write_bytes(bytes).wf(),
            self.write_bytes(bytes).color == self.color,
        decreases bytes.len(),
    {
        if bytes.len() > 0 {
            self.lemma_write_bytes_wf(bytes.drop_last());
            self.write_bytes(bytes.drop_last()).lemma_write_byte_wf(bytes.last());
        }
    }

    /// A string is written byte by byte: a string with one more byte at
    /// its end is written as the string, then what that byte is shown as.
    pub proof fn lemma_write_string_push(self, bytes: Seq<u8>, byte: u8)
        ensures
            self.write_string(Seq::empty()) == self,
            self.write_string(bytes.push(byte)) == self.write_string(bytes).write_byte(
                displayed(byte),
            ),
    {
        let shown = |b: u8| displayed(b);
        assert(Seq::<u8>::empty().map_values(shown) == Seq::<u8>::empty());
        assert(bytes.push(byte).map_values(shown) == bytes.map_values(shown).push(displayed(byte)));
        self.lemma_write_bytes_push(bytes.map_values(shown), displayed(byte));
    }

    /// Writing a byte leaves the cursor on the screen, row and column,
    /// unless the byte is shown in the last column or is a tab that ends
    /// in the last column: the cursor then stands just behind the end of
    /// its row, where the next character wraps.
    pub proof fn lemma_write_byte_cursor_on_screen(self, byte: u8)
        requires
            self.wf(),
            !(byte == TAB && self.column == VGA_BUFFER_WIDTH - 4),
            !(!is_control(byte) && self.column == VGA_BUFFER_WIDTH - 1),
        ensures
            0 <= self.write_byte(byte).row < VGA_BUFFER_HEIGHT,
            0 <= self.write_byte(byte).column < VGA_BUFFER_WIDTH,
    {
        if byte == TAB {
            reveal_with_fuel(ConsoleState::put_spaces, 5);
            let s1 = self.put(0x20);
            let s2 = s1.put(0x20);
            let s3 = s2.put(0x20);
            self.lemma_put_wf(0x20);
            s1.lemma_put_wf(0x20);
            s2.lemma_put_wf(0x20);
            s3.lemma_put_wf(0x20);
        } else {
            self.lemma_write_byte_wf(byte);
        }
    }

    /// A byte of a string that is neither printable nor a control byte is
    /// shown as the placeholder glyph: the glyph stands where the cursor
    /// stood, and the cursor moves as it does for any printable byte.
    pub proof fn lemma_placeholder_for_unprintable(self, byte: u8, printable: u8)
        requires
            self.wf(),
            !is_printable(byte),
            !is_control(byte),
            is_printable(printable),
        ensures
            self.write_string(seq![byte]) == self.put(PLACEHOLDER),
            self.column < VGA_BUFFER_WIDTH ==> {
                &&& self.write_string(seq![byte]).grid[self.row][self.column] == self.cell(
                    PLACEHOLDER,
                )
                &&& self.write_string(seq![byte]).row == self.row
                &&& self.write_string(seq![byte]).column == self.column + 1
            },
            self.write_string(seq![byte]).row == self.write_string(seq![printable]).row,
            self.write_string(seq![byte]).column == self.write_string(seq![printable]).column,
    {
        self.lemma_write_string_push(Seq::empty(), byte);
        self.lemma_write_string_push(Seq::empty(), printable);
        assert(Seq::<u8>::empty().push(byte) == seq![byte]);
        assert(Seq::<u8>::empty().push(printable) == seq![printable]);
    }

    /// Bytes that are not control bytes and fit in what is left of the
    /// cursor's row are shown there, one cell each, and nothing else
    /// changes.
    pub proof fn lemma_write_run(self, bytes: Seq<u8>)
        requires
            self.wf(),
            self.column + bytes.len() <= VGA_BUFFER_WIDTH,
            forall|i: int| 0 <= i < bytes.len() ==> !is_control(#[trigger] bytes[i]),
        ensures
            self.write_bytes(bytes) == self.with_run(bytes),
        decreases bytes.len(),
    {
        if bytes.len() == 0 {
            assert(self.with_run(bytes).grid =~~= self.grid);
        } else {
            let front = bytes.drop_last();
            self.lemma_write_run(front);
            let mid = self.with_run(front);
            let end = mid.put(bytes.last());
            assert(end.grid =~~= self.with_run(bytes).grid);
        }
    }

    /// A string in which every byte is printable or a control byte is
    /// written as it stands: nothing is replaced.
    pub proof fn lemma_write_string_plain(self, bytes: Seq<u8>)
        requires
            forall|i: int|
                0 <= i < bytes.len() ==> is_printable(#[trigger] bytes[i]) || is_control(bytes[i]),
        ensures
            self.write_string(bytes) == self.write_bytes(bytes),
    {
        assert(bytes.map_values(|b: u8| displayed(b)) =~= bytes);
    }

    /// A string of printable bytes that fits in what is left of the
    /// cursor's row is shown there, one cell each, and nothing else
    /// changes.
    pub proof fn lemma_write_text(self, text: Seq<u8>)
        requires
            self.wf(),
            self.column + text.len() <= VGA_BUFFER_WIDTH,
            forall|i: int| 0 <= i < text.len() ==> is_printable(#[trigger] text[i]),
        ensures
            self.write_string(text) == self.with_run(text),
    {
        self.lemma_write_string_plain(text);
        self.lemma_write_run(text);
    }

    /// The implicit wrap fires behind the last column, not before and not
    /// after: eighty bytes written from the start of a row fill that row
    /// and leave the cursor behind its end; the byte after them is shown
    /// at the start of the next row, or, on the last row, at the start of
    /// that row after the screen has scrolled the eighty up by one.
    pub proof fn lemma_wrap_after_full_row(self, line: Seq<u8>, next: u8)
        requires
            self.wf(),
            self.column == 0,
            line.len() == VGA_BUFFER_WIDTH,
            forall|i: int| 0 <= i < line.len() ==> is_printable(#[trigger] line[i]),
            is_printable(next),
        ensures
            self.write_bytes(line).row == self.row,
            self.write_bytes(line).column == VGA_BUFFER_WIDTH,
            self.write_bytes(line).grid == self.grid.update(self.row, self.cells(line)),
            self.write_bytes(line.push(next)).column == 1,
            self.row < VGA_BUFFER_HEIGHT - 1 ==> {
                &&& self.write_bytes(line.push(next)).row == self.row + 1
                &&& self.write_bytes(line.push(next)).grid[self.row] == self.cells(line)
                &&& self.write_bytes(line.push(next)).grid[self.row + 1][0] == self.cell(next)
            },
            self.row == VGA_BUFFER_HEIGHT - 1 ==> {
                &&& self.write_bytes(line.push(next)).row == self.row
                &&& self.write_bytes(line.push(next)).grid[self.row - 1] == self.cells(line)
                &&& self.write_bytes(line.push(next)).grid[self.row][0] == self.cell(next)
                &&& forall|c: int|
                    1 <= c < VGA_BUFFER_WIDTH ==> #[trigger] self.write_bytes(
                        line.push(next),
                    ).grid[self.row][c] == self.blank()
            },
    {
        self.lemma_write_run(line);
        self.lemma_write_bytes_push(line, next);
        let full = self.write_bytes(line);
        assert(row_with_run(self.grid[self.row], 0, self.cells(line)) =~= self.cells(line));
    }

    /// Line feeds move the cursor down a row each while there is a row
    /// below, and change nothing on the screen.
    pub proof fn lemma_newlines_move_down(self, count: nat)
        requires
            self.wf(),
            self.row + count < VGA_BUFFER_HEIGHT,
        ensures
            self.write_bytes(Seq::new(count, |i: int| NEWLINE)) == (ConsoleState {
                row: self.row + count,
                column: if count == 0 {
                    self.column
                } else {
                    0
                },
                ..self
            }),
        decreases count,
    {
        let feeds = Seq::new(count, |i: int| NEWLINE);
        if count > 0 {
            self.lemma_newlines_move_down((count - 1) as nat);
            assert(feeds.drop_last() == Seq::new((count - 1) as nat, |i: int| NEWLINE));
        }
    }

    /// Twenty-five line feeds from the top row scroll the screen exactly
    /// once: the cursor ends at the start of the last row, and the screen
    /// is the one before, scrolled up by one row.
    pub proof fn lemma_screenful_of_newlines(self)
        requires
            self.wf(),
            self.row == 0,
        ensures
            self.write_bytes(Seq::new(VGA_BUFFER_HEIGHT as nat, |i: int| NEWLINE)) == (
            ConsoleState { row: VGA_BUFFER_HEIGHT - 1, column: 0, ..self.scroll_up() }),
    {
        let feeds = Seq::new(VGA_BUFFER_HEIGHT as nat, |i: int| NEWLINE);
        self.lemma_newlines_move_down((VGA_BUFFER_HEIGHT - 1) as nat);
        assert(feeds.drop_last() == Seq::new((VGA_BUFFER_HEIGHT - 1) as nat, |i: int| NEWLINE));
    }

    /// After the screen is cleared every cell is a space in the console's
    /// attribute and the cursor stands in the top left corner.
    pub proof fn lemma_clear_screen_blank(self)
        ensures
            self.clear_screen().wf(),
            self.clear_screen().row == 0,
            self.clear_screen().column == 0,
            self.clear_screen().color == self.color,
            forall|r: int, c: int|
                0 <= r < VGA_BUFFER_HEIGHT && 0 <= c < VGA_BUFFER_WIDTH
                    ==> #[trigger] self.clear_screen().grid[r][c] == (ScreenChar {
                    ascii_character: 0x20,
                    color_code: self.color,
                }),
    {
    }
}

} // verus!
