//! The console writer: a cursor and an attribute over the screen, and the
//! rules by which bytes become cells.

use vstd::prelude::*;
use vstd::string::StringSliceAdditionalSpecFns;
use super::text_code::{
    filled_grid, filled_row, grid_wf, grid_with, Buffer, ScreenChar, VGA_BUFFER_HEIGHT,
    VGA_BUFFER_WIDTH,
};
use super::vga_color_code::ColorCode;
use super::vga_colors::Color;

verus! {

/// Line feed: moves to the start of the next line.
pub const NEWLINE: u8 = 0x0A;

/// Carriage return: moves to the start of the current line.
pub const CARRIAGE_RETURN: u8 = 0x0D;

/// Horizontal tab: written as `TAB_WIDTH` spaces.
pub const TAB: u8 = 0x09;

/// Backspace: erases the cell to the left of the cursor.
pub const BACKSPACE: u8 = 0x08;

/// The glyph shown in place of a byte that has no picture.
pub const PLACEHOLDER: u8 = 0xFE;

/// Number of spaces written for a tab.
pub const TAB_WIDTH: usize = 4;

/// Whether `byte` is a printable ASCII character.
pub open spec fn is_printable(byte: u8) -> bool {
    0x20 <= byte <= 0x7E
}

/// Whether `byte` is one of the four control bytes that the writer acts on.
pub open spec fn is_control(byte: u8) -> bool {
    byte == NEWLINE || byte == CARRIAGE_RETURN || byte == TAB || byte == BACKSPACE
}

/// What a string's byte is shown as: itself where it is printable or a
/// control byte, the placeholder glyph otherwise.
pub open spec fn displayed(byte: u8) -> u8 {
    if is_printable(byte) || is_control(byte) {
        byte
    } else {
        PLACEHOLDER
    }
}

/// The state of a console in specifications: what the screen shows, where
/// the cursor stands and which attribute new cells get.
///
/// The column may equal the width of the screen: the cursor then stands
/// behind the last cell of its row, and the next character wraps.
pub struct ConsoleState {
    pub grid: Seq<Seq<ScreenChar>>,
    pub row: int,
    pub column: int,
    pub color: ColorCode,
}

impl ConsoleState {
    /// The grid has the screen's dimensions and the cursor is on it, or
    /// just behind the end of its row.
    pub open spec fn wf(self) -> bool {
        &&& grid_wf(self.grid)
        &&& 0 <= self.row < VGA_BUFFER_HEIGHT
        &&& 0 <= self.column <= VGA_BUFFER_WIDTH
    }

    /// The empty cell in the console's attribute.
    pub open spec fn blank(self) -> ScreenChar {
        ScreenChar::spec_blank(self.color)
    }

    /// The cell that shows `byte` in the console's attribute.
    pub open spec fn cell(self, byte: u8) -> ScreenChar {
        ScreenChar { ascii_character: byte, color_code: self.color }
    }

    /// An empty screen in attribute `color`, the cursor in the top left
    /// corner.
    pub open spec fn cleared(color: ColorCode) -> ConsoleState {
        ConsoleState {
            grid: filled_grid(ScreenChar::spec_blank(color)),
            row: 0,
            column: 0,
            color,
        }
    }

    /// Every cell becomes blank and the cursor goes to the top left corner.
    pub open spec fn clear_screen(self) -> ConsoleState {
        ConsoleState::cleared(self.color)
    }

    /// Every row but the first moves up by one, the last row becomes
    /// blank. The cursor stays.
    pub open spec fn scroll_up(self) -> ConsoleState {
        ConsoleState {
            grid: Seq::new(
                VGA_BUFFER_HEIGHT as nat,
                |r: int|
                    if r < VGA_BUFFER_HEIGHT - 1 {
                        self.grid[r + 1]
                    } else {
                        filled_row(self.blank())
                    },
            ),
            ..self
        }
    }

    /// The cursor goes to the start of the next row; on the last row the
    /// screen scrolls instead.
    pub open spec fn new_line(self) -> ConsoleState {
        if self.row < VGA_BUFFER_HEIGHT - 1 {
            ConsoleState { row: self.row + 1, column: 0, ..self }
        } else {
            ConsoleState { column: 0, ..self.scroll_up() }
        }
    }

    /// The cursor goes to the start of its row.
    pub open spec fn carriage_return(self) -> ConsoleState {
        ConsoleState { column: 0, ..self }
    }

    /// The cursor steps left and the cell it lands on becomes blank. At the
    /// start of a row nothing happens.
    pub open spec fn backspace(self) -> ConsoleState {
        if self.column > 0 {
            ConsoleState {
                grid: grid_with(self.grid, self.row, self.column - 1, self.blank()),
                column: self.column - 1,
                ..self
            }
        } else {
            self
        }
    }

    /// The console with a pending wrap carried out: a cursor that stands
    /// behind the end of its row moves to the next line.
    pub open spec fn wrapped(self) -> ConsoleState {
        if self.column >= VGA_BUFFER_WIDTH {
            self.new_line()
        } else {
            self
        }
    }

    /// `byte` is shown at the cursor, after a pending wrap, and the cursor
    /// steps right.
    pub open spec fn put(self, byte: u8) -> ConsoleState {
        let at = self.wrapped();
        ConsoleState {
            grid: grid_with(at.grid, at.row, at.column, at.cell(byte)),
            column: at.column + 1,
            ..at
        }
    }

    /// `count` spaces are put one after the other.
    pub open spec fn put_spaces(self, count: nat) -> ConsoleState
        decreases count,
    {
        if count == 0 {
            self
        } else {
            self.put_spaces((count - 1) as nat).put(0x20)
        }
    }

    /// The effect of one byte: the four control bytes move the cursor, any
    /// other byte is put on the screen as it is.
    pub open spec fn write_byte(self, byte: u8) -> ConsoleState {
        if byte == NEWLINE {
            self.new_line()
        } else if byte == CARRIAGE_RETURN {
            self.carriage_return()
        } else if byte == TAB {
            self.put_spaces(TAB_WIDTH as nat)
        } else if byte == BACKSPACE {
            self.backspace()
        } else {
            self.put(byte)
        }
    }

    /// The effect of a sequence of bytes, written first to last.
    pub open spec fn write_bytes(self, bytes: Seq<u8>) -> ConsoleState
        decreases bytes.len(),
    {
        if bytes.len() == 0 {
            self
        } else {
            self.write_bytes(bytes.drop_last()).write_byte(bytes.last())
        }
    }

    /// The effect of a string given by its bytes: each byte is written as
    /// what it is shown as.
    pub open spec fn write_string(self, bytes: Seq<u8>) -> ConsoleState {
        self.write_bytes(bytes.map_values(|b: u8| displayed(b)))
    }
}

/// A console: the screen, the cursor and the attribute in which it writes.
///
/// Its view is a [`ConsoleState`]. The row is always on the screen; the
/// column is on the screen or just behind the end of the row.
pub struct Writer {
    column_position: usize,
    row_position: usize,
    color_code: ColorCode,
    buffer: Buffer,
}

impl View for Writer {
    type V = ConsoleState;

    closed spec fn view(&self) -> ConsoleState {
        ConsoleState {
            grid: self.buffer@,
            row: self.row_position as int,
            column: self.column_position as int,
            color: self.color_code,
        }
    }
}

impl Writer {
    /// The cursor's row is on the screen; its column is on the screen or
    /// just behind the end of the row.
    #[verifier::type_invariant]
    spec fn cursor_in_bounds(self) -> bool {
        &&& self.row_position < VGA_BUFFER_HEIGHT
        &&& self.column_position <= VGA_BUFFER_WIDTH
    }

    /// A console in attribute `color_code` with an empty screen and the
    /// cursor in the top left corner.
    pub fn new(color_code: ColorCode) -> (writer: Writer)
        ensures
            writer@ == ConsoleState::cleared(color_code),
            writer@.wf(),
    {
        let mut writer = Writer {
            column_position: 0,
            row_position: 0,
            color_code,
            buffer: Buffer::filled(ScreenChar::blank(color_code)),
        };
        writer.clear_screen();
        writer
    }

    /// Blanks every cell in the console's attribute and moves the cursor
    /// to the top left corner.
    pub fn clear_screen(&mut self)
        ensures
            final(self)@ == old(self)@.clear_screen(),
            final(self)@.wf(),
            final(self)@.row == 0,
            final(self)@.column == 0,
            final(self)@.color == old(self)@.color,
            forall|r: int, c: int|
                0 <= r < VGA_BUFFER_HEIGHT && 0 <= c < VGA_BUFFER_WIDTH
                    ==> #[trigger] final(self)@.grid[r][c] == ScreenChar::spec_blank(old(self)@.color),
    {
        proof {
            use_type_invariant(&*self);
        }
        let blank = ScreenChar::blank(self.color_code);
        for row in 0..VGA_BUFFER_HEIGHT
            invariant
                self.row_position < VGA_BUFFER_HEIGHT,
                self.column_position <= VGA_BUFFER_WIDTH,
                blank == ScreenChar::spec_blank(self.color_code),
                self.color_code == old(self).color_code,
                forall|r: int| 0 <= r < row ==> #[trigger] self.buffer@[r] == filled_row(blank),
        {
            for col in 0..VGA_BUFFER_WIDTH
                invariant
                    row < VGA_BUFFER_HEIGHT,
                    self.row_position < VGA_BUFFER_HEIGHT,
                    self.column_position <= VGA_BUFFER_WIDTH,
                    blank == ScreenChar::spec_blank(self.color_code),
                    self.color_code == old(self).color_code,
                    forall|r: int| 0 <= r < row ==> #[trigger] self.buffer@[r] == filled_row(blank),
                    forall|c: int| 0 <= c < col ==> #[trigger] self.buffer@[row as int][c] == blank,
            {
                self.buffer.write(row, col, blank);
            }
            assert(self.buffer@[row as int] =~= filled_row(blank));
        }
        self.column_position = 0;
        self.row_position = 0;
        assert(self.buffer@ =~= filled_grid(blank));
    }

    /// Writes one byte: a line feed, carriage return, tab or backspace acts
    /// on the cursor; any other byte is shown at the cursor, on the next
    /// line if the cursor stood behind the end of its row.
    pub fn write_byte(&mut self, byte: u8)
        ensures
            final(self)@ == old(self)@.write_byte(byte),
            final(self)@.wf(),
    {
        proof {
            use_type_invariant(&*self);
        }
        if byte == NEWLINE {
            self.new_line();
        } else if byte == CARRIAGE_RETURN {
            self.column_position = 0;
        } else if byte == TAB {
            for count in 0..TAB_WIDTH
                invariant
                    self@ == old(self)@.put_spaces(count as nat),
            {
                self.put(0x20);
            }
        } else if byte == BACKSPACE {
            self.backspace();
        } else {
            self.put(byte);
        }
        proof {
            use_type_invariant(&*self);
        }
    }

    /// Writes a string byte by byte. A byte that is neither printable nor
    /// one of the four control bytes is shown as the placeholder glyph.
    pub fn write_string(&mut self, s: &str)
        ensures
            final(self)@ == old(self)@.write_string(s.spec_bytes()),
            final(self)@.wf(),
    {
        let bytes = s.as_bytes();
        let ghost shown = bytes@.map_values(|b: u8| displayed(b));
        for i in 0..bytes.len()
            invariant
                bytes@ == s.spec_bytes(),
                shown == bytes@.map_values(|b: u8| displayed(b)),
                self@ == old(self)@.write_bytes(shown.take(i as int)),
        {
            let byte: u8 = bytes[i];
            assert(shown.take(i + 1).drop_last() == shown.take(i as int));
            if (0x20 <= byte && byte <= 0x7E) || byte == NEWLINE || byte == CARRIAGE_RETURN
                || byte == TAB || byte == BACKSPACE {
                self.write_byte(byte);
            } else {
                self.write_byte(PLACEHOLDER);
            }
        }
        assert(shown.take(bytes.len() as int) == shown);
        proof {
            use_type_invariant(&*self);
        }
    }

    /// Moves the cursor to the start of the next row. On the last row the
    /// screen scrolls up by one row instead and the cursor stays on it.
    pub fn new_line(&mut self)
        ensures
            final(self)@ == old(self)@.new_line(),
            final(self)@.wf(),
    {
        proof {
            use_type_invariant(&*self);
        }
        self.column_position = 0;
        if self.row_position < VGA_BUFFER_HEIGHT - 1 {
            self.row_position += 1;
        } else {
            self.scroll_up();
        }
    }

    /// Copies every row but the first into the row above it, from the top
    /// down, and blanks the last row.
    fn scroll_up(&mut self)
        ensures
            final(self)@ == old(self)@.scroll_up(),
    {
        proof {
            use_type_invariant(&*self);
        }
        let ghost before = self.buffer@;
        for row in 1..VGA_BUFFER_HEIGHT
            invariant
                self.row_position == old(self).row_position,
                self.column_position == old(self).column_position,
                self.color_code == old(self).color_code,
                self.row_position < VGA_BUFFER_HEIGHT,
                self.column_position <= VGA_BUFFER_WIDTH,
                before == old(self).buffer@,
                forall|r: int| 0 <= r < row - 1 ==> #[trigger] self.buffer@[r] == before[r + 1],
                forall|r: int|
                    row - 1 <= r < VGA_BUFFER_HEIGHT ==> #[trigger] self.buffer@[r] == before[r],
        {
            for col in 0..VGA_BUFFER_WIDTH
                invariant
                    1 <= row < VGA_BUFFER_HEIGHT,
                    self.row_position == old(self).row_position,
                    self.column_position == old(self).column_position,
                    self.color_code == old(self).color_code,
                    self.row_position < VGA_BUFFER_HEIGHT,
                    self.column_position <= VGA_BUFFER_WIDTH,
                    before == old(self).buffer@,
                    forall|r: int| 0 <= r < row - 1 ==> #[trigger] self.buffer@[r] == before[r + 1],
                    forall|r: int|
                        row <= r < VGA_BUFFER_HEIGHT ==> #[trigger] self.buffer@[r] == before[r],
                    forall|c: int|
                        0 <= c < col ==> #[trigger] self.buffer@[row - 1][c] == before[row as int][c],
                    forall|c: int|
                        col <= c < VGA_BUFFER_WIDTH ==> #[trigger] self.buffer@[row - 1][c]
                            == before[row - 1][c],
            {
                let cell = self.buffer.read(row, col);
                self.buffer.write(row - 1, col, cell);
            }
            assert(self.buffer@[row - 1] =~= before[row as int]);
        }
        let blank = ScreenChar::blank(self.color_code);
        let last_row: usize = VGA_BUFFER_HEIGHT - 1;
        for col in 0..VGA_BUFFER_WIDTH
            invariant
                last_row == VGA_BUFFER_HEIGHT - 1,
                blank == ScreenChar::spec_blank(self.color_code),
                self.row_position == old(self).row_position,
                self.column_position == old(self).column_position,
                self.color_code == old(self).color_code,
                self.row_position < VGA_BUFFER_HEIGHT,
                self.column_position <= VGA_BUFFER_WIDTH,
                before == old(self).buffer@,
                forall|r: int| 0 <= r < last_row ==> #[trigger] self.buffer@[r] == before[r + 1],
                forall|c: int| 0 <= c < col ==> #[trigger] self.buffer@[last_row as int][c] == blank,
        {
            self.buffer.write(last_row, col, blank);
        }
        assert(self.buffer@[last_row as int] =~= filled_row(blank));
        assert(self.buffer@ =~= old(self)@.scroll_up().grid);
    }

    /// Shows `byte` at the cursor and steps right, wrapping first if the
    /// cursor stood behind the end of its row.
    fn put(&mut self, byte: u8)
        ensures
            final(self)@ == old(self)@.put(byte),
    {
        if self.column_position >= VGA_BUFFER_WIDTH {
            self.new_line();
        }
        proof {
            use_type_invariant(&*self);
        }
        let cell = ScreenChar { ascii_character: byte, color_code: self.color_code };
        self.buffer.write(self.row_position, self.column_position, cell);
        self.column_position += 1;
    }

    /// Steps left and blanks the cell under the cursor; does nothing at
    /// the start of a row.
    fn backspace(&mut self)
        ensures
            final(self)@ == old(self)@.backspace(),
    {
        proof {
            use_type_invariant(&*self);
        }
        if self.column_position > 0 {
            self.column_position -= 1;
            let blank = ScreenChar::blank(self.color_code);
            self.buffer.write(self.row_position, self.column_position, blank);
        }
    }

    /// The row in which the cursor stands.
    pub fn row_position(&self) -> (row: usize)
        ensures
            row == self@.row,
            row < VGA_BUFFER_HEIGHT,
    {
        proof {
            use_type_invariant(self);
        }
        self.row_position
    }

    /// The column in which the cursor stands; the width of the screen if
    /// it stands behind the end of its row.
    pub fn column_position(&self) -> (column: usize)
        ensures
            column == self@.column,
            column <= VGA_BUFFER_WIDTH,
    {
        proof {
            use_type_invariant(self);
        }
        self.column_position
    }

    /// The attribute in which the console writes.
    pub fn color_code(&self) -> (color_code: ColorCode)
        ensures
            color_code == self@.color,
    {
        self.color_code
    }

    /// The screen as the console has left it.
    pub fn buffer(&self) -> (buffer: &Buffer)
        ensures
            buffer@ == self@.grid,
    {
        &self.buffer
    }
}

/// The first screen of the self-test: five lines in yellow on black that
/// show plain text, symbols and tabs.
pub open spec fn test_screen() -> ConsoleState {
    ConsoleState::cleared(ColorCode::spec_new(Color::Yellow, Color::Black)).clear_screen()
        .write_string("VGA Test: Hello from Woodix Kernel!\n".spec_bytes()).write_string(
        "Line 2: Testing newlines\n".spec_bytes(),
    ).write_string(
        "Line 3: Testing colors (should be yellow on black)\n".spec_bytes(),
    ).write_string("Symbol test: !@#$%^&*()_+{}|:\"<>?~`-=[]\\;',./\n".spec_bytes()).write_string(
        "Tab\tTest\tTab\tTest\n".spec_bytes(),
    )
}

/// The second screen of the self-test: the verdict in green on black, on
/// the second line of an otherwise empty screen.
pub open spec fn test_passed_screen() -> ConsoleState {
    ConsoleState::cleared(ColorCode::spec_new(Color::Green, Color::Black)).write_string(
        "\nVGA TEST PASSED!".spec_bytes(),
    )
}

/// Runs the console's self-test and returns its two screens in the order
/// in which they are to be shown: the test lines, then the verdict.
pub fn test() -> (screens: (Writer, Writer))
    ensures
        screens.0@ == test_screen(),
        screens.1@ == test_passed_screen(),
{
    let mut writer = Writer::new(ColorCode::new(Color::Yellow, Color::Black));
    writer.clear_screen();
    writer.write_string("VGA Test: Hello from Woodix Kernel!\n");
    writer.write_string("Line 2: Testing newlines\n");
    writer.write_string("Line 3: Testing colors (should be yellow on black)\n");
    writer.write_string("Symbol test: !@#$%^&*()_+{}|:\"<>?~`-=[]\\;',./\n");
    writer.write_string("Tab\tTest\tTab\tTest\n");
    let mut success_writer = Writer::new(ColorCode::new(Color::Green, Color::Black));
    success_writer.write_string("\nVGA TEST PASSED!");
    (writer, success_writer)
}

} // verus!
