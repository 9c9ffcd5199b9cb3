//! Cells and the grid of cells that is the visible screen.

use vstd::prelude::*;
use vstd::string::StringSliceAdditionalSpecFns;
use super::vga_color_code::ColorCode;

verus! {

/// Number of rows of the screen.
pub const VGA_BUFFER_HEIGHT: usize = 25;

/// Number of columns of the screen.
pub const VGA_BUFFER_WIDTH: usize = 80;

/// The character byte of an empty cell.
pub const BLANK_CHARACTER: u8 = 0x20;

/// One cell of the screen: a character byte and its attribute.
#[derive(Debug, Clone, Copy, PartialEq, Eq, Structural)]
pub struct ScreenChar {
    pub ascii_character: u8,
    pub color_code: ColorCode,
}

impl ScreenChar {
    /// The empty cell in a given attribute: a space.
    pub open spec fn spec_blank(color_code: ColorCode) -> ScreenChar {
        ScreenChar { ascii_character: BLANK_CHARACTER, color_code }
    }

    /// The 16-bit word by which the display hardware knows the cell:
    /// the attribute in the high byte, the character in the low byte.
    pub open spec fn spec_word(self) -> int {
        self.color_code.0 * 256 + self.ascii_character
    }

    /// The cell that a 16-bit display word stands for.
    pub open spec fn spec_from_word(word: u16) -> ScreenChar {
        ScreenChar {
            ascii_character: (word % 256) as u8,
            color_code: ColorCode((word / 256) as u8),
        }
    }

    /// The empty cell in a given attribute.
    pub fn blank(color_code: ColorCode) -> (cell: ScreenChar)
        ensures
            cell == ScreenChar::spec_blank(color_code),
    {
        ScreenChar { ascii_character: BLANK_CHARACTER, color_code }
    }

    /// Encodes the cell as its display word.
    pub fn to_word(self) -> (word: u16)
        ensures
            word == self.spec_word(),
    {
        let character: u8 = self.ascii_character;
        let attribute: u8 = self.color_code.0;
        assert(((attribute as u16) << 8 | (character as u16)) == attribute * 256 + character)
            by (bit_vector);
        (attribute as u16) << 8 | (character as u16)
    }

    /// Decodes a display word.
    pub fn from_word(word: u16) -> (cell: ScreenChar)
        ensures
            cell == ScreenChar::spec_from_word(word),
    {
        assert((word & 0xFF) == word % 256 && (word >> 8) == word / 256 && (word >> 8) < 256)
            by (bit_vector);
        ScreenChar {
            ascii_character: (word & 0xFF) as u8,
            color_code: ColorCode((word >> 8) as u8),
        }
    }

    /// A cell and its display word determine each other.
    pub proof fn lemma_word_round_trip(cell: ScreenChar, word: u16)
        ensures
            0 <= cell.spec_word() <= u16::MAX,
            ScreenChar::spec_from_word(cell.spec_word() as u16) == cell,
            ScreenChar::spec_from_word(word).spec_word() == word,
    {
    }
}

/// Whether a grid has the dimensions of the screen.
pub open spec fn grid_wf(grid: Seq<Seq<ScreenChar>>) -> bool {
    &&& grid.len() == VGA_BUFFER_HEIGHT
    &&& forall|r: int| 0 <= r < VGA_BUFFER_HEIGHT ==> (#[trigger] grid[r]).len() == VGA_BUFFER_WIDTH
}

/// A row in which every cell is `cell`.
pub open spec fn filled_row(cell: ScreenChar) -> Seq<ScreenChar> {
    Seq::new(VGA_BUFFER_WIDTH as nat, |c: int| cell)
}

/// A grid in which every cell is `cell`.
pub open spec fn filled_grid(cell: ScreenChar) -> Seq<Seq<ScreenChar>> {
    Seq::new(VGA_BUFFER_HEIGHT as nat, |r: int| filled_row(cell))
}

/// The grid `grid` with the cell at (`row`, `col`) replaced by `cell`.
pub open spec fn grid_with(grid: Seq<Seq<ScreenChar>>, row: int, col: int, cell: ScreenChar) -> Seq<
    Seq<ScreenChar>,
>
    recommends
        grid_wf(grid),
        0 <= row < VGA_BUFFER_HEIGHT,
        0 <= col < VGA_BUFFER_WIDTH,
{
    grid.update(row, grid[row].update(col, cell))
}

/// The cells that show `bytes` in attribute `color_code`, one cell a byte.
pub open spec fn text_cells(bytes: Seq<u8>, color_code: ColorCode) -> Seq<ScreenChar> {
    Seq::new(bytes.len(), |i: int| ScreenChar { ascii_character: bytes[i], color_code })
}

/// The row `row` with the cells from column `start` on replaced by `cells`.
pub open spec fn row_with_run(row: Seq<ScreenChar>, start: int, cells: Seq<ScreenChar>) -> Seq<
    ScreenChar,
> {
    Seq::new(
        row.len(),
        |c: int|
            if start <= c < start + cells.len() {
                cells[c - start]
            } else {
                row[c]
            },
    )
}

/// The column at which a text of `len` cells starts when it is centred in
/// a row.
pub open spec fn centered_start(len: int) -> int {
    VGA_BUFFER_WIDTH / 2 - len / 2
}

/// The screen: `VGA_BUFFER_HEIGHT` rows of `VGA_BUFFER_WIDTH` cells.
///
/// Its view is the sequence of its rows, each the sequence of its cells.
pub struct Buffer {
    pub chars: [[ScreenChar; VGA_BUFFER_WIDTH]; VGA_BUFFER_HEIGHT],
}

impl View for Buffer {
    type V = Seq<Seq<ScreenChar>>;

    open spec fn view(&self) -> Seq<Seq<ScreenChar>> {
        Seq::new(VGA_BUFFER_HEIGHT as nat, |r: int| self.chars[r]@)
    }
}

impl Buffer {
    /// A screen on which every cell is `cell`.
    pub fn filled(cell: ScreenChar) -> (buffer: Buffer)
        ensures
            buffer@ == filled_grid(cell),
    {
        let buffer = Buffer { chars: [[cell; VGA_BUFFER_WIDTH]; VGA_BUFFER_HEIGHT] };
        assert(buffer@ =~~= filled_grid(cell));
        buffer
    }

    /// The cell at (`row`, `col`).
    pub fn read(&self, row: usize, col: usize) -> (cell: ScreenChar)
        requires
            row < VGA_BUFFER_HEIGHT,
            col < VGA_BUFFER_WIDTH,
        ensures
            cell == self@[row as int][col as int],
    {
        self.chars[row][col]
    }

    /// Replaces the cell at (`row`, `col`) and leaves every other cell as
    /// it was.
    pub fn write(&mut self, row: usize, col: usize, cell: ScreenChar)
        requires
            row < VGA_BUFFER_HEIGHT,
            col < VGA_BUFFER_WIDTH,
        ensures
            final(self)@ == grid_with(old(self)@, row as int, col as int, cell),
        no_unwind
    {
        self.chars[row][col] = cell;
        assert(self@ =~~= grid_with(old(self)@, row as int, col as int, cell));
    }

    /// Shows `text` in attribute `color_code` in the middle of row `row`,
    /// one cell for each of its bytes, and leaves every other cell as it
    /// was.
    pub fn write_centered(&mut self, row: usize, text: &str, color_code: ColorCode)
        requires
            row < VGA_BUFFER_HEIGHT,
            text.spec_bytes().len() <= VGA_BUFFER_WIDTH,
        ensures
            final(self)@ == old(self)@.update(
                row as int,
                row_with_run(
                    old(self)@[row as int],
                    centered_start(text.spec_bytes().len() as int),
                    text_cells(text.spec_bytes(), color_code),
                ),
            ),
    {
        let bytes = text.as_bytes();
        let start: usize = VGA_BUFFER_WIDTH / 2 - bytes.len() / 2;
        assert(self@ =~~= old(self)@.update(
            row as int,
            row_with_run(
                old(self)@[row as int],
                start as int,
                text_cells(bytes@.take(0), color_code),
            ),
        ));
        for i in 0..bytes.len()
            invariant
                row < VGA_BUFFER_HEIGHT,
                bytes@ == text.spec_bytes(),
                bytes@.len() <= VGA_BUFFER_WIDTH,
                start == centered_start(bytes@.len() as int),
                self@ == old(self)@.update(
                    row as int,
                    row_with_run(
                        old(self)@[row as int],
                        start as int,
                        text_cells(bytes@.take(i as int), color_code),
                    ),
                ),
        {
            let cell = ScreenChar { ascii_character: bytes[i], color_code };
            self.write(row, start + i, cell);
            assert(self@ =~~= old(self)@.update(
                row as int,
                row_with_run(
                    old(self)@[row as int],
                    start as int,
                    text_cells(bytes@.take(i + 1), color_code),
                ),
            ));
        }
        assert(bytes@.take(bytes.len() as int) == bytes@);
    }

    /// The view of a screen always has the screen's dimensions.
    pub proof fn lemma_view_wf(&self)
        ensures
            grid_wf(self@),
    {
    }
}

} // verus!
