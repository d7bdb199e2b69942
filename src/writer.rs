use vstd::prelude::*;
use vstd::string::StringSliceAdditionalSpecFns;
use volatile::Volatile;
use crate::codec::{cell, encode_cell, Color, ScreenChar};

verus! {

/// Number of rows of the grid.
pub const BUFFER_HEIGHT: usize = 25;

/// Number of columns of the grid.
pub const BUFFER_WIDTH: usize = 80;

/// Number of cells of the grid.
pub const BUFFER_SIZE: usize = 2000;

/// The code of the newline byte.
pub const NEWLINE: u8 = 0x0a;

/// The glyph written in place of a byte that is not printable.
pub const SUBSTITUTE: u8 = 0xfe;

#[verifier::external_type_specification]
#[verifier::external_body]
#[verifier::reject_recursive_types(T)]
pub struct ExVolatile<T: Copy>(Volatile<T>);

/// The value that a volatile cell holds.
pub uninterp spec fn held(v: Volatile<ScreenChar>) -> ScreenChar;

/// Relies on `Volatile::new`: the new cell holds `c`.
#[verifier::external_body]
fn new_cell(c: ScreenChar) -> (r: Volatile<ScreenChar>)
    ensures
        held(r) == c,
{
    Volatile::new(c)
}

/// Relies on `Volatile::read`: a volatile read returns the value the cell holds.
#[verifier::external_body]
fn read_cell(cells: &Vec<Volatile<ScreenChar>>, i: usize) -> (r: ScreenChar)
    requires
        i < cells@.len(),
    ensures
        r == held(cells@[i as int]),
{
    cells[i].read()
}

/// Relies on `Volatile::write`: after a volatile write the cell holds `c`;
/// no other cell is touched.
#[verifier::external_body]
fn write_cell(cells: &mut Vec<Volatile<ScreenChar>>, i: usize, c: ScreenChar)
    requires
        i < old(cells)@.len(),
    ensures
        final(cells)@.len() == old(cells)@.len(),
        held(final(cells)@[i as int]) == c,
        forall|j: int|
            0 <= j < old(cells)@.len() && j != i ==> final(cells)@[j] == old(cells)@[j],
{
    cells[i].write(c)
}

/// The abstract state of a writer: cursor, default colors and the grid,
/// row after row.
pub struct ScreenState {
    pub row: nat,
    pub col: nat,
    pub text_color: Color,
    pub background: Color,
    pub cells: Seq<ScreenChar>,
}

/// Index of the cell at (`row`, `col`) in the grid.
pub open spec fn index_of(row: nat, col: nat) -> int {
    (row * BUFFER_WIDTH + col) as int
}

/// Whether a byte is printable ASCII.
pub open spec fn is_printable(byte: u8) -> bool {
    0x20 <= byte <= 0x7e
}

/// `cells` with every cell of `row` replaced by `blank`.
pub open spec fn with_row_cleared(cells: Seq<ScreenChar>, row: nat, blank: ScreenChar) -> Seq<
    ScreenChar,
> {
    Seq::new(
        cells.len(),
        |i: int|
            if index_of(row, 0) <= i < index_of(row, 0) + BUFFER_WIDTH {
                blank
            } else {
                cells[i]
            },
    )
}

/// `cells` moved up by one row, with a last row of `blank` cells.
pub open spec fn scrolled(cells: Seq<ScreenChar>, blank: ScreenChar) -> Seq<ScreenChar> {
    Seq::new(
        BUFFER_SIZE as nat,
        |i: int|
            if i < BUFFER_SIZE - BUFFER_WIDTH {
                cells[i + BUFFER_WIDTH]
            } else {
                blank
            },
    )
}

impl ScreenState {
    /// Cursor within the grid, and a grid of the right size.
    pub open spec fn wf(self) -> bool {
        &&& self.row < BUFFER_HEIGHT
        &&& self.col <= BUFFER_WIDTH
        &&& self.cells.len() == BUFFER_SIZE
    }

    /// A space in the default colors.
    pub open spec fn blank(self) -> ScreenChar {
        cell(0x20, self.text_color, self.background)
    }

    /// The cell at (`row`, `col`).
    pub open spec fn at(self, row: nat, col: nat) -> ScreenChar {
        self.cells[index_of(row, col)]
    }

    /// The state after a line break: on the last row the grid scrolls.
    pub open spec fn new_line(self) -> ScreenState {
        if self.row == BUFFER_HEIGHT - 1 {
            ScreenState { col: 0, cells: scrolled(self.cells, self.blank()), ..self }
        } else {
            ScreenState { row: self.row + 1, col: 0, ..self }
        }
    }

    /// The state after writing `byte` in the given colors.
    pub open spec fn write_colored(self, byte: u8, text_color: Color, background: Color) -> ScreenState {
        if byte == NEWLINE {
            self.new_line()
        } else {
            let s = if self.col >= BUFFER_WIDTH {
                self.new_line()
            } else {
                self
            };
            ScreenState {
                col: s.col + 1,
                cells: s.cells.update(index_of(s.row, s.col), cell(byte, text_color, background)),
                ..s
            }
        }
    }

    /// The state after writing `byte` in the default colors.
    pub open spec fn write(self, byte: u8) -> ScreenState {
        self.write_colored(byte, self.text_color, self.background)
    }

    /// The foreground of the substitute glyph: yellow on red, red otherwise.
    pub open spec fn substitute_color(self) -> Color {
        if self.background == Color::Red {
            Color::Yellow
        } else {
            Color::Red
        }
    }

    /// The state after writing `byte` as a string byte: printable bytes and
    /// newlines as they are, anything else as the substitute glyph.
    pub open spec fn write_text_byte(self, byte: u8) -> ScreenState {
        if is_printable(byte) || byte == NEWLINE {
            self.write(byte)
        } else {
            self.write_colored(SUBSTITUTE, self.substitute_color(), self.background)
        }
    }

    /// The state after writing `bytes` as text, one after the other.
    pub open spec fn write_text(self, bytes: Seq<u8>) -> ScreenState
        decreases bytes.len(),
    {
        if bytes.len() == 0 {
            self
        } else {
            self.write_text(bytes.drop_last()).write_text_byte(bytes.last())
        }
    }

    /// The state after writing every byte of `bytes` in the given colors.
    pub open spec fn write_colored_all(self, bytes: Seq<u8>, text_color: Color, background: Color) -> ScreenState
        decreases bytes.len(),
    {
        if bytes.len() == 0 {
            self
        } else {
            self.write_colored_all(bytes.drop_last(), text_color, background).write_colored(
                bytes.last(),
                text_color,
                background,
            )
        }
    }

    /// The state with `row` blanked in the default colors.
    pub open spec fn clear_row(self, row: nat) -> ScreenState {
        ScreenState { cells: with_row_cleared(self.cells, row, self.blank()), ..self }
    }
}

/// The grid of cells, row after row, each behind a volatile access.
struct Buffer {
    chars: Vec<Volatile<ScreenChar>>,
}

/// Writes text into the grid and keeps the cursor.
pub struct Writer {
    row: usize,
    col: usize,
    text_color: Color,
    background: Color,
    buffer: Buffer,
}

impl View for Writer {
    type V = ScreenState;

    closed spec fn view(&self) -> ScreenState {
        ScreenState {
            row: self.row as nat,
            col: self.col as nat,
            text_color: self.text_color,
            background: self.background,
            cells: Seq::new(self.buffer.chars@.len(), |i: int| held(self.buffer.chars@[i])),
        }
    }
}

/// Bounds of the index of a cell within the grid.
proof fn lemma_index_bound(row: nat, col: nat)
    requires
        row < BUFFER_HEIGHT,
        col < BUFFER_WIDTH,
    ensures
        0 <= index_of(row, col) < BUFFER_SIZE,
        index_of(row, 0) + BUFFER_WIDTH <= BUFFER_SIZE,
{
    assert(row * 80 <= 24 * 80) by (nonlinear_arith)
        requires
            row <= 24,
    ;
}

impl Writer {
    /// A writer at the top left corner of a grid of blanks in the given colors.
    pub fn new(text_color: Color, background: Color) -> (r: Writer)
        ensures
            r@.wf(),
            r@.row == 0,
            r@.col == 0,
            r@.text_color == text_color,
            r@.background == background,
            r@.cells == Seq::new(BUFFER_SIZE as nat, |i: int| r@.blank()),
    {
        let blank = encode_cell(0x20, text_color, background);
        let mut chars: Vec<Volatile<ScreenChar>> = Vec::new();
        for i in 0..BUFFER_SIZE
            invariant
                chars@.len() == i,
                forall|j: int| 0 <= j < i ==> held(#[trigger] chars@[j]) == blank,
        {
            chars.push(new_cell(blank));
        }
        let r = Writer { row: 0, col: 0, text_color, background, buffer: Buffer { chars } };
        assert(r@.cells =~= Seq::new(BUFFER_SIZE as nat, |i: int| r@.blank()));
        r
    }

    /// The row of the cursor.
    pub fn row(&self) -> (r: usize)
        ensures
            r == self@.row,
    {
        self.row
    }

    /// The column of the cursor.
    pub fn col(&self) -> (r: usize)
        ensures
            r == self@.col,
    {
        self.col
    }

    /// Reads the cell at (`row`, `col`) back from the grid.
    pub fn char_at(&self, row: usize, col: usize) -> (r: ScreenChar)
        requires
            self@.wf(),
            row < BUFFER_HEIGHT,
            col < BUFFER_WIDTH,
        ensures
            r == self@.at(row as nat, col as nat),
    {
        proof {
            lemma_index_bound(row as nat, col as nat);
        }
        read_cell(&self.buffer.chars, row * BUFFER_WIDTH + col)
    }

    /// Fills `row` with spaces in the default colors.
    pub fn clear_row(&mut self, row: usize)
        requires
            old(self)@.wf(),
            row < BUFFER_HEIGHT,
        ensures
            final(self)@ == old(self)@.clear_row(row as nat),
            final(self)@.wf(),
    {
        let ghost s0 = self@;
        proof {
            lemma_index_bound(row as nat, 0);
        }
        let blank = encode_cell(0x20, self.text_color, self.background);
        let base: usize = row * BUFFER_WIDTH;
        for col in 0..BUFFER_WIDTH
            invariant
                base == index_of(row as nat, 0),
                base + BUFFER_WIDTH <= BUFFER_SIZE,
                blank == s0.blank(),
                self.row == s0.row,
                self.col == s0.col,
                self.text_color == s0.text_color,
                self.background == s0.background,
                self.buffer.chars@.len() == BUFFER_SIZE,
                forall|i: int|
                    0 <= i < BUFFER_SIZE ==> held(#[trigger] self.buffer.chars@[i]) == if base
                        <= i < base + col {
                        blank
                    } else {
                        s0.cells[i]
                    },
        {
            write_cell(&mut self.buffer.chars, base + col, blank);
        }
        assert(self@.cells =~= with_row_cleared(s0.cells, row as nat, s0.blank()));
    }

    /// Moves the cursor to the start of the next row; on the last row the
    /// grid scrolls up by one row and the last row is blanked.
    fn new_line(&mut self)
        requires
            old(self)@.wf(),
        ensures
            final(self)@ == old(self)@.new_line(),
            final(self)@.wf(),
    {
        let ghost s0 = self@;
        if self.row == BUFFER_HEIGHT - 1 {
            for i in 0..BUFFER_SIZE - BUFFER_WIDTH
                invariant
                    self.row == s0.row,
                    self.col == s0.col,
                    self.text_color == s0.text_color,
                    self.background == s0.background,
                    self.buffer.chars@.len() == BUFFER_SIZE,
                    s0.cells.len() == BUFFER_SIZE,
                    forall|j: int|
                        0 <= j < BUFFER_SIZE ==> held(#[trigger] self.buffer.chars@[j]) == if j
                            < i {
                            s0.cells[j + BUFFER_WIDTH]
                        } else {
                            s0.cells[j]
                        },
            {
                let c = read_cell(&self.buffer.chars, i + BUFFER_WIDTH);
                write_cell(&mut self.buffer.chars, i, c);
            }
            self.clear_row(BUFFER_HEIGHT - 1);
            assert(self@.cells =~= scrolled(s0.cells, s0.blank()));
        } else {
            self.row += 1;
        }
        self.col = 0;
        assert(self@.cells =~= s0.new_line().cells);
    }

    /// Writes `byte` in the given colors at the cursor; a newline breaks the
    /// line, and a full row is broken before the cell is written.
    pub fn write_colored_byte(&mut self, byte: u8, text_color: Color, background: Color)
        requires
            old(self)@.wf(),
        ensures
            final(self)@ == old(self)@.write_colored(byte, text_color, background),
            final(self)@.wf(),
    {
        let ghost s0 = self@;
        if byte == NEWLINE {
            self.new_line();
        } else {
            if self.col >= BUFFER_WIDTH {
                self.new_line();
            }
            let ghost s1 = self@;
            proof {
                lemma_index_bound(self.row as nat, self.col as nat);
            }
            let c = encode_cell(byte, text_color, background);
            write_cell(&mut self.buffer.chars, self.row * BUFFER_WIDTH + self.col, c);
            self.col += 1;
            assert(self@.cells =~= s1.cells.update(index_of(s1.row, s1.col), c));
        }
    }

    /// Writes `byte` in the default colors at the cursor.
    pub fn write_byte(&mut self, byte: u8)
        requires
            old(self)@.wf(),
        ensures
            final(self)@ == old(self)@.write(byte),
            final(self)@.wf(),
    {
        self.write_colored_byte(byte, self.text_color, self.background)
    }

    /// Writes the bytes of `s` in the default colors; a byte that is neither
    /// printable nor a newline is shown as the substitute glyph, in yellow on
    /// a red background and in red otherwise.
    pub fn write_string(&mut self, s: &str)
        requires
            old(self)@.wf(),
        ensures
            final(self)@ == old(self)@.write_text(s.spec_bytes()),
            final(self)@.wf(),
    {
        let ghost s0 = self@;
        let bytes = s.as_bytes();
        let mut i: usize = 0;
        while i < bytes.len()
            invariant
                i <= bytes@.len(),
                bytes@ == s.spec_bytes(),
                self@.wf(),
                self@ == s0.write_text(bytes@.subrange(0, i as int)),
            decreases bytes@.len() - i,
        {
            let byte = bytes[i];
            if (0x20 <= byte && byte <= 0x7e) || byte == NEWLINE {
                self.write_byte(byte);
            } else if self.background == Color::Red {
                self.write_colored_byte(SUBSTITUTE, Color::Yellow, self.background);
            } else {
                self.write_colored_byte(SUBSTITUTE, Color::Red, self.background);
            }
            assert(bytes@.subrange(0, i + 1).drop_last() =~= bytes@.subrange(0, i as int));
            i += 1;
        }
        assert(bytes@.subrange(0, bytes@.len() as int) =~= bytes@);
    }

    /// Writes every byte of `s` as it is, in the given colors.
    pub fn write_colored_string(&mut self, s: &str, text_color: Color, background: Color)
        requires
            old(self)@.wf(),
        ensures
            final(self)@ == old(self)@.write_colored_all(s.spec_bytes(), text_color, background),
            final(self)@.wf(),
    {
        let ghost s0 = self@;
        let bytes = s.as_bytes();
        let mut i: usize = 0;
        while i < bytes.len()
            invariant
                i <= bytes@.len(),
                bytes@ == s.spec_bytes(),
                self@.wf(),
                self@ == s0.write_colored_all(bytes@.subrange(0, i as int), text_color, background),
            decreases bytes@.len() - i,
        {
            self.write_colored_byte(bytes[i], text_color, background);
            assert(bytes@.subrange(0, i + 1).drop_last() =~= bytes@.subrange(0, i as int));
            i += 1;
        }
        assert(bytes@.subrange(0, bytes@.len() as int) =~= bytes@);
    }
}

/// Delivers already formatted text to `writer` in its default colors.
pub fn _print(writer: &mut Writer, text: &str)
    requires
        old(writer)@.wf(),
    ensures
        final(writer)@ == old(writer)@.write_text(text.spec_bytes()),
        final(writer)@.wf(),
{
    writer.write_string(text)
}

} // verus!
