//! The text-mode display grid and the console writer that draws on it.
use crate::color::ColorCode;
use vstd::prelude::*;
use vstd::string::StringSliceAdditionalSpecFns;
use volatile::Volatile;

verus! {

/// Number of rows of the display grid.
pub const BUFFER_HEIGHT: usize = 25;

/// Number of columns of the display grid.
pub const BUFFER_WIDTH: usize = 80;

/// The `volatile` crate's cell, whose reads and writes the compiler never
/// elides or reorders; opaque here.
#[verifier::external_type_specification]
#[verifier::external_body]
#[verifier::reject_recursive_types(T)]
pub struct ExVolatile<T: Copy>(Volatile<T>);

/// The value that a volatile cell currently holds (the one field of
/// `Volatile`, which `read` and `write` access).
pub uninterp spec fn volatile_value(v: Volatile<u16>) -> u16;

/// Relies on `Volatile::read`: a volatile read returns the value held.
#[verifier::external_body]
fn volatile_read(v: &Volatile<u16>) -> (r: u16)
    ensures
        r == volatile_value(*v),
{
    v.read()
}

/// Relies on `Volatile::write`: after a volatile write the cell holds `x`;
/// the write is a single `ptr::write_volatile` and cannot panic.
#[verifier::external_body]
fn volatile_write(v: &mut Volatile<u16>, x: u16)
    ensures
        volatile_value(*final(v)) == x,
    no_unwind
{
    v.write(x)
}

/// The display grid: row-major, one 16-bit cell per character, the
/// character in the low byte and the attribute in the high byte.
pub type Buffer = [[Volatile<u16>; BUFFER_WIDTH]; BUFFER_HEIGHT];

/// The newline byte.
pub const NEWLINE: u8 = 0x0a;

/// The space byte, drawn in blank cells.
pub const SPACE: u8 = 0x20;

/// Glyph stored in place of a byte outside the printable range.
pub const PLACEHOLDER: u8 = 0xfe;

/// One display cell: a character byte and its attribute.
#[derive(Debug, Clone, Copy, PartialEq, Eq, Structural)]
pub struct ScreenChar {
    pub ascii_character: u8,
    pub color_code: ColorCode,
}

impl ScreenChar {
    /// The 16-bit cell word: character in the low byte, attribute in the high byte.
    pub open spec fn spec_to_bits(self) -> u16 {
        (self.ascii_character + 256 * self.color_code.0) as u16
    }

    /// The cell that a 16-bit cell word holds.
    pub open spec fn spec_from_bits(v: u16) -> ScreenChar {
        ScreenChar { ascii_character: (v % 256) as u8, color_code: ColorCode((v / 256) as u8) }
    }

    /// Packs this cell into its 16-bit cell word.
    pub fn to_bits(self) -> (r: u16)
        ensures
            r == self.spec_to_bits(),
            ScreenChar::spec_from_bits(r) == self,
    {
        let a = self.ascii_character as u16;
        let c = self.color_code.0 as u16;
        let r: u16 = a + c * 256;
        assert((a + c * 256) % 256 == a && (a + c * 256) / 256 == c) by (nonlinear_arith)
            requires
                a < 256,
                c < 256,
        ;
        r
    }

    /// Unpacks a 16-bit cell word.
    pub fn from_bits(v: u16) -> (r: ScreenChar)
        ensures
            r == ScreenChar::spec_from_bits(v),
    {
        ScreenChar { ascii_character: (v % 256) as u8, color_code: ColorCode((v / 256) as u8) }
    }
}

/// A blank cell: a space in the given attribute.
pub open spec fn blank(color: ColorCode) -> ScreenChar {
    ScreenChar { ascii_character: SPACE, color_code: color }
}

/// A full row of blank cells.
pub open spec fn blank_row(color: ColorCode) -> Seq<ScreenChar> {
    Seq::new(BUFFER_WIDTH as nat, |c: int| blank(color))
}

/// Whether a byte is drawn as itself: printable ASCII or newline.
pub open spec fn is_displayable(b: u8) -> bool {
    (0x20 <= b <= 0x7e) || b == NEWLINE
}

/// The byte handed to the writer for an input byte: itself when displayable,
/// otherwise the placeholder glyph.
pub open spec fn glyph(b: u8) -> u8 {
    if is_displayable(b) {
        b
    } else {
        PLACEHOLDER
    }
}

/// The abstract state of a console writer.
pub struct Screen {
    /// The grid, `BUFFER_HEIGHT` rows of `BUFFER_WIDTH` cells.
    pub rows: Seq<Seq<ScreenChar>>,
    /// The cursor column in the bottom row.
    pub column: nat,
    /// The attribute of new cells.
    pub color: ColorCode,
}

impl Screen {
    /// `BUFFER_HEIGHT` rows of `BUFFER_WIDTH` cells, cursor within the row.
    pub open spec fn wf(self) -> bool {
        &&& self.rows.len() == BUFFER_HEIGHT
        &&& forall|r: int| 0 <= r < BUFFER_HEIGHT ==> (#[trigger] self.rows[r]).len() == BUFFER_WIDTH
        &&& self.column <= BUFFER_WIDTH
    }

    /// Every row moved up by one, the top row lost, a blank bottom row, the
    /// cursor back at column 0.
    pub open spec fn advanced(self) -> Screen {
        Screen {
            rows: Seq::new(
                BUFFER_HEIGHT as nat,
                |r: int|
                    if r < BUFFER_HEIGHT - 1 {
                        self.rows[r + 1]
                    } else {
                        blank_row(self.color)
                    },
            ),
            column: 0,
            color: self.color,
        }
    }

    /// The given row filled with blank cells of the current attribute.
    pub open spec fn cleared(self, row: int) -> Screen {
        Screen { rows: self.rows.update(row, blank_row(self.color)), ..self }
    }

    /// The cell at (`row`, `col`) replaced.
    pub open spec fn with_cell(self, row: int, col: int, c: ScreenChar) -> Screen {
        Screen { rows: self.rows.update(row, self.rows[row].update(col, c)), ..self }
    }

    /// The state after writing one byte: a newline advances a line; any other
    /// byte is stored at the cursor in the bottom row, after a line advance
    /// when the row is full, and moves the cursor right.
    pub open spec fn put(self, b: u8) -> Screen {
        if b == NEWLINE {
            self.advanced()
        } else {
            let s = if self.column >= BUFFER_WIDTH {
                self.advanced()
            } else {
                self
            };
            Screen {
                column: s.column + 1,
                ..s.with_cell(
                    BUFFER_HEIGHT - 1,
                    s.column as int,
                    ScreenChar { ascii_character: b, color_code: s.color },
                )
            }
        }
    }

    /// The state after writing the bytes in order.
    pub open spec fn put_all(self, bytes: Seq<u8>) -> Screen
        decreases bytes.len(),
    {
        if bytes.len() == 0 {
            self
        } else {
            self.put_all(bytes.drop_last()).put(bytes.last())
        }
    }
}

/// The bytes that writing `bytes` as a string hands on, one for one.
pub open spec fn glyphs(bytes: Seq<u8>) -> Seq<u8> {
    bytes.map_values(|b: u8| glyph(b))
}

/// What a display grid shows.
pub open spec fn grid_view(buffer: Buffer) -> Seq<Seq<ScreenChar>> {
    Seq::new(
        BUFFER_HEIGHT as nat,
        |r: int|
            Seq::new(
                BUFFER_WIDTH as nat,
                |c: int| ScreenChar::spec_from_bits(volatile_value(buffer@[r]@[c])),
            ),
    )
}

/// Draws text on the bottom row of a display grid, scrolling everything up
/// when a line is finished.
pub struct Writer {
    column_position: usize,
    color_code: ColorCode,
    buffer: &'static mut Buffer,
}

impl View for Writer {
    type V = Screen;

    closed spec fn view(&self) -> Screen {
        Screen {
            rows: grid_view(*self.buffer),
            // The type invariant keeps the cursor within the row; stating the
            // bound here lets the view be well formed by definition.
            column: if self.column_position <= BUFFER_WIDTH {
                self.column_position as nat
            } else {
                BUFFER_WIDTH as nat
            },
            color: self.color_code,
        }
    }
}

impl Writer {
    #[verifier::type_invariant]
    spec fn cursor_in_row(&self) -> bool {
        self.column_position <= BUFFER_WIDTH
    }

    /// A writer over `buffer`, drawing in `color_code`, cursor at column 0.
    pub fn new(color_code: ColorCode, buffer: &'static mut Buffer) -> (r: Writer)
        ensures
            r@ == (Screen { rows: grid_view(*old(buffer)), column: 0, color: color_code }),
            r@.wf(),
    {
        Writer { column_position: 0, color_code, buffer }
    }

    /// The state of a writer is always well formed: `BUFFER_HEIGHT` rows of
    /// `BUFFER_WIDTH` cells and the cursor within the row.
    pub proof fn lemma_wf(&self)
        ensures
            self@.wf(),
    {
    }

    /// The cursor column in the bottom row.
    pub fn column_position(&self) -> (r: usize)
        ensures
            r == self@.column,
            r <= BUFFER_WIDTH,
    {
        proof {
            use_type_invariant(self);
        }
        self.column_position
    }

    /// The attribute of newly written cells.
    pub fn color_code(&self) -> (r: ColorCode)
        ensures
            r == self@.color,
    {
        self.color_code
    }

    /// The cell at (`row`, `col`).
    pub fn read_cell(&self, row: usize, col: usize) -> (r: ScreenChar)
        requires
            row < BUFFER_HEIGHT,
            col < BUFFER_WIDTH,
        ensures
            r == self@.rows[row as int][col as int],
    {
        ScreenChar::from_bits(volatile_read(&self.buffer[row][col]))
    }

    /// Stores `c` at (`row`, `col`).
    fn write_cell(&mut self, row: usize, col: usize, c: ScreenChar)
        requires
            row < BUFFER_HEIGHT,
            col < BUFFER_WIDTH,
        ensures
            final(self)@ == old(self)@.with_cell(row as int, col as int, c),
    {
        proof {
            use_type_invariant(&*self);
        }
        let bits = c.to_bits();
        volatile_write(&mut self.buffer[row][col], bits);
        assert(final(self)@.rows =~~= old(self)@.with_cell(row as int, col as int, c).rows);
    }

    /// Writes one byte: a newline advances a line; any other byte is stored
    /// at the cursor in the bottom row, after a line advance when the row is
    /// full, and the cursor moves right.
    pub fn write_byte(&mut self, byte: u8)
        ensures
            final(self)@ == old(self)@.put(byte),
            final(self)@.wf(),
    {
        if byte == NEWLINE {
            self.new_line();
        } else {
            if self.column_position >= BUFFER_WIDTH {
                self.new_line();
            }
            let row = BUFFER_HEIGHT - 1;
            let col = self.column_position;
            let color_code = self.color_code;
            self.write_cell(row, col, ScreenChar { ascii_character: byte, color_code });
            self.column_position += 1;
        }
    }

    /// Moves every row up by one, losing the top row, blanks the bottom row
    /// and puts the cursor back at column 0.
    pub fn new_line(&mut self)
        ensures
            final(self)@ == old(self)@.advanced(),
            final(self)@.wf(),
    {
        let mut row: usize = 1;
        while row < BUFFER_HEIGHT
            invariant
                1 <= row <= BUFFER_HEIGHT,
                self@.column == old(self)@.column,
                self@.color == old(self)@.color,
                self@.rows.len() == BUFFER_HEIGHT,
                forall|r: int| 0 <= r < BUFFER_HEIGHT ==> #[trigger] self@.rows[r].len() == BUFFER_WIDTH,
                forall|r: int| 0 <= r < row - 1 ==> #[trigger] self@.rows[r] == old(self)@.rows[r + 1],
                forall|r: int| row - 1 <= r < BUFFER_HEIGHT ==> #[trigger] self@.rows[r] == old(self)@.rows[r],
            decreases BUFFER_HEIGHT - row,
        {
            let mut col: usize = 0;
            while col < BUFFER_WIDTH
                invariant
                    1 <= row < BUFFER_HEIGHT,
                    col <= BUFFER_WIDTH,
                    self@.column == old(self)@.column,
                    self@.color == old(self)@.color,
                    self@.rows.len() == BUFFER_HEIGHT,
                    forall|r: int| 0 <= r < BUFFER_HEIGHT ==> #[trigger] self@.rows[r].len() == BUFFER_WIDTH,
                    forall|r: int| 0 <= r < row - 1 ==> #[trigger] self@.rows[r] == old(self)@.rows[r + 1],
                    forall|r: int| row <= r < BUFFER_HEIGHT ==> #[trigger] self@.rows[r] == old(self)@.rows[r],
                    forall|c: int| 0 <= c < col ==> #[trigger] self@.rows[row - 1][c] == old(self)@.rows[row as int][c],
                    forall|c: int| col <= c < BUFFER_WIDTH ==> #[trigger] self@.rows[row - 1][c] == old(self)@.rows[row - 1][c],
                decreases BUFFER_WIDTH - col,
            {
                let character = self.read_cell(row, col);
                self.write_cell(row - 1, col, character);
                col += 1;
            }
            assert(self@.rows[row - 1] =~= old(self)@.rows[row as int]);
            row += 1;
        }
        self.clear_row(BUFFER_HEIGHT - 1);
        self.column_position = 0;
        assert(self@.rows =~= old(self)@.advanced().rows);
    }

    /// Fills every column of `row` with a blank cell in the current attribute.
    pub fn clear_row(&mut self, row: usize)
        requires
            row < BUFFER_HEIGHT,
        ensures
            final(self)@ == old(self)@.cleared(row as int),
            final(self)@.wf(),
            forall|c: int|
                0 <= c < BUFFER_WIDTH ==> final(self)@.rows[row as int][c] == (ScreenChar {
                    ascii_character: SPACE,
                    color_code: old(self)@.color,
                }),
    {
        let blank = ScreenChar { ascii_character: SPACE, color_code: self.color_code };
        let mut col: usize = 0;
        while col < BUFFER_WIDTH
            invariant
                row < BUFFER_HEIGHT,
                col <= BUFFER_WIDTH,
                blank == crate::vga_buffer::blank(old(self)@.color),
                self@.column == old(self)@.column,
                self@.color == old(self)@.color,
                self@.rows.len() == BUFFER_HEIGHT,
                forall|r: int| 0 <= r < BUFFER_HEIGHT ==> #[trigger] self@.rows[r].len() == BUFFER_WIDTH,
                forall|r: int| 0 <= r < BUFFER_HEIGHT && r != row ==> #[trigger] self@.rows[r] == old(self)@.rows[r],
                forall|c: int| 0 <= c < col ==> #[trigger] self@.rows[row as int][c] == blank,
                forall|c: int| col <= c < BUFFER_WIDTH ==> #[trigger] self@.rows[row as int][c] == old(self)@.rows[row as int][c],
            decreases BUFFER_WIDTH - col,
        {
            self.write_cell(row, col, blank);
            col += 1;
        }
        proof {
            use_type_invariant(&*self);
        }
        assert(self@.rows[row as int] =~= blank_row(old(self)@.color));
        assert(self@.rows =~= old(self)@.cleared(row as int).rows);
    }

    /// Writes the bytes of `s` in order; a byte that is neither printable
    /// ASCII nor a newline is written as the placeholder glyph.
    pub fn write_string(&mut self, s: &str)
        ensures
            final(self)@ == old(self)@.put_all(glyphs(s.spec_bytes())),
            final(self)@.wf(),
    {
        let bytes = s.as_bytes();
        let mut i: usize = 0;
        while i < bytes.len()
            invariant
                i <= bytes@.len(),
                bytes@ == s.spec_bytes(),
                self@ == old(self)@.put_all(glyphs(bytes@.take(i as int))),
            decreases bytes@.len() - i,
        {
            let byte = bytes[i];
            if (0x20 <= byte && byte <= 0x7e) || byte == NEWLINE {
                self.write_byte(byte);
            } else {
                self.write_byte(PLACEHOLDER);
            }
            assert(glyphs(bytes@.take(i + 1)).drop_last() =~= glyphs(bytes@.take(i as int)));
            i += 1;
        }
        proof {
            use_type_invariant(&*self);
        }
        assert(bytes@.take(bytes@.len() as int) =~= bytes@);
    }
}

/// `core::fmt::Error`, the error of `core::fmt::Result`; opaque here.
#[verifier::external_type_specification]
#[verifier::external_body]
pub struct ExFmtError(core::fmt::Error);

/// Lets formatting macros print through the writer; writing never fails.
impl core::fmt::Write for Writer {
    fn write_str(&mut self, s: &str) -> core::fmt::Result {
        self.write_string(s);
        Ok(())
    }
}

} // verus!
