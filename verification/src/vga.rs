//! The text console: what the 80 by 25 cells of the VGA text buffer hold.
//!
//! A [`Screen`] is the buffer's content as a value. Everything here changes a
//! `Screen`; copying it to video memory is left to the caller.

use vstd::prelude::*;

verus! {

/// Cells in a row.
pub const BUFFER_WIDTH: usize = 80;

/// Rows on the screen.
pub const BUFFER_HEIGHT: usize = 25;

/// Cells on the screen.
pub const BUFFER_CELLS: usize = 2000;

/// The blank character.
pub const BLANK: u8 = 0x20;

/// The line feed character.
pub const NEWLINE: u8 = 0x0a;

/// The sixteen colors of text mode.
#[derive(Clone, Copy, Debug, PartialEq, Eq, Structural)]
pub enum Color {
    Black,
    Blue,
    Green,
    Cyan,
    Red,
    Magenta,
    Brown,
    Gray,
    DarkGray,
    LightBlue,
    LightGreen,
    LightCyan,
    LightRed,
    LightMagenta,
    Yellow,
    White,
}

impl Color {
    /// The number of the color, 0 to 15.
    pub open spec fn spec_code(self) -> u8 {
        match self {
            Color::Black => 0,
            Color::Blue => 1,
            Color::Green => 2,
            Color::Cyan => 3,
            Color::Red => 4,
            Color::Magenta => 5,
            Color::Brown => 6,
            Color::Gray => 7,
            Color::DarkGray => 8,
            Color::LightBlue => 9,
            Color::LightGreen => 10,
            Color::LightCyan => 11,
            Color::LightRed => 12,
            Color::LightMagenta => 13,
            Color::Yellow => 14,
            Color::White => 15,
        }
    }

    /// The number of the color, 0 to 15.
    pub fn code(self) -> (code: u8)
        ensures
            code == self.spec_code(),
            code < 16,
    {
        match self {
            Color::Black => 0,
            Color::Blue => 1,
            Color::Green => 2,
            Color::Cyan => 3,
            Color::Red => 4,
            Color::Magenta => 5,
            Color::Brown => 6,
            Color::Gray => 7,
            Color::DarkGray => 8,
            Color::LightBlue => 9,
            Color::LightGreen => 10,
            Color::LightCyan => 11,
            Color::LightRed => 12,
            Color::LightMagenta => 13,
            Color::Yellow => 14,
            Color::White => 15,
        }
    }
}

/// The color byte of a cell: the background in the high four bits, the
/// foreground in the low four.
#[derive(Clone, Copy, Debug, PartialEq, Eq, Structural)]
pub struct ColorAttribute(pub u8);

/// The color byte for foreground `fg` on background `bg`.
pub open spec fn attribute(fg: Color, bg: Color) -> ColorAttribute {
    ColorAttribute((bg.spec_code() * 16 + fg.spec_code()) as u8)
}

impl From<(Color, Color)> for ColorAttribute {
    fn from(colors: (Color, Color)) -> (attr: ColorAttribute) {
        let fg = colors.0.code();
        let bg = colors.1.code();
        assert((bg << 4 | fg) == bg * 16 + fg) by (bit_vector)
            requires
                fg < 16,
                bg < 16,
        ;
        ColorAttribute(bg << 4 | fg)
    }
}

impl vstd::std_specs::convert::FromSpecImpl<(Color, Color)> for ColorAttribute {
    open spec fn obeys_from_spec() -> bool {
        true
    }

    open spec fn from_spec(colors: (Color, Color)) -> ColorAttribute {
        attribute(colors.0, colors.1)
    }
}

/// One cell: a character of code page 437 and its colors.
#[derive(Clone, Copy, Debug, PartialEq, Eq, Structural)]
pub struct ScreenCharacter {
    pub character: u8,
    pub color: ColorAttribute,
}

/// The cell that shows `character` in `fg` on `bg`.
pub open spec fn glyph(character: u8, fg: Color, bg: Color) -> ScreenCharacter {
    ScreenCharacter { character, color: attribute(fg, bg) }
}

/// The place of the cell in row `row` and column `col`.
pub open spec fn cell_index(row: int, col: int) -> int {
    row * BUFFER_WIDTH + col
}

/// The content of the text buffer: its cells row by row. The view is the
/// sequence of the 2000 cells.
pub struct Screen {
    cells: [ScreenCharacter; 2000],
}

impl View for Screen {
    type V = Seq<ScreenCharacter>;

    closed spec fn view(&self) -> Seq<ScreenCharacter> {
        self.cells@
    }
}

/// A screen of blanks on `bg`.
pub open spec fn filled(bg: Color) -> Seq<ScreenCharacter> {
    Seq::new(BUFFER_CELLS as nat, |i: int| glyph(BLANK, Color::White, bg))
}

/// A screen one line further: every row holds what the row below held, and
/// the last row is blank, in the colors its last cell but one had.
pub open spec fn scrolled(cells: Seq<ScreenCharacter>) -> Seq<ScreenCharacter> {
    Seq::new(
        BUFFER_CELLS as nat,
        |i: int|
            if i < BUFFER_CELLS - BUFFER_WIDTH {
                cells[i + BUFFER_WIDTH]
            } else {
                ScreenCharacter { character: BLANK, color: cells[BUFFER_CELLS - 2].color }
            },
    )
}

/// A screen `lines` lines further.
pub open spec fn scrolled_by(cells: Seq<ScreenCharacter>, lines: nat) -> Seq<ScreenCharacter>
    decreases lines,
{
    if lines == 0 {
        cells
    } else {
        scrolled_by(scrolled(cells), (lines - 1) as nat)
    }
}

impl Screen {
    /// A screen of blanks on white.
    pub fn new() -> (screen: Screen)
        ensures
            screen@ == filled(Color::White),
    {
        let blank = ScreenCharacter {
            character: BLANK,
            color: ColorAttribute::from((Color::White, Color::White)),
        };
        let screen = Screen { cells: [blank;2000] };
        assert(screen@ =~= filled(Color::White));
        screen
    }

    /// The cell in row `row` and column `col`; `None` outside the screen.
    pub fn cell(&self, row: usize, col: usize) -> (cell: Option<ScreenCharacter>)
        ensures
            self@.len() == BUFFER_CELLS,
            cell == if row < BUFFER_HEIGHT && col < BUFFER_WIDTH {
                Some(self@[cell_index(row as int, col as int)])
            } else {
                None
            },
    {
        if row < BUFFER_HEIGHT && col < BUFFER_WIDTH {
            assert(row * BUFFER_WIDTH + col < BUFFER_CELLS) by (nonlinear_arith)
                requires
                    row < BUFFER_HEIGHT,
                    col < BUFFER_WIDTH,
            ;
            Some(self.cells[row * BUFFER_WIDTH + col])
        } else {
            None
        }
    }

    /// Moves every line up by one and blanks the last.
    fn scroll_line(&mut self)
        ensures
            final(self)@ == scrolled(old(self)@),
    {
        let mut i: usize = 0;
        while i < BUFFER_CELLS - BUFFER_WIDTH
            invariant
                i <= BUFFER_CELLS - BUFFER_WIDTH,
                self@.len() == BUFFER_CELLS,
                forall|j: int| 0 <= j < i ==> #[trigger] self@[j] == old(self)@[j + BUFFER_WIDTH],
                forall|j: int| i <= j < BUFFER_CELLS ==> #[trigger] self@[j] == old(self)@[j],
            decreases BUFFER_CELLS - i,
        {
            self.cells[i] = self.cells[i + BUFFER_WIDTH];
            i += 1;
        }
        let color = self.cells[(BUFFER_HEIGHT - 2) * BUFFER_WIDTH + BUFFER_WIDTH - 2].color;
        let mut col: usize = 0;
        while col < BUFFER_WIDTH
            invariant
                col <= BUFFER_WIDTH,
                self@.len() == BUFFER_CELLS,
                color == old(self)@[BUFFER_CELLS - 2].color,
                forall|j: int|
                    0 <= j < BUFFER_CELLS - BUFFER_WIDTH ==> #[trigger] self@[j] == old(self)@[j
                        + BUFFER_WIDTH],
                forall|j: int|
                    BUFFER_CELLS - BUFFER_WIDTH <= j < BUFFER_CELLS - BUFFER_WIDTH + col
                        ==> #[trigger] self@[j] == (ScreenCharacter { character: BLANK, color }),
            decreases BUFFER_WIDTH - col,
        {
            self.cells[(BUFFER_HEIGHT - 1) * BUFFER_WIDTH + col] = ScreenCharacter {
                character: BLANK,
                color,
            };
            col += 1;
        }
        assert(self@ =~= scrolled(old(self)@));
    }
}

/// Scrolls the screen by `count + 1` lines.
pub fn scroll(screen: &mut Screen, count: u8)
    ensures
        final(screen)@ == scrolled_by(old(screen)@, (count + 1) as nat),
    decreases count,
{
    screen.scroll_line();
    if count > 0 {
        scroll(screen, count - 1);
    }
    assert(scrolled_by(old(screen)@, (count + 1) as nat) == scrolled_by(
        scrolled(old(screen)@),
        count as nat,
    ));
}

/// Fills the screen with blanks on `bg`.
pub fn fill(screen: &mut Screen, bg: Color)
    ensures
        final(screen)@ == filled(bg),
{
    let sc = ScreenCharacter { character: BLANK, color: ColorAttribute::from((Color::White, bg)) };
    let mut i: usize = 0;
    while i < BUFFER_CELLS
        invariant
            i <= BUFFER_CELLS,
            screen@.len() == BUFFER_CELLS,
            sc == glyph(BLANK, Color::White, bg),
            forall|j: int| 0 <= j < i ==> #[trigger] screen@[j] == sc,
        decreases BUFFER_CELLS - i,
    {
        screen.cells[i] = sc;
        i += 1;
    }
    assert(screen@ =~= filled(bg));
}

/// Clears the screen: blanks on white.
pub fn clear(screen: &mut Screen)
    ensures
        final(screen)@ == filled(Color::White),
{
    fill(screen, Color::White);
}

/// The cursor of the console.
#[derive(Clone, Copy, Debug, PartialEq, Eq, Structural)]
pub struct Printer {
    /// The column the next character goes to; `BUFFER_WIDTH` when the line
    /// is full.
    pub col: usize,
    /// The row the next character goes to.
    pub row: usize,
}

/// The cursor and the screen after a print.
pub struct Printed {
    pub col: int,
    pub row: int,
    pub cells: Seq<ScreenCharacter>,
}

/// The cursor and the screen after `character` was printed in `fg` on `bg`.
///
/// A line feed moves the cursor to the start of the next row and prints
/// nothing. Any other character first wraps a full line to the next row and
/// then goes to the cell under the cursor, which moves one to the right.
/// Before anything is written a cursor below the last row scrolls the screen
/// by one line and moves up to the last row.
pub open spec fn printed(before: Printed, character: u8, fg: Color, bg: Color) -> Printed {
    let newline = character == NEWLINE;
    let wrap = !newline && before.col == BUFFER_WIDTH;
    let col = if newline || wrap {
        0
    } else {
        before.col
    };
    let row = if newline || wrap {
        before.row + 1
    } else {
        before.row
    };
    let scrolls = row == BUFFER_HEIGHT;
    let row = if scrolls {
        row - 1
    } else {
        row
    };
    let cells = if scrolls {
        scrolled(before.cells)
    } else {
        before.cells
    };
    if newline {
        Printed { col, row, cells }
    } else {
        Printed {
            col: col + 1,
            row,
            cells: cells.update(cell_index(row, col), glyph(character, fg, bg)),
        }
    }
}

/// The cursor and the screen after the first `n` of `bytes` were printed.
pub open spec fn printed_all(before: Printed, bytes: Seq<u8>, n: nat, fg: Color, bg: Color) -> Printed
    decreases n,
{
    if n == 0 {
        before
    } else {
        printed(printed_all(before, bytes, (n - 1) as nat, fg, bg), bytes[n - 1], fg, bg)
    }
}

/// The low bytes of the characters of a string.
pub open spec fn low_bytes(chars: Seq<char>) -> Seq<u8> {
    Seq::new(chars.len(), |i: int| ((chars[i] as u32) % 256) as u8)
}

impl Printer {
    /// Whether the cursor is on the screen or just past the end of a line.
    pub open spec fn on_screen(self) -> bool {
        self.col <= BUFFER_WIDTH && self.row < BUFFER_HEIGHT
    }

    /// The cursor together with a screen.
    pub open spec fn with(self, cells: Seq<ScreenCharacter>) -> Printed {
        Printed { col: self.col as int, row: self.row as int, cells }
    }

    /// A cursor in the top left corner.
    pub fn new() -> (printer: Printer)
        ensures
            printer == (Printer { col: 0, row: 0 }),
            printer.on_screen(),
    {
        Printer { row: 0, col: 0 }
    }

    /// Whether the cursor is on the screen or just past the end of a line.
    /// Printing needs such a cursor.
    pub fn is_on_screen(&self) -> (yes: bool)
        ensures
            yes == self.on_screen(),
    {
        self.col <= BUFFER_WIDTH && self.row < BUFFER_HEIGHT
    }

    /// Prints one character of code page 437 in `fg` on `bg`.
    pub fn print_byte(&mut self, screen: &mut Screen, character: u8, fg: Color, bg: Color)
        requires
            old(self).on_screen(),
        ensures
            final(self).on_screen(),
            final(self).with(final(screen)@) == printed(
                old(self).with(old(screen)@),
                character,
                fg,
                bg,
            ),
    {
        if character == NEWLINE {
            self.row += 1;
            self.col = 0;
        }
        if self.col == BUFFER_WIDTH {
            self.col = 0;
            self.row += 1;
        }
        if self.row == BUFFER_HEIGHT {
            scroll(screen, 0);
            assert(scrolled_by(old(screen)@, 1) == scrolled(old(screen)@)) by {
                reveal_with_fuel(scrolled_by, 2);
            }
            self.row -= 1;
        }
        if character == NEWLINE {
            return ;
        }
        let sc = ScreenCharacter { color: ColorAttribute::from((fg, bg)), character };
        assert(self.row * BUFFER_WIDTH + self.col < BUFFER_CELLS) by (nonlinear_arith)
            requires
                self.row < BUFFER_HEIGHT,
                self.col < BUFFER_WIDTH,
        ;
        screen.cells[self.row * BUFFER_WIDTH + self.col] = sc;
        self.col += 1;
    }

    /// Prints the characters of a string in `fg` on `bg`, each cut down to
    /// its low byte.
    pub fn print_chars(&mut self, screen: &mut Screen, characters: &str, fg: Color, bg: Color)
        requires
            old(self).on_screen(),
        ensures
            final(self).on_screen(),
            final(self).with(final(screen)@) == printed_all(
                old(self).with(old(screen)@),
                low_bytes(characters@),
                characters@.len(),
                fg,
                bg,
            ),
    {
        let n = characters.unicode_len();
        let mut i: usize = 0;
        while i < n
            invariant
                i <= n,
                n == characters@.len(),
                self.on_screen(),
                self.with(screen@) == printed_all(
                    old(self).with(old(screen)@),
                    low_bytes(characters@),
                    i as nat,
                    fg,
                    bg,
                ),
            decreases n - i,
        {
            let c = characters.get_char(i);
            self.print_byte(screen, ((c as u32) % 256) as u8, fg, bg);
            i += 1;
        }
    }
}

impl Printer {
    /// Prints a string in black on white.
    pub fn write_str(&mut self, screen: &mut Screen, s: &str)
        requires
            old(self).on_screen(),
        ensures
            final(self).on_screen(),
            final(self).with(final(screen)@) == printed_all(
                old(self).with(old(screen)@),
                low_bytes(s@),
                s@.len(),
                Color::Black,
                Color::White,
            ),
    {
        self.print_chars(screen, s, Color::Black, Color::White);
    }
}

impl Printer {
    /// Takes the character before the cursor off the screen: moves one
    /// column back and puts a blank there, black on white. Does nothing and
    /// returns `false` at the start of a line.
    pub fn erase(&mut self, screen: &mut Screen) -> (done: bool)
        requires
            old(self).on_screen(),
        ensures
            final(self).on_screen(),
            done == (old(self).col > 0),
            done ==> {
                &&& final(self).row == old(self).row
                &&& final(self).col == old(self).col - 1
                &&& final(screen)@ == old(screen)@.update(
                    cell_index(old(self).row as int, old(self).col - 1),
                    glyph(BLANK, Color::Black, Color::White),
                )
            },
            !done ==> *final(self) == *old(self) && final(screen)@ == old(screen)@,
    {
        if self.col == 0 {
            return false;
        }
        self.col -= 1;
        self.print_byte(screen, BLANK, Color::Black, Color::White);
        self.col -= 1;
        true
    }
}

/// A cursor that prints in colors of its own.
#[derive(Clone, Copy, Debug, PartialEq, Eq, Structural)]
pub struct ColoredPrinter {
    pub printer: Printer,
    pub fg: Color,
    pub bg: Color,
}

impl ColoredPrinter {
    /// A cursor in column `x` of row `y` that prints in `fg` on `bg`.
    pub fn new(x: usize, y: usize, fg: Color, bg: Color) -> (colored: ColoredPrinter)
        ensures
            colored == (ColoredPrinter { printer: Printer { col: x, row: y }, fg, bg }),
    {
        ColoredPrinter { printer: Printer { row: y, col: x }, fg, bg }
    }

    /// Prints a string in the cursor's colors.
    pub fn write_str(&mut self, screen: &mut Screen, s: &str)
        requires
            old(self).printer.on_screen(),
        ensures
            final(self).printer.on_screen(),
            final(self).fg == old(self).fg,
            final(self).bg == old(self).bg,
            final(self).printer.with(final(screen)@) == printed_all(
                old(self).printer.with(old(screen)@),
                low_bytes(s@),
                s@.len(),
                old(self).fg,
                old(self).bg,
            ),
    {
        let fg = self.fg;
        let bg = self.bg;
        self.printer.print_chars(screen, s, fg, bg);
    }
}

/// Where `print_at` stands after the first `n` of `bytes`, as column and
/// row, having started in column `x` of row `y`. A line feed leads to column
/// `x` of the next row, any other byte one column to the right.
pub open spec fn cursor_at(x: int, y: int, bytes: Seq<u8>, n: nat) -> (int, int)
    decreases n,
{
    if n == 0 {
        (x, y)
    } else {
        let at = cursor_at(x, y, bytes, (n - 1) as nat);
        if bytes[n - 1] == NEWLINE {
            (x, at.1 + 1)
        } else {
            (at.0 + 1, at.1)
        }
    }
}

/// Whether `byte` can be taken at the place `at`: a line feed needs a next
/// row to count to, any other byte a cell on the screen.
pub open spec fn byte_fits(at: (int, int), byte: u8) -> bool {
    if byte == NEWLINE {
        at.1 < usize::MAX
    } else {
        0 <= at.0 < BUFFER_WIDTH && 0 <= at.1 < BUFFER_HEIGHT
    }
}

/// Whether `print_at` stays on the screen with `bytes` from column `x` of
/// row `y`.
pub open spec fn fits(x: int, y: int, bytes: Seq<u8>) -> bool {
    forall|n: nat| n < bytes.len() ==> byte_fits(#[trigger] cursor_at(x, y, bytes, n), bytes[n as int])
}

/// The screen after `print_at` wrote the first `n` of `bytes`.
pub open spec fn placed(
    cells: Seq<ScreenCharacter>,
    x: int,
    y: int,
    bytes: Seq<u8>,
    n: nat,
    fg: Color,
    bg: Color,
) -> Seq<ScreenCharacter>
    decreases n,
{
    if n == 0 {
        cells
    } else {
        let before = placed(cells, x, y, bytes, (n - 1) as nat, fg, bg);
        let at = cursor_at(x, y, bytes, (n - 1) as nat);
        if bytes[n - 1] == NEWLINE {
            before
        } else {
            before.update(cell_index(at.1, at.0), glyph(bytes[n - 1], fg, bg))
        }
    }
}

/// Whether `print_at` stays on the screen with `bytes` from column `x` of
/// row `y`.
pub fn print_at_fits(x: usize, y: usize, bytes: &[u8]) -> (yes: bool)
    ensures
        yes == fits(x as int, y as int, bytes@),
{
    let mut col = x;
    let mut row = y;
    let mut n: usize = 0;
    while n < bytes.len()
        invariant
            n <= bytes@.len(),
            (col as int, row as int) == cursor_at(x as int, y as int, bytes@, n as nat),
            forall|k: nat|
                k < n ==> byte_fits(#[trigger] cursor_at(x as int, y as int, bytes@, k), bytes@[k as int]),
        decreases bytes@.len() - n,
    {
        let byte = bytes[n];
        if byte == NEWLINE {
            if row == usize::MAX {
                assert(!byte_fits(cursor_at(x as int, y as int, bytes@, n as nat), bytes@[n as int]));
                return false;
            }
            row += 1;
            col = x;
        } else {
            if col >= BUFFER_WIDTH || row >= BUFFER_HEIGHT {
                assert(!byte_fits(cursor_at(x as int, y as int, bytes@, n as nat), bytes@[n as int]));
                return false;
            }
            col += 1;
        }
        n += 1;
    }
    true
}

/// Writes `bytes` in `fg` on `bg`, starting in column `x` of row `y`. A line
/// feed leads to column `x` of the next row. Nothing wraps and nothing
/// scrolls: the bytes have to fit.
pub fn print_at(screen: &mut Screen, x: usize, y: usize, bytes: &[u8], fg: Color, bg: Color)
    requires
        fits(x as int, y as int, bytes@),
    ensures
        final(screen)@ == placed(old(screen)@, x as int, y as int, bytes@, bytes@.len(), fg, bg),
{
    let x_init = x;
    let mut x = x_init;
    let mut y = y;
    let ghost y_init = y;
    let mut n: usize = 0;
    while n < bytes.len()
        invariant
            n <= bytes@.len(),
            fits(x_init as int, y_init as int, bytes@),
            screen@.len() == BUFFER_CELLS,
            old(screen)@.len() == BUFFER_CELLS,
            (x as int, y as int) == cursor_at(x_init as int, y_init as int, bytes@, n as nat),
            screen@ == placed(old(screen)@, x_init as int, y_init as int, bytes@, n as nat, fg, bg),
        decreases bytes@.len() - n,
    {
        let byte = bytes[n];
        assert(byte_fits(cursor_at(x_init as int, y_init as int, bytes@, n as nat), bytes@[n as int]));
        if byte == NEWLINE {
            y += 1;
            x = x_init;
            n += 1;
            continue ;
        }
        let sc = ScreenCharacter { color: ColorAttribute::from((fg, bg)), character: byte };
        assert(y * BUFFER_WIDTH + x < BUFFER_CELLS) by (nonlinear_arith)
            requires
                y < BUFFER_HEIGHT,
                x < BUFFER_WIDTH,
        ;
        screen.cells[y * BUFFER_WIDTH + x] = sc;
        x += 1;
        n += 1;
    }
}

} // verus!
