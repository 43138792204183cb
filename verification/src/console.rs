//! The VGA text console: a grid of `WIDTH` by `HEIGHT` character cells with a cursor.
//!
//! The screen contents and the cursor position registers are held as plain values in
//! `VgaBuffer`, which the `Writer` owns.

use vstd::prelude::*;
use vstd::string::StrSliceExecFns;

verus! {

/// Console width in characters.
pub const WIDTH: usize = 80;
/// Console height in characters.
pub const HEIGHT: usize = 25;
/// The total console size in characters, defined as `WIDTH * HEIGHT`.
pub const SIZE: usize = WIDTH * HEIGHT;

/// Text color for characters and background shown on the console.
#[derive(Clone, Copy, PartialEq, Eq, Structural, Debug)]
pub enum Color {
    Black,
    Blue,
    Green,
    Cyan,
    Red,
    Magenta,
    Brown,
    LightGray,
    Gray,
    LightBlue,
    LightGreen,
    LightCyan,
    LightRed,
    Pink,
    Yellow,
    White,
}

/// The 4-bit VGA code of a color.
pub open spec fn color_code(c: Color) -> u8 {
    match c {
        Color::Black => 0,
        Color::Blue => 1,
        Color::Green => 2,
        Color::Cyan => 3,
        Color::Red => 4,
        Color::Magenta => 5,
        Color::Brown => 6,
        Color::LightGray => 7,
        Color::Gray => 8,
        Color::LightBlue => 9,
        Color::LightGreen => 10,
        Color::LightCyan => 11,
        Color::LightRed => 12,
        Color::Pink => 13,
        Color::Yellow => 14,
        Color::White => 15,
    }
}

impl Color {
    /// Returns the 4-bit VGA code of this color.
    pub fn as_u8(&self) -> (r: u8)
        ensures
            r == color_code(*self),
            r < 16,
    {
        match self {
            Color::Black => 0,
            Color::Blue => 1,
            Color::Green => 2,
            Color::Cyan => 3,
            Color::Red => 4,
            Color::Magenta => 5,
            Color::Brown => 6,
            Color::LightGray => 7,
            Color::Gray => 8,
            Color::LightBlue => 9,
            Color::LightGreen => 10,
            Color::LightCyan => 11,
            Color::LightRed => 12,
            Color::Pink => 13,
            Color::Yellow => 14,
            Color::White => 15,
        }
    }
}

/// The color with VGA code `val`, or `val` itself as the error when it is 16 or more.
pub open spec fn color_from_code(val: u8) -> Result<Color, u8> {
    if val == 0 {
        Ok(Color::Black)
    } else if val == 1 {
        Ok(Color::Blue)
    } else if val == 2 {
        Ok(Color::Green)
    } else if val == 3 {
        Ok(Color::Cyan)
    } else if val == 4 {
        Ok(Color::Red)
    } else if val == 5 {
        Ok(Color::Magenta)
    } else if val == 6 {
        Ok(Color::Brown)
    } else if val == 7 {
        Ok(Color::LightGray)
    } else if val == 8 {
        Ok(Color::Gray)
    } else if val == 9 {
        Ok(Color::LightBlue)
    } else if val == 10 {
        Ok(Color::LightGreen)
    } else if val == 11 {
        Ok(Color::LightCyan)
    } else if val == 12 {
        Ok(Color::LightRed)
    } else if val == 13 {
        Ok(Color::Pink)
    } else if val == 14 {
        Ok(Color::Yellow)
    } else if val == 15 {
        Ok(Color::White)
    } else {
        Err(val)
    }
}

impl TryFrom<u8> for Color {
    type Error = u8;

    fn try_from(val: u8) -> (r: Result<Self, Self::Error>) {
        match val {
            0 => Ok(Color::Black),
            1 => Ok(Color::Blue),
            2 => Ok(Color::Green),
            3 => Ok(Color::Cyan),
            4 => Ok(Color::Red),
            5 => Ok(Color::Magenta),
            6 => Ok(Color::Brown),
            7 => Ok(Color::LightGray),
            8 => Ok(Color::Gray),
            9 => Ok(Color::LightBlue),
            10 => Ok(Color::LightGreen),
            11 => Ok(Color::LightCyan),
            12 => Ok(Color::LightRed),
            13 => Ok(Color::Pink),
            14 => Ok(Color::Yellow),
            15 => Ok(Color::White),
            _ => Err(val),
        }
    }
}

impl vstd::std_specs::convert::TryFromSpecImpl<u8> for Color {
    open spec fn obeys_try_from_spec() -> bool {
        true
    }

    open spec fn try_from_spec(v: u8) -> Result<Self, Self::Error> {
        color_from_code(v)
    }
}

/// Converting a color to its code and back gives the same color, and every code below 16 is
/// the code of the color it converts to.
pub proof fn lemma_color_roundtrip(c: Color, val: u8)
    ensures
        color_from_code(color_code(c)) == Ok::<Color, u8>(c),
        val < 16 ==> (color_from_code(val) matches Ok(d) && color_code(d) == val),
        val >= 16 ==> color_from_code(val) == Err::<Color, u8>(val),
{
}


/// One character cell: the character byte and its color attributes (text color in the low four
/// bits, background color in the high four bits).
#[derive(Clone, Copy, PartialEq, Eq, Structural, Debug)]
pub struct VgaChar {
    pub char: u8,
    pub attrs: u8,
}

/// The contents of the text buffer and the value held by the cursor location registers.
pub struct VgaBuffer {
    chars: Vec<VgaChar>,
    cursor: u16,
}

/// Everything the console shows and remembers: the writer's position and attributes, the
/// character cells and the cursor registers.
#[verifier::ext_equal]
pub struct ConsoleView {
    pub position: usize,
    pub attrs: u8,
    pub chars: Seq<VgaChar>,
    pub cursor: u16,
}

/// An empty cell drawn with attributes `attrs`.
pub open spec fn blank(attrs: u8) -> VgaChar {
    VgaChar { char: 0, attrs }
}

/// The cells after scrolling up one line: every line takes the contents of the line below it
/// and the bottom line is cleared with attributes `attrs`.
pub open spec fn scrolled(chars: Seq<VgaChar>, attrs: u8) -> Seq<VgaChar> {
    Seq::new(
        SIZE as nat,
        |i: int|
            if i < SIZE - WIDTH {
                chars[i + WIDTH]
            } else {
                blank(attrs)
            },
    )
}

/// The view with the writer moved to `pos` and the cursor registers set to it.
pub open spec fn moved_to(v: ConsoleView, pos: usize) -> ConsoleView {
    ConsoleView { position: pos, attrs: v.attrs, chars: v.chars, cursor: pos as u16 }
}

/// The view after advancing `count` cells: past the end of the screen, the text scrolls up a
/// line and the writer goes to the start of the bottom line.
pub open spec fn advance_view(v: ConsoleView, count: usize) -> ConsoleView {
    let pos = v.position + count;
    if pos < SIZE {
        moved_to(v, pos as usize)
    } else {
        ConsoleView {
            position: (WIDTH * (HEIGHT - 1)) as usize,
            attrs: v.attrs,
            chars: scrolled(v.chars, v.attrs),
            cursor: (WIDTH * (HEIGHT - 1)) as u16,
        }
    }
}

/// The view after drawing byte `b` at the writer's position and advancing one cell.
pub open spec fn put_byte_view(v: ConsoleView, b: u8) -> ConsoleView {
    advance_view(
        ConsoleView {
            position: v.position,
            attrs: v.attrs,
            chars: v.chars.update(v.position as int, VgaChar { char: b, attrs: v.attrs }),
            cursor: v.cursor,
        },
        1,
    )
}

/// The view after writing character `c`: NUL draws an empty cell, carriage return moves the
/// writer to the cell numbered by its current line, newline advances to the start of the next
/// line, printable ASCII draws itself, characters beyond ASCII draw the block glyph 0xfe, and
/// other control characters change nothing.
pub open spec fn put_char_view(v: ConsoleView, c: char) -> ConsoleView {
    let code = c as u32;
    if code == 0 {
        put_byte_view(v, 0)
    } else if code == 13 {
        moved_to(v, (v.position / WIDTH) as usize)
    } else if code == 10 {
        advance_view(v, (WIDTH - v.position % WIDTH) as usize)
    } else if 32 <= code <= 126 {
        put_byte_view(v, code as u8)
    } else if code >= 128 {
        put_byte_view(v, 0xfe)
    } else {
        v
    }
}

/// The view after writing every character of `s` in order.
pub open spec fn write_view(v: ConsoleView, s: Seq<char>) -> ConsoleView
    decreases s.len(),
{
    if s.len() == 0 {
        v
    } else {
        put_char_view(write_view(v, s.drop_last()), s.last())
    }
}

/// The view after clearing: the writer at the first cell with light gray on black, and every
/// cell empty with those colors. The cursor registers are left as they were.
pub open spec fn clear_view(v: ConsoleView) -> ConsoleView {
    ConsoleView {
        position: 0,
        attrs: 7,
        chars: Seq::new(SIZE as nat, |i: int| blank(7)),
        cursor: v.cursor,
    }
}

/// Whether a view describes a full screen with the writer on it.
pub open spec fn console_wf(v: ConsoleView) -> bool {
    v.chars.len() == SIZE && v.position < SIZE
}

impl VgaBuffer {
    /// Returns a buffer of empty cells with zero attributes, the cursor at the first cell.
    pub fn new() -> (r: Self)
        ensures
            r.cells() == Seq::new(SIZE as nat, |i: int| blank(0)),
            r.cursor_value() == 0,
    {
        let mut chars: Vec<VgaChar> = Vec::new();
        while chars.len() < SIZE
            invariant
                chars.len() <= SIZE,
                forall|i: int| 0 <= i < chars.len() ==> #[trigger] chars@[i] == blank(0),
            decreases SIZE - chars.len(),
        {
            chars.push(VgaChar { char: 0, attrs: 0 });
        }
        assert(chars@ =~= Seq::new(SIZE as nat, |i: int| blank(0)));
        VgaBuffer { chars, cursor: 0 }
    }

    /// The character cells.
    pub closed spec fn cells(&self) -> Seq<VgaChar> {
        self.chars@
    }

    /// The value held by the cursor location registers.
    pub closed spec fn cursor_value(&self) -> u16 {
        self.cursor
    }

    /// Returns the character cell at index `i`.
    pub fn char_at(&self, i: usize) -> (r: VgaChar)
        requires
            i < self.cells().len(),
        ensures
            r == self.cells()[i as int],
    {
        self.chars[i]
    }

    /// Returns the value held by the cursor location registers.
    pub fn cursor(&self) -> (r: u16)
        ensures
            r == self.cursor_value(),
    {
        self.cursor
    }

    /// Writes a cursor position to the cursor location registers: its low byte to the low
    /// register and its next byte to the high register.
    fn update_cursor(&mut self, position: usize)
        ensures
            final(self).cursor == position as u16,
            final(self).chars@ == old(self).chars@,
    {
        let lo: u16 = (position & 0xff) as u16;
        let hi: u16 = ((position >> 8usize) & 0xff) as u16;
        self.cursor = hi << 8u16 | lo;
        assert(hi << 8u16 | lo == position as u16) by (bit_vector)
            requires
                lo == (position & 0xff) as u16,
                hi == ((position >> 8usize) & 0xff) as u16,
        ;
    }
}

/// Handle used for writing text to the VGA console.
pub struct Writer {
    position: usize,
    attrs: u8,
    screen: VgaBuffer,
}

impl View for Writer {
    type V = ConsoleView;

    closed spec fn view(&self) -> ConsoleView {
        ConsoleView {
            position: self.position,
            attrs: self.attrs,
            chars: self.screen.chars@,
            cursor: self.screen.cursor,
        }
    }
}

impl Writer {
    /// The screen has all its cells and the writer is on it.
    pub closed spec fn wf(&self) -> bool {
        console_wf(self@)
    }

    /// Returns a writer at the first cell, writing light gray text, over `screen`.
    pub fn new(screen: VgaBuffer) -> (r: Self)
        requires
            screen.cells().len() == SIZE,
        ensures
            r.wf(),
            r@ == (ConsoleView {
                position: 0,
                attrs: 7,
                chars: screen.cells(),
                cursor: screen.cursor_value(),
            }),
    {
        Writer { position: 0, attrs: 7, screen }
    }

    /// Returns the screen this writer draws on.
    pub fn screen(&self) -> (r: &VgaBuffer)
        ensures
            r.cells() == self@.chars,
            r.cursor_value() == self@.cursor,
    {
        &self.screen
    }

    /// Sets the current position of the console cursor. Returns `Ok` if the given cursor
    /// position is within bounds (`pos < SIZE`), otherwise returns `Err(pos)` and has no effect.
    pub fn set_position(&mut self, pos: usize) -> (r: Result<(), usize>)
        requires
            old(self).wf(),
        ensures
            final(self).wf(),
            pos < SIZE ==> r is Ok && final(self)@ == moved_to(old(self)@, pos),
            pos >= SIZE ==> r == Err::<(), usize>(pos) && final(self)@ == old(self)@,
    {
        if pos < SIZE {
            self.position = pos;
            self.screen.update_cursor(pos);
            Ok(())
        } else {
            Err(pos)
        }
    }

    /// Returns the current position of the console cursor.
    pub fn get_position(&self) -> (r: usize)
        ensures
            r == self@.position,
    {
        self.position
    }

    /// Sets the text color for subsequent character writes to the console.
    pub fn set_text_color(&mut self, color: Color)
        ensures
            final(self)@ == (ConsoleView {
                attrs: (old(self)@.attrs & 0xf0) | color_code(color),
                ..old(self)@
            }),
    {
        self.attrs = self.attrs & 0xf0 | color.as_u8();
    }

    /// Sets the background color for subsequent character writes to the console.
    pub fn set_bg_color(&mut self, color: Color)
        ensures
            final(self)@ == (ConsoleView {
                attrs: (old(self)@.attrs & 0x0f) | (color_code(color) << 4u8),
                ..old(self)@
            }),
    {
        self.attrs = self.attrs & 0x0f | color.as_u8() << 4u8;
    }

    /// Advances the writer `count` cells. Past the end of the screen, scrolls the text up one
    /// line, clears the bottom line and moves to its start. The cursor follows the writer.
    pub fn advance(&mut self, count: usize)
        requires
            old(self).wf(),
            old(self)@.position + count <= usize::MAX,
        ensures
            final(self).wf(),
            final(self)@ == advance_view(old(self)@, count),
    {
        let ghost old_chars = self.screen.chars@;
        let pos = self.position + count;
        if pos < SIZE {
            self.position = pos;
        } else {
            self.position = WIDTH * (HEIGHT - 1);

            // Scroll text lines up, and then clear the bottom line.
            let mut i: usize = 0;
            while i < SIZE - WIDTH
                invariant
                    i <= SIZE - WIDTH,
                    self.position == WIDTH * (HEIGHT - 1),
                    self.attrs == old(self).attrs,
                    self.screen.chars@.len() == SIZE,
                    old_chars.len() == SIZE,
                    forall|k: int| 0 <= k < i ==> #[trigger] self.screen.chars@[k] == old_chars[k + WIDTH],
                    forall|k: int| i <= k < SIZE ==> #[trigger] self.screen.chars@[k] == old_chars[k],
                decreases SIZE - WIDTH - i,
            {
                let c = self.screen.chars[i + WIDTH];
                self.screen.chars.set(i, c);
                i = i + 1;
            }
            while i < SIZE
                invariant
                    SIZE - WIDTH <= i <= SIZE,
                    self.position == WIDTH * (HEIGHT - 1),
                    self.attrs == old(self).attrs,
                    self.screen.chars@.len() == SIZE,
                    old_chars.len() == SIZE,
                    forall|k: int| 0 <= k < SIZE - WIDTH ==> #[trigger] self.screen.chars@[k] == old_chars[k + WIDTH],
                    forall|k: int| SIZE - WIDTH <= k < i ==> #[trigger] self.screen.chars@[k] == blank(self.attrs),
                decreases SIZE - i,
            {
                self.screen.chars.set(i, VgaChar { char: 0, attrs: self.attrs });
                i = i + 1;
            }
            assert(self.screen.chars@ =~= scrolled(old_chars, self.attrs));
        }
        self.screen.update_cursor(self.position);
    }

    /// Draws byte `b` with the current attributes at the writer's position and advances one cell.
    pub fn put_byte(&mut self, b: u8)
        requires
            old(self).wf(),
        ensures
            final(self).wf(),
            final(self)@ == put_byte_view(old(self)@, b),
    {
        let p = self.position;
        self.screen.chars.set(p, VgaChar { char: b, attrs: self.attrs });
        self.advance(1);
    }

    /// Clears the console by removing all text and setting the default colors.
    pub fn clear_screen(&mut self)
        requires
            old(self).wf(),
        ensures
            final(self).wf(),
            final(self)@ == clear_view(old(self)@),
    {
        self.position = 0;
        self.set_text_color(Color::LightGray);
        self.set_bg_color(Color::Black);
        let a = self.attrs;
        assert(a == 7) by {
            let a0 = old(self)@.attrs;
            assert((((a0 & 0xf0u8) | 7u8) & 0x0fu8) | (0u8 << 4u8) == 7u8) by (bit_vector);
        }
        let mut i: usize = 0;
        while i < SIZE
            invariant
                i <= SIZE,
                self.screen.chars@.len() == SIZE,
                self.attrs == 7,
                self.position == 0,
                self.screen.cursor == old(self).screen.cursor,
                forall|k: int| 0 <= k < i ==> #[trigger] self.screen.chars@[k] == blank(7),
            decreases SIZE - i,
        {
            self.screen.chars.set(i, VgaChar { char: 0, attrs: self.attrs });
            i = i + 1;
        }
        assert(self.screen.chars@ =~= Seq::new(SIZE as nat, |i: int| blank(7)));
    }

    /// Writes one character to the console.
    pub fn put_char(&mut self, c: char)
        requires
            old(self).wf(),
        ensures
            final(self).wf(),
            final(self)@ == put_char_view(old(self)@, c),
    {
        let code = c as u32;
        if code == 0 {
            self.put_byte(0);
        } else if code == 13 {
            self.set_position(self.position / WIDTH).unwrap();
        } else if code == 10 {
            self.advance(WIDTH - self.position % WIDTH);
        } else if 32 <= code && code <= 126 {
            self.put_byte(code as u8);
        } else if code >= 128 {
            // Block glyph for unknown char.
            self.put_byte(0xfe);
        }
    }
}

/// Clears the VGA console, resets the selected text and background colors to their defaults,
/// and resets the cursor position.
pub fn clear(writer: &mut Writer)
    requires
        old(writer).wf(),
    ensures
        final(writer).wf(),
        final(writer)@ == clear_view(old(writer)@),
{
    writer.clear_screen();
}

/// Writes a string to the VGA console.
pub fn write(writer: &mut Writer, s: &str)
    requires
        old(writer).wf(),
    ensures
        final(writer).wf(),
        final(writer)@ == write_view(old(writer)@, s@),
{
    let ghost start = writer@;
    let n = s.unicode_len();
    let mut i: usize = 0;
    while i < n
        invariant
            n == s@.len(),
            i <= n,
            writer.wf(),
            writer@ == write_view(start, s@.take(i as int)),
        decreases n - i,
    {
        let c = s.get_char(i);
        writer.put_char(c);
        assert(s@.take(i + 1).drop_last() =~= s@.take(i as int));
        i = i + 1;
    }
    assert(s@.take(n as int) =~= s@);
}


/// Writing `a` and then `b` shows the same as writing `a` followed by `b` in one string.
pub proof fn lemma_write_concat(v: ConsoleView, a: Seq<char>, b: Seq<char>)
    ensures
        write_view(write_view(v, a), b) == write_view(v, a + b),
    decreases b.len(),
{
    if b.len() == 0 {
        assert(a + b =~= a);
    } else {
        lemma_write_concat(v, a, b.drop_last());
        assert((a + b).drop_last() =~= a + b.drop_last());
        assert((a + b).last() == b.last());
    }
}

/// Every character keeps the writer on a full screen.
pub proof fn lemma_put_char_wf(v: ConsoleView, c: char)
    requires
        console_wf(v),
    ensures
        console_wf(put_char_view(v, c)),
{
}

/// Writing any string keeps the writer on a full screen.
pub proof fn lemma_write_wf(v: ConsoleView, s: Seq<char>)
    requires
        console_wf(v),
    ensures
        console_wf(write_view(v, s)),
    decreases s.len(),
{
    if s.len() > 0 {
        lemma_write_wf(v, s.drop_last());
        lemma_put_char_wf(write_view(v, s.drop_last()), s.last());
    }
}

/// Once the cursor registers show the writer's position, every character written keeps them
/// showing it.
pub proof fn lemma_cursor_follows_writer(v: ConsoleView, c: char)
    requires
        console_wf(v),
        v.cursor == v.position as u16,
    ensures
        put_char_view(v, c).cursor == put_char_view(v, c).position as u16,
{
}

/// Once the cursor registers show the writer's position, writing any string keeps them showing
/// it.
pub proof fn lemma_write_cursor_follows_writer(v: ConsoleView, s: Seq<char>)
    requires
        console_wf(v),
        v.cursor == v.position as u16,
    ensures
        write_view(v, s).cursor == write_view(v, s).position as u16,
    decreases s.len(),
{
    if s.len() > 0 {
        lemma_write_cursor_follows_writer(v, s.drop_last());
        lemma_write_wf(v, s.drop_last());
        lemma_cursor_follows_writer(write_view(v, s.drop_last()), s.last());
    }
}

/// A newline always leaves the writer at the start of a line.
pub proof fn lemma_newline_starts_line(v: ConsoleView)
    requires
        console_wf(v),
    ensures
        put_char_view(v, '\n').position % WIDTH == 0,
{
}

/// A printable ASCII character is drawn at the writer's position with the current attributes,
/// and the writer moves to the next cell when that cell is still on the screen.
pub proof fn lemma_printable_char(v: ConsoleView, c: char)
    requires
        console_wf(v),
        32 <= c as u32 <= 126,
        v.position + 1 < SIZE,
    ensures
        put_char_view(v, c).chars[v.position as int] == (VgaChar {
            char: c as u32 as u8,
            attrs: v.attrs,
        }),
        put_char_view(v, c).position == v.position + 1,
        put_char_view(v, c).attrs == v.attrs,
{
}

/// Advancing past the end of the screen scrolls: every cell above the bottom line shows what
/// the cell one line below it showed, the bottom line is empty with the writer's attributes, and
/// the writer and cursor go to the start of the bottom line. Advancing within the screen only
/// moves the writer and cursor.
pub proof fn lemma_advance_scrolls_up(v: ConsoleView, count: usize)
    requires
        console_wf(v),
    ensures
        v.position + count >= SIZE ==> {
            let w = advance_view(v, count);
            &&& w.chars.len() == SIZE
            &&& forall|i: int| 0 <= i < SIZE - WIDTH ==> #[trigger] w.chars[i] == v.chars[i + 80]
            &&& forall|i: int|
                SIZE - WIDTH <= i < SIZE ==> #[trigger] w.chars[i] == (VgaChar {
                    char: 0,
                    attrs: v.attrs,
                })
            &&& w.position == 1920
            &&& w.cursor == 1920
            &&& w.attrs == v.attrs
        },
        v.position + count < SIZE ==> {
            let w = advance_view(v, count);
            &&& w.chars == v.chars
            &&& w.position == v.position + count
            &&& w.cursor == (v.position + count) as u16
            &&& w.attrs == v.attrs
        },
{
}

/// Each color's code is its value in the VGA palette, in the order Black, Blue, Green, Cyan,
/// Red, Magenta, Brown, LightGray, Gray, LightBlue, LightGreen, LightCyan, LightRed, Pink,
/// Yellow, White; and the code read back converts to that color.
pub proof fn lemma_vga_palette()
    ensures
        color_code(Color::Black) == 0,
        color_code(Color::Blue) == 1,
        color_code(Color::Green) == 2,
        color_code(Color::Cyan) == 3,
        color_code(Color::Red) == 4,
        color_code(Color::Magenta) == 5,
        color_code(Color::Brown) == 6,
        color_code(Color::LightGray) == 7,
        color_code(Color::Gray) == 8,
        color_code(Color::LightBlue) == 9,
        color_code(Color::LightGreen) == 10,
        color_code(Color::LightCyan) == 11,
        color_code(Color::LightRed) == 12,
        color_code(Color::Pink) == 13,
        color_code(Color::Yellow) == 14,
        color_code(Color::White) == 15,
        forall|c: Color| #[trigger] color_from_code(color_code(c)) == Ok::<Color, u8>(c),
{
}

/// Setting the text color puts the color's palette value in the low four bits of the
/// attributes and keeps the background bits; setting the background color puts it in the high
/// four bits and keeps the text bits. Nothing else changes.
pub proof fn lemma_color_attrs(v: ConsoleView, c: Color)
    ensures
        ((v.attrs & 0xf0) | color_code(c)) & 0x0f == color_code(c),
        ((v.attrs & 0xf0) | color_code(c)) & 0xf0 == v.attrs & 0xf0,
        ((v.attrs & 0x0f) | (color_code(c) << 4u8)) >> 4u8 == color_code(c),
        ((v.attrs & 0x0f) | (color_code(c) << 4u8)) & 0x0f == v.attrs & 0x0f,
        color_code(c) < 16,
{
    let a = v.attrs;
    let k = color_code(c);
    assert(k < 16);
    assert(((a & 0xf0) | k) & 0x0f == k && ((a & 0xf0) | k) & 0xf0 == a & 0xf0 && ((a & 0x0f) | (
    k << 4u8)) >> 4u8 == k && ((a & 0x0f) | (k << 4u8)) & 0x0f == a & 0x0f) by (bit_vector)
        requires
            k < 16,
    ;
}

} // verus!
