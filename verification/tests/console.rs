use x86_kernel::console::{clear, Color, VgaBuffer, VgaChar, Writer, HEIGHT, SIZE, WIDTH};

fn fresh() -> Writer {
    Writer::new(VgaBuffer::new())
}

fn cell(w: &Writer, i: usize) -> VgaChar {
    w.screen().char_at(i)
}

#[test]
fn color_codes_round_trip() {
    for v in 0u8..16 {
        let c = Color::try_from(v).unwrap();
        assert_eq!(c.as_u8(), v);
    }
    assert_eq!(Color::try_from(3), Ok(Color::Cyan));
    assert_eq!(Color::try_from(15), Ok(Color::White));
    assert_eq!(Color::try_from(16), Err(16));
    assert_eq!(Color::try_from(200), Err(200));
}

#[test]
fn writes_text_and_moves_cursor() {
    let mut w = fresh();
    x86_kernel::console::write(&mut w, "Hi");
    assert_eq!(cell(&w, 0), VgaChar { char: b'H', attrs: 7 });
    assert_eq!(cell(&w, 1), VgaChar { char: b'i', attrs: 7 });
    assert_eq!(cell(&w, 2), VgaChar { char: 0, attrs: 0 });
    assert_eq!(w.get_position(), 2);
    assert_eq!(w.screen().cursor(), 2);
}

#[test]
fn newline_goes_to_next_line_start() {
    let mut w = fresh();
    x86_kernel::console::write(&mut w, "abc\nd");
    assert_eq!(w.get_position(), WIDTH + 1);
    assert_eq!(cell(&w, WIDTH), VgaChar { char: b'd', attrs: 7 });
}

#[test]
fn carriage_return_moves_to_line_number_cell() {
    let mut w = fresh();
    assert_eq!(w.set_position(2 * WIDTH + 5), Ok(()));
    x86_kernel::console::write(&mut w, "\r");
    // The writer moves to the cell numbered by its line, here cell 2.
    assert_eq!(w.get_position(), 2);
    assert_eq!(w.screen().cursor(), 2);
}

#[test]
fn unknown_and_control_characters() {
    let mut w = fresh();
    x86_kernel::console::write(&mut w, "\u{e9}\t\0x");
    // Non-ASCII draws the block glyph, tab is ignored, NUL draws an empty cell.
    assert_eq!(cell(&w, 0), VgaChar { char: 0xfe, attrs: 7 });
    assert_eq!(cell(&w, 1), VgaChar { char: 0, attrs: 7 });
    assert_eq!(cell(&w, 2), VgaChar { char: b'x', attrs: 7 });
    assert_eq!(w.get_position(), 3);
}

#[test]
fn set_position_bounds() {
    let mut w = fresh();
    assert_eq!(w.set_position(SIZE - 1), Ok(()));
    assert_eq!(w.get_position(), SIZE - 1);
    assert_eq!(w.set_position(SIZE), Err(SIZE));
    assert_eq!(w.get_position(), SIZE - 1);
}

#[test]
fn colors_set_attribute_nibbles() {
    let mut w = fresh();
    w.set_text_color(Color::Yellow);
    w.set_bg_color(Color::Blue);
    x86_kernel::console::write(&mut w, "z");
    assert_eq!(cell(&w, 0), VgaChar { char: b'z', attrs: 0x1e });
    w.set_text_color(Color::White);
    x86_kernel::console::write(&mut w, "z");
    assert_eq!(cell(&w, 1), VgaChar { char: b'z', attrs: 0x1f });
}

#[test]
fn writing_past_the_end_scrolls() {
    let mut w = fresh();
    assert_eq!(w.set_position(SIZE - 1), Ok(()));
    x86_kernel::console::write(&mut w, "A");
    // The screen scrolled one line up; the writer is at the start of the bottom line.
    assert_eq!(w.get_position(), WIDTH * (HEIGHT - 1));
    assert_eq!(cell(&w, SIZE - WIDTH - 1), VgaChar { char: b'A', attrs: 7 });
    assert_eq!(cell(&w, SIZE - 1), VgaChar { char: 0, attrs: 7 });
    x86_kernel::console::write(&mut w, "B");
    assert_eq!(cell(&w, SIZE - WIDTH), VgaChar { char: b'B', attrs: 7 });
}

#[test]
fn first_line_scrolls_away() {
    let mut w = fresh();
    x86_kernel::console::write(&mut w, "top");
    for _ in 0..HEIGHT {
        x86_kernel::console::write(&mut w, "\n");
    }
    assert_eq!(cell(&w, 0), VgaChar { char: 0, attrs: 0 });
    assert_eq!(w.get_position(), WIDTH * (HEIGHT - 1));
}

#[test]
fn clear_resets_screen_and_colors() {
    let mut w = fresh();
    w.set_bg_color(Color::Red);
    x86_kernel::console::write(&mut w, "hello");
    clear(&mut w);
    assert_eq!(w.get_position(), 0);
    for i in [0, 4, SIZE - 1] {
        assert_eq!(cell(&w, i), VgaChar { char: 0, attrs: 7 });
    }
    // Clearing does not move the hardware cursor.
    assert_eq!(w.screen().cursor(), 5);
    x86_kernel::console::write(&mut w, "x");
    assert_eq!(cell(&w, 0), VgaChar { char: b'x', attrs: 7 });
}

#[test]
fn writing_in_pieces_equals_writing_at_once() {
    let mut a = fresh();
    let mut b = fresh();
    x86_kernel::console::write(&mut a, "ab\ncd");
    x86_kernel::console::write(&mut a, "ef\r");
    x86_kernel::console::write(&mut b, "ab\ncdef\r");
    assert_eq!(a.get_position(), b.get_position());
    for i in 0..SIZE {
        assert_eq!(cell(&a, i), cell(&b, i));
    }
}

#[test]
fn writer_methods_directly() {
    let mut w = fresh();
    w.put_char('q');
    w.put_byte(b'r');
    w.advance(3);
    assert_eq!(w.get_position(), 5);
    assert_eq!(cell(&w, 0), VgaChar { char: b'q', attrs: 7 });
    assert_eq!(cell(&w, 1), VgaChar { char: b'r', attrs: 7 });
    w.clear_screen();
    assert_eq!(w.get_position(), 0);
}
