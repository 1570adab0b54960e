use os_in_rust::color::{Color, ColorCode};
use os_in_rust::vga_buffer::{
    Buffer, ScreenChar, Writer, BUFFER_HEIGHT, BUFFER_WIDTH, PLACEHOLDER,
};
use volatile::Volatile;

fn fresh_grid() -> &'static mut Buffer {
    let grid: Buffer = core::array::from_fn(|_| core::array::from_fn(|_| Volatile::new(0u16)));
    Box::leak(Box::new(grid))
}

fn yellow_writer() -> Writer {
    Writer::new(ColorCode::new(Color::Yellow, Color::Black), fresh_grid())
}

fn cell(ch: u8, color: ColorCode) -> ScreenChar {
    ScreenChar { ascii_character: ch, color_code: color }
}

fn row_text(w: &Writer, row: usize) -> Vec<u8> {
    (0..BUFFER_WIDTH).map(|c| w.read_cell(row, c).ascii_character).collect()
}

#[test]
fn color_code_packs_background_high_foreground_low() {
    assert_eq!(ColorCode::new(Color::Yellow, Color::Black).0, 0x0e);
    assert_eq!(ColorCode::new(Color::White, Color::Blue).0, 0x1f);
    assert_eq!(ColorCode::new(Color::Black, Color::White).0, 0xf0);
    assert_eq!(ColorCode::new(Color::LightGreen, Color::Red).0, 0x4a);
    assert_eq!(Color::Pink.code(), 13);
}

#[test]
fn screen_char_bits_round_trip() {
    let c = cell(0x41, ColorCode(0x0e));
    assert_eq!(c.to_bits(), 0x0e41);
    assert_eq!(ScreenChar::from_bits(0x0e41), c);
    assert_eq!(ScreenChar::from_bits(0xf020), cell(0x20, ColorCode(0xf0)));
}

#[test]
fn new_writer_starts_at_column_zero() {
    let w = yellow_writer();
    assert_eq!(w.column_position(), 0);
    assert_eq!(w.color_code(), ColorCode(0x0e));
    assert_eq!(w.read_cell(0, 0), cell(0, ColorCode(0)));
}

#[test]
fn write_byte_draws_on_bottom_row() {
    let mut w = yellow_writer();
    w.write_byte(b'A');
    assert_eq!(w.read_cell(BUFFER_HEIGHT - 1, 0), cell(b'A', ColorCode(0x0e)));
    assert_eq!(w.column_position(), 1);
    w.write_byte(b'B');
    assert_eq!(w.read_cell(BUFFER_HEIGHT - 1, 1), cell(b'B', ColorCode(0x0e)));
    assert_eq!(w.read_cell(BUFFER_HEIGHT - 2, 0), cell(0, ColorCode(0)));
}

#[test]
fn printable_bytes_read_back_unchanged() {
    let mut w = yellow_writer();
    let text: Vec<u8> = (0x20u8..=0x7e).take(BUFFER_WIDTH).collect();
    let s = String::from_utf8(text.clone()).unwrap();
    w.write_string(&s);
    assert_eq!(row_text(&w, BUFFER_HEIGHT - 1), text);
    for c in 0..BUFFER_WIDTH {
        assert_eq!(w.read_cell(BUFFER_HEIGHT - 1, c).color_code, ColorCode(0x0e));
    }
}

#[test]
fn unprintable_bytes_become_placeholder() {
    let mut w = yellow_writer();
    w.write_string("a\u{e4}\tb\u{7f}");
    let bottom = row_text(&w, BUFFER_HEIGHT - 1);
    assert_eq!(
        &bottom[..6],
        &[b'a', PLACEHOLDER, PLACEHOLDER, PLACEHOLDER, b'b', PLACEHOLDER][..]
    );
    assert_eq!(w.column_position(), 6);
}

#[test]
fn newline_in_string_advances_line() {
    let mut w = yellow_writer();
    w.write_string("ab\ncd");
    assert_eq!(w.read_cell(BUFFER_HEIGHT - 2, 0), cell(b'a', ColorCode(0x0e)));
    assert_eq!(w.read_cell(BUFFER_HEIGHT - 2, 1), cell(b'b', ColorCode(0x0e)));
    assert_eq!(w.read_cell(BUFFER_HEIGHT - 1, 0), cell(b'c', ColorCode(0x0e)));
    assert_eq!(w.read_cell(BUFFER_HEIGHT - 1, 1), cell(b'd', ColorCode(0x0e)));
    assert_eq!(w.read_cell(BUFFER_HEIGHT - 1, 2), cell(b' ', ColorCode(0x0e)));
    assert_eq!(w.column_position(), 2);
}

#[test]
fn full_row_then_one_more_byte_wraps_once() {
    let mut w = yellow_writer();
    let row = "x".repeat(BUFFER_WIDTH);
    w.write_string(&row);
    assert_eq!(w.column_position(), BUFFER_WIDTH);
    assert_eq!(w.read_cell(BUFFER_HEIGHT - 2, 0), cell(0, ColorCode(0)));
    assert_eq!(row_text(&w, BUFFER_HEIGHT - 1), vec![b'x'; BUFFER_WIDTH]);
    w.write_string("y");
    assert_eq!(w.column_position(), 1);
    assert_eq!(row_text(&w, BUFFER_HEIGHT - 2), vec![b'x'; BUFFER_WIDTH]);
    assert_eq!(w.read_cell(BUFFER_HEIGHT - 1, 0), cell(b'y', ColorCode(0x0e)));
    assert_eq!(w.read_cell(BUFFER_HEIGHT - 1, 1), cell(b' ', ColorCode(0x0e)));
    assert_eq!(w.read_cell(BUFFER_HEIGHT - 3, 0), cell(0, ColorCode(0)));
}

#[test]
fn scrolling_is_a_pure_upward_shift() {
    let mut w = yellow_writer();
    for r in 0..BUFFER_HEIGHT {
        w.write_byte(b'A' + r as u8);
        w.new_line();
    }
    // Row r now holds the letter written r + 1 advances before the last one.
    for r in 0..BUFFER_HEIGHT - 1 {
        assert_eq!(w.read_cell(r, 0), cell(b'B' + r as u8, ColorCode(0x0e)));
    }
    let before_top = w.read_cell(1, 0);
    w.new_line();
    assert_eq!(w.read_cell(0, 0), before_top);
    assert_eq!(w.read_cell(BUFFER_HEIGHT - 1, 0), cell(b' ', ColorCode(0x0e)));
}

#[test]
fn height_advances_evict_everything() {
    let mut w = yellow_writer();
    w.write_string("first line\nsecond");
    for _ in 0..BUFFER_HEIGHT {
        w.new_line();
    }
    for r in 0..BUFFER_HEIGHT {
        for c in 0..BUFFER_WIDTH {
            assert_eq!(w.read_cell(r, c), cell(b' ', ColorCode(0x0e)));
        }
    }
    assert_eq!(w.column_position(), 0);
}

#[test]
fn clear_row_leaves_blank_cells_in_current_attribute() {
    let mut w = Writer::new(ColorCode::new(Color::White, Color::Blue), fresh_grid());
    w.write_string("some text on the bottom row");
    w.clear_row(BUFFER_HEIGHT - 1);
    for c in 0..BUFFER_WIDTH {
        assert_eq!(w.read_cell(BUFFER_HEIGHT - 1, c), cell(b' ', ColorCode(0x1f)));
    }
    w.clear_row(3);
    for c in 0..BUFFER_WIDTH {
        assert_eq!(w.read_cell(3, c), cell(b' ', ColorCode(0x1f)));
    }
    assert_eq!(w.read_cell(4, 0), cell(0, ColorCode(0)));
    assert_eq!(w.column_position(), 27);
}

#[test]
fn fmt_write_goes_through_write_string() {
    let mut w = yellow_writer();
    core::fmt::Write::write_str(&mut w, "Hello World!").unwrap();
    assert_eq!(&row_text(&w, BUFFER_HEIGHT - 1)[..12], b"Hello World!");
    core::fmt::Write::write_str(&mut w, &format!("{}", 42)).unwrap();
    assert_eq!(&row_text(&w, BUFFER_HEIGHT - 1)[..14], b"Hello World!42");
}
