use vga_text::codec::{encode_cell, Color, ColorCode, ScreenChar};
use vga_text::writer::{_print, Writer, BUFFER_HEIGHT, BUFFER_WIDTH};

const ALL: [Color; 16] = [
    Color::Black,
    Color::Blue,
    Color::Green,
    Color::Cyan,
    Color::Red,
    Color::Magenta,
    Color::Brown,
    Color::LightGray,
    Color::DarkGray,
    Color::LightBlue,
    Color::LightGreen,
    Color::LightCyan,
    Color::LightRed,
    Color::Pink,
    Color::Yellow,
    Color::White,
];

fn row_text(w: &Writer, row: usize, len: usize) -> Vec<u8> {
    (0..len).map(|c| w.char_at(row, c).ascii_char).collect()
}

#[test]
fn test_println_simple() {
    let mut w = Writer::new(Color::White, Color::Black);
    _print(&mut w, "test_println_simple output\n");
    assert_eq!(w.row(), 1);
    assert_eq!(w.col(), 0);
    assert_eq!(row_text(&w, 0, 26), b"test_println_simple output".to_vec());
}

#[test]
fn test_println_many() {
    let mut w = Writer::new(Color::White, Color::Black);
    for _ in 0..200 {
        _print(&mut w, "test_println_many output\n");
    }
    assert_eq!(w.row(), BUFFER_HEIGHT - 1);
    assert_eq!(w.col(), 0);
}

#[test]
fn test_println_output() {
    let mut w = Writer::new(Color::White, Color::Black);
    for _ in 0..200 {
        _print(&mut w, "test_println_many output\n");
    }
    let s = "Some test string that fits on a single line";
    _print(&mut w, s);
    _print(&mut w, "\n");
    for (i, c) in s.chars().enumerate() {
        let screen_char = w.char_at(BUFFER_HEIGHT - 2, i);
        assert_eq!(char::from(screen_char.ascii_char), c);
    }
    assert_eq!(row_text(&w, BUFFER_HEIGHT - 1, BUFFER_WIDTH), vec![b' '; BUFFER_WIDTH]);
}

#[test]
fn twenty_five_lines_fill_every_row() {
    let mut w = Writer::new(Color::White, Color::Black);
    for i in 0..25 {
        let line = format!("line {:02}", i);
        w.write_string(&line);
        if i < 24 {
            w.write_string("\n");
        }
    }
    assert_eq!(w.row(), 24);
    for r in 0..25 {
        assert_eq!(row_text(&w, r, 7), format!("line {:02}", r).into_bytes());
    }
    w.write_string("\n");
    assert_eq!(w.row(), 24);
    assert_eq!(w.col(), 0);
    for r in 0..24 {
        assert_eq!(row_text(&w, r, 7), format!("line {:02}", r + 1).into_bytes());
    }
    assert_eq!(row_text(&w, 24, BUFFER_WIDTH), vec![b' '; BUFFER_WIDTH]);
}

#[test]
fn printable_run_moves_column_only() {
    let mut w = Writer::new(Color::White, Color::Black);
    w.write_string("\n\n");
    let text = "x".repeat(79);
    w.write_string(&text);
    assert_eq!(w.row(), 2);
    assert_eq!(w.col(), 79);
}

#[test]
fn full_row_wraps_before_next_cell() {
    let mut w = Writer::new(Color::White, Color::Black);
    w.write_string(&"a".repeat(80));
    assert_eq!((w.row(), w.col()), (0, 80));
    w.write_byte(b'b');
    assert_eq!((w.row(), w.col()), (1, 1));
    assert_eq!(w.char_at(1, 0).ascii_char, b'b');
}

#[test]
fn newline_on_last_row_scrolls() {
    let mut w = Writer::new(Color::White, Color::Black);
    for _ in 0..24 {
        w.write_byte(b'\n');
    }
    assert_eq!(w.row(), 24);
    w.write_string("last");
    w.write_byte(b'\n');
    assert_eq!((w.row(), w.col()), (24, 0));
    assert_eq!(row_text(&w, 23, 4), b"last".to_vec());
    assert_eq!(w.char_at(24, 0), encode_cell(b' ', Color::White, Color::Black));
}

#[test]
fn non_printable_is_red_substitute() {
    let mut w = Writer::new(Color::White, Color::Black);
    w.write_string("ö\x07");
    assert_eq!(w.col(), 3);
    for c in 0..3 {
        let cell = w.char_at(0, c);
        assert_eq!(cell.ascii_char, 0xfe);
        assert_eq!(cell.color, ColorCode(0x04));
    }
}

#[test]
fn non_printable_on_red_is_yellow_substitute() {
    let mut w = Writer::new(Color::White, Color::Red);
    w.write_string("\t");
    assert_eq!(w.char_at(0, 0), ScreenChar { ascii_char: 0xfe, color: ColorCode(0x4e) });
}

#[test]
fn colored_string_writes_bytes_verbatim() {
    let mut w = Writer::new(Color::White, Color::Black);
    w.write_colored_string("a\x07", Color::Green, Color::Blue);
    assert_eq!(w.char_at(0, 0), ScreenChar { ascii_char: b'a', color: ColorCode(0x12) });
    assert_eq!(w.char_at(0, 1), ScreenChar { ascii_char: 0x07, color: ColorCode(0x12) });
    w.write_colored_byte(b'z', Color::Pink, Color::Cyan);
    assert_eq!(w.char_at(0, 2).color, ColorCode(0x3d));
    assert_eq!(w.col(), 3);
}

#[test]
fn new_writer_is_blank() {
    let w = Writer::new(Color::LightGray, Color::Blue);
    assert_eq!((w.row(), w.col()), (0, 0));
    assert_eq!(w.char_at(12, 40), ScreenChar { ascii_char: b' ', color: ColorCode(0x17) });
}

#[test]
fn clear_row_twice_same_as_once() {
    let mut w = Writer::new(Color::White, Color::Black);
    w.write_string("hello\nworld");
    w.clear_row(1);
    let once = row_text(&w, 1, BUFFER_WIDTH);
    w.clear_row(1);
    assert_eq!(row_text(&w, 1, BUFFER_WIDTH), once);
    assert_eq!(once, vec![b' '; BUFFER_WIDTH]);
    assert_eq!(row_text(&w, 0, 5), b"hello".to_vec());
}

#[test]
fn color_code_nibbles_round_trip() {
    for (f, fg) in ALL.iter().enumerate() {
        for (b, bg) in ALL.iter().enumerate() {
            let code = ColorCode::new(*fg, *bg);
            assert_eq!((code.0 >> 4) as usize, b);
            assert_eq!((code.0 & 0x0f) as usize, f);
            assert_eq!(fg.code() as usize, f);
        }
    }
    assert_eq!(ColorCode::new(Color::Yellow, Color::Black), ColorCode(0x0e));
    assert_eq!(ColorCode::new(Color::White, Color::LightRed), ColorCode(0xcf));
}
