use runix::vga::{
    clear, fill, print_at, print_at_fits, scroll, Color, ColorAttribute, ColoredPrinter, Printer,
    Screen, ScreenCharacter, BUFFER_HEIGHT, BUFFER_WIDTH,
};

fn cell(character: u8, fg: Color, bg: Color) -> ScreenCharacter {
    ScreenCharacter { character, color: ColorAttribute::from((fg, bg)) }
}

fn row_text(screen: &Screen, row: usize, len: usize) -> Vec<u8> {
    (0..len).map(|col| screen.cell(row, col).unwrap().character).collect()
}

#[test]
fn color_numbers() {
    assert_eq!(Color::Black.code(), 0);
    assert_eq!(Color::Blue.code(), 1);
    assert_eq!(Color::Red.code(), 4);
    assert_eq!(Color::Gray.code(), 7);
    assert_eq!(Color::DarkGray.code(), 8);
    assert_eq!(Color::Yellow.code(), 14);
    assert_eq!(Color::White.code(), 15);
}

#[test]
fn color_byte_has_background_high_and_foreground_low() {
    assert_eq!(ColorAttribute::from((Color::White, Color::Red)), ColorAttribute(0x4f));
    assert_eq!(ColorAttribute::from((Color::Black, Color::White)), ColorAttribute(0xf0));
    assert_eq!(ColorAttribute::from((Color::Yellow, Color::Red)), ColorAttribute(0x4e));
    assert_eq!(ColorAttribute::from((Color::Black, Color::Black)), ColorAttribute(0x00));
    assert_eq!(ColorAttribute::from((Color::White, Color::White)), ColorAttribute(0xff));
}

#[test]
fn new_screen_is_blank_on_white() {
    let screen = Screen::new();
    assert_eq!(BUFFER_WIDTH, 80);
    assert_eq!(BUFFER_HEIGHT, 25);
    for row in 0..25 {
        for col in 0..80 {
            assert_eq!(screen.cell(row, col), Some(cell(0x20, Color::White, Color::White)));
        }
    }
    assert_eq!(screen.cell(25, 0), None);
    assert_eq!(screen.cell(0, 80), None);
}

#[test]
fn fill_and_clear() {
    let mut screen = Screen::new();
    fill(&mut screen, Color::Red);
    for row in 0..25 {
        for col in 0..80 {
            assert_eq!(screen.cell(row, col), Some(cell(0x20, Color::White, Color::Red)));
        }
    }
    clear(&mut screen);
    for row in 0..25 {
        for col in 0..80 {
            assert_eq!(screen.cell(row, col), Some(cell(0x20, Color::White, Color::White)));
        }
    }
}

#[test]
fn print_byte_writes_and_moves_right() {
    let mut screen = Screen::new();
    let mut printer = Printer::new();
    assert_eq!(printer, Printer { col: 0, row: 0 });
    assert!(printer.is_on_screen());
    printer.print_byte(&mut screen, 0x41, Color::Black, Color::White);
    assert_eq!(printer, Printer { col: 1, row: 0 });
    assert_eq!(screen.cell(0, 0), Some(cell(0x41, Color::Black, Color::White)));
    assert_eq!(screen.cell(0, 1), Some(cell(0x20, Color::White, Color::White)));
}

#[test]
fn line_feed_moves_to_the_next_row_and_prints_nothing() {
    let mut screen = Screen::new();
    let mut printer = Printer { col: 5, row: 2 };
    printer.print_byte(&mut screen, 0x0a, Color::Black, Color::White);
    assert_eq!(printer, Printer { col: 0, row: 3 });
    for row in 0..25 {
        for col in 0..80 {
            assert_eq!(screen.cell(row, col), Some(cell(0x20, Color::White, Color::White)));
        }
    }
}

#[test]
fn full_line_wraps_before_the_next_character() {
    let mut screen = Screen::new();
    let mut printer = Printer { col: 79, row: 0 };
    printer.print_byte(&mut screen, 0x41, Color::Black, Color::White);
    assert_eq!(printer, Printer { col: 80, row: 0 });
    printer.print_byte(&mut screen, 0x42, Color::Black, Color::White);
    assert_eq!(printer, Printer { col: 1, row: 1 });
    assert_eq!(screen.cell(0, 79).unwrap().character, 0x41);
    assert_eq!(screen.cell(1, 0).unwrap().character, 0x42);
}

#[test]
fn line_feed_on_a_full_line_moves_one_row() {
    let mut screen = Screen::new();
    let mut printer = Printer { col: 80, row: 4 };
    printer.print_byte(&mut screen, 0x0a, Color::Black, Color::White);
    assert_eq!(printer, Printer { col: 0, row: 5 });
}

#[test]
fn printing_below_the_last_row_scrolls() {
    let mut screen = Screen::new();
    print_at(&mut screen, 0, 23, "up".as_bytes(), Color::Black, Color::Green);
    print_at(&mut screen, 0, 24, "low".as_bytes(), Color::Black, Color::White);
    print_at(&mut screen, 78, 24, "X".as_bytes(), Color::Yellow, Color::Red);
    let mut printer = Printer { col: 3, row: 24 };
    printer.print_byte(&mut screen, 0x0a, Color::Black, Color::White);
    assert_eq!(printer, Printer { col: 0, row: 24 });
    assert_eq!(row_text(&screen, 22, 2), "up".as_bytes());
    assert_eq!(row_text(&screen, 23, 3), "low".as_bytes());
    assert_eq!(screen.cell(23, 78), Some(cell(0x58, Color::Yellow, Color::Red)));
    for col in 0..80 {
        assert_eq!(screen.cell(24, col), Some(cell(0x20, Color::Yellow, Color::Red)));
    }
}

#[test]
fn wrap_on_the_last_row_scrolls_and_prints() {
    let mut screen = Screen::new();
    let mut printer = Printer { col: 80, row: 24 };
    print_at(&mut screen, 0, 24, "old".as_bytes(), Color::Black, Color::White);
    printer.print_byte(&mut screen, 0x5a, Color::Black, Color::White);
    assert_eq!(printer, Printer { col: 1, row: 24 });
    assert_eq!(row_text(&screen, 23, 3), "old".as_bytes());
    assert_eq!(screen.cell(24, 0).unwrap().character, 0x5a);
    assert_eq!(screen.cell(24, 1).unwrap().character, 0x20);
}

#[test]
fn scroll_moves_count_plus_one_lines() {
    let mut screen = Screen::new();
    for row in 0..25usize {
        let text = [0x61 + row as u8];
        print_at(&mut screen, 0, row, &text, Color::Black, Color::White);
    }
    scroll(&mut screen, 0);
    for row in 0..24usize {
        assert_eq!(screen.cell(row, 0).unwrap().character, 0x61 + row as u8 + 1);
    }
    assert_eq!(screen.cell(24, 0).unwrap().character, 0x20);
    scroll(&mut screen, 2);
    for row in 0..21usize {
        assert_eq!(screen.cell(row, 0).unwrap().character, 0x61 + row as u8 + 4);
    }
    for row in 21..25usize {
        assert_eq!(screen.cell(row, 0).unwrap().character, 0x20);
    }
}

#[test]
fn print_chars_prints_each_character() {
    let mut screen = Screen::new();
    let mut printer = Printer::new();
    printer.print_chars(&mut screen, "hi\nyou", Color::Yellow, Color::Red);
    assert_eq!(printer, Printer { col: 3, row: 1 });
    assert_eq!(screen.cell(0, 0), Some(cell(0x68, Color::Yellow, Color::Red)));
    assert_eq!(screen.cell(0, 1), Some(cell(0x69, Color::Yellow, Color::Red)));
    assert_eq!(screen.cell(0, 2), Some(cell(0x20, Color::White, Color::White)));
    assert_eq!(row_text(&screen, 1, 3), "you".as_bytes());
}

#[test]
fn print_chars_cuts_characters_down_to_their_low_byte() {
    let mut screen = Screen::new();
    let mut printer = Printer::new();
    printer.print_chars(&mut screen, "\u{e9}\u{141}", Color::Black, Color::White);
    assert_eq!(screen.cell(0, 0).unwrap().character, 0xe9);
    assert_eq!(screen.cell(0, 1).unwrap().character, 0x41);
    assert_eq!(printer, Printer { col: 2, row: 0 });
}

#[test]
fn write_str_prints_black_on_white() {
    let mut screen = Screen::new();
    fill(&mut screen, Color::Blue);
    let mut printer = Printer::new();
    printer.write_str(&mut screen, "ok");
    assert_eq!(screen.cell(0, 0), Some(cell(0x6f, Color::Black, Color::White)));
    assert_eq!(screen.cell(0, 1), Some(cell(0x6b, Color::Black, Color::White)));
    assert_eq!(screen.cell(0, 2), Some(cell(0x20, Color::White, Color::Blue)));
}

#[test]
fn colored_printer_prints_in_its_colors() {
    let mut screen = Screen::new();
    let mut colored = ColoredPrinter::new(0, BUFFER_HEIGHT - 1, Color::White, Color::Red);
    assert_eq!(colored.printer, Printer { col: 0, row: 24 });
    colored.write_str(&mut screen, "at\nx");
    assert_eq!(screen.cell(23, 0), Some(cell(0x61, Color::White, Color::Red)));
    assert_eq!(screen.cell(23, 1), Some(cell(0x74, Color::White, Color::Red)));
    assert_eq!(screen.cell(24, 0), Some(cell(0x78, Color::White, Color::Red)));
    assert_eq!(colored.printer, Printer { col: 1, row: 24 });
    assert_eq!(colored.fg, Color::White);
    assert_eq!(colored.bg, Color::Red);
}

#[test]
fn print_at_places_bytes_and_returns_to_its_column() {
    let mut screen = Screen::new();
    print_at(&mut screen, 38, 12, "PANIC\nnow".as_bytes(), Color::White, Color::Red);
    assert_eq!(screen.cell(12, 37), Some(cell(0x20, Color::White, Color::White)));
    assert_eq!(screen.cell(12, 38), Some(cell(0x50, Color::White, Color::Red)));
    assert_eq!(screen.cell(12, 42), Some(cell(0x43, Color::White, Color::Red)));
    assert_eq!(screen.cell(12, 43), Some(cell(0x20, Color::White, Color::White)));
    assert_eq!(screen.cell(13, 38), Some(cell(0x6e, Color::White, Color::Red)));
    assert_eq!(screen.cell(13, 40), Some(cell(0x77, Color::White, Color::Red)));
}

#[test]
fn print_at_fits_only_on_the_screen() {
    assert!(print_at_fits(0, 0, "".as_bytes()));
    assert!(print_at_fits(100, 100, "".as_bytes()));
    assert!(print_at_fits(79, 24, "x".as_bytes()));
    assert!(!print_at_fits(80, 24, "x".as_bytes()));
    assert!(!print_at_fits(79, 25, "x".as_bytes()));
    assert!(!print_at_fits(78, 0, "abc".as_bytes()));
    assert!(print_at_fits(78, 0, "ab\nc".as_bytes()));
    assert!(!print_at_fits(0, 24, "a\nb".as_bytes()));
    assert!(print_at_fits(0, 24, "a\n".as_bytes()));
    assert!(print_at_fits(0, 30, "\n\n".as_bytes()));
    assert!(!print_at_fits(0, usize::MAX, "\n".as_bytes()));
    assert!(print_at_fits(0, usize::MAX - 1, "\n".as_bytes()));
}

#[test]
fn erase_blanks_the_cell_before_the_cursor() {
    let mut screen = Screen::new();
    let mut printer = Printer::new();
    printer.print_chars(&mut screen, "ab", Color::Yellow, Color::Red);
    assert!(printer.erase(&mut screen));
    assert_eq!(printer, Printer { col: 1, row: 0 });
    assert_eq!(screen.cell(0, 0), Some(cell(0x61, Color::Yellow, Color::Red)));
    assert_eq!(screen.cell(0, 1), Some(cell(0x20, Color::Black, Color::White)));
    assert!(printer.erase(&mut screen));
    assert_eq!(printer, Printer { col: 0, row: 0 });
    assert_eq!(screen.cell(0, 0), Some(cell(0x20, Color::Black, Color::White)));
    assert!(!printer.erase(&mut screen));
    assert_eq!(printer, Printer { col: 0, row: 0 });
}

#[test]
fn erase_after_a_full_line_stays_on_the_line() {
    let mut screen = Screen::new();
    let mut printer = Printer { col: 80, row: 3 };
    assert!(printer.erase(&mut screen));
    assert_eq!(printer, Printer { col: 79, row: 3 });
    assert_eq!(screen.cell(3, 79), Some(cell(0x20, Color::Black, Color::White)));
    assert_eq!(screen.cell(4, 0), Some(cell(0x20, Color::White, Color::White)));
}
