use serial_display::screen::{Char, Pos, Screen, HEIGHT, SIZE, WIDTH};

fn glyph_at(s: &Screen, x: usize, y: usize) -> u8 {
    s.get(Pos::new(x, y)).unwrap().glyph
}

fn all_blank(s: &Screen) -> bool {
    for y in 0..HEIGHT {
        for x in 0..WIDTH {
            if s.get(Pos::new(x, y)) != Some(Char::default()) {
                return false;
            }
        }
    }
    true
}

#[test]
fn char_defaults_and_inversion() {
    let c = Char::default();
    assert_eq!(c, Char { glyph: b' ', inverted: false });
    let a = Char::from(b'a');
    assert_eq!(a, Char { glyph: b'a', inverted: false });
    assert_eq!(a.invert(), Char { glyph: b'a', inverted: true });
    assert_eq!(a.invert().invert(), a);
}

#[test]
fn put_out_of_bounds_is_ignored() {
    let mut s = Screen::new();
    s.put(Pos::new(WIDTH, 0), Char::from(b'x'));
    s.put(Pos::new(0, HEIGHT), Char::from(b'x'));
    s.put(Pos::new(usize::MAX, usize::MAX), Char::from(b'x'));
    assert!(all_blank(&s));
    assert!(s.draw().is_empty());
    assert_eq!(s.get(Pos::new(WIDTH, 0)), None);
}

#[test]
fn fresh_screen_draws_nothing() {
    let mut s = Screen::new();
    assert!(s.draw().is_empty());
}

#[test]
fn single_change_at_cursor_sends_only_the_glyph() {
    let mut s = Screen::new();
    s.put(Pos::new(0, 0), Char::from(b'A'));
    assert_eq!(s.draw(), vec![b'A']);
}

#[test]
fn relative_steps_right_and_down() {
    let mut s = Screen::new();
    s.put(Pos::new(0, 0), Char::from(b'A'));
    s.draw();
    s.put(Pos::new(3, 1), Char::from(b'B'));
    assert_eq!(s.draw(), vec![0x1B, b'C', 0x1B, b'C', 0x1B, b'B', b'B']);
}

#[test]
fn relative_steps_left_and_up() {
    let mut s = Screen::new();
    s.put(Pos::new(5, 2), Char::from(b'A'));
    let first = s.draw();
    assert_eq!(first.len(), 5 * 2 + 2 * 2 + 1);
    s.put(Pos::new(2, 1), Char::from(b'B'));
    let mut expected = Vec::new();
    for _ in 0..4 {
        expected.extend_from_slice(&[0x1B, b'D']);
    }
    expected.extend_from_slice(&[0x1B, b'A', b'B']);
    assert_eq!(s.draw(), expected);
}

#[test]
fn attribute_switches_on_and_off() {
    let mut s = Screen::new();
    s.put(Pos::new(0, 0), Char::from(b'X').invert());
    s.put(Pos::new(1, 0), Char::from(b'Y'));
    assert_eq!(s.draw(), vec![0x1B, b'p', b'X', 0x1B, b'q', b'Y']);
}

#[test]
fn adjacent_changes_need_no_steps() {
    let mut s = Screen::new();
    s.write_string(Pos::new(0, 0), b"abc");
    assert_eq!(s.draw(), b"abc".to_vec());
}

#[test]
fn second_flush_sends_nothing() {
    let mut s = Screen::new();
    s.write_string(Pos::new(4, 3), b"hello");
    let first = s.draw();
    assert!(!first.is_empty());
    assert!(s.draw().is_empty());
    assert!(s.draw().is_empty());
}

#[test]
fn invalidated_flush_sends_every_cell() {
    let mut s = Screen::new();
    s.invalidate();
    let out = s.draw();
    assert_eq!(out.len(), SIZE);
    assert!(out.iter().all(|b| *b == b' '));
    assert!(s.draw().is_empty());
}

#[test]
fn invalidated_flush_counts_one_glyph_per_cell() {
    let mut s = Screen::new();
    s.write_string(Pos::new(0, 0), b"hi");
    s.draw();
    s.invalidate();
    let out = s.draw();
    assert_eq!(out.len(), SIZE + 2 * 2);
    assert_eq!(&out[..4], &[0x1B, b'D', 0x1B, b'D']);
}

#[test]
fn cursor_stays_on_last_cell() {
    let mut s = Screen::new();
    s.put(Pos::new(WIDTH - 1, HEIGHT - 1), Char::from(b'a'));
    let out = s.draw();
    assert_eq!(out.len(), 2 * 39 + 2 * 7 + 1);
    s.put(Pos::new(WIDTH - 1, HEIGHT - 1), Char::from(b'b'));
    assert_eq!(s.draw(), vec![b'b']);
}

#[test]
fn cursor_follows_last_write() {
    let mut s = Screen::new();
    s.put(Pos::new(WIDTH - 1, 0), Char::from(b'a'));
    s.draw();
    s.put(Pos::new(0, 1), Char::from(b'b'));
    assert_eq!(s.draw(), vec![b'b']);
}

#[test]
fn clear_blanks_every_cell() {
    let mut s = Screen::new();
    s.write_string(Pos::new(0, 0), b"abc");
    s.rect(Pos::new(0, 2), Pos::new(40, 3), Char::from(b'#'));
    s.clear();
    assert!(all_blank(&s));
}

#[test]
fn write_string_runs_off_the_edge() {
    let mut s = Screen::new();
    s.write_string(Pos::new(38, 0), b"xyz");
    assert_eq!(glyph_at(&s, 38, 0), b'x');
    assert_eq!(glyph_at(&s, 39, 0), b'y');
    assert_eq!(glyph_at(&s, 0, 1), b' ');
}

#[test]
fn write_string_keeps_raw_bytes() {
    let mut s = Screen::new();
    s.write_string(Pos::new(0, 0), &[0xF5, 0x07]);
    assert_eq!(glyph_at(&s, 0, 0), 0xF5);
    assert_eq!(glyph_at(&s, 1, 0), 0x07);
}

#[test]
fn write_string_inverted_forces_attribute() {
    let mut s = Screen::new();
    s.write_string_inverted(Pos::new(1, 1), b"ab", true);
    assert_eq!(s.get(Pos::new(1, 1)), Some(Char { glyph: b'a', inverted: true }));
    assert_eq!(s.get(Pos::new(2, 1)), Some(Char { glyph: b'b', inverted: true }));
    s.write_string_inverted(Pos::new(1, 1), b"c", false);
    assert_eq!(s.get(Pos::new(1, 1)), Some(Char { glyph: b'c', inverted: false }));
}

#[test]
fn rect_fills_and_clips() {
    let mut s = Screen::new();
    s.rect(Pos::new(38, 6), Pos::new(5, 5), Char::from(b'#'));
    assert_eq!(glyph_at(&s, 38, 6), b'#');
    assert_eq!(glyph_at(&s, 39, 7), b'#');
    assert_eq!(glyph_at(&s, 37, 6), b' ');
    assert_eq!(glyph_at(&s, 0, 7), b' ');
}

#[test]
fn wrap_word_of_exact_width_stays_on_line() {
    let mut s = Screen::new();
    s.write_string_wrapped(Pos::new(0, 0), b"hello", 5);
    for (i, b) in b"hello".iter().enumerate() {
        assert_eq!(glyph_at(&s, i, 0), *b);
    }
    assert_eq!(glyph_at(&s, 0, 1), b' ');
}

#[test]
fn wrap_word_one_column_in_moves_whole() {
    let mut s = Screen::new();
    s.write_string_wrapped(Pos::new(0, 0), b" hello", 5);
    for i in 0..6 {
        assert_eq!(glyph_at(&s, i, 0), b' ');
    }
    for (i, b) in b"hello".iter().enumerate() {
        assert_eq!(glyph_at(&s, i, 1), *b);
    }
}

#[test]
fn wrap_greedy_layout() {
    let mut s = Screen::new();
    s.write_string_wrapped(Pos::new(1, 1), b"ab cd ef", 5);
    assert_eq!(glyph_at(&s, 1, 1), b'a');
    assert_eq!(glyph_at(&s, 2, 1), b'b');
    assert_eq!(glyph_at(&s, 4, 1), b'c');
    assert_eq!(glyph_at(&s, 5, 1), b'd');
    assert_eq!(glyph_at(&s, 1, 2), b'e');
    assert_eq!(glyph_at(&s, 2, 2), b'f');
}

#[test]
fn wrap_long_word_overflows_right() {
    let mut s = Screen::new();
    s.write_string_wrapped(Pos::new(0, 0), b"abcdefg", 3);
    assert_eq!(glyph_at(&s, 0, 1), b'a');
    assert_eq!(glyph_at(&s, 6, 1), b'g');
    assert_eq!(glyph_at(&s, 0, 0), b' ');
}

#[test]
fn wrap_empty_input_writes_nothing() {
    let mut s = Screen::new();
    s.write_string_wrapped(Pos::new(0, 0), b"", 5);
    assert!(all_blank(&s));
}

#[test]
fn char_from_character_replaces_non_ascii() {
    assert_eq!(Char::from(&'a'), Char { glyph: b'a', inverted: false });
    assert_eq!(Char::from(&'\n'), Char { glyph: b'\n', inverted: false });
    assert_eq!(Char::from(&'é'), Char { glyph: b'?', inverted: false });
}
