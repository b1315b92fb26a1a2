use pomoru::ascii::{big_digit, render_big_time, small_digit, state_art};

#[test]
fn big_digits() {
    assert_eq!(big_digit('0'), [" ╭─╮ ", " │ │ ", " │ │ ", " │ │ ", " ╰─╯ "]);
    assert_eq!(big_digit('1'), ["  ╷  ", " ╶│  ", "  │  ", "  │  ", " ─┴─ "]);
    assert_eq!(big_digit(':'), ["     ", "  ◦  ", "     ", "  ◦  ", "     "]);
    assert_eq!(big_digit('x'), ["     "; 5]);
}

#[test]
fn small_digits() {
    assert_eq!(small_digit('7'), ["──╮", "  │", "  ╵"]);
    assert_eq!(small_digit(':'), ["   ", " ◦ ", " ◦ "]);
    assert_eq!(small_digit('?'), ["   "; 3]);
}

#[test]
fn every_glyph_row_has_its_width() {
    for c in "0123456789:x".chars() {
        for row in big_digit(c) {
            assert_eq!(row.chars().count(), 5);
        }
        for row in small_digit(c) {
            assert_eq!(row.chars().count(), 3);
        }
    }
}

#[test]
fn wide_terminals_get_big_digits() {
    let lines = render_big_time("12:34", 40);
    assert_eq!(lines.len(), 5);
    for row in 0..5 {
        let expected: String = "12:34".chars().map(|c| big_digit(c)[row]).collect();
        assert_eq!(lines[row], expected);
        assert_eq!(lines[row].chars().count(), 25);
    }
}

#[test]
fn narrow_terminals_get_small_digits_with_gaps() {
    let lines = render_big_time("05:09", 33);
    assert_eq!(lines.len(), 3);
    assert_eq!(lines[0], "╭─╮ ╭──     ╭─╮ ╭─╮");
    assert_eq!(lines[1], "│ │ ╰─╮  ◦  │ │ ╰─┤");
    for row in 0..3 {
        assert_eq!(lines[row].chars().count(), 5 * 3 + 4);
    }
}

#[test]
fn empty_time_renders_empty_lines() {
    assert_eq!(render_big_time("", 80), vec![String::new(); 5]);
    assert_eq!(render_big_time("", 10), vec![String::new(); 3]);
}

#[test]
fn state_pictures() {
    let art = state_art("studying");
    assert_eq!(art, vec!["    ___    ", "   /   \\   ", "  | ~~~ |  ", "  | ~~~ |  ", "   \\___/   "]);
    assert_eq!(state_art("done")[3], "  ╲╱       ");
    assert_eq!(state_art("paused")[1], "  ██  ██   ");
    assert_eq!(state_art("unknown"), vec!["           "; 5]);
    assert_eq!(state_art("Break"), vec!["           "; 5]);
    assert_eq!(state_art("break")[0], "   ) )  )  ");
    assert_eq!(state_art("idle")[2], "  * | *    ");
}

#[test]
fn each_clock_character_has_its_own_glyph() {
    let chars: Vec<char> = "0123456789:".chars().collect();
    for (i, a) in chars.iter().enumerate() {
        for b in chars.iter().skip(i + 1) {
            assert_ne!(big_digit(*a), big_digit(*b));
            assert_ne!(small_digit(*a), small_digit(*b));
        }
    }
    assert_eq!(big_digit('a'), ["     "; 5]);
    assert_eq!(small_digit(' '), ["   "; 3]);
}
