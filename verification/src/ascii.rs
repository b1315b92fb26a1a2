//! The large clock digits and the pictures of each state.

use crate::text::same_text;
use vstd::prelude::*;

verus! {

/// The rows of a large (5 by 5) digit, colon or blank.
pub open spec fn big_glyph(ch: char) -> Seq<Seq<char>> {
    match ch {
        '0' => seq![" ╭─╮ "@, " │ │ "@, " │ │ "@, " │ │ "@, " ╰─╯ "@],
        '1' => seq!["  ╷  "@, " ╶│  "@, "  │  "@, "  │  "@, " ─┴─ "@],
        '2' => seq![" ╭─╮ "@, "   │ "@, " ╭─╯ "@, " │   "@, " ╰── "@],
        '3' => seq![" ╭─╮ "@, "   │ "@, "  ─┤ "@, "   │ "@, " ╰─╯ "@],
        '4' => seq![" ╷ ╷ "@, " │ │ "@, " ╰─┤ "@, "   │ "@, "   ╵ "@],
        '5' => seq![" ╭── "@, " │   "@, " ╰─╮ "@, "   │ "@, " ──╯ "@],
        '6' => seq![" ╭─╮ "@, " │   "@, " ├─╮ "@, " │ │ "@, " ╰─╯ "@],
        '7' => seq![" ──╮ "@, "   │ "@, "  ╱  "@, " ╱   "@, " ╵   "@],
        '8' => seq![" ╭─╮ "@, " │ │ "@, " ├─┤ "@, " │ │ "@, " ╰─╯ "@],
        '9' => seq![" ╭─╮ "@, " │ │ "@, " ╰─┤ "@, "   │ "@, " ╰─╯ "@],
        ':' => seq!["     "@, "  ◦  "@, "     "@, "  ◦  "@, "     "@],
        _ => seq!["     "@, "     "@, "     "@, "     "@, "     "@],
    }
}

/// The rows of a small (3 by 3) digit, colon or blank.
pub open spec fn small_glyph(ch: char) -> Seq<Seq<char>> {
    match ch {
        '0' => seq!["╭─╮"@, "│ │"@, "╰─╯"@],
        '1' => seq![" ╷ "@, " │ "@, " ╵ "@],
        '2' => seq!["╭─╮"@, "╭─╯"@, "╰──"@],
        '3' => seq!["──╮"@, " ─┤"@, "──╯"@],
        '4' => seq!["╷ ╷"@, "╰─┤"@, "  ╵"@],
        '5' => seq!["╭──"@, "╰─╮"@, "──╯"@],
        '6' => seq!["╭─╮"@, "├─╮"@, "╰─╯"@],
        '7' => seq!["──╮"@, "  │"@, "  ╵"@],
        '8' => seq!["╭─╮"@, "├─┤"@, "╰─╯"@],
        '9' => seq!["╭─╮"@, "╰─┤"@, "╰─╯"@],
        ':' => seq!["   "@, " ◦ "@, " ◦ "@],
        _ => seq!["   "@, "   "@, "   "@],
    }
}

/// Big digit font - 5 lines tall, 5 chars wide
/// Uses rounded box-drawing characters for a softer look
pub fn big_digit(ch: char) -> (rows: [&'static str; 5])
    ensures
        forall|i: int| 0 <= i < 5 ==> #[trigger] rows[i]@ == big_glyph(ch)[i],
{
    match ch {
        '0' => [" ╭─╮ ", " │ │ ", " │ │ ", " │ │ ", " ╰─╯ "],
        '1' => ["  ╷  ", " ╶│  ", "  │  ", "  │  ", " ─┴─ "],
        '2' => [" ╭─╮ ", "   │ ", " ╭─╯ ", " │   ", " ╰── "],
        '3' => [" ╭─╮ ", "   │ ", "  ─┤ ", "   │ ", " ╰─╯ "],
        '4' => [" ╷ ╷ ", " │ │ ", " ╰─┤ ", "   │ ", "   ╵ "],
        '5' => [" ╭── ", " │   ", " ╰─╮ ", "   │ ", " ──╯ "],
        '6' => [" ╭─╮ ", " │   ", " ├─╮ ", " │ │ ", " ╰─╯ "],
        '7' => [" ──╮ ", "   │ ", "  ╱  ", " ╱   ", " ╵   "],
        '8' => [" ╭─╮ ", " │ │ ", " ├─┤ ", " │ │ ", " ╰─╯ "],
        '9' => [" ╭─╮ ", " │ │ ", " ╰─┤ ", "   │ ", " ╰─╯ "],
        ':' => ["     ", "  ◦  ", "     ", "  ◦  ", "     "],
        _ => ["     ", "     ", "     ", "     ", "     "],
    }
}

/// Small digit font - 3 lines tall, 3 chars wide (for narrow terminals)
pub fn small_digit(ch: char) -> (rows: [&'static str; 3])
    ensures
        forall|i: int| 0 <= i < 3 ==> #[trigger] rows[i]@ == small_glyph(ch)[i],
{
    match ch {
        '0' => ["╭─╮", "│ │", "╰─╯"],
        '1' => [" ╷ ", " │ ", " ╵ "],
        '2' => ["╭─╮", "╭─╯", "╰──"],
        '3' => ["──╮", " ─┤", "──╯"],
        '4' => ["╷ ╷", "╰─┤", "  ╵"],
        '5' => ["╭──", "╰─╮", "──╯"],
        '6' => ["╭─╮", "├─╮", "╰─╯"],
        '7' => ["──╮", "  │", "  ╵"],
        '8' => ["╭─╮", "├─┤", "╰─╯"],
        '9' => ["╭─╮", "╰─┤", "╰─╯"],
        ':' => ["   ", " ◦ ", " ◦ "],
        _ => ["   ", "   ", "   "],
    }
}

/// The picture shown for a state, by the state's name: five rows.
pub open spec fn art_rows(state: Seq<char>) -> Seq<Seq<char>> {
    if state == "studying"@ {
        seq!["    ___    "@, "   /   \\   "@, "  | ~~~ |  "@, "  | ~~~ |  "@, "   \\___/   "@]
    } else if state == "break"@ {
        seq!["   ) )  )  "@, "  ( ( (    "@, "  ┌─────┐  "@, "  │     │) "@, "  └─────┘  "@]
    } else if state == "paused"@ {
        seq!["           "@, "  ██  ██   "@, "  ██  ██   "@, "  ██  ██   "@, "           "@]
    } else if state == "idle"@ {
        seq!["    *      "@, "   /|\\     "@, "  * | *    "@, "   \\|/     "@, "    *      "@]
    } else if state == "done"@ {
        seq!["           "@, "       ╱   "@, "     ╱     "@, "  ╲╱       "@, "           "@]
    } else {
        seq!["           "@, "           "@, "           "@, "           "@, "           "@]
    }
}

/// ASCII art for each state - 5 lines tall
pub fn state_art(state: &str) -> (rows: Vec<&'static str>)
    ensures
        rows@.len() == 5,
        forall|i: int| 0 <= i < 5 ==> #[trigger] rows@[i]@ == art_rows(state@)[i],
{
    if same_text(state, "studying") {
        vec!["    ___    ", "   /   \\   ", "  | ~~~ |  ", "  | ~~~ |  ", "   \\___/   "]
    } else if same_text(state, "break") {
        vec!["   ) )  )  ", "  ( ( (    ", "  ┌─────┐  ", "  │     │) ", "  └─────┘  "]
    } else if same_text(state, "paused") {
        vec!["           ", "  ██  ██   ", "  ██  ██   ", "  ██  ██   ", "           "]
    } else if same_text(state, "idle") {
        vec!["    *      ", "   /|\\     ", "  * | *    ", "   \\|/     ", "    *      "]
    } else if same_text(state, "done") {
        vec!["           ", "       ╱   ", "     ╱     ", "  ╲╱       ", "           "]
    } else {
        vec!["           ", "           ", "           ", "           ", "           "]
    }
}

/// Terminals at least this wide get the large digits.
pub const BIG_DIGITS_MIN_WIDTH: u16 = 34;

/// What one character adds to row `row` of the rendered time: its glyph
/// row, and for small glyphs a space unless it is the last character.
pub open spec fn glyph_piece(c: char, row: int, big: bool, last: bool) -> Seq<char> {
    if big {
        big_glyph(c)[row]
    } else if last {
        small_glyph(c)[row]
    } else {
        small_glyph(c)[row] + seq![' ']
    }
}

/// Row `row` of the rendered characters `cs`.
pub open spec fn time_row(cs: Seq<char>, row: int, big: bool) -> Seq<char>
    decreases cs.len(),
{
    if cs.len() == 0 {
        Seq::empty()
    } else {
        glyph_piece(cs[0], row, big, cs.len() == 1) + time_row(cs.drop_first(), row, big)
    }
}

/// Render time string into big text lines (adaptive to width)
pub fn render_big_time(time: &str, max_width: u16) -> (lines: Vec<String>)
    ensures
        lines@.len() == if max_width >= BIG_DIGITS_MIN_WIDTH { 5nat } else { 3nat },
        forall|k: int|
            0 <= k < lines@.len() ==> #[trigger] lines@[k]@ == time_row(
                time@,
                k,
                max_width >= BIG_DIGITS_MIN_WIDTH,
            ),
{
    let use_big = max_width >= BIG_DIGITS_MIN_WIDTH;
    let height: usize = if use_big { 5 } else { 3 };
    let n = time.unicode_len();
    let ghost cs = time@;
    let mut lines: Vec<String> = Vec::new();
    let mut row: usize = 0;
    while row < height
        invariant
            cs == time@,
            n == cs.len(),
            height == if use_big { 5usize } else { 3usize },
            use_big == (max_width >= BIG_DIGITS_MIN_WIDTH),
            row <= height,
            lines@.len() == row,
            forall|k: int| 0 <= k < row ==> #[trigger] lines@[k]@ == time_row(cs, k, use_big),
        decreases height - row,
    {
        let mut line = String::new();
        let mut i: usize = 0;
        assert(cs.skip(0) =~= cs);
        while i < n
            invariant
                cs == time@,
                n == cs.len(),
                height == if use_big { 5usize } else { 3usize },
                row < height,
                i <= n,
                line@ + time_row(cs.skip(i as int), row as int, use_big) == time_row(cs, row as int, use_big),
            decreases n - i,
        {
            let ch = time.get_char(i);
            let ghost rest = cs.skip(i as int);
            assert(rest.drop_first() =~= cs.skip(i + 1));
            assert(rest[0] == ch);
            let ghost before = line@;
            if use_big {
                let glyph = big_digit(ch);
                line.append(glyph[row]);
            } else {
                let glyph = small_digit(ch);
                line.append(glyph[row]);
                if i < n - 1 {
                    proof {
                        reveal_strlit(" ");
                    }
                    line.append(" ");
                }
            }
            assert(line@ =~= before + glyph_piece(ch, row as int, use_big, rest.len() == 1));
            i = i + 1;
        }
        assert(cs.skip(n as int) =~= Seq::<char>::empty());
        assert(line@ =~= time_row(cs, row as int, use_big));
        lines.push(line);
        row = row + 1;
    }
    lines
}

/// Every glyph row has its font's width, and the telling characters of each
/// glyph are those of its table.
proof fn lemma_glyph_rows(c: char)
    ensures
        big_glyph(c).len() == 5,
        forall|i: int| 0 <= i < 5 ==> #[trigger] big_glyph(c)[i].len() == 5,
        small_glyph(c).len() == 3,
        forall|i: int| 0 <= i < 3 ==> #[trigger] small_glyph(c)[i].len() == 3,
        big_key(big_glyph(c)) == big_key_of(c),
        small_key(small_glyph(c)) == small_key_of(c),
{
    reveal_strlit("     ");
    reveal_strlit("   │ ");
    reveal_strlit("   ╵ ");
    reveal_strlit("  ─┤ ");
    reveal_strlit("  │  ");
    reveal_strlit("  ╱  ");
    reveal_strlit("  ╷  ");
    reveal_strlit("  ◦  ");
    reveal_strlit(" ──╮ ");
    reveal_strlit(" ──╯ ");
    reveal_strlit(" ─┴─ ");
    reveal_strlit(" │   ");
    reveal_strlit(" │ │ ");
    reveal_strlit(" ├─┤ ");
    reveal_strlit(" ├─╮ ");
    reveal_strlit(" ╭── ");
    reveal_strlit(" ╭─╮ ");
    reveal_strlit(" ╭─╯ ");
    reveal_strlit(" ╰── ");
    reveal_strlit(" ╰─┤ ");
    reveal_strlit(" ╰─╮ ");
    reveal_strlit(" ╰─╯ ");
    reveal_strlit(" ╱   ");
    reveal_strlit(" ╵   ");
    reveal_strlit(" ╶│  ");
    reveal_strlit(" ╷ ╷ ");
    reveal_strlit("   ");
    reveal_strlit("  │");
    reveal_strlit("  ╵");
    reveal_strlit(" ─┤");
    reveal_strlit(" │ ");
    reveal_strlit(" ╵ ");
    reveal_strlit(" ╷ ");
    reveal_strlit(" ◦ ");
    reveal_strlit("──╮");
    reveal_strlit("──╯");
    reveal_strlit("│ │");
    reveal_strlit("├─┤");
    reveal_strlit("├─╮");
    reveal_strlit("╭──");
    reveal_strlit("╭─╮");
    reveal_strlit("╭─╯");
    reveal_strlit("╰──");
    reveal_strlit("╰─┤");
    reveal_strlit("╰─╮");
    reveal_strlit("╰─╯");
    reveal_strlit("╷ ╷");
}

/// Big digit font - 5 lines tall, 5 chars wide; small digit font - 3 lines
/// tall, 3 chars wide: every glyph row of either font has its width.
pub proof fn law_glyph_widths(c: char)
    ensures
        big_glyph(c).len() == 5,
        forall|i: int| 0 <= i < 5 ==> #[trigger] big_glyph(c)[i].len() == 5,
        small_glyph(c).len() == 3,
        forall|i: int| 0 <= i < 3 ==> #[trigger] small_glyph(c)[i].len() == 3,
{
    lemma_glyph_rows(c);
}

/// Each row of a rendered time is as wide as its glyphs: five columns a
/// character in the large font; three a character, with a space between
/// characters, in the small one.
pub proof fn law_time_row_width(cs: Seq<char>, row: int)
    ensures
        0 <= row < 5 ==> time_row(cs, row, true).len() == 5 * cs.len(),
        0 <= row < 3 ==> time_row(cs, row, false).len() == if cs.len() == 0 {
            0
        } else {
            4 * cs.len() - 1
        },
    decreases cs.len(),
{
    if cs.len() > 0 {
        law_glyph_widths(cs[0]);
        law_time_row_width(cs.drop_first(), row);
    }
}

/// The characters a clock face uses: the digits and the colon.
pub open spec fn clock_char(c: char) -> bool {
    ('0' <= c && c <= '9') || c == ':'
}

/// The telling characters of each large glyph (see `big_key`).
pub open spec fn big_key_of(c: char) -> (char, char, char, char, char) {
    match c {
        '0' => ('│', ' ', '│', '─', ' '),
        '1' => (' ', '│', ' ', '╷', '│'),
        '2' => ('╭', '─', '╯', '─', ' '),
        '3' => (' ', '─', '┤', '─', ' '),
        '4' => ('╰', '─', '┤', ' ', ' '),
        '5' => ('╰', '─', '╮', '─', ' '),
        '6' => ('├', '─', '╮', '─', ' '),
        '7' => (' ', '╱', ' ', '─', ' '),
        '8' => ('├', '─', '┤', '─', ' '),
        '9' => ('╰', '─', '┤', '─', ' '),
        ':' => (' ', ' ', ' ', ' ', '◦'),
        _ => (' ', ' ', ' ', ' ', ' '),
    }
}

/// The telling characters of each small glyph (see `small_key`).
pub open spec fn small_key_of(c: char) -> (char, char, char, char) {
    match c {
        '0' => ('│', ' ', '│', '╭'),
        '1' => (' ', '│', ' ', ' '),
        '2' => ('╭', '─', '╯', '╭'),
        '3' => (' ', '─', '┤', '─'),
        '4' => ('╰', '─', '┤', '╷'),
        '5' => ('╰', '─', '╮', '╭'),
        '6' => ('├', '─', '╮', '╭'),
        '7' => (' ', ' ', '│', '─'),
        '8' => ('├', '─', '┤', '╭'),
        '9' => ('╰', '─', '┤', '╭'),
        ':' => (' ', '◦', ' ', ' '),
        _ => (' ', ' ', ' ', ' '),
    }
}

/// A few characters of a large glyph that tell the glyphs apart.
pub open spec fn big_key(g: Seq<Seq<char>>) -> (char, char, char, char, char) {
    (g[2][1], g[2][2], g[2][3], g[0][2], g[1][2])
}

/// A few characters of a small glyph that tell the glyphs apart.
pub open spec fn small_key(g: Seq<Seq<char>>) -> (char, char, char, char) {
    (g[1][0], g[1][1], g[1][2], g[0][0])
}

/// Each digit and the colon has a glyph of its own in either font, and any
/// other character draws blank: five rows of five spaces, or three of three.
pub proof fn law_distinct_glyphs(c1: char, c2: char, x: char)
    requires
        clock_char(c1),
        clock_char(c2),
        c1 != c2,
        !clock_char(x),
    ensures
        big_glyph(c1) != big_glyph(c2),
        small_glyph(c1) != small_glyph(c2),
        big_glyph(x) == seq!["     "@, "     "@, "     "@, "     "@, "     "@],
        small_glyph(x) == seq!["   "@, "   "@, "   "@],
{
    lemma_glyph_rows(c1);
    lemma_glyph_rows(c2);
}

} // verus!
