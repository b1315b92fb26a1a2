//! Decimal numbers and small string helpers, with their meaning over `Seq<char>`.

use vstd::prelude::*;

verus! {

/// The character of a decimal digit.
pub open spec fn digit_char(d: nat) -> char {
    (48 + d) as char
}

/// The decimal digits of `n`, most significant first, without leading zeros.
pub open spec fn decimal(n: nat) -> Seq<char>
    decreases n,
{
    if n < 10 {
        seq![digit_char(n)]
    } else {
        decimal(n / 10).push(digit_char(n % 10))
    }
}

/// `s` right-aligned in a field of `width` characters, filled on the left with `fill`
/// (as Rust's `{:>width$}` and, with `'0'`, `{:0width$}` do for numbers).
pub open spec fn pad_left(s: Seq<char>, width: nat, fill: char) -> Seq<char> {
    if s.len() >= width {
        s
    } else {
        Seq::new((width - s.len()) as nat, |i: int| fill) + s
    }
}

/// The one-character string of a decimal digit.
pub fn digit_str(d: u8) -> (s: &'static str)
    requires
        d < 10,
    ensures
        s@ == seq![digit_char(d as nat)],
{
    proof {
        reveal_strlit("0");
        reveal_strlit("1");
        reveal_strlit("2");
        reveal_strlit("3");
        reveal_strlit("4");
        reveal_strlit("5");
        reveal_strlit("6");
        reveal_strlit("7");
        reveal_strlit("8");
        reveal_strlit("9");
    }
    match d {
        0 => "0",
        1 => "1",
        2 => "2",
        3 => "3",
        4 => "4",
        5 => "5",
        6 => "6",
        7 => "7",
        8 => "8",
        _ => "9",
    }
}

/// Appends the decimal digits of `n` to `out`.
pub fn push_decimal(out: &mut String, n: u128)
    ensures
        final(out)@ == old(out)@ + decimal(n as nat),
    decreases n,
{
    if n < 10 {
        out.append(digit_str(n as u8));
    } else {
        push_decimal(out, n / 10);
        out.append(digit_str((n % 10) as u8));
        proof {
            assert(old(out)@ + decimal(n as nat) =~= old(out)@ + decimal((n / 10) as nat) + seq![
                digit_char((n % 10) as nat),
            ]);
        }
    }
}

/// Appends `n` in decimal, right-aligned in `width` characters and filled
/// with zeros (`zero_fill`) or with spaces.
pub fn push_padded(out: &mut String, n: u128, width: usize, zero_fill: bool)
    ensures
        final(out)@ == old(out)@ + pad_left(decimal(n as nat), width as nat, if zero_fill { '0' } else { ' ' }),
{
    let mut digits = String::new();
    push_decimal(&mut digits, n);
    assert(digits@ =~= decimal(n as nat));
    let len = digits.as_str().unicode_len();
    let ghost fill = if zero_fill { '0' } else { ' ' };
    let ghost start = out@;
    if len < width {
        let mut i: usize = 0;
        while i < width - len
            invariant
                i <= width - len,
                len < width,
                fill == (if zero_fill { '0' } else { ' ' }),
                out@ == start + Seq::new(i as nat, |k: int| fill),
            decreases width - len - i,
        {
            if zero_fill {
                out.append(digit_str(0));
            } else {
                proof {
                    reveal_strlit(" ");
                }
                out.append(" ");
            }
            i = i + 1;
            assert(out@ =~= start + Seq::new(i as nat, |k: int| fill));
        }
    }
    out.append(digits.as_str());
    assert(final(out)@ =~= start + pad_left(decimal(n as nat), width as nat, fill));
}

/// Whether two strings hold the same characters.
pub fn same_text(a: &str, b: &str) -> (same: bool)
    ensures
        same == (a@ == b@),
{
    let n = a.unicode_len();
    if n != b.unicode_len() {
        return false;
    }
    let mut i: usize = 0;
    while i < n
        invariant
            n == a@.len(),
            n == b@.len(),
            i <= n,
            forall|k: int| 0 <= k < i ==> a@[k] == b@[k],
        decreases n - i,
    {
        if a.get_char(i) != b.get_char(i) {
            return false;
        }
        i = i + 1;
    }
    assert(a@ =~= b@);
    true
}

} // verus!
