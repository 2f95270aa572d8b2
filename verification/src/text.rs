//! Small pieces of text that the renderer is built from: visible-whitespace
//! glyphs, runs of spaces and carets, and decimal line numbers.

use vstd::prelude::*;

verus! {

/// The glyph shown in place of `c` when a line is rendered: a line feed
/// becomes `␊` and a carriage return becomes `␍`, so that control characters
/// never break the layout; every other character is kept as it is.
pub open spec fn vis_char(c: char) -> char {
    if c == '\n' {
        '␊'
    } else if c == '\r' {
        '␍'
    } else {
        c
    }
}

/// Whitespace visualization of a whole line: one glyph per source character.
pub open spec fn vis(s: Seq<char>) -> Seq<char> {
    Seq::new(s.len(), |i: int| vis_char(s[i]))
}

/// `n` spaces.
pub open spec fn spaces(n: nat) -> Seq<char> {
    Seq::new(n, |i: int| ' ')
}

/// `n` caret marks.
pub open spec fn carets(n: nat) -> Seq<char> {
    Seq::new(n, |i: int| '^')
}

/// The digit glyph for `d < 10`.
pub open spec fn digit_char(d: nat) -> char {
    if d == 0 {
        '0'
    } else if d == 1 {
        '1'
    } else if d == 2 {
        '2'
    } else if d == 3 {
        '3'
    } else if d == 4 {
        '4'
    } else if d == 5 {
        '5'
    } else if d == 6 {
        '6'
    } else if d == 7 {
        '7'
    } else if d == 8 {
        '8'
    } else {
        '9'
    }
}

/// The decimal digits of `n`, most significant first.
pub open spec fn dec_digits(n: nat) -> Seq<char>
    decreases n,
{
    if n < 10 {
        seq![digit_char(n)]
    } else {
        dec_digits(n / 10) + seq![digit_char(n % 10)]
    }
}

/// `n` in decimal, left-padded with spaces to width `w`; a number that is
/// already wider than `w` is kept whole.
pub open spec fn gutter_num(n: nat, w: nat) -> Seq<char> {
    if dec_digits(n).len() >= w {
        dec_digits(n)
    } else {
        spaces((w - dec_digits(n).len()) as nat) + dec_digits(n)
    }
}

/// A larger number never takes fewer digits.
pub proof fn lemma_dec_digits_len_monotone(a: nat, b: nat)
    requires
        a <= b,
    ensures
        dec_digits(a).len() <= dec_digits(b).len(),
    decreases b,
{
    if b < 10 {
    } else if a < 10 {
        assert(dec_digits(b).len() == dec_digits(b / 10).len() + 1);
    } else {
        assert(a / 10 <= b / 10) by (nonlinear_arith)
            requires a <= b && a >= 10;
        lemma_dec_digits_len_monotone(a / 10, b / 10);
    }
}

/// A string of `n` spaces.
pub fn spaces_string(n: usize) -> (r: String)
    ensures
        r@ == spaces(n as nat),
{
    let mut out = String::new();
    let mut i: usize = 0;
    while i < n
        invariant
            i <= n,
            out@ == spaces(i as nat),
        decreases n - i,
    {
        out.append(" ");
        proof {
            reveal_strlit(" ");
            assert(out@ =~= spaces((i + 1) as nat));
        }
        i = i + 1;
    }
    out
}

/// A string of `n` carets.
pub fn carets_string(n: usize) -> (r: String)
    ensures
        r@ == carets(n as nat),
{
    let mut out = String::new();
    let mut i: usize = 0;
    while i < n
        invariant
            i <= n,
            out@ == carets(i as nat),
        decreases n - i,
    {
        out.append("^");
        proof {
            reveal_strlit("^");
            assert(out@ =~= carets((i + 1) as nat));
        }
        i = i + 1;
    }
    out
}

/// The glyph for one decimal digit.
fn digit_str(d: usize) -> (r: &'static str)
    requires
        d < 10,
    ensures
        r@ == seq![digit_char(d as nat)],
{
    proof {
        reveal_strlit("0");
        reveal_strlit("1");
        reveal_strlit("2");
        reveal_strlit("3");
        reveal_strlit("4");
        reveal_strlit("5");
        reveal_strlit("6");
        reveal_strlit("7");
        reveal_strlit("8");
        reveal_strlit("9");
    }
    if d == 0 {
        "0"
    } else if d == 1 {
        "1"
    } else if d == 2 {
        "2"
    } else if d == 3 {
        "3"
    } else if d == 4 {
        "4"
    } else if d == 5 {
        "5"
    } else if d == 6 {
        "6"
    } else if d == 7 {
        "7"
    } else if d == 8 {
        "8"
    } else {
        "9"
    }
}

/// `n` written in decimal.
pub fn dec_string(n: usize) -> (r: String)
    ensures
        r@ == dec_digits(n as nat),
    decreases n,
{
    if n < 10 {
        let mut out = String::new();
        out.append(digit_str(n));
        out
    } else {
        let mut out = dec_string(n / 10);
        out.append(digit_str(n % 10));
        out
    }
}

/// `n` written in decimal, left-padded with spaces to width `w`.
pub fn gutter_num_string(n: usize, w: usize) -> (r: String)
    ensures
        r@ == gutter_num(n as nat, w as nat),
{
    let d = dec_string(n);
    let dl = d.as_str().unicode_len();
    if dl >= w {
        d
    } else {
        let mut out = spaces_string(w - dl);
        out.append(d.as_str());
        out
    }
}

} // verus!
