//! Assembly of ANSI SGR escape sequences: decimal rendering of code
//! numbers, the `ESC [ ... m` frame, the reset code, and the 24-bit
//! (true-color) forms.

use vstd::prelude::*;

verus! {

/// The decimal digit character for a value `d` in `0..=9`.
pub open spec fn digit_char(d: int) -> char {
    if d == 0 {
        '0'
    } else if d == 1 {
        '1'
    } else if d == 2 {
        '2'
    } else if d == 3 {
        '3'
    } else if d == 4 {
        '4'
    } else if d == 5 {
        '5'
    } else if d == 6 {
        '6'
    } else if d == 7 {
        '7'
    } else if d == 8 {
        '8'
    } else {
        '9'
    }
}

/// The decimal representation of `n`, most significant digit first,
/// with no leading zeros (`0` is rendered as a single `'0'`).
pub open spec fn dec_rep(n: nat) -> Seq<char>
    decreases n,
{
    if n < 10 {
        seq![digit_char(n as int)]
    } else {
        dec_rep(n / 10).push(digit_char((n % 10) as int))
    }
}

/// An ANSI control sequence: ESC, `[`, the given body, `m`.
pub open spec fn esc_seq(body: Seq<char>) -> Seq<char> {
    seq!['\u{1b}', '['] + body + seq!['m']
}

/// The SGR reset sequence, `ESC [ 0 m`.
pub open spec fn reset_seq() -> Seq<char> {
    esc_seq(dec_rep(0))
}

/// The true-color SGR sequence for the given channels:
/// `ESC [ 38 ; 2 ; r ; g ; b m` for a foreground,
/// `ESC [ 48 ; 2 ; r ; g ; b m` for a background.
pub open spec fn rgb_code_seq(background: bool, r: u8, g: u8, b: u8) -> Seq<char> {
    esc_seq(
        dec_rep(if background { 48nat } else { 38nat }) + seq![';', '2', ';'] + dec_rep(r as nat)
            + seq![';'] + dec_rep(g as nat) + seq![';'] + dec_rep(b as nat),
    )
}

/// Single-character string slice holding the decimal digit `d`.
fn digit_str(d: u8) -> (s: &'static str)
    requires
        d < 10,
    ensures
        s@ == seq![digit_char(d as int)],
{
    let s: &'static str = match d {
        0 => "0",
        1 => "1",
        2 => "2",
        3 => "3",
        4 => "4",
        5 => "5",
        6 => "6",
        7 => "7",
        8 => "8",
        _ => "9",
    };
    proof {
        reveal_strlit("0");
        reveal_strlit("1");
        reveal_strlit("2");
        reveal_strlit("3");
        reveal_strlit("4");
        reveal_strlit("5");
        reveal_strlit("6");
        reveal_strlit("7");
        reveal_strlit("8");
        reveal_strlit("9");
        assert(s@ =~= seq![digit_char(d as int)]);
    }
    s
}

/// Renders `n` in decimal, as `dec_rep` describes.
pub fn dec_str(n: u8) -> (s: String)
    ensures
        s@ == dec_rep(n as nat),
{
    if n < 10 {
        let r = String::from_str(digit_str(n));
        proof {
            assert(r@ =~= dec_rep(n as nat));
        }
        r
    } else if n < 100 {
        let mut r = String::from_str(digit_str(n / 10));
        r.append(digit_str(n % 10));
        proof {
            let m: nat = n as nat;
            assert(dec_rep(m) == dec_rep(m / 10).push(digit_char((m % 10) as int)));
            assert(m / 10 < 10);
            assert(dec_rep(m / 10) == seq![digit_char((m / 10) as int)]);
            assert((n / 10) as int == (m / 10) as int);
            assert((n % 10) as int == (m % 10) as int);
            assert(r@ =~= dec_rep(n as nat));
        }
        r
    } else {
        let mut r = String::from_str(digit_str(n / 100));
        r.append(digit_str((n / 10) % 10));
        r.append(digit_str(n % 10));
        proof {
            let m: nat = n as nat;
            vstd::arithmetic::div_mod::lemma_div_denominator(n as int, 10, 10);
            assert(m / 10 / 10 == m / 100);
            assert(dec_rep(m) == dec_rep(m / 10).push(digit_char((m % 10) as int)));
            assert(m / 10 >= 10);
            assert(dec_rep(m / 10) == dec_rep(m / 10 / 10).push(digit_char((m / 10 % 10) as int)));
            assert(m / 100 < 10);
            assert(dec_rep(m / 100) == seq![digit_char((m / 100) as int)]);
            assert(r@ =~= dec_rep(n as nat));
        }
        r
    }
}

/// The escape sequence `ESC [ n m` for a single SGR code number `n`.
pub fn esc_of_num(n: u8) -> (s: String)
    ensures
        s@ == esc_seq(dec_rep(n as nat)),
{
    let mut r = String::from_str("\u{1b}[");
    let d = dec_str(n);
    r.append(d.as_str());
    r.append("m");
    proof {
        reveal_strlit("\u{1b}[");
        reveal_strlit("m");
        assert(r@ =~= esc_seq(dec_rep(n as nat)));
    }
    r
}

/// The SGR reset string.
pub fn reset_str() -> (s: String)
    ensures
        s@ == reset_seq(),
{
    esc_of_num(0)
}

/// The true-color escape string for the given channels.
pub fn rgb_code(background: bool, r: u8, g: u8, b: u8) -> (s: String)
    ensures
        s@ == rgb_code_seq(background, r, g, b),
{
    let mut out = String::from_str("\u{1b}[");
    let mode: &str = if background { "48" } else { "38" };
    out.append(mode);
    out.append(";2;");
    let rd = dec_str(r);
    out.append(rd.as_str());
    out.append(";");
    let gd = dec_str(g);
    out.append(gd.as_str());
    out.append(";");
    let bd = dec_str(b);
    out.append(bd.as_str());
    out.append("m");
    proof {
        reveal_strlit("\u{1b}[");
        reveal_strlit("48");
        reveal_strlit("38");
        reveal_strlit(";2;");
        reveal_strlit(";");
        reveal_strlit("m");
        assert(dec_rep(48nat) == dec_rep(4nat).push(digit_char(8)));
        assert(dec_rep(38nat) == dec_rep(3nat).push(digit_char(8)));
        assert(dec_rep(4nat) == seq![digit_char(4)]);
        assert(dec_rep(3nat) == seq![digit_char(3)]);
        assert(mode@ =~= dec_rep(if background { 48nat } else { 38nat }));
        assert(out@ =~= rgb_code_seq(background, r, g, b));
    }
    out
}

} // verus!
