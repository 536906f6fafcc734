//! The color-specification grammar for style tokens.
//!
//! A token names a color in one of three forms, tried in this order:
//! a hex form (`#fff` or `#ffffff`), an rgb function (`rgb(255,0,0)` or
//! `rgb(100%,0%,0%)`), or one of the eight ANSI color names. A `bg` prefix
//! turns any of the three into a background color. A token matching none of
//! the forms is not an error: it simply names no color.

use crate::chars::{eq_str_ci, is_prefix, lower_seq, subvec};
use vstd::prelude::*;

verus! {

/// A terminal color: one of the eight ANSI base colors, or a 24-bit value.
#[derive(Debug, Clone, Copy, PartialEq, Eq)]
pub enum Color {
    Black,
    Blue,
    Green,
    Red,
    Cyan,
    Magenta,
    Yellow,
    White,
    Rgb(u8, u8, u8),
}

/// Whether `c` is a hexadecimal digit.
pub open spec fn is_hex_digit(c: char) -> bool {
    (48 <= c as int && c as int <= 57) || (97 <= c as int && c as int <= 102) || (65 <= c as int
        && c as int <= 70)
}

/// The value of a hexadecimal digit.
pub open spec fn hex_val(c: char) -> nat {
    if 48 <= c as int && c as int <= 57 {
        (c as int - 48) as nat
    } else if 97 <= c as int && c as int <= 102 {
        (c as int - 87) as nat
    } else {
        (c as int - 55) as nat
    }
}

/// The color named by the digits after `#`: three digits double each digit,
/// six digits pair them; any other count names no color.
pub open spec fn hex_body(h: Seq<char>) -> Option<Color> {
    if h.len() == 3 && (forall|i: int| 0 <= i < 3 ==> is_hex_digit(h[i])) {
        Some(
            Color::Rgb(
                (17 * hex_val(h[0])) as u8,
                (17 * hex_val(h[1])) as u8,
                (17 * hex_val(h[2])) as u8,
            ),
        )
    } else if h.len() == 6 && (forall|i: int| 0 <= i < 6 ==> is_hex_digit(h[i])) {
        Some(
            Color::Rgb(
                (16 * hex_val(h[0]) + hex_val(h[1])) as u8,
                (16 * hex_val(h[2]) + hex_val(h[3])) as u8,
                (16 * hex_val(h[4]) + hex_val(h[5])) as u8,
            ),
        )
    } else {
        None
    }
}

/// Whether `c` separates the components of an rgb triple.
pub open spec fn is_rgb_sep(c: char) -> bool {
    c == ',' || c == '/' || c == ' ' || c == '\t' || c == '\n' || c == '\r'
}

/// The non-empty runs of non-separator characters of `s`, `cur` being the
/// run in progress.
pub open spec fn rgb_tokens_acc(s: Seq<char>, cur: Seq<char>) -> Seq<Seq<char>>
    decreases s.len(),
{
    if s.len() == 0 {
        if cur.len() == 0 {
            Seq::empty()
        } else {
            seq![cur]
        }
    } else if is_rgb_sep(s[0]) {
        if cur.len() == 0 {
            rgb_tokens_acc(s.drop_first(), Seq::empty())
        } else {
            seq![cur] + rgb_tokens_acc(s.drop_first(), Seq::empty())
        }
    } else {
        rgb_tokens_acc(s.drop_first(), cur.push(s[0]))
    }
}

/// The components of an rgb triple's interior, split at separators.
pub open spec fn rgb_tokens(s: Seq<char>) -> Seq<Seq<char>> {
    rgb_tokens_acc(s, Seq::empty())
}

/// Whether `c` is a decimal digit.
pub open spec fn is_dec_digit(c: char) -> bool {
    48 <= c as int && c as int <= 57
}

/// Whether every character of `s` is a decimal digit.
pub open spec fn all_dec(s: Seq<char>) -> bool {
    forall|i: int| 0 <= i < s.len() ==> is_dec_digit(s[i])
}

/// The value of the decimal numeral `s`.
pub open spec fn dec_val(s: Seq<char>) -> nat
    decreases s.len(),
{
    if s.len() == 0 {
        0
    } else {
        dec_val(s.drop_last()) * 10 + (s.last() as int - 48) as nat
    }
}

/// One component of an rgb triple: either a bare integer up to 255, or a
/// percentage up to 100 scaled linearly onto 0 to 255. The flag records
/// which of the two forms was used.
pub open spec fn rgb_component(s: Seq<char>) -> Option<(u8, bool)> {
    if s.len() >= 2 && s.last() == '%' && all_dec(s.drop_last()) {
        if dec_val(s.drop_last()) <= 100 {
            Some((((dec_val(s.drop_last()) * 255 + 50) / 100) as u8, true))
        } else {
            None
        }
    } else if s.len() >= 1 && all_dec(s) {
        if dec_val(s) <= 255 {
            Some((dec_val(s) as u8, false))
        } else {
            None
        }
    } else {
        None
    }
}

/// The color named by the interior of `rgb(...)`: exactly three components,
/// all of the same form (all bare or all percentages); mixed forms name no
/// color.
pub open spec fn rgb_body(inner: Seq<char>) -> Option<Color> {
    let toks = rgb_tokens(inner);
    if toks.len() == 3 {
        match (rgb_component(toks[0]), rgb_component(toks[1]), rgb_component(toks[2])) {
            (Some((r, ur)), Some((g, ug)), Some((b, ub))) => {
                if ur == ug && ug == ub {
                    Some(Color::Rgb(r, g, b))
                } else {
                    None
                }
            },
            _ => None,
        }
    } else {
        None
    }
}

/// The color named by `s` as a color name, compared without regard to ASCII
/// case.
pub open spec fn named_color(s: Seq<char>) -> Option<Color> {
    let l = lower_seq(s);
    if l == "black"@ {
        Some(Color::Black)
    } else if l == "blue"@ {
        Some(Color::Blue)
    } else if l == "green"@ {
        Some(Color::Green)
    } else if l == "red"@ {
        Some(Color::Red)
    } else if l == "cyan"@ {
        Some(Color::Cyan)
    } else if l == "magenta"@ {
        Some(Color::Magenta)
    } else if l == "yellow"@ {
        Some(Color::Yellow)
    } else if l == "white"@ {
        Some(Color::White)
    } else {
        None
    }
}

/// The color named by a token with any `bg` prefix already removed.
pub open spec fn color_body(s: Seq<char>) -> Option<Color> {
    if s.len() > 0 && s[0] == '#' {
        hex_body(s.drop_first())
    } else if s.len() >= 5 && is_prefix("rgb("@, s) && s.last() == ')' {
        rgb_body(s.subrange(4, s.len() - 1))
    } else {
        named_color(s)
    }
}

/// The color and orientation named by a style token: the flag is true for a
/// foreground color and false exactly when the token carries the `bg`
/// prefix.
pub open spec fn parse_color_spec(tok: Seq<char>) -> Option<(Color, bool)> {
    if is_prefix("bg"@, tok) {
        match color_body(tok.skip(2)) {
            Some(c) => Some((c, false)),
            None => None,
        }
    } else {
        match color_body(tok) {
            Some(c) => Some((c, true)),
            None => None,
        }
    }
}

/// Each digit of a three-digit hex form is doubled: `#abc` names the same
/// color as `#aabbcc`.
pub proof fn lemma_hex_short_form(a: char, b: char, c: char)
    requires
        is_hex_digit(a),
        is_hex_digit(b),
        is_hex_digit(c),
    ensures
        hex_body(seq![a, b, c]) == hex_body(seq![a, a, b, b, c, c]),
{
    assert(hex_body(seq![a, b, c]) is Some);
    assert(hex_body(seq![a, a, b, b, c, c]) is Some);
}

/// The value of a decimal digit character.
fn dec_digit_val(c: char) -> (r: u32)
    requires
        is_dec_digit(c),
    ensures
        r == c as int - 48,
{
    match c {
        '0' => 0,
        '1' => 1,
        '2' => 2,
        '3' => 3,
        '4' => 4,
        '5' => 5,
        '6' => 6,
        '7' => 7,
        '8' => 8,
        _ => 9,
    }
}

/// The value of a lower-case hexadecimal letter.
fn hex_lower_val(c: char) -> (r: u32)
    requires
        97 <= c as int && c as int <= 102,
    ensures
        r == c as int - 87,
{
    match c {
        'a' => 10,
        'b' => 11,
        'c' => 12,
        'd' => 13,
        'e' => 14,
        _ => 15,
    }
}

/// The value of an upper-case hexadecimal letter.
fn hex_upper_val(c: char) -> (r: u32)
    requires
        65 <= c as int && c as int <= 70,
    ensures
        r == c as int - 55,
{
    match c {
        'A' => 10,
        'B' => 11,
        'C' => 12,
        'D' => 13,
        'E' => 14,
        _ => 15,
    }
}

/// The value of `c` as a hexadecimal digit, if it is one.
fn hex_digit_val(c: char) -> (r: Option<u32>)
    ensures
        r is Some <==> is_hex_digit(c),
        r is Some ==> r->0 == hex_val(c) && r->0 < 16,
{
    if c >= '0' && c <= '9' {
        Some(dec_digit_val(c))
    } else if c >= 'a' && c <= 'f' {
        Some(hex_lower_val(c))
    } else if c >= 'A' && c <= 'F' {
        Some(hex_upper_val(c))
    } else {
        None
    }
}

/// Parses the digits after `#`.
fn hex_body_vec(v: &Vec<char>) -> (r: Option<Color>)
    ensures
        r == hex_body(v@),
{
    if v.len() == 3 {
        match (hex_digit_val(v[0]), hex_digit_val(v[1]), hex_digit_val(v[2])) {
            (Some(a), Some(b), Some(c)) => Some(
                Color::Rgb((17 * a) as u8, (17 * b) as u8, (17 * c) as u8),
            ),
            _ => None,
        }
    } else if v.len() == 6 {
        let d0 = hex_digit_val(v[0]);
        let d1 = hex_digit_val(v[1]);
        let d2 = hex_digit_val(v[2]);
        let d3 = hex_digit_val(v[3]);
        let d4 = hex_digit_val(v[4]);
        let d5 = hex_digit_val(v[5]);
        match (d0, d1, d2, d3, d4, d5) {
            (Some(a), Some(b), Some(c), Some(d), Some(e), Some(f)) => Some(
                Color::Rgb((16 * a + b) as u8, (16 * c + d) as u8, (16 * e + f) as u8),
            ),
            _ => None,
        }
    } else {
        None
    }
}

/// Whether `c` separates rgb components.
fn is_rgb_sep_exec(c: char) -> (r: bool)
    ensures
        r == is_rgb_sep(c),
{
    c == ',' || c == '/' || c == ' ' || c == '\t' || c == '\n' || c == '\r'
}

/// The value of the decimal numeral, when it is one and does not exceed 255.
fn dec_val_capped(v: &Vec<char>) -> (r: Option<u32>)
    ensures
        r is Some <==> (all_dec(v@) && dec_val(v@) <= 255),
        r is Some ==> r->0 == dec_val(v@),
{
    let mut acc: u32 = 0;
    let mut i: usize = 0;
    while i < v.len()
        invariant
            i <= v@.len(),
            forall|j: int| 0 <= j < i ==> is_dec_digit(v@[j]),
            acc == dec_val(v@.subrange(0, i as int)),
            acc <= 255,
        decreases v@.len() - i,
    {
        let c = v[i];
        if !(c >= '0' && c <= '9') {
            assert(!is_dec_digit(v@[i as int]));
            return None;
        }
        assert(is_dec_digit(v@[i as int]));
        let d = dec_digit_val(c);
        assert(v@.subrange(0, i + 1).drop_last() =~= v@.subrange(0, i as int));
        assert(v@.subrange(0, i + 1).last() == v@[i as int]);
        acc = acc * 10 + d;
        i = i + 1;
        if acc > 255 {
            proof {
                lemma_dec_val_prefix_le(v@, i as int);
            }
            return None;
        }
    }
    assert(v@.subrange(0, v@.len() as int) =~= v@);
    Some(acc)
}

/// The value of a prefix of a decimal numeral never exceeds the whole.
proof fn lemma_dec_val_prefix_le(s: Seq<char>, i: int)
    requires
        0 <= i <= s.len(),
    ensures
        dec_val(s.subrange(0, i)) <= dec_val(s),
    decreases s.len() - i,
{
    if i < s.len() {
        lemma_dec_val_prefix_le(s, i + 1);
        assert(s.subrange(0, i + 1).drop_last() =~= s.subrange(0, i));
        assert(dec_val(s.subrange(0, i)) <= dec_val(s.subrange(0, i + 1)));
    } else {
        assert(s.subrange(0, i) =~= s);
    }
}

/// Parses one rgb component.
fn rgb_component_vec(t: &Vec<char>) -> (r: Option<(u8, bool)>)
    ensures
        r == rgb_component(t@),
{
    if t.len() >= 2 && t[t.len() - 1] == '%' {
        let digits = subvec(t, 0, t.len() - 1);
        assert(digits@ =~= t@.drop_last());
        match dec_val_capped(&digits) {
            Some(n) => {
                if n <= 100 {
                    Some((((n * 255 + 50) / 100) as u8, true))
                } else {
                    None
                }
            },
            None => None,
        }
    } else if t.len() >= 1 {
        match dec_val_capped(t) {
            Some(n) => Some((n as u8, false)),
            None => None,
        }
    } else {
        None
    }
}

/// The views of the elements of a sequence of character vectors.
pub open spec fn seq_views(s: Seq<Vec<char>>) -> Seq<Seq<char>> {
    Seq::new(s.len(), |i: int| s[i]@)
}

/// Splits the interior of `rgb(...)` at separators.
fn rgb_tokens_vec(v: &Vec<char>) -> (r: Vec<Vec<char>>)
    ensures
        seq_views(r@) == rgb_tokens(v@),
{
    let mut out: Vec<Vec<char>> = Vec::new();
    let mut cur: Vec<char> = Vec::new();
    let mut i: usize = 0;
    proof {
        assert(v@.subrange(0, v@.len() as int) =~= v@);
        assert(seq_views(out@) + rgb_tokens_acc(v@, cur@) =~= rgb_tokens_acc(v@, cur@));
    }
    while i < v.len()
        invariant
            i <= v@.len(),
            rgb_tokens(v@) == seq_views(out@) + rgb_tokens_acc(
                v@.subrange(i as int, v@.len() as int),
                cur@,
            ),
        decreases v@.len() - i,
    {
        let ghost rest = v@.subrange(i as int, v@.len() as int);
        proof {
            assert(rest.drop_first() =~= v@.subrange(i + 1, v@.len() as int));
            assert(rest[0] == v@[i as int]);
        }
        let ghost prev = seq_views(out@);
        let ghost curv = cur@;
        if is_rgb_sep_exec(v[i]) {
            if cur.len() > 0 {
                out.push(cur);
                cur = Vec::new();
                proof {
                    assert(seq_views(out@) =~= prev.push(curv));
                    assert(prev + rgb_tokens_acc(rest, curv) =~= seq_views(out@)
                        + rgb_tokens_acc(rest.drop_first(), cur@));
                }
            } else {
                cur = Vec::new();
                assert(cur@ =~= curv);
            }
        } else {
            cur.push(v[i]);
        }
        i = i + 1;
    }
    proof {
        assert(v@.subrange(v@.len() as int, v@.len() as int).len() == 0);
    }
    let ghost prev = seq_views(out@);
    let ghost curv = cur@;
    if cur.len() > 0 {
        out.push(cur);
        proof {
            assert(seq_views(out@) =~= prev.push(curv));
            assert(prev + seq![curv] =~= seq_views(out@));
        }
    } else {
        assert(prev + rgb_tokens_acc(Seq::<char>::empty(), curv) =~= prev);
        assert(rgb_tokens_acc(v@.subrange(v@.len() as int, v@.len() as int), curv)
            == rgb_tokens_acc(Seq::<char>::empty(), curv)) by {
            assert(v@.subrange(v@.len() as int, v@.len() as int) =~= Seq::<char>::empty());
        }
    }
    out
}

/// Parses the interior of `rgb(...)`.
fn rgb_body_vec(inner: &Vec<char>) -> (r: Option<Color>)
    ensures
        r == rgb_body(inner@),
{
    let toks = rgb_tokens_vec(inner);
    if toks.len() != 3 {
        assert(seq_views(toks@).len() == toks@.len());
        return None;
    }
    assert(toks@[0]@ == rgb_tokens(inner@)[0]);
    assert(toks@[1]@ == rgb_tokens(inner@)[1]);
    assert(toks@[2]@ == rgb_tokens(inner@)[2]);
    let c0 = rgb_component_vec(&toks[0]);
    let c1 = rgb_component_vec(&toks[1]);
    let c2 = rgb_component_vec(&toks[2]);
    match (c0, c1, c2) {
        (Some((r, ur)), Some((g, ug)), Some((b, ub))) => {
            if ur == ug && ug == ub {
                Some(Color::Rgb(r, g, b))
            } else {
                None
            }
        },
        _ => None,
    }
}

/// Parses a color name.
fn named_vec(v: &Vec<char>) -> (r: Option<Color>)
    ensures
        r == named_color(v@),
{
    if eq_str_ci(v, "black") {
        Some(Color::Black)
    } else if eq_str_ci(v, "blue") {
        Some(Color::Blue)
    } else if eq_str_ci(v, "green") {
        Some(Color::Green)
    } else if eq_str_ci(v, "red") {
        Some(Color::Red)
    } else if eq_str_ci(v, "cyan") {
        Some(Color::Cyan)
    } else if eq_str_ci(v, "magenta") {
        Some(Color::Magenta)
    } else if eq_str_ci(v, "yellow") {
        Some(Color::Yellow)
    } else if eq_str_ci(v, "white") {
        Some(Color::White)
    } else {
        None
    }
}

/// Parses a token with any `bg` prefix already removed.
fn color_body_vec(v: &Vec<char>) -> (r: Option<Color>)
    ensures
        r == color_body(v@),
{
    if v.len() > 0 && v[0] == '#' {
        let rest = subvec(v, 1, v.len());
        assert(rest@ =~= v@.drop_first());
        hex_body_vec(&rest)
    } else {
        proof {
            reveal_strlit("rgb(");
        }
        if v.len() >= 5 && v[0] == 'r' && v[1] == 'g' && v[2] == 'b' && v[3] == '(' && v[v.len()
            - 1] == ')' {
            assert(is_prefix("rgb("@, v@));
            let inner = subvec(v, 4, v.len() - 1);
            rgb_body_vec(&inner)
        } else {
            assert(!(v@.len() >= 5 && is_prefix("rgb("@, v@) && v@.last() == ')'));
            named_vec(v)
        }
    }
}

/// Parses a style token given as a character vector.
pub fn parse_color_chars(tok: &Vec<char>) -> (r: Option<(Color, bool)>)
    ensures
        r == parse_color_spec(tok@),
{
    proof {
        reveal_strlit("bg");
    }
    if tok.len() >= 2 && tok[0] == 'b' && tok[1] == 'g' {
        assert(is_prefix("bg"@, tok@));
        let rest = subvec(tok, 2, tok.len());
        assert(rest@ =~= tok@.skip(2));
        match color_body_vec(&rest) {
            Some(c) => Some((c, false)),
            None => None,
        }
    } else {
        assert(!is_prefix("bg"@, tok@));
        match color_body_vec(tok) {
            Some(c) => Some((c, true)),
            None => None,
        }
    }
}

/// Parses a style token into a color and a foreground flag; the flag is
/// false exactly when the token carries the `bg` prefix. Tokens naming no
/// color yield `None`.
pub fn parse_color(token: &str) -> (r: Option<(Color, bool)>)
    ensures
        r == parse_color_spec(token@),
{
    let v = crate::chars::str_to_chars(token);
    parse_color_chars(&v)
}

} // verus!
