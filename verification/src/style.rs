//! The style directive resolver: turns the colon-separated modifier list of
//! a placeholder (`bold`, `italic`, `dim`, `underline`, `strikethrough`,
//! bracket suppression, and color tokens) into a style descriptor.

use crate::chars::eq_str_ci;
use crate::chars::lower_seq;
use crate::color::{parse_color_chars, parse_color_spec, seq_views, Color};
use vstd::prelude::*;

verus! {

/// The resolved style of one placeholder occurrence: optional foreground
/// and background colors, the five boolean style flags, and whether the
/// brackets around the level field are suppressed.
#[derive(Debug, Clone, Copy, PartialEq, Eq)]
pub struct Style {
    /// Foreground color, when one was named.
    pub fg: Option<Color>,
    /// Background color, when one was named.
    pub bg: Option<Color>,
    /// Bold type.
    pub bold: bool,
    /// Italic type.
    pub italic: bool,
    /// Dimmed type.
    pub dim: bool,
    /// Underlined type.
    pub underline: bool,
    /// Struck-through type.
    pub strikethrough: bool,
    /// Whether the brackets around the level field are suppressed.
    pub no_brackets: bool,
}

/// The style of a placeholder with no modifiers.
pub open spec fn plain_style() -> Style {
    Style {
        fg: None,
        bg: None,
        bold: false,
        italic: false,
        dim: false,
        underline: false,
        strikethrough: false,
        no_brackets: false,
    }
}

/// One modifier token applied to a style: the boolean keywords, matched
/// without regard to ASCII case, set their flag; the bracket-suppression
/// keywords set that flag; any other token is handed to the color parser,
/// and the first successful foreground or background match wins.
pub open spec fn apply_token(acc: Style, tok: Seq<char>) -> Style {
    let l = lower_seq(tok);
    if l == "bold"@ {
        Style { bold: true, ..acc }
    } else if l == "italic"@ {
        Style { italic: true, ..acc }
    } else if l == "dim"@ {
        Style { dim: true, ..acc }
    } else if l == "underline"@ {
        Style { underline: true, ..acc }
    } else if l == "strikethrough"@ {
        Style { strikethrough: true, ..acc }
    } else if l == "nb"@ || l == "nobrackets"@ || l == "no_brackets"@ {
        Style { no_brackets: true, ..acc }
    } else {
        match parse_color_spec(tok) {
            Some((c, true)) => if acc.fg is None {
                Style { fg: Some(c), ..acc }
            } else {
                acc
            },
            Some((c, false)) => if acc.bg is None {
                Style { bg: Some(c), ..acc }
            } else {
                acc
            },
            None => acc,
        }
    }
}

/// The style after applying the tokens from index `i` on to `acc`.
pub open spec fn resolve_loop(mods: Seq<Seq<char>>, i: int, acc: Style) -> Style
    decreases mods.len() - i,
{
    if 0 <= i < mods.len() {
        resolve_loop(mods, i + 1, apply_token(acc, mods[i]))
    } else {
        acc
    }
}

/// The style descriptor of a placeholder whose modifier tokens stand in
/// `mods` from index `start` on. For the `level` placeholder, a missing
/// foreground color falls back to the configured per-level color.
pub open spec fn resolve_style_spec(
    mods: Seq<Seq<char>>,
    start: int,
    is_level: bool,
    level_default: Option<Color>,
) -> Style {
    let st = resolve_loop(mods, start, plain_style());
    if is_level && st.fg is None {
        Style { fg: level_default, ..st }
    } else {
        st
    }
}

/// Resolves the modifier tokens of one placeholder, stored in `mods` from
/// index `start` on, into a style descriptor.
pub fn resolve_style(
    mods: &Vec<Vec<char>>,
    start: usize,
    is_level: bool,
    level_default: Option<Color>,
) -> (r: Style)
    ensures
        r == resolve_style_spec(seq_views(mods@), start as int, is_level, level_default),
{
    let mut st = Style {
        fg: None,
        bg: None,
        bold: false,
        italic: false,
        dim: false,
        underline: false,
        strikethrough: false,
        no_brackets: false,
    };
    let ghost views = seq_views(mods@);
    let mut i: usize = start;
    proof {
        assert(st == plain_style());
    }
    while i < mods.len()
        invariant
            start <= i,
            i <= mods@.len() || i == start,
            views == seq_views(mods@),
            resolve_loop(views, i as int, st) == resolve_loop(views, start as int, plain_style()),
        decreases mods@.len() - i,
    {
        let tok = &mods[i];
        assert(tok@ == views[i as int]);
        let ghost prev = st;
        if eq_str_ci(tok, "bold") {
            st.bold = true;
        } else if eq_str_ci(tok, "italic") {
            st.italic = true;
        } else if eq_str_ci(tok, "dim") {
            st.dim = true;
        } else if eq_str_ci(tok, "underline") {
            st.underline = true;
        } else if eq_str_ci(tok, "strikethrough") {
            st.strikethrough = true;
        } else if eq_str_ci(tok, "nb") || eq_str_ci(tok, "nobrackets") || eq_str_ci(
            tok,
            "no_brackets",
        ) {
            st.no_brackets = true;
        } else {
            match parse_color_chars(tok) {
                Some((c, true)) => {
                    if st.fg.is_none() {
                        st.fg = Some(c);
                    }
                },
                Some((c, false)) => {
                    if st.bg.is_none() {
                        st.bg = Some(c);
                    }
                },
                None => {},
            }
        }
        assert(st == apply_token(prev, views[i as int]));
        i = i + 1;
    }
    assert(st == resolve_loop(views, start as int, plain_style()));
    if is_level {
        if st.fg.is_none() {
            st.fg = level_default;
        }
    }
    st
}

} // verus!
