//! The template renderer: walks a template left to right, copies literal
//! text, and substitutes each `{key:modifiers}` placeholder by its field
//! value under the resolved style.
//!
//! Braces always delimit placeholders; there is no escape. A placeholder
//! without a closing brace, and a placeholder with an unknown key, are
//! re-emitted verbatim rather than reported as errors.

use crate::chars::{chars_to_string, eq_str, str_to_chars, subvec};
use crate::color::{seq_views, Color};
use crate::config::Config;
use crate::style::{resolve_style, resolve_style_spec, Style};
use vstd::prelude::*;

verus! {

/// One piece of rendered output: a run of text, under one style or under
/// none.
#[derive(Debug, Clone)]
pub struct Segment {
    /// The style the text is written under; `None` writes plain text.
    pub style: Option<Style>,
    /// The text of this piece.
    pub text: String,
}

/// The mathematical value of a [`Segment`].
#[verifier::ext_equal]
pub ghost struct SegV {
    /// The style the text is written under.
    pub style: Option<Style>,
    /// The text of this piece.
    pub text: Seq<char>,
}

impl View for Segment {
    type V = SegV;

    open spec fn view(&self) -> SegV {
        SegV { style: self.style, text: self.text@ }
    }
}

/// The views of the elements of a sequence of segments.
pub open spec fn seg_views(s: Seq<Segment>) -> Seq<SegV> {
    Seq::new(s.len(), |i: int| s[i]@)
}

/// Everything one render call depends on besides the template itself: the
/// seven field values, whether styles are attached at all, and the default
/// foreground for the level field.
pub ghost struct RenderCtx {
    /// The level field, bare; the renderer itself adds the brackets.
    pub level: Seq<char>,
    /// The time field.
    pub time: Seq<char>,
    /// The thread field.
    pub thread: Seq<char>,
    /// The target field.
    pub target: Seq<char>,
    /// The source-location field.
    pub file: Seq<char>,
    /// The module field.
    pub module: Seq<char>,
    /// The message field.
    pub message: Seq<char>,
    /// Whether placeholders carry their resolved style; literal text never
    /// does.
    pub styles_on: bool,
    /// The configured color of the record's level, used as the fallback
    /// foreground of the `level` placeholder.
    pub level_default: Option<Color>,
}

/// The index of the first closing brace at or after `i`, if any.
pub open spec fn find_close_from(s: Seq<char>, i: int) -> Option<int>
    decreases s.len() - i,
{
    if i < 0 || i >= s.len() {
        None
    } else if s[i] == '}' {
        Some(i)
    } else {
        find_close_from(s, i + 1)
    }
}

/// Searching a suffix finds the same closing brace, shifted by the offset.
pub proof fn lemma_find_close_sub(s: Seq<char>, k: int, i: int)
    requires
        0 <= k <= s.len(),
        0 <= i,
    ensures
        match find_close_from(s.subrange(k, s.len() as int), i) {
            None => find_close_from(s, k + i) is None,
            Some(j) => find_close_from(s, k + i) == Some(k + j),
        },
    decreases s.len() - k - i,
{
    let sub = s.subrange(k, s.len() as int);
    if i >= sub.len() {
    } else {
        assert(sub[i] == s[k + i]);
        if sub[i] == '}' {
        } else {
            lemma_find_close_sub(s, k, i + 1);
        }
    }
}

/// A found closing brace lies in bounds and is one.
pub proof fn lemma_find_close_bounds(s: Seq<char>, i: int)
    requires
        0 <= i,
    ensures
        match find_close_from(s, i) {
            Some(j) => i <= j < s.len() && s[j] == '}',
            None => true,
        },
    decreases s.len() - i,
{
    if i < s.len() {
        if s[i] == '}' {
        } else {
            lemma_find_close_bounds(s, i + 1);
        }
    }
}

/// The parts of `s` split at every colon, `cur` being the part in
/// progress; empty parts are kept.
pub open spec fn split_colon_acc(s: Seq<char>, cur: Seq<char>) -> Seq<Seq<char>>
    decreases s.len(),
{
    if s.len() == 0 {
        seq![cur]
    } else if s[0] == ':' {
        seq![cur] + split_colon_acc(s.drop_first(), Seq::empty())
    } else {
        split_colon_acc(s.drop_first(), cur.push(s[0]))
    }
}

/// The parts of `s` split at every colon; there is always at least one.
pub open spec fn split_colon(s: Seq<char>) -> Seq<Seq<char>> {
    split_colon_acc(s, Seq::empty())
}

/// Splitting yields at least one part.
pub proof fn lemma_split_colon_nonempty(s: Seq<char>, cur: Seq<char>)
    ensures
        split_colon_acc(s, cur).len() >= 1,
    decreases s.len(),
{
    if s.len() > 0 {
        if s[0] == ':' {
            lemma_split_colon_nonempty(s.drop_first(), Seq::empty());
        } else {
            lemma_split_colon_nonempty(s.drop_first(), cur.push(s[0]));
        }
    }
}

/// Splits `v` at every colon.
fn split_colon_vec(v: &Vec<char>) -> (r: Vec<Vec<char>>)
    ensures
        seq_views(r@) == split_colon(v@),
        r@.len() >= 1,
{
    let mut out: Vec<Vec<char>> = Vec::new();
    let mut cur: Vec<char> = Vec::new();
    let mut i: usize = 0;
    proof {
        assert(v@.subrange(0, v@.len() as int) =~= v@);
        assert(seq_views(out@) + split_colon_acc(v@, cur@) =~= split_colon_acc(v@, cur@));
    }
    while i < v.len()
        invariant
            i <= v@.len(),
            split_colon(v@) == seq_views(out@) + split_colon_acc(
                v@.subrange(i as int, v@.len() as int),
                cur@,
            ),
        decreases v@.len() - i,
    {
        let ghost rest = v@.subrange(i as int, v@.len() as int);
        proof {
            assert(rest.drop_first() =~= v@.subrange(i + 1, v@.len() as int));
            assert(rest[0] == v@[i as int]);
        }
        let ghost prev = seq_views(out@);
        let ghost curv = cur@;
        if v[i] == ':' {
            out.push(cur);
            cur = Vec::new();
            proof {
                assert(seq_views(out@) =~= prev.push(curv));
                assert(prev + (seq![curv] + split_colon_acc(rest.drop_first(), Seq::empty()))
                    =~= seq_views(out@) + split_colon_acc(rest.drop_first(), cur@));
            }
        } else {
            cur.push(v[i]);
        }
        i = i + 1;
    }
    let ghost prev = seq_views(out@);
    let ghost curv = cur@;
    proof {
        assert(v@.subrange(v@.len() as int, v@.len() as int) =~= Seq::<char>::empty());
        lemma_split_colon_nonempty(v@, Seq::empty());
    }
    out.push(cur);
    proof {
        assert(seq_views(out@) =~= prev.push(curv));
        assert(prev + seq![curv] =~= seq_views(out@));
    }
    out
}

/// Whether `key` names a field a placeholder can substitute.
pub open spec fn is_known_key(key: Seq<char>) -> bool {
    ||| key == "time"@
    ||| key == "thread"@
    ||| key == "target"@
    ||| key == "level"@
    ||| key == "file"@
    ||| key == "module"@
    ||| key == "message"@
}

/// The text a known placeholder key stands for; the level is wrapped in
/// brackets unless suppression is on.
pub open spec fn field_text(key: Seq<char>, no_brackets: bool, ctx: RenderCtx) -> Seq<char> {
    if key == "time"@ {
        ctx.time
    } else if key == "thread"@ {
        ctx.thread
    } else if key == "target"@ {
        ctx.target
    } else if key == "level"@ {
        if no_brackets {
            ctx.level
        } else {
            seq!['['] + ctx.level + seq![']']
        }
    } else if key == "file"@ {
        ctx.file
    } else if key == "module"@ {
        ctx.module
    } else {
        ctx.message
    }
}

/// The one segment a known placeholder renders to: its field text under
/// the resolved style when styles are on, and under none otherwise.
#[verifier::opaque]
pub open spec fn placeholder_segv(content: Seq<char>, ctx: RenderCtx) -> SegV {
    let parts = split_colon(content);
    let key = parts[0];
    let st = resolve_style_spec(parts, 1, key == "level"@, ctx.level_default);
    SegV {
        style: if ctx.styles_on {
            Some(st)
        } else {
            None
        },
        text: field_text(key, st.no_brackets, ctx),
    }
}

/// The pending literal text as a segment list: nothing when it is empty,
/// else one unstyled segment.
pub open spec fn flush(lit: Seq<char>) -> Seq<SegV> {
    if lit.len() == 0 {
        Seq::empty()
    } else {
        seq![SegV { style: None, text: lit }]
    }
}

/// The segments rendered from the template `tpl`, with `lit` the literal
/// text already pending. Literal characters accumulate; an opening brace
/// starts a placeholder.
pub open spec fn render_segs(tpl: Seq<char>, lit: Seq<char>, ctx: RenderCtx) -> Seq<SegV>
    decreases tpl.len(), 1int,
{
    if tpl.len() == 0 {
        flush(lit)
    } else if tpl[0] == '{' {
        render_ph(tpl.drop_first(), lit, Seq::empty(), ctx)
    } else {
        render_segs(tpl.drop_first(), lit.push(tpl[0]), ctx)
    }
}

/// The segments rendered from inside a placeholder: `ph` holds the content
/// scanned so far. A closing brace resolves the placeholder — a known key
/// becomes a field segment, an unknown one is re-emitted verbatim — and an
/// exhausted template re-emits the unterminated placeholder verbatim.
pub open spec fn render_ph(s: Seq<char>, lit: Seq<char>, ph: Seq<char>, ctx: RenderCtx) -> Seq<
    SegV,
>
    decreases s.len(), 0int,
{
    if s.len() == 0 {
        flush(lit + seq!['{'] + ph)
    } else if s[0] == '}' {
        if is_known_key(split_colon(ph)[0]) {
            flush(lit) + seq![placeholder_segv(ph, ctx)] + render_segs(
                s.drop_first(),
                Seq::empty(),
                ctx,
            )
        } else {
            render_segs(s.drop_first(), lit + seq!['{'] + ph + seq!['}'], ctx)
        }
    } else {
        render_ph(s.drop_first(), lit, ph.push(s[0]), ctx)
    }
}

/// What scanning a placeholder amounts to, settled by the first closing
/// brace: without one the rest is re-emitted verbatim; with one at `j`,
/// the content up to it resolves the placeholder and rendering continues
/// after it.
pub open spec fn render_ph_step(s: Seq<char>, lit: Seq<char>, ph: Seq<char>, ctx: RenderCtx) -> Seq<
    SegV,
> {
    match find_close_from(s, 0) {
        None => flush(lit + seq!['{'] + ph + s),
        Some(j) => {
            let content = ph + s.subrange(0, j);
            let rest = s.subrange(j + 1, s.len() as int);
            if is_known_key(split_colon(content)[0]) {
                flush(lit) + seq![placeholder_segv(content, ctx)] + render_segs(
                    rest,
                    Seq::empty(),
                    ctx,
                )
            } else {
                render_segs(rest, lit + seq!['{'] + content + seq!['}'], ctx)
            }
        },
    }
}

/// Scanning a placeholder character by character computes exactly
/// [`render_ph_step`].
#[verifier::rlimit(100)]
pub proof fn lemma_render_ph(s: Seq<char>, lit: Seq<char>, ph: Seq<char>, ctx: RenderCtx)
    ensures
        render_ph(s, lit, ph, ctx) == render_ph_step(s, lit, ph, ctx),
    decreases s.len(),
{
    if s.len() == 0 {
        assert(lit + seq!['{'] + ph + s =~= lit + seq!['{'] + ph);
    } else if s[0] == '}' {
        assert(find_close_from(s, 0) == Some(0int));
        assert(ph + s.subrange(0, 0) =~= ph);
        assert(s.drop_first() =~= s.subrange(1, s.len() as int));
    } else {
        let s1 = s.drop_first();
        let ph1 = ph.push(s[0]);
        lemma_render_ph(s1, lit, ph1, ctx);
        assert(render_ph(s, lit, ph, ctx) == render_ph(s1, lit, ph1, ctx));
        lemma_find_close_sub(s, 1, 0);
        lemma_find_close_bounds(s1, 0);
        assert(s.subrange(1, s.len() as int) =~= s1);
        assert(render_ph_step(s1, lit, ph1, ctx) == render_ph_step(s, lit, ph, ctx)) by {
            assert(find_close_from(s, 0) == find_close_from(s, 1));
            match find_close_from(s1, 0) {
                None => {
                    assert(find_close_from(s, 0) is None);
                    assert(lit + seq!['{'] + ph1 + s1 =~= lit + seq!['{'] + ph + s);
                },
                Some(j1) => {
                    let j = j1 + 1;
                    assert(find_close_from(s, 0) == Some(j));
                    assert(ph1 + s1.subrange(0, j1) =~= ph + s.subrange(0, j));
                    assert(s1.subrange(j1 + 1, s1.len() as int) =~= s.subrange(
                        j + 1,
                        s.len() as int,
                    ));
                    let content = ph + s.subrange(0, j);
                    if is_known_key(split_colon(content)[0]) {
                    } else {
                        assert(lit + seq!['{'] + (ph1 + s1.subrange(0, j1)) + seq!['}'] =~= lit
                            + seq!['{'] + content + seq!['}']);
                    }
                },
            }
        }
    }
}

/// Finds the first closing brace at or after `from`.
fn find_close(v: &Vec<char>, from: usize) -> (r: Option<usize>)
    ensures
        match r {
            Some(j) => find_close_from(v@, from as int) == Some(j as int) && from <= j < v@.len(),
            None => find_close_from(v@, from as int) is None,
        },
{
    let mut i: usize = from;
    while i < v.len()
        invariant
            from <= i,
            i <= v@.len() || i == from,
            find_close_from(v@, from as int) == find_close_from(v@, i as int),
        decreases v@.len() - i,
    {
        if v[i] == '}' {
            return Some(i);
        }
        i = i + 1;
    }
    None
}

/// Resolves one placeholder's content (the text between the braces): a
/// known key yields the field's segment under the resolved style, an
/// unknown key yields nothing.
pub fn process_placeholder(
    content: &Vec<char>,
    styles_on: bool,
    level_color: Option<Color>,
    level: &str,
    time: &str,
    thread: &str,
    target: &str,
    file: &str,
    module: &str,
    message: &str,
) -> (r: Option<Segment>)
    ensures
        ({
            let ctx = RenderCtx {
                level: level@,
                time: time@,
                thread: thread@,
                target: target@,
                file: file@,
                module: module@,
                message: message@,
                styles_on,
                level_default: level_color,
            };
            match r {
                Some(seg) => is_known_key(split_colon(content@)[0]) && seg@ == placeholder_segv(
                    content@,
                    ctx,
                ),
                None => !is_known_key(split_colon(content@)[0]),
            }
        }),
{
    proof {
        reveal(placeholder_segv);
    }
    let parts = split_colon_vec(content);
    assert(parts@[0]@ == split_colon(content@)[0]);
    let is_level = eq_str(&parts[0], "level");
    let known = eq_str(&parts[0], "time") || eq_str(&parts[0], "thread") || eq_str(
        &parts[0],
        "target",
    ) || is_level || eq_str(&parts[0], "file") || eq_str(&parts[0], "module") || eq_str(
        &parts[0],
        "message",
    );
    if !known {
        return None;
    }
    let st = resolve_style(&parts, 1, is_level, level_color);
    let text: String = if eq_str(&parts[0], "time") {
        String::from_str(time)
    } else if eq_str(&parts[0], "thread") {
        String::from_str(thread)
    } else if eq_str(&parts[0], "target") {
        String::from_str(target)
    } else if is_level {
        if st.no_brackets {
            String::from_str(level)
        } else {
            let mut t = String::from_str("[");
            t.append(level);
            t.append("]");
            proof {
                reveal_strlit("[");
                reveal_strlit("]");
                assert("["@ + level@ + "]"@ =~= seq!['['] + level@ + seq![']']);
            }
            t
        }
    } else if eq_str(&parts[0], "file") {
        String::from_str(file)
    } else if eq_str(&parts[0], "module") {
        String::from_str(module)
    } else {
        String::from_str(message)
    };
    Some(
        Segment {
            style: if styles_on {
                Some(st)
            } else {
                None
            },
            text,
        },
    )
}

/// Handles one opening brace at `i`: consumes through the matching close
/// (or the rest of the template), updates the pending literal and the
/// emitted segments, and returns the position to continue from.
#[verifier::rlimit(100)]
fn handle_open(
    tpl: &Vec<char>,
    i: usize,
    out: &mut Vec<Segment>,
    lit: &mut Vec<char>,
    styles_on: bool,
    level_color: Option<Color>,
    level: &str,
    time: &str,
    thread: &str,
    target: &str,
    file: &str,
    module: &str,
    message: &str,
) -> (r: usize)
    requires
        i < tpl@.len(),
        tpl@[i as int] == '{',
    ensures
        i < r <= tpl@.len(),
        ({
            let ctx = RenderCtx {
                level: level@,
                time: time@,
                thread: thread@,
                target: target@,
                file: file@,
                module: module@,
                message: message@,
                styles_on,
                level_default: level_color,
            };
            seg_views(final(out)@) + render_segs(
                tpl@.subrange(r as int, tpl@.len() as int),
                final(lit)@,
                ctx,
            ) == seg_views(old(out)@) + render_segs(
                tpl@.subrange(i as int, tpl@.len() as int),
                old(lit)@,
                ctx,
            )
        }),
{
    let ghost ctx = RenderCtx {
        level: level@,
        time: time@,
        thread: thread@,
        target: target@,
        file: file@,
        module: module@,
        message: message@,
        styles_on,
        level_default: level_color,
    };
    let ghost n = tpl@.len() as int;
    let tlen = tpl.len();
    proof {
        lemma_render_open(tpl@, i as int, lit@, ctx);
    }
    match find_close(tpl, i + 1) {
        None => {
            let ghost litv = lit@;
            let mut tail = subvec(tpl, i, tpl.len());
            lit.append(&mut tail);
            proof {
                assert(lit@ =~= litv + tpl@.subrange(i as int, n));
                assert(tpl@.subrange(n, n) =~= Seq::<char>::empty());
            }
            tpl.len()
        },
        Some(j) => {
            let content = subvec(tpl, i + 1, j);
            let ghost litv = lit@;
            let ghost prev = seg_views(out@);
            match process_placeholder(
                &content,
                styles_on,
                level_color,
                level,
                time,
                thread,
                target,
                file,
                module,
                message,
            ) {
                Some(seg) => {
                    let ghost segv = seg@;
                    if lit.len() > 0 {
                        let lits = chars_to_string(lit);
                        out.push(Segment { style: None, text: lits });
                        lit.clear();
                    }
                    out.push(seg);
                    proof {
                        assert(lit@ =~= Seq::<char>::empty());
                        assert(seg_views(out@) =~~= prev + flush(litv) + seq![segv]);
                        assert(prev + (flush(litv) + seq![segv] + render_segs(
                            tpl@.subrange(j + 1, n),
                            Seq::empty(),
                            ctx,
                        )) =~~= seg_views(out@) + render_segs(tpl@.subrange(j + 1, n), lit@, ctx));
                    }
                    j + 1
                },
                None => {
                    let mut piece = subvec(tpl, i, j + 1);
                    lit.append(&mut piece);
                    proof {
                        assert(lit@ =~= litv + tpl@.subrange(i as int, j + 1));
                    }
                    j + 1
                },
            }
        },
    }
}

/// Renders the template of `config` against the given field values into a
/// segment list; styles are attached when `is_terminal` and the
/// configuration both allow them.
#[verifier::rlimit(100)]
fn parse_and_format_log_internal(
    config: &Config,
    level_color: Option<Color>,
    level: &str,
    time: &str,
    thread: &str,
    target: &str,
    file: &str,
    module: &str,
    message: &str,
    is_terminal: bool,
) -> (r: Vec<Segment>)
    requires
        config.formatter is Some,
    ensures
        seg_views(r@) == render_segs(
            config.formatter.unwrap()@,
            Seq::empty(),
            RenderCtx {
                level: level@,
                time: time@,
                thread: thread@,
                target: target@,
                file: file@,
                module: module@,
                message: message@,
                styles_on: is_terminal && config.enable_colors,
                level_default: level_color,
            },
        ),
{
    let styles_on = is_terminal && config.enable_colors;
    let ghost ctx = RenderCtx {
        level: level@,
        time: time@,
        thread: thread@,
        target: target@,
        file: file@,
        module: module@,
        message: message@,
        styles_on,
        level_default: level_color,
    };
    let tpl = str_to_chars(config.formatter.as_ref().unwrap().as_str());
    let ghost n = tpl@.len() as int;
    let mut out: Vec<Segment> = Vec::new();
    let mut lit: Vec<char> = Vec::new();
    let mut i: usize = 0;
    proof {
        assert(tpl@.subrange(0, n) =~= tpl@);
        assert(seg_views(out@) + render_segs(tpl@, Seq::empty(), ctx) =~= render_segs(
            tpl@,
            Seq::empty(),
            ctx,
        ));
    }
    while i < tpl.len()
        invariant
            i <= tpl@.len(),
            n == tpl@.len(),
            ctx == (RenderCtx {
                level: level@,
                time: time@,
                thread: thread@,
                target: target@,
                file: file@,
                module: module@,
                message: message@,
                styles_on,
                level_default: level_color,
            }),
            render_segs(tpl@, Seq::empty(), ctx) == seg_views(out@) + render_segs(
                tpl@.subrange(i as int, n),
                lit@,
                ctx,
            ),
        decreases n - i,
    {
        let ghost rest = tpl@.subrange(i as int, n);
        proof {
            assert(rest[0] == tpl@[i as int]);
            assert(rest.drop_first() =~= tpl@.subrange(i + 1, n));
        }
        let c = tpl[i];
        if c != '{' {
            let ghost litv = lit@;
            lit.push(c);
            i = i + 1;
            proof {
                assert(render_segs(rest, litv, ctx) == render_segs(
                    rest.drop_first(),
                    litv.push(c),
                    ctx,
                ));
                assert(lit@ == litv.push(c));
            }
        } else {
            let ghost pre_outv = seg_views(out@);
            let ghost pre_litv = lit@;
            let ghost pre_i = i as int;
            i = handle_open(
                &tpl,
                i,
                &mut out,
                &mut lit,
                styles_on,
                level_color,
                level,
                time,
                thread,
                target,
                file,
                module,
                message,
            );

        }
    }
    proof {
        assert(tpl@.subrange(i as int, n).len() == 0);
        assert(tpl@.subrange(i as int, n) =~= Seq::<char>::empty());
    }
    let ghost prev = seg_views(out@);
    let ghost litv = lit@;
    if lit.len() > 0 {
        let lits = chars_to_string(&lit);
        out.push(Segment { style: None, text: lits });
        proof {
            assert(seg_views(out@) =~= prev + flush(litv));
        }
    } else {
        proof {
            assert(seg_views(out@) =~= prev + flush(litv));
        }
    }
    out
}

/// An opening brace at `i` is settled by the first closing brace after it:
/// none re-emits the rest verbatim; one at `j` resolves the content
/// between them and rendering continues after it.
#[verifier::rlimit(100)]
pub proof fn lemma_render_open(tpl: Seq<char>, i: int, lit: Seq<char>, ctx: RenderCtx)
    requires
        0 <= i < tpl.len(),
        tpl[i] == '{',
    ensures
        render_segs(tpl.subrange(i, tpl.len() as int), lit, ctx) == match find_close_from(
            tpl,
            i + 1,
        ) {
            None => flush(lit + tpl.subrange(i, tpl.len() as int)),
            Some(j) => {
                let content = tpl.subrange(i + 1, j);
                if is_known_key(split_colon(content)[0]) {
                    flush(lit) + seq![placeholder_segv(content, ctx)] + render_segs(
                        tpl.subrange(j + 1, tpl.len() as int),
                        Seq::empty(),
                        ctx,
                    )
                } else {
                    render_segs(
                        tpl.subrange(j + 1, tpl.len() as int),
                        lit + tpl.subrange(i, j + 1),
                        ctx,
                    )
                }
            },
        },
{
    let n = tpl.len() as int;
    let rest = tpl.subrange(i, n);
    let s = rest.drop_first();
    assert(rest[0] == '{');
    assert(render_segs(rest, lit, ctx) == render_ph(s, lit, Seq::empty(), ctx));
    lemma_render_ph(s, lit, Seq::empty(), ctx);
    assert(s =~= tpl.subrange(i + 1, n));
    lemma_find_close_sub(tpl, i + 1, 0);
    lemma_find_close_bounds(s, 0);
    match find_close_from(s, 0) {
        None => {
            assert(find_close_from(tpl, i + 1) is None);
            assert(lit + seq!['{'] + Seq::<char>::empty() + s =~= lit + rest);
        },
        Some(j1) => {
            let j = i + 1 + j1;
            assert(find_close_from(tpl, i + 1) == Some(j));
            assert(Seq::<char>::empty() + s.subrange(0, j1) =~= tpl.subrange(i + 1, j));
            assert(s.subrange(j1 + 1, s.len() as int) =~= tpl.subrange(j + 1, n));
            let content = tpl.subrange(i + 1, j);
            if is_known_key(split_colon(content)[0]) {
            } else {
                assert(lit + seq!['{'] + (Seq::<char>::empty() + s.subrange(0, j1)) + seq!['}']
                    =~= lit + tpl.subrange(i, j + 1));
            }
        },
    }
}

/// Renders the configured template to plain text: literals and field
/// values only, no styles.
pub fn parse_and_format_log(
    config: &Config,
    level: &str,
    time: &str,
    thread: &str,
    target: &str,
    file: &str,
    module: &str,
    message: &str,
) -> (r: String)
    requires
        config.formatter is Some,
    ensures
        r@ == concat_texts(
            render_segs(
                config.formatter.unwrap()@,
                Seq::empty(),
                RenderCtx {
                    level: level@,
                    time: time@,
                    thread: thread@,
                    target: target@,
                    file: file@,
                    module: module@,
                    message: message@,
                    styles_on: false,
                    level_default: None,
                },
            ),
        ),
{
    let segs = parse_and_format_log_internal(
        config,
        None,
        level,
        time,
        thread,
        target,
        file,
        module,
        message,
        false,
    );
    segments_to_string(&segs)
}

/// Renders the configured template for a terminal sink: each placeholder's
/// text carries its resolved style when the configuration enables colors,
/// with `level_color` as the default foreground of the level field.
pub fn parse_and_format_log_term(
    config: &Config,
    level_color: Option<Color>,
    level: &str,
    time: &str,
    thread: &str,
    target: &str,
    file: &str,
    module: &str,
    message: &str,
) -> (r: Vec<Segment>)
    requires
        config.formatter is Some,
    ensures
        seg_views(r@) == render_segs(
            config.formatter.unwrap()@,
            Seq::empty(),
            RenderCtx {
                level: level@,
                time: time@,
                thread: thread@,
                target: target@,
                file: file@,
                module: module@,
                message: message@,
                styles_on: config.enable_colors,
                level_default: level_color,
            },
        ),
{
    parse_and_format_log_internal(
        config,
        level_color,
        level,
        time,
        thread,
        target,
        file,
        module,
        message,
        true,
    )
}

/// The concatenated text of a segment list, styles set aside.
pub open spec fn concat_texts(segs: Seq<SegV>) -> Seq<char>
    decreases segs.len(),
{
    if segs.len() == 0 {
        Seq::empty()
    } else {
        segs[0].text + concat_texts(segs.drop_first())
    }
}

/// Concatenates the text of the segments into one string.
pub fn segments_to_string(segs: &Vec<Segment>) -> (r: String)
    ensures
        r@ == concat_texts(seg_views(segs@)),
{
    let ghost views = seg_views(segs@);
    let mut r = String::new();
    let mut i: usize = 0;
    proof {
        assert(views.subrange(0, views.len() as int) =~= views);
        assert(Seq::<char>::empty() + concat_texts(views) =~= concat_texts(views));
    }
    while i < segs.len()
        invariant
            i <= segs@.len(),
            views == seg_views(segs@),
            r@ + concat_texts(views.subrange(i as int, views.len() as int)) == concat_texts(views),
        decreases segs@.len() - i,
    {
        let ghost rest = views.subrange(i as int, views.len() as int);
        proof {
            assert(rest[0] == views[i as int]);
            assert(rest.drop_first() =~= views.subrange(i + 1, views.len() as int));
        }
        r.append(segs[i].text.as_str());
        i = i + 1;
    }
    proof {
        assert(views.subrange(views.len() as int, views.len() as int) =~= Seq::<SegV>::empty());
        assert(r@ + Seq::<char>::empty() =~= r@);
    }
    r
}

} // verus!
