//! General properties of the template renderer, stated and proved once and
//! for all field values: what a lone placeholder renders to, that unknown
//! and unterminated placeholders are re-emitted verbatim, and how the level
//! field's brackets behave.

use crate::chars::lower_seq;
use crate::render::{concat_texts, field_text, find_close_from, flush, is_known_key,
    lemma_render_open, placeholder_segv, render_ph, render_segs, split_colon, split_colon_acc,
    RenderCtx,
    SegV};
use crate::style::{apply_token, plain_style, resolve_loop, resolve_style_spec};
use vstd::prelude::*;

verus! {

/// A text without colons splits into the one part accumulated so far plus
/// that text.
proof fn lemma_no_colon_split(s: Seq<char>, cur: Seq<char>)
    requires
        forall|k: int| 0 <= k < s.len() ==> s[k] != ':',
    ensures
        split_colon_acc(s, cur) == seq![cur + s],
    decreases s.len(),
{
    if s.len() == 0 {
        assert(cur + s =~= cur);
    } else {
        lemma_no_colon_split(s.drop_first(), cur.push(s[0]));
        assert(cur.push(s[0]) + s.drop_first() =~= cur + s);
    }
}

/// A text with exactly one colon splits into the two parts around it.
proof fn lemma_one_colon_split(a: Seq<char>, b: Seq<char>, cur: Seq<char>)
    requires
        forall|k: int| 0 <= k < a.len() ==> a[k] != ':',
        forall|k: int| 0 <= k < b.len() ==> b[k] != ':',
    ensures
        split_colon_acc(a + seq![':'] + b, cur) == seq![cur + a, b],
    decreases a.len(),
{
    let s = a + seq![':'] + b;
    if a.len() == 0 {
        assert(s[0] == ':');
        assert(s.drop_first() =~= b);
        lemma_no_colon_split(b, Seq::empty());
        assert(Seq::<char>::empty() + b =~= b);
        assert(seq![cur] + seq![b] =~= seq![cur + a, b]) by {
            assert(cur + a =~= cur);
        }
    } else {
        assert(s[0] == a[0]);
        assert(s.drop_first() =~= a.drop_first() + seq![':'] + b);
        lemma_one_colon_split(a.drop_first(), b, cur.push(a[0]));
        assert(cur.push(a[0]) + a.drop_first() =~= cur + a);
    }
}

/// Where no closing brace stands at or after `i`, none is found.
proof fn lemma_find_close_none(s: Seq<char>, i: int)
    requires
        0 <= i,
        forall|k: int| i <= k < s.len() ==> s[k] != '}',
    ensures
        find_close_from(s, i) is None,
    decreases s.len() - i,
{
    if i < s.len() {
        lemma_find_close_none(s, i + 1);
    }
}

/// A closing brace at `j` with none before it is the one found.
proof fn lemma_find_close_at(s: Seq<char>, i: int, j: int)
    requires
        0 <= i <= j < s.len(),
        s[j] == '}',
        forall|k: int| i <= k < j ==> s[k] != '}',
    ensures
        find_close_from(s, i) == Some(j),
    decreases j - i,
{
    if i < j {
        lemma_find_close_at(s, i + 1, j);
    }
}

/// Literal text before the rest of a template only moves into the pending
/// literal.
proof fn lemma_render_literals(p: Seq<char>, r: Seq<char>, lit: Seq<char>, ctx: RenderCtx)
    requires
        forall|k: int| 0 <= k < p.len() ==> p[k] != '{',
    ensures
        render_segs(p + r, lit, ctx) == render_segs(r, lit + p, ctx),
    decreases p.len(),
{
    if p.len() == 0 {
        assert(p + r =~= r);
        assert(lit + p =~= lit);
    } else {
        let s = p + r;
        assert(s[0] == p[0]);
        assert(s.drop_first() =~= p.drop_first() + r);
        lemma_render_literals(p.drop_first(), r, lit.push(p[0]), ctx);
        assert(lit.push(p[0]) + p.drop_first() =~= lit + p);
    }
}

/// A template that is one placeholder with a known key renders to exactly
/// that placeholder's segment.
pub proof fn lemma_render_one_placeholder(content: Seq<char>, ctx: RenderCtx)
    requires
        forall|k: int| 0 <= k < content.len() ==> content[k] != '}',
        is_known_key(split_colon(content)[0]),
    ensures
        render_segs(seq!['{'] + content + seq!['}'], Seq::empty(), ctx) == seq![
            placeholder_segv(content, ctx),
        ],
{
    let tpl = seq!['{'] + content + seq!['}'];
    let j: int = content.len() as int + 1;
    assert(tpl[0] == '{');
    assert(tpl.subrange(0, tpl.len() as int) =~= tpl);
    lemma_render_open(tpl, 0, Seq::empty(), ctx);
    assert(forall|k: int| 1 <= k < j ==> tpl[k] != '}');
    assert(tpl[j as int] == '}');
    lemma_find_close_at(tpl, 1, j as int);
    assert(tpl.subrange(1, j as int) =~= content);
    assert(tpl.subrange(j + 1, tpl.len() as int) =~= Seq::<char>::empty());
    assert(flush(Seq::<char>::empty()) + seq![placeholder_segv(content, ctx)] + render_segs(
        Seq::empty(),
        Seq::empty(),
        ctx,
    ) =~= seq![placeholder_segv(content, ctx)]);
}

/// A template that is one placeholder with an unknown key renders to its
/// own text, unchanged and unstyled.
pub proof fn lemma_render_one_placeholder_unknown(content: Seq<char>, ctx: RenderCtx)
    requires
        forall|k: int| 0 <= k < content.len() ==> content[k] != '}',
        !is_known_key(split_colon(content)[0]),
    ensures
        render_segs(seq!['{'] + content + seq!['}'], Seq::empty(), ctx) == seq![
            SegV { style: None, text: seq!['{'] + content + seq!['}'] },
        ],
{
    let tpl = seq!['{'] + content + seq!['}'];
    let j: int = content.len() as int + 1;
    assert(tpl[0] == '{');
    assert(tpl.subrange(0, tpl.len() as int) =~= tpl);
    lemma_render_open(tpl, 0, Seq::empty(), ctx);
    assert(forall|k: int| 1 <= k < j ==> tpl[k] != '}');
    assert(tpl[j as int] == '}');
    lemma_find_close_at(tpl, 1, j as int);
    assert(tpl.subrange(1, j as int) =~= content);
    assert(tpl.subrange(j + 1, tpl.len() as int) =~= Seq::<char>::empty());
    assert(Seq::<char>::empty() + tpl.subrange(0, j + 1) =~= tpl);
    assert(render_segs(tpl, Seq::empty(), ctx) == flush(tpl));
}

/// The text of a single segment.
proof fn lemma_concat_single(x: SegV)
    ensures
        concat_texts(seq![x]) == x.text,
{
    assert(seq![x][0] == x);
    assert(seq![x].drop_first() =~= Seq::<SegV>::empty());
    assert(concat_texts(Seq::<SegV>::empty()) == Seq::<char>::empty());
    assert(x.text + Seq::<char>::empty() =~= x.text);
}

/// Whether two render contexts carry the same seven field values, whatever
/// their style settings.
pub open spec fn same_fields(a: RenderCtx, b: RenderCtx) -> bool {
    &&& a.level == b.level
    &&& a.time == b.time
    &&& a.thread == b.thread
    &&& a.target == b.target
    &&& a.file == b.file
    &&& a.module == b.module
    &&& a.message == b.message
}

/// Concatenated text distributes over appended segment lists.
pub proof fn lemma_concat_app(s1: Seq<SegV>, s2: Seq<SegV>)
    ensures
        concat_texts(s1 + s2) == concat_texts(s1) + concat_texts(s2),
    decreases s1.len(),
{
    if s1.len() == 0 {
        assert(s1 + s2 =~= s2);
        assert(Seq::<char>::empty() + concat_texts(s2) =~= concat_texts(s2));
    } else {
        assert((s1 + s2)[0] == s1[0]);
        assert((s1 + s2).drop_first() =~= s1.drop_first() + s2);
        lemma_concat_app(s1.drop_first(), s2);
        assert(s1[0].text + (concat_texts(s1.drop_first()) + concat_texts(s2)) =~= (s1[0].text
            + concat_texts(s1.drop_first())) + concat_texts(s2));
    }
}

/// A placeholder's text depends on the field values alone, never on the
/// style settings of the context.
proof fn lemma_placeholder_text(content: Seq<char>, a: RenderCtx, b: RenderCtx)
    requires
        same_fields(a, b),
    ensures
        placeholder_segv(content, a).text == placeholder_segv(content, b).text,
{
    reveal(placeholder_segv);
    let parts = split_colon(content);
    let key = parts[0];
    let st_a = resolve_style_spec(parts, 1, key == "level"@, a.level_default);
    let st_b = resolve_style_spec(parts, 1, key == "level"@, b.level_default);
    assert(st_a.no_brackets == st_b.no_brackets);
    assert(field_text(key, st_a.no_brackets, a) == field_text(key, st_b.no_brackets, b));
}

/// The rendered text depends on the field values alone: two contexts that
/// agree on the fields render the same characters, whatever their style
/// settings.
pub proof fn lemma_styles_do_not_change_text(
    tpl: Seq<char>,
    lit: Seq<char>,
    a: RenderCtx,
    b: RenderCtx,
)
    requires
        same_fields(a, b),
    ensures
        concat_texts(render_segs(tpl, lit, a)) == concat_texts(render_segs(tpl, lit, b)),
    decreases tpl.len(), 1int,
{
    if tpl.len() == 0 {
    } else if tpl[0] == '{' {
        lemma_styles_text_ph(tpl.drop_first(), lit, Seq::empty(), a, b);
    } else {
        lemma_styles_do_not_change_text(tpl.drop_first(), lit.push(tpl[0]), a, b);
    }
}

/// The placeholder-scanning half of [`lemma_styles_do_not_change_text`].
proof fn lemma_styles_text_ph(s: Seq<char>, lit: Seq<char>, ph: Seq<char>, a: RenderCtx, b: RenderCtx)
    requires
        same_fields(a, b),
    ensures
        concat_texts(render_ph(s, lit, ph, a)) == concat_texts(render_ph(s, lit, ph, b)),
    decreases s.len(), 0int,
{
    if s.len() == 0 {
    } else if s[0] == '}' {
        if is_known_key(split_colon(ph)[0]) {
            lemma_placeholder_text(ph, a, b);
            lemma_styles_do_not_change_text(s.drop_first(), Seq::empty(), a, b);
            let seg_a = seq![placeholder_segv(ph, a)];
            let seg_b = seq![placeholder_segv(ph, b)];
            let rest_a = render_segs(s.drop_first(), Seq::empty(), a);
            let rest_b = render_segs(s.drop_first(), Seq::empty(), b);
            lemma_concat_app(flush(lit) + seg_a, rest_a);
            lemma_concat_app(flush(lit) + seg_b, rest_b);
            lemma_concat_app(flush(lit), seg_a);
            lemma_concat_app(flush(lit), seg_b);
            assert(concat_texts(seg_a) == concat_texts(seg_b)) by {
                assert(seg_a.drop_first() =~= Seq::<SegV>::empty());
                assert(seg_b.drop_first() =~= Seq::<SegV>::empty());
            }
        } else {
            lemma_styles_do_not_change_text(
                s.drop_first(),
                lit + seq!['{'] + ph + seq!['}'],
                a,
                b,
            );
        }
    } else {
        lemma_styles_text_ph(s.drop_first(), lit, ph.push(s[0]), a, b);
    }
}

/// Round trip: a template holding only the message placeholder renders
/// exactly the message field's text, whatever the other fields, the level
/// settings and the styles are.
pub proof fn lemma_message_round_trip(ctx: RenderCtx)
    ensures
        concat_texts(render_segs("{message}"@, Seq::empty(), ctx)) == ctx.message,
{
    reveal_strlit("{message}");
    reveal_strlit("message");
    reveal_strlit("time");
    reveal_strlit("thread");
    reveal_strlit("target");
    reveal_strlit("level");
    reveal_strlit("file");
    reveal_strlit("module");
    let content = "message"@;
    assert("{message}"@ =~= seq!['{'] + content + seq!['}']);
    lemma_no_colon_split(content, Seq::empty());
    assert(Seq::<char>::empty() + content =~= content);
    lemma_render_one_placeholder(content, ctx);
    let segv = placeholder_segv(content, ctx);
    assert(segv.text == ctx.message) by {
        reveal(placeholder_segv);
        assert(split_colon(content)[0] == content);
        assert(field_text(content, false, ctx) == ctx.message);
    }
    lemma_concat_single(segv);
}

/// Bracket suppression: a lone level placeholder carrying the `nb`
/// modifier renders the level text bare, without surrounding brackets.
pub proof fn lemma_level_bracket_suppression(ctx: RenderCtx)
    ensures
        concat_texts(render_segs("{level:nb}"@, Seq::empty(), ctx)) == ctx.level,
{
    reveal_strlit("{level:nb}");
    reveal_strlit("level");
    reveal_strlit("nb");
    reveal_strlit("bold");
    reveal_strlit("italic");
    reveal_strlit("dim");
    reveal_strlit("underline");
    reveal_strlit("strikethrough");
    reveal_strlit("nobrackets");
    reveal_strlit("no_brackets");
    reveal_strlit("time");
    reveal_strlit("thread");
    reveal_strlit("target");
    reveal_strlit("file");
    reveal_strlit("module");
    reveal_strlit("message");
    let content = "level"@ + seq![':'] + "nb"@;
    assert("{level:nb}"@ =~= seq!['{'] + content + seq!['}']);
    lemma_one_colon_split("level"@, "nb"@, Seq::empty());
    assert(Seq::<char>::empty() + "level"@ =~= "level"@);
    assert(forall|k: int| 0 <= k < content.len() ==> content[k] != '}');
    lemma_render_one_placeholder(content, ctx);
    let segv = placeholder_segv(content, ctx);
    assert(segv.text == ctx.level) by {
        reveal(placeholder_segv);
        let parts = seq!["level"@, "nb"@];
        assert(split_colon(content) == parts);
        assert(parts[0] == "level"@);
        assert(parts[1] == "nb"@);
        assert(lower_seq("nb"@) =~= "nb"@);
        let st0 = apply_token(plain_style(), "nb"@);
        assert(st0.no_brackets && st0.fg is None);
        assert(resolve_loop(parts, 1, plain_style()) == resolve_loop(parts, 2, st0));
        assert(resolve_loop(parts, 2, st0) == st0);
        let st = resolve_style_spec(parts, 1, true, ctx.level_default);
        assert(st.no_brackets);
        assert(field_text("level"@, true, ctx) == ctx.level);
    }
    lemma_concat_single(segv);
}

/// A lone level placeholder without modifiers always wraps the level text
/// in brackets.
pub proof fn lemma_level_brackets(ctx: RenderCtx)
    ensures
        concat_texts(render_segs("{level}"@, Seq::empty(), ctx)) == seq!['['] + ctx.level + seq![
            ']',
        ],
{
    reveal_strlit("{level}");
    reveal_strlit("level");
    reveal_strlit("time");
    reveal_strlit("thread");
    reveal_strlit("target");
    reveal_strlit("file");
    reveal_strlit("module");
    reveal_strlit("message");
    let content = "level"@;
    assert("{level}"@ =~= seq!['{'] + content + seq!['}']);
    lemma_no_colon_split(content, Seq::empty());
    assert(Seq::<char>::empty() + content =~= content);
    lemma_render_one_placeholder(content, ctx);
    let segv = placeholder_segv(content, ctx);
    assert(segv.text == seq!['['] + ctx.level + seq![']']) by {
        reveal(placeholder_segv);
        assert(split_colon(content)[0] == content);
    }
    lemma_concat_single(segv);
}

/// An unknown placeholder key is re-emitted as the literal placeholder
/// text, delimiters included.
pub proof fn lemma_unknown_key_verbatim(ctx: RenderCtx)
    ensures
        concat_texts(render_segs("{bogus}"@, Seq::empty(), ctx)) == "{bogus}"@,
{
    reveal_strlit("{bogus}");
    reveal_strlit("bogus");
    reveal_strlit("time");
    reveal_strlit("thread");
    reveal_strlit("target");
    reveal_strlit("level");
    reveal_strlit("file");
    reveal_strlit("module");
    reveal_strlit("message");
    let content = "bogus"@;
    assert("{bogus}"@ =~= seq!['{'] + content + seq!['}']);
    lemma_no_colon_split(content, Seq::empty());
    assert(Seq::<char>::empty() + content =~= content);
    assert(!is_known_key(split_colon(content)[0]));
    lemma_render_one_placeholder_unknown(content, ctx);
    lemma_concat_single(SegV { style: None, text: seq!['{'] + content + seq!['}'] });
    assert(seq!['{'] + content + seq!['}'] =~= "{bogus}"@);
}

/// An unterminated placeholder causes the remaining text, from the opening
/// brace on, to be emitted verbatim.
pub proof fn lemma_unterminated_verbatim(ctx: RenderCtx)
    ensures
        concat_texts(render_segs("prefix {time"@, Seq::empty(), ctx)) == "prefix {time"@,
{
    reveal_strlit("prefix {time");
    reveal_strlit("prefix ");
    reveal_strlit("time");
    let p = "prefix "@;
    let c = "time"@;
    let tpl1 = seq!['{'] + c;
    assert("prefix {time"@ =~= p + tpl1);
    lemma_render_literals(p, tpl1, Seq::empty(), ctx);
    assert(Seq::<char>::empty() + p =~= p);
    assert(tpl1[0] == '{');
    lemma_render_open(tpl1, 0, p, ctx);
    assert(forall|k: int| 1 <= k < tpl1.len() ==> tpl1[k] != '}');
    lemma_find_close_none(tpl1, 1);
    assert(tpl1.subrange(0, tpl1.len() as int) =~= tpl1);
    assert(render_segs(tpl1, p, ctx) == flush(p + tpl1));
    assert((p + tpl1).len() > 0);
    lemma_concat_single(SegV { style: None, text: p + tpl1 });
    assert(p + tpl1 =~= "prefix {time"@);
}

} // verus!
