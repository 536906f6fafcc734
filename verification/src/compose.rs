//! The fallback line composer and the top-level entry points: filter the
//! record, extract the fields, and render either through the configured
//! template or through the fixed default layout.

use crate::color::Color;
use crate::config::{Config, TimeFormat, FORMAT_FILE_LOCATION, FORMAT_LEVEL, FORMAT_MODULE,
    FORMAT_TARGET, FORMAT_THREAD, FORMAT_TIME};
use crate::fields::{args_field_spec, level_field_spec, location_field_spec, module_field_spec,
    target_field_spec, thread_field_spec, write_args, write_level, write_location, write_module,
    write_target, write_thread, Record, ThreadInfo};
use crate::config::{level_enabled, level_in_range};
use crate::filter::{should_skip, should_skip_spec};
use crate::laws::{lemma_concat_app, lemma_styles_do_not_change_text, same_fields};
use crate::render::{concat_texts, parse_and_format_log, parse_and_format_log_term, render_segs,
    seg_views, segments_to_string, RenderCtx, SegV, Segment};
use crate::style::Style;
use crate::time::{offset_ok, strftime_ok, time_config_ok, write_time, FormatError};
use vstd::prelude::*;

verus! {

/// Whether the bit `flag` is set in `format`.
pub open spec fn has_flag(format: u8, flag: u8) -> bool {
    format & flag != 0
}

/// Whether `e` is the error the configured time formatting produces: an
/// out-of-range offset takes precedence, and a rejected pattern is
/// reported only with the offset in order.
pub open spec fn time_error_fits(c: Config, e: FormatError) -> bool {
    match e {
        FormatError::InvalidTimeOffset => !offset_ok(c.time_offset),
        FormatError::InvalidTimePattern => offset_ok(c.time_offset) && (
        c.time_format matches TimeFormat::Custom(p) && !strftime_ok(p@)),
    }
}

/// The render context extracted from a record: each field is its extracted
/// string when its flag is set and empty otherwise; the message always
/// carries the configured line ending.
pub open spec fn extracted_ctx(
    config: Config,
    record: Record,
    thread: ThreadInfo,
    time: Seq<char>,
    styles_on: bool,
    level_default: Option<Color>,
) -> RenderCtx {
    RenderCtx {
        level: if has_flag(config.format, FORMAT_LEVEL) {
            level_field_spec(record.level, config.level_padding)
        } else {
            Seq::empty()
        },
        time: if has_flag(config.format, FORMAT_TIME) {
            time
        } else {
            Seq::empty()
        },
        thread: if has_flag(config.format, FORMAT_THREAD) {
            thread_field_spec(thread, config)
        } else {
            Seq::empty()
        },
        target: if has_flag(config.format, FORMAT_TARGET) {
            target_field_spec(record.target@, config.target_padding)
        } else {
            Seq::empty()
        },
        file: if has_flag(config.format, FORMAT_FILE_LOCATION) {
            location_field_spec(record)
        } else {
            Seq::empty()
        },
        module: if has_flag(config.format, FORMAT_MODULE) {
            module_field_spec(record)
        } else {
            Seq::empty()
        },
        message: args_field_spec(record, config.line_ending@),
        styles_on,
        level_default,
    }
}

/// The default layout as a segment list: whichever of time, bracketed
/// level, parenthesized thread, target with a colon, message and bracketed
/// location are non-empty, in that order, then the line ending. Only the
/// level piece may carry a style.
pub open spec fn fallback_segs(
    time: Seq<char>,
    level: Seq<char>,
    thread: Seq<char>,
    target: Seq<char>,
    message: Seq<char>,
    location: Seq<char>,
    ending: Seq<char>,
    level_style: Option<Style>,
) -> Seq<SegV> {
    (if time.len() > 0 {
        seq![SegV { style: None, text: time }]
    } else {
        Seq::empty()
    }) + (if level.len() > 0 {
        seq![SegV { style: level_style, text: seq![' ', '['] + level + seq![']'] }]
    } else {
        Seq::empty()
    }) + (if thread.len() > 0 {
        seq![SegV { style: None, text: seq![' ', '('] + thread + seq![')'] }]
    } else {
        Seq::empty()
    }) + (if target.len() > 0 {
        seq![SegV { style: None, text: seq![' '] + target + seq![':'] }]
    } else {
        Seq::empty()
    }) + (if message.len() > 0 {
        seq![SegV { style: None, text: seq![' '] + message }]
    } else {
        Seq::empty()
    }) + (if location.len() > 0 {
        seq![SegV { style: None, text: seq![' ', '['] + location + seq![']'] }]
    } else {
        Seq::empty()
    }) + seq![SegV { style: None, text: ending }]
}

/// Composes the default layout as segments; only the level piece carries
/// `level_style`.
pub fn compose_fallback_term(
    time: &str,
    level: &str,
    thread: &str,
    target: &str,
    message: &str,
    location: &str,
    ending: &str,
    level_style: Option<Style>,
) -> (r: Vec<Segment>)
    ensures
        seg_views(r@) == fallback_segs(
            time@,
            level@,
            thread@,
            target@,
            message@,
            location@,
            ending@,
            level_style,
        ),
{
    proof {
        reveal_strlit(" [");
        reveal_strlit(" (");
        reveal_strlit(" ");
        reveal_strlit("]");
        reveal_strlit(")");
        reveal_strlit(":");
    }
    let mut out: Vec<Segment> = Vec::new();
    if !time.is_empty() {
        out.push(Segment { style: None, text: String::from_str(time) });
    }
    if !level.is_empty() {
        let mut t = String::from_str(" [");
        t.append(level);
        t.append("]");
        proof {
            assert(" ["@ + level@ + "]"@ =~= seq![' ', '['] + level@ + seq![']']);
        }
        out.push(Segment { style: level_style, text: t });
    }
    if !thread.is_empty() {
        let mut t = String::from_str(" (");
        t.append(thread);
        t.append(")");
        proof {
            assert(" ("@ + thread@ + ")"@ =~= seq![' ', '('] + thread@ + seq![')']);
        }
        out.push(Segment { style: None, text: t });
    }
    if !target.is_empty() {
        let mut t = String::from_str(" ");
        t.append(target);
        t.append(":");
        proof {
            assert(" "@ + target@ + ":"@ =~= seq![' '] + target@ + seq![':']);
        }
        out.push(Segment { style: None, text: t });
    }
    if !message.is_empty() {
        let mut t = String::from_str(" ");
        t.append(message);
        proof {
            assert(" "@ + message@ =~= seq![' '] + message@);
        }
        out.push(Segment { style: None, text: t });
    }
    if !location.is_empty() {
        let mut t = String::from_str(" [");
        t.append(location);
        t.append("]");
        proof {
            assert(" ["@ + location@ + "]"@ =~= seq![' ', '['] + location@ + seq![']']);
        }
        out.push(Segment { style: None, text: t });
    }
    out.push(Segment { style: None, text: String::from_str(ending) });
    proof {
        assert(seg_views(out@) =~~= fallback_segs(
            time@,
            level@,
            thread@,
            target@,
            message@,
            location@,
            ending@,
            level_style,
        ));
    }
    out
}

/// Composes the default layout as plain text.
pub fn compose_fallback(
    time: &str,
    level: &str,
    thread: &str,
    target: &str,
    message: &str,
    location: &str,
    ending: &str,
) -> (r: String)
    ensures
        r@ == concat_texts(
            fallback_segs(time@, level@, thread@, target@, message@, location@, ending@, None),
        ),
{
    let segs = compose_fallback_term(time, level, thread, target, message, location, ending, None);
    segments_to_string(&segs)
}

/// The plain line a record renders to, given the time field's text: the
/// configured template's output, or the default layout.
pub open spec fn composed_line(
    config: Config,
    record: Record,
    thread: ThreadInfo,
    time: Seq<char>,
) -> Seq<char> {
    let ctx = extracted_ctx(config, record, thread, time, false, None);
    if config.formatter is Some {
        concat_texts(render_segs(config.formatter.unwrap()@, Seq::empty(), ctx))
    } else {
        concat_texts(
            fallback_segs(
                ctx.time,
                ctx.level,
                ctx.thread,
                ctx.target,
                record.args@,
                ctx.file,
                config.line_ending@,
                None,
            ),
        )
    }
}

/// Attempts to render a log record to plain text. A record the filters or
/// the level range reject yields no line; otherwise the line follows the
/// configured template or the default layout, and the only possible error
/// is a rejected custom time pattern.
pub fn try_log(config: &Config, record: &Record, thread: &ThreadInfo) -> (r: Result<
    Option<String>,
    FormatError,
>)
    ensures
        should_skip_spec(*config, record.target@) || !level_in_range(*config, record.level) ==> r
            == Ok::<Option<String>, FormatError>(None),
        !should_skip_spec(*config, record.target@) && level_in_range(*config, record.level)
            ==> match r {
            Ok(Some(s)) => exists|t: Seq<char>|
                s@ == #[trigger] composed_line(*config, *record, *thread, t),
            Ok(None) => false,
            Err(e) => has_flag(config.format, FORMAT_TIME) && time_error_fits(*config, e),
        },
        !should_skip_spec(*config, record.target@) && level_in_range(*config, record.level)
            && !has_flag(config.format, FORMAT_TIME) ==> match r {
            Ok(Some(s)) => s@ == composed_line(*config, *record, *thread, Seq::empty()),
            _ => false,
        },
        !should_skip_spec(*config, record.target@) && level_in_range(*config, record.level) && (
        !has_flag(config.format, FORMAT_TIME) || time_config_ok(*config)) ==> r is Ok,
        !should_skip_spec(*config, record.target@) && level_in_range(*config, record.level)
            && has_flag(config.format, FORMAT_TIME) && !time_config_ok(*config) ==> r is Err,
{
    if should_skip(config, record) {
        return Ok(None);
    }
    if !level_enabled(config, record.level) {
        return Ok(None);
    }
    let mut time_s = String::new();
    if config.format & FORMAT_TIME != 0 {
        match write_time(config) {
            Ok(t) => {
                time_s = t;
            },
            Err(e) => {
                return Err(e);
            },
        }
    }
    let level_s = if config.format & FORMAT_LEVEL != 0 {
        write_level(record, config)
    } else {
        String::new()
    };
    let thread_s = if config.format & FORMAT_THREAD != 0 {
        write_thread(config, thread)
    } else {
        String::new()
    };
    let target_s = if config.format & FORMAT_TARGET != 0 {
        write_target(record, config)
    } else {
        String::new()
    };
    let location_s = if config.format & FORMAT_FILE_LOCATION != 0 {
        write_location(record)
    } else {
        String::new()
    };
    let module_s = if config.format & FORMAT_MODULE != 0 {
        write_module(record)
    } else {
        String::new()
    };
    let args_s = write_args(record, config.line_ending.as_str());
    let ghost ctx = extracted_ctx(*config, *record, *thread, time_s@, false, None);
    let line = if config.formatter.is_some() {
        parse_and_format_log(
            config,
            level_s.as_str(),
            time_s.as_str(),
            thread_s.as_str(),
            target_s.as_str(),
            location_s.as_str(),
            module_s.as_str(),
            args_s.as_str(),
        )
    } else {
        compose_fallback(
            time_s.as_str(),
            level_s.as_str(),
            thread_s.as_str(),
            target_s.as_str(),
            record.args.as_str(),
            location_s.as_str(),
            config.line_ending.as_str(),
        )
    };
    proof {
        assert(line@ == composed_line(*config, *record, *thread, time_s@));
    }
    Ok(Some(line))
}

/// The segments a record renders to for a terminal sink, given the time
/// field's text: the configured template's output with styles when colors
/// are enabled, or the default layout with the level piece colored by the
/// per-level table.
pub open spec fn composed_segs(
    config: Config,
    record: Record,
    thread: ThreadInfo,
    time: Seq<char>,
) -> Seq<SegV> {
    let lc = config.level_color@[record.level.ordinal()];
    let ctx = extracted_ctx(config, record, thread, time, config.enable_colors, lc);
    if config.formatter is Some {
        render_segs(config.formatter.unwrap()@, Seq::empty(), ctx)
    } else {
        fallback_segs(
            ctx.time,
            ctx.level,
            ctx.thread,
            ctx.target,
            record.args@,
            ctx.file,
            config.line_ending@,
            if config.enable_colors {
                Some(
                    Style {
                        fg: lc,
                        bg: None,
                        bold: false,
                        italic: false,
                        dim: false,
                        underline: false,
                        strikethrough: false,
                        no_brackets: false,
                    },
                )
            } else {
                None
            },
        )
    }
}

/// The text of the default layout does not depend on the level piece's
/// style.
proof fn lemma_fallback_style_free(
    time: Seq<char>,
    level: Seq<char>,
    thread: Seq<char>,
    target: Seq<char>,
    message: Seq<char>,
    location: Seq<char>,
    ending: Seq<char>,
    s1: Option<Style>,
    s2: Option<Style>,
)
    ensures
        concat_texts(fallback_segs(time, level, thread, target, message, location, ending, s1))
            == concat_texts(
            fallback_segs(time, level, thread, target, message, location, ending, s2),
        ),
{
    let p1 = if time.len() > 0 {
        seq![SegV { style: None, text: time }]
    } else {
        Seq::<SegV>::empty()
    };
    let a2 = if level.len() > 0 {
        seq![SegV { style: s1, text: seq![' ', '['] + level + seq![']'] }]
    } else {
        Seq::<SegV>::empty()
    };
    let b2 = if level.len() > 0 {
        seq![SegV { style: s2, text: seq![' ', '['] + level + seq![']'] }]
    } else {
        Seq::<SegV>::empty()
    };
    let p3 = if thread.len() > 0 {
        seq![SegV { style: None, text: seq![' ', '('] + thread + seq![')'] }]
    } else {
        Seq::<SegV>::empty()
    };
    let p4 = if target.len() > 0 {
        seq![SegV { style: None, text: seq![' '] + target + seq![':'] }]
    } else {
        Seq::<SegV>::empty()
    };
    let p5 = if message.len() > 0 {
        seq![SegV { style: None, text: seq![' '] + message }]
    } else {
        Seq::<SegV>::empty()
    };
    let p6 = if location.len() > 0 {
        seq![SegV { style: None, text: seq![' ', '['] + location + seq![']'] }]
    } else {
        Seq::<SegV>::empty()
    };
    let p7 = seq![SegV { style: None, text: ending }];
    lemma_concat_app(p1, a2);
    lemma_concat_app(p1, b2);
    lemma_concat_app(p1 + a2, p3);
    lemma_concat_app(p1 + b2, p3);
    lemma_concat_app(p1 + a2 + p3, p4);
    lemma_concat_app(p1 + b2 + p3, p4);
    lemma_concat_app(p1 + a2 + p3 + p4, p5);
    lemma_concat_app(p1 + b2 + p3 + p4, p5);
    lemma_concat_app(p1 + a2 + p3 + p4 + p5, p6);
    lemma_concat_app(p1 + b2 + p3 + p4 + p5, p6);
    lemma_concat_app(p1 + a2 + p3 + p4 + p5 + p6, p7);
    lemma_concat_app(p1 + b2 + p3 + p4 + p5 + p6, p7);
    assert(concat_texts(a2) == concat_texts(b2)) by {
        if level.len() > 0 {
            assert(a2.drop_first() =~= Seq::<SegV>::empty());
            assert(b2.drop_first() =~= Seq::<SegV>::empty());
        }
    }
}

/// The plain line and the terminal segments of one record agree: the text
/// of the styled segments is exactly the plain rendering, whatever the
/// color settings, so a color-incapable sink sees the very same characters.
pub proof fn lemma_plain_and_term_agree(
    config: Config,
    record: Record,
    thread: ThreadInfo,
    time: Seq<char>,
)
    ensures
        concat_texts(composed_segs(config, record, thread, time)) == composed_line(
            config,
            record,
            thread,
            time,
        ),
{
    let lc = config.level_color@[record.level.ordinal()];
    let ctx_p = extracted_ctx(config, record, thread, time, false, None);
    let ctx_s = extracted_ctx(config, record, thread, time, config.enable_colors, lc);
    assert(same_fields(ctx_s, ctx_p));
    if config.formatter is Some {
        lemma_styles_do_not_change_text(config.formatter.unwrap()@, Seq::empty(), ctx_s, ctx_p);
    } else {
        lemma_fallback_style_free(
            ctx_s.time,
            ctx_s.level,
            ctx_s.thread,
            ctx_s.target,
            record.args@,
            ctx_s.file,
            config.line_ending@,
            if config.enable_colors {
                Some(
                    Style {
                        fg: lc,
                        bg: None,
                        bold: false,
                        italic: false,
                        dim: false,
                        underline: false,
                        strikethrough: false,
                        no_brackets: false,
                    },
                )
            } else {
                None
            },
            None,
        );
    }
}

/// Attempts to render a log record for a terminal sink: like [`try_log`],
/// but each styled piece carries its style so the sink can set and reset
/// it around the text.
pub fn try_log_term(config: &Config, record: &Record, thread: &ThreadInfo) -> (r: Result<
    Option<Vec<Segment>>,
    FormatError,
>)
    requires
        config.wf(),
    ensures
        should_skip_spec(*config, record.target@) || !level_in_range(*config, record.level) ==> (r
            matches Ok(o) && o is None),
        !should_skip_spec(*config, record.target@) && level_in_range(*config, record.level)
            ==> match r {
            Ok(Some(v)) => exists|t: Seq<char>|
                seg_views(v@) == #[trigger] composed_segs(*config, *record, *thread, t),
            Ok(None) => false,
            Err(e) => has_flag(config.format, FORMAT_TIME) && time_error_fits(*config, e),
        },
        !should_skip_spec(*config, record.target@) && level_in_range(*config, record.level)
            && !has_flag(config.format, FORMAT_TIME) ==> match r {
            Ok(Some(v)) => seg_views(v@) == composed_segs(*config, *record, *thread, Seq::empty()),
            _ => false,
        },
        !should_skip_spec(*config, record.target@) && level_in_range(*config, record.level) && (
        !has_flag(config.format, FORMAT_TIME) || time_config_ok(*config)) ==> r is Ok,
        !should_skip_spec(*config, record.target@) && level_in_range(*config, record.level)
            && has_flag(config.format, FORMAT_TIME) && !time_config_ok(*config) ==> r is Err,
{
    if should_skip(config, record) {
        return Ok(None);
    }
    if !level_enabled(config, record.level) {
        return Ok(None);
    }
    let level_color = config.level_color[record.level.as_usize()];
    let mut time_s = String::new();
    if config.format & FORMAT_TIME != 0 {
        match write_time(config) {
            Ok(t) => {
                time_s = t;
            },
            Err(e) => {
                return Err(e);
            },
        }
    }
    let level_s = if config.format & FORMAT_LEVEL != 0 {
        write_level(record, config)
    } else {
        String::new()
    };
    let thread_s = if config.format & FORMAT_THREAD != 0 {
        write_thread(config, thread)
    } else {
        String::new()
    };
    let target_s = if config.format & FORMAT_TARGET != 0 {
        write_target(record, config)
    } else {
        String::new()
    };
    let location_s = if config.format & FORMAT_FILE_LOCATION != 0 {
        write_location(record)
    } else {
        String::new()
    };
    let module_s = if config.format & FORMAT_MODULE != 0 {
        write_module(record)
    } else {
        String::new()
    };
    let args_s = write_args(record, config.line_ending.as_str());
    let segs = if config.formatter.is_some() {
        parse_and_format_log_term(
            config,
            level_color,
            level_s.as_str(),
            time_s.as_str(),
            thread_s.as_str(),
            target_s.as_str(),
            location_s.as_str(),
            module_s.as_str(),
            args_s.as_str(),
        )
    } else {
        let style = if config.enable_colors {
            Some(
                Style {
                    fg: level_color,
                    bg: None,
                    bold: false,
                    italic: false,
                    dim: false,
                    underline: false,
                    strikethrough: false,
                    no_brackets: false,
                },
            )
        } else {
            None
        };
        compose_fallback_term(
            time_s.as_str(),
            level_s.as_str(),
            thread_s.as_str(),
            target_s.as_str(),
            record.args.as_str(),
            location_s.as_str(),
            config.line_ending.as_str(),
            style,
        )
    };
    proof {
        assert(seg_views(segs@) == composed_segs(*config, *record, *thread, time_s@));
    }
    Ok(Some(segs))
}

} // verus!
