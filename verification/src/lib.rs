//! A log-record rendering engine: turns a structured log event and a
//! configuration into a formatted line of text, optionally decorated with
//! terminal styles.
//!
//! The heart of the crate is a small template language: a template such as
//! `"{time} [{level:bold}] ({thread}) {target}: {message}"` describes the
//! layout of one rendered line, and each placeholder may carry style
//! modifiers (colors by name, hex or rgb; bold, italic, dim, underline,
//! strikethrough; bracket suppression for the level field).

mod chars;
mod color;
mod compose;
mod config;
mod fields;
mod filter;
mod laws;
mod render;
mod style;
mod time;

pub use color::{lemma_hex_short_form, parse_color, Color};
pub use compose::{
    compose_fallback, compose_fallback_term, lemma_plain_and_term_agree, try_log, try_log_term,
};
pub use config::{
    Config, ConfigBuilder, Level, LevelFilter, LevelPadding, LineEnding, TargetPadding,
    TerminalMode, ThreadLogMode, ThreadPadding, TimeFormat, TimeOffset, FORMAT_FILE_LOCATION,
    FORMAT_LEVEL,
    FORMAT_MODULE, FORMAT_TARGET, FORMAT_THREAD, FORMAT_TIME,
};
pub use fields::{
    write_args, write_level, write_location, write_module, write_target, write_thread,
    write_thread_id, write_thread_name, Record, ThreadInfo,
};
pub use filter::{lemma_allowed_prefix_passes, lemma_filters_open_by_default, should_skip};
pub use laws::{
    lemma_level_bracket_suppression, lemma_level_brackets, lemma_message_round_trip,
    lemma_render_one_placeholder, lemma_render_one_placeholder_unknown, lemma_unknown_key_verbatim,
    lemma_styles_do_not_change_text, lemma_unterminated_verbatim,
};
pub use render::{
    parse_and_format_log, parse_and_format_log_term, process_placeholder, segments_to_string,
    RenderCtx, SegV, Segment,
};
pub use style::{resolve_style, Style};
pub use time::{offset_ok, strftime_ok, time_config_ok, write_time, FormatError};
