//! The field extractor: derives the renderable field strings (level,
//! thread, target, source location, module, message) from a log record and
//! the configuration's padding rules.

use crate::chars::{chars_to_string, dec_str, pad_left, pad_left_spec, pad_right, pad_right_spec,
    push_u32_dec, str_to_chars};
use crate::config::{Config, Level, LevelPadding, TargetPadding, ThreadLogMode, ThreadPadding};
use vstd::prelude::*;

verus! {

/// One log record, read-only to the engine: severity, target, optional
/// source location and module, and the message text.
#[derive(Debug, Clone)]
pub struct Record {
    /// Severity of the record.
    pub level: Level,
    /// The hierarchical namespace the record belongs to.
    pub target: String,
    /// Source file of the call site, when known.
    pub file: Option<String>,
    /// Source line of the call site, when known.
    pub line: Option<u32>,
    /// Module path of the call site, when known.
    pub module: Option<String>,
    /// The formatted message text.
    pub args: String,
}

/// What is known about the calling thread, gathered by the caller.
#[derive(Debug, Clone)]
pub struct ThreadInfo {
    /// The thread's name, when it has one.
    pub name: Option<String>,
    /// The thread's numeric id, already formatted without wrapper
    /// characters.
    pub id: String,
}

/// The level field: the level name, padded to the width of the longest
/// level name as configured.
pub open spec fn level_field_spec(level: Level, pad: LevelPadding) -> Seq<char> {
    match pad {
        LevelPadding::Left => pad_left_spec(level.name_spec(), 5),
        LevelPadding::Right => pad_right_spec(level.name_spec(), 5),
        LevelPadding::Off => level.name_spec(),
    }
}

/// Writes the log level based on the configured padding.
pub fn write_level(record: &Record, config: &Config) -> (r: String)
    ensures
        r@ == level_field_spec(record.level, config.level_padding),
{
    let name = record.level.name();
    match config.level_padding {
        LevelPadding::Left => pad_left(name, 5),
        LevelPadding::Right => pad_right(name, 5),
        LevelPadding::Off => String::from_str(name),
    }
}

/// The target field: the record's target, padded as configured.
pub open spec fn target_field_spec(target: Seq<char>, pad: TargetPadding) -> Seq<char> {
    match pad {
        TargetPadding::Left(w) => pad_left_spec(target, w as nat),
        TargetPadding::Right(w) => pad_right_spec(target, w as nat),
        TargetPadding::Off => target,
    }
}

/// Writes the target of the log record based on the configured padding.
pub fn write_target(record: &Record, config: &Config) -> (r: String)
    ensures
        r@ == target_field_spec(record.target@, config.target_padding),
{
    match config.target_padding {
        TargetPadding::Left(w) => pad_left(record.target.as_str(), w),
        TargetPadding::Right(w) => pad_right(record.target.as_str(), w),
        TargetPadding::Off => String::from_str(record.target.as_str()),
    }
}

/// `s` with every backslash replaced by a forward slash.
pub open spec fn normalize_slashes(s: Seq<char>) -> Seq<char> {
    s.map_values(|c: char| if c == '\\' { '/' } else { c })
}

/// Replaces every backslash in `s` by a forward slash.
fn replace_backslashes(s: &str) -> (r: String)
    ensures
        r@ == normalize_slashes(s@),
{
    let v = str_to_chars(s);
    let mut out: Vec<char> = Vec::new();
    let mut i: usize = 0;
    while i < v.len()
        invariant
            i <= v@.len(),
            out@ == normalize_slashes(v@.subrange(0, i as int)),
        decreases v@.len() - i,
    {
        let c = v[i];
        if c == '\\' {
            out.push('/');
        } else {
            out.push(c);
        }
        i = i + 1;
        assert(out@ =~= normalize_slashes(v@.subrange(0, i as int)));
    }
    assert(v@.subrange(0, v@.len() as int) =~= v@);
    chars_to_string(&out)
}

/// The source-location field: `file:line`, with the token `<unknown>` for
/// either part when absent, and path separators normalized to forward
/// slashes.
pub open spec fn location_field_spec(rec: Record) -> Seq<char> {
    let f = normalize_slashes(
        match rec.file {
            Some(f) => f@,
            None => "<unknown>"@,
        },
    );
    match rec.line {
        Some(l) => f + seq![':'] + dec_str(l as nat),
        None => f + ":<unknown>"@,
    }
}

/// Writes the file and line number of the log record's source location.
pub fn write_location(record: &Record) -> (r: String)
    ensures
        r@ == location_field_spec(*record),
{
    let mut f = match &record.file {
        Some(file) => replace_backslashes(file.as_str()),
        None => replace_backslashes("<unknown>"),
    };
    match record.line {
        Some(l) => {
            f.push(':');
            push_u32_dec(&mut f, l);
        },
        None => {
            f.append(":<unknown>");
        },
    }
    f
}

/// The module field: the record's module path, or `<unknown>`.
pub open spec fn module_field_spec(rec: Record) -> Seq<char> {
    match rec.module {
        Some(m) => m@,
        None => "<unknown>"@,
    }
}

/// Writes the module path of the log record.
pub fn write_module(record: &Record) -> (r: String)
    ensures
        r@ == module_field_spec(*record),
{
    match &record.module {
        Some(m) => String::from_str(m.as_str()),
        None => String::from_str("<unknown>"),
    }
}

/// The message field: the record's message with the configured line ending
/// appended.
pub open spec fn args_field_spec(rec: Record, line_ending: Seq<char>) -> Seq<char> {
    rec.args@ + line_ending
}

/// Writes the message of the log record, appending a line ending.
pub fn write_args(record: &Record, line_ending: &str) -> (r: String)
    ensures
        r@ == args_field_spec(*record, line_ending@),
{
    let mut r = String::from_str(record.args.as_str());
    r.append(line_ending);
    r
}

/// A string padded as the thread field is configured to be.
pub open spec fn thread_pad_spec(s: Seq<char>, pad: ThreadPadding) -> Seq<char> {
    match pad {
        ThreadPadding::Left(w) => pad_left_spec(s, w as nat),
        ThreadPadding::Right(w) => pad_right_spec(s, w as nat),
        ThreadPadding::Off => s,
    }
}

/// Pads a thread name or id as configured.
fn pad_thread(s: &str, config: &Config) -> (r: String)
    ensures
        r@ == thread_pad_spec(s@, config.thread_padding),
{
    match config.thread_padding {
        ThreadPadding::Left(w) => pad_left(s, w),
        ThreadPadding::Right(w) => pad_right(s, w),
        ThreadPadding::Off => String::from_str(s),
    }
}

/// The thread field when ids are asked for: the id, padded as configured.
pub open spec fn thread_id_field_spec(thread: ThreadInfo, config: Config) -> Seq<char> {
    thread_pad_spec(thread.id@, config.thread_padding)
}

/// Writes the calling thread's id based on the configuration.
pub fn write_thread_id(config: &Config, thread: &ThreadInfo) -> (r: String)
    ensures
        r@ == thread_id_field_spec(*thread, *config),
{
    pad_thread(thread.id.as_str(), config)
}

/// The thread field when names are asked for: the name, padded as
/// configured; an unnamed thread falls back to the id when the mode says
/// so, and otherwise yields an empty field.
pub open spec fn thread_name_field_spec(thread: ThreadInfo, config: Config) -> Seq<char> {
    match thread.name {
        Some(n) => thread_pad_spec(n@, config.thread_padding),
        None => {
            if config.thread_log_mode == ThreadLogMode::Both {
                thread_id_field_spec(thread, config)
            } else {
                Seq::empty()
            }
        },
    }
}

/// Writes the calling thread's name based on the configuration.
pub fn write_thread_name(config: &Config, thread: &ThreadInfo) -> (r: String)
    ensures
        r@ == thread_name_field_spec(*thread, *config),
{
    match &thread.name {
        Some(n) => pad_thread(n.as_str(), config),
        None => {
            match config.thread_log_mode {
                ThreadLogMode::Both => write_thread_id(config, thread),
                _ => String::new(),
            }
        },
    }
}

/// The thread field: ids or names per the configured mode.
pub open spec fn thread_field_spec(thread: ThreadInfo, config: Config) -> Seq<char> {
    match config.thread_log_mode {
        ThreadLogMode::IDs => thread_id_field_spec(thread, config),
        _ => thread_name_field_spec(thread, config),
    }
}

/// Writes the thread field per the configured mode.
pub fn write_thread(config: &Config, thread: &ThreadInfo) -> (r: String)
    ensures
        r@ == thread_field_spec(*thread, *config),
{
    match config.thread_log_mode {
        ThreadLogMode::IDs => write_thread_id(config, thread),
        _ => write_thread_name(config, thread),
    }
}

} // verus!
