//! Configuration of the rendering engine: which fields are emitted, how they
//! are padded, how timestamps are formatted, which targets are filtered, and
//! which colors the level field gets.

use crate::color::Color;
use vstd::prelude::*;

verus! {

/// Flag selecting the time field in the default layout.
pub const FORMAT_TIME: u8 = 1;

/// Flag selecting the level field in the default layout.
pub const FORMAT_LEVEL: u8 = 2;

/// Flag selecting the thread field in the default layout.
pub const FORMAT_THREAD: u8 = 4;

/// Flag selecting the source-location field in the default layout.
pub const FORMAT_FILE_LOCATION: u8 = 8;

/// Flag selecting the target field in the default layout.
pub const FORMAT_TARGET: u8 = 16;

/// Flag selecting the module field in the default layout.
pub const FORMAT_MODULE: u8 = 32;

/// The severity of a log record, from most to least severe.
#[derive(Debug, Clone, Copy, PartialEq, Eq)]
pub enum Level {
    Error,
    Warn,
    Info,
    Debug,
    Trace,
}

impl Level {
    /// The ordinal of a level; the value 0 is reserved for "no specific
    /// level" in the per-level color table.
    pub open spec fn ordinal(self) -> int {
        match self {
            Level::Error => 1,
            Level::Warn => 2,
            Level::Info => 3,
            Level::Debug => 4,
            Level::Trace => 5,
        }
    }

    /// The ordinal of a level as an index.
    pub fn as_usize(self) -> (r: usize)
        ensures
            r == self.ordinal(),
    {
        match self {
            Level::Error => 1,
            Level::Warn => 2,
            Level::Info => 3,
            Level::Debug => 4,
            Level::Trace => 5,
        }
    }

    /// The name of a level as it is rendered.
    pub open spec fn name_spec(self) -> Seq<char> {
        match self {
            Level::Error => "ERROR"@,
            Level::Warn => "WARN"@,
            Level::Info => "INFO"@,
            Level::Debug => "DEBUG"@,
            Level::Trace => "TRACE"@,
        }
    }

    /// The name of a level as it is rendered.
    pub fn name(self) -> (r: &'static str)
        ensures
            r@ == self.name_spec(),
    {
        match self {
            Level::Error => "ERROR",
            Level::Warn => "WARN",
            Level::Info => "INFO",
            Level::Debug => "DEBUG",
            Level::Trace => "TRACE",
        }
    }
}

/// A bound on the severities a logger handles: either off, or everything up
/// to and including a level.
#[derive(Debug, Clone, Copy, PartialEq, Eq)]
pub enum LevelFilter {
    Off,
    Error,
    Warn,
    Info,
    Debug,
    Trace,
}

impl LevelFilter {
    /// The ordinal of the filter, aligned with `Level::ordinal`.
    pub open spec fn ordinal(self) -> int {
        match self {
            LevelFilter::Off => 0,
            LevelFilter::Error => 1,
            LevelFilter::Warn => 2,
            LevelFilter::Info => 3,
            LevelFilter::Debug => 4,
            LevelFilter::Trace => 5,
        }
    }

    /// The ordinal of the filter as an integer.
    pub fn as_usize(self) -> (r: usize)
        ensures
            r == self.ordinal(),
    {
        match self {
            LevelFilter::Off => 0,
            LevelFilter::Error => 1,
            LevelFilter::Warn => 2,
            LevelFilter::Info => 3,
            LevelFilter::Debug => 4,
            LevelFilter::Trace => 5,
        }
    }
}

/// Defines how padding should be applied to the logging level in the log
/// output; the level is padded to the width of the longest level name.
#[derive(Debug, Clone, Copy, PartialEq, Eq)]
pub enum LevelPadding {
    /// Pad the logging level with spaces to the left.
    Left,
    /// Pad the logging level with spaces to the right.
    Right,
    /// No padding applied to the logging level.
    Off,
}

/// Defines how padding should be applied to the thread information in the
/// log output.
#[derive(Debug, Clone, Copy, PartialEq, Eq)]
pub enum ThreadPadding {
    /// Pad the thread information with spaces to the left, to the given width.
    Left(usize),
    /// Pad the thread information with spaces to the right, to the given width.
    Right(usize),
    /// No padding applied to the thread information.
    Off,
}

/// Defines how padding should be applied to the target in the log output.
#[derive(Debug, Clone, Copy, PartialEq, Eq)]
pub enum TargetPadding {
    /// Pad the target with spaces to the left, to the given width.
    Left(usize),
    /// Pad the target with spaces to the right, to the given width.
    Right(usize),
    /// No padding applied to the target.
    Off,
}

/// Mode for logging the thread id or name.
#[derive(Debug, Clone, Copy, PartialEq, Eq)]
pub enum ThreadLogMode {
    /// Log thread ids only.
    IDs,
    /// Log the thread names only.
    Names,
    /// If this thread is named, log the name; otherwise, log the thread id.
    Both,
}

/// How a timestamp is formatted.
#[derive(Debug, Clone, PartialEq, Eq)]
pub enum TimeFormat {
    /// The RFC 2822 date and time format.
    Rfc2822,
    /// The RFC 3339 date and time format.
    Rfc3339,
    /// A custom strftime-style pattern, owned by the configuration.
    Custom(String),
}

/// The time zone offset applied to the timestamp before formatting.
#[derive(Debug, Clone, Copy, PartialEq, Eq)]
pub enum TimeOffset {
    /// The machine's local offset.
    Local,
    /// A fixed offset east of UTC, in seconds; it must be less than one
    /// day in either direction to be formattable.
    Fixed(i32),
}

/// Whether a fixed offset east of UTC, in seconds, can be formatted: it
/// must lie strictly between minus and plus one day.
pub open spec fn valid_offset(secs: int) -> bool {
    -86400 < secs < 86400
}

/// UTF-8 end of line character sequences.
#[derive(Debug, Clone, Copy, PartialEq, Eq)]
pub enum LineEnding {
    /// Line feed.
    LF,
    /// Carriage return.
    CR,
    /// Carriage return + line feed.
    Crlf,
    /// Vertical tab.
    VT,
    /// Form feed.
    FF,
    /// Next line.
    Nel,
    /// Line separator.
    LS,
    /// Paragraph separator.
    PS,
}

/// Which standard stream or streams a terminal logger writes to.
#[derive(Debug, Clone, Copy, PartialEq, Eq, Hash)]
pub enum TerminalMode {
    /// Only use standard output.
    Stdout,
    /// Only use standard error.
    Stderr,
    /// Use standard error for errors and standard output otherwise.
    Mixed,
}

impl Default for TerminalMode {
    /// The mixed mode: errors to standard error, the rest to standard
    /// output.
    fn default() -> (r: TerminalMode)
        ensures
            r == TerminalMode::Mixed,
    {
        TerminalMode::Mixed
    }
}

/// Configuration for the renderers.
///
/// With no template configured, the loggers print a line of the form
/// `00:00:00 [LEVEL] (thread) target: your_message`, and every part except
/// the message can be switched off; with a template configured, the template
/// alone decides the layout.
///
/// Construct using [`Config::default`] or [`ConfigBuilder`].
#[derive(Debug, Clone)]
pub struct Config {
    /// Bit-set over the `FORMAT_` flags selecting the fields of the default
    /// layout.
    pub format: u8,
    /// Padding of the level field.
    pub level_padding: LevelPadding,
    /// Whether the thread field holds ids, names, or names with ids as
    /// fallback.
    pub thread_log_mode: ThreadLogMode,
    /// Padding of the thread field.
    pub thread_padding: ThreadPadding,
    /// Padding of the target field.
    pub target_padding: TargetPadding,
    /// Most verbose severity that is rendered.
    pub min_level: LevelFilter,
    /// Least verbose severity that is rendered.
    pub max_level: LevelFilter,
    /// Format of the time field.
    pub time_format: TimeFormat,
    /// Offset applied to the timestamp before formatting.
    pub time_offset: TimeOffset,
    /// Target prefixes that alone are rendered, when non-empty.
    pub filter_allow: Vec<String>,
    /// Target prefixes that are never rendered.
    pub filter_ignore: Vec<String>,
    /// One optional color for each level ordinal; index 0 is the default.
    pub level_color: Vec<Option<Color>>,
    /// Whether style directives are honored at all.
    pub enable_colors: bool,
    /// Line ending appended after the message.
    pub line_ending: String,
    /// Optional template; its presence switches rendering from the default
    /// layout to the template renderer.
    pub formatter: Option<String>,
}

impl Config {
    /// The structural invariant of a configuration: the per-level color
    /// table has one entry for each level ordinal and the default.
    pub open spec fn wf(self) -> bool {
        self.level_color@.len() == 6
    }

    /// Create a new default `ConfigBuilder`.
    pub fn builder() -> (r: ConfigBuilder)
        ensures
            is_default_config(r.0),
    {
        ConfigBuilder::new()
    }
}

/// Whether `c` is the default configuration: time, level, thread and target
/// fields selected; nothing padded; thread ids; the pattern `%H:%M:%S` for
/// the time; no filters; every severity in range; colors enabled with the
/// standard per-level table; a line-feed ending; no template.
pub open spec fn is_default_config(c: Config) -> bool {
    &&& c.format == 23u8
    &&& c.level_padding == LevelPadding::Off
    &&& c.thread_log_mode == ThreadLogMode::IDs
    &&& c.thread_padding == ThreadPadding::Off
    &&& c.target_padding == TargetPadding::Off
    &&& c.min_level == LevelFilter::Trace
    &&& c.max_level == LevelFilter::Error
    &&& (c.time_format matches TimeFormat::Custom(p) && p@ == "%H:%M:%S"@)
    &&& c.time_offset == TimeOffset::Local
    &&& c.filter_allow@.len() == 0
    &&& c.filter_ignore@.len() == 0
    &&& c.level_color@ == seq![
        None,
        Some(Color::Red),
        Some(Color::Yellow),
        Some(Color::Blue),
        Some(Color::Cyan),
        Some(Color::White),
    ]
    &&& c.enable_colors == true
    &&& c.line_ending@ == "\n"@
    &&& c.formatter is None
}

impl Default for Config {
    /// The default configuration.
    fn default() -> (r: Config)
        ensures
            is_default_config(r),
            r.wf(),
    {
        let mut level_color: Vec<Option<Color>> = Vec::new();
        level_color.push(None);
        level_color.push(Some(Color::Red));
        level_color.push(Some(Color::Yellow));
        level_color.push(Some(Color::Blue));
        level_color.push(Some(Color::Cyan));
        level_color.push(Some(Color::White));
        proof {
            assert(level_color@ =~= seq![
                None,
                Some(Color::Red),
                Some(Color::Yellow),
                Some(Color::Blue),
                Some(Color::Cyan),
                Some(Color::White),
            ]);
        }
        proof {
            assert(FORMAT_LEVEL | FORMAT_TIME | FORMAT_THREAD | FORMAT_TARGET == 23u8)
                by (bit_vector);
        }
        Config {
            format: FORMAT_LEVEL | FORMAT_TIME | FORMAT_THREAD | FORMAT_TARGET,
            level_padding: LevelPadding::Off,
            thread_log_mode: ThreadLogMode::IDs,
            thread_padding: ThreadPadding::Off,
            target_padding: TargetPadding::Off,
            min_level: LevelFilter::Trace,
            max_level: LevelFilter::Error,
            time_format: TimeFormat::Custom(String::from_str("%H:%M:%S")),
            time_offset: TimeOffset::Local,
            filter_allow: Vec::new(),
            filter_ignore: Vec::new(),
            level_color,
            enable_colors: true,
            line_ending: String::from_str("\n"),
            formatter: None,
        }
    }
}

/// Builder for a [`Config`]; every setter returns the builder so calls can
/// be chained, and `build` produces the finished configuration.
#[derive(Debug, Clone)]
pub struct ConfigBuilder(pub Config);

impl ConfigBuilder {
    /// Creates a new `ConfigBuilder` with default configuration values.
    pub fn new() -> (r: ConfigBuilder)
        ensures
            is_default_config(r.0),
            r.0.wf(),
    {
        ConfigBuilder(Config::default())
    }

    /// Sets the line ending appended after the message.
    pub fn set_line_ending(self, line_ending: LineEnding) -> (r: ConfigBuilder)
        ensures
            r.0 == (Config { line_ending: r.0.line_ending, ..self.0 }),
            r.0.line_ending@ == line_ending_chars(line_ending),
    {
        let s = match line_ending {
            LineEnding::LF => "\u{000A}",
            LineEnding::CR => "\u{000D}",
            LineEnding::Crlf => "\u{000D}\u{000A}",
            LineEnding::VT => "\u{000B}",
            LineEnding::FF => "\u{000C}",
            LineEnding::Nel => "\u{0085}",
            LineEnding::LS => "\u{2028}",
            LineEnding::PS => "\u{2029}",
        };
        ConfigBuilder(Config { line_ending: String::from_str(s), ..self.0 })
    }

    /// Sets which fields the default layout includes, as a bit-set over the
    /// `FORMAT_` flags.
    pub fn set_format(self, format: u8) -> (r: ConfigBuilder)
        ensures
            r.0 == (Config { format, ..self.0 }),
    {
        ConfigBuilder(Config { format, ..self.0 })
    }

    /// Sets the template; `None` restores the default layout.
    pub fn set_formatter(self, formatter: Option<&str>) -> (r: ConfigBuilder)
        ensures
            r.0 == (Config { formatter: r.0.formatter, ..self.0 }),
            formatter is Some <==> r.0.formatter is Some,
            formatter matches Some(f) ==> r.0.formatter matches Some(g) && g@ == f@,
    {
        let f = match formatter {
            Some(s) => Some(String::from_str(s)),
            None => None,
        };
        ConfigBuilder(Config { formatter: f, ..self.0 })
    }

    /// Sets the most verbose severity that is rendered.
    pub fn set_min_level(self, level: LevelFilter) -> (r: ConfigBuilder)
        ensures
            r.0 == (Config { min_level: level, ..self.0 }),
    {
        ConfigBuilder(Config { min_level: level, ..self.0 })
    }

    /// Sets the least verbose severity that is rendered.
    pub fn set_max_level(self, level: LevelFilter) -> (r: ConfigBuilder)
        ensures
            r.0 == (Config { max_level: level, ..self.0 }),
    {
        ConfigBuilder(Config { max_level: level, ..self.0 })
    }

    /// Enables or disables style directives.
    pub fn set_enable_colors(self, enable: bool) -> (r: ConfigBuilder)
        ensures
            r.0 == (Config { enable_colors: enable, ..self.0 }),
    {
        ConfigBuilder(Config { enable_colors: enable, ..self.0 })
    }

    /// Sets the padding of the target field.
    pub fn set_target_padding(self, padding: TargetPadding) -> (r: ConfigBuilder)
        ensures
            r.0 == (Config { target_padding: padding, ..self.0 }),
    {
        ConfigBuilder(Config { target_padding: padding, ..self.0 })
    }

    /// Sets the padding of the level field.
    pub fn set_level_padding(self, padding: LevelPadding) -> (r: ConfigBuilder)
        ensures
            r.0 == (Config { level_padding: padding, ..self.0 }),
    {
        ConfigBuilder(Config { level_padding: padding, ..self.0 })
    }

    /// Sets the padding of the thread field.
    pub fn set_thread_padding(self, padding: ThreadPadding) -> (r: ConfigBuilder)
        ensures
            r.0 == (Config { thread_padding: padding, ..self.0 }),
    {
        ConfigBuilder(Config { thread_padding: padding, ..self.0 })
    }

    /// Sets whether the thread field holds ids or names.
    pub fn set_thread_mode(self, mode: ThreadLogMode) -> (r: ConfigBuilder)
        ensures
            r.0 == (Config { thread_log_mode: mode, ..self.0 }),
    {
        ConfigBuilder(Config { thread_log_mode: mode, ..self.0 })
    }

    /// Sets the color used for the level field of the given severity; `None`
    /// restores the terminal's own foreground.
    pub fn set_level_color(self, level: Level, color: Option<Color>) -> (r: ConfigBuilder)
        requires
            self.0.wf(),
        ensures
            r.0 == (Config { level_color: r.0.level_color, ..self.0 }),
            r.0.level_color@ == self.0.level_color@.update(level.ordinal(), color),
            r.0.wf(),
    {
        let idx = level.as_usize();
        let mut c = self.0;
        c.level_color.set(idx, color);
        ConfigBuilder(c)
    }

    /// Sets the time format to a custom strftime-style pattern.
    pub fn set_time_format_custom(self, time_format: &str) -> (r: ConfigBuilder)
        ensures
            r.0 == (Config { time_format: r.0.time_format, ..self.0 }),
            r.0.time_format matches TimeFormat::Custom(p) && p@ == time_format@,
    {
        ConfigBuilder(
            Config { time_format: TimeFormat::Custom(String::from_str(time_format)), ..self.0 },
        )
    }

    /// Sets the timestamp offset to a fixed offset east of UTC, in
    /// seconds.
    pub fn set_time_offset(self, secs: i32) -> (r: ConfigBuilder)
        ensures
            r.0 == (Config { time_offset: TimeOffset::Fixed(secs), ..self.0 }),
    {
        ConfigBuilder(Config { time_offset: TimeOffset::Fixed(secs), ..self.0 })
    }

    /// Sets the timestamp offset to the machine's local offset.
    pub fn set_time_offset_local(self) -> (r: ConfigBuilder)
        ensures
            r.0 == (Config { time_offset: TimeOffset::Local, ..self.0 }),
    {
        ConfigBuilder(Config { time_offset: TimeOffset::Local, ..self.0 })
    }

    /// Sets the time format to RFC 2822.
    pub fn set_time_format_rfc2822(self) -> (r: ConfigBuilder)
        ensures
            r.0 == (Config { time_format: TimeFormat::Rfc2822, ..self.0 }),
    {
        ConfigBuilder(Config { time_format: TimeFormat::Rfc2822, ..self.0 })
    }

    /// Sets the time format to RFC 3339.
    pub fn set_time_format_rfc3339(self) -> (r: ConfigBuilder)
        ensures
            r.0 == (Config { time_format: TimeFormat::Rfc3339, ..self.0 }),
    {
        ConfigBuilder(Config { time_format: TimeFormat::Rfc3339, ..self.0 })
    }

    /// Adds an allowed target prefix: once any is set, only records whose
    /// target starts with one of them are rendered.
    pub fn add_filter_allow_str(self, filter_allow: &str) -> (r: ConfigBuilder)
        ensures
            r.0 == (Config { filter_allow: r.0.filter_allow, ..self.0 }),
            r.0.filter_allow@.len() == self.0.filter_allow@.len() + 1,
            r.0.filter_allow@.drop_last() == self.0.filter_allow@,
            r.0.filter_allow@.last()@ == filter_allow@,
    {
        let mut c = self.0;
        c.filter_allow.push(String::from_str(filter_allow));
        proof {
            assert(c.filter_allow@.drop_last() =~= self.0.filter_allow@);
        }
        ConfigBuilder(c)
    }

    /// Adds an allowed target prefix given as an owned string.
    pub fn add_filter_allow(self, filter_allow: String) -> (r: ConfigBuilder)
        ensures
            r.0 == (Config { filter_allow: r.0.filter_allow, ..self.0 }),
            r.0.filter_allow@.len() == self.0.filter_allow@.len() + 1,
            r.0.filter_allow@.drop_last() == self.0.filter_allow@,
            r.0.filter_allow@.last()@ == filter_allow@,
    {
        let mut c = self.0;
        c.filter_allow.push(filter_allow);
        proof {
            assert(c.filter_allow@.drop_last() =~= self.0.filter_allow@);
        }
        ConfigBuilder(c)
    }

    /// Clears all allowed target prefixes, rendering records from every
    /// target again.
    pub fn clear_filter_allow(self) -> (r: ConfigBuilder)
        ensures
            r.0 == (Config { filter_allow: r.0.filter_allow, ..self.0 }),
            r.0.filter_allow@.len() == 0,
    {
        let mut c = self.0;
        c.filter_allow = Vec::new();
        ConfigBuilder(c)
    }

    /// Adds an ignored target prefix: records whose target starts with one
    /// of them are never rendered.
    pub fn add_filter_ignore_str(self, filter_ignore: &str) -> (r: ConfigBuilder)
        ensures
            r.0 == (Config { filter_ignore: r.0.filter_ignore, ..self.0 }),
            r.0.filter_ignore@.len() == self.0.filter_ignore@.len() + 1,
            r.0.filter_ignore@.drop_last() == self.0.filter_ignore@,
            r.0.filter_ignore@.last()@ == filter_ignore@,
    {
        let mut c = self.0;
        c.filter_ignore.push(String::from_str(filter_ignore));
        proof {
            assert(c.filter_ignore@.drop_last() =~= self.0.filter_ignore@);
        }
        ConfigBuilder(c)
    }

    /// Adds an ignored target prefix given as an owned string.
    pub fn add_filter_ignore(self, filter_ignore: String) -> (r: ConfigBuilder)
        ensures
            r.0 == (Config { filter_ignore: r.0.filter_ignore, ..self.0 }),
            r.0.filter_ignore@.len() == self.0.filter_ignore@.len() + 1,
            r.0.filter_ignore@.drop_last() == self.0.filter_ignore@,
            r.0.filter_ignore@.last()@ == filter_ignore@,
    {
        let mut c = self.0;
        c.filter_ignore.push(filter_ignore);
        proof {
            assert(c.filter_ignore@.drop_last() =~= self.0.filter_ignore@);
        }
        ConfigBuilder(c)
    }

    /// Clears all ignored target prefixes.
    pub fn clear_filter_ignore(self) -> (r: ConfigBuilder)
        ensures
            r.0 == (Config { filter_ignore: r.0.filter_ignore, ..self.0 }),
            r.0.filter_ignore@.len() == 0,
    {
        let mut c = self.0;
        c.filter_ignore = Vec::new();
        ConfigBuilder(c)
    }

    /// Finishes the builder and hands out the configuration.
    pub fn build(self) -> (r: Config)
        ensures
            r == self.0,
    {
        self.0
    }
}

impl Default for ConfigBuilder {
    /// A builder holding the default configuration.
    fn default() -> (r: ConfigBuilder)
        ensures
            is_default_config(r.0),
            r.0.wf(),
    {
        ConfigBuilder::new()
    }
}

/// The character sequence of a line ending.
pub open spec fn line_ending_chars(e: LineEnding) -> Seq<char> {
    match e {
        LineEnding::LF => "\u{000A}"@,
        LineEnding::CR => "\u{000D}"@,
        LineEnding::Crlf => "\u{000D}\u{000A}"@,
        LineEnding::VT => "\u{000B}"@,
        LineEnding::FF => "\u{000C}"@,
        LineEnding::Nel => "\u{0085}"@,
        LineEnding::LS => "\u{2028}"@,
        LineEnding::PS => "\u{2029}"@,
    }
}

/// Whether a record of severity `level` falls inside the configured range.
pub open spec fn level_in_range(c: Config, level: Level) -> bool {
    c.max_level.ordinal() <= level.ordinal() <= c.min_level.ordinal()
}

/// Decides whether a record of severity `level` falls inside the configured
/// range.
pub fn level_enabled(c: &Config, level: Level) -> (r: bool)
    ensures
        r == level_in_range(*c, level),
{
    let l = level.as_usize();
    c.max_level.as_usize() <= l && l <= c.min_level.as_usize()
}

} // verus!
