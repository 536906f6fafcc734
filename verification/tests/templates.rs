use sp_log2::{
    try_log, Color, ConfigBuilder, Level, Record, Style, ThreadInfo, FORMAT_LEVEL, FORMAT_TARGET,
};

fn record(level: Level, target: &str, message: &str) -> Record {
    Record {
        level,
        target: target.to_string(),
        file: None,
        line: None,
        module: None,
        args: message.to_string(),
    }
}

fn thread() -> ThreadInfo {
    ThreadInfo { name: None, id: "1".to_string() }
}

fn render(config: &sp_log2::Config, rec: &Record) -> String {
    try_log(config, rec, &thread()).unwrap().unwrap()
}

#[test]
fn message_only_template_round_trips() {
    let config = ConfigBuilder::new().set_formatter(Some("{message}")).build();
    let rec = record(Level::Info, "app", "hello world");
    assert_eq!(render(&config, &rec), "hello world\n");
}

#[test]
fn message_round_trip_ignores_other_settings() {
    let config = ConfigBuilder::new()
        .set_format(FORMAT_LEVEL | FORMAT_TARGET)
        .set_formatter(Some("{message}"))
        .set_enable_colors(false)
        .build();
    let rec = record(Level::Error, "net::io", "payload");
    assert_eq!(render(&config, &rec), "payload\n");
}

#[test]
fn level_always_bracketed() {
    let config = ConfigBuilder::new()
        .set_format(FORMAT_LEVEL)
        .set_formatter(Some("{level}"))
        .build();
    let rec = record(Level::Debug, "app", "x");
    assert_eq!(render(&config, &rec), "[DEBUG]");
}

#[test]
fn level_bracket_suppression() {
    let config = ConfigBuilder::new()
        .set_format(FORMAT_LEVEL)
        .set_formatter(Some("{level:nb}"))
        .build();
    let rec = record(Level::Debug, "app", "x");
    assert_eq!(render(&config, &rec), "DEBUG");
}

#[test]
fn bracket_suppression_spellings() {
    for tpl in ["{level:nb}", "{level:nobrackets}", "{level:no_brackets}", "{level:NB}"] {
        let config = ConfigBuilder::new()
            .set_format(FORMAT_LEVEL)
            .set_formatter(Some(tpl))
            .build();
        let rec = record(Level::Warn, "app", "x");
        assert_eq!(render(&config, &rec), "WARN", "template {}", tpl);
    }
}

#[test]
fn unknown_key_is_verbatim() {
    let config = ConfigBuilder::new().set_formatter(Some("{bogus}")).build();
    let rec = record(Level::Info, "app", "x");
    assert_eq!(render(&config, &rec), "{bogus}");
}

#[test]
fn unterminated_placeholder_is_verbatim() {
    let config = ConfigBuilder::new().set_formatter(Some("prefix {time")).build();
    let rec = record(Level::Info, "app", "x");
    assert_eq!(render(&config, &rec), "prefix {time");
}

#[test]
fn end_to_end_level_and_message() {
    let config = ConfigBuilder::new()
        .set_format(FORMAT_LEVEL)
        .set_formatter(Some("{level:bold}: {message}"))
        .set_enable_colors(false)
        .build();
    let rec = record(Level::Warn, "app", "hello");
    assert_eq!(render(&config, &rec), "[WARN]: hello\n");
}

#[test]
fn end_to_end_with_default_flags() {
    // The default configuration keeps the time flag set with the default
    // custom pattern; the template ignores the time field, so the line is
    // still exact.
    let config = ConfigBuilder::new()
        .set_formatter(Some("{level:bold}: {message}"))
        .set_enable_colors(false)
        .build();
    let rec = record(Level::Warn, "app", "hello");
    assert_eq!(render(&config, &rec), "[WARN]: hello\n");
}

#[test]
fn literal_text_is_kept() {
    let config = ConfigBuilder::new()
        .set_format(FORMAT_LEVEL | FORMAT_TARGET)
        .set_formatter(Some("a {level} b {target} c"))
        .build();
    let rec = record(Level::Trace, "t", "x");
    assert_eq!(render(&config, &rec), "a [TRACE] b t c");
}

#[test]
fn field_with_unset_flag_renders_empty() {
    let config = ConfigBuilder::new().set_format(0).set_formatter(Some("<{level}>")).build();
    let rec = record(Level::Info, "app", "x");
    assert_eq!(render(&config, &rec), "<[]>");
}

#[test]
fn styled_segments_carry_styles() {
    let config = ConfigBuilder::new()
        .set_format(FORMAT_LEVEL)
        .set_formatter(Some("{level:bold:red} {message:bgblue}"))
        .build();
    let rec = record(Level::Info, "app", "m");
    let segs = sp_log2::try_log_term(&config, &rec, &thread()).unwrap().unwrap();
    assert_eq!(segs.len(), 3);
    let lvl = &segs[0];
    assert_eq!(lvl.text, "[INFO]");
    let st = lvl.style.unwrap();
    assert!(st.bold);
    assert_eq!(st.fg, Some(Color::Red));
    assert_eq!(st.bg, None);
    assert_eq!(segs[1].text, " ");
    assert_eq!(segs[1].style, None);
    let msg = &segs[2];
    assert_eq!(msg.text, "m\n");
    let st = msg.style.unwrap();
    assert_eq!(st.bg, Some(Color::Blue));
    assert_eq!(st.fg, None);
    assert!(!st.bold);
}

#[test]
fn first_color_match_wins() {
    let config = ConfigBuilder::new()
        .set_formatter(Some("{message:red:blue}"))
        .build();
    let rec = record(Level::Info, "app", "m");
    let segs = sp_log2::try_log_term(&config, &rec, &thread()).unwrap().unwrap();
    let st = segs[0].style.unwrap();
    assert_eq!(st.fg, Some(Color::Red));
}

#[test]
fn level_placeholder_defaults_to_level_color() {
    let config = ConfigBuilder::new()
        .set_format(FORMAT_LEVEL)
        .set_formatter(Some("{level}"))
        .build();
    let rec = record(Level::Warn, "app", "m");
    let segs = sp_log2::try_log_term(&config, &rec, &thread()).unwrap().unwrap();
    let st = segs[0].style.unwrap();
    assert_eq!(st.fg, Some(Color::Yellow));
}

#[test]
fn explicit_level_color_beats_default() {
    let config = ConfigBuilder::new()
        .set_format(FORMAT_LEVEL)
        .set_formatter(Some("{level:green}"))
        .build();
    let rec = record(Level::Warn, "app", "m");
    let segs = sp_log2::try_log_term(&config, &rec, &thread()).unwrap().unwrap();
    let st = segs[0].style.unwrap();
    assert_eq!(st.fg, Some(Color::Green));
}

#[test]
fn colors_disabled_strips_styles() {
    let config = ConfigBuilder::new()
        .set_format(FORMAT_LEVEL)
        .set_formatter(Some("{level:bold:red}"))
        .set_enable_colors(false)
        .build();
    let rec = record(Level::Info, "app", "m");
    let segs = sp_log2::try_log_term(&config, &rec, &thread()).unwrap().unwrap();
    assert!(segs.iter().all(|s| s.style.is_none()));
    assert_eq!(segs[0].text, "[INFO]");
}

#[test]
fn unknown_style_tokens_are_inert() {
    let config = ConfigBuilder::new()
        .set_formatter(Some("{message:sparkly:bold}"))
        .build();
    let rec = record(Level::Info, "app", "m");
    let segs = sp_log2::try_log_term(&config, &rec, &thread()).unwrap().unwrap();
    let st = segs[0].style.unwrap();
    assert!(st.bold);
    assert_eq!(st.fg, None);
    assert_eq!(
        st,
        Style {
            fg: None,
            bg: None,
            bold: true,
            italic: false,
            dim: false,
            underline: false,
            strikethrough: false,
            no_brackets: false,
        }
    );
}

#[test]
fn style_keywords_ignore_case() {
    let config = ConfigBuilder::new()
        .set_formatter(Some("{message:BOLD:Italic:DIM:Underline:STRIKETHROUGH}"))
        .build();
    let rec = record(Level::Info, "app", "m");
    let segs = sp_log2::try_log_term(&config, &rec, &thread()).unwrap().unwrap();
    let st = segs[0].style.unwrap();
    assert!(st.bold && st.italic && st.dim && st.underline && st.strikethrough);
}
