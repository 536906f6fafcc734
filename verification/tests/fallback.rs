use sp_log2::{
    compose_fallback, try_log, try_log_term, Color, ConfigBuilder, Level, LineEnding, Record,
    ThreadInfo, TimeFormat, FORMAT_LEVEL, FORMAT_TARGET, FORMAT_THREAD,
};

fn record(level: Level, target: &str, message: &str) -> Record {
    Record {
        level,
        target: target.to_string(),
        file: None,
        line: None,
        module: None,
        args: message.to_string(),
    }
}

fn thread() -> ThreadInfo {
    ThreadInfo { name: None, id: "9".to_string() }
}

#[test]
fn end_to_end_default_layout() {
    let config = ConfigBuilder::new().set_format(FORMAT_LEVEL | FORMAT_TARGET).build();
    let rec = record(Level::Info, "net::io", "connected");
    let out = try_log(&config, &rec, &thread()).unwrap().unwrap();
    assert_eq!(out, " [INFO] net::io: connected\n");
}

#[test]
fn empty_fields_are_left_out() {
    let config = ConfigBuilder::new().set_format(0).build();
    let rec = record(Level::Info, "net::io", "only message");
    let out = try_log(&config, &rec, &thread()).unwrap().unwrap();
    assert_eq!(out, " only message\n");
}

#[test]
fn thread_field_in_parentheses() {
    let config = ConfigBuilder::new().set_format(FORMAT_THREAD).build();
    let rec = record(Level::Info, "app", "msg");
    let out = try_log(&config, &rec, &thread()).unwrap().unwrap();
    assert_eq!(out, " (9) msg\n");
}

#[test]
fn configured_line_ending_terminates() {
    let config = ConfigBuilder::new()
        .set_format(FORMAT_LEVEL)
        .set_line_ending(LineEnding::Crlf)
        .build();
    let rec = record(Level::Error, "app", "boom");
    let out = try_log(&config, &rec, &thread()).unwrap().unwrap();
    assert_eq!(out, " [ERROR] boom\r\n");
}

#[test]
fn compose_fallback_directly() {
    let out = compose_fallback("12:00:00", "INFO", "", "db", "ready", "lib.rs:3", "\n");
    assert_eq!(out, "12:00:00 [INFO] db: ready [lib.rs:3]\n");
}

#[test]
fn term_fallback_colors_the_level() {
    let config = ConfigBuilder::new().set_format(FORMAT_LEVEL).build();
    let rec = record(Level::Error, "app", "boom");
    let segs = try_log_term(&config, &rec, &thread()).unwrap().unwrap();
    assert_eq!(segs.len(), 3);
    assert_eq!(segs[0].text, " [ERROR]");
    assert_eq!(segs[0].style.unwrap().fg, Some(Color::Red));
    assert_eq!(segs[1].text, " boom");
    assert!(segs[1].style.is_none());
    assert_eq!(segs[2].text, "\n");
    assert!(segs[2].style.is_none());
}

#[test]
fn term_fallback_without_colors_is_plain() {
    let config = ConfigBuilder::new()
        .set_format(FORMAT_LEVEL)
        .set_enable_colors(false)
        .build();
    let rec = record(Level::Error, "app", "boom");
    let segs = try_log_term(&config, &rec, &thread()).unwrap().unwrap();
    assert!(segs.iter().all(|s| s.style.is_none()));
}

#[test]
fn custom_level_color_is_used() {
    let config = ConfigBuilder::new()
        .set_format(FORMAT_LEVEL)
        .set_level_color(Level::Error, Some(Color::Rgb(1, 2, 3)))
        .build();
    let rec = record(Level::Error, "app", "boom");
    let segs = try_log_term(&config, &rec, &thread()).unwrap().unwrap();
    assert_eq!(segs[0].style.unwrap().fg, Some(Color::Rgb(1, 2, 3)));
}

#[test]
fn location_is_bracketed_after_message() {
    let config = ConfigBuilder::new()
        .set_format(FORMAT_LEVEL | sp_log2::FORMAT_FILE_LOCATION)
        .build();
    let mut rec = record(Level::Info, "app", "msg");
    rec.file = Some("lib.rs".to_string());
    rec.line = Some(10);
    let out = try_log(&config, &rec, &thread()).unwrap().unwrap();
    assert_eq!(out, " [INFO] msg [lib.rs:10]\n");
}

#[test]
fn every_placeholder_key_substitutes() {
    let config = ConfigBuilder::new()
        .set_format(
            FORMAT_LEVEL | FORMAT_THREAD | FORMAT_TARGET | sp_log2::FORMAT_FILE_LOCATION
                | sp_log2::FORMAT_MODULE,
        )
        .set_formatter(Some("{thread}|{target}|{file}|{module}|{level:nb}|{message}"))
        .build();
    let mut rec = record(Level::Debug, "tgt", "msg");
    rec.file = Some("f.rs".to_string());
    rec.line = Some(1);
    rec.module = Some("m".to_string());
    let out = try_log(&config, &rec, &thread()).unwrap().unwrap();
    assert_eq!(out, "9|tgt|f.rs:1|m|DEBUG|msg\n");
}

#[test]
fn plain_line_equals_term_segment_text() {
    for template in [None, Some("{level:red} -> {message}")] {
        let config = ConfigBuilder::new()
            .set_format(FORMAT_LEVEL | FORMAT_TARGET)
            .set_formatter(template)
            .build();
        let rec = record(Level::Warn, "net", "hello");
        let line = try_log(&config, &rec, &thread()).unwrap().unwrap();
        let segs = try_log_term(&config, &rec, &thread()).unwrap().unwrap();
        let joined: String = segs.iter().map(|s| s.text.as_str()).collect();
        assert_eq!(line, joined);
    }
}

#[test]
fn time_formats_produce_output() {
    let rfc3339 = ConfigBuilder::new().set_time_format_rfc3339().build();
    let out = sp_log2::write_time(&rfc3339).unwrap();
    assert!(out.contains('T'));
    let rfc2822 = ConfigBuilder::new().set_time_format_rfc2822().build();
    assert!(!sp_log2::write_time(&rfc2822).unwrap().is_empty());
    let custom = ConfigBuilder::new().set_time_format_custom("%Y").build();
    let year = sp_log2::write_time(&custom).unwrap();
    assert_eq!(year.len(), 4);
    assert!(year.chars().all(|c| c.is_ascii_digit()));
}

#[test]
fn invalid_time_pattern_is_an_error() {
    let config = ConfigBuilder::new().set_time_format_custom("%Q").build();
    assert_eq!(sp_log2::write_time(&config), Err(sp_log2::FormatError::InvalidTimePattern));
    let rec = record(Level::Info, "app", "msg");
    let out = try_log(&config, &rec, &thread());
    assert_eq!(out, Err(sp_log2::FormatError::InvalidTimePattern));
}

#[test]
fn fixed_offset_shapes_the_timestamp() {
    let plus_one = ConfigBuilder::new()
        .set_time_format_custom("%z")
        .set_time_offset(3600)
        .build();
    assert_eq!(sp_log2::write_time(&plus_one).unwrap(), "+0100");
    let utc = ConfigBuilder::new().set_time_format_custom("%z").set_time_offset(0).build();
    assert_eq!(sp_log2::write_time(&utc).unwrap(), "+0000");
    let minus = ConfigBuilder::new()
        .set_time_format_custom("%z")
        .set_time_offset(-5 * 3600)
        .build();
    assert_eq!(sp_log2::write_time(&minus).unwrap(), "-0500");
}

#[test]
fn out_of_range_offset_is_an_error() {
    let config = ConfigBuilder::new()
        .set_time_format_rfc3339()
        .set_time_offset(86400)
        .build();
    assert_eq!(sp_log2::write_time(&config), Err(sp_log2::FormatError::InvalidTimeOffset));
    let back = ConfigBuilder::new()
        .set_time_format_rfc3339()
        .set_time_offset(86399)
        .set_time_offset_local()
        .build();
    assert!(sp_log2::write_time(&back).is_ok());
}

#[test]
fn offset_error_takes_precedence_over_pattern() {
    let config = ConfigBuilder::new()
        .set_time_format_custom("%Q")
        .set_time_offset(86400)
        .build();
    assert_eq!(sp_log2::write_time(&config), Err(sp_log2::FormatError::InvalidTimeOffset));
}

#[test]
fn time_format_is_stored() {
    let config = ConfigBuilder::new().set_time_format_custom("%H:%M").build();
    assert_eq!(config.time_format, TimeFormat::Custom("%H:%M".to_string()));
}

#[test]
fn default_config_values() {
    let config = sp_log2::Config::default();
    assert_eq!(config.format, FORMAT_LEVEL | sp_log2::FORMAT_TIME | FORMAT_THREAD | FORMAT_TARGET);
    assert!(config.enable_colors);
    assert_eq!(config.line_ending, "\n");
    assert!(config.formatter.is_none());
    assert_eq!(config.level_color.len(), 6);
    assert_eq!(config.level_color[1], Some(Color::Red));
    assert_eq!(config.level_color[2], Some(Color::Yellow));
}
