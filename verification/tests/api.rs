use sp_log2::{
    parse_and_format_log, parse_and_format_log_term, process_placeholder, resolve_style,
    segments_to_string, Color, ConfigBuilder, Segment, Style,
};

fn chars(s: &str) -> Vec<char> {
    s.chars().collect()
}

#[test]
fn parse_and_format_log_renders_plain_text() {
    let config = ConfigBuilder::new().set_formatter(Some("{time} [{level}] {message}")).build();
    let out = parse_and_format_log(&config, "INFO", "12:00:00", "", "", "", "", "hello");
    assert_eq!(out, "12:00:00 [[INFO]] hello");
}

#[test]
fn parse_and_format_log_term_attaches_styles() {
    let config = ConfigBuilder::new().set_formatter(Some("{message:red}")).build();
    let segs = parse_and_format_log_term(&config, None, "", "", "", "", "", "", "msg");
    assert_eq!(segs.len(), 1);
    assert_eq!(segs[0].text, "msg");
    assert_eq!(segs[0].style.unwrap().fg, Some(Color::Red));
}

#[test]
fn process_placeholder_substitutes_known_keys() {
    let seg = process_placeholder(
        &chars("target:underline"),
        true,
        None,
        "LVL",
        "TIME",
        "THR",
        "TGT",
        "FILE",
        "MOD",
        "MSG",
    )
    .unwrap();
    assert_eq!(seg.text, "TGT");
    assert!(seg.style.unwrap().underline);
}

#[test]
fn process_placeholder_rejects_unknown_keys() {
    let r = process_placeholder(
        &chars("nope"),
        true,
        None,
        "LVL",
        "TIME",
        "THR",
        "TGT",
        "FILE",
        "MOD",
        "MSG",
    );
    assert!(r.is_none());
}

#[test]
fn resolve_style_first_match_wins_and_defaults() {
    let mods = vec![chars("level"), chars("bold"), chars("#010203"), chars("green")];
    let style = resolve_style(&mods, 1, true, Some(Color::Cyan));
    assert!(style.bold);
    assert_eq!(style.fg, Some(Color::Rgb(1, 2, 3)));
    let fallback = resolve_style(&mods, 1, true, Some(Color::Cyan));
    assert_eq!(fallback.fg, Some(Color::Rgb(1, 2, 3)));
    let empty: Vec<Vec<char>> = vec![chars("level")];
    let defaulted = resolve_style(&empty, 1, true, Some(Color::Cyan));
    assert_eq!(defaulted.fg, Some(Color::Cyan));
    let not_level = resolve_style(&empty, 1, false, Some(Color::Cyan));
    assert_eq!(not_level.fg, None);
}

#[test]
fn segments_to_string_concatenates() {
    let segs = vec![
        Segment {
            style: Some(Style {
                fg: Some(Color::Red),
                bg: None,
                bold: true,
                italic: false,
                dim: false,
                underline: false,
                strikethrough: false,
                no_brackets: false,
            }),
            text: "a".to_string(),
        },
        Segment { style: None, text: "bc".to_string() },
    ];
    assert_eq!(segments_to_string(&segs), "abc");
}
