use sp_log2::{parse_color, Color};

#[test]
fn hex_short_and_long_agree() {
    assert_eq!(parse_color("#fff"), Some((Color::Rgb(255, 255, 255), true)));
    assert_eq!(parse_color("#ffffff"), Some((Color::Rgb(255, 255, 255), true)));
    assert_eq!(parse_color("#fff"), parse_color("#ffffff"));
}

#[test]
fn hex_digits_are_doubled() {
    assert_eq!(parse_color("#fa0"), Some((Color::Rgb(0xff, 0xaa, 0x00), true)));
    assert_eq!(parse_color("#89dceb"), Some((Color::Rgb(0x89, 0xdc, 0xeb), true)));
}

#[test]
fn hex_wrong_lengths_fail() {
    assert_eq!(parse_color("#12"), None);
    assert_eq!(parse_color("#12345"), None);
    assert_eq!(parse_color("#"), None);
    assert_eq!(parse_color("#1234567"), None);
}

#[test]
fn hex_non_digits_fail() {
    assert_eq!(parse_color("#ggg"), None);
    assert_eq!(parse_color("#12345g"), None);
}

#[test]
fn rgb_percent_and_bare_agree() {
    assert_eq!(parse_color("rgb(100%,0%,0%)"), Some((Color::Rgb(255, 0, 0), true)));
    assert_eq!(parse_color("rgb(255,0,0)"), Some((Color::Rgb(255, 0, 0), true)));
    assert_eq!(parse_color("rgb(100%,0%,0%)"), parse_color("rgb(255,0,0)"));
}

#[test]
fn rgb_mixed_units_fail() {
    assert_eq!(parse_color("rgb(50%,10,0)"), None);
    assert_eq!(parse_color("rgb(1,2%,3)"), None);
}

#[test]
fn rgb_percent_rounds_to_nearest() {
    assert_eq!(parse_color("rgb(50%,50%,50%)"), Some((Color::Rgb(128, 128, 128), true)));
    assert_eq!(parse_color("rgb(10%,0%,0%)"), Some((Color::Rgb(26, 0, 0), true)));
}

#[test]
fn rgb_out_of_range_fails() {
    assert_eq!(parse_color("rgb(256,0,0)"), None);
    assert_eq!(parse_color("rgb(101%,0%,0%)"), None);
}

#[test]
fn rgb_alternative_separators() {
    assert_eq!(parse_color("rgb(10 20 30)"), Some((Color::Rgb(10, 20, 30), true)));
    assert_eq!(parse_color("rgb(10/20/30)"), Some((Color::Rgb(10, 20, 30), true)));
    assert_eq!(parse_color("rgb(10, 20, 30)"), Some((Color::Rgb(10, 20, 30), true)));
}

#[test]
fn rgb_wrong_component_count_fails() {
    assert_eq!(parse_color("rgb(1,2)"), None);
    assert_eq!(parse_color("rgb(1,2,3,4)"), None);
    assert_eq!(parse_color("rgb()"), None);
}

#[test]
fn named_colors_parse() {
    assert_eq!(parse_color("black"), Some((Color::Black, true)));
    assert_eq!(parse_color("blue"), Some((Color::Blue, true)));
    assert_eq!(parse_color("green"), Some((Color::Green, true)));
    assert_eq!(parse_color("red"), Some((Color::Red, true)));
    assert_eq!(parse_color("cyan"), Some((Color::Cyan, true)));
    assert_eq!(parse_color("magenta"), Some((Color::Magenta, true)));
    assert_eq!(parse_color("yellow"), Some((Color::Yellow, true)));
    assert_eq!(parse_color("white"), Some((Color::White, true)));
}

#[test]
fn named_colors_ignore_ascii_case() {
    assert_eq!(parse_color("RED"), Some((Color::Red, true)));
    assert_eq!(parse_color("Yellow"), Some((Color::Yellow, true)));
}

#[test]
fn bg_prefix_marks_background() {
    assert_eq!(parse_color("bgred"), Some((Color::Red, false)));
    assert_eq!(parse_color("bg#fa0"), Some((Color::Rgb(0xff, 0xaa, 0x00), false)));
    assert_eq!(parse_color("bgrgb(1,2,3)"), Some((Color::Rgb(1, 2, 3), false)));
}

#[test]
fn unknown_tokens_name_no_color() {
    assert_eq!(parse_color("bold"), None);
    assert_eq!(parse_color(""), None);
    assert_eq!(parse_color("bg"), None);
    assert_eq!(parse_color("reddish"), None);
    assert_eq!(parse_color("bgreen"), None);
}
