use sp_log2::{
    write_args, write_level, write_location, write_module, write_target, write_thread,
    write_thread_id, write_thread_name, ConfigBuilder, Level, LevelPadding, Record, TargetPadding,
    ThreadInfo, ThreadLogMode, ThreadPadding,
};

fn record(level: Level, target: &str) -> Record {
    Record {
        level,
        target: target.to_string(),
        file: None,
        line: None,
        module: None,
        args: "m".to_string(),
    }
}

#[test]
fn level_padding_widths() {
    let rec = record(Level::Warn, "t");
    let left = ConfigBuilder::new().set_level_padding(LevelPadding::Left).build();
    assert_eq!(write_level(&rec, &left), " WARN");
    let right = ConfigBuilder::new().set_level_padding(LevelPadding::Right).build();
    assert_eq!(write_level(&rec, &right), "WARN ");
    let off = ConfigBuilder::new().set_level_padding(LevelPadding::Off).build();
    assert_eq!(write_level(&rec, &off), "WARN");
}

#[test]
fn level_names() {
    let off = ConfigBuilder::new().build();
    assert_eq!(write_level(&record(Level::Error, "t"), &off), "ERROR");
    assert_eq!(write_level(&record(Level::Warn, "t"), &off), "WARN");
    assert_eq!(write_level(&record(Level::Info, "t"), &off), "INFO");
    assert_eq!(write_level(&record(Level::Debug, "t"), &off), "DEBUG");
    assert_eq!(write_level(&record(Level::Trace, "t"), &off), "TRACE");
}

#[test]
fn target_padding() {
    let rec = record(Level::Info, "db");
    let left = ConfigBuilder::new().set_target_padding(TargetPadding::Left(5)).build();
    assert_eq!(write_target(&rec, &left), "   db");
    let right = ConfigBuilder::new().set_target_padding(TargetPadding::Right(5)).build();
    assert_eq!(write_target(&rec, &right), "db   ");
    let off = ConfigBuilder::new().build();
    assert_eq!(write_target(&rec, &off), "db");
}

#[test]
fn padding_never_truncates() {
    let rec = record(Level::Info, "longer_than_width");
    let left = ConfigBuilder::new().set_target_padding(TargetPadding::Left(4)).build();
    assert_eq!(write_target(&rec, &left), "longer_than_width");
}

#[test]
fn location_with_file_and_line() {
    let mut rec = record(Level::Info, "t");
    rec.file = Some("src/main.rs".to_string());
    rec.line = Some(42);
    assert_eq!(write_location(&rec), "src/main.rs:42");
}

#[test]
fn location_normalizes_backslashes() {
    let mut rec = record(Level::Info, "t");
    rec.file = Some("src\\win\\main.rs".to_string());
    rec.line = Some(7);
    assert_eq!(write_location(&rec), "src/win/main.rs:7");
}

#[test]
fn location_unknown_parts() {
    let mut rec = record(Level::Info, "t");
    assert_eq!(write_location(&rec), "<unknown>:<unknown>");
    rec.line = Some(3);
    assert_eq!(write_location(&rec), "<unknown>:3");
    rec.file = Some("lib.rs".to_string());
    rec.line = None;
    assert_eq!(write_location(&rec), "lib.rs:<unknown>");
}

#[test]
fn module_field() {
    let mut rec = record(Level::Info, "t");
    assert_eq!(write_module(&rec), "<unknown>");
    rec.module = Some("app::engine".to_string());
    assert_eq!(write_module(&rec), "app::engine");
}

#[test]
fn args_appends_line_ending() {
    let rec = record(Level::Info, "t");
    assert_eq!(write_args(&rec, "\n"), "m\n");
    assert_eq!(write_args(&rec, "\r\n"), "m\r\n");
    assert_eq!(write_args(&rec, ""), "m");
}

#[test]
fn thread_id_and_padding() {
    let thread = ThreadInfo { name: Some("worker".to_string()), id: "7".to_string() };
    let off = ConfigBuilder::new().build();
    assert_eq!(write_thread_id(&off, &thread), "7");
    let left = ConfigBuilder::new().set_thread_padding(ThreadPadding::Left(3)).build();
    assert_eq!(write_thread_id(&left, &thread), "  7");
    let right = ConfigBuilder::new().set_thread_padding(ThreadPadding::Right(3)).build();
    assert_eq!(write_thread_id(&right, &thread), "7  ");
}

#[test]
fn thread_name_modes() {
    let named = ThreadInfo { name: Some("worker".to_string()), id: "7".to_string() };
    let unnamed = ThreadInfo { name: None, id: "7".to_string() };
    let names = ConfigBuilder::new().set_thread_mode(ThreadLogMode::Names).build();
    assert_eq!(write_thread_name(&names, &named), "worker");
    assert_eq!(write_thread_name(&names, &unnamed), "");
    let both = ConfigBuilder::new().set_thread_mode(ThreadLogMode::Both).build();
    assert_eq!(write_thread_name(&both, &named), "worker");
    assert_eq!(write_thread_name(&both, &unnamed), "7");
}

#[test]
fn thread_field_follows_mode() {
    let named = ThreadInfo { name: Some("worker".to_string()), id: "7".to_string() };
    let ids = ConfigBuilder::new().set_thread_mode(ThreadLogMode::IDs).build();
    assert_eq!(write_thread(&ids, &named), "7");
    let names = ConfigBuilder::new().set_thread_mode(ThreadLogMode::Names).build();
    assert_eq!(write_thread(&names, &named), "worker");
}
