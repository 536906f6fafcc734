use sp_log2::{should_skip, try_log, ConfigBuilder, Level, LevelFilter, Record, ThreadInfo};

fn record(target: &str) -> Record {
    Record {
        level: Level::Info,
        target: target.to_string(),
        file: None,
        line: None,
        module: None,
        args: "m".to_string(),
    }
}

fn thread() -> ThreadInfo {
    ThreadInfo { name: None, id: "1".to_string() }
}

#[test]
fn open_by_default() {
    let config = ConfigBuilder::new().build();
    for target in ["", "a", "tokio::uds", "anything::at::all"] {
        assert!(!should_skip(&config, &record(target)));
    }
}

#[test]
fn allowed_prefix_is_rendered() {
    let config = ConfigBuilder::new().add_filter_allow_str("net").build();
    assert!(!should_skip(&config, &record("net::io")));
    let out = try_log(&config, &record("net::io"), &thread()).unwrap();
    assert!(out.is_some());
}

#[test]
fn unlisted_target_is_skipped_when_allow_set() {
    let config = ConfigBuilder::new().add_filter_allow_str("net").build();
    assert!(should_skip(&config, &record("disk::io")));
    let out = try_log(&config, &record("disk::io"), &thread()).unwrap();
    assert!(out.is_none());
}

#[test]
fn ignored_prefix_is_skipped() {
    let config = ConfigBuilder::new().add_filter_ignore_str("noisy").build();
    assert!(should_skip(&config, &record("noisy::module")));
    assert!(!should_skip(&config, &record("quiet::module")));
}

#[test]
fn ignore_wins_over_allow() {
    let config = ConfigBuilder::new()
        .add_filter_allow_str("net")
        .add_filter_ignore_str("net::chatty")
        .build();
    assert!(!should_skip(&config, &record("net::io")));
    assert!(should_skip(&config, &record("net::chatty::poll")));
}

#[test]
fn cleared_filters_are_open_again() {
    let config = ConfigBuilder::new()
        .add_filter_allow_str("net")
        .add_filter_ignore_str("noisy")
        .clear_filter_allow()
        .clear_filter_ignore()
        .build();
    assert!(!should_skip(&config, &record("disk::io")));
    assert!(!should_skip(&config, &record("noisy::module")));
}

#[test]
fn owned_filter_strings_work() {
    let config = ConfigBuilder::new()
        .add_filter_allow(format!("{}::{}", "tokio", "uds"))
        .build();
    assert!(!should_skip(&config, &record("tokio::uds::stream")));
    assert!(should_skip(&config, &record("tokio::tcp")));
}

#[test]
fn level_out_of_range_yields_no_line() {
    let config = ConfigBuilder::new().set_min_level(LevelFilter::Warn).build();
    let mut rec = record("app");
    rec.level = Level::Info;
    assert!(try_log(&config, &rec, &thread()).unwrap().is_none());
    rec.level = Level::Warn;
    assert!(try_log(&config, &rec, &thread()).unwrap().is_some());
    rec.level = Level::Error;
    assert!(try_log(&config, &rec, &thread()).unwrap().is_some());
}

#[test]
fn max_level_bounds_severity() {
    let config = ConfigBuilder::new().set_max_level(LevelFilter::Warn).build();
    let mut rec = record("app");
    rec.level = Level::Error;
    assert!(try_log(&config, &rec, &thread()).unwrap().is_none());
    rec.level = Level::Warn;
    assert!(try_log(&config, &rec, &thread()).unwrap().is_some());
}
