use std::cmp::Ordering;

use freecord::config::logs::{LevelFilter, Logs};
use freecord::logger::{
    env_level, parse_level, ParseLevelError, file_level_filter, panel_level_filter, Batcher, Level, BATCH_SIZE, BATCH_TIMEOUT_MILLIS,
};

#[test]
fn level_compares_with_filters_by_rank() {
    assert_eq!(Level::Error.partial_cmp(&LevelFilter::Off), Some(Ordering::Greater));
    assert_eq!(Level::Error.partial_cmp(&LevelFilter::Error), Some(Ordering::Equal));
    assert_eq!(Level::Warn.partial_cmp(&LevelFilter::Info), Some(Ordering::Less));
    assert_eq!(Level::Debug.partial_cmp(&LevelFilter::Info), Some(Ordering::Greater));
    assert_eq!(Level::Trace.partial_cmp(&LevelFilter::Trace), Some(Ordering::Equal));
    assert!(Level::Info <= LevelFilter::Info);
    assert!(Level::Trace > LevelFilter::Debug);
}

#[test]
fn level_equals_its_own_filter_only() {
    assert!(Level::Info == LevelFilter::Info);
    assert!(Level::Info != LevelFilter::Warn);
    assert!(Level::Error != LevelFilter::Off);
    for (level, filter) in [
        (Level::Error, LevelFilter::Error),
        (Level::Warn, LevelFilter::Warn),
        (Level::Info, LevelFilter::Info),
        (Level::Debug, LevelFilter::Debug),
        (Level::Trace, LevelFilter::Trace),
    ] {
        assert_eq!(level.to_level_filter(), filter);
        assert!(level == filter);
    }
}

#[test]
fn levels_are_ordered_by_severity() {
    assert!(Level::Error < Level::Warn);
    assert!(Level::Debug < Level::Trace);
}

#[test]
fn level_names() {
    assert_eq!(Level::Error.to_string(), "ERROR");
    assert_eq!(Level::Warn.to_string(), "WARN");
    assert_eq!(Level::Info.to_string(), "INFO");
    assert_eq!(Level::Debug.to_string(), "DEBUG");
    assert_eq!(Level::Trace.to_string(), "TRACE");
}

#[test]
fn filters_from_environment_or_configuration() {
    assert_eq!(file_level_filter(None, LevelFilter::Warn), LevelFilter::Warn);
    assert_eq!(file_level_filter(Some(Level::Debug), LevelFilter::Warn), LevelFilter::Debug);
    assert_eq!(panel_level_filter(None), LevelFilter::Trace);
    assert_eq!(panel_level_filter(Some(Level::Error)), LevelFilter::Error);
    assert_eq!(Logs::default().file_level, LevelFilter::Info);
}

#[test]
fn batcher_hands_over_full_batches() {
    let mut b = Batcher::new();
    for i in 0..BATCH_SIZE - 1 {
        b.push(i);
        assert_eq!(b.take_due(0), None);
    }
    b.push(BATCH_SIZE - 1);
    let batch = b.take_due(0).unwrap();
    assert_eq!(batch, (0..BATCH_SIZE).collect::<Vec<_>>());
    assert_eq!(b.take_due(10_000), None);
}

#[test]
fn batcher_hands_over_old_batches() {
    let mut b = Batcher::new();
    assert_eq!(b.take_due(BATCH_TIMEOUT_MILLIS), None);
    b.push("a");
    b.push("b");
    assert_eq!(b.take_due(BATCH_TIMEOUT_MILLIS - 1), None);
    assert_eq!(b.take_due(BATCH_TIMEOUT_MILLIS), Some(vec!["a", "b"]));
}

#[test]
fn receive_loop_batches_in_order() {
    let mut batcher = Batcher::new();
    let mut batches: Vec<Vec<u32>> = Vec::new();
    for record in 0..30u32 {
        batcher.push(record);
        if let Some(batch) = batcher.take_due(0) {
            batches.push(batch);
        }
    }
    assert_eq!(batches, vec![(0..25).collect::<Vec<u32>>()]);
    assert_eq!(batcher.take_due(BATCH_TIMEOUT_MILLIS), Some((25..30).collect::<Vec<u32>>()));
    assert_eq!(batcher.take_due(BATCH_TIMEOUT_MILLIS), None);
}

#[test]
fn levels_parse_in_any_case() {
    assert_eq!(parse_level("info"), Ok(Level::Info));
    assert_eq!(parse_level("WaRn"), Ok(Level::Warn));
    assert_eq!(parse_level("TRACE"), Ok(Level::Trace));
    assert_eq!(parse_level("off"), Err(ParseLevelError {}));
    assert_eq!(parse_level("verbose"), Err(ParseLevelError {}));
    assert_eq!(parse_level(""), Err(ParseLevelError {}));
    assert_eq!(env_level(None), Ok(None));
    assert_eq!(env_level(Some("debug")), Ok(Some(Level::Debug)));
    assert_eq!(env_level(Some("loud")), Err(ParseLevelError {}));
}
