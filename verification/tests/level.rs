use bot_utils::level::LogLevel;

const LEVELS: [LogLevel; 5] =
    [LogLevel::Debug, LogLevel::Info, LogLevel::Warn, LogLevel::Error, LogLevel::Off];

#[test]
fn levels_are_ordered() {
    assert!(LogLevel::Debug < LogLevel::Info);
    assert!(LogLevel::Info < LogLevel::Warn);
    assert!(LogLevel::Warn < LogLevel::Error);
    assert!(LogLevel::Error < LogLevel::Off);
    assert!(LogLevel::Off > LogLevel::Debug);
    assert!(LogLevel::Warn <= LogLevel::Warn);
    assert!(!(LogLevel::Warn < LogLevel::Warn));
}

#[test]
fn order_agrees_with_rank() {
    for a in LEVELS {
        for b in LEVELS {
            assert_eq!(a < b, a.rank() < b.rank());
            assert_eq!(a <= b, a.rank() <= b.rank());
            assert_eq!(a == b, a.rank() == b.rank());
            assert_eq!(a.partial_cmp(&b), Some(a.cmp(&b)));
            assert_eq!(a.cmp(&b), a.rank().cmp(&b.rank()));
        }
    }
}

#[test]
fn ranks_count_up_from_debug() {
    assert_eq!(LogLevel::Debug.rank(), 0);
    assert_eq!(LogLevel::Info.rank(), 1);
    assert_eq!(LogLevel::Warn.rank(), 2);
    assert_eq!(LogLevel::Error.rank(), 3);
    assert_eq!(LogLevel::Off.rank(), 4);
}

#[test]
fn default_level_is_info() {
    assert_eq!(LogLevel::default(), LogLevel::Info);
}

#[test]
fn accepts_is_threshold_at_most_level() {
    for threshold in LEVELS {
        for level in LEVELS {
            assert_eq!(threshold.accepts(level), threshold <= level);
        }
    }
    assert!(LogLevel::Debug.accepts(LogLevel::Debug));
    assert!(LogLevel::Info.accepts(LogLevel::Error));
    assert!(!LogLevel::Warn.accepts(LogLevel::Info));
    assert!(!LogLevel::Off.accepts(LogLevel::Error));
}

#[test]
fn names_are_upper_case() {
    assert_eq!(LogLevel::Debug.name(), "DEBUG");
    assert_eq!(LogLevel::Info.name(), "INFO");
    assert_eq!(LogLevel::Warn.name(), "WARN");
    assert_eq!(LogLevel::Error.name(), "ERROR");
    assert_eq!(LogLevel::Off.name(), "");
}
