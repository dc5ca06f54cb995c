use bot_utils::clock::TimestampError;
use bot_utils::color::Color;
use bot_utils::format::{ColorTable, LoggingFormat};
use bot_utils::level::LogLevel;
use bot_utils::logger::{Logger, LoggerBuilder};

const LEVELS: [LogLevel; 5] =
    [LogLevel::Debug, LogLevel::Info, LogLevel::Warn, LogLevel::Error, LogLevel::Off];

fn plain_format(template: &str) -> LoggingFormat {
    LoggingFormat { template: template.to_string(), ..LoggingFormat::default() }
}

fn utc_format(template: &str, pattern: &str) -> LoggingFormat {
    LoggingFormat {
        template: template.to_string(),
        timestamp_format: pattern.to_string(),
        timezone: "UTC".to_string(),
        ..LoggingFormat::default()
    }
}

#[test]
fn builder_defaults() {
    let logger = Logger::builder().build();
    assert_eq!(logger.log_level(), LogLevel::Info);
    assert_eq!(logger.output_file(), None);
    assert_eq!(logger.format(), &LoggingFormat::default());
    let logger = Logger::default();
    assert_eq!(logger.log_level(), LogLevel::Info);
    assert_eq!(logger.output_file(), None);
    assert_eq!(logger.format(), &LoggingFormat::default());
    let logger = LoggerBuilder::default().build();
    assert_eq!(logger.log_level(), LogLevel::Info);
}

#[test]
fn builder_overrides() {
    let format = plain_format("{{message}}");
    let logger = LoggerBuilder::new()
        .log_level(LogLevel::Error)
        .output_file("logs/a.log".to_string())
        .format(format.clone())
        .build();
    assert_eq!(logger.log_level(), LogLevel::Error);
    assert_eq!(logger.output_file(), Some(&"logs/a.log".to_string()));
    assert_eq!(logger.format(), &format);
}

#[test]
fn default_format_values() {
    let format = LoggingFormat::default();
    assert_eq!(format.template, "*[{{timestampc}}] [{{levelc}}]* {{messagec}}");
    assert_eq!(format.timestamp_format, "%Y-%m-%d %H:%M:%S %Z");
    assert_eq!(format.timezone, "Europe/Berlin");
    assert_eq!(format.timestamp_color, Color::rgb(100, 100, 100));
    assert_eq!(format.level_colors, format.message_colors);
    assert_eq!(format.level_colors.get(LogLevel::Debug), Some(Color::rgb(0, 255, 255)));
    assert_eq!(format.level_colors.get(LogLevel::Info), Some(Color::rgb(0, 255, 0)));
    assert_eq!(format.level_colors.get(LogLevel::Warn), Some(Color::rgb(255, 255, 0)));
    assert_eq!(format.level_colors.get(LogLevel::Error), Some(Color::rgb(255, 0, 0)));
    assert_eq!(format.level_colors.get(LogLevel::Off), None);
}

#[test]
fn color_table_insert_get_remove() {
    let mut table = ColorTable::new();
    for level in LEVELS {
        assert_eq!(table.get(level), None);
        assert_eq!(table.color_of(level), Color::rgb(255, 255, 255));
    }
    assert_eq!(table.insert(LogLevel::Warn, Color::rgb(1, 2, 3)), None);
    assert_eq!(table.insert(LogLevel::Warn, Color::rgb(4, 5, 6)), Some(Color::rgb(1, 2, 3)));
    assert_eq!(table.get(LogLevel::Warn), Some(Color::rgb(4, 5, 6)));
    assert_eq!(table.color_of(LogLevel::Warn), Color::rgb(4, 5, 6));
    assert_eq!(table.get(LogLevel::Error), None);
    assert_eq!(table.remove(LogLevel::Warn), Some(Color::rgb(4, 5, 6)));
    assert_eq!(table.remove(LogLevel::Warn), None);
    assert_eq!(table, ColorTable::new());
    assert_eq!(ColorTable::default().color_of(LogLevel::Debug), Color::rgb(0, 255, 255));
}

#[test]
fn setters_replace_the_fields() {
    let mut logger = Logger::builder().build();
    logger.set_log_level(LogLevel::Off);
    assert_eq!(logger.log_level(), LogLevel::Off);
    assert_eq!(logger.output_file(), None);
    logger.set_output_file(Some("x.log".to_string()));
    assert_eq!(logger.output_file(), Some(&"x.log".to_string()));
    assert_eq!(logger.log_level(), LogLevel::Off);
    logger.set_output_file(None);
    assert_eq!(logger.output_file(), None);
    assert_eq!(logger.format(), &LoggingFormat::default());
}

#[test]
fn emitted_iff_threshold_at_most_level() {
    for threshold in LEVELS {
        let logger = Logger::builder()
            .log_level(threshold)
            .format(plain_format("{{level}}: {{message}}"))
            .build();
        for level in [LogLevel::Debug, LogLevel::Info, LogLevel::Warn, LogLevel::Error] {
            let expected = threshold <= level;
            assert_eq!(logger.emits(level), expected);
            assert_eq!(logger.emit(level, "m", "t").is_some(), expected);
            assert_eq!(logger.log_at(level, "m", 0, 0).unwrap().is_some(), expected);
            assert_eq!(logger.log(level, "m").unwrap().is_some(), expected);
        }
        assert_eq!(logger.debug("m").unwrap().is_some(), threshold <= LogLevel::Debug);
        assert_eq!(logger.info("m").unwrap().is_some(), threshold <= LogLevel::Info);
        assert_eq!(logger.warn("m").unwrap().is_some(), threshold <= LogLevel::Warn);
        assert_eq!(logger.error("m").unwrap().is_some(), threshold <= LogLevel::Error);
    }
}

#[test]
fn off_emits_nothing() {
    let logger = Logger::builder().log_level(LogLevel::Off).build();
    for level in LEVELS {
        assert!(!logger.emits(level));
        assert_eq!(logger.emit(level, "m", "t"), None);
        assert_eq!(logger.log_at(level, "m", 0, 0), Ok(None));
        assert_eq!(logger.log(level, "m"), Ok(None));
    }
    for threshold in LEVELS {
        let logger = Logger::builder().log_level(threshold).build();
        assert_eq!(logger.emit(LogLevel::Off, "m", "t"), None);
        assert_eq!(logger.log(LogLevel::Off, "m"), Ok(None));
    }
}

#[test]
fn level_methods_use_their_level() {
    let logger = Logger::builder()
        .log_level(LogLevel::Debug)
        .format(plain_format("{{level}}|{{message}}"))
        .build();
    assert_eq!(logger.debug("a").unwrap().unwrap().lines.file, "DEBUG|a");
    assert_eq!(logger.info("b").unwrap().unwrap().lines.file, "INFO|b");
    assert_eq!(logger.warn("c").unwrap().unwrap().lines.file, "WARN|c");
    assert_eq!(logger.error("d").unwrap().unwrap().lines.file, "ERROR|d");
    assert_eq!(logger.error("d").unwrap().unwrap().lines.term, "ERROR|d\x1b[0m");
}

#[test]
fn emission_carries_the_output_file() {
    let mut logger = Logger::builder()
        .output_file("out.log".to_string())
        .format(plain_format("{{message}}"))
        .build();
    let emission = logger.info("m").unwrap().unwrap();
    assert_eq!(emission.path, Some("out.log".to_string()));
    assert_eq!(emission.lines.file, "m");
    assert_eq!(emission.lines.term, "m\x1b[0m");
    logger.set_output_file(None);
    assert_eq!(logger.info("m").unwrap().unwrap().path, None);
}

#[test]
fn emit_renders_with_the_given_timestamp() {
    let logger = Logger::builder().format(plain_format("{{timestamp}} {{message}}")).build();
    let emission = logger.emit(LogLevel::Warn, "m", "12:00").unwrap();
    assert_eq!(emission.lines.file, "12:00 m");
    assert_eq!(emission.lines.term, "12:00 m\x1b[0m");
}

#[test]
fn log_at_formats_the_instant() {
    let logger = Logger::builder()
        .format(utc_format("{{timestamp}} {{message}}", "%Y-%m-%d %H:%M:%S"))
        .build();
    let emission = logger.log_at(LogLevel::Info, "m", 0, 0).unwrap().unwrap();
    assert_eq!(emission.lines.file, "1970-01-01 00:00:00 m");
    let emission = logger.log_at(LogLevel::Info, "m", 1_700_000_000, 5).unwrap().unwrap();
    assert_eq!(emission.lines.file, "2023-11-14 22:13:20 m");
    let emission = logger.log_at(LogLevel::Info, "m", -1, 0).unwrap().unwrap();
    assert_eq!(emission.lines.file, "1969-12-31 23:59:59 m");
}

#[test]
fn log_at_uses_the_time_zone() {
    let logger = Logger::builder().format(plain_format("{{timestamp}}")).build();
    let winter = logger.log_at(LogLevel::Info, "m", 1_700_000_000, 0).unwrap().unwrap();
    assert_eq!(winter.lines.file, "2023-11-14 23:13:20 CET");
    let summer = logger.log_at(LogLevel::Info, "m", 1_690_000_000, 0).unwrap().unwrap();
    assert_eq!(summer.lines.file, "2023-07-22 06:26:40 CEST");
    assert_eq!(
        summer.lines.term,
        "2023-07-22 06:26:40 CEST\x1b[0m"
    );
}

#[test]
fn log_at_reports_what_cannot_be_formatted() {
    let unknown_zone = LoggingFormat {
        timezone: "Mars/Olympus".to_string(),
        ..plain_format("{{timestamp}}")
    };
    let logger = Logger::builder().format(unknown_zone).build();
    assert_eq!(logger.log_at(LogLevel::Info, "m", 0, 0), Err(TimestampError::Format));
    assert_eq!(logger.log(LogLevel::Info, "m"), Err(TimestampError::Format));
    assert_eq!(logger.log_at(LogLevel::Debug, "m", 0, 0), Ok(None));

    let bad_pattern = utc_format("{{timestampc}}", "%Y-%Q");
    let logger = Logger::builder().format(bad_pattern).build();
    assert_eq!(logger.log_at(LogLevel::Info, "m", 0, 0), Err(TimestampError::Format));
    assert_eq!(logger.error("m"), Err(TimestampError::Format));

    let logger = Logger::builder().format(utc_format("{{timestamp}}", "%Y")).build();
    assert_eq!(logger.log_at(LogLevel::Info, "m", i64::MAX, 0), Err(TimestampError::Format));
    assert_eq!(
        logger.log_at(LogLevel::Info, "m", 0, 2_000_000_000),
        Err(TimestampError::Format)
    );
}

#[test]
fn template_without_time_needs_no_clock() {
    let format = LoggingFormat {
        timezone: "Mars/Olympus".to_string(),
        timestamp_format: "%Q".to_string(),
        ..plain_format("{{level}} {{messagec}} {{timestamp")
    };
    let logger = Logger::builder().format(format).build();
    let emission = logger.log_at(LogLevel::Warn, "m", i64::MAX, 0).unwrap().unwrap();
    assert_eq!(emission.lines.file, "WARN m {{timestamp");
    let emission = logger.warn("m").unwrap().unwrap();
    assert_eq!(emission.lines.file, "WARN m {{timestamp");
}

#[test]
fn log_reads_the_clock() {
    let logger = Logger::builder().format(utc_format("{{timestamp}}|{{message}}", "%Y")).build();
    let emission = logger.info("m").unwrap().unwrap();
    let (year, rest) = emission.lines.file.split_once('|').unwrap();
    assert_eq!(rest, "m");
    assert_eq!(year.len(), 4);
    assert!(year.parse::<u32>().unwrap() >= 2024);
}

#[test]
fn logging_twice_differs_in_the_timestamp_only() {
    let logger = Logger::builder()
        .format(utc_format("[{{timestamp}}] {{level}} {{message}}", "%s"))
        .build();
    let first = logger.log_at(LogLevel::Info, "m", 1, 0).unwrap().unwrap();
    let second = logger.log_at(LogLevel::Info, "m", 22, 0).unwrap().unwrap();
    assert_eq!(first.lines.file, "[1] INFO m");
    assert_eq!(second.lines.file, "[22] INFO m");
    let again = logger.log_at(LogLevel::Info, "m", 1, 0).unwrap().unwrap();
    assert_eq!(first, again);
}
