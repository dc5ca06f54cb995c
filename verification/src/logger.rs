//! The logger: a threshold, an optional file, a format.

use vstd::prelude::*;
use crate::clock::{TimestampError, format_time, formatted_time, unix_now};
use crate::format::{FormatView, LoggingFormat, default_format};
use crate::level::{LogLevel, rank_of};
use crate::render::{Event, LogLines, render, render_file, render_term};
use crate::template::{has_timestamp, uses_timestamp};
use crate::text::{chars_of, text_of};

verus! {

/// What a logger emits for one event: the two lines, and the file that takes the second.
#[derive(Debug, Clone, PartialEq, Eq)]
pub struct Emission {
    /// The line for the terminal and the line for the file.
    pub lines: LogLines,
    /// The path of the file to append to, if the logger has one.
    pub path: Option<String>,
}

/// A logger with a threshold, an optional output file and a format.
#[derive(Debug, Clone)]
pub struct Logger {
    log_level: LogLevel,
    output_file: Option<String>,
    format: LoggingFormat,
}

/// What a logger holds, as mathematical values.
pub struct LoggerView {
    pub threshold: LogLevel,
    pub output_file: Option<Seq<char>>,
    pub format: FormatView,
}

/// Assembles a logger from the settings that differ from the defaults.
#[derive(Debug, Clone)]
pub struct LoggerBuilder {
    log_level: Option<LogLevel>,
    output_file: Option<String>,
    format: Option<LoggingFormat>,
}

/// What a builder holds, as mathematical values.
pub struct BuilderView {
    pub log_level: Option<LogLevel>,
    pub output_file: Option<Seq<char>>,
    pub format: Option<FormatView>,
}

/// Whether a logger with the given threshold emits an event of the given level: the
/// level is at or above the threshold, and it is a level that an event can have.
pub open spec fn emits(threshold: LogLevel, level: LogLevel) -> bool {
    level != LogLevel::Off && rank_of(threshold) <= rank_of(level)
}

/// Whether `e` is what the logger `logger` emits for the event `ev`.
pub open spec fn emission_of(e: Emission, logger: LoggerView, ev: Event) -> bool {
    &&& e.lines.term@ == render_term(logger.format, ev)
    &&& e.lines.file@ == render_file(logger.format, ev)
    &&& text_of(e.path) == logger.output_file
}

/// The logger that a builder gives: `Info`, no file and the default format, each as far
/// as the builder does not set it.
pub open spec fn built(b: BuilderView) -> LoggerView {
    LoggerView {
        threshold: match b.log_level {
            Some(level) => level,
            None => LogLevel::Info,
        },
        output_file: b.output_file,
        format: match b.format {
            Some(format) => format,
            None => default_format(),
        },
    }
}

/// Whether `r` is what the logger `logger` answers to an event at the instant `secs`
/// seconds and `nanos` nanoseconds after the Unix epoch:
/// - nothing, where it does not emit the level;
/// - the emission with an empty timestamp, where its template shows no time;
/// - else the emission with the instant as `chrono` formats it, or the error `Format`
///   where `chrono` does not format it.
pub open spec fn logged_at(
    r: Result<Option<Emission>, TimestampError>,
    logger: LoggerView,
    level: LogLevel,
    message: Seq<char>,
    secs: i64,
    nanos: u32,
) -> bool {
    let shown = formatted_time(secs, nanos, logger.format.timezone, logger.format.timestamp_format);
    if !emits(logger.threshold, level) {
        r == Ok::<Option<Emission>, TimestampError>(None)
    } else if !has_timestamp(logger.format.template) {
        &&& r is Ok
        &&& r->Ok_0 is Some
        &&& emission_of(r->Ok_0->0, logger, Event { level, message, timestamp: Seq::empty() })
    } else if shown is Some {
        &&& r is Ok
        &&& r->Ok_0 is Some
        &&& emission_of(r->Ok_0->0, logger, Event { level, message, timestamp: shown->0 })
    } else {
        r == Err::<Option<Emission>, TimestampError>(TimestampError::Format)
    }
}

/// Whether `r` is what the logger `logger` may answer to an event that happens now:
/// what it answers to the event at some instant, or the error `Clock`. Where it does
/// not emit the level, and where its template shows no time, the instant plays no part
/// and the clock is not read.
pub open spec fn logged(
    r: Result<Option<Emission>, TimestampError>,
    logger: LoggerView,
    level: LogLevel,
    message: Seq<char>,
) -> bool {
    if emits(logger.threshold, level) && has_timestamp(logger.format.template) {
        ||| r == Err::<Option<Emission>, TimestampError>(TimestampError::Clock)
        ||| exists|secs: i64, nanos: u32| #[trigger]
            logged_at(r, logger, level, message, secs, nanos)
    } else {
        logged_at(r, logger, level, message, 0, 0)
    }
}

impl View for Logger {
    type V = LoggerView;

    closed spec fn view(&self) -> LoggerView {
        LoggerView {
            threshold: self.log_level,
            output_file: text_of(self.output_file),
            format: self.format@,
        }
    }
}

impl View for LoggerBuilder {
    type V = BuilderView;

    closed spec fn view(&self) -> BuilderView {
        BuilderView {
            log_level: self.log_level,
            output_file: text_of(self.output_file),
            format: match self.format {
                Some(format) => Some(format@),
                None => None,
            },
        }
    }
}

impl Logger {
    fn new(log_level: Option<LogLevel>, output_file: Option<String>, format: Option<
        LoggingFormat,
    >) -> (logger: Logger)
        ensures
            logger@ == built(
                BuilderView {
                    log_level,
                    output_file: text_of(output_file),
                    format: match format {
                        Some(format) => Some(format@),
                        None => None,
                    },
                },
            ),
    {
        Logger {
            log_level: match log_level {
                Some(level) => level,
                None => LogLevel::default(),
            },
            output_file,
            format: match format {
                Some(format) => format,
                None => LoggingFormat::default(),
            },
        }
    }

    /// A builder in which nothing is set.
    pub fn builder() -> (b: LoggerBuilder)
        ensures
            b@ == (BuilderView { log_level: None, output_file: None, format: None }),
    {
        LoggerBuilder::new()
    }

    /// The threshold.
    pub fn log_level(&self) -> (level: LogLevel)
        ensures
            level == self@.threshold,
    {
        self.log_level
    }

    /// The path of the output file, if there is one.
    pub fn output_file(&self) -> (path: Option<&String>)
        ensures
            match path {
                Some(path) => self@.output_file == Some(path@),
                None => self@.output_file is None,
            },
    {
        self.output_file.as_ref()
    }

    /// The format.
    pub fn format(&self) -> (format: &LoggingFormat)
        ensures
            format@ == self@.format,
    {
        &self.format
    }

    /// Sets the threshold. Every later event is held against it.
    pub fn set_log_level(&mut self, level: LogLevel)
        ensures
            final(self)@ == (LoggerView { threshold: level, ..old(self)@ }),
    {
        self.log_level = level;
    }

    /// Sets the output file, or with `None` ends the writing to a file.
    pub fn set_output_file(&mut self, file: Option<String>)
        ensures
            final(self)@ == (LoggerView { output_file: text_of(file), ..old(self)@ }),
    {
        self.output_file = file;
    }

    /// Whether this logger emits an event of the given level.
    pub fn emits(&self, level: LogLevel) -> (r: bool)
        ensures
            r == emits(self@.threshold, level),
    {
        match level {
            LogLevel::Off => false,
            _ => self.log_level.rank() <= level.rank(),
        }
    }

    /// What this logger emits for an event whose time is shown as `timestamp`: nothing
    /// where the level is below the threshold, else the two lines and the output file.
    pub fn emit(&self, level: LogLevel, message: &str, timestamp: &str) -> (r: Option<Emission>)
        ensures
            r is Some <==> emits(self@.threshold, level),
            r is Some ==> emission_of(
                r->0,
                self@,
                Event { level, message: message@, timestamp: timestamp@ },
            ),
    {
        if !self.emits(level) {
            return None;
        }
        let lines = render(&self.format, level, message, timestamp);
        let path = match &self.output_file {
            Some(path) => Some(path.clone()),
            None => None,
        };
        Some(Emission { lines, path })
    }

    /// Whether the template of this logger shows the time of the event.
    fn shows_time(&self) -> (r: bool)
        ensures
            r == has_timestamp(self@.format.template),
    {
        let template = chars_of(self.format.template.as_str());
        uses_timestamp(&template)
    }

    /// What this logger emits for an event at the instant `secs` seconds and `nanos`
    /// nanoseconds after the Unix epoch. The instant is formatted only where the level
    /// passes the threshold and the template shows the time; that it cannot be
    /// formatted is then an error.
    pub fn log_at(&self, level: LogLevel, message: &str, secs: i64, nanos: u32) -> (r: Result<
        Option<Emission>,
        TimestampError,
    >)
        ensures
            logged_at(r, self@, level, message@, secs, nanos),
    {
        if !self.emits(level) {
            return Ok(None);
        }
        if !self.shows_time() {
            proof {
                reveal_strlit("");
                assert(""@ =~= Seq::<char>::empty());
            }
            return Ok(self.emit(level, message, ""));
        }
        match format_time(
            secs,
            nanos,
            self.format.timezone.as_str(),
            self.format.timestamp_format.as_str(),
        ) {
            Some(timestamp) => Ok(self.emit(level, message, timestamp.as_str())),
            None => Err(TimestampError::Format),
        }
    }

    /// What this logger emits for an event that happens now. The clock is read only
    /// where the level passes the threshold and the template shows the time.
    pub fn log(&self, level: LogLevel, message: &str) -> (r: Result<
        Option<Emission>,
        TimestampError,
    >)
        ensures
            logged(r, self@, level, message@),
    {
        if !self.emits(level) || !self.shows_time() {
            return self.log_at(level, message, 0, 0);
        }
        match unix_now() {
            Some((secs, nanos)) => {
                if secs > 0x7fff_ffff_ffff_ffff {
                    return Err(TimestampError::Clock);
                }
                let r = self.log_at(level, message, secs as i64, nanos);
                assert(logged_at(r, self@, level, message@, secs as i64, nanos));
                r
            },
            None => Err(TimestampError::Clock),
        }
    }

    /// Logs `message` at the level `Debug`: emitted only where the threshold is `Debug`.
    pub fn debug(&self, message: &str) -> (r: Result<Option<Emission>, TimestampError>)
        ensures
            logged(r, self@, LogLevel::Debug, message@),
    {
        self.log(LogLevel::Debug, message)
    }

    /// Logs `message` at the level `Info`: emitted where the threshold is `Info` or below.
    pub fn info(&self, message: &str) -> (r: Result<Option<Emission>, TimestampError>)
        ensures
            logged(r, self@, LogLevel::Info, message@),
    {
        self.log(LogLevel::Info, message)
    }

    /// Logs `message` at the level `Warn`: emitted where the threshold is `Warn` or below.
    pub fn warn(&self, message: &str) -> (r: Result<Option<Emission>, TimestampError>)
        ensures
            logged(r, self@, LogLevel::Warn, message@),
    {
        self.log(LogLevel::Warn, message)
    }

    /// Logs `message` at the level `Error`: emitted unless the threshold is `Off`.
    pub fn error(&self, message: &str) -> (r: Result<Option<Emission>, TimestampError>)
        ensures
            logged(r, self@, LogLevel::Error, message@),
    {
        self.log(LogLevel::Error, message)
    }
}

/// The threshold rule: an event is emitted if and only if its level is at or above the
/// threshold. So the threshold `Off` emits nothing, and `Debug` every event.
pub proof fn lemma_threshold_rule(threshold: LogLevel, level: LogLevel)
    ensures
        level != LogLevel::Off ==> (emits(threshold, level) <==> rank_of(threshold) <= rank_of(
            level,
        )),
        !emits(LogLevel::Off, level),
        level != LogLevel::Off ==> emits(LogLevel::Debug, level),
        !emits(threshold, LogLevel::Off),
{
}

/// What is answered to an event says whether it was emitted: an emission where the
/// level passes the threshold, and nothing where it does not.
pub proof fn lemma_logged_iff_emits(
    r: Result<Option<Emission>, TimestampError>,
    logger: LoggerView,
    level: LogLevel,
    message: Seq<char>,
)
    requires
        logged(r, logger, level, message),
        r is Ok,
    ensures
        r->Ok_0 is Some <==> emits(logger.threshold, level),
{
}

impl Default for Logger {
    /// The logger of a builder in which nothing is set.
    fn default() -> (logger: Logger)
        ensures
            logger@ == built(BuilderView { log_level: None, output_file: None, format: None }),
    {
        Logger::new(None, None, None)
    }
}

impl LoggerBuilder {
    /// A builder in which nothing is set.
    pub fn new() -> (b: LoggerBuilder)
        ensures
            b@ == (BuilderView { log_level: None, output_file: None, format: None }),
    {
        LoggerBuilder { log_level: None, output_file: None, format: None }
    }

    /// Sets the threshold.
    pub fn log_level(self, level: LogLevel) -> (b: LoggerBuilder)
        ensures
            b@ == (BuilderView { log_level: Some(level), ..self@ }),
    {
        let mut b = self;
        b.log_level = Some(level);
        b
    }

    /// Sets the output file.
    pub fn output_file(self, file: String) -> (b: LoggerBuilder)
        ensures
            b@ == (BuilderView { output_file: Some(file@), ..self@ }),
    {
        let mut b = self;
        b.output_file = Some(file);
        b
    }

    /// Sets the format.
    pub fn format(self, format: LoggingFormat) -> (b: LoggerBuilder)
        ensures
            b@ == (BuilderView { format: Some(format@), ..self@ }),
    {
        let mut b = self;
        b.format = Some(format);
        b
    }

    /// The logger with the settings of this builder, and the defaults for the others.
    pub fn build(self) -> (logger: Logger)
        ensures
            logger@ == built(self@),
    {
        Logger::new(self.log_level, self.output_file, self.format)
    }
}

impl Default for LoggerBuilder {
    /// A builder in which nothing is set.
    fn default() -> (b: LoggerBuilder)
        ensures
            b@ == (BuilderView { log_level: None, output_file: None, format: None }),
    {
        LoggerBuilder::new()
    }
}

} // verus!
