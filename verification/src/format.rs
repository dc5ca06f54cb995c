//! The configuration of a log line: its template, its timestamp and its colors.

use vstd::prelude::*;
use vstd::string::StringExecFns;
use crate::color::{Color, Rgb, white};
use crate::level::LogLevel;

verus! {

/// A table from levels to colors. It need not hold a color for every level.
#[derive(Debug, Clone, Copy, PartialEq, Eq)]
pub struct ColorTable {
    debug: Option<Color>,
    info: Option<Color>,
    warn: Option<Color>,
    error: Option<Color>,
    off: Option<Color>,
}

/// The color that `table` gives to `level`: its entry, or white where it has none.
pub open spec fn color_for(table: Map<LogLevel, Rgb>, level: LogLevel) -> Rgb {
    if table.contains_key(level) {
        table[level]
    } else {
        white()
    }
}

/// The table of the default format: cyan, green, yellow and red for the four levels
/// that an event can have.
pub open spec fn default_colors() -> Map<LogLevel, Rgb> {
    Map::empty().insert(LogLevel::Debug, (0u8, 255u8, 255u8)).insert(
        LogLevel::Info,
        (0u8, 255u8, 0u8),
    ).insert(LogLevel::Warn, (255u8, 255u8, 0u8)).insert(LogLevel::Error, (255u8, 0u8, 0u8))
}

impl ColorTable {
    spec fn slot(&self, level: LogLevel) -> Option<Color> {
        match level {
            LogLevel::Debug => self.debug,
            LogLevel::Info => self.info,
            LogLevel::Warn => self.warn,
            LogLevel::Error => self.error,
            LogLevel::Off => self.off,
        }
    }

    /// The table without entries.
    pub fn new() -> (table: ColorTable)
        ensures
            table@ == Map::<LogLevel, Rgb>::empty(),
    {
        let table = ColorTable { debug: None, info: None, warn: None, error: None, off: None };
        assert(table@ =~= Map::<LogLevel, Rgb>::empty());
        table
    }

    /// The entry of `level`, if there is one.
    pub fn get(&self, level: LogLevel) -> (r: Option<Color>)
        ensures
            r is Some <==> self@.contains_key(level),
            r is Some ==> r->0@ == self@[level],
    {
        match level {
            LogLevel::Debug => self.debug,
            LogLevel::Info => self.info,
            LogLevel::Warn => self.warn,
            LogLevel::Error => self.error,
            LogLevel::Off => self.off,
        }
    }

    /// Sets the entry of `level` to `color` and returns the entry that it replaces.
    pub fn insert(&mut self, level: LogLevel, color: Color) -> (previous: Option<Color>)
        ensures
            final(self)@ == old(self)@.insert(level, color@),
            previous is Some <==> old(self)@.contains_key(level),
            previous is Some ==> previous->0@ == old(self)@[level],
    {
        let previous = self.get(level);
        match level {
            LogLevel::Debug => {
                self.debug = Some(color);
            },
            LogLevel::Info => {
                self.info = Some(color);
            },
            LogLevel::Warn => {
                self.warn = Some(color);
            },
            LogLevel::Error => {
                self.error = Some(color);
            },
            LogLevel::Off => {
                self.off = Some(color);
            },
        }
        assert(final(self)@ =~= old(self)@.insert(level, color@));
        previous
    }

    /// Removes the entry of `level` and returns it.
    pub fn remove(&mut self, level: LogLevel) -> (previous: Option<Color>)
        ensures
            final(self)@ == old(self)@.remove(level),
            previous is Some <==> old(self)@.contains_key(level),
            previous is Some ==> previous->0@ == old(self)@[level],
    {
        let previous = self.get(level);
        match level {
            LogLevel::Debug => {
                self.debug = None;
            },
            LogLevel::Info => {
                self.info = None;
            },
            LogLevel::Warn => {
                self.warn = None;
            },
            LogLevel::Error => {
                self.error = None;
            },
            LogLevel::Off => {
                self.off = None;
            },
        }
        assert(final(self)@ =~= old(self)@.remove(level));
        previous
    }

    /// The color of `level`: its entry, or white where the table has none.
    pub fn color_of(&self, level: LogLevel) -> (color: Color)
        ensures
            color@ == color_for(self@, level),
    {
        match self.get(level) {
            Some(color) => color,
            None => Color::default(),
        }
    }
}

impl View for ColorTable {
    type V = Map<LogLevel, Rgb>;

    closed spec fn view(&self) -> Map<LogLevel, Rgb> {
        Map::new(|level: LogLevel| self.slot(level) is Some, |level: LogLevel| self.slot(level)->0@)
    }
}

impl Default for ColorTable {
    /// Cyan for `Debug`, green for `Info`, yellow for `Warn`, red for `Error`.
    fn default() -> (table: ColorTable)
        ensures
            table@ == default_colors(),
    {
        let mut table = ColorTable::new();
        table.insert(LogLevel::Debug, Color::rgb(0, 255, 255));
        table.insert(LogLevel::Info, Color::rgb(0, 255, 0));
        table.insert(LogLevel::Warn, Color::rgb(255, 255, 0));
        table.insert(LogLevel::Error, Color::rgb(255, 0, 0));
        table
    }
}

/// How a log line is laid out.
///
/// The template is copied to the line character by character, except for:
/// - `{{timestamp}}`, `{{level}}`, `{{message}}`: the time, the level's name, the message;
///   with a `c` before the closing braces (`{{levelc}}`) the terminal shows them in color;
/// - `*`, which switches bold on or off, and `_`, which does so for italic;
/// - `~#RRGGBB`, which opens a span in that color, and the next `~`, which closes it.
///
/// Styling reaches the terminal line only. Color spans do not nest.
#[derive(Debug, Clone, PartialEq, Eq)]
pub struct LoggingFormat {
    /// The template of a line.
    pub template: String,
    /// The color of `{{timestampc}}`.
    pub timestamp_color: Color,
    /// The pattern of the timestamp, in `strftime` notation.
    pub timestamp_format: String,
    /// The IANA name of the time zone in which the timestamp is given.
    pub timezone: String,
    /// The colors of `{{levelc}}`, by level.
    pub level_colors: ColorTable,
    /// The colors of `{{messagec}}`, by level.
    pub message_colors: ColorTable,
}

/// What a format holds, as mathematical values.
pub struct FormatView {
    pub template: Seq<char>,
    pub timestamp_color: Rgb,
    pub timestamp_format: Seq<char>,
    pub timezone: Seq<char>,
    pub level_colors: Map<LogLevel, Rgb>,
    pub message_colors: Map<LogLevel, Rgb>,
}

impl View for LoggingFormat {
    type V = FormatView;

    open spec fn view(&self) -> FormatView {
        FormatView {
            template: self.template@,
            timestamp_color: self.timestamp_color@,
            timestamp_format: self.timestamp_format@,
            timezone: self.timezone@,
            level_colors: self.level_colors@,
            message_colors: self.message_colors@,
        }
    }
}

/// The default format.
pub open spec fn default_format() -> FormatView {
    FormatView {
        template: "*[{{timestampc}}] [{{levelc}}]* {{messagec}}"@,
        timestamp_color: (100u8, 100u8, 100u8),
        timestamp_format: "%Y-%m-%d %H:%M:%S %Z"@,
        timezone: "Europe/Berlin"@,
        level_colors: default_colors(),
        message_colors: default_colors(),
    }
}

impl Default for LoggingFormat {
    /// Bold bracketed timestamp and level, then the message, each in its color; the time
    /// as `YYYY-MM-DD HH:MM:SS` with the zone's abbreviation, in the zone `Europe/Berlin`.
    fn default() -> (format: LoggingFormat)
        ensures
            format@ == default_format(),
    {
        LoggingFormat {
            template: String::from_str("*[{{timestampc}}] [{{levelc}}]* {{messagec}}"),
            timestamp_color: Color::rgb(100, 100, 100),
            timestamp_format: String::from_str("%Y-%m-%d %H:%M:%S %Z"),
            timezone: String::from_str("Europe/Berlin"),
            level_colors: ColorTable::default(),
            message_colors: ColorTable::default(),
        }
    }
}

} // verus!
