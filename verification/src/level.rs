//! Severity levels and the threshold rule.

use vstd::prelude::*;
use vstd::std_specs::cmp::PartialOrdSpecImpl;
use std::cmp::Ordering;

verus! {

/// The severity of an event, and the threshold of a logger. `Off`, as a threshold, lets
/// nothing through; it is never the level of an event.
#[derive(Debug, Clone, Copy, PartialEq, Eq, Structural, Hash, Ord)]
pub enum LogLevel {
    /// Diagnostic detail.
    Debug,
    /// Ordinary operation.
    Info,
    /// Something unexpected that the program survives.
    Warn,
    /// A failure.
    Error,
    /// No logging at all.
    Off,
}

/// The place of a level in the order `Debug < Info < Warn < Error < Off`.
pub open spec fn rank_of(level: LogLevel) -> nat {
    match level {
        LogLevel::Debug => 0,
        LogLevel::Info => 1,
        LogLevel::Warn => 2,
        LogLevel::Error => 3,
        LogLevel::Off => 4,
    }
}

/// Whether a logger with the given threshold lets an event of the given level through.
pub open spec fn accepts(threshold: LogLevel, level: LogLevel) -> bool {
    rank_of(threshold) <= rank_of(level)
}

/// The upper-case name of a level as it stands in a log line. `Off` has none.
pub open spec fn level_name(level: LogLevel) -> Seq<char> {
    match level {
        LogLevel::Debug => seq!['D', 'E', 'B', 'U', 'G'],
        LogLevel::Info => seq!['I', 'N', 'F', 'O'],
        LogLevel::Warn => seq!['W', 'A', 'R', 'N'],
        LogLevel::Error => seq!['E', 'R', 'R', 'O', 'R'],
        LogLevel::Off => Seq::empty(),
    }
}

impl LogLevel {
    /// The place of this level in the order, from 0 for `Debug` to 4 for `Off`.
    pub fn rank(&self) -> (r: u8)
        ensures
            r == rank_of(*self),
    {
        match self {
            LogLevel::Debug => 0,
            LogLevel::Info => 1,
            LogLevel::Warn => 2,
            LogLevel::Error => 3,
            LogLevel::Off => 4,
        }
    }

    /// Whether a logger whose threshold is `self` emits an event of level `level`.
    pub fn accepts(&self, level: LogLevel) -> (r: bool)
        ensures
            r == accepts(*self, level),
    {
        self.rank() <= level.rank()
    }

    /// The upper-case name of this level; empty for `Off`.
    pub fn name(&self) -> (r: &'static str)
        ensures
            r@ == level_name(*self),
    {
        proof {
            reveal_strlit("DEBUG");
            reveal_strlit("INFO");
            reveal_strlit("WARN");
            reveal_strlit("ERROR");
            reveal_strlit("");
        }
        let r = match self {
            LogLevel::Debug => "DEBUG",
            LogLevel::Info => "INFO",
            LogLevel::Warn => "WARN",
            LogLevel::Error => "ERROR",
            LogLevel::Off => "",
        };
        assert(r@ =~= level_name(*self));
        r
    }
}

impl Default for LogLevel {
    /// `Info`.
    fn default() -> (level: LogLevel)
        ensures
            level == LogLevel::Info,
    {
        LogLevel::Info
    }
}

impl PartialOrd for LogLevel {
    fn partial_cmp(&self, other: &LogLevel) -> (r: Option<Ordering>) {
        let a = self.rank();
        let b = other.rank();
        if a < b {
            Some(Ordering::Less)
        } else if a == b {
            Some(Ordering::Equal)
        } else {
            Some(Ordering::Greater)
        }
    }
}

impl PartialOrdSpecImpl for LogLevel {
    open spec fn obeys_partial_cmp_spec() -> bool {
        true
    }

    open spec fn partial_cmp_spec(&self, other: &LogLevel) -> Option<Ordering> {
        if rank_of(*self) < rank_of(*other) {
            Some(Ordering::Less)
        } else if rank_of(*self) == rank_of(*other) {
            Some(Ordering::Equal)
        } else {
            Some(Ordering::Greater)
        }
    }
}

/// The order is total, and `Off` lies above every level that an event can have.
pub proof fn lemma_order_total(a: LogLevel, b: LogLevel, c: LogLevel)
    ensures
        accepts(a, a),
        accepts(a, b) || accepts(b, a),
        accepts(a, b) && accepts(b, a) ==> a == b,
        accepts(a, b) && accepts(b, c) ==> accepts(a, c),
        accepts(a, LogLevel::Off),
        a != LogLevel::Off ==> !accepts(LogLevel::Off, a),
        accepts(LogLevel::Debug, a),
{
}

} // verus!
