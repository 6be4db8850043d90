//! Mapping of the native library's packed severity codes onto eight ordered levels.
use vstd::prelude::*;

verus! {

/// The level that a raw severity code stands for: the code divided by eight,
/// clamped into `0..=7`.
pub open spec fn level_index_of(code: int) -> int {
    let q = code / 8;
    if q < 0 {
        0
    } else if q > 7 {
        7
    } else {
        q
    }
}

/// Maps a raw severity code (a multiple of eight, with flags in the low three
/// bits) to its level index in `0..=7`.
pub fn level_index(code: i32) -> (r: u8)
    ensures
        r as int == level_index_of(code as int),
{
    if code < 8 {
        0
    } else if code >= 64 {
        7
    } else {
        ((code as u32) / 8) as u8
    }
}


/// The eight ordered levels of the native library, most severe first.
#[derive(Clone, Copy, Debug, PartialEq, Eq, Structural)]
pub enum Level {
    Panic,
    Fatal,
    Error,
    Warning,
    Info,
    Verbose,
    Debug,
    Trace,
}

/// The severities of the host's structured logger that records are emitted at.
#[derive(Clone, Copy, Debug, PartialEq, Eq, Structural)]
pub enum Severity {
    Error,
    Warning,
    Info,
    Debug,
}

/// The level at a given index in `0..=7`, in order of decreasing severity.
pub open spec fn level_at(i: int) -> Level {
    if i <= 0 {
        Level::Panic
    } else if i == 1 {
        Level::Fatal
    } else if i == 2 {
        Level::Error
    } else if i == 3 {
        Level::Warning
    } else if i == 4 {
        Level::Info
    } else if i == 5 {
        Level::Verbose
    } else if i == 6 {
        Level::Debug
    } else {
        Level::Trace
    }
}

impl Level {
    /// The position of the level in `0..=7`.
    pub open spec fn index(self) -> int {
        match self {
            Level::Panic => 0,
            Level::Fatal => 1,
            Level::Error => 2,
            Level::Warning => 3,
            Level::Info => 4,
            Level::Verbose => 5,
            Level::Debug => 6,
            Level::Trace => 7,
        }
    }

    /// The five-character tag that names the level in an emitted line.
    pub open spec fn tag_text(self) -> Seq<char> {
        match self {
            Level::Panic => "PANIC"@,
            Level::Fatal => "FATAL"@,
            Level::Error => "ERROR"@,
            Level::Warning => " WARN"@,
            Level::Info => " INFO"@,
            Level::Verbose => " VERB"@,
            Level::Debug => "DEBUG"@,
            Level::Trace => "TRACE"@,
        }
    }

    /// The logger severity that records of the level are emitted at.
    pub open spec fn severity_of(self) -> Severity {
        match self {
            Level::Panic | Level::Fatal | Level::Error => Severity::Error,
            Level::Warning => Severity::Warning,
            Level::Info => Severity::Info,
            Level::Verbose | Level::Debug | Level::Trace => Severity::Debug,
        }
    }

    /// The level that a raw severity code stands for.
    pub fn from_code(code: i32) -> (r: Level)
        ensures
            r == level_at(level_index_of(code as int)),
            r.index() == level_index_of(code as int),
    {
        let i = level_index(code);
        if i == 0 {
            Level::Panic
        } else if i == 1 {
            Level::Fatal
        } else if i == 2 {
            Level::Error
        } else if i == 3 {
            Level::Warning
        } else if i == 4 {
            Level::Info
        } else if i == 5 {
            Level::Verbose
        } else if i == 6 {
            Level::Debug
        } else {
            Level::Trace
        }
    }

    /// The tag that names the level in an emitted line.
    pub fn tag(&self) -> (r: String)
        ensures
            r@ == self.tag_text(),
    {
        let t = match self {
            Level::Panic => "PANIC",
            Level::Fatal => "FATAL",
            Level::Error => "ERROR",
            Level::Warning => " WARN",
            Level::Info => " INFO",
            Level::Verbose => " VERB",
            Level::Debug => "DEBUG",
            Level::Trace => "TRACE",
        };
        String::from_str(t)
    }

    /// The logger severity that records of the level are emitted at.
    pub fn severity(&self) -> (r: Severity)
        ensures
            r == self.severity_of(),
    {
        match self {
            Level::Panic | Level::Fatal | Level::Error => Severity::Error,
            Level::Warning => Severity::Warning,
            Level::Info => Severity::Info,
            Level::Verbose | Level::Debug | Level::Trace => Severity::Debug,
        }
    }
}

} // verus!
