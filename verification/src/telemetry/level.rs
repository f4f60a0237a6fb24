//! Log levels and the maximum-level filter, ordered as the `log` crate
//! orders them (`Off < Error < Warn < Info < Debug < Trace`).

use vstd::prelude::*;
use crate::text::{str_eq, owned};

verus! {

/// The verbosity of one log record.
#[derive(Clone, Copy, Debug, PartialEq, Eq, Structural)]
pub enum Level {
    Error,
    Warn,
    Info,
    Debug,
    Trace,
}

/// The most verbose level that is let through (`Off` lets nothing through).
#[derive(Clone, Copy, Debug, PartialEq, Eq, Structural)]
pub enum LevelFilter {
    Off,
    Error,
    Warn,
    Info,
    Debug,
    Trace,
}

pub open spec fn level_rank(l: Level) -> nat {
    match l {
        Level::Error => 1,
        Level::Warn => 2,
        Level::Info => 3,
        Level::Debug => 4,
        Level::Trace => 5,
    }
}

pub open spec fn filter_rank(f: LevelFilter) -> nat {
    match f {
        LevelFilter::Off => 0,
        LevelFilter::Error => 1,
        LevelFilter::Warn => 2,
        LevelFilter::Info => 3,
        LevelFilter::Debug => 4,
        LevelFilter::Trace => 5,
    }
}

/// The upper-case name a level is displayed with.
pub open spec fn level_name(l: Level) -> Seq<char> {
    match l {
        Level::Error => "ERROR"@,
        Level::Warn => "WARN"@,
        Level::Info => "INFO"@,
        Level::Debug => "DEBUG"@,
        Level::Trace => "TRACE"@,
    }
}

/// The filter named by a lower-case word; anything else means `Info`.
pub open spec fn filter_from_word(s: Seq<char>) -> LevelFilter {
    if s == "trace"@ {
        LevelFilter::Trace
    } else if s == "debug"@ {
        LevelFilter::Debug
    } else if s == "info"@ {
        LevelFilter::Info
    } else if s == "warn"@ {
        LevelFilter::Warn
    } else if s == "error"@ {
        LevelFilter::Error
    } else if s == "off"@ {
        LevelFilter::Off
    } else {
        LevelFilter::Info
    }
}

/// What `str::to_lowercase` returns for a string: its Unicode lower-case form.
pub uninterp spec fn unicode_lowercase(s: Seq<char>) -> Seq<char>;

/// Every character is ASCII.
pub open spec fn all_ascii(s: Seq<char>) -> bool {
    forall|i: int| 0 <= i < s.len() ==> (#[trigger] s[i] as u32) < 128
}

/// The ASCII lower-case form of a character: `A`–`Z` become `a`–`z`.
pub open spec fn ascii_lower(c: char) -> char {
    if 'A' <= c && c <= 'Z' {
        ((c as u32) + 32) as char
    } else {
        c
    }
}

/// The ASCII lower-case form of a string, character by character.
pub open spec fn ascii_lowercase(s: Seq<char>) -> Seq<char> {
    s.map_values(|c: char| ascii_lower(c))
}

/// `str::to_lowercase`: the Unicode lower-case form of `s`, named by
/// `unicode_lowercase` and not spelled out here beyond ASCII text, where
/// Unicode lower-casing maps `A`–`Z` to `a`–`z` and keeps every other
/// character.
#[verifier::external_body]
fn to_lowercase(s: &str) -> (r: String)
    ensures
        r@ == unicode_lowercase(s@),
        all_ascii(s@) ==> r@ == ascii_lowercase(s@),
{
    s.to_lowercase()
}

/// The level setting a process is started with: `LOG_LEVEL`, else `RUST_LOG`,
/// else `"info"`.
pub open spec fn chosen_level_setting(log_level: Option<Seq<char>>, rust_log: Option<Seq<char>>) -> Seq<char> {
    match log_level {
        Some(v) => v,
        None => match rust_log {
            Some(v) => v,
            None => "info"@,
        },
    }
}

/// A filter that lets a level through lets every less verbose level through.
pub proof fn lemma_filter_monotone(less: Level, more: Level, f: LevelFilter)
    requires
        level_rank(less) <= level_rank(more),
        more.allowed_by(f),
    ensures
        less.allowed_by(f),
{
}

/// Each filter lets through exactly the levels up to its own name, in the
/// order Error, Warn, Info, Debug, Trace: a filter named like a level lets
/// that level through, and no filter lets through a more verbose one.
pub proof fn lemma_filter_admits_up_to_its_name(l: Level)
    ensures
        !l.allowed_by(LevelFilter::Off),
        l.allowed_by(LevelFilter::Error) <==> l == Level::Error,
        l.allowed_by(LevelFilter::Warn) <==> (l == Level::Error || l == Level::Warn),
        l.allowed_by(LevelFilter::Info) <==> (l == Level::Error || l == Level::Warn || l == Level::Info),
        l.allowed_by(LevelFilter::Debug) <==> l != Level::Trace,
        l.allowed_by(LevelFilter::Trace),
{
}

/// A level's displayed name, lower-cased, is the word of the filter of the
/// same rank: reading it back gives a filter that lets exactly that level
/// and the less verbose ones through.
pub proof fn lemma_level_name_reads_back(l: Level)
    ensures
        all_ascii(level_name(l)),
        filter_rank(filter_from_word(ascii_lowercase(level_name(l)))) == level_rank(l),
{
    reveal_strlit("ERROR");
    reveal_strlit("WARN");
    reveal_strlit("INFO");
    reveal_strlit("DEBUG");
    reveal_strlit("TRACE");
    reveal_strlit("error");
    reveal_strlit("warn");
    reveal_strlit("info");
    reveal_strlit("debug");
    reveal_strlit("trace");
    reveal_strlit("off");
    let n = level_name(l);
    assert(all_ascii(n)) by {
        assert forall|i: int| 0 <= i < n.len() implies (#[trigger] n[i] as u32) < 128 by {
            assert(0 <= i < 5);
        }
    }
    match l {
        Level::Error => {
            assert(ascii_lowercase(n) =~= "error"@);
            assert("error"@[0] != "trace"@[0] && "error"@[0] != "debug"@[0] && "error"@[0] != "info"@[0]
                && "error"@[0] != "warn"@[0]);
        },
        Level::Warn => {
            assert(ascii_lowercase(n) =~= "warn"@);
            assert("warn"@[0] != "trace"@[0] && "warn"@[0] != "debug"@[0] && "warn"@[0] != "info"@[0]);
        },
        Level::Info => {
            assert(ascii_lowercase(n) =~= "info"@);
            assert("info"@[0] != "trace"@[0] && "info"@[0] != "debug"@[0]);
        },
        Level::Debug => {
            assert(ascii_lowercase(n) =~= "debug"@);
            assert("debug"@[0] != "trace"@[0]);
        },
        Level::Trace => {
            assert(ascii_lowercase(n) =~= "trace"@);
        },
    }
}

/// `Off` lets no level through; `Trace` lets every level through.
pub proof fn lemma_filter_extremes(l: Level)
    ensures
        !l.allowed_by(LevelFilter::Off),
        l.allowed_by(LevelFilter::Trace),
{
}

impl Level {
    /// `level <= filter` in the `log` crate's order.
    pub open spec fn allowed_by(self, f: LevelFilter) -> bool {
        level_rank(self) <= filter_rank(f)
    }

    /// The upper-case name the level is displayed with.
    pub fn as_str(&self) -> (r: &'static str)
        ensures
            r@ == level_name(*self),
    {
        match self {
            Level::Error => "ERROR",
            Level::Warn => "WARN",
            Level::Info => "INFO",
            Level::Debug => "DEBUG",
            Level::Trace => "TRACE",
        }
    }
}

impl LevelFilter {
    /// Whether a record at `level` passes this filter.
    pub fn allows(&self, level: Level) -> (r: bool)
        ensures
            r == level.allowed_by(*self),
    {
        let l: u8 = match level {
            Level::Error => 1,
            Level::Warn => 2,
            Level::Info => 3,
            Level::Debug => 4,
            Level::Trace => 5,
        };
        let f: u8 = match self {
            LevelFilter::Off => 0,
            LevelFilter::Error => 1,
            LevelFilter::Warn => 2,
            LevelFilter::Info => 3,
            LevelFilter::Debug => 4,
            LevelFilter::Trace => 5,
        };
        l <= f
    }

    /// The filter named by an already lower-cased word: `trace`, `debug`,
    /// `info`, `warn`, `error`, `off`; anything else is `Info`.
    pub fn from_lowercase_word(s: &str) -> (r: LevelFilter)
        ensures
            r == filter_from_word(s@),
    {
        if str_eq(s, "trace") {
            LevelFilter::Trace
        } else if str_eq(s, "debug") {
            LevelFilter::Debug
        } else if str_eq(s, "info") {
            LevelFilter::Info
        } else if str_eq(s, "warn") {
            LevelFilter::Warn
        } else if str_eq(s, "error") {
            LevelFilter::Error
        } else if str_eq(s, "off") {
            LevelFilter::Off
        } else {
            LevelFilter::Info
        }
    }

    /// The filter named by `word`, compared after Unicode lower-casing.
    pub fn from_word(word: &str) -> (r: LevelFilter)
        ensures
            r == filter_from_word(unicode_lowercase(word@)),
            all_ascii(word@) ==> r == filter_from_word(ascii_lowercase(word@)),
    {
        let lower = to_lowercase(word);
        LevelFilter::from_lowercase_word(lower.as_str())
    }

    /// The level filter for a process whose `LOG_LEVEL` and `RUST_LOG`
    /// settings are given (`None` where unset): the first that is set,
    /// else `info`, read by `from_word`.
    pub fn from_settings(log_level: Option<&str>, rust_log: Option<&str>) -> (r: LevelFilter)
        ensures
            r == filter_from_word(unicode_lowercase(chosen_level_setting(
                match log_level { Some(v) => Some(v@), None => None },
                match rust_log { Some(v) => Some(v@), None => None },
            ))),
            ({
                let chosen = chosen_level_setting(
                    match log_level { Some(v) => Some(v@), None => None },
                    match rust_log { Some(v) => Some(v@), None => None },
                );
                all_ascii(chosen) ==> r == filter_from_word(ascii_lowercase(chosen))
            }),
    {
        let default = owned("info");
        let chosen: &str = match log_level {
            Some(v) => v,
            None => match rust_log {
                Some(v) => v,
                None => default.as_str(),
            },
        };
        LevelFilter::from_word(chosen)
    }
}

} // verus!
