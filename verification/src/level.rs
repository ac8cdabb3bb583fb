//! Log level and log format names, read without regard to ASCII case.
use vstd::prelude::*;

use crate::text::concat3;

verus! {

#[derive(Clone, Copy, Debug, PartialEq, Eq, Structural)]
pub enum LogLevel {
    Trace,
    Debug,
    Info,
    Warn,
    Error,
}

#[derive(Clone, Copy, Debug, PartialEq, Eq, Structural)]
pub enum LogFormat {
    Text,
    Json,
}

/// The code of `c` with ASCII upper-case letters taken to lower case.
pub open spec fn folded(c: char) -> u32 {
    if 'A' <= c && c <= 'Z' {
        (c as u32 + 32) as u32
    } else {
        c as u32
    }
}

/// `s` and `word` are equal when ASCII case is ignored.
pub open spec fn same_ignoring_case(s: Seq<char>, word: Seq<char>) -> bool {
    &&& s.len() == word.len()
    &&& forall|i: int| 0 <= i < s.len() ==> #[trigger] folded(s[i]) == folded(word[i])
}

/// Whether `s` and `word` are equal when ASCII case is ignored.
pub fn eq_ignore_case(s: &str, word: &str) -> (same: bool)
    ensures
        same == same_ignoring_case(s@, word@),
{
    let n = s.unicode_len();
    if n != word.unicode_len() {
        return false;
    }
    let mut i: usize = 0;
    while i < n
        invariant
            n == s@.len(),
            n == word@.len(),
            i <= n,
            forall|j: int| 0 <= j < i ==> #[trigger] folded(s@[j]) == folded(word@[j]),
        decreases n - i,
    {
        let a = s.get_char(i);
        let b = word.get_char(i);
        let fa: u32 = if 'A' <= a && a <= 'Z' { a as u32 + 32 } else { a as u32 };
        let fb: u32 = if 'A' <= b && b <= 'Z' { b as u32 + 32 } else { b as u32 };
        if fa != fb {
            assert(folded(s@[i as int]) != folded(word@[i as int]));
            return false;
        }
        i = i + 1;
    }
    true
}

impl LogLevel {
    /// The level's name in lower case.
    pub open spec fn name(self) -> Seq<char> {
        match self {
            LogLevel::Trace => "trace"@,
            LogLevel::Debug => "debug"@,
            LogLevel::Info => "info"@,
            LogLevel::Warn => "warn"@,
            LogLevel::Error => "error"@,
        }
    }

    /// The level's name in lower case.
    pub fn as_str(&self) -> (s: &'static str)
        ensures
            s@ == self.name(),
    {
        match self {
            LogLevel::Trace => "trace",
            LogLevel::Debug => "debug",
            LogLevel::Info => "info",
            LogLevel::Warn => "warn",
            LogLevel::Error => "error",
        }
    }
}

impl LogFormat {
    /// The format's name in lower case.
    pub open spec fn name(self) -> Seq<char> {
        match self {
            LogFormat::Text => "text"@,
            LogFormat::Json => "json"@,
        }
    }

    /// The format's name in lower case.
    pub fn as_str(&self) -> (s: &'static str)
        ensures
            s@ == self.name(),
    {
        match self {
            LogFormat::Text => "text",
            LogFormat::Json => "json",
        }
    }
}

/// The level that `s` names, ignoring ASCII case.
pub open spec fn level_named(s: Seq<char>) -> Option<LogLevel> {
    if same_ignoring_case(s, "trace"@) {
        Some(LogLevel::Trace)
    } else if same_ignoring_case(s, "debug"@) {
        Some(LogLevel::Debug)
    } else if same_ignoring_case(s, "info"@) {
        Some(LogLevel::Info)
    } else if same_ignoring_case(s, "warn"@) {
        Some(LogLevel::Warn)
    } else if same_ignoring_case(s, "error"@) {
        Some(LogLevel::Error)
    } else {
        None
    }
}

/// The format that `s` names, ignoring ASCII case.
pub open spec fn format_named(s: Seq<char>) -> Option<LogFormat> {
    if same_ignoring_case(s, "text"@) {
        Some(LogFormat::Text)
    } else if same_ignoring_case(s, "json"@) {
        Some(LogFormat::Json)
    } else {
        None
    }
}

/// The complaint about a text that names no log level.
pub open spec fn bad_level_message(s: Seq<char>) -> Seq<char> {
    "invalid log level '"@ + s + "' (expected trace, debug, info, warn or error)"@
}

/// The complaint about a text that names no log format.
pub open spec fn bad_format_message(s: Seq<char>) -> Seq<char> {
    "invalid log format '"@ + s + "' (expected text or json)"@
}

/// Reads a log level name; a text that names none is refused with a
/// message that quotes it.
pub fn parse_log_level(s: &str) -> (r: Result<LogLevel, String>)
    ensures
        level_named(s@) matches Some(l) ==> r == Ok::<LogLevel, String>(l),
        level_named(s@) is None ==> (r matches Err(m) && m@ == bad_level_message(s@)),
{
    if eq_ignore_case(s, "trace") {
        Ok(LogLevel::Trace)
    } else if eq_ignore_case(s, "debug") {
        Ok(LogLevel::Debug)
    } else if eq_ignore_case(s, "info") {
        Ok(LogLevel::Info)
    } else if eq_ignore_case(s, "warn") {
        Ok(LogLevel::Warn)
    } else if eq_ignore_case(s, "error") {
        Ok(LogLevel::Error)
    } else {
        Err(concat3("invalid log level '", s, "' (expected trace, debug, info, warn or error)"))
    }
}

/// Reads a log format name; a text that names none is refused with a
/// message that quotes it.
pub fn parse_log_format(s: &str) -> (r: Result<LogFormat, String>)
    ensures
        format_named(s@) matches Some(f) ==> r == Ok::<LogFormat, String>(f),
        format_named(s@) is None ==> (r matches Err(m) && m@ == bad_format_message(s@)),
{
    if eq_ignore_case(s, "text") {
        Ok(LogFormat::Text)
    } else if eq_ignore_case(s, "json") {
        Ok(LogFormat::Json)
    } else {
        Err(concat3("invalid log format '", s, "' (expected text or json)"))
    }
}

/// `s` and `t` are the same letters where ASCII upper and lower case are
/// taken as equal.
pub open spec fn ascii_case_variants(s: Seq<char>, t: Seq<char>) -> bool {
    &&& s.len() == t.len()
    &&& forall|i: int|
        0 <= i < s.len() ==> #[trigger] s[i] == t[i] || ('A' <= s[i] && s[i] <= 'Z' && t[i] as u32
            == s[i] as u32 + 32) || ('A' <= t[i] && t[i] <= 'Z' && s[i] as u32 == t[i] as u32 + 32)
}

proof fn lemma_variants_fold_alike(s: Seq<char>, t: Seq<char>)
    requires
        ascii_case_variants(s, t),
    ensures
        forall|i: int| 0 <= i < s.len() ==> #[trigger] folded(s[i]) == folded(t[i]),
{
    assert forall|i: int| 0 <= i < s.len() implies #[trigger] folded(s[i]) == folded(t[i]) by {
        assert(s[i] == t[i] || ('A' <= s[i] && s[i] <= 'Z' && t[i] as u32 == s[i] as u32 + 32) || (
        'A' <= t[i] && t[i] <= 'Z' && s[i] as u32 == t[i] as u32 + 32));
    }
}

proof fn lemma_match_transfers(s: Seq<char>, t: Seq<char>, w: Seq<char>)
    requires
        s.len() == t.len(),
        forall|i: int| 0 <= i < s.len() ==> #[trigger] folded(s[i]) == folded(t[i]),
    ensures
        same_ignoring_case(s, w) == same_ignoring_case(t, w),
{
    if same_ignoring_case(s, w) {
        assert forall|i: int| 0 <= i < t.len() implies #[trigger] folded(t[i]) == folded(w[i]) by {
            assert(folded(s[i]) == folded(w[i]));
        }
    }
    if same_ignoring_case(t, w) {
        assert forall|i: int| 0 <= i < s.len() implies #[trigger] folded(s[i]) == folded(w[i]) by {
            assert(folded(t[i]) == folded(w[i]));
        }
    }
}

/// Changing the ASCII case of letters never changes which level a text
/// names.
pub proof fn lemma_level_ignores_case(s: Seq<char>, t: Seq<char>)
    requires
        ascii_case_variants(s, t),
    ensures
        level_named(s) == level_named(t),
{
    lemma_variants_fold_alike(s, t);
    lemma_match_transfers(s, t, "trace"@);
    lemma_match_transfers(s, t, "debug"@);
    lemma_match_transfers(s, t, "info"@);
    lemma_match_transfers(s, t, "warn"@);
    lemma_match_transfers(s, t, "error"@);
}

/// Changing the ASCII case of letters never changes which format a text
/// names.
pub proof fn lemma_format_ignores_case(s: Seq<char>, t: Seq<char>)
    requires
        ascii_case_variants(s, t),
    ensures
        format_named(s) == format_named(t),
{
    lemma_variants_fold_alike(s, t);
    lemma_match_transfers(s, t, "text"@);
    lemma_match_transfers(s, t, "json"@);
}

/// Reading a level's own name gives that level back.
pub proof fn lemma_level_name_round_trip(level: LogLevel)
    ensures
        level_named(level.name()) == Some(level),
{
    reveal_strlit("trace");
    reveal_strlit("debug");
    reveal_strlit("info");
    reveal_strlit("warn");
    reveal_strlit("error");
    match level {
        LogLevel::Trace => {},
        LogLevel::Debug => {
            assert(folded("debug"@[0]) != folded("trace"@[0]));
        },
        LogLevel::Info => {},
        LogLevel::Warn => {},
        LogLevel::Error => {
            assert(folded("error"@[0]) != folded("trace"@[0]));
            assert(folded("error"@[0]) != folded("debug"@[0]));
        },
    }
}

/// Reading a format's own name gives that format back.
pub proof fn lemma_format_name_round_trip(format: LogFormat)
    ensures
        format_named(format.name()) == Some(format),
{
    reveal_strlit("text");
    reveal_strlit("json");
    match format {
        LogFormat::Text => {},
        LogFormat::Json => {
            assert(folded("json"@[0]) != folded("text"@[0]));
        },
    }
}

} // verus!
