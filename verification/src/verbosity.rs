//! Logging verbosity levels and the permissive parser for their names.

use vstd::prelude::*;
use vstd::string::StrSliceExecFns;

verus! {

/// The minimal level of messages the application will emit.
#[derive(Clone, Copy, PartialEq, Eq, Structural, Debug)]
pub enum Verbosity {
    Debug,
    Info,
    Warn,
    Error,
}

/// `s` spells the keyword whose lowercase form is `lower` and whose uppercase
/// form is `upper`, choosing either casing independently at every position.
/// For a keyword made of ASCII letters this is exactly case-insensitive
/// equality with that keyword.
pub open spec fn matches_keyword_ci(s: Seq<char>, lower: Seq<char>, upper: Seq<char>) -> bool {
    &&& s.len() == lower.len()
    &&& forall|i: int| 0 <= i < s.len() ==> s[i] == lower[i] || s[i] == upper[i]
}

/// The verbosity a name denotes. The four recognized names are matched
/// case-insensitively; every other string permissively maps to `Info`
/// (which also covers the name "info" itself).
pub open spec fn verbosity_of(s: Seq<char>) -> Verbosity {
    if matches_keyword_ci(s, "debug"@, "DEBUG"@) {
        Verbosity::Debug
    } else if matches_keyword_ci(s, "warning"@, "WARNING"@) {
        Verbosity::Warn
    } else if matches_keyword_ci(s, "error"@, "ERROR"@) {
        Verbosity::Error
    } else {
        Verbosity::Info
    }
}

/// The name under which a level appears in log output.
pub open spec fn verbosity_label(v: Verbosity) -> Seq<char> {
    match v {
        Verbosity::Debug => "DEBUG"@,
        Verbosity::Info => "INFO"@,
        Verbosity::Warn => "WARN"@,
        Verbosity::Error => "ERROR"@,
    }
}

fn matches_keyword(s: &str, lower: &str, upper: &str) -> (r: bool)
    requires
        lower@.len() == upper@.len(),
    ensures
        r == matches_keyword_ci(s@, lower@, upper@),
{
    let n = s.unicode_len();
    if n != lower.unicode_len() {
        return false;
    }
    for i in 0..n
        invariant
            n as nat == s@.len(),
            n as nat == lower@.len(),
            lower@.len() == upper@.len(),
            forall|j: int| 0 <= j < i ==> s@[j] == lower@[j] || s@[j] == upper@[j],
    {
        let c = s.get_char(i);
        if c != lower.get_char(i) && c != upper.get_char(i) {
            return false;
        }
    }
    true
}

/// Turns a verbosity name from the command line into a level, accepting the
/// four recognized names in any casing and mapping every other string to
/// `Info`.
pub fn parse_verbosity(s: &str) -> (v: Verbosity)
    ensures
        v == verbosity_of(s@),
{
    proof {
        reveal_strlit("debug");
        reveal_strlit("DEBUG");
        reveal_strlit("warning");
        reveal_strlit("WARNING");
        reveal_strlit("error");
        reveal_strlit("ERROR");
    }
    if matches_keyword(s, "debug", "DEBUG") {
        Verbosity::Debug
    } else if matches_keyword(s, "warning", "WARNING") {
        Verbosity::Warn
    } else if matches_keyword(s, "error", "ERROR") {
        Verbosity::Error
    } else {
        Verbosity::Info
    }
}

impl Verbosity {
    /// The name under which this level appears in log output.
    pub fn label(&self) -> (r: &'static str)
        ensures
            r@ == verbosity_label(*self),
    {
        match self {
            Verbosity::Debug => "DEBUG",
            Verbosity::Info => "INFO",
            Verbosity::Warn => "WARN",
            Verbosity::Error => "ERROR",
        }
    }
}

} // verus!
