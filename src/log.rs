//! Output verbosity levels.

use vstd::prelude::*;
use vstd::string::*;
use crate::text::str_eq;

verus! {

/// The text that `{:?}` prints for a string: quoted, with escapes.
pub uninterp spec fn debug_of(s: Seq<char>) -> Seq<char>;

/// Relies on `<str as Debug>::fmt`: the quoted, escaped form of the text,
/// which depends on the text alone.
#[verifier::external_body]
fn debug_quoted(s: &str) -> (r: String)
    ensures
        r@ == debug_of(s@),
{
    format!("{:?}", s)
}

/// How much the program prints, from nothing to everything.
#[derive(Debug, PartialEq, Eq, Structural, Clone, Copy)]
pub enum LogLevel {
    Quiet,
    Error,
    Info,
}

/// Position of a level, from quietest.
pub open spec fn rank(l: LogLevel) -> int {
    match l {
        LogLevel::Quiet => 0,
        LogLevel::Error => 1,
        LogLevel::Info => 2,
    }
}

impl Default for LogLevel {
    fn default() -> (r: LogLevel)
        ensures
            r == LogLevel::Info,
    {
        LogLevel::Info
    }
}

impl LogLevel {
    /// Whether a message of `level` is printed under this setting.
    pub fn is_writable(&self, level: &Self) -> (r: bool)
        ensures
            r == (rank(*self) >= rank(*level)),
    {
        let a: u8 = match self {
            LogLevel::Quiet => 0,
            LogLevel::Error => 1,
            LogLevel::Info => 2,
        };
        let b: u8 = match level {
            LogLevel::Quiet => 0,
            LogLevel::Error => 1,
            LogLevel::Info => 2,
        };
        a >= b
    }

    /// The level's name.
    pub fn as_str(&self) -> (r: &'static str)
        ensures
            *self == LogLevel::Quiet ==> r@ == "quiet"@,
            *self == LogLevel::Info ==> r@ == "info"@,
            *self == LogLevel::Error ==> r@ == "error"@,
    {
        match self {
            LogLevel::Quiet => "quiet",
            LogLevel::Info => "info",
            LogLevel::Error => "error",
        }
    }

    /// Reads a level name; `all` is another name for `info`.
    pub fn from_str(s: &str) -> (r: Result<LogLevel, String>)
        ensures
            s@ == "quiet"@ ==> r == Ok::<LogLevel, String>(LogLevel::Quiet),
            (s@ == "info"@ || s@ == "all"@) ==> r == Ok::<LogLevel, String>(LogLevel::Info),
            s@ == "error"@ ==> r == Ok::<LogLevel, String>(LogLevel::Error),
            !(s@ == "quiet"@ || s@ == "info"@ || s@ == "all"@ || s@ == "error"@) ==> (r matches Err(
                m,
            ) && m@ == "I don't know the log level of "@ + debug_of(s@)),
    {
        proof {
            reveal_strlit("quiet");
            reveal_strlit("info");
            reveal_strlit("all");
            reveal_strlit("error");
            assert("quiet"@.len() != "info"@.len());
            assert("quiet"@.len() != "all"@.len());
            assert("quiet"@[0] != "error"@[0]);
            assert("error"@.len() != "info"@.len());
            assert("error"@.len() != "all"@.len());
        }
        if str_eq(s, "quiet") {
            Ok(LogLevel::Quiet)
        } else if str_eq(s, "info") || str_eq(s, "all") {
            Ok(LogLevel::Info)
        } else if str_eq(s, "error") {
            Ok(LogLevel::Error)
        } else {
            let mut m = String::from_str("I don't know the log level of ");
            let quoted = debug_quoted(s);
            m.append(quoted.as_str());
            Err(m)
        }
    }
}

} // verus!
