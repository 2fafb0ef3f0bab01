use vstd::prelude::*;
use vstd::string::*;

use crate::text::chars_equal;

verus! {

/// The verbosity of the logging backend, as named on the command line, in the
/// environment and in the configuration file.
#[derive(Clone, Copy, Debug, PartialEq, Eq, Structural)]
pub enum LogLevel {
    Trace,
    Debug,
    Info,
    Warn,
    Error,
}

/// The name under which a level is written.
pub open spec fn level_name(level: LogLevel) -> Seq<char> {
    match level {
        LogLevel::Trace => "trace"@,
        LogLevel::Debug => "debug"@,
        LogLevel::Info => "info"@,
        LogLevel::Warn => "warn"@,
        LogLevel::Error => "error"@,
    }
}

/// The crates whose log output the level governs, in the order their
/// directives are added to the filter.
pub open spec fn logged_crates() -> Seq<Seq<char>> {
    seq!["gravity"@, "orbitus"@, "double_star"@, "nebulon"@]
}

/// The filter directive that sets `level` for `krate`.
pub open spec fn directive(krate: Seq<char>, level: LogLevel) -> Seq<char> {
    krate + "="@ + level_name(level)
}

impl LogLevel {
    /// The level written as `name`, if any.
    pub fn from_name(name: &str) -> (r: Option<LogLevel>)
        ensures
            r matches Some(level) ==> level_name(level) == name@,
            r is None ==> forall|level: LogLevel| level_name(level) != name@,
    {
        if chars_equal(name, "trace") {
            Some(LogLevel::Trace)
        } else if chars_equal(name, "debug") {
            Some(LogLevel::Debug)
        } else if chars_equal(name, "info") {
            Some(LogLevel::Info)
        } else if chars_equal(name, "warn") {
            Some(LogLevel::Warn)
        } else if chars_equal(name, "error") {
            Some(LogLevel::Error)
        } else {
            None
        }
    }

    /// The name under which this level is written.
    pub fn name(&self) -> (r: &'static str)
        ensures
            r@ == level_name(*self),
    {
        match self {
            LogLevel::Trace => "trace",
            LogLevel::Debug => "debug",
            LogLevel::Info => "info",
            LogLevel::Warn => "warn",
            LogLevel::Error => "error",
        }
    }
}

fn directive_for(krate: &str, level: LogLevel) -> (r: String)
    ensures
        r@ == directive(krate@, level),
{
    let mut s = String::from_str(krate);
    s.append("=");
    s.append(level.name());
    s
}

/// The filter directives that set `level` for each logged crate.
pub fn filter_directives(level: LogLevel) -> (r: Vec<String>)
    ensures
        r@.len() == logged_crates().len(),
        forall|i: int| 0 <= i < r@.len() ==> #[trigger] r@[i]@ == directive(logged_crates()[i], level),
{
    let mut r: Vec<String> = Vec::new();
    r.push(directive_for("gravity", level));
    r.push(directive_for("orbitus", level));
    r.push(directive_for("double_star", level));
    r.push(directive_for("nebulon", level));
    r
}

/// The environment variable through which the logging backend takes its own
/// filter for the process whose variables carry `prefix`.
pub fn log_env_var(prefix: &str) -> (r: String)
    ensures
        r@ == prefix@ + "_LOG"@,
{
    let mut s = String::from_str(prefix);
    s.append("_LOG");
    s
}

} // verus!
