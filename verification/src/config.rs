use vstd::prelude::*;

verus! {

/// Verbosity of a transport's log output.
#[derive(Clone, Copy, PartialEq, Eq, Structural, Debug)]
pub enum LogLevel {
    Verbose,
    Debug,
    Info,
    Warn,
    Error,
    Fatal,
    Off,
}

/// The textual name of a log level, as the DDS configuration expects it.
pub open spec fn log_level_name(level: LogLevel) -> Seq<char> {
    match level {
        LogLevel::Verbose => "verbose"@,
        LogLevel::Debug => "debug"@,
        LogLevel::Info => "info"@,
        LogLevel::Warn => "warn"@,
        LogLevel::Error => "error"@,
        LogLevel::Fatal => "fatal"@,
        LogLevel::Off => "off"@,
    }
}

impl Default for LogLevel {
    fn default() -> (r: Self)
        ensures
            r == LogLevel::Info,
    {
        LogLevel::Info
    }
}

impl LogLevel {
    pub fn as_str(&self) -> (s: &'static str)
        ensures
            s@ == log_level_name(*self),
    {
        match self {
            LogLevel::Verbose => "verbose",
            LogLevel::Debug => "debug",
            LogLevel::Info => "info",
            LogLevel::Warn => "warn",
            LogLevel::Error => "error",
            LogLevel::Fatal => "fatal",
            LogLevel::Off => "off",
        }
    }
}

/// Distinct log levels have distinct names, so a name read back from a
/// configuration identifies the level.
pub proof fn lemma_log_level_names_distinct(a: LogLevel, b: LogLevel)
    requires
        log_level_name(a) == log_level_name(b),
    ensures
        a == b,
{
    reveal_strlit("verbose");
    reveal_strlit("debug");
    reveal_strlit("info");
    reveal_strlit("warn");
    reveal_strlit("error");
    reveal_strlit("fatal");
    reveal_strlit("off");
    let na = log_level_name(a);
    let nb = log_level_name(b);
    assert(na.len() == nb.len());
    assert(na[0] == nb[0]);
    match a {
        LogLevel::Verbose => { assert(na[0] == 'v'); },
        LogLevel::Debug => { assert(na[0] == 'd'); },
        LogLevel::Info => { assert(na[0] == 'i'); },
        LogLevel::Warn => { assert(na[0] == 'w'); },
        LogLevel::Error => { assert(na[0] == 'e'); },
        LogLevel::Fatal => { assert(na[0] == 'f'); },
        LogLevel::Off => { assert(na[0] == 'o'); },
    }
    match b {
        LogLevel::Verbose => { assert(nb[0] == 'v'); },
        LogLevel::Debug => { assert(nb[0] == 'd'); },
        LogLevel::Info => { assert(nb[0] == 'i'); },
        LogLevel::Warn => { assert(nb[0] == 'w'); },
        LogLevel::Error => { assert(nb[0] == 'e'); },
        LogLevel::Fatal => { assert(nb[0] == 'f'); },
        LogLevel::Off => { assert(nb[0] == 'o'); },
    }
}

} // verus!
