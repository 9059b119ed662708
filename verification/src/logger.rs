use vstd::prelude::*;
use vstd::string::StringExecFns;

verus! {

/// The logging configuration.
#[derive(Debug, Clone, Copy)]
pub struct LogConfig {
    /// The log level.
    pub log_level: LogLevel,
    /// The log format.
    pub log_format: LogFormat,
}

/// The log level.
#[derive(Debug, Clone, Copy, PartialEq, Eq, Structural)]
pub enum LogLevel {
    /// Debug log level.
    Debug,
    /// Info log level.
    Info,
    /// Warn log level.
    Warn,
    /// Error log level.
    Error,
    /// Off log level.
    Off,
}

/// The log format.
#[derive(Debug, Clone, Copy, PartialEq, Eq, Structural)]
pub enum LogFormat {
    /// Console log format.
    Console,
    /// JSON log format.
    Json,
}

impl LogLevel {
    /// The name of the level in a filter directive.
    pub open spec fn name_spec(self) -> Seq<char> {
        match self {
            LogLevel::Debug => "debug"@,
            LogLevel::Info => "info"@,
            LogLevel::Warn => "warn"@,
            LogLevel::Error => "error"@,
            LogLevel::Off => "off"@,
        }
    }

    /// The name of the level in a filter directive.
    pub fn name(&self) -> (name: &'static str)
        ensures
            name@ == self.name_spec(),
    {
        match self {
            LogLevel::Debug => "debug",
            LogLevel::Info => "info",
            LogLevel::Warn => "warn",
            LogLevel::Error => "error",
            LogLevel::Off => "off",
        }
    }
}

/// The directives of the log filter: the default level for everything, then
/// for each of the given targets the target, `=` and the level it is logged
/// at.
pub fn filter_directives(
    default_log_level: LogLevel,
    filter_log_level: LogLevel,
    targets: &Vec<String>,
) -> (directives: Vec<String>)
    ensures
        directives@.len() == targets@.len() + 1,
        directives@[0]@ == default_log_level.name_spec(),
        forall|i: int|
            0 <= i < targets@.len() ==> (#[trigger] directives@[i + 1])@ == targets@[i]@ + "="@
                + filter_log_level.name_spec(),
{
    let mut directives: Vec<String> = Vec::new();
    directives.push(String::from_str(default_log_level.name()));
    let mut i: usize = 0;
    while i < targets.len()
        invariant
            i <= targets.len(),
            directives@.len() == i + 1,
            directives@[0]@ == default_log_level.name_spec(),
            forall|k: int|
                0 <= k < i ==> (#[trigger] directives@[k + 1])@ == targets@[k]@ + "="@
                    + filter_log_level.name_spec(),
        decreases targets.len() - i,
    {
        let directive = targets[i].clone().concat("=").concat(filter_log_level.name());
        directives.push(directive);
        i = i + 1;
    }
    directives
}

} // verus!
