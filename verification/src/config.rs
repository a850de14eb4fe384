//! Value objects describing the desired log destinations, rotation policy,
//! severity threshold, and the optional remote exporter endpoint.

use vstd::prelude::*;

use crate::digits::dec_digits;
use crate::digits::u16_to_dec;

verus! {

/// How often the primary log file is rotated.
#[derive(Copy, Clone, Debug, Hash, PartialEq, Eq, Structural)]
pub enum RotationKind {
    /// Never rotate: one file for the life of the process.
    Never,
    /// Rotate every minute.
    Minutely,
    /// Rotate every hour.
    Hourly,
    /// Rotate every day.
    Daily,
}

impl Default for RotationKind {
    /// The default rotation is `Never`.
    fn default() -> (r: Self)
        ensures
            r == RotationKind::Never,
    {
        RotationKind::Never
    }
}

/// Severity of a log event, ordered by increasing importance:
/// `Trace` is the most verbose, `Error` the most important.
#[derive(Copy, Clone, Debug, Hash, PartialEq, Eq, Structural)]
pub enum LevelInner {
    /// Very low priority, often extremely verbose, information.
    Trace,
    /// Lower priority information.
    Debug,
    /// Useful information.
    Info,
    /// Hazardous situations.
    Warn,
    /// Very serious errors.
    Error,
}

impl LevelInner {
    /// Importance rank: the total order on severities.
    pub open spec fn rank(self) -> nat {
        match self {
            LevelInner::Trace => 0,
            LevelInner::Debug => 1,
            LevelInner::Info => 2,
            LevelInner::Warn => 3,
            LevelInner::Error => 4,
        }
    }

    /// Executable importance rank.
    pub fn rank_exec(self) -> (r: u8)
        ensures
            r as nat == self.rank(),
    {
        match self {
            LevelInner::Trace => 0,
            LevelInner::Debug => 1,
            LevelInner::Info => 2,
            LevelInner::Warn => 3,
            LevelInner::Error => 4,
        }
    }

    /// The more verbose (less important) of two severities.
    pub open spec fn spec_min_importance(self, other: LevelInner) -> LevelInner {
        if self.rank() <= other.rank() {
            self
        } else {
            other
        }
    }

    /// The more verbose (less important) of two severities.
    pub fn min_importance(self, other: LevelInner) -> (r: LevelInner)
        ensures
            r == self.spec_min_importance(other),
    {
        if self.rank_exec() <= other.rank_exec() {
            self
        } else {
            other
        }
    }

    /// The global severity filter built from `self` admits exactly the
    /// events at least as important as `self`.
    pub fn admits(self, sev: LevelInner) -> (r: bool)
        ensures
            r == (sev.rank() >= self.rank()),
    {
        sev.at_least(self)
    }

    /// `self` is at least as important as `other`.
    pub fn at_least(self, other: LevelInner) -> (r: bool)
        ensures
            r == (self.rank() >= other.rank()),
    {
        self.rank_exec() >= other.rank_exec()
    }

    /// The lower-case name of the severity.
    pub open spec fn spec_name(self) -> Seq<char> {
        match self {
            LevelInner::Trace => "trace"@,
            LevelInner::Debug => "debug"@,
            LevelInner::Info => "info"@,
            LevelInner::Warn => "warn"@,
            LevelInner::Error => "error"@,
        }
    }

    /// The lower-case name of the severity.
    pub fn name(&self) -> (r: &'static str)
        ensures
            r@ == self.spec_name(),
    {
        match self {
            LevelInner::Trace => "trace",
            LevelInner::Debug => "debug",
            LevelInner::Info => "info",
            LevelInner::Warn => "warn",
            LevelInner::Error => "error",
        }
    }
}

impl Default for LevelInner {
    /// The default severity is `Info`.
    fn default() -> (r: Self)
        ensures
            r == LevelInner::Info,
    {
        LevelInner::Info
    }
}

/// Desired log destinations, rotation policy and severity threshold.
///
/// Immutable once constructed; everything the planner derives from it is a
/// pure function of these fields.
#[derive(Clone, Debug)]
pub struct Config {
    /// Path of the primary log file; the console is used when absent.
    pub log_path: Option<String>,
    /// Path of the error log file; derived from `log_path` when absent.
    pub log_error_path: Option<String>,
    /// Rotation policy for the primary log file.
    pub rotation: RotationKind,
    /// Severity threshold; treated as `Info` when absent.
    pub level: Option<LevelInner>,
}

impl Default for Config {
    /// No file paths, never rotate, no explicit severity threshold.
    fn default() -> (r: Self)
        ensures
            r.log_path is None,
            r.log_error_path is None,
            r.rotation == RotationKind::Never,
            r.level is None,
    {
        Config {
            log_path: None,
            log_error_path: None,
            rotation: RotationKind::Never,
            level: None,
        }
    }
}

/// A log file path split into its directory and file name.
#[derive(Clone, Debug, PartialEq, Eq)]
pub struct LogPath {
    /// The directory part; empty when the path has no parent directory.
    pub directory: String,
    /// The file name part; the whole path when it has no file name component.
    pub filename: String,
}

/// Host and port of a remote trace collector.
#[derive(Clone, Debug, PartialEq, Eq)]
pub struct ExporterEndpoint {
    /// TCP port of the collector.
    pub port: u16,
    /// Host name or address of the collector.
    pub host: String,
}

impl ExporterEndpoint {
    /// The connection string of the endpoint: the host, a colon, and the
    /// port in decimal.
    pub open spec fn spec_host_string(self) -> Seq<char> {
        self.host@ + seq![':'] + dec_digits(self.port as nat)
    }

    /// Renders the endpoint as `"host:port"`.
    pub fn get_host(&self) -> (r: String)
        ensures
            r@ == self.spec_host_string(),
    {
        let mut r = self.host.clone();
        r.append(":");
        r.append(u16_to_dec(self.port).as_str());
        proof {
            reveal_strlit(":");
            assert(":"@ =~= seq![':']);
            assert(r@ =~= self.spec_host_string());
        }
        r
    }
}

} // verus!
