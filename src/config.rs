//! The manager's settings that activation reads.
use crate::text::{join, join_path};
use vstd::prelude::*;

verus! {

/// How much the manager reports while it works.
#[derive(Clone, Copy, Debug, PartialEq, Eq, Structural)]
pub enum LogLevel {
    Quiet,
    Error,
    Info,
}

impl LogLevel {
    pub open spec fn name_spec(self) -> Seq<char> {
        match self {
            LogLevel::Quiet => "quiet"@,
            LogLevel::Error => "error"@,
            LogLevel::Info => "info"@,
        }
    }

    /// The level as it is written in settings and in the environment.
    pub fn as_str(&self) -> (r: &'static str)
        ensures
            r@ == self.name_spec(),
    {
        match self {
            LogLevel::Quiet => "quiet",
            LogLevel::Error => "error",
            LogLevel::Info => "info",
        }
    }
}

/// Settings, read only: where versions live, which one is the default, where
/// Node distributions are downloaded from, and how much to report.
#[derive(Debug)]
pub struct FnmConfig {
    pub base_dir: String,
    pub default_version_dir: String,
    pub node_dist_mirror: String,
    pub log_level: LogLevel,
}

/// The mirror used when none is configured.
pub open spec fn default_mirror() -> Seq<char> {
    "https://nodejs.org/dist"@
}

/// The default-version directory under a base directory.
pub open spec fn default_version_dir_of(base_dir: Seq<char>) -> Seq<char> {
    join_path(join_path(base_dir, "aliases"@), "default"@)
}

impl FnmConfig {
    /// Settings rooted at `base_dir`, with the default mirror and log level.
    pub fn with_base_dir(base_dir: &str) -> (r: FnmConfig)
        ensures
            r.base_dir@ == base_dir@,
            r.default_version_dir@ == default_version_dir_of(base_dir@),
            r.node_dist_mirror@ == default_mirror(),
            r.log_level == LogLevel::Info,
    {
        let aliases = join(base_dir, "aliases");
        let default_version_dir = join(aliases.as_str(), "default");
        FnmConfig {
            base_dir: String::from_str(base_dir),
            default_version_dir,
            node_dist_mirror: String::from_str("https://nodejs.org/dist"),
            log_level: LogLevel::Info,
        }
    }
}

impl Default for FnmConfig {
    /// Settings rooted at `.fnm`, relative to the user's home directory.
    fn default() -> (r: FnmConfig)
        ensures
            r.base_dir@ == ".fnm"@,
            r.default_version_dir@ == default_version_dir_of(".fnm"@),
            r.node_dist_mirror@ == default_mirror(),
            r.log_level == LogLevel::Info,
    {
        FnmConfig::with_base_dir(".fnm")
    }
}

} // verus!
