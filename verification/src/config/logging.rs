//! Where and how much the bar logs.

use crate::paths::{
    ends_with, expand_path, is_literal_path, mentions_variable, names_home, ExpandError,
};
use crate::text::opt_view;
use vstd::prelude::*;

verus! {

/// Where log records go.
#[derive(Clone, Copy, Debug, PartialEq, Eq, Structural)]
pub enum LogTarget {
    File,
    Stdout,
    Stderr,
}

impl Default for LogTarget {
    fn default() -> (t: Self)
        ensures
            t == LogTarget::File,
    {
        LogTarget::File
    }
}

/// The `[logging]` section.
#[derive(Clone, Debug)]
pub struct LoggingConfig {
    pub level: String,
    pub target: LogTarget,
    /// Directory for log files; `~` and variables are expanded.
    pub directory: Option<String>,
}

impl Default for LoggingConfig {
    fn default() -> (c: Self)
        ensures
            c.level@ == "warn"@,
            c.target == LogTarget::File,
            c.directory is None,
    {
        LoggingConfig {
            level: String::from_str("warn"),
            target: LogTarget::File,
            directory: None,
        }
    }
}

impl LoggingConfig {
    /// The directory log files go to: the configured one, expanded, or
    /// `default_directory` when none is configured or it cannot be
    /// expanded. A configured `~/...` without variables always expands, to
    /// the home directory followed by the rest of it.
    pub fn log_directory(&self, default_directory: String) -> (dir: String)
        ensures
            self.directory is None ==> dir@ == default_directory@,
            match opt_view(self.directory) {
                Some(d) => is_literal_path(d) ==> dir@ == d,
                None => true,
            },
            match opt_view(self.directory) {
                Some(d) => !mentions_variable(d) && names_home(d) ==> ends_with(dir@, d.drop_first()),
                None => true,
            },
    {
        match &self.directory {
            Some(directory) => directory_or_default(expand_path(directory.as_str()), default_directory),
            None => default_directory,
        }
    }
}

/// What the log directory is once the configured one has been expanded: the
/// expansion when it succeeded, `default_directory` when it failed.
pub fn directory_or_default(expansion: Result<String, ExpandError>, default_directory: String) -> (dir:
    String)
    ensures
        dir@ == (match expansion {
            Ok(e) => e@,
            Err(_) => default_directory@,
        }),
{
    match expansion {
        Ok(expanded) => expanded,
        Err(_) => default_directory,
    }
}

} // verus!
