//! The updates module: how to look for and apply OS updates, and how often.

use vstd::prelude::*;

verus! {

/// The updates module's settings.
#[derive(Clone, Debug)]
pub struct UpdatesModuleConfig {
    pub check_cmd: String,
    pub update_cmd: String,
    /// Seconds between checks.
    pub interval: u64,
}

impl UpdatesModuleConfig {
    /// The check interval used when none is configured: one hour.
    pub fn default_interval() -> (i: u64)
        ensures
            i == 3600,
    {
        3600
    }

    /// The settings after validation: a zero interval becomes one second.
    pub open spec fn validated(self) -> Self {
        UpdatesModuleConfig { interval: if self.interval == 0 { 1 } else { self.interval }, ..self }
    }

    /// Clamps a zero interval to one second.
    pub fn validate(&mut self)
        ensures
            *final(self) == old(self).validated(),
    {
        if self.interval == 0 {
            self.interval = 1;
        }
    }
}

/// After validation the interval is positive, a positive interval is kept,
/// and validating again changes nothing.
pub proof fn law_interval_validation(c: UpdatesModuleConfig)
    ensures
        c.validated().interval >= 1,
        c.interval >= 1 ==> c.validated() == c,
        c.validated().validated() == c.validated(),
{
}

/// Law: validation only ever changes a zero interval, and turns it into
/// exactly one second; the commands are kept.
pub proof fn law_zero_interval_becomes_one_second(c: UpdatesModuleConfig)
    ensures
        c.validated().interval == (if c.interval == 0 {
            1
        } else {
            c.interval
        }),
        c.validated().check_cmd == c.check_cmd,
        c.validated().update_cmd == c.update_cmd,
{
}

} // verus!
