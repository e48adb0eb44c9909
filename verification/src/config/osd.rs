//! The on-screen display for volume, brightness and airplane mode.

use vstd::prelude::*;

verus! {

/// On-screen display settings.
#[derive(Clone, Copy, Debug, PartialEq, Eq, Structural)]
pub struct OsdConfig {
    pub enabled: bool,
    /// Milliseconds the display stays up.
    pub timeout: u64,
    pub show_volume_percentage: bool,
    pub show_brightness_percentage: bool,
}

impl Default for OsdConfig {
    fn default() -> (c: Self)
        ensures
            c == (OsdConfig {
                enabled: false,
                timeout: 1500,
                show_volume_percentage: false,
                show_brightness_percentage: false,
            }),
    {
        OsdConfig {
            enabled: false,
            timeout: 1500,
            show_volume_percentage: false,
            show_brightness_percentage: false,
        }
    }
}

/// Animation settings.
#[derive(Clone, Copy, Debug, PartialEq, Eq, Structural)]
pub struct AnimationsConfig {
    pub enabled: bool,
}

impl Default for AnimationsConfig {
    fn default() -> (c: Self)
        ensures
            !c.enabled,
    {
        AnimationsConfig { enabled: false }
    }
}

} // verus!
