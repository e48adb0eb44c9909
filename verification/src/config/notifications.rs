//! The notification manager and its toasts.

use crate::pattern::RegexCfg;
use vstd::prelude::*;

verus! {

/// Screen corner the toasts appear in.
#[derive(Clone, Copy, Debug, PartialEq, Eq, Structural)]
pub enum ToastPosition {
    TopLeft,
    TopRight,
    BottomLeft,
    BottomRight,
}

impl Default for ToastPosition {
    fn default() -> (p: Self)
        ensures
            p == ToastPosition::TopRight,
    {
        ToastPosition::TopRight
    }
}

/// The notification module's settings.
#[derive(Clone, Debug)]
pub struct NotificationsModuleConfig {
    /// Time format of the timestamps.
    pub format: String,
    pub show_timestamps: bool,
    pub show_bodies: bool,
    pub grouped: bool,
    pub toast: bool,
    pub toast_position: ToastPosition,
    /// Milliseconds a toast stays up.
    pub toast_timeout: u64,
    pub toast_limit: usize,
    pub toast_max_height: u32,
    /// Notifications whose application matches one of these are dropped.
    pub blocklist: Vec<RegexCfg>,
}

impl Default for NotificationsModuleConfig {
    fn default() -> (c: Self)
        ensures
            c.format@ == "%H:%M"@,
            c.show_timestamps,
            c.show_bodies,
            !c.grouped,
            c.toast,
            c.toast_position == ToastPosition::TopRight,
            c.toast_timeout == 5000,
            c.toast_limit == 5,
            c.toast_max_height == 150,
            c.blocklist@.len() == 0,
    {
        NotificationsModuleConfig {
            format: String::from_str("%H:%M"),
            show_timestamps: true,
            show_bodies: true,
            grouped: false,
            toast: true,
            toast_position: ToastPosition::TopRight,
            toast_timeout: 5000,
            toast_limit: 5,
            toast_max_height: 150,
            blocklist: Vec::new(),
        }
    }
}

} // verus!
