//! The settings panel: its commands, indicators, formats and volume limits.

use vstd::prelude::*;

verus! {

/// An indicator the settings module can show on the bar.
#[derive(Clone, Copy, Debug, PartialEq, Eq, Structural)]
pub enum SettingsIndicator {
    IdleInhibitor,
    PowerProfile,
    Audio,
    Microphone,
    Network,
    Vpn,
    Bluetooth,
    Battery,
    PeripheralBattery,
    Brightness,
}

/// How an indicator presents its value.
#[derive(Clone, Copy, Debug, PartialEq, Eq, Structural)]
pub enum SettingsFormat {
    Icon,
    Percentage,
    IconAndPercentage,
    Time,
    IconAndTime,
    Name,
    IconAndName,
}

impl Default for SettingsFormat {
    fn default() -> (f: Self)
        ensures
            f == SettingsFormat::IconAndPercentage,
    {
        SettingsFormat::IconAndPercentage
    }
}

/// A kind of battery-powered peripheral.
#[derive(Clone, Copy, Debug, PartialEq, Eq, Structural)]
pub enum PeripheralDeviceKind {
    Keyboard,
    Mouse,
    Headphones,
    Gamepad,
}

/// Which peripherals get a battery indicator.
#[derive(Clone, Debug, PartialEq, Eq)]
pub enum PeripheralIndicators {
    All,
    Specific(Vec<PeripheralDeviceKind>),
}

impl Default for PeripheralIndicators {
    fn default() -> (p: Self)
        ensures
            p is All,
    {
        PeripheralIndicators::All
    }
}

/// A user-defined button of the settings panel.
#[derive(Clone, Debug)]
pub struct SettingsCustomButton {
    pub name: String,
    pub icon: String,
    pub command: String,
    /// Command whose exit status tells whether the button shows as active.
    pub status_command: Option<String>,
    pub tooltip: Option<String>,
}

/// Highest volume accepted, in percent.
pub const MAX_MAX_VOLUME: u8 = 200;

/// Largest volume step accepted, in percent.
pub const MAX_VOLUME_STEP: u8 = 50;

/// The settings module's settings.
#[derive(Clone, Debug)]
pub struct SettingsModuleConfig {
    pub lock_cmd: Option<String>,
    pub shutdown_cmd: String,
    pub suspend_cmd: String,
    pub hibernate_cmd: Option<String>,
    pub reboot_cmd: String,
    pub logout_cmd: String,
    pub battery_format: SettingsFormat,
    pub battery_hide_when_full: bool,
    pub peripheral_indicators: PeripheralIndicators,
    pub peripheral_battery_format: SettingsFormat,
    pub peripheral_expanded_by_default: bool,
    pub volume_step: u8,
    pub max_volume: u8,
    pub audio_indicator_format: SettingsFormat,
    pub microphone_indicator_format: SettingsFormat,
    pub network_indicator_format: SettingsFormat,
    pub bluetooth_indicator_format: SettingsFormat,
    pub brightness_indicator_format: SettingsFormat,
    pub audio_sinks_more_cmd: Option<String>,
    pub audio_sources_more_cmd: Option<String>,
    pub wifi_more_cmd: Option<String>,
    pub vpn_more_cmd: Option<String>,
    pub bluetooth_more_cmd: Option<String>,
    pub remove_airplane_btn: bool,
    pub remove_idle_btn: bool,
    pub enable_tooltips: bool,
    pub indicators: Vec<SettingsIndicator>,
    pub custom_buttons: Vec<SettingsCustomButton>,
}

impl SettingsModuleConfig {
    /// The settings after validation: a maximum volume outside `1..=200`
    /// becomes 100, a volume step outside `1..=50` becomes 5.
    pub open spec fn validated(self) -> Self {
        SettingsModuleConfig {
            max_volume: if self.max_volume == 0 || self.max_volume > MAX_MAX_VOLUME {
                100
            } else {
                self.max_volume
            },
            volume_step: if self.volume_step == 0 || self.volume_step > MAX_VOLUME_STEP {
                5
            } else {
                self.volume_step
            },
            ..self
        }
    }

    /// Resets an out-of-range maximum volume or volume step to its default.
    pub fn validate(&mut self)
        ensures
            *final(self) == old(self).validated(),
    {
        if self.max_volume == 0 || self.max_volume > MAX_MAX_VOLUME {
            self.max_volume = 100;
        }
        if self.volume_step == 0 || self.volume_step > MAX_VOLUME_STEP {
            self.volume_step = 5;
        }
    }
}

impl Default for SettingsModuleConfig {
    fn default() -> (c: Self)
        ensures
            c.lock_cmd is None,
            c.shutdown_cmd@ == "shutdown now"@,
            c.suspend_cmd@ == "systemctl suspend"@,
            c.hibernate_cmd is None,
            c.reboot_cmd@ == "systemctl reboot"@,
            c.logout_cmd@ == "loginctl kill-user $(whoami)"@,
            c.battery_format == SettingsFormat::IconAndPercentage,
            !c.battery_hide_when_full,
            c.peripheral_indicators is All,
            c.peripheral_battery_format == SettingsFormat::Icon,
            !c.peripheral_expanded_by_default,
            c.volume_step == 5,
            c.max_volume == 100,
            c.audio_indicator_format == SettingsFormat::Icon,
            c.microphone_indicator_format == SettingsFormat::Icon,
            c.network_indicator_format == SettingsFormat::Icon,
            c.bluetooth_indicator_format == SettingsFormat::Icon,
            c.brightness_indicator_format == SettingsFormat::Icon,
            c.audio_sinks_more_cmd is None,
            c.audio_sources_more_cmd is None,
            c.wifi_more_cmd is None,
            c.vpn_more_cmd is None,
            c.bluetooth_more_cmd is None,
            !c.remove_airplane_btn,
            !c.remove_idle_btn,
            c.enable_tooltips,
            c.indicators@ == seq![
                SettingsIndicator::IdleInhibitor,
                SettingsIndicator::PowerProfile,
                SettingsIndicator::Audio,
                SettingsIndicator::Microphone,
                SettingsIndicator::Bluetooth,
                SettingsIndicator::Network,
                SettingsIndicator::Vpn,
                SettingsIndicator::Battery,
            ],
            c.custom_buttons@.len() == 0,
    {
        let mut indicators = Vec::new();
        indicators.push(SettingsIndicator::IdleInhibitor);
        indicators.push(SettingsIndicator::PowerProfile);
        indicators.push(SettingsIndicator::Audio);
        indicators.push(SettingsIndicator::Microphone);
        indicators.push(SettingsIndicator::Bluetooth);
        indicators.push(SettingsIndicator::Network);
        indicators.push(SettingsIndicator::Vpn);
        indicators.push(SettingsIndicator::Battery);
        SettingsModuleConfig {
            lock_cmd: None,
            shutdown_cmd: String::from_str("shutdown now"),
            suspend_cmd: String::from_str("systemctl suspend"),
            hibernate_cmd: None,
            reboot_cmd: String::from_str("systemctl reboot"),
            logout_cmd: String::from_str("loginctl kill-user $(whoami)"),
            battery_format: SettingsFormat::IconAndPercentage,
            battery_hide_when_full: false,
            peripheral_indicators: PeripheralIndicators::All,
            peripheral_battery_format: SettingsFormat::Icon,
            peripheral_expanded_by_default: false,
            volume_step: 5,
            max_volume: 100,
            audio_indicator_format: SettingsFormat::Icon,
            microphone_indicator_format: SettingsFormat::Icon,
            network_indicator_format: SettingsFormat::Icon,
            bluetooth_indicator_format: SettingsFormat::Icon,
            brightness_indicator_format: SettingsFormat::Icon,
            audio_sinks_more_cmd: None,
            audio_sources_more_cmd: None,
            wifi_more_cmd: None,
            vpn_more_cmd: None,
            bluetooth_more_cmd: None,
            remove_airplane_btn: false,
            remove_idle_btn: false,
            enable_tooltips: true,
            indicators,
            custom_buttons: Vec::new(),
        }
    }
}

/// After validation both limits are in range, values already in range are
/// kept, and validating again changes nothing.
pub proof fn law_volume_validation(c: SettingsModuleConfig)
    ensures
        1 <= c.validated().max_volume <= MAX_MAX_VOLUME,
        1 <= c.validated().volume_step <= MAX_VOLUME_STEP,
        (1 <= c.max_volume <= MAX_MAX_VOLUME && 1 <= c.volume_step <= MAX_VOLUME_STEP)
            ==> c.validated() == c,
        c.validated().validated() == c.validated(),
{
}

/// Law: a maximum volume outside `1..=200` becomes exactly 100 and a volume
/// step outside `1..=50` exactly 5; values inside those ranges are kept.
pub proof fn law_out_of_range_volume_resets_to_default(c: SettingsModuleConfig)
    ensures
        c.validated().max_volume == (if 1 <= c.max_volume <= 200 {
            c.max_volume as int
        } else {
            100
        }),
        c.validated().volume_step == (if 1 <= c.volume_step <= 50 {
            c.volume_step as int
        } else {
            5
        }),
{
}

} // verus!
