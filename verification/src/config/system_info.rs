//! The system-information module: which indicators it shows, how often it
//! samples, and the warn/alert thresholds of each gauge.

use crate::config::units::{convert_celsius_spec, TemperatureUnit, UnitSystem};
use vstd::prelude::*;

verus! {

/// A gauge level that thresholds are compared on.
pub trait Threshold: Copy {
    /// The level as an integer.
    spec fn level(self) -> int;

    /// Whether `self` is at or above `other`.
    fn at_least(&self, other: &Self) -> (b: bool)
        ensures
            b == (self.level() >= other.level()),
    ;
}

impl Threshold for u32 {
    open spec fn level(self) -> int {
        self as int
    }

    fn at_least(&self, other: &Self) -> (b: bool) {
        *self >= *other
    }
}

impl Threshold for i32 {
    open spec fn level(self) -> int {
        self as int
    }

    fn at_least(&self, other: &Self) -> (b: bool) {
        *self >= *other
    }
}

/// A warn threshold must stay below the alert threshold: one at or above it
/// is lowered to the alert threshold, which never changes.
pub fn validate_thresholds<T: Threshold>(warn: &mut T, alert: &mut T, _name: &str)
    ensures
        *final(alert) == *old(alert),
        *final(warn) == (if old(warn).level() >= old(alert).level() {
            *old(alert)
        } else {
            *old(warn)
        }),
{
    if warn.at_least(alert) {
        *warn = *alert;
    }
}

/// A pair of thresholds after validation.
pub open spec fn clamp_warn(warn: int, alert: int) -> int {
    if warn >= alert {
        alert
    } else {
        warn
    }
}

/// How the CPU gauge reads.
#[derive(Clone, Copy, Debug, PartialEq, Eq, Structural)]
pub enum CpuFormat {
    Percentage,
    Frequency,
}

/// How the memory gauge reads.
#[derive(Clone, Copy, Debug, PartialEq, Eq, Structural)]
pub enum MemoryFormat {
    Percentage,
    Fraction,
}

/// How the disk gauge reads.
#[derive(Clone, Copy, Debug, PartialEq, Eq, Structural)]
pub enum DiskFormat {
    Percentage,
    Fraction,
}

/// CPU gauge settings.
#[derive(Clone, Copy, Debug, PartialEq, Eq, Structural)]
pub struct SystemInfoCpu {
    pub warn_threshold: u32,
    pub alert_threshold: u32,
    pub format: CpuFormat,
}

impl SystemInfoCpu {
    /// The settings after validation.
    pub open spec fn validated(self) -> Self {
        SystemInfoCpu {
            warn_threshold: clamp_warn(self.warn_threshold as int, self.alert_threshold as int) as u32,
            ..self
        }
    }

    /// Lowers a warn threshold that is not below the alert threshold.
    pub fn validate(&mut self)
        ensures
            *final(self) == old(self).validated(),
    {
        validate_thresholds(&mut self.warn_threshold, &mut self.alert_threshold, "CPU");
    }
}

impl Default for SystemInfoCpu {
    fn default() -> (c: Self)
        ensures
            c == (SystemInfoCpu {
                warn_threshold: 60,
                alert_threshold: 80,
                format: CpuFormat::Percentage,
            }),
    {
        SystemInfoCpu { warn_threshold: 60, alert_threshold: 80, format: CpuFormat::Percentage }
    }
}

/// Memory gauge settings.
#[derive(Clone, Copy, Debug, PartialEq, Eq, Structural)]
pub struct SystemInfoMemory {
    pub warn_threshold: u32,
    pub alert_threshold: u32,
    pub format: MemoryFormat,
}

impl SystemInfoMemory {
    /// The settings after validation.
    pub open spec fn validated(self) -> Self {
        SystemInfoMemory {
            warn_threshold: clamp_warn(self.warn_threshold as int, self.alert_threshold as int) as u32,
            ..self
        }
    }

    /// Lowers a warn threshold that is not below the alert threshold.
    pub fn validate(&mut self)
        ensures
            *final(self) == old(self).validated(),
    {
        validate_thresholds(&mut self.warn_threshold, &mut self.alert_threshold, "Memory");
    }
}

impl Default for SystemInfoMemory {
    fn default() -> (m: Self)
        ensures
            m == (SystemInfoMemory {
                warn_threshold: 70,
                alert_threshold: 85,
                format: MemoryFormat::Percentage,
            }),
    {
        SystemInfoMemory {
            warn_threshold: 70,
            alert_threshold: 85,
            format: MemoryFormat::Percentage,
        }
    }
}

/// Default temperature warn threshold, in degrees Celsius.
pub const DEFAULT_TEMP_WARN_CELSIUS: i32 = 60;

/// Default temperature alert threshold, in degrees Celsius.
pub const DEFAULT_TEMP_ALERT_CELSIUS: i32 = 80;

/// Kinds of temperature sensor that are looked up by kind.
#[derive(Clone, Copy, Debug, PartialEq, Eq, Structural)]
pub enum TemperatureSensorType {
    Cpu,
    Gpu,
    Acpi,
    Nvme,
}

impl Default for TemperatureSensorType {
    fn default() -> (t: Self)
        ensures
            t == TemperatureSensorType::Cpu,
    {
        TemperatureSensorType::Cpu
    }
}

/// A sensor kind (found automatically) or an exact sensor label.
#[derive(Clone, Debug, PartialEq, Eq)]
pub enum TemperatureSensor {
    Type(TemperatureSensorType),
    Label(String),
}

impl Default for TemperatureSensor {
    fn default() -> (s: Self)
        ensures
            s == TemperatureSensor::Type(TemperatureSensorType::Cpu),
    {
        TemperatureSensor::Type(TemperatureSensorType::Cpu)
    }
}

/// Temperature gauge settings. Unset thresholds and unit follow the
/// locale's measurement system.
#[derive(Clone, Debug)]
pub struct SystemInfoTemperature {
    warn_threshold: Option<i32>,
    alert_threshold: Option<i32>,
    pub sensor: TemperatureSensor,
    units: Option<TemperatureUnit>,
}

impl SystemInfoTemperature {
    /// The configured warn threshold, if any.
    pub closed spec fn configured_warn(&self) -> Option<i32> {
        self.warn_threshold
    }

    /// The configured alert threshold, if any.
    pub closed spec fn configured_alert(&self) -> Option<i32> {
        self.alert_threshold
    }

    /// The sensor the gauge reads.
    pub closed spec fn sensor_spec(&self) -> TemperatureSensor {
        self.sensor
    }

    /// The configured unit, if any.
    pub closed spec fn configured_units(&self) -> Option<TemperatureUnit> {
        self.units
    }

    /// The settings as read from the configuration.
    pub fn new(
        warn_threshold: Option<i32>,
        alert_threshold: Option<i32>,
        sensor: TemperatureSensor,
        units: Option<TemperatureUnit>,
    ) -> (t: Self)
        ensures
            t.configured_warn() == warn_threshold,
            t.configured_alert() == alert_threshold,
            t.sensor_spec() == sensor,
            t.configured_units() == units,
    {
        SystemInfoTemperature { warn_threshold, alert_threshold, sensor, units }
    }

    /// Settings with nothing configured.
    pub fn unset() -> (t: Self)
        ensures
            t.configured_warn() is None,
            t.configured_alert() is None,
            t.sensor_spec() == TemperatureSensor::Type(TemperatureSensorType::Cpu),
            t.configured_units() is None,
    {
        SystemInfoTemperature {
            warn_threshold: None,
            alert_threshold: None,
            sensor: TemperatureSensor::default(),
            units: None,
        }
    }

    /// The unit in effect: the configured one, else that of `system`.
    pub open spec fn resolved_units_spec(&self, system: UnitSystem) -> TemperatureUnit {
        match self.configured_units() {
            Some(u) => u,
            None => match system {
                UnitSystem::Metric => TemperatureUnit::Celsius,
                UnitSystem::Imperial => TemperatureUnit::Fahrenheit,
            },
        }
    }

    /// The unit temperatures are read and compared in.
    pub fn resolved_units(&self, system: UnitSystem) -> (u: TemperatureUnit)
        ensures
            u == self.resolved_units_spec(system),
    {
        match self.units {
            Some(u) => u,
            None => system.temperature_unit(),
        }
    }

    /// The warn threshold in effect: the configured one, else 60 °C in the
    /// unit in effect.
    pub fn warn_threshold(&self, system: UnitSystem) -> (t: i32)
        ensures
            t == (match self.configured_warn() {
                Some(w) => w as int,
                None => convert_celsius_spec(self.resolved_units_spec(system), 60),
            }),
    {
        match self.warn_threshold {
            Some(w) => w,
            None => self.resolved_units(system).convert_celsius(DEFAULT_TEMP_WARN_CELSIUS),
        }
    }

    /// The alert threshold in effect: the configured one, else 80 °C in the
    /// unit in effect.
    pub fn alert_threshold(&self, system: UnitSystem) -> (t: i32)
        ensures
            t == (match self.configured_alert() {
                Some(a) => a as int,
                None => convert_celsius_spec(self.resolved_units_spec(system), 80),
            }),
    {
        match self.alert_threshold {
            Some(a) => a,
            None => self.resolved_units(system).convert_celsius(DEFAULT_TEMP_ALERT_CELSIUS),
        }
    }

    /// The configured warn threshold after validation: lowered to the
    /// configured alert threshold when both are set and it is not below it.
    pub open spec fn validated_warn(&self) -> Option<i32> {
        match (self.configured_warn(), self.configured_alert()) {
            (Some(w), Some(a)) => Some(clamp_warn(w as int, a as int) as i32),
            (w, _) => w,
        }
    }

    /// Validates thresholds that are both configured.
    pub fn validate(&mut self)
        ensures
            final(self).configured_warn() == old(self).validated_warn(),
            final(self).configured_alert() == old(self).configured_alert(),
            final(self).configured_units() == old(self).configured_units(),
            final(self).sensor_spec() == old(self).sensor_spec(),
    {
        if let (Some(warn), Some(alert)) = (&mut self.warn_threshold, &mut self.alert_threshold) {
            validate_thresholds(warn, alert, "Temperature");
        }
    }
}

impl Default for SystemInfoTemperature {
    fn default() -> (t: Self)
        ensures
            t.configured_warn() is None,
            t.configured_alert() is None,
            t.sensor_spec() == TemperatureSensor::Type(TemperatureSensorType::Cpu),
            t.configured_units() is None,
    {
        SystemInfoTemperature::unset()
    }
}

/// Disk gauge settings.
#[derive(Clone, Debug)]
pub struct SystemInfoDisk {
    pub warn_threshold: u32,
    pub alert_threshold: u32,
    pub format: DiskFormat,
    pub mounts: Option<Vec<String>>,
}

impl SystemInfoDisk {
    /// The settings after validation.
    pub open spec fn validated(self) -> Self {
        SystemInfoDisk {
            warn_threshold: clamp_warn(self.warn_threshold as int, self.alert_threshold as int) as u32,
            ..self
        }
    }

    /// Lowers a warn threshold that is not below the alert threshold.
    pub fn validate(&mut self)
        ensures
            *final(self) == old(self).validated(),
    {
        validate_thresholds(&mut self.warn_threshold, &mut self.alert_threshold, "Disk");
    }
}

impl Default for SystemInfoDisk {
    fn default() -> (d: Self)
        ensures
            d.warn_threshold == 80,
            d.alert_threshold == 90,
            d.format == DiskFormat::Percentage,
            d.mounts is None,
    {
        SystemInfoDisk {
            warn_threshold: 80,
            alert_threshold: 90,
            format: DiskFormat::Percentage,
            mounts: None,
        }
    }
}

/// A disk indicator: the mount point to watch and an optional label.
#[derive(Clone, Debug, PartialEq, Eq)]
pub struct SystemInfoDiskIndicatorConfig {
    pub path: String,
    pub name: Option<String>,
}

/// One indicator of the module.
#[derive(Clone, Debug)]
pub enum SystemInfoIndicator {
    Cpu,
    Memory,
    MemorySwap,
    Temperature,
    IpAddress,
    DownloadSpeed,
    UploadSpeed,
    Disk(SystemInfoDiskIndicatorConfig),
}

/// The system-information module's settings.
#[derive(Clone, Debug)]
pub struct SystemInfoModuleConfig {
    pub indicators: Vec<SystemInfoIndicator>,
    /// Seconds between samples.
    pub interval: u64,
    pub cpu: SystemInfoCpu,
    pub memory: SystemInfoMemory,
    pub temperature: SystemInfoTemperature,
    pub disk: SystemInfoDisk,
}

impl SystemInfoModuleConfig {
    /// The sampling interval used when none is configured.
    pub fn default_interval() -> (i: u64)
        ensures
            i == 5,
    {
        5
    }

    /// Clamps a zero interval to one second and validates every gauge's
    /// thresholds.
    pub fn validate(&mut self)
        ensures
            final(self).interval == (if old(self).interval == 0 {
                1
            } else {
                old(self).interval
            }),
            final(self).indicators == old(self).indicators,
            final(self).cpu == old(self).cpu.validated(),
            final(self).memory == old(self).memory.validated(),
            final(self).disk == old(self).disk.validated(),
            final(self).temperature.configured_warn() == old(self).temperature.validated_warn(),
            final(self).temperature.configured_alert() == old(self).temperature.configured_alert(),
            final(self).temperature.configured_units() == old(self).temperature.configured_units(),
            final(self).temperature.sensor_spec() == old(self).temperature.sensor_spec(),
    {
        if self.interval == 0 {
            self.interval = 1;
        }
        self.cpu.validate();
        self.memory.validate();
        self.temperature.validate();
        self.disk.validate();
    }
}

impl Default for SystemInfoModuleConfig {
    fn default() -> (c: Self)
        ensures
            c.indicators@.len() == 3,
            c.indicators@[0] is Cpu,
            c.indicators@[1] is Memory,
            c.indicators@[2] is Temperature,
            c.interval == 5,
            c.cpu == (SystemInfoCpu {
                warn_threshold: 60,
                alert_threshold: 80,
                format: CpuFormat::Percentage,
            }),
            c.memory == (SystemInfoMemory {
                warn_threshold: 70,
                alert_threshold: 85,
                format: MemoryFormat::Percentage,
            }),
            c.temperature.configured_warn() is None,
            c.temperature.configured_alert() is None,
            (c.temperature.configured_units() is None),
            c.temperature.sensor_spec() == TemperatureSensor::Type(TemperatureSensorType::Cpu),
            c.disk.warn_threshold == 80,
            c.disk.alert_threshold == 90,
            c.disk.format == DiskFormat::Percentage,
            (c.disk.mounts is None),
    {
        let mut indicators = Vec::new();
        indicators.push(SystemInfoIndicator::Cpu);
        indicators.push(SystemInfoIndicator::Memory);
        indicators.push(SystemInfoIndicator::Temperature);
        SystemInfoModuleConfig {
            indicators,
            interval: Self::default_interval(),
            cpu: SystemInfoCpu::default(),
            memory: SystemInfoMemory::default(),
            temperature: SystemInfoTemperature::default(),
            disk: SystemInfoDisk::default(),
        }
    }
}

/// Validating thresholds twice changes nothing the first pass did not: a
/// clamped warn threshold equals the alert threshold and stays put.
pub proof fn law_threshold_validation_idempotent(cpu: SystemInfoCpu, memory: SystemInfoMemory, disk: SystemInfoDisk)
    ensures
        cpu.validated().validated() == cpu.validated(),
        memory.validated().validated() == memory.validated(),
        disk.validated().validated() == disk.validated(),
        cpu.validated().warn_threshold <= cpu.validated().alert_threshold,
        memory.validated().warn_threshold <= memory.validated().alert_threshold,
        disk.validated().warn_threshold <= disk.validated().alert_threshold,
{
}

/// The smaller of two thresholds.
pub open spec fn min_threshold(a: int, b: int) -> int {
    if a <= b {
        a
    } else {
        b
    }
}

/// Law: validating a gauge leaves its warn threshold at the smaller of the
/// two thresholds it had, and changes nothing else: a warn threshold at or
/// above the alert threshold becomes exactly the alert threshold, one below
/// it is kept.
pub proof fn law_warn_becomes_the_smaller_threshold(
    cpu: SystemInfoCpu,
    memory: SystemInfoMemory,
    disk: SystemInfoDisk,
)
    ensures
        cpu.validated().warn_threshold == min_threshold(cpu.warn_threshold as int, cpu.alert_threshold as int),
        cpu.validated().alert_threshold == cpu.alert_threshold,
        cpu.validated().format == cpu.format,
        memory.validated().warn_threshold == min_threshold(
            memory.warn_threshold as int,
            memory.alert_threshold as int,
        ),
        memory.validated().alert_threshold == memory.alert_threshold,
        memory.validated().format == memory.format,
        disk.validated().warn_threshold == min_threshold(disk.warn_threshold as int, disk.alert_threshold as int),
        disk.validated().alert_threshold == disk.alert_threshold,
        disk.validated().format == disk.format,
        disk.validated().mounts == disk.mounts,
{
}

} // verus!
