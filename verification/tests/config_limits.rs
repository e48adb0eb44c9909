use lumen::config::logging::directory_or_default;
use lumen::paths::ExpandError;
use lumen::config::media_player::{MediaPlayerModuleConfig, MAX_VISUALIZER_FRAMERATE};
use lumen::config::settings::SettingsModuleConfig;
use lumen::config::system_info::{
    validate_thresholds, SystemInfoCpu, SystemInfoModuleConfig, SystemInfoTemperature,
    TemperatureSensor,
};
use lumen::config::units::{TemperatureUnit, UnitSystem};
use lumen::config::updates::UpdatesModuleConfig;
use lumen::config::validate_sections;

#[test]
fn framerate_above_max_is_clamped() {
    let mut config = MediaPlayerModuleConfig {
        visualizer_framerate: 1000,
        ..MediaPlayerModuleConfig::default()
    };
    config.validate();
    assert_eq!(config.visualizer_framerate, MAX_VISUALIZER_FRAMERATE);
}

#[test]
fn framerate_of_zero_is_clamped_to_one() {
    let mut config = MediaPlayerModuleConfig {
        visualizer_framerate: 0,
        ..MediaPlayerModuleConfig::default()
    };
    config.validate();
    assert_eq!(config.visualizer_framerate, 1);
}

#[test]
fn framerate_in_range_is_kept() {
    let mut config = MediaPlayerModuleConfig {
        visualizer_framerate: 144,
        ..MediaPlayerModuleConfig::default()
    };
    config.validate();
    assert_eq!(config.visualizer_framerate, 144);
    assert_eq!(MediaPlayerModuleConfig::default().visualizer_framerate, 30);
}

#[test]
fn out_of_range_max_volume_is_clamped_to_100() {
    let mut config = SettingsModuleConfig {
        max_volume: 255,
        ..SettingsModuleConfig::default()
    };
    config.validate();
    assert_eq!(config.max_volume, 100);

    config.max_volume = 0;
    config.validate();
    assert_eq!(config.max_volume, 100);
}

#[test]
fn out_of_range_volume_step_is_clamped_to_5() {
    let mut config = SettingsModuleConfig {
        volume_step: 51,
        ..SettingsModuleConfig::default()
    };
    config.validate();
    assert_eq!(config.volume_step, 5);
}

#[test]
fn in_range_values_are_untouched() {
    let mut config = SettingsModuleConfig {
        max_volume: 150,
        volume_step: 10,
        ..SettingsModuleConfig::default()
    };
    config.validate();
    assert_eq!(config.max_volume, 150);
    assert_eq!(config.volume_step, 10);
}

#[test]
fn volume_limits_at_the_edges_are_kept() {
    let mut config = SettingsModuleConfig {
        max_volume: 200,
        volume_step: 50,
        ..SettingsModuleConfig::default()
    };
    config.validate();
    assert_eq!(config.max_volume, 200);
    assert_eq!(config.volume_step, 50);
    config.max_volume = 201;
    config.volume_step = 0;
    config.validate();
    assert_eq!(config.max_volume, 100);
    assert_eq!(config.volume_step, 5);
}

#[test]
fn validate_thresholds_clamps_warn_to_alert_when_equal_or_over() {
    let mut warn = 90;
    let mut alert = 80;
    validate_thresholds(&mut warn, &mut alert, "test");
    assert_eq!(warn, 80);
    assert_eq!(alert, 80);
}

#[test]
fn validate_thresholds_leaves_valid_pair_untouched() {
    let mut warn = 60;
    let mut alert = 80;
    validate_thresholds(&mut warn, &mut alert, "test");
    assert_eq!(warn, 60);
    assert_eq!(alert, 80);
}

#[test]
fn validate_thresholds_clamps_equal_unsigned_pair() {
    let mut warn: u32 = 80;
    let mut alert: u32 = 80;
    validate_thresholds(&mut warn, &mut alert, "test");
    assert_eq!((warn, alert), (80, 80));
}

#[test]
fn system_info_zero_interval_is_clamped_to_one() {
    let mut config = SystemInfoModuleConfig {
        interval: 0,
        ..SystemInfoModuleConfig::default()
    };
    config.validate();
    assert_eq!(config.interval, 1);
}

#[test]
fn system_info_validation_fixes_every_gauge() {
    let mut config = SystemInfoModuleConfig {
        cpu: SystemInfoCpu {
            warn_threshold: 95,
            ..SystemInfoCpu::default()
        },
        temperature: SystemInfoTemperature::new(
            Some(90),
            Some(85),
            TemperatureSensor::default(),
            None,
        ),
        ..SystemInfoModuleConfig::default()
    };
    config.memory.warn_threshold = 85;
    config.validate();
    assert_eq!(config.cpu.warn_threshold, 80);
    assert_eq!(config.memory.warn_threshold, 85);
    assert_eq!(config.disk.warn_threshold, 80);
    assert_eq!(config.interval, 5);
    assert_eq!(config.temperature.warn_threshold(UnitSystem::Metric), 85);
    assert_eq!(config.temperature.alert_threshold(UnitSystem::Metric), 85);
}

#[test]
fn temperature_threshold_defaults_follow_the_unit_system() {
    let temp = SystemInfoTemperature::default();
    for system in [UnitSystem::Metric, UnitSystem::Imperial] {
        assert_eq!(
            temp.warn_threshold(system),
            temp.resolved_units(system).convert_celsius(60)
        );
        assert_eq!(
            temp.alert_threshold(system),
            temp.resolved_units(system).convert_celsius(80)
        );
    }
}

#[test]
fn temperature_defaults_in_each_unit() {
    let temp = SystemInfoTemperature::default();
    assert_eq!(temp.warn_threshold(UnitSystem::Metric), 60);
    assert_eq!(temp.alert_threshold(UnitSystem::Metric), 80);
    assert_eq!(temp.warn_threshold(UnitSystem::Imperial), 140);
    assert_eq!(temp.alert_threshold(UnitSystem::Imperial), 176);
    let celsius = SystemInfoTemperature::new(None, None, TemperatureSensor::default(), Some(TemperatureUnit::Celsius));
    assert_eq!(celsius.resolved_units(UnitSystem::Imperial), TemperatureUnit::Celsius);
    assert_eq!(celsius.warn_threshold(UnitSystem::Imperial), 60);
}

#[test]
fn fahrenheit_conversion_rounds_down() {
    assert_eq!(TemperatureUnit::Fahrenheit.convert_celsius(0), 32);
    assert_eq!(TemperatureUnit::Fahrenheit.convert_celsius(100), 212);
    assert_eq!(TemperatureUnit::Fahrenheit.convert_celsius(-40), -40);
    assert_eq!(TemperatureUnit::Fahrenheit.convert_celsius(-1), 30);
    assert_eq!(TemperatureUnit::Fahrenheit.convert_celsius(1), 33);
    assert_eq!(TemperatureUnit::Celsius.convert_celsius(-7), -7);
}

#[test]
fn updates_zero_interval_is_clamped_to_one() {
    let mut config = UpdatesModuleConfig {
        check_cmd: String::new(),
        update_cmd: String::new(),
        interval: 0,
    };
    config.validate();
    assert_eq!(config.interval, 1);
    assert_eq!(UpdatesModuleConfig::default_interval(), 3600);
}

#[test]
fn validating_twice_is_validating_once() {
    let mut settings = SettingsModuleConfig {
        max_volume: 0,
        volume_step: 200,
        ..SettingsModuleConfig::default()
    };
    settings.validate();
    let (max, step) = (settings.max_volume, settings.volume_step);
    settings.validate();
    assert_eq!((settings.max_volume, settings.volume_step), (max, step));
}

#[test]
fn validate_sections_covers_every_section() {
    let mut updates = Some(UpdatesModuleConfig {
        check_cmd: "checkupdates".to_string(),
        update_cmd: "pacman -Syu".to_string(),
        interval: 0,
    });
    let mut system_info = SystemInfoModuleConfig {
        interval: 0,
        ..SystemInfoModuleConfig::default()
    };
    let mut settings = SettingsModuleConfig {
        max_volume: 0,
        ..SettingsModuleConfig::default()
    };
    let mut media = MediaPlayerModuleConfig {
        visualizer_framerate: 500,
        ..MediaPlayerModuleConfig::default()
    };
    validate_sections(&mut updates, &mut system_info, &mut settings, &mut media);
    assert_eq!(updates.unwrap().interval, 1);
    assert_eq!(system_info.interval, 1);
    assert_eq!(settings.max_volume, 100);
    assert_eq!(media.visualizer_framerate, 144);
    let mut none = None;
    validate_sections(&mut none, &mut system_info, &mut settings, &mut media);
    assert!(none.is_none());
}

#[test]
fn log_directory_falls_back_only_when_expansion_fails() {
    assert_eq!(
        directory_or_default(Ok("/var/log/lumen".to_string()), "/tmp/lumen".to_string()),
        "/var/log/lumen"
    );
    assert_eq!(
        directory_or_default(
            Err(ExpandError { var_name: "NOPE".to_string() }),
            "/tmp/lumen".to_string()
        ),
        "/tmp/lumen"
    );
}
