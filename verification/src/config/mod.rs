//! The bar's configuration: every section's types, defaults and the
//! validation that clamps out-of-range values.

pub mod appearance;
pub mod custom_module;
pub mod keyboard_layout;
pub mod layout;
pub mod logging;
pub mod media_player;
pub mod notifications;
pub mod osd;
pub mod settings;
pub mod system_info;
pub mod tempo;
pub mod tray;
pub mod units;
pub mod updates;
pub mod watch;
pub mod window_title;
pub mod workspaces;

use crate::config::custom_module::{CustomModuleDef, CustomModuleType};
use crate::config::media_player::MediaPlayerModuleConfig;
use crate::config::settings::SettingsModuleConfig;
use crate::config::system_info::SystemInfoModuleConfig;
use crate::config::updates::UpdatesModuleConfig;
use crate::pattern::{is_ascii_alnum, is_plain_literal, RegexCfg};
use crate::text::opt_view;
use vstd::prelude::*;

verus! {

/// A button entry with only a name, a click command and a listen command.
pub fn button(name: &str, command: &str, listen_cmd: &str) -> (d: CustomModuleDef)
    ensures
        d.name@ == name@,
        opt_view(d.command) == Some(command@),
        d.icon is None,
        opt_view(d.listen_cmd) == Some(listen_cmd@),
        d.icons is None,
        d.alert is None,
        d.module_type == CustomModuleType::Button,
        d.on_right_click is None,
        d.on_middle_click is None,
        d.on_scroll_up is None,
        d.on_scroll_down is None,
{
    CustomModuleDef {
        name: String::from_str(name),
        command: Some(String::from_str(command)),
        icon: None,
        listen_cmd: Some(String::from_str(listen_cmd)),
        icons: None,
        alert: None,
        module_type: CustomModuleType::Button,
        on_right_click: None,
        on_middle_click: None,
        on_scroll_up: None,
        on_scroll_down: None,
    }
}

/// The alert pattern of the usage-limit modules: shows the dot when the
/// reported `alt` mentions `critical`.
pub fn critical_alert() -> (re: Option<RegexCfg>)
    ensures
        re matches Some(r) && r.source() == "critical"@,
{
    let pattern = "critical";
    proof {
        reveal_strlit("critical");
        assert(is_plain_literal(pattern@)) by {
            assert forall|i: int| 0 <= i < pattern@.len() implies #[trigger] is_ascii_alnum(
                pattern@[i],
            ) by {}
        }
    }
    match RegexCfg::new(pattern) {
        Ok(r) => Some(r),
        Err(_) => None,
    }
}

/// A usage-limit module: a button named `name` that shows the alert dot
/// when its reported `alt` is critical. It carries no click or listen
/// command of its own; those come from the configuration file.
pub fn usage_limit_module(name: &str) -> (d: CustomModuleDef)
    ensures
        d.name@ == name@,
        d.command is None,
        d.listen_cmd is None,
        d.alert matches Some(r) && r.source() == "critical"@,
        d.icon is None,
        d.icons is None,
        d.module_type == CustomModuleType::Button,
        d.on_right_click is None,
        d.on_middle_click is None,
        d.on_scroll_up is None,
        d.on_scroll_down is None,
{
    CustomModuleDef {
        name: String::from_str(name),
        command: None,
        icon: None,
        listen_cmd: None,
        icons: None,
        alert: critical_alert(),
        module_type: CustomModuleType::Button,
        on_right_click: None,
        on_middle_click: None,
        on_scroll_up: None,
        on_scroll_down: None,
    }
}

/// The custom modules this bar ships with: an application launcher, the
/// niri overview (whose wheel switches workspaces), and two usage-limit
/// buttons for the five-hour and seven-day windows.
pub fn default_custom_modules() -> (mods: Vec<CustomModuleDef>)
    ensures
        mods@.len() == 4,
        mods@[0].name@ == "Applications"@,
        opt_view(mods@[0].command) == Some("fuzzel"@),
        opt_view(mods@[0].listen_cmd) == Some(
            "printf '{\"text\":\"Applications\",\"alt\":\"\"}\\n'; sleep infinity"@,
        ),
        mods@[0].alert is None,
        mods@[0].on_scroll_up is None && mods@[0].on_scroll_down is None,
        mods@[1].name@ == "Overview"@,
        opt_view(mods@[1].command) == Some("niri msg action toggle-overview"@),
        opt_view(mods@[1].listen_cmd) == Some(
            "printf '{\"text\":\"Workspaces\",\"alt\":\"\"}\\n'; sleep infinity"@,
        ),
        opt_view(mods@[1].on_scroll_up) == Some("niri msg action focus-workspace-up"@),
        opt_view(mods@[1].on_scroll_down) == Some("niri msg action focus-workspace-down"@),
        mods@[1].alert is None,
        mods@[2].name@ == "Claude5h"@,
        mods@[3].name@ == "Claude7d"@,
        forall|i: int|
            2 <= i < 4 ==> {
                &&& (#[trigger] mods@[i]).command is None
                &&& mods@[i].listen_cmd is None
                &&& mods@[i].alert matches Some(r) && r.source() == "critical"@
                &&& mods@[i].on_scroll_up is None
                &&& mods@[i].on_scroll_down is None
            },
        forall|i: int|
            0 <= i < 4 ==> {
                &&& (#[trigger] mods@[i]).module_type == CustomModuleType::Button
                &&& mods@[i].icon is None
                &&& mods@[i].icons is None
                &&& mods@[i].on_right_click is None
                &&& mods@[i].on_middle_click is None
            },
{
    let applications = button(
        "Applications",
        "fuzzel",
        "printf '{\"text\":\"Applications\",\"alt\":\"\"}\\n'; sleep infinity",
    );
    let mut overview = button(
        "Overview",
        "niri msg action toggle-overview",
        "printf '{\"text\":\"Workspaces\",\"alt\":\"\"}\\n'; sleep infinity",
    );
    overview.on_scroll_up = Some(String::from_str("niri msg action focus-workspace-up"));
    overview.on_scroll_down = Some(String::from_str("niri msg action focus-workspace-down"));
    let five_hours = usage_limit_module("Claude5h");
    let seven_days = usage_limit_module("Claude7d");
    let mut mods = Vec::new();
    mods.push(applications);
    mods.push(overview);
    mods.push(five_hours);
    mods.push(seven_days);
    mods
}

/// Validates every section that has rules: the updates section when present,
/// system information, settings and the media player.
pub fn validate_sections(
    updates: &mut Option<UpdatesModuleConfig>,
    system_info: &mut SystemInfoModuleConfig,
    settings: &mut SettingsModuleConfig,
    media_player: &mut MediaPlayerModuleConfig,
)
    ensures
        *final(updates) == (match *old(updates) {
            Some(u) => Some(u.validated()),
            None => None,
        }),
        final(system_info).interval == (if old(system_info).interval == 0 {
            1
        } else {
            old(system_info).interval
        }),
        final(system_info).cpu == old(system_info).cpu.validated(),
        final(system_info).memory == old(system_info).memory.validated(),
        final(system_info).disk == old(system_info).disk.validated(),
        final(system_info).indicators == old(system_info).indicators,
        final(system_info).temperature.configured_warn() == old(
            system_info,
        ).temperature.validated_warn(),
        final(system_info).temperature.configured_alert() == old(
            system_info,
        ).temperature.configured_alert(),
        final(system_info).temperature.configured_units() == old(
            system_info,
        ).temperature.configured_units(),
        final(system_info).temperature.sensor_spec() == old(system_info).temperature.sensor_spec(),
        *final(settings) == old(settings).validated(),
        *final(media_player) == old(media_player).validated(),
{
    if let Some(u) = updates {
        u.validate();
    }
    system_info.validate();
    settings.validate();
    media_player.validate();
}

} // verus!
