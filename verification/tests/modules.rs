use lumen::config::custom_module::{CustomModuleDef, CustomModuleType, IconRules};
use lumen::config::default_custom_modules;
use lumen::config::tempo::{resolve_wind_speed_unit, WeatherIndicator, WindSpeedUnit};
use lumen::config::units::UnitSystem;
use lumen::config::watch::{action_for, classify_events, ConfigFileEvent, WatchAction, WatchEvent, WatchMask};
use lumen::modules::arch_menu::{term_hold, ArchMenu, MenuItem, Message as MenuMessage};
use lumen::modules::custom::{
    Custom, CustomLayout, CustomListenData, ListenBuffer, Message, ParseOutcome, MAX_PENDING_BYTES,
};
use lumen::pattern::RegexCfg;

fn rules(pairs: &[(&str, &str)]) -> IconRules {
    let mut r = IconRules::new();
    for (pattern, icon) in pairs {
        r.insert(RegexCfg::new(pattern).unwrap(), icon.to_string());
    }
    r
}

fn def(module_type: CustomModuleType) -> CustomModuleDef {
    CustomModuleDef {
        name: "test".to_string(),
        command: Some("left".to_string()),
        icon: Some("default-icon".to_string()),
        listen_cmd: None,
        icons: Some(rules(&[("^mute", "muted"), ("mute", "second")])),
        alert: Some(RegexCfg::new("critical").unwrap()),
        module_type,
        on_right_click: Some("right".to_string()),
        on_middle_click: None,
        on_scroll_up: Some("up".to_string()),
        on_scroll_down: Some("down".to_string()),
    }
}

fn data(alt: &str, text: Option<&str>) -> CustomListenData {
    CustomListenData {
        alt: alt.to_string(),
        text: text.map(|t| t.to_string()),
    }
}

#[test]
fn interactions_return_their_commands() {
    let mut custom = Custom::new(def(CustomModuleType::Button));
    assert_eq!(custom.update(Message::LaunchCommand), Some("left".to_string()));
    assert_eq!(custom.update(Message::LaunchRightClickCommand), Some("right".to_string()));
    assert_eq!(custom.update(Message::LaunchMiddleClickCommand), None);
    assert_eq!(custom.update(Message::LaunchScrollUpCommand), Some("up".to_string()));
    assert_eq!(custom.update(Message::LaunchScrollDownCommand), Some("down".to_string()));
    assert_eq!(custom.update(Message::Update(data("x", Some("hi")))), None);
    assert_eq!(custom.data.alt, "x");
}

#[test]
fn reload_keeps_the_last_report() {
    let mut custom = Custom::new(def(CustomModuleType::Button));
    custom.update(Message::Update(data("a", Some("label"))));
    custom.reload(def(CustomModuleType::Text));
    assert_eq!(custom.module_type(), CustomModuleType::Text);
    assert_eq!(custom.data.text.as_deref(), Some("label"));
}

#[test]
fn button_layouts_follow_icon_text_and_alert() {
    let mut custom = Custom::new(def(CustomModuleType::Button));
    match custom.layout() {
        CustomLayout::Icon { icon, alert } => {
            assert_eq!(icon, "default-icon");
            assert!(!alert);
        }
        other => panic!("unexpected {other:?}"),
    }
    custom.update(Message::Update(data("muted critical", Some("50%"))));
    match custom.layout() {
        CustomLayout::IconAndText { icon, text, alert } => {
            assert_eq!(icon, "muted");
            assert_eq!(text, "50%");
            assert!(alert);
        }
        other => panic!("unexpected {other:?}"),
    }
    custom.update(Message::Update(data("unmute", Some(""))));
    match custom.layout() {
        CustomLayout::Icon { icon, alert } => {
            assert_eq!(icon, "second");
            assert!(!alert);
        }
        other => panic!("unexpected {other:?}"),
    }
    let mut bare = def(CustomModuleType::Button);
    bare.icon = None;
    bare.icons = None;
    let mut custom = Custom::new(bare);
    assert!(matches!(custom.layout(), CustomLayout::EmptyIcon));
    custom.update(Message::Update(data("critical", Some("5h: 91%"))));
    match custom.layout() {
        CustomLayout::Text { text, alert } => {
            assert_eq!(text, "5h: 91%");
            assert!(alert);
        }
        other => panic!("unexpected {other:?}"),
    }
}

#[test]
fn text_modules_show_text_or_nothing() {
    let mut custom = Custom::new(def(CustomModuleType::Text));
    assert!(matches!(custom.layout(), CustomLayout::Blank));
    custom.update(Message::Update(data("critical", Some("Applications"))));
    match custom.layout() {
        CustomLayout::Label(t) => assert_eq!(t, "Applications"),
        other => panic!("unexpected {other:?}"),
    }
    assert_eq!(CustomListenData::default().alt, "");
}

#[test]
fn listen_buffer_gathers_and_drops() {
    let mut buf = ListenBuffer::new();
    buf.push_line("{\"text\":");
    assert_eq!(buf.as_str(), "{\"text\":\n");
    assert!(!buf.settle(ParseOutcome::Incomplete));
    buf.push_line("\"x\"}");
    assert_eq!(buf.as_str(), "{\"text\":\n\"x\"}\n");
    assert!(buf.settle(ParseOutcome::Parsed));
    assert_eq!(buf.as_str(), "");
    buf.push_line("garbage");
    assert!(buf.settle(ParseOutcome::Invalid));
    assert_eq!(buf.as_str(), "");
    let long = "x".repeat(MAX_PENDING_BYTES);
    buf.push_line(&long);
    assert!(buf.settle(ParseOutcome::Incomplete));
    assert_eq!(buf.as_str(), "");
}

#[test]
fn default_custom_modules_are_the_shipped_four() {
    let mods = default_custom_modules();
    let names: Vec<&str> = mods.iter().map(|m| m.name.as_str()).collect();
    assert_eq!(names, ["Applications", "Overview", "Claude5h", "Claude7d"]);
    assert_eq!(mods[1].on_scroll_up.as_deref(), Some("niri msg action focus-workspace-up"));
    assert!(mods[0].alert.is_none() && mods[1].alert.is_none());
    assert_eq!(
        mods[0].listen_cmd.as_deref(),
        Some("printf '{\"text\":\"Applications\",\"alt\":\"\"}\\n'; sleep infinity")
    );
    for m in &mods[2..] {
        assert!(m.command.is_none() && m.listen_cmd.is_none());
        let alert = m.alert.as_ref().expect("usage-limit modules carry an alert");
        assert_eq!(alert.as_str(), "critical");
        assert!(alert.is_match("usage critical"));
        assert!(!alert.is_match("usage ok"));
    }
}

#[test]
fn arch_menu_entries_run_their_commands() {
    let mut menu = ArchMenu;
    assert_eq!(menu.update(MenuMessage::ShutDown), "systemctl poweroff");
    assert_eq!(menu.update(MenuMessage::LogOut), "niri msg action quit");
    assert_eq!(menu.update(MenuMessage::LockScreen), "hyprlock");
    assert_eq!(menu.update(MenuMessage::AboutThisPc), term_hold("fastfetch"));
    assert_eq!(
        term_hold("fastfetch"),
        "alacritty --class arch-about-float -o window.dimensions.columns=100 -o window.dimensions.lines=40 -e sh -c 'fastfetch ; echo; echo \"Press any key to close...\"; read -n1 -s'"
    );
    assert!(menu
        .update(MenuMessage::CheckForUpdates)
        .contains("checkupdates || echo \"System is up to date.\" ; echo"));
}

#[test]
fn wind_units_and_their_names() {
    assert_eq!(WindSpeedUnit::Kmh.symbol(), "km/h");
    assert_eq!(WindSpeedUnit::Ms.symbol(), "m/s");
    assert_eq!(WindSpeedUnit::Mph.api_param(), "mph");
    assert_eq!(WindSpeedUnit::Ms.api_param(), "ms");
    assert_eq!(resolve_wind_speed_unit(None, UnitSystem::Imperial), WindSpeedUnit::Mph);
    assert_eq!(resolve_wind_speed_unit(None, UnitSystem::Metric), WindSpeedUnit::Kmh);
    assert_eq!(
        resolve_wind_speed_unit(Some(WindSpeedUnit::Ms), UnitSystem::Imperial),
        WindSpeedUnit::Ms
    );
    assert_eq!(WeatherIndicator::default(), WeatherIndicator::IconAndTemperature);
}

fn ev(name: Option<&str>, mask: WatchMask) -> WatchEvent {
    WatchEvent {
        name: name.map(|n| n.to_string()),
        mask,
    }
}

#[test]
fn config_file_events_last_relevant_wins() {
    let file = "config.toml";
    assert_eq!(classify_events(&vec![], file), None);
    assert_eq!(
        classify_events(&vec![ev(Some(file), WatchMask::Modify)], file),
        Some(ConfigFileEvent::Changed)
    );
    assert_eq!(
        classify_events(
            &vec![
                ev(Some(file), WatchMask::Modify),
                ev(Some(file), WatchMask::MovedFrom),
                ev(Some("other.toml"), WatchMask::Create),
                ev(None, WatchMask::Delete),
                ev(Some(file), WatchMask::Other),
            ],
            file
        ),
        Some(ConfigFileEvent::Removed)
    );
    assert_eq!(
        classify_events(&vec![ev(Some(file), WatchMask::Delete), ev(Some(file), WatchMask::MovedTo)], file),
        Some(ConfigFileEvent::Changed)
    );
    assert_eq!(action_for(Some(ConfigFileEvent::Changed)), WatchAction::Reload);
    assert_eq!(action_for(Some(ConfigFileEvent::Removed)), WatchAction::ConfirmRemoval);
    assert_eq!(action_for(None), WatchAction::Ignore);
}

#[test]
fn arch_menu_lists_entries_in_order() {
    let items = ArchMenu.menu_items();
    assert_eq!(items.len(), 9);
    assert_eq!(items[0], MenuItem::Entry("About This PC".to_string(), MenuMessage::AboutThisPc));
    assert_eq!(items[3], MenuItem::Divider);
    assert_eq!(items[5], MenuItem::Entry("Log Out...".to_string(), MenuMessage::LogOut));
    assert_eq!(items[8], MenuItem::Entry("Shut Down...".to_string(), MenuMessage::ShutDown));
}

#[test]
fn layout_composition_covers_every_case() {
    let s = |x: &str| Some(x.to_string());
    assert!(matches!(
        CustomLayout::compose(CustomModuleType::Text, s("i"), s("hello"), true),
        CustomLayout::Label(t) if t == "hello"
    ));
    assert!(matches!(
        CustomLayout::compose(CustomModuleType::Text, s("i"), None, true),
        CustomLayout::Blank
    ));
    assert!(matches!(
        CustomLayout::compose(CustomModuleType::Button, s("i"), s("t"), true),
        CustomLayout::IconAndText { icon, text, alert: true } if icon == "i" && text == "t"
    ));
    assert!(matches!(
        CustomLayout::compose(CustomModuleType::Button, s("i"), None, false),
        CustomLayout::Icon { icon, alert: false } if icon == "i"
    ));
    assert!(matches!(
        CustomLayout::compose(CustomModuleType::Button, None, s("t"), true),
        CustomLayout::Text { text, alert: true } if text == "t"
    ));
    assert!(matches!(
        CustomLayout::compose(CustomModuleType::Button, None, None, true),
        CustomLayout::EmptyIcon
    ));
}

#[test]
fn icon_rules_keep_one_icon_per_pattern() {
    let mut r = rules(&[("^mute", "muted"), ("vol", "speaker")]);
    r.insert(RegexCfg::new("^mute").unwrap(), "silent".to_string());
    assert_eq!(r.len(), 2);
    assert_eq!(r.get(0).0.as_str(), "^mute");
    assert_eq!(r.get(0).1, "silent");
    assert_eq!(r.get(1).1, "speaker");
    r.insert(RegexCfg::new("bt").unwrap(), "bluetooth".to_string());
    let v = r.clone().into_vec();
    let sources: Vec<&str> = v.iter().map(|(re, _)| re.as_str()).collect();
    assert_eq!(sources, ["^mute", "vol", "bt"]);
}
