use lumen::config::layout::{Layer, ModuleDef, ModuleName, Modules, Outputs, Position};

#[test]
fn module_name_falls_back_to_custom_for_unknown_strings() {
    assert_eq!(
        ModuleName::from_name("MyPlugin"),
        ModuleName::Custom("MyPlugin".to_string())
    );
}

#[test]
fn modules_contains_finds_names_inside_groups() {
    let modules = Modules {
        left: vec![],
        center: vec![ModuleDef::Group(vec![
            ModuleName::Tray,
            ModuleName::Notifications,
        ])],
        right: vec![],
    };
    assert!(modules.contains(&ModuleName::Notifications));
    assert!(!modules.contains(&ModuleName::Settings));
}

#[test]
fn module_names_parse_to_builtin_modules() {
    assert_eq!(ModuleName::from_name("Updates"), ModuleName::Updates);
    assert_eq!(ModuleName::from_name("Colonnade"), ModuleName::Colonnade);
    assert_eq!(ModuleName::from_name("ArchMenu"), ModuleName::ArchMenu);
    assert_eq!(ModuleName::from_name("KeyboardSubmap"), ModuleName::KeyboardSubmap);
    assert_eq!(ModuleName::from_name("Notifications"), ModuleName::Notifications);
    assert_eq!(ModuleName::from_name("MediaPlayer"), ModuleName::MediaPlayer);
}

#[test]
fn module_names_are_case_sensitive() {
    assert_eq!(
        ModuleName::from_name("tray"),
        ModuleName::Custom("tray".to_string())
    );
    assert_eq!(ModuleName::from_name(""), ModuleName::Custom(String::new()));
}

#[test]
fn same_as_compares_custom_names() {
    let a = ModuleName::Custom("Usage5h".to_string());
    assert!(a.same_as(&ModuleName::Custom("Usage5h".to_string())));
    assert!(!a.same_as(&ModuleName::Custom("Usage7d".to_string())));
    assert!(!a.same_as(&ModuleName::Tray));
    assert!(ModuleName::Tray.same_as(&ModuleName::Tray));
}

#[test]
fn modules_contains_checks_every_section() {
    let modules = Modules::default();
    assert!(modules.contains(&ModuleName::ArchMenu));
    assert!(modules.contains(&ModuleName::Custom("Overview".to_string())));
    assert!(modules.contains(&ModuleName::Tempo));
    assert!(modules.contains(&ModuleName::Custom("Claude7d".to_string())));
    assert!(!modules.contains(&ModuleName::Tray));
    assert!(!modules.contains(&ModuleName::Custom("Nope".to_string())));
}

#[test]
fn default_layout_puts_colonnade_left_and_tempo_last() {
    let modules = Modules::default();
    assert_eq!(modules.left.len(), 4);
    assert!(modules.center.is_empty());
    assert_eq!(modules.right.len(), 5);
    assert!(matches!(&modules.left[3], ModuleDef::Single(ModuleName::Colonnade)));
    assert!(
        matches!(&modules.right[0], ModuleDef::Single(ModuleName::Custom(n)) if n == "Claude5h")
    );
    assert!(
        matches!(&modules.right[1], ModuleDef::Single(ModuleName::Custom(n)) if n == "Claude7d")
    );
    assert!(matches!(&modules.right[4], ModuleDef::Single(ModuleName::Tempo)));
}

#[test]
fn output_targets_must_not_be_empty() {
    assert_eq!(Outputs::targets(vec![]), None);
    assert_eq!(
        Outputs::targets(vec!["DP-1".to_string()]),
        Some(Outputs::Targets(vec!["DP-1".to_string()]))
    );
    assert_eq!(Outputs::default(), Outputs::All);
}

#[test]
fn position_and_layer_defaults() {
    assert_eq!(Position::default(), Position::Top);
    assert_eq!(Layer::default(), Layer::Bottom);
}
