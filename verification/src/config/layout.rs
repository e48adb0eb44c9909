//! Where the bar sits and which modules it shows, in which section.

use crate::text::str_eq;
use vstd::prelude::*;

verus! {

/// Screen edge the bar is anchored to.
#[derive(Clone, Copy, Debug, PartialEq, Eq, Structural)]
pub enum Position {
    Top,
    Bottom,
}

impl Default for Position {
    fn default() -> (p: Self)
        ensures
            p == Position::Top,
    {
        Position::Top
    }
}

/// Layer-shell layer the bar is drawn on.
#[derive(Clone, Copy, Debug, PartialEq, Eq, Structural)]
pub enum Layer {
    Bottom,
    Top,
    Overlay,
}

impl Default for Layer {
    fn default() -> (l: Self)
        ensures
            l == Layer::Bottom,
    {
        Layer::Bottom
    }
}

/// A module of the bar, by name; any name that is not a built-in module
/// names a custom module.
#[derive(Clone, Debug, PartialEq, Eq)]
pub enum ModuleName {
    Updates,
    Workspaces,
    Colonnade,
    ArchMenu,
    WindowTitle,
    SystemInfo,
    KeyboardLayout,
    KeyboardSubmap,
    Tray,
    Tempo,
    Privacy,
    Settings,
    MediaPlayer,
    Custom(String),
    Notifications,
}

/// A module name with a custom module's name as its characters.
#[verifier::ext_equal]
pub enum ModuleNameView {
    Updates,
    Workspaces,
    Colonnade,
    ArchMenu,
    WindowTitle,
    SystemInfo,
    KeyboardLayout,
    KeyboardSubmap,
    Tray,
    Tempo,
    Privacy,
    Settings,
    MediaPlayer,
    Custom(Seq<char>),
    Notifications,
}

impl View for ModuleName {
    type V = ModuleNameView;

    open spec fn view(&self) -> ModuleNameView {
        match self {
            ModuleName::Updates => ModuleNameView::Updates,
            ModuleName::Workspaces => ModuleNameView::Workspaces,
            ModuleName::Colonnade => ModuleNameView::Colonnade,
            ModuleName::ArchMenu => ModuleNameView::ArchMenu,
            ModuleName::WindowTitle => ModuleNameView::WindowTitle,
            ModuleName::SystemInfo => ModuleNameView::SystemInfo,
            ModuleName::KeyboardLayout => ModuleNameView::KeyboardLayout,
            ModuleName::KeyboardSubmap => ModuleNameView::KeyboardSubmap,
            ModuleName::Tray => ModuleNameView::Tray,
            ModuleName::Tempo => ModuleNameView::Tempo,
            ModuleName::Privacy => ModuleNameView::Privacy,
            ModuleName::Settings => ModuleNameView::Settings,
            ModuleName::MediaPlayer => ModuleNameView::MediaPlayer,
            ModuleName::Custom(s) => ModuleNameView::Custom(s@),
            ModuleName::Notifications => ModuleNameView::Notifications,
        }
    }
}

/// The module a configuration string names.
pub open spec fn parse_module_name(s: Seq<char>) -> ModuleNameView {
    if s == "Updates"@ {
        ModuleNameView::Updates
    } else if s == "Workspaces"@ {
        ModuleNameView::Workspaces
    } else if s == "Colonnade"@ {
        ModuleNameView::Colonnade
    } else if s == "ArchMenu"@ {
        ModuleNameView::ArchMenu
    } else if s == "WindowTitle"@ {
        ModuleNameView::WindowTitle
    } else if s == "SystemInfo"@ {
        ModuleNameView::SystemInfo
    } else if s == "KeyboardLayout"@ {
        ModuleNameView::KeyboardLayout
    } else if s == "KeyboardSubmap"@ {
        ModuleNameView::KeyboardSubmap
    } else if s == "Tray"@ {
        ModuleNameView::Tray
    } else if s == "Notifications"@ {
        ModuleNameView::Notifications
    } else if s == "Tempo"@ {
        ModuleNameView::Tempo
    } else if s == "Privacy"@ {
        ModuleNameView::Privacy
    } else if s == "Settings"@ {
        ModuleNameView::Settings
    } else if s == "MediaPlayer"@ {
        ModuleNameView::MediaPlayer
    } else {
        ModuleNameView::Custom(s)
    }
}

/// The string that names a module in the configuration.
pub open spec fn module_name_text(m: ModuleNameView) -> Seq<char> {
    match m {
        ModuleNameView::Updates => "Updates"@,
        ModuleNameView::Workspaces => "Workspaces"@,
        ModuleNameView::Colonnade => "Colonnade"@,
        ModuleNameView::ArchMenu => "ArchMenu"@,
        ModuleNameView::WindowTitle => "WindowTitle"@,
        ModuleNameView::SystemInfo => "SystemInfo"@,
        ModuleNameView::KeyboardLayout => "KeyboardLayout"@,
        ModuleNameView::KeyboardSubmap => "KeyboardSubmap"@,
        ModuleNameView::Tray => "Tray"@,
        ModuleNameView::Tempo => "Tempo"@,
        ModuleNameView::Privacy => "Privacy"@,
        ModuleNameView::Settings => "Settings"@,
        ModuleNameView::MediaPlayer => "MediaPlayer"@,
        ModuleNameView::Custom(s) => s,
        ModuleNameView::Notifications => "Notifications"@,
    }
}

/// Whether `s` names one of the built-in modules.
pub open spec fn is_builtin_name(s: Seq<char>) -> bool {
    !(parse_module_name(s) is Custom)
}

impl ModuleName {
    /// The module named `name`: a built-in module by its exact name, any
    /// other string a custom module of that name.
    pub fn from_name(name: &str) -> (m: ModuleName)
        ensures
            m@ == parse_module_name(name@),
    {
        if str_eq(name, "Updates") {
            ModuleName::Updates
        } else if str_eq(name, "Workspaces") {
            ModuleName::Workspaces
        } else if str_eq(name, "Colonnade") {
            ModuleName::Colonnade
        } else if str_eq(name, "ArchMenu") {
            ModuleName::ArchMenu
        } else if str_eq(name, "WindowTitle") {
            ModuleName::WindowTitle
        } else if str_eq(name, "SystemInfo") {
            ModuleName::SystemInfo
        } else if str_eq(name, "KeyboardLayout") {
            ModuleName::KeyboardLayout
        } else if str_eq(name, "KeyboardSubmap") {
            ModuleName::KeyboardSubmap
        } else if str_eq(name, "Tray") {
            ModuleName::Tray
        } else if str_eq(name, "Notifications") {
            ModuleName::Notifications
        } else if str_eq(name, "Tempo") {
            ModuleName::Tempo
        } else if str_eq(name, "Privacy") {
            ModuleName::Privacy
        } else if str_eq(name, "Settings") {
            ModuleName::Settings
        } else if str_eq(name, "MediaPlayer") {
            ModuleName::MediaPlayer
        } else {
            ModuleName::Custom(String::from_str(name))
        }
    }

    /// Whether `self` and `other` name the same module.
    pub fn same_as(&self, other: &ModuleName) -> (b: bool)
        ensures
            b == (self@ == other@),
    {
        match (self, other) {
            (ModuleName::Custom(a), ModuleName::Custom(b)) => str_eq(a.as_str(), b.as_str()),
            (ModuleName::Updates, ModuleName::Updates) => true,
            (ModuleName::Workspaces, ModuleName::Workspaces) => true,
            (ModuleName::Colonnade, ModuleName::Colonnade) => true,
            (ModuleName::ArchMenu, ModuleName::ArchMenu) => true,
            (ModuleName::WindowTitle, ModuleName::WindowTitle) => true,
            (ModuleName::SystemInfo, ModuleName::SystemInfo) => true,
            (ModuleName::KeyboardLayout, ModuleName::KeyboardLayout) => true,
            (ModuleName::KeyboardSubmap, ModuleName::KeyboardSubmap) => true,
            (ModuleName::Tray, ModuleName::Tray) => true,
            (ModuleName::Tempo, ModuleName::Tempo) => true,
            (ModuleName::Privacy, ModuleName::Privacy) => true,
            (ModuleName::Settings, ModuleName::Settings) => true,
            (ModuleName::MediaPlayer, ModuleName::MediaPlayer) => true,
            (ModuleName::Notifications, ModuleName::Notifications) => true,
            _ => false,
        }
    }
}

/// Reading a string as a module name gives a custom module of that very
/// name whenever it gives a custom module at all.
pub proof fn lemma_parse_custom_keeps_name(s: Seq<char>)
    requires
        parse_module_name(s) is Custom,
    ensures
        parse_module_name(s) == ModuleNameView::Custom(s),
{
    if s == "Updates"@ {
    } else if s == "Workspaces"@ {
    } else if s == "Colonnade"@ {
    } else if s == "ArchMenu"@ {
    } else if s == "WindowTitle"@ {
    } else if s == "SystemInfo"@ {
    } else if s == "KeyboardLayout"@ {
    } else if s == "KeyboardSubmap"@ {
    } else if s == "Tray"@ {
    } else if s == "Notifications"@ {
    } else if s == "Tempo"@ {
    } else if s == "Privacy"@ {
    } else if s == "Settings"@ {
    } else if s == "MediaPlayer"@ {
    } else {
    }
}

/// Reading back the configuration name of any module gives that module,
/// except for a custom module that borrows a built-in module's name.
pub proof fn law_module_name_round_trip(m: ModuleNameView)
    requires
        m is Custom ==> !is_builtin_name(module_name_text(m)),
    ensures
        parse_module_name(module_name_text(m)) == m,
{
    broadcast use vstd::string::group_string_axioms;

    reveal_strlit("Updates");
    reveal_strlit("Workspaces");
    reveal_strlit("Colonnade");
    reveal_strlit("ArchMenu");
    reveal_strlit("WindowTitle");
    reveal_strlit("SystemInfo");
    reveal_strlit("KeyboardLayout");
    reveal_strlit("KeyboardSubmap");
    reveal_strlit("Tray");
    reveal_strlit("Notifications");
    reveal_strlit("Tempo");
    reveal_strlit("Privacy");
    reveal_strlit("Settings");
    reveal_strlit("MediaPlayer");
    assert("Updates"@.len() == 7 && "Updates"@[0] == 'U');
    assert("Workspaces"@.len() == 10 && "Workspaces"@[0] == 'W');
    assert("Colonnade"@.len() == 9 && "Colonnade"@[0] == 'C');
    assert("ArchMenu"@.len() == 8 && "ArchMenu"@[0] == 'A');
    assert("WindowTitle"@.len() == 11 && "WindowTitle"@[0] == 'W');
    assert("SystemInfo"@.len() == 10 && "SystemInfo"@[0] == 'S');
    assert("KeyboardLayout"@.len() == 14 && "KeyboardLayout"@[0] == 'K');
    assert("KeyboardSubmap"@.len() == 14 && "KeyboardSubmap"@[0] == 'K');
    assert("Tray"@.len() == 4 && "Tray"@[0] == 'T');
    assert("Notifications"@.len() == 13 && "Notifications"@[0] == 'N');
    assert("Tempo"@.len() == 5 && "Tempo"@[0] == 'T');
    assert("Privacy"@.len() == 7 && "Privacy"@[0] == 'P');
    assert("Settings"@.len() == 8 && "Settings"@[0] == 'S');
    assert("MediaPlayer"@.len() == 11 && "MediaPlayer"@[0] == 'M');
    assert("KeyboardLayout"@[8] == 'L' && "KeyboardSubmap"@[8] == 'S');
    match m {
        ModuleNameView::Custom(s) => {
            lemma_parse_custom_keeps_name(s);
        },
        ModuleNameView::Updates => {
            assert(parse_module_name("Updates"@) == ModuleNameView::Updates);
        },
        ModuleNameView::Workspaces => {
            assert(parse_module_name("Workspaces"@) == ModuleNameView::Workspaces);
        },
        ModuleNameView::Colonnade => {
            assert(parse_module_name("Colonnade"@) == ModuleNameView::Colonnade);
        },
        ModuleNameView::ArchMenu => {
            assert(parse_module_name("ArchMenu"@) == ModuleNameView::ArchMenu);
        },
        ModuleNameView::WindowTitle => {
            assert(parse_module_name("WindowTitle"@) == ModuleNameView::WindowTitle);
        },
        ModuleNameView::SystemInfo => {
            assert(parse_module_name("SystemInfo"@) == ModuleNameView::SystemInfo);
        },
        ModuleNameView::KeyboardLayout => {
            assert(parse_module_name("KeyboardLayout"@) == ModuleNameView::KeyboardLayout);
        },
        ModuleNameView::KeyboardSubmap => {
            assert(parse_module_name("KeyboardSubmap"@) == ModuleNameView::KeyboardSubmap);
        },
        ModuleNameView::Tray => {
            assert(parse_module_name("Tray"@) == ModuleNameView::Tray);
        },
        ModuleNameView::Notifications => {
            assert(parse_module_name("Notifications"@) == ModuleNameView::Notifications);
        },
        ModuleNameView::Tempo => {
            assert(parse_module_name("Tempo"@) == ModuleNameView::Tempo);
        },
        ModuleNameView::Privacy => {
            assert(parse_module_name("Privacy"@) == ModuleNameView::Privacy);
        },
        ModuleNameView::Settings => {
            assert(parse_module_name("Settings"@) == ModuleNameView::Settings);
        },
        ModuleNameView::MediaPlayer => {
            assert(parse_module_name("MediaPlayer"@) == ModuleNameView::MediaPlayer);
        },
    }
}

/// One slot of a bar section: a module alone, or a group of modules drawn
/// together.
#[derive(Clone, Debug)]
pub enum ModuleDef {
    Single(ModuleName),
    Group(Vec<ModuleName>),
}

/// A slot with its modules as views.
pub enum ModuleDefView {
    Single(ModuleNameView),
    Group(Seq<ModuleNameView>),
}

impl View for ModuleDef {
    type V = ModuleDefView;

    open spec fn view(&self) -> ModuleDefView {
        match self {
            ModuleDef::Single(m) => ModuleDefView::Single(m@),
            ModuleDef::Group(ms) => ModuleDefView::Group(ms@.map_values(|m: ModuleName| m@)),
        }
    }
}

/// Whether a slot shows module `target`.
pub open spec fn def_contains(def: ModuleDefView, target: ModuleNameView) -> bool {
    match def {
        ModuleDefView::Single(m) => m == target,
        ModuleDefView::Group(ms) => ms.contains(target),
    }
}

/// Whether one of `defs` shows module `target`.
pub open spec fn defs_contain(defs: Seq<ModuleDef>, target: ModuleNameView) -> bool {
    exists|i: int| 0 <= i < defs.len() && def_contains(#[trigger] defs[i]@, target)
}

/// The three sections of the bar, each a list of slots.
#[derive(Clone, Debug)]
pub struct Modules {
    pub left: Vec<ModuleDef>,
    pub center: Vec<ModuleDef>,
    pub right: Vec<ModuleDef>,
}

/// Whether the group `ms` holds `target`.
pub fn group_contains(ms: &Vec<ModuleName>, target: &ModuleName) -> (b: bool)
    ensures
        b == ms@.map_values(|m: ModuleName| m@).contains(target@),
{
    let ghost views = ms@.map_values(|m: ModuleName| m@);
    for k in 0..ms.len()
        invariant
            views == ms@.map_values(|m: ModuleName| m@),
            forall|l: int| 0 <= l < k ==> (#[trigger] ms@[l])@ != target@,
    {
        if ms[k].same_as(target) {
            assert(views[k as int] == target@);
            return true;
        }
    }
    assert forall|l: int| 0 <= l < views.len() implies views[l] != target@ by {
        assert(views[l] == ms@[l]@);
    }
    false
}

/// Whether `defs` shows `target`.
pub fn section_contains(defs: &Vec<ModuleDef>, target: &ModuleName) -> (b: bool)
    ensures
        b == defs_contain(defs@, target@),
{
    for i in 0..defs.len()
        invariant
            forall|j: int| 0 <= j < i ==> !def_contains(#[trigger] defs@[j]@, target@),
    {
        let found = match &defs[i] {
            ModuleDef::Single(m) => m.same_as(target),
            ModuleDef::Group(ms) => group_contains(ms, target),
        };
        assert(found == def_contains(defs@[i as int]@, target@));
        if found {
            return true;
        }
    }
    false
}

impl Modules {
    /// Whether any section shows module `target`, alone or in a group.
    pub fn contains(&self, target: &ModuleName) -> (b: bool)
        ensures
            b == (defs_contain(self.left@, target@) || defs_contain(self.center@, target@)
                || defs_contain(self.right@, target@)),
    {
        section_contains(&self.left, target) || section_contains(&self.center, target)
            || section_contains(&self.right, target)
    }
}

impl Default for Modules {
    /// The layout this bar ships with.
    fn default() -> (m: Self)
        ensures
            m.left@.map_values(|d: ModuleDef| d@) == seq![
                ModuleDefView::Single(ModuleNameView::ArchMenu),
                ModuleDefView::Single(ModuleNameView::Custom("Applications"@)),
                ModuleDefView::Single(ModuleNameView::Custom("Overview"@)),
                ModuleDefView::Single(ModuleNameView::Colonnade),
            ],
            m.center@.len() == 0,
            m.right@.map_values(|d: ModuleDef| d@) == seq![
                ModuleDefView::Single(ModuleNameView::Custom("Claude5h"@)),
                ModuleDefView::Single(ModuleNameView::Custom("Claude7d"@)),
                ModuleDefView::Single(ModuleNameView::SystemInfo),
                ModuleDefView::Single(ModuleNameView::Settings),
                ModuleDefView::Single(ModuleNameView::Tempo),
            ],
    {
        let mut left: Vec<ModuleDef> = Vec::new();
        left.push(ModuleDef::Single(ModuleName::ArchMenu));
        left.push(ModuleDef::Single(ModuleName::Custom(String::from_str("Applications"))));
        left.push(ModuleDef::Single(ModuleName::Custom(String::from_str("Overview"))));
        left.push(ModuleDef::Single(ModuleName::Colonnade));
        let mut right: Vec<ModuleDef> = Vec::new();
        right.push(ModuleDef::Single(ModuleName::Custom(String::from_str("Claude5h"))));
        right.push(ModuleDef::Single(ModuleName::Custom(String::from_str("Claude7d"))));
        right.push(ModuleDef::Single(ModuleName::SystemInfo));
        right.push(ModuleDef::Single(ModuleName::Settings));
        right.push(ModuleDef::Single(ModuleName::Tempo));
        let m = Modules { left, center: Vec::new(), right };
        assert(m.left@.map_values(|d: ModuleDef| d@) =~= seq![
            ModuleDefView::Single(ModuleNameView::ArchMenu),
            ModuleDefView::Single(ModuleNameView::Custom("Applications"@)),
            ModuleDefView::Single(ModuleNameView::Custom("Overview"@)),
            ModuleDefView::Single(ModuleNameView::Colonnade),
        ]);
        assert(m.right@.map_values(|d: ModuleDef| d@) =~= seq![
            ModuleDefView::Single(ModuleNameView::Custom("Claude5h"@)),
            ModuleDefView::Single(ModuleNameView::Custom("Claude7d"@)),
            ModuleDefView::Single(ModuleNameView::SystemInfo),
            ModuleDefView::Single(ModuleNameView::Settings),
            ModuleDefView::Single(ModuleNameView::Tempo),
        ]);
        m
    }
}

/// Which monitors the bar appears on.
#[derive(Clone, Debug, PartialEq, Eq)]
pub enum Outputs {
    All,
    Active,
    /// The named monitors; never an empty list.
    Targets(Vec<String>),
}

impl Default for Outputs {
    fn default() -> (o: Self)
        ensures
            o is All,
    {
        Outputs::All
    }
}

impl Outputs {
    /// The named monitors, refused when the list is empty.
    pub fn targets(names: Vec<String>) -> (res: Option<Outputs>)
        ensures
            res is Some <==> names@.len() > 0,
            res matches Some(o) ==> o == Outputs::Targets(names),
    {
        if names.len() == 0 {
            None
        } else {
            Some(Outputs::Targets(names))
        }
    }
}

} // verus!
