//! The Arch menu popup: which shell command each entry runs.

use vstd::prelude::*;

verus! {

/// The entries of the menu.
#[derive(Clone, Copy, Debug, PartialEq, Eq, Structural)]
pub enum Message {
    AboutThisPc,
    SystemSettings,
    CheckForUpdates,
    LockScreen,
    LogOut,
    Sleep,
    Restart,
    ShutDown,
}

/// The command that opens a floating terminal running `cmd` and then waits
/// for a key press, so that the output stays readable.
pub open spec fn term_hold_spec(cmd: Seq<char>) -> Seq<char> {
    "alacritty --class arch-about-float -o window.dimensions.columns=100 -o window.dimensions.lines=40 -e sh -c '"@
        + cmd + " ; echo; echo \"Press any key to close...\"; read -n1 -s'"@
}

/// Wraps `cmd` in a floating terminal that stays open until a key is
/// pressed.
pub fn term_hold(cmd: &str) -> (s: String)
    ensures
        s@ == term_hold_spec(cmd@),
{
    let head = String::from_str(
        "alacritty --class arch-about-float -o window.dimensions.columns=100 -o window.dimensions.lines=40 -e sh -c '",
    );
    head.concat(cmd).concat(" ; echo; echo \"Press any key to close...\"; read -n1 -s'")
}

/// The command run by each entry.
pub open spec fn menu_command_spec(message: Message) -> Seq<char> {
    match message {
        Message::AboutThisPc => term_hold_spec("fastfetch"@),
        Message::SystemSettings => "xfce4-settings-manager"@,
        Message::CheckForUpdates => term_hold_spec("checkupdates || echo \"System is up to date.\""@),
        Message::LockScreen => "hyprlock"@,
        Message::LogOut => "niri msg action quit"@,
        Message::Sleep => "systemctl suspend"@,
        Message::Restart => "systemctl reboot"@,
        Message::ShutDown => "systemctl poweroff"@,
    }
}

/// The Arch menu; it keeps no state.
#[derive(Clone, Copy, Debug, Default)]
pub struct ArchMenu;

impl ArchMenu {
    /// The command the chosen entry runs.
    pub fn update(&mut self, message: Message) -> (command: String)
        ensures
            command@ == menu_command_spec(message),
    {
        match message {
            Message::AboutThisPc => term_hold("fastfetch"),
            Message::SystemSettings => String::from_str("xfce4-settings-manager"),
            Message::CheckForUpdates => term_hold("checkupdates || echo \"System is up to date.\""),
            Message::LockScreen => String::from_str("hyprlock"),
            Message::LogOut => String::from_str("niri msg action quit"),
            Message::Sleep => String::from_str("systemctl suspend"),
            Message::Restart => String::from_str("systemctl reboot"),
            Message::ShutDown => String::from_str("systemctl poweroff"),
        }
    }
}

/// One line of the popup: an entry with its label, or a divider.
#[derive(Clone, Debug, PartialEq, Eq)]
pub enum MenuItem {
    Entry(String, Message),
    Divider,
}

/// The spec view of a menu line: the label's characters, or nothing for a
/// divider.
pub open spec fn item_view(item: MenuItem) -> Option<(Seq<char>, Message)> {
    match item {
        MenuItem::Entry(label, message) => Some((label@, message)),
        MenuItem::Divider => None,
    }
}

/// The popup's lines from top to bottom: three informational entries, a
/// divider, then the session and power entries.
pub open spec fn menu_spec() -> Seq<Option<(Seq<char>, Message)>> {
    seq![
        Some(("About This PC"@, Message::AboutThisPc)),
        Some(("System Settings"@, Message::SystemSettings)),
        Some(("Check for Updates"@, Message::CheckForUpdates)),
        None,
        Some(("Lock Screen"@, Message::LockScreen)),
        Some(("Log Out..."@, Message::LogOut)),
        Some(("Sleep"@, Message::Sleep)),
        Some(("Restart..."@, Message::Restart)),
        Some(("Shut Down..."@, Message::ShutDown)),
    ]
}

fn entry(label: &str, message: Message) -> (item: MenuItem)
    ensures
        item_view(item) == Some((label@, message)),
{
    MenuItem::Entry(String::from_str(label), message)
}

impl ArchMenu {
    /// The lines of the popup, in order.
    pub fn menu_items(&self) -> (items: Vec<MenuItem>)
        ensures
            items@.map_values(|i: MenuItem| item_view(i)) == menu_spec(),
    {
        let items = vec![
            entry("About This PC", Message::AboutThisPc),
            entry("System Settings", Message::SystemSettings),
            entry("Check for Updates", Message::CheckForUpdates),
            MenuItem::Divider,
            entry("Lock Screen", Message::LockScreen),
            entry("Log Out...", Message::LogOut),
            entry("Sleep", Message::Sleep),
            entry("Restart...", Message::Restart),
            entry("Shut Down...", Message::ShutDown),
        ];
        assert(items@.map_values(|i: MenuItem| item_view(i)) =~= menu_spec());
        items
    }
}

/// Law: no two entries of the menu run the same command; in particular
/// restarting never powers the machine off, nor sleeping either.
pub proof fn law_entries_run_distinct_commands(a: Message, b: Message)
    requires
        a != b,
    ensures
        menu_command_spec(a) != menu_command_spec(b),
{
    reveal_strlit("fastfetch");
    reveal_strlit("xfce4-settings-manager");
    reveal_strlit("checkupdates || echo \"System is up to date.\"");
    reveal_strlit("hyprlock");
    reveal_strlit("niri msg action quit");
    reveal_strlit("systemctl suspend");
    reveal_strlit("systemctl reboot");
    reveal_strlit("systemctl poweroff");
    reveal_strlit(
        "alacritty --class arch-about-float -o window.dimensions.columns=100 -o window.dimensions.lines=40 -e sh -c '",
    );
    reveal_strlit(" ; echo; echo \"Press any key to close...\"; read -n1 -s'");
    if menu_command_spec(a) == menu_command_spec(b) {
        assert(menu_command_spec(a).len() == menu_command_spec(b).len());
    }
}

/// Law: the three power entries run `systemctl` with the verb of their
/// label: sleeping suspends, restarting reboots, shutting down powers off.
pub proof fn law_power_entries_use_their_verb(m: Message)
    ensures
        m == Message::Sleep <==> menu_command_spec(m) == "systemctl suspend"@,
        m == Message::Restart <==> menu_command_spec(m) == "systemctl reboot"@,
        m == Message::ShutDown <==> menu_command_spec(m) == "systemctl poweroff"@,
{
    reveal_strlit("systemctl suspend");
    reveal_strlit("systemctl reboot");
    reveal_strlit("systemctl poweroff");
    if m != Message::Sleep {
        law_entries_run_distinct_commands(m, Message::Sleep);
    }
    if m != Message::Restart {
        law_entries_run_distinct_commands(m, Message::Restart);
    }
    if m != Message::ShutDown {
        law_entries_run_distinct_commands(m, Message::ShutDown);
    }
}

} // verus!
