//! What the menu shows and what its entries do to the settings. Drawing the
//! menu is left to the driver.

use crate::config::{Config, ConfigView, HotkeyConfig, HotkeyConfigView, TerminalConfigView};
use crate::hotkey::{format_hotkey_display, hotkey_display_of};
use crate::terminal::Terminal;
use crate::text::str_eq;
use vstd::prelude::*;

verus! {

/// The title of every notification.
pub const NOTIFICATION_TITLE: &'static str = "Helix Anywhere";

/// The first entry of the menu.
pub const ABOUT_TITLE: &'static str = "helix-anywhere v0.1.1";

/// The message shown when a recording starts.
pub const RECORDING_PROMPT: &'static str = "Press your new hotkey combination...";

/// The message shown when a recording times out.
pub const RECORDING_TIMED_OUT: &'static str = "Hotkey recording timed out";

/// One entry of the terminal submenu.
#[derive(Debug, PartialEq, Eq)]
pub struct TerminalMenuItem {
    /// The text of the entry.
    pub title: String,
    /// Whether the entry can be chosen.
    pub enabled: bool,
    /// Whether the entry carries the checkmark.
    pub checked: bool,
    /// The name that choosing the entry writes to the settings.
    pub config_name: String,
}

/// What a `TerminalMenuItem` holds, as mathematical values.
pub struct TerminalMenuItemView {
    pub title: Seq<char>,
    pub enabled: bool,
    pub checked: bool,
    pub config_name: Seq<char>,
}

impl View for TerminalMenuItem {
    type V = TerminalMenuItemView;

    open spec fn view(&self) -> TerminalMenuItemView {
        TerminalMenuItemView {
            title: self.title@,
            enabled: self.enabled,
            checked: self.checked,
            config_name: self.config_name@,
        }
    }
}

/// The entry of the terminal submenu for a terminal. An installed terminal
/// can be chosen and is checked where the settings name it, exactly as the
/// menu writes it; one that is not installed is shown as such, cannot be
/// chosen and is not checked.
pub open spec fn terminal_item_of(
    terminal: Terminal,
    installed: bool,
    current: Seq<char>,
) -> TerminalMenuItemView {
    if installed {
        TerminalMenuItemView {
            title: terminal.display_name_of(),
            enabled: true,
            checked: terminal.config_name_of() == current,
            config_name: terminal.config_name_of(),
        }
    } else {
        TerminalMenuItemView {
            title: terminal.display_name_of() + " (not installed)"@,
            enabled: false,
            checked: false,
            config_name: terminal.config_name_of(),
        }
    }
}

/// The entry that shows the chord of the settings.
pub open spec fn current_hotkey_title_of(hotkey: HotkeyConfigView) -> Seq<char> {
    "Current: "@ + hotkey_display_of(hotkey)
}

/// The entry of the terminal submenu for a terminal, given whether the
/// terminal is installed and the terminal name of the settings.
pub fn terminal_menu_item(terminal: Terminal, installed: bool, current: &str) -> (item:
    TerminalMenuItem)
    ensures
        item@ == terminal_item_of(terminal, installed, current@),
{
    if installed {
        TerminalMenuItem {
            title: terminal.display_name().to_owned(),
            enabled: true,
            checked: str_eq(terminal.config_name(), current),
            config_name: terminal.config_name().to_owned(),
        }
    } else {
        let mut title = terminal.display_name().to_owned();
        title.append(" (not installed)");
        TerminalMenuItem {
            title,
            enabled: false,
            checked: false,
            config_name: terminal.config_name().to_owned(),
        }
    }
}

/// Whether an entry of the terminal submenu carries the checkmark after a
/// terminal was chosen: the entry whose name is the chosen one does.
pub fn is_checked(item_name: &str, selected_name: &str) -> (checked: bool)
    ensures
        checked == (item_name@ == selected_name@),
{
    str_eq(item_name, selected_name)
}

/// The text of the entry that shows the chord of the settings.
pub fn current_hotkey_title(hotkey: &HotkeyConfig) -> (title: String)
    ensures
        title@ == current_hotkey_title_of(hotkey@),
{
    let mut title = "Current: ".to_owned();
    title.append(format_hotkey_display(hotkey).as_str());
    title
}

/// The message shown after a chord was recorded.
pub fn hotkey_set_message(hotkey: &HotkeyConfig) -> (message: String)
    ensures
        message@ == "Hotkey set to "@ + hotkey_display_of(hotkey@),
{
    let mut message = "Hotkey set to ".to_owned();
    message.append(format_hotkey_display(hotkey).as_str());
    message
}

/// The message shown after the chord was set back to the default.
pub fn hotkey_reset_message(hotkey: &HotkeyConfig) -> (message: String)
    ensures
        message@ == "Hotkey reset to "@ + hotkey_display_of(hotkey@),
{
    let mut message = "Hotkey reset to ".to_owned();
    message.append(format_hotkey_display(hotkey).as_str());
    message
}

/// The message shown when a recording failed.
pub fn recording_error_message(error: &str) -> (message: String)
    ensures
        message@ == "Error: "@ + error@,
{
    let mut message = "Error: ".to_owned();
    message.append(error);
    message
}

/// Writes the terminal that was chosen in the menu to the settings; the
/// window size and the chord stay.
pub fn select_terminal(config: &mut Config, name: String)
    ensures
        final(config)@ == (ConfigView {
            terminal: TerminalConfigView { name: name@, ..old(config)@.terminal },
            ..old(config)@
        }),
{
    config.terminal.name = name;
}

/// Writes a chord to the settings; the terminal stays.
pub fn set_hotkey(config: &mut Config, hotkey: HotkeyConfig)
    ensures
        final(config)@ == (ConfigView { hotkey: hotkey@, ..old(config)@ }),
{
    config.hotkey = hotkey;
}

} // verus!
