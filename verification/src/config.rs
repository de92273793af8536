//! The user's settings: the chord that starts a session and the terminal that
//! hosts the editor.

use std::path::PathBuf;
use vstd::prelude::*;

verus! {

/// The name of the settings file inside the settings directory.
pub const CONFIG_FILE_NAME: &'static str = "config.toml";

/// The qualifier under which the application keeps its settings.
pub const QUALIFIER: &'static str = "com";

/// The organization under which the application keeps its settings.
pub const ORGANIZATION: &'static str = "helix-anywhere";

/// The name under which the application keeps its settings.
pub const APPLICATION: &'static str = "helix-anywhere";

/// A path of the file system, as the standard library holds it. Nothing of
/// what it holds is read here.
#[verifier::external_type_specification]
#[verifier::external_body]
pub struct ExPathBuf(PathBuf);

/// The path of the entry with a given name inside a directory, as
/// `std::path::Path::join` of the standard library gives it. Nothing more is
/// claimed of it than that it depends on the directory and the name alone.
pub uninterp spec fn joined_path(dir: PathBuf, name: Seq<char>) -> PathBuf;

/// `std::path::Path::join`: the result is the path of the entry with the
/// given name inside the directory, a function of the two alone.
#[verifier::external_body]
fn join_path(dir: &PathBuf, name: &str) -> (joined: PathBuf)
    ensures
        joined == joined_path(*dir, name@),
{
    dir.join(name)
}

/// `directories::ProjectDirs::from` with `ProjectDirs::config_dir` of what it
/// gives: the directory that the operating system assigns to the settings of
/// the application with these three identifiers, `None` where the user has
/// no home directory. The answer depends on the user's environment, so
/// nothing is claimed of it.
#[verifier::external_body]
fn project_config_dir(qualifier: &str, organization: &str, application: &str) -> Option<PathBuf> {
    match directories::ProjectDirs::from(qualifier, organization, application) {
        Some(dirs) => Some(dirs.config_dir().to_path_buf()),
        None => None,
    }
}

/// The path of the settings file, given the settings directory: the entry
/// `config.toml` inside the directory, and none where there is no directory.
pub open spec fn settings_file_in(dir: Option<PathBuf>) -> Option<PathBuf> {
    match dir {
        Some(d) => Some(joined_path(d, CONFIG_FILE_NAME@)),
        None => None,
    }
}

/// The chord as the settings write it: modifier names and a key name.
#[derive(Debug, PartialEq, Eq)]
pub struct HotkeyConfig {
    pub modifiers: Vec<String>,
    pub key: String,
}

/// The terminal that hosts the editor, with the window size asked of it.
#[derive(Debug, PartialEq, Eq)]
pub struct TerminalConfig {
    pub name: String,
    pub width: u32,
    pub height: u32,
}

/// All settings.
#[derive(Debug, PartialEq, Eq)]
pub struct Config {
    pub hotkey: HotkeyConfig,
    pub terminal: TerminalConfig,
}

/// What a `HotkeyConfig` holds, as mathematical values.
pub struct HotkeyConfigView {
    pub modifiers: Seq<Seq<char>>,
    pub key: Seq<char>,
}

/// What a `TerminalConfig` holds, as mathematical values.
pub struct TerminalConfigView {
    pub name: Seq<char>,
    pub width: u32,
    pub height: u32,
}

/// What a `Config` holds, as mathematical values.
pub struct ConfigView {
    pub hotkey: HotkeyConfigView,
    pub terminal: TerminalConfigView,
}

impl View for HotkeyConfig {
    type V = HotkeyConfigView;

    open spec fn view(&self) -> HotkeyConfigView {
        HotkeyConfigView { modifiers: self.modifiers.deep_view(), key: self.key@ }
    }
}

impl View for TerminalConfig {
    type V = TerminalConfigView;

    open spec fn view(&self) -> TerminalConfigView {
        TerminalConfigView { name: self.name@, width: self.width, height: self.height }
    }
}

impl View for Config {
    type V = ConfigView;

    open spec fn view(&self) -> ConfigView {
        ConfigView { hotkey: self.hotkey@, terminal: self.terminal@ }
    }
}

/// The chord of a fresh installation: command and shift with the semicolon key.
pub open spec fn default_hotkey_view() -> HotkeyConfigView {
    HotkeyConfigView { modifiers: seq!["cmd"@, "shift"@], key: "semicolon"@ }
}

/// The settings of a fresh installation.
pub open spec fn default_config_view() -> ConfigView {
    ConfigView {
        hotkey: default_hotkey_view(),
        terminal: TerminalConfigView { name: "ghostty"@, width: 100, height: 30 },
    }
}

/// A copy of a list of names.
pub fn clone_names(names: &Vec<String>) -> (copy: Vec<String>)
    ensures
        copy.deep_view() == names.deep_view(),
{
    let mut copy: Vec<String> = Vec::new();
    let mut i: usize = 0;
    while i < names.len()
        invariant
            i <= names.len(),
            copy.len() == i,
            forall|j: int| 0 <= j < i ==> copy@[j]@ == names@[j]@,
        decreases names.len() - i,
    {
        copy.push(names[i].clone());
        i += 1;
    }
    assert(copy.deep_view() =~= names.deep_view());
    copy
}

impl Clone for HotkeyConfig {
    fn clone(&self) -> (copy: Self)
        ensures
            copy@ == self@,
    {
        HotkeyConfig { modifiers: clone_names(&self.modifiers), key: self.key.clone() }
    }
}

impl Clone for TerminalConfig {
    fn clone(&self) -> (copy: Self)
        ensures
            copy@ == self@,
    {
        TerminalConfig { name: self.name.clone(), width: self.width, height: self.height }
    }
}

impl Clone for Config {
    fn clone(&self) -> (copy: Self)
        ensures
            copy@ == self@,
    {
        Config { hotkey: self.hotkey.clone(), terminal: self.terminal.clone() }
    }
}

impl HotkeyConfig {
    /// The chord of a fresh installation.
    pub fn default_hotkey() -> (hotkey: Self)
        ensures
            hotkey@ == default_hotkey_view(),
    {
        let mut modifiers: Vec<String> = Vec::new();
        modifiers.push("cmd".to_owned());
        modifiers.push("shift".to_owned());
        let hotkey = HotkeyConfig { modifiers, key: "semicolon".to_owned() };
        assert(hotkey@.modifiers =~= default_hotkey_view().modifiers);
        hotkey
    }
}

impl Config {
    /// The directory that the operating system assigns to the settings of
    /// this application, `None` where the user has no home directory. The
    /// answer is that of the system for `QUALIFIER`, `ORGANIZATION` and
    /// `APPLICATION`.
    pub fn config_dir() -> Option<PathBuf> {
        project_config_dir(QUALIFIER, ORGANIZATION, APPLICATION)
    }

    /// The path of the settings file inside a given settings directory,
    /// `None` where there is no directory.
    pub fn config_path_in(dir: Option<PathBuf>) -> (path: Option<PathBuf>)
        ensures
            path == settings_file_in(dir),
    {
        match dir {
            Some(d) => Some(join_path(&d, CONFIG_FILE_NAME)),
            None => None,
        }
    }

    /// The path of the settings file: `config.toml` inside the settings
    /// directory, `None` where there is no settings directory. Which
    /// directory that is, is the answer of `config_dir`.
    pub fn config_path() -> (path: Option<PathBuf>)
        ensures
            exists|dir: Option<PathBuf>| path == #[trigger] settings_file_in(dir),
    {
        Self::config_path_in(Self::config_dir())
    }
}

impl Default for Config {
    fn default() -> (config: Self)
        ensures
            config@ == default_config_view(),
    {
        Config {
            hotkey: HotkeyConfig::default_hotkey(),
            terminal: TerminalConfig { name: "ghostty".to_owned(), width: 100, height: 30 },
        }
    }
}

} // verus!
