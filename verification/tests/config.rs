use helix_anywhere::config::{
    clone_names, Config, HotkeyConfig, TerminalConfig, APPLICATION, CONFIG_FILE_NAME,
    ORGANIZATION, QUALIFIER,
};
use helix_anywhere::hotkey::HotkeyListener;
use helix_anywhere::terminal::Terminal;

#[test]
fn the_default_settings_are_command_shift_semicolon_in_ghostty() {
    let config = Config::default();
    assert_eq!(
        config,
        Config {
            hotkey: HotkeyConfig {
                modifiers: vec!["cmd".to_string(), "shift".to_string()],
                key: "semicolon".to_string(),
            },
            terminal: TerminalConfig { name: "ghostty".to_string(), width: 100, height: 30 },
        }
    );
    assert_eq!(HotkeyConfig::default_hotkey(), config.hotkey);
}

#[test]
fn the_default_settings_can_be_listened_for_and_launched() {
    let config = Config::default();
    let listener = HotkeyListener::from_config(&config.hotkey).unwrap();
    assert_eq!(listener.key_code(), 0x29);
    assert_eq!(listener.modifiers(), 0x0012_0000);
    assert_eq!(Terminal::from_name(&config.terminal.name), Some(Terminal::Ghostty));
}

#[test]
fn a_clone_holds_the_same_settings() {
    let config = Config {
        hotkey: HotkeyConfig {
            modifiers: vec!["ctrl".to_string(), "alt".to_string(), "x".to_string()],
            key: "k".to_string(),
        },
        terminal: TerminalConfig { name: "WezTerm".to_string(), width: 81, height: 25 },
    };
    let copy = config.clone();
    assert_eq!(copy, config);
    assert_eq!(copy.hotkey.clone(), config.hotkey);
    assert_eq!(copy.terminal.clone(), config.terminal);
    assert_eq!(clone_names(&config.hotkey.modifiers), config.hotkey.modifiers);
    assert_eq!(clone_names(&vec![]), Vec::<String>::new());
}

#[test]
fn the_settings_file_lies_in_the_settings_directory() {
    assert_eq!(CONFIG_FILE_NAME, "config.toml");
    match (Config::config_dir(), Config::config_path()) {
        (Some(dir), Some(path)) => {
            assert_eq!(path, dir.join("config.toml"));
            assert_eq!(path.parent(), Some(dir.as_path()));
            assert!(dir.to_string_lossy().contains("helix-anywhere"));
        }
        (None, None) => {}
        (dir, path) => panic!("{:?} and {:?} do not go together", dir, path),
    }
}

#[test]
fn the_settings_file_is_named_inside_a_given_directory() {
    let dir = std::path::PathBuf::from("/Users/alice/Library/Application Support/helix");
    assert_eq!(
        Config::config_path_in(Some(dir.clone())),
        Some(std::path::PathBuf::from(
            "/Users/alice/Library/Application Support/helix/config.toml"
        ))
    );
    assert_ne!(Config::config_path_in(Some(dir.clone())), Some(dir));
    assert_eq!(Config::config_path_in(None), None);
    assert_eq!(Config::config_path(), Config::config_path_in(Config::config_dir()));
}

#[test]
fn the_settings_directory_is_that_of_this_application() {
    assert_eq!(QUALIFIER, "com");
    assert_eq!(ORGANIZATION, "helix-anywhere");
    assert_eq!(APPLICATION, "helix-anywhere");
    let expected = directories::ProjectDirs::from("com", "helix-anywhere", "helix-anywhere")
        .map(|dirs| dirs.config_dir().to_path_buf());
    assert_eq!(Config::config_dir(), expected);
}
