use std::path::PathBuf;
use zokuzoku::commands::CommandError;
use zokuzoku::commands::CommandHandler;
use zokuzoku::config::DecryptionConfig;
use zokuzoku::config::ZokuZokuConfig;
use zokuzoku::data_manager::DataManager;

#[test]
fn test_data_manager() {
    let manager = DataManager::new();
    assert!(manager.localized_data_dir().is_none());
}

#[test]
fn data_manager_without_a_directory_has_no_path() {
    let manager = DataManager::new();
    assert_eq!(manager.get_path(&[]), None);
    assert_eq!(manager.get_path(&["a", "b"]), None);
    assert_eq!(DataManager::default().get_path(&["a"]), None);
}

#[test]
fn data_manager_joins_the_segments_in_order() {
    let mut manager = DataManager::new();
    manager.set_localized_data_dir(PathBuf::from("root"));
    assert_eq!(manager.localized_data_dir(), Some(&PathBuf::from("root")));
    assert_eq!(manager.get_path(&[]), Some(PathBuf::from("root")));
    assert_eq!(manager.get_path(&["test.json"]), Some(PathBuf::from("root").join("test.json")));
    assert_eq!(
        manager.get_path(&["a", "b", "c.json"]),
        Some(PathBuf::from("root").join("a").join("b").join("c.json"))
    );
    assert_ne!(manager.get_path(&["a", "b"]), manager.get_path(&["b", "a"]));
    // The manager's own directory stays as it was.
    assert_eq!(manager.localized_data_dir(), Some(&PathBuf::from("root")));
    manager.set_localized_data_dir(PathBuf::from("other"));
    assert_eq!(manager.get_path(&["x"]), Some(PathBuf::from("other").join("x")));
}

#[test]
fn commands_that_need_a_target() {
    let handler = CommandHandler::new();
    assert_eq!(handler.open_lyrics_editor(Some("3".to_string())), Ok(()));
    assert_eq!(handler.open_lyrics_editor(None), Err(CommandError::NotManual));
    assert_eq!(handler.open_mdb_editor(Some("text_data".to_string())), Ok(()));
    assert_eq!(handler.open_mdb_editor(None), Err(CommandError::NotManual));
    assert_eq!(
        handler.open_story_editor(Some("main".to_string()), Some("000000123".to_string())),
        Ok(())
    );
    assert_eq!(
        handler.open_story_editor(None, Some("000000123".to_string())),
        Err(CommandError::NotManual)
    );
    assert_eq!(
        handler.open_story_editor(Some("main".to_string()), None),
        Err(CommandError::NotManual)
    );
    assert_eq!(handler.open_story_editor(None, None), Err(CommandError::NotManual));
    assert_eq!(CommandError::NotManual.message(), "This command cannot be activated manually");
}

#[test]
fn commands_that_need_nothing() {
    let handler = CommandHandler::default();
    assert_eq!(handler.enable(), Ok(()));
    assert_eq!(handler.open_localize_dict_editor(), Ok(()));
    assert_eq!(handler.reload_localized_data(), Ok(()));
    assert_eq!(handler.set_localized_data_dir(), Ok(()));
    assert_eq!(handler.revert_localized_data_dir(), Ok(()));
    assert_eq!(handler.clear_cache(), Ok(()));
}

#[test]
fn default_settings() {
    assert_eq!(
        ZokuZokuConfig::default(),
        ZokuZokuConfig {
            enabled: false,
            game_data_dir: None,
            localize_dict_dump: None,
            auto_download_bundles: true,
            sqlite3: "sqlite3".to_string(),
            use_game_font: true,
            custom_font: None,
            hachimi_ipc_address: "127.0.0.1".to_string(),
            decryption: DecryptionConfig { enabled: true, meta_key: None },
        }
    );
}
