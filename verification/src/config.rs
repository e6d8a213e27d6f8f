//! The settings of the extension and their defaults.

use vstd::prelude::*;

verus! {

/// How the game's metadata is decrypted.
#[derive(Debug, Clone, PartialEq, Eq)]
pub struct DecryptionConfig {
    pub enabled: bool,
    pub meta_key: Option<String>,
}

/// The settings of the extension.
#[derive(Debug, Clone, PartialEq, Eq)]
pub struct ZokuZokuConfig {
    pub enabled: bool,
    pub game_data_dir: Option<String>,
    pub localize_dict_dump: Option<String>,
    pub auto_download_bundles: bool,
    pub sqlite3: String,
    pub use_game_font: bool,
    pub custom_font: Option<String>,
    pub hachimi_ipc_address: String,
    pub decryption: DecryptionConfig,
}

impl ZokuZokuConfig {
    /// Whether these are the settings that hold where nothing was
    /// configured: the extension off, bundles downloaded when needed, the
    /// `sqlite3` on the path, the game's font, the Hachimi process on this
    /// machine, decryption on, and no directory, dump, font or key named.
    pub open spec fn is_default(&self) -> bool {
        &&& !self.enabled
        &&& self.game_data_dir is None
        &&& self.localize_dict_dump is None
        &&& self.auto_download_bundles
        &&& self.sqlite3@ == "sqlite3"@
        &&& self.use_game_font
        &&& self.custom_font is None
        &&& self.hachimi_ipc_address@ == "127.0.0.1"@
        &&& self.decryption.enabled
        &&& self.decryption.meta_key is None
    }
}

impl Default for ZokuZokuConfig {
    fn default() -> (config: Self)
        ensures
            config.is_default(),
    {
        ZokuZokuConfig {
            enabled: false,
            game_data_dir: None,
            localize_dict_dump: None,
            auto_download_bundles: true,
            sqlite3: String::from_str("sqlite3"),
            use_game_font: true,
            custom_font: None,
            hachimi_ipc_address: String::from_str("127.0.0.1"),
            decryption: DecryptionConfig { enabled: true, meta_key: None },
        }
    }
}

} // verus!
