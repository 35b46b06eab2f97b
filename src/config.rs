//! Settings of the terminal chat client.
use vstd::prelude::*;
use std::collections::HashMap;

verus! {

/// The text of each keyboard shortcut.
pub struct ShortcutConfig {
    pub quit: String,
    pub next_chat: String,
    pub prev_chat: String,
    pub send_message: String,
    pub search: String,
    pub toggle_sidebar: String,
    pub scroll_up: String,
    pub scroll_down: String,
    pub page_up: String,
    pub page_down: String,
}

impl Clone for ShortcutConfig {
    fn clone(&self) -> (r: ShortcutConfig)
        ensures
            r == *self,
    {
        ShortcutConfig {
            quit: self.quit.clone(),
            next_chat: self.next_chat.clone(),
            prev_chat: self.prev_chat.clone(),
            send_message: self.send_message.clone(),
            search: self.search.clone(),
            toggle_sidebar: self.toggle_sidebar.clone(),
            scroll_up: self.scroll_up.clone(),
            scroll_down: self.scroll_down.clone(),
            page_up: self.page_up.clone(),
            page_down: self.page_down.clone(),
        }
    }
}

impl Default for ShortcutConfig {
    fn default() -> (r: ShortcutConfig)
        ensures
            r.quit@ == "Ctrl+Q"@,
            r.next_chat@ == "Ctrl+N"@,
            r.prev_chat@ == "Ctrl+P"@,
            r.send_message@ == "Enter"@,
            r.search@ == "Ctrl+F"@,
            r.toggle_sidebar@ == "Ctrl+L"@,
            r.scroll_up@ == "Up"@,
            r.scroll_down@ == "Down"@,
            r.page_up@ == "PageUp"@,
            r.page_down@ == "PageDown"@,
    {
        ShortcutConfig {
            quit: String::from_str("Ctrl+Q"),
            next_chat: String::from_str("Ctrl+N"),
            prev_chat: String::from_str("Ctrl+P"),
            send_message: String::from_str("Enter"),
            search: String::from_str("Ctrl+F"),
            toggle_sidebar: String::from_str("Ctrl+L"),
            scroll_up: String::from_str("Up"),
            scroll_down: String::from_str("Down"),
            page_up: String::from_str("PageUp"),
            page_down: String::from_str("PageDown"),
        }
    }
}

#[verifier::external_type_specification]
#[verifier::external_body]
pub struct ExPathBuf(std::path::PathBuf);

/// Relies on `dirs::home_dir`: the user's home directory, when the platform
/// tells one.
#[verifier::external_body]
pub fn home_dir() -> (r: Option<std::path::PathBuf>) {
    dirs::home_dir()
}

/// Relies on `PathBuf::from` for a text path.
#[verifier::external_body]
pub fn path_of(s: &str) -> (r: std::path::PathBuf) {
    std::path::PathBuf::from(s)
}

/// Relies on `Path::join`: `part` below `base`.
#[verifier::external_body]
pub fn path_join(base: &std::path::PathBuf, part: &str) -> (r: std::path::PathBuf) {
    base.join(part)
}

/// Name of the client's data directory below the home directory.
pub const DATA_DIR_NAME: &'static str = ".cli-chat-rs";

/// General settings of the client.
pub struct AppConfig {
    /// Where the client keeps its data.
    pub data_dir: std::path::PathBuf,
    /// Log level.
    pub log_level: String,
    /// How many messages to load per chat.
    pub messages_per_chat: usize,
}

impl Default for AppConfig {
    fn default() -> (r: AppConfig)
        ensures
            r.log_level@ == "info"@,
            r.messages_per_chat == 50,
    {
        let home = match home_dir() {
            Some(h) => h,
            None => path_of("."),
        };
        AppConfig {
            data_dir: path_join(&home, DATA_DIR_NAME),
            log_level: String::from_str("info"),
            messages_per_chat: 50,
        }
    }
}

/// Settings of one messaging adapter.
pub struct AdapterConfig {
    /// Whether the adapter is enabled.
    pub enabled: bool,
    /// Adapter-specific settings.
    pub settings: HashMap<String, serde_json::Value>,
}

/// The client's whole configuration.
pub struct Config {
    /// The adapter in use.
    pub active_adapter: String,
    /// Settings per adapter.
    pub adapters: HashMap<String, AdapterConfig>,
    /// Keyboard shortcuts.
    pub shortcuts: ShortcutConfig,
    /// General settings.
    pub app: AppConfig,
}

impl Default for Config {
    fn default() -> (r: Config)
        ensures
            r.active_adapter@ == "demo"@,
            r.adapters@.len() == 0,
            r.shortcuts.quit@ == "Ctrl+Q"@,
            r.app.messages_per_chat == 50,
    {
        Config {
            active_adapter: String::from_str("demo"),
            adapters: HashMap::new(),
            shortcuts: ShortcutConfig::default(),
            app: AppConfig::default(),
        }
    }
}

} // verus!
