use whaswapp::config::{AppConfig, Config, ShortcutConfig};
use whaswapp::keyboard::{Action, KeyCode, KeyEvent, KeyboardHandler, MODIFIERS_CONTROL, MODIFIERS_NONE};

fn key(code: KeyCode, modifiers: u8) -> KeyEvent {
    KeyEvent { code, modifiers }
}

#[test]
fn control_letters_and_navigation_keys() {
    let h = KeyboardHandler::new(ShortcutConfig::default());
    assert_eq!(h.handle_key(key(KeyCode::Char('q'), MODIFIERS_CONTROL)), Action::Quit);
    assert_eq!(h.handle_key(key(KeyCode::Char('Q'), MODIFIERS_CONTROL)), Action::Quit);
    assert_eq!(h.handle_key(key(KeyCode::Char('N'), MODIFIERS_CONTROL)), Action::NextChat);
    assert_eq!(h.handle_key(key(KeyCode::Char('p'), MODIFIERS_CONTROL)), Action::PrevChat);
    assert_eq!(h.handle_key(key(KeyCode::Char('f'), MODIFIERS_CONTROL)), Action::Search);
    assert_eq!(h.handle_key(key(KeyCode::Char('l'), MODIFIERS_CONTROL)), Action::ToggleSidebar);
    assert_eq!(h.handle_key(key(KeyCode::Enter, MODIFIERS_NONE)), Action::SendMessage);
    assert_eq!(h.handle_key(key(KeyCode::Up, MODIFIERS_NONE)), Action::ScrollUp);
    assert_eq!(h.handle_key(key(KeyCode::Down, MODIFIERS_NONE)), Action::ScrollDown);
    assert_eq!(h.handle_key(key(KeyCode::PageUp, MODIFIERS_NONE)), Action::PageUp);
    assert_eq!(h.handle_key(key(KeyCode::PageDown, MODIFIERS_NONE)), Action::PageDown);
    assert_eq!(h.handle_key(key(KeyCode::Char('q'), MODIFIERS_NONE)), Action::Nothing);
    assert_eq!(h.handle_key(key(KeyCode::Enter, MODIFIERS_CONTROL)), Action::Nothing);
    assert_eq!(h.handle_key(key(KeyCode::Char('q'), MODIFIERS_CONTROL | 1)), Action::Nothing);
}

#[test]
fn shortcuts_help_lists_eight_entries() {
    let h = KeyboardHandler::new(ShortcutConfig::default());
    let help = h.get_shortcuts_help();
    assert_eq!(help.len(), 8);
    assert_eq!(help[0], ("Ctrl+Q".to_string(), "Quit application".to_string()));
    assert_eq!(help[3], ("Enter".to_string(), "Send message".to_string()));
    assert_eq!(help[7], ("Down".to_string(), "Scroll down".to_string()));
}

#[test]
fn default_settings() {
    let c = Config::default();
    assert_eq!(c.active_adapter, "demo");
    assert!(c.adapters.is_empty());
    assert_eq!(c.shortcuts.page_down, "PageDown");
    let a = AppConfig::default();
    assert_eq!(a.log_level, "info");
    assert_eq!(a.messages_per_chat, 50);
    assert!(a.data_dir.ends_with(".cli-chat-rs"));
}
