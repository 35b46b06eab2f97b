//! Keyboard shortcuts of the terminal chat client.
use vstd::prelude::*;
use crate::config::ShortcutConfig;

verus! {

/// Application actions that keyboard shortcuts trigger.
#[derive(Clone, Copy, Debug, PartialEq, Eq, Structural)]
pub enum Action {
    Quit,
    NextChat,
    PrevChat,
    SendMessage,
    Search,
    ToggleSidebar,
    ScrollUp,
    ScrollDown,
    PageUp,
    PageDown,
    Nothing,
}

/// The keys that shortcuts use.
#[derive(Clone, Copy, Debug, PartialEq, Eq, Structural)]
pub enum KeyCode {
    Char(char),
    Enter,
    Up,
    Down,
    PageUp,
    PageDown,
    /// Any other key.
    Other,
}

/// No modifier held.
pub const MODIFIERS_NONE: u8 = 0;

/// The control modifier alone.
pub const MODIFIERS_CONTROL: u8 = 2;

/// A key press: the key and the set of modifiers held, as bits (shift 1,
/// control 2, alt 4, and so on).
#[derive(Clone, Copy, Debug, PartialEq, Eq, Structural)]
pub struct KeyEvent {
    pub code: KeyCode,
    pub modifiers: u8,
}

/// The action of a key press: control with a letter of the shortcut table,
/// in either case, or a bare navigation key.
pub open spec fn action_of(key: KeyEvent) -> Action {
    if key.modifiers == MODIFIERS_CONTROL {
        match key.code {
            KeyCode::Char(c) => if c == 'q' || c == 'Q' {
                Action::Quit
            } else if c == 'n' || c == 'N' {
                Action::NextChat
            } else if c == 'p' || c == 'P' {
                Action::PrevChat
            } else if c == 'f' || c == 'F' {
                Action::Search
            } else if c == 'l' || c == 'L' {
                Action::ToggleSidebar
            } else {
                Action::Nothing
            },
            _ => Action::Nothing,
        }
    } else if key.modifiers == MODIFIERS_NONE {
        match key.code {
            KeyCode::Enter => Action::SendMessage,
            KeyCode::Up => Action::ScrollUp,
            KeyCode::Down => Action::ScrollDown,
            KeyCode::PageUp => Action::PageUp,
            KeyCode::PageDown => Action::PageDown,
            _ => Action::Nothing,
        }
    } else {
        Action::Nothing
    }
}

/// Maps key presses to actions.
pub struct KeyboardHandler {
    pub config: ShortcutConfig,
}

impl KeyboardHandler {
    pub fn new(config: ShortcutConfig) -> (r: KeyboardHandler)
        ensures
            r.config == config,
    {
        KeyboardHandler { config }
    }

    /// The action that a key press triggers.
    pub fn handle_key(&self, key: KeyEvent) -> (r: Action)
        ensures
            r == action_of(key),
    {
        if key.modifiers == MODIFIERS_CONTROL {
            match key.code {
                KeyCode::Char(c) => if c == 'q' || c == 'Q' {
                    Action::Quit
                } else if c == 'n' || c == 'N' {
                    Action::NextChat
                } else if c == 'p' || c == 'P' {
                    Action::PrevChat
                } else if c == 'f' || c == 'F' {
                    Action::Search
                } else if c == 'l' || c == 'L' {
                    Action::ToggleSidebar
                } else {
                    Action::Nothing
                },
                _ => Action::Nothing,
            }
        } else if key.modifiers == MODIFIERS_NONE {
            match key.code {
                KeyCode::Enter => Action::SendMessage,
                KeyCode::Up => Action::ScrollUp,
                KeyCode::Down => Action::ScrollDown,
                KeyCode::PageUp => Action::PageUp,
                KeyCode::PageDown => Action::PageDown,
                _ => Action::Nothing,
            }
        } else {
            Action::Nothing
        }
    }

    /// The configured shortcuts with what each does, for display.
    pub fn get_shortcuts_help(&self) -> (r: Vec<(String, String)>)
        ensures
            r@.len() == 8,
            r@[0].0@ == self.config.quit@ && r@[0].1@ == "Quit application"@,
            r@[1].0@ == self.config.next_chat@ && r@[1].1@ == "Next chat"@,
            r@[2].0@ == self.config.prev_chat@ && r@[2].1@ == "Previous chat"@,
            r@[3].0@ == self.config.send_message@ && r@[3].1@ == "Send message"@,
            r@[4].0@ == self.config.search@ && r@[4].1@ == "Search"@,
            r@[5].0@ == self.config.toggle_sidebar@ && r@[5].1@ == "Toggle sidebar"@,
            r@[6].0@ == self.config.scroll_up@ && r@[6].1@ == "Scroll up"@,
            r@[7].0@ == self.config.scroll_down@ && r@[7].1@ == "Scroll down"@,
    {
        let c = &self.config;
        let mut help: Vec<(String, String)> = Vec::new();
        help.push((c.quit.clone(), String::from_str("Quit application")));
        help.push((c.next_chat.clone(), String::from_str("Next chat")));
        help.push((c.prev_chat.clone(), String::from_str("Previous chat")));
        help.push((c.send_message.clone(), String::from_str("Send message")));
        help.push((c.search.clone(), String::from_str("Search")));
        help.push((c.toggle_sidebar.clone(), String::from_str("Toggle sidebar")));
        help.push((c.scroll_up.clone(), String::from_str("Scroll up")));
        help.push((c.scroll_down.clone(), String::from_str("Scroll down")));
        help
    }
}

/// The chat after `selected` in a list of `count`, wrapping to the first.
pub fn next_chat(selected: usize, count: usize) -> (r: usize)
    requires
        selected < count,
    ensures
        r == if selected + 1 == count { 0 } else { selected + 1 },
{
    if selected + 1 == count {
        0
    } else {
        selected + 1
    }
}

/// The chat before `selected` in a list of `count`, wrapping to the last.
pub fn prev_chat(selected: usize, count: usize) -> (r: usize)
    requires
        selected < count,
    ensures
        r == if selected == 0 { count - 1 } else { selected - 1 },
{
    if selected == 0 {
        count - 1
    } else {
        selected - 1
    }
}

} // verus!
